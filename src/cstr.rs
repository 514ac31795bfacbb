use vstd::prelude::*;
use crate::status::{PamError, PamResult};
use vstd::string::StringSliceAdditionalSpecFns;

verus! {

/// Whether a byte string holds the C terminator byte, which cannot stand
/// inside a C string.
pub open spec fn has_nul(b: Seq<u8>) -> bool {
    b.contains(0u8)
}

/// The C string that carries `b`: its bytes followed by the terminator.
pub open spec fn c_string_of(b: Seq<u8>) -> Seq<u8> {
    b.push(0u8)
}

/// What encoding `s` for the host gives: its C string, or `SERVICE_ERR`
/// when it holds the terminator byte.
pub open spec fn encoded(s: &str) -> PamResult<Seq<u8>> {
    if has_nul(s.spec_bytes()) {
        Err(PamError::SERVICE_ERR)
    } else {
        Ok(c_string_of(s.spec_bytes()))
    }
}

/// Copies `b` into a C string. Fails with `SERVICE_ERR` exactly when `b`
/// holds the terminator byte.
pub fn bytes_to_c(b: &[u8]) -> (r: PamResult<Vec<u8>>)
    ensures
        has_nul(b@) <==> r is Err,
        r is Err ==> r == Err::<Vec<u8>, PamError>(PamError::SERVICE_ERR),
        r is Ok ==> r->Ok_0@ == c_string_of(b@),
{
    let mut out: Vec<u8> = Vec::new();
    let mut i: usize = 0;
    while i < b.len()
        invariant
            i <= b@.len(),
            out@ == b@.subrange(0, i as int),
            forall|j: int| 0 <= j < i ==> b@[j] != 0u8,
        decreases b@.len() - i,
    {
        if b[i] == 0u8 {
            assert(b@[i as int] == 0u8);
            return Err(PamError::SERVICE_ERR);
        }
        out.push(b[i]);
        i = i + 1;
        assert(out@ =~= b@.subrange(0, i as int));
    }
    assert(out@ =~= b@);
    out.push(0u8);
    Ok(out)
}

/// Encodes `s` for the host as a C string; see `encoded`.
pub fn to_c_string(s: &str) -> (r: PamResult<Vec<u8>>)
    ensures
        has_nul(s.spec_bytes()) <==> r is Err,
        r is Err ==> r == Err::<Vec<u8>, PamError>(PamError::SERVICE_ERR),
        r is Ok ==> encoded(s) == Ok::<Seq<u8>, PamError>(r->Ok_0@),
{
    bytes_to_c(s.as_bytes())
}

/// Encodes an optional prompt: `None` stays `None` (the host then uses its
/// default), text becomes its C string, and text that holds the terminator
/// byte gives `SERVICE_ERR`.
pub fn to_c_prompt(prompt: Option<&str>) -> (r: PamResult<Option<Vec<u8>>>)
    ensures
        prompt is None ==> r == Ok::<Option<Vec<u8>>, PamError>(None),
        prompt is Some ==> (has_nul(prompt->Some_0.spec_bytes()) <==> r is Err),
        r is Err ==> r == Err::<Option<Vec<u8>>, PamError>(PamError::SERVICE_ERR),
        prompt is Some && r is Ok ==> r->Ok_0 is Some && encoded(prompt->Some_0)
            == Ok::<Seq<u8>, PamError>(r->Ok_0->Some_0@),
{
    match prompt {
        None => Ok(None),
        Some(p) => match to_c_string(p) {
            Ok(c) => Ok(Some(c)),
            Err(e) => Err(e),
        },
    }
}

} // verus!
