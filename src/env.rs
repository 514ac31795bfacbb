use vstd::prelude::*;
use vstd::slice::{slice_subrange, slice_to_vec};
use vstd::string::StringSliceAdditionalSpecFns;
use crate::cstr::{bytes_to_c, has_nul};
use crate::status::{PamError, PamResult};

verus! {

/// The byte `=` that parts a directive's name from its value.
pub const EQ: u8 = 61;

/// An environment list: names mapped to values, both byte strings.
pub type EnvMap = Map<Seq<u8>, Seq<u8>>;

/// Whether `k` is where the name of directive `d` ends: at the first `=`,
/// or at the end when there is none.
pub open spec fn splits_at(d: Seq<u8>, k: int) -> bool {
    &&& 0 <= k <= d.len()
    &&& forall|j: int| 0 <= j < k ==> d[j] != EQ
    &&& (k == d.len() || d[k] == EQ)
}

/// Where the name of directive `d` ends.
pub open spec fn name_end(d: Seq<u8>) -> int {
    choose|k: int| splits_at(d, k)
}

/// The name that directive `d` speaks of.
pub open spec fn directive_name(d: Seq<u8>) -> Seq<u8> {
    d.take(name_end(d))
}

/// The value that directive `d` sets: what follows the first `=`, or `None`
/// for a bare name, which unsets it.
pub open spec fn directive_value(d: Seq<u8>) -> Option<Seq<u8>> {
    if name_end(d) < d.len() {
        Some(d.skip(name_end(d) + 1))
    } else {
        None
    }
}

/// The result of applying directive `d` to `env`, and the list after it:
/// `NAME=VALUE` sets, `NAME=` sets to empty, `NAME` unsets. A directive
/// with the terminator byte fails with `SERVICE_ERR`; one with an empty name,
/// or one that unsets a name that is not there, fails with `BAD_ITEM`.
/// A failed directive leaves the list as it was.
pub open spec fn putenv_effect(env: EnvMap, d: Seq<u8>) -> (PamResult<()>, EnvMap) {
    if has_nul(d) {
        (Err(PamError::SERVICE_ERR), env)
    } else if directive_name(d).len() == 0 {
        (Err(PamError::BAD_ITEM), env)
    } else {
        match directive_value(d) {
            Some(v) => (Ok(()), env.insert(directive_name(d), v)),
            None => if env.contains_key(directive_name(d)) {
                (Ok(()), env.remove(directive_name(d)))
            } else {
                (Err(PamError::BAD_ITEM), env)
            },
        }
    }
}

/// What looking `name` up in `env` gives: `SERVICE_ERR` for a name with the
/// terminator byte, else its value, or `None` when it is not set.
pub open spec fn getenv_result(env: EnvMap, name: Seq<u8>) -> PamResult<Option<Seq<u8>>> {
    if has_nul(name) {
        Err(PamError::SERVICE_ERR)
    } else if env.contains_key(name) {
        Ok(Some(env[name]))
    } else {
        Ok(None)
    }
}

/// A directive splits at one place only.
proof fn lemma_split_unique(d: Seq<u8>, k1: int, k2: int)
    requires
        splits_at(d, k1),
        splits_at(d, k2),
    ensures
        k1 == k2,
{
    if k1 < k2 {
        assert(d[k1] != EQ);
    } else if k2 < k1 {
        assert(d[k2] != EQ);
    }
}

/// Where a directive splits is where its name ends.
proof fn lemma_name_end(d: Seq<u8>, k: int)
    requires
        splits_at(d, k),
    ensures
        name_end(d) == k,
{
    let e = name_end(d);
    assert(splits_at(d, e));
    lemma_split_unique(d, e, k);
}

/// Applying `NAME=VALUE` sets `NAME` to `VALUE`.
proof fn lemma_set_directive(env: EnvMap, name: Seq<u8>, value: Seq<u8>)
    requires
        name.len() > 0,
        !name.contains(EQ),
        !has_nul(name),
        !has_nul(value),
    ensures
        putenv_effect(env, name + seq![EQ] + value) == (
        Ok::<(), PamError>(()),
        env.insert(name, value),
        ),
{
    let n = name.len() as int;
    let d = name + seq![EQ] + value;
    assert(splits_at(d, n)) by {
        assert forall|j: int| 0 <= j < n implies d[j] != EQ by {
            assert(d[j] == name[j]);
        }
    }
    lemma_name_end(d, n);
    assert(directive_name(d) =~= name);
    assert(d.skip(n + 1) =~= value);
    assert(!has_nul(d)) by {
        if d.contains(0u8) {
            let j = choose|j: int| 0 <= j < d.len() && d[j] == 0u8;
            if j < n {
                assert(name[j] == 0u8);
            } else if j > n {
                assert(value[j - n - 1] == 0u8);
            }
        }
    }
}

/// Setting a variable and then reading it gives the value set; setting it
/// to empty gives the empty value; unsetting it leaves it unset.
pub proof fn lemma_putenv_then_getenv(env: EnvMap, name: Seq<u8>, value: Seq<u8>)
    requires
        name.len() > 0,
        !name.contains(EQ),
        !has_nul(name),
        !has_nul(value),
    ensures
        getenv_result(putenv_effect(env, name + seq![EQ] + value).1, name) == Ok::<
            Option<Seq<u8>>,
            PamError,
        >(Some(value)),
        getenv_result(putenv_effect(env, name + seq![EQ]).1, name) == Ok::<
            Option<Seq<u8>>,
            PamError,
        >(Some(Seq::empty())),
        getenv_result(putenv_effect(env, name).1, name) == Ok::<Option<Seq<u8>>, PamError>(None),
{
    lemma_set_directive(env, name, value);
    let empty = Seq::<u8>::empty();
    lemma_set_directive(env, name, empty);
    assert(name + seq![EQ] =~= name + seq![EQ] + empty);
    let n = name.len() as int;
    assert(splits_at(name, n));
    lemma_name_end(name, n);
    assert(directive_name(name) =~= name);
}

/// An environment list kept in memory, with the semantics that the host
/// gives its own list.
pub struct EnvList {
    names: Vec<Vec<u8>>,
    values: Vec<Vec<u8>>,
    contents: Ghost<EnvMap>,
}

impl View for EnvList {
    type V = EnvMap;

    closed spec fn view(&self) -> EnvMap {
        self.contents@
    }
}

/// Whether two byte strings are equal.
fn bytes_eq(a: &[u8], b: &[u8]) -> (r: bool)
    ensures
        r == (a@ == b@),
{
    if a.len() != b.len() {
        return false;
    }
    let mut i: usize = 0;
    while i < a.len()
        invariant
            a@.len() == b@.len(),
            i <= a@.len(),
            forall|j: int| 0 <= j < i ==> a@[j] == b@[j],
        decreases a@.len() - i,
    {
        if a[i] != b[i] {
            return false;
        }
        i = i + 1;
    }
    assert(a@ =~= b@);
    true
}

impl EnvList {
    /// The entries are paired, each name appears once, and the contents
    /// are exactly the entries.
    pub closed spec fn wf(&self) -> bool {
        &&& self.names@.len() == self.values@.len()
        &&& forall|i: int, j: int|
            0 <= i < j < self.names@.len() ==> self.names@[i]@ != self.names@[j]@
        &&& forall|i: int|
            0 <= i < self.names@.len() ==> #[trigger] self.contents@.contains_key(self.names@[i]@)
                && self.contents@[self.names@[i]@] == self.values@[i]@
        &&& forall|k: Seq<u8>| #[trigger]
            self.contents@.contains_key(k) ==> exists|i: int|
                0 <= i < self.names@.len() && self.names@[i]@ == k
    }

    /// An empty list.
    pub fn new() -> (r: EnvList)
        ensures
            r.wf(),
            r@ == Map::<Seq<u8>, Seq<u8>>::empty(),
    {
        EnvList { names: Vec::new(), values: Vec::new(), contents: Ghost(Map::empty()) }
    }

    /// The position of `name` among the entries, if it is set.
    fn find(&self, name: &[u8]) -> (r: Option<usize>)
        requires
            self.wf(),
        ensures
            r is None ==> !self@.contains_key(name@),
            r is Some ==> r->Some_0 < self.names@.len() && self.names@[r->Some_0 as int]@
                == name@,
    {
        let mut i: usize = 0;
        while i < self.names.len()
            invariant
                self.wf(),
                i <= self.names@.len(),
                forall|j: int| 0 <= j < i ==> self.names@[j]@ != name@,
            decreases self.names@.len() - i,
        {
            if bytes_eq(self.names[i].as_slice(), name) {
                return Some(i);
            }
            i = i + 1;
        }
        None
    }

    /// Sets `name` to `value`.
    fn set(&mut self, name: Vec<u8>, value: Vec<u8>)
        requires
            old(self).wf(),
        ensures
            final(self).wf(),
            final(self)@ == old(self)@.insert(name@, value@),
    {
        let ghost key = name@;
        match self.find(name.as_slice()) {
            Some(i) => {
                self.values[i] = value;
                self.contents = Ghost(self.contents@.insert(key, self.values@[i as int]@));
                assert forall|j: int| 0 <= j < self.names@.len() implies #[trigger]
                    self.contents@.contains_key(self.names@[j]@) && self.contents@[self.names@[j]@]
                        == self.values@[j]@ by {
                    if j != i {
                        assert(old(self).names@[j]@ != key);
                    }
                }
                assert forall|k: Seq<u8>| #[trigger]
                    self.contents@.contains_key(k) implies exists|j: int|
                        0 <= j < self.names@.len() && self.names@[j]@ == k by {
                    if k == key {
                        assert(self.names@[i as int]@ == k);
                    } else {
                        assert(old(self)@.contains_key(k));
                        let j = choose|j: int|
                            0 <= j < old(self).names@.len() && old(self).names@[j]@ == k;
                        assert(self.names@[j]@ == k);
                    }
                }
            },
            None => {
                self.names.push(name);
                self.values.push(value);
                self.contents = Ghost(self.contents@.insert(key, self.values@.last()@));
                let ghost n = self.names@.len() - 1;
                assert(self.names@[n]@ == key);
                assert forall|j: int| 0 <= j < n implies #[trigger] self.names@[j]@ != key by {
                    assert(old(self)@.contains_key(old(self).names@[j]@));
                }
                assert forall|j: int| 0 <= j < self.names@.len() implies #[trigger]
                    self.contents@.contains_key(self.names@[j]@) && self.contents@[self.names@[j]@]
                        == self.values@[j]@ by {
                    if j < n {
                        assert(self.names@[j] == old(self).names@[j]);
                        assert(self.values@[j] == old(self).values@[j]);
                    }
                }
                assert forall|k: Seq<u8>| #[trigger]
                    self.contents@.contains_key(k) implies exists|j: int|
                        0 <= j < self.names@.len() && self.names@[j]@ == k by {
                    if k == key {
                        assert(self.names@[n]@ == k);
                    } else {
                        assert(old(self)@.contains_key(k));
                        let j = choose|j: int|
                            0 <= j < old(self).names@.len() && old(self).names@[j]@ == k;
                        assert(self.names@[j]@ == k);
                    }
                }
            },
        }
    }

    /// Unsets the entry at position `i`.
    fn remove_at(&mut self, i: usize)
        requires
            old(self).wf(),
            i < old(self).names@.len(),
        ensures
            final(self).wf(),
            final(self)@ == old(self)@.remove(old(self).names@[i as int]@),
    {
        let ghost key = self.names@[i as int]@;
        let ghost old_names = self.names@;
        let ghost old_values = self.values@;
        self.names.remove(i);
        self.values.remove(i);
        self.contents = Ghost(self.contents@.remove(key));
        assert forall|j: int| 0 <= j < self.names@.len() implies {
            let o = if j < i {
                j
            } else {
                j + 1
            };
            &&& o != i
            &&& 0 <= o < old_names.len()
            &&& #[trigger] self.names@[j] == old_names[o]
            &&& self.values@[j] == old_values[o]
        } by {}
        assert forall|a: int, b: int|
            0 <= a < b < self.names@.len() implies self.names@[a]@ != self.names@[b]@ by {
            let oa = if a < i {
                a
            } else {
                a + 1
            };
            let ob = if b < i {
                b
            } else {
                b + 1
            };
            assert(oa < ob);
            assert(self.names@[a] == old_names[oa]);
            assert(self.names@[b] == old_names[ob]);
        }
        assert forall|j: int| 0 <= j < self.names@.len() implies #[trigger]
            self.contents@.contains_key(self.names@[j]@) && self.contents@[self.names@[j]@]
                == self.values@[j]@ by {
            let o = if j < i {
                j
            } else {
                j + 1
            };
            assert(self.names@[j] == old_names[o]);
            assert(old_names[o]@ != key);
            assert(old(self)@.contains_key(old_names[o]@));
        }
        assert forall|k: Seq<u8>| #[trigger]
            self.contents@.contains_key(k) implies exists|j: int|
                0 <= j < self.names@.len() && self.names@[j]@ == k by {
            assert(old(self)@.contains_key(k));
            let j = choose|j: int| 0 <= j < old_names.len() && old_names[j]@ == k;
            if j < i {
                assert(self.names@[j]@ == k);
            } else {
                assert(j != i);
                assert(self.names@[j - 1]@ == k);
            }
        }
    }

    /// Applies one directive (`NAME=VALUE`, `NAME=` or `NAME`) to the list;
    /// see `putenv_effect`.
    pub fn putenv(&mut self, name_value: &str) -> (r: PamResult<()>)
        requires
            old(self).wf(),
        ensures
            final(self).wf(),
            (r, final(self)@) == putenv_effect(old(self)@, name_value.spec_bytes()),
    {
        let d = name_value.as_bytes();
        match bytes_to_c(d) {
            Err(e) => return Err(e),
            Ok(_) => {},
        }
        let mut k: usize = 0;
        while k < d.len() && d[k] != EQ
            invariant
                k <= d@.len(),
                forall|j: int| 0 <= j < k ==> d@[j] != EQ,
            decreases d@.len() - k,
        {
            k = k + 1;
        }
        proof {
            lemma_name_end(d@, k as int);
        }
        if k == 0 {
            return Err(PamError::BAD_ITEM);
        }
        let name = slice_to_vec(slice_subrange(d, 0, k));
        assert(name@ =~= directive_name(d@));
        if k < d.len() {
            let value = slice_to_vec(slice_subrange(d, k + 1, d.len()));
            assert(value@ =~= d@.skip(k + 1));
            self.set(name, value);
            Ok(())
        } else {
            match self.find(name.as_slice()) {
                Some(i) => {
                    self.remove_at(i);
                    Ok(())
                },
                None => Err(PamError::BAD_ITEM),
            }
        }
    }

    /// Looks `name` up; see `getenv_result`.
    pub fn getenv(&self, name: &str) -> (r: PamResult<Option<&[u8]>>)
        requires
            self.wf(),
        ensures
            r is Err <==> getenv_result(self@, name.spec_bytes()) is Err,
            r is Err ==> r == Err::<Option<&[u8]>, PamError>(PamError::SERVICE_ERR),
            r is Ok ==> (r->Ok_0 is Some <==> self@.contains_key(name.spec_bytes())),
            r is Ok && r->Ok_0 is Some ==> getenv_result(self@, name.spec_bytes()) == Ok::<
                Option<Seq<u8>>,
                PamError,
            >(Some(r->Ok_0->Some_0@)),
    {
        let n = name.as_bytes();
        match bytes_to_c(n) {
            Err(e) => return Err(e),
            Ok(_) => {},
        }
        match self.find(n) {
            Some(i) => Ok(Some(self.values[i].as_slice())),
            None => Ok(None),
        }
    }
}

} // verus!
