use vstd::prelude::*;
use vstd::string::StringSliceAdditionalSpecFns;
use crate::cstr::{encoded, has_nul, to_c_string};
use crate::items::PamItemType;
use crate::severity::Severity;
use crate::status::{status_of, PamError, PamResult};

verus! {

/// What a read of the handle yields from the host's status and the value
/// it handed back (`None` for a null pointer): the value on success, else
/// the status itself, whatever value came with it.
pub open spec fn read_result<T>(status: i32, value: Option<T>) -> PamResult<Option<T>> {
    if status == 0 {
        Ok(value)
    } else {
        Err(status_of(status))
    }
}

/// Turns the outcome of a host read (an item, the user name, the
/// authentication token, a conversation reply) into a result.
pub fn read_outcome<T>(status: i32, value: Option<T>) -> (r: PamResult<Option<T>>)
    ensures
        r == read_result(status, value),
        status == 0 && value is None ==> r == Ok::<Option<T>, PamError>(None),
        status != 0 ==> r is Err && r->Err_0.code() == status && r->Err_0 != PamError::SUCCESS,
{
    PamError::new(status).to_result(value)
}

/// The code under which a string-valued item is read from the host. Items
/// that hold no C string must be read by another path.
pub fn string_item_code(item: PamItemType) -> (r: i32)
    requires
        item.holds_string(),
    ensures
        r == item.code(),
{
    item.to_code()
}

/// The fixed format under which every log message is sent: `%s` and the
/// terminator, so that the message is only ever a substituted argument.
pub open spec fn log_format() -> Seq<u8> {
    seq![37u8, 115u8, 0u8]
}

/// What the host's logger is handed for one message.
pub struct SyslogRequest {
    pub priority: i32,
    pub format: Vec<u8>,
    pub message: Vec<u8>,
}

/// Prepares a log message: the severity's priority, the fixed format, and
/// the message as a C string. Fails with `SERVICE_ERR` exactly when the
/// message holds the terminator byte.
pub fn syslog_request(severity: Severity, message: &str) -> (r: PamResult<SyslogRequest>)
    ensures
        has_nul(message.spec_bytes()) <==> r is Err,
        r is Err ==> r == Err::<SyslogRequest, PamError>(PamError::SERVICE_ERR),
        r is Ok ==> {
            &&& r->Ok_0.priority == severity.priority()
            &&& r->Ok_0.format@ == log_format()
            &&& encoded(message) == Ok::<Seq<u8>, PamError>(r->Ok_0.message@)
        },
{
    match to_c_string(message) {
        Ok(m) => {
            let format: Vec<u8> = vec![37u8, 115u8, 0u8];
            Ok(SyslogRequest { priority: severity.to_int(), format, message: m })
        },
        Err(e) => Err(e),
    }
}

} // verus!
