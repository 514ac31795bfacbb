use vstd::prelude::*;
use vstd::string::StringSliceAdditionalSpecFns;
use crate::cstr::{c_string_of, has_nul, to_c_string};
use crate::items::PamMsgStyle;
use crate::ops::{read_outcome, read_result};
use crate::status::{status_of, PamError, PamResult};

verus! {

/// The one message handed to the conversation callback: its style and its
/// text as a C string.
pub struct ConvMessage {
    pub style: PamMsgStyle,
    pub text: Vec<u8>,
}

/// The bytes of an optional prompt; no prompt is the empty text.
pub open spec fn prompt_bytes(prompt: Option<&str>) -> Seq<u8> {
    match prompt {
        Some(p) => p.spec_bytes(),
        None => Seq::empty(),
    }
}

/// Builds the message for a conversation. Fails with `SERVICE_ERR` exactly
/// when the prompt holds the terminator byte; this comes before any call
/// to the host.
pub fn conv_message(prompt: Option<&str>, style: PamMsgStyle) -> (r: PamResult<ConvMessage>)
    ensures
        has_nul(prompt_bytes(prompt)) <==> r is Err,
        r is Err ==> r == Err::<ConvMessage, PamError>(PamError::SERVICE_ERR),
        r is Ok ==> r->Ok_0.style == style && r->Ok_0.text@ == c_string_of(prompt_bytes(prompt)),
{
    match prompt {
        None => {
            let text: Vec<u8> = vec![0u8];
            assert(text@ =~= c_string_of(Seq::empty()));
            Ok(ConvMessage { style, text })
        },
        Some(p) => match to_c_string(p) {
            Ok(text) => Ok(ConvMessage { style, text }),
            Err(e) => Err(e),
        },
    }
}

/// What a conversation does next after the conversation item was read.
pub enum ConvNext<T> {
    /// The conversation is over with this result.
    Finish(PamResult<Option<T>>),
    /// Invoke the registered callback with the message.
    Invoke,
}

/// Decides, from the status of reading the conversation item and whether
/// a callback is registered in it, whether to invoke the callback. A failed
/// read ends with its status; no registered callback ends with `None`.
pub fn conv_after_lookup<T>(status: i32, registered: bool) -> (r: ConvNext<T>)
    ensures
        status != 0 ==> r == ConvNext::<T>::Finish(Err(status_of(status))),
        status == 0 && !registered ==> r == ConvNext::<T>::Finish(Ok(None)),
        status == 0 && registered ==> r == ConvNext::<T>::Invoke,
{
    if status != 0 {
        ConvNext::Finish(Err(PamError::new(status)))
    } else if !registered {
        ConvNext::Finish(Ok(None))
    } else {
        ConvNext::Invoke
    }
}

/// The result of a conversation from the callback's status and the first
/// response it gave: the response unchanged on success, else the status,
/// never the response.
pub fn conv_after_reply<T>(status: i32, response: Option<T>) -> (r: PamResult<Option<T>>)
    ensures
        r == read_result(status, response),
        status == 0 ==> r == Ok::<Option<T>, PamError>(response),
        status != 0 ==> r == Err::<Option<T>, PamError>(status_of(status)),
{
    read_outcome(status, response)
}

} // verus!
