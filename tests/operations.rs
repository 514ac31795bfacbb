use pamext::conv::{conv_after_lookup, conv_after_reply, conv_message, ConvNext};
use pamext::cstr::{bytes_to_c, to_c_prompt, to_c_string};
use pamext::items::PamMsgStyle;
use pamext::ops::{read_outcome, syslog_request};
use pamext::severity::Severity;
use pamext::status::PamError;

#[test]
fn encoding_appends_terminator() {
    assert_eq!(to_c_string("abc"), Ok(b"abc\0".to_vec()));
    assert_eq!(to_c_string(""), Ok(vec![0u8]));
    assert_eq!(to_c_string("h\u{e9}"), Ok(vec![b'h', 0xc3, 0xa9, 0]));
    assert_eq!(bytes_to_c(&[1, 2]), Ok(vec![1, 2, 0]));
}

#[test]
fn encoding_refuses_embedded_terminator() {
    assert_eq!(to_c_string("a\0b"), Err(PamError::SERVICE_ERR));
    assert_eq!(to_c_string("\0"), Err(PamError::SERVICE_ERR));
    assert_eq!(to_c_prompt(Some("Login\0: ")), Err(PamError::SERVICE_ERR));
    assert!(matches!(conv_message(Some("x\0"), PamMsgStyle::PROMPT_ECHO_ON), Err(PamError::SERVICE_ERR)));
    assert!(matches!(syslog_request(Severity::Error, "bad\0"), Err(PamError::SERVICE_ERR)));
}

#[test]
fn prompt_absent_or_present() {
    assert_eq!(to_c_prompt(None), Ok(None));
    assert_eq!(to_c_prompt(Some("Password: ")), Ok(Some(b"Password: \0".to_vec())));
}

#[test]
fn read_success_with_null_is_none() {
    assert_eq!(read_outcome::<&str>(0, None), Ok(None));
}

#[test]
fn read_success_with_value() {
    assert_eq!(read_outcome(0, Some("alice")), Ok(Some("alice")));
}

#[test]
fn read_failure_keeps_status_whatever_the_pointer() {
    assert_eq!(read_outcome(7, Some("alice")), Err(PamError::AUTH_ERR));
    assert_eq!(read_outcome::<&str>(7, None), Err(PamError::AUTH_ERR));
    assert_eq!(read_outcome(29, Some("x")), Err(PamError::BAD_ITEM));
    assert_eq!(read_outcome::<&str>(1234, None), Err(PamError::UNKNOWN(1234)));
}

#[test]
fn conv_without_callback_is_none() {
    assert!(matches!(conv_after_lookup::<&str>(0, false), ConvNext::Finish(Ok(None))));
}

#[test]
fn conv_with_callback_invokes() {
    assert!(matches!(conv_after_lookup::<&str>(0, true), ConvNext::Invoke));
}

#[test]
fn conv_item_read_failure() {
    assert!(matches!(
        conv_after_lookup::<&str>(29, true),
        ConvNext::Finish(Err(PamError::BAD_ITEM))
    ));
}

#[test]
fn conv_reply_success_returns_response_unchanged() {
    assert_eq!(conv_after_reply(0, Some("secret")), Ok(Some("secret")));
    assert_eq!(conv_after_reply::<&str>(0, None), Ok(None));
}

#[test]
fn conv_reply_failure_returns_status_not_response() {
    assert_eq!(conv_after_reply(19, Some("secret")), Err(PamError::CONV_ERR));
}

#[test]
fn conv_message_text() {
    let m = conv_message(Some("Code: "), PamMsgStyle::PROMPT_ECHO_ON).unwrap();
    assert_eq!(m.style, PamMsgStyle::PROMPT_ECHO_ON);
    assert_eq!(m.text, b"Code: \0".to_vec());
    let e = conv_message(None, PamMsgStyle::TEXT_INFO).unwrap();
    assert_eq!(e.style, PamMsgStyle::TEXT_INFO);
    assert_eq!(e.text, vec![0u8]);
}

#[test]
fn syslog_message_is_never_the_format() {
    let q = syslog_request(Severity::Info, "100% %s %n").unwrap();
    assert_eq!(q.priority, libc::LOG_INFO);
    assert_eq!(q.format, b"%s\0".to_vec());
    assert_eq!(q.message, b"100% %s %n\0".to_vec());
    let q2 = syslog_request(Severity::Critical, "%x%x%x").unwrap();
    assert_eq!(q2.format, b"%s\0".to_vec());
    assert_eq!(q2.priority, 2);
    assert_eq!(q2.message, b"%x%x%x\0".to_vec());
}
