use pamext::items::{PamItemType, PamMsgStyle};
use pamext::ops::string_item_code;
use pamext::severity::Severity;
use pamext::status::PamError;

#[test]
fn severity_codes_are_syslog_priorities() {
    assert_eq!(Severity::Critical.to_int(), libc::LOG_CRIT);
    assert_eq!(Severity::Error.to_int(), libc::LOG_ERR);
    assert_eq!(Severity::Info.to_int(), libc::LOG_INFO);
    assert_eq!(Severity::Debug.to_int(), libc::LOG_DEBUG);
    assert_eq!(Severity::Critical.to_int(), 2);
    assert_eq!(Severity::Debug.to_int(), 7);
}

#[test]
fn severity_codes_are_distinct_and_stable() {
    let all = [Severity::Critical, Severity::Error, Severity::Info, Severity::Debug];
    for (i, a) in all.iter().enumerate() {
        assert_eq!(a.to_int(), a.to_int());
        for (j, b) in all.iter().enumerate() {
            assert_eq!(i == j, a.to_int() == b.to_int());
        }
    }
}

#[test]
fn status_codes_read_and_written_back() {
    assert_eq!(PamError::new(0), PamError::SUCCESS);
    assert_eq!(PamError::new(3), PamError::SERVICE_ERR);
    assert_eq!(PamError::new(19), PamError::CONV_ERR);
    assert_eq!(PamError::new(31), PamError::INCOMPLETE);
    assert_eq!(PamError::new(99), PamError::UNKNOWN(99));
    assert_eq!(PamError::new(-1), PamError::UNKNOWN(-1));
    for c in -3..40 {
        assert_eq!(PamError::new(c).to_code(), c);
    }
}

#[test]
fn status_to_result() {
    assert_eq!(PamError::SUCCESS.to_result(5), Ok(5));
    assert_eq!(PamError::AUTH_ERR.to_result(5), Err(PamError::AUTH_ERR));
    assert_eq!(PamError::UNKNOWN(77).to_result(()), Err(PamError::UNKNOWN(77)));
}

#[test]
fn item_kinds_and_string_items() {
    assert_eq!(PamItemType::USER.to_code(), 2);
    assert_eq!(PamItemType::AUTHTOK.to_code(), 6);
    assert_eq!(PamItemType::XAUTHDATA.to_code(), 12);
    assert!(PamItemType::USER.is_string_item());
    assert!(PamItemType::RHOST.is_string_item());
    assert!(!PamItemType::CONV.is_string_item());
    assert!(!PamItemType::FAIL_DELAY.is_string_item());
    assert!(!PamItemType::XAUTHDATA.is_string_item());
    assert_eq!(string_item_code(PamItemType::RUSER), 8);
    assert_eq!(string_item_code(PamItemType::OLDAUTHTOK), 7);
}

#[test]
fn message_style_codes() {
    assert_eq!(PamMsgStyle::PROMPT_ECHO_OFF.to_code(), 1);
    assert_eq!(PamMsgStyle::TEXT_INFO.to_code(), 4);
    assert_eq!(PamMsgStyle::BINARY_PROMPT.to_code(), 7);
}
