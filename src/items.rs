use vstd::prelude::*;

verus! {

/// The kind of an item slot held by the handle.
#[derive(Clone, Copy, Debug, PartialEq, Eq, Structural)]
pub enum PamItemType {
    SERVICE,
    USER,
    TTY,
    RHOST,
    CONV,
    AUTHTOK,
    OLDAUTHTOK,
    RUSER,
    USER_PROMPT,
    FAIL_DELAY,
    XDISPLAY,
    XAUTHDATA,
    AUTHTOK_TYPE,
}

impl PamItemType {
    /// The host's numeric code for this kind.
    pub open spec fn code(self) -> i32 {
        match self {
            PamItemType::SERVICE => 1,
            PamItemType::USER => 2,
            PamItemType::TTY => 3,
            PamItemType::RHOST => 4,
            PamItemType::CONV => 5,
            PamItemType::AUTHTOK => 6,
            PamItemType::OLDAUTHTOK => 7,
            PamItemType::RUSER => 8,
            PamItemType::USER_PROMPT => 9,
            PamItemType::FAIL_DELAY => 10,
            PamItemType::XDISPLAY => 11,
            PamItemType::XAUTHDATA => 12,
            PamItemType::AUTHTOK_TYPE => 13,
        }
    }

    /// The host's numeric code for this kind.
    pub fn to_code(&self) -> (r: i32)
        ensures
            r == self.code(),
    {
        match self {
            PamItemType::SERVICE => 1,
            PamItemType::USER => 2,
            PamItemType::TTY => 3,
            PamItemType::RHOST => 4,
            PamItemType::CONV => 5,
            PamItemType::AUTHTOK => 6,
            PamItemType::OLDAUTHTOK => 7,
            PamItemType::RUSER => 8,
            PamItemType::USER_PROMPT => 9,
            PamItemType::FAIL_DELAY => 10,
            PamItemType::XDISPLAY => 11,
            PamItemType::XAUTHDATA => 12,
            PamItemType::AUTHTOK_TYPE => 13,
        }
    }

    /// Whether the item holds a C string. The conversation descriptor,
    /// the fail-delay callback and the X authentication data do not.
    pub open spec fn holds_string(self) -> bool {
        !(self is CONV || self is FAIL_DELAY || self is XAUTHDATA)
    }

    /// Whether the item holds a C string (see `holds_string`).
    pub fn is_string_item(&self) -> (r: bool)
        ensures
            r == self.holds_string(),
    {
        match self {
            PamItemType::CONV | PamItemType::FAIL_DELAY | PamItemType::XAUTHDATA => false,
            _ => true,
        }
    }
}

/// The style of a message handed to the conversation callback.
#[derive(Clone, Copy, Debug, PartialEq, Eq, Structural)]
pub enum PamMsgStyle {
    PROMPT_ECHO_OFF,
    PROMPT_ECHO_ON,
    ERROR_MSG,
    TEXT_INFO,
    RADIO_TYPE,
    BINARY_PROMPT,
}

impl PamMsgStyle {
    /// The host's numeric code for this kind.
    pub open spec fn code(self) -> i32 {
        match self {
            PamMsgStyle::PROMPT_ECHO_OFF => 1,
            PamMsgStyle::PROMPT_ECHO_ON => 2,
            PamMsgStyle::ERROR_MSG => 3,
            PamMsgStyle::TEXT_INFO => 4,
            PamMsgStyle::RADIO_TYPE => 5,
            PamMsgStyle::BINARY_PROMPT => 7,
        }
    }

    /// The host's numeric code for this kind.
    pub fn to_code(&self) -> (r: i32)
        ensures
            r == self.code(),
    {
        match self {
            PamMsgStyle::PROMPT_ECHO_OFF => 1,
            PamMsgStyle::PROMPT_ECHO_ON => 2,
            PamMsgStyle::ERROR_MSG => 3,
            PamMsgStyle::TEXT_INFO => 4,
            PamMsgStyle::RADIO_TYPE => 5,
            PamMsgStyle::BINARY_PROMPT => 7,
        }
    }
}

} // verus!
