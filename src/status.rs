use vstd::prelude::*;

verus! {

/// A status returned by the host library: `SUCCESS` or one of its failures.
/// A code that the host defines beyond the standard ones is kept as it came.
#[derive(Clone, Copy, Debug, PartialEq, Eq, Structural)]
pub enum PamError {
    SUCCESS,
    OPEN_ERR,
    SYMBOL_ERR,
    SERVICE_ERR,
    SYSTEM_ERR,
    BUF_ERR,
    PERM_DENIED,
    AUTH_ERR,
    CRED_INSUFFICIENT,
    AUTHINFO_UNAVAIL,
    USER_UNKNOWN,
    MAXTRIES,
    NEW_AUTHTOK_REQD,
    ACCT_EXPIRED,
    SESSION_ERR,
    CRED_UNAVAIL,
    CRED_EXPIRED,
    CRED_ERR,
    NO_MODULE_DATA,
    CONV_ERR,
    AUTHTOK_ERR,
    AUTHTOK_RECOVERY_ERR,
    AUTHTOK_LOCK_BUSY,
    AUTHTOK_DISABLE_AGING,
    TRY_AGAIN,
    IGNORE,
    ABORT,
    AUTHTOK_EXPIRED,
    MODULE_UNKNOWN,
    BAD_ITEM,
    CONV_AGAIN,
    INCOMPLETE,
    UNKNOWN(i32),
}

/// The result of an operation on the handle: data, or the host's failure.
pub type PamResult<T> = Result<T, PamError>;

/// The status that a host status code stands for.
pub open spec fn status_of(code: i32) -> PamError {
    match code {
            0 => PamError::SUCCESS,
            1 => PamError::OPEN_ERR,
            2 => PamError::SYMBOL_ERR,
            3 => PamError::SERVICE_ERR,
            4 => PamError::SYSTEM_ERR,
            5 => PamError::BUF_ERR,
            6 => PamError::PERM_DENIED,
            7 => PamError::AUTH_ERR,
            8 => PamError::CRED_INSUFFICIENT,
            9 => PamError::AUTHINFO_UNAVAIL,
            10 => PamError::USER_UNKNOWN,
            11 => PamError::MAXTRIES,
            12 => PamError::NEW_AUTHTOK_REQD,
            13 => PamError::ACCT_EXPIRED,
            14 => PamError::SESSION_ERR,
            15 => PamError::CRED_UNAVAIL,
            16 => PamError::CRED_EXPIRED,
            17 => PamError::CRED_ERR,
            18 => PamError::NO_MODULE_DATA,
            19 => PamError::CONV_ERR,
            20 => PamError::AUTHTOK_ERR,
            21 => PamError::AUTHTOK_RECOVERY_ERR,
            22 => PamError::AUTHTOK_LOCK_BUSY,
            23 => PamError::AUTHTOK_DISABLE_AGING,
            24 => PamError::TRY_AGAIN,
            25 => PamError::IGNORE,
            26 => PamError::ABORT,
            27 => PamError::AUTHTOK_EXPIRED,
            28 => PamError::MODULE_UNKNOWN,
            29 => PamError::BAD_ITEM,
            30 => PamError::CONV_AGAIN,
            31 => PamError::INCOMPLETE,
        _ => PamError::UNKNOWN(code),
    }
}

impl PamError {
    /// The host status code of this status.
    pub open spec fn code(self) -> i32 {
        match self {
            PamError::SUCCESS => 0,
            PamError::OPEN_ERR => 1,
            PamError::SYMBOL_ERR => 2,
            PamError::SERVICE_ERR => 3,
            PamError::SYSTEM_ERR => 4,
            PamError::BUF_ERR => 5,
            PamError::PERM_DENIED => 6,
            PamError::AUTH_ERR => 7,
            PamError::CRED_INSUFFICIENT => 8,
            PamError::AUTHINFO_UNAVAIL => 9,
            PamError::USER_UNKNOWN => 10,
            PamError::MAXTRIES => 11,
            PamError::NEW_AUTHTOK_REQD => 12,
            PamError::ACCT_EXPIRED => 13,
            PamError::SESSION_ERR => 14,
            PamError::CRED_UNAVAIL => 15,
            PamError::CRED_EXPIRED => 16,
            PamError::CRED_ERR => 17,
            PamError::NO_MODULE_DATA => 18,
            PamError::CONV_ERR => 19,
            PamError::AUTHTOK_ERR => 20,
            PamError::AUTHTOK_RECOVERY_ERR => 21,
            PamError::AUTHTOK_LOCK_BUSY => 22,
            PamError::AUTHTOK_DISABLE_AGING => 23,
            PamError::TRY_AGAIN => 24,
            PamError::IGNORE => 25,
            PamError::ABORT => 26,
            PamError::AUTHTOK_EXPIRED => 27,
            PamError::MODULE_UNKNOWN => 28,
            PamError::BAD_ITEM => 29,
            PamError::CONV_AGAIN => 30,
            PamError::INCOMPLETE => 31,
            PamError::UNKNOWN(c) => c,
        }
    }

    /// Whether this status is the form in which a host code is read:
    /// `UNKNOWN` holds only codes that no named variant stands for.
    pub open spec fn wf(self) -> bool {
        match self {
            PamError::UNKNOWN(c) => !(0 <= c < 32),
            _ => true,
        }
    }

    /// Reads a status code returned by the host, keeping its exact value.
    pub fn new(code: i32) -> (r: PamError)
        ensures
            r == status_of(code),
            r.code() == code,
            r.wf(),
    {
        match code {
            0 => PamError::SUCCESS,
            1 => PamError::OPEN_ERR,
            2 => PamError::SYMBOL_ERR,
            3 => PamError::SERVICE_ERR,
            4 => PamError::SYSTEM_ERR,
            5 => PamError::BUF_ERR,
            6 => PamError::PERM_DENIED,
            7 => PamError::AUTH_ERR,
            8 => PamError::CRED_INSUFFICIENT,
            9 => PamError::AUTHINFO_UNAVAIL,
            10 => PamError::USER_UNKNOWN,
            11 => PamError::MAXTRIES,
            12 => PamError::NEW_AUTHTOK_REQD,
            13 => PamError::ACCT_EXPIRED,
            14 => PamError::SESSION_ERR,
            15 => PamError::CRED_UNAVAIL,
            16 => PamError::CRED_EXPIRED,
            17 => PamError::CRED_ERR,
            18 => PamError::NO_MODULE_DATA,
            19 => PamError::CONV_ERR,
            20 => PamError::AUTHTOK_ERR,
            21 => PamError::AUTHTOK_RECOVERY_ERR,
            22 => PamError::AUTHTOK_LOCK_BUSY,
            23 => PamError::AUTHTOK_DISABLE_AGING,
            24 => PamError::TRY_AGAIN,
            25 => PamError::IGNORE,
            26 => PamError::ABORT,
            27 => PamError::AUTHTOK_EXPIRED,
            28 => PamError::MODULE_UNKNOWN,
            29 => PamError::BAD_ITEM,
            30 => PamError::CONV_AGAIN,
            31 => PamError::INCOMPLETE,
            _ => PamError::UNKNOWN(code),
        }
    }

    /// The host status code of this status.
    pub fn to_code(&self) -> (r: i32)
        ensures
            r == self.code(),
    {
        match self {
            PamError::SUCCESS => 0,
            PamError::OPEN_ERR => 1,
            PamError::SYMBOL_ERR => 2,
            PamError::SERVICE_ERR => 3,
            PamError::SYSTEM_ERR => 4,
            PamError::BUF_ERR => 5,
            PamError::PERM_DENIED => 6,
            PamError::AUTH_ERR => 7,
            PamError::CRED_INSUFFICIENT => 8,
            PamError::AUTHINFO_UNAVAIL => 9,
            PamError::USER_UNKNOWN => 10,
            PamError::MAXTRIES => 11,
            PamError::NEW_AUTHTOK_REQD => 12,
            PamError::ACCT_EXPIRED => 13,
            PamError::SESSION_ERR => 14,
            PamError::CRED_UNAVAIL => 15,
            PamError::CRED_EXPIRED => 16,
            PamError::CRED_ERR => 17,
            PamError::NO_MODULE_DATA => 18,
            PamError::CONV_ERR => 19,
            PamError::AUTHTOK_ERR => 20,
            PamError::AUTHTOK_RECOVERY_ERR => 21,
            PamError::AUTHTOK_LOCK_BUSY => 22,
            PamError::AUTHTOK_DISABLE_AGING => 23,
            PamError::TRY_AGAIN => 24,
            PamError::IGNORE => 25,
            PamError::ABORT => 26,
            PamError::AUTHTOK_EXPIRED => 27,
            PamError::MODULE_UNKNOWN => 28,
            PamError::BAD_ITEM => 29,
            PamError::CONV_AGAIN => 30,
            PamError::INCOMPLETE => 31,
            PamError::UNKNOWN(c) => *c,
        }
    }

    /// `Ok(ok)` when this status is `SUCCESS`, else this status as the error.
    pub fn to_result<T>(self, ok: T) -> (r: PamResult<T>)
        ensures
            self == PamError::SUCCESS ==> r == Ok::<T, PamError>(ok),
            self != PamError::SUCCESS ==> r == Err::<T, PamError>(self),
    {
        if self == PamError::SUCCESS {
            Ok(ok)
        } else {
            Err(self)
        }
    }
}

/// Reading a host code and writing it back gives the same code, and a
/// well-formed status is the one its code is read as.
pub proof fn lemma_status_code_round_trip(code: i32, e: PamError)
    ensures
        status_of(code).code() == code,
        status_of(code).wf(),
        e.wf() ==> status_of(e.code()) == e,
{
}

} // verus!
