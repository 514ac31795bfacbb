use vstd::prelude::*;

verus! {

/// Relies on libc::LOG_CRIT, the syslog priority for critical conditions.
#[verifier::external_body]
fn log_crit() -> (r: i32)
    ensures
        r == 2,
{
    libc::LOG_CRIT
}

/// Relies on libc::LOG_ERR, the syslog priority for error conditions.
#[verifier::external_body]
fn log_err() -> (r: i32)
    ensures
        r == 3,
{
    libc::LOG_ERR
}

/// Relies on libc::LOG_INFO, the syslog priority for informational messages.
#[verifier::external_body]
fn log_info() -> (r: i32)
    ensures
        r == 6,
{
    libc::LOG_INFO
}

/// Relies on libc::LOG_DEBUG, the syslog priority for debug messages.
#[verifier::external_body]
fn log_debug() -> (r: i32)
    ensures
        r == 7,
{
    libc::LOG_DEBUG
}

/// Severity of a message sent to the host's logging facility.
#[derive(Clone, Copy, Debug, PartialEq, Eq, Structural)]
pub enum Severity {
    Critical,
    Error,
    Info,
    Debug,
}

impl Severity {
    /// The syslog priority that stands for this severity.
    pub open spec fn priority(self) -> i32 {
        match self {
            Severity::Critical => 2,
            Severity::Error => 3,
            Severity::Info => 6,
            Severity::Debug => 7,
        }
    }

    /// The host's numeric log priority for this severity.
    pub fn to_int(&self) -> (r: i32)
        ensures
            r == self.priority(),
    {
        match self {
            Severity::Critical => log_crit(),
            Severity::Error => log_err(),
            Severity::Info => log_info(),
            Severity::Debug => log_debug(),
        }
    }
}

/// Distinct severities map to distinct priorities: the mapping is injective.
pub proof fn lemma_priority_injective(a: Severity, b: Severity)
    ensures
        a.priority() == b.priority() <==> a == b,
{
}

} // verus!
