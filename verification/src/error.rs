use vstd::prelude::*;

verus! {

/// Why a measurement run had to be given up. None of these is retried.
#[derive(Clone, Copy, Debug, PartialEq, Eq, Structural)]
pub enum RaplError {
    /// The device file or the driver could not be opened or did not answer.
    Access,
    /// The process lacks the elevated privilege that the driver path needs.
    Privilege,
    /// The output file could not be opened or written, or a row could not be
    /// encoded.
    Persistence,
    /// An operation was called out of order, or with a snapshot that does not
    /// fit the vendor profile.
    ContractViolation,
}

impl RaplError {
    /// A short text for the error, as a caller would print it.
    pub fn describe(&self) -> (text: &'static str)
        ensures
            text@ == match *self {
                RaplError::Access => "hardware access error"@,
                RaplError::Privilege => "not running with elevated privilege"@,
                RaplError::Persistence => "io error"@,
                RaplError::ContractViolation => "start and stop called out of order"@,
            },
    {
        match self {
            RaplError::Access => "hardware access error",
            RaplError::Privilege => "not running with elevated privilege",
            RaplError::Persistence => "io error",
            RaplError::ContractViolation => "start and stop called out of order",
        }
    }
}

} // verus!
