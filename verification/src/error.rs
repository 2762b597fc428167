//! Faults reported by the machine.

use vstd::prelude::*;
use vstd::string::StringExecFns;

verus! {

/// Errors raised while stepping the system.
#[derive(Clone, Copy, Debug, PartialEq, Eq, Structural)]
pub enum SystemError {
    /// A step was requested while the clock is halted.
    ClockHalted,
    /// A device reported a failure.
    HardwareFailure,
    /// An address or port range was exhausted.
    AddressOverflow,
    /// An interrupt was raised while the interrupt queue was full.
    InterruptOverflow,
    /// An interrupt was taken from an empty interrupt queue.
    InterruptUnderflow,
    /// The fetched word does not encode an instruction.
    DecodeError,
}

impl SystemError {
    /// The error as text: its name.
    pub open spec fn text(self) -> Seq<char> {
        match self {
            SystemError::ClockHalted => "SystemError::ClockHalted"@,
            SystemError::HardwareFailure => "SystemError::HardwareFailure"@,
            SystemError::AddressOverflow => "SystemError::AddressOverflow"@,
            SystemError::InterruptOverflow => "SystemError::InterruptOverflow"@,
            SystemError::InterruptUnderflow => "SystemError::InterruptUnderflow"@,
            SystemError::DecodeError => "SystemError::DecodeError"@,
        }
    }

    /// Writes the error out as text; see [`SystemError::text`].
    pub fn to_string(&self) -> (text: String)
        ensures
            text@ == self.text(),
    {
        String::from_str(
            match self {
                SystemError::ClockHalted => "SystemError::ClockHalted",
                SystemError::HardwareFailure => "SystemError::HardwareFailure",
                SystemError::AddressOverflow => "SystemError::AddressOverflow",
                SystemError::InterruptOverflow => "SystemError::InterruptOverflow",
                SystemError::InterruptUnderflow => "SystemError::InterruptUnderflow",
                SystemError::DecodeError => "SystemError::DecodeError",
            },
        )
    }
}

} // verus!
