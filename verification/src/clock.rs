//! The system clock: a cycle counter that can be halted.

use crate::error::SystemError;
use crate::text::{decimal, push_decimal, push_truth, truth};
use vstd::prelude::*;
use vstd::string::StringExecFns;

verus! {

/// Errors raised by the clock itself.
#[derive(Clone, Copy, Debug, PartialEq, Eq, Structural)]
pub enum ClockError {
    /// The clock was asked to advance while halted.
    Halted,
}

/// System clock.
///
/// Counts the cycles since start-up. Once halted it never counts again.
#[derive(Clone, Copy, Debug)]
pub struct Clock {
    halted: bool,
    cycles: u64,
}

impl Clock {
    /// Whether the clock has been halted.
    pub closed spec fn spec_halted(&self) -> bool {
        self.halted
    }

    /// The number of cycles counted since start-up.
    pub closed spec fn spec_cycles(&self) -> u64 {
        self.cycles
    }

    /// Creates a running clock that has counted no cycle.
    pub fn new() -> (clock: Clock)
        ensures
            clock.cycles() == 0,
            !clock.halted(),
    {
        Clock { halted: false, cycles: 0 }
    }

    /// Whether the clock has been halted.
    #[verifier::when_used_as_spec(spec_halted)]
    pub fn halted(&self) -> (halted: bool)
        ensures
            halted == self.halted(),
    {
        self.halted
    }

    /// The number of cycles counted since start-up.
    #[verifier::when_used_as_spec(spec_cycles)]
    pub fn cycles(&self) -> (cycles: u64)
        ensures
            cycles == self.cycles(),
    {
        self.cycles
    }

    /// Counts one cycle, unless the clock is halted.
    ///
    /// A running clock moves forward by exactly one cycle and reports the new
    /// count. A halted clock is left untouched and reports
    /// [`ClockError::Halted`].
    pub fn advance(&mut self) -> (result: Result<u64, ClockError>)
        requires
            old(self).cycles() < u64::MAX,
        ensures
            final(self).halted() == old(self).halted(),
            old(self).halted() ==> result == Err::<u64, ClockError>(ClockError::Halted)
                && final(self).cycles() == old(self).cycles(),
            !old(self).halted() ==> result == Ok::<u64, ClockError>(final(self).cycles())
                && final(self).cycles() == old(self).cycles() + 1,
    {
        if self.halted {
            Err(ClockError::Halted)
        } else {
            self.cycles += 1;
            Ok(self.cycles)
        }
    }

    /// Counts one cycle, reporting a halted clock as a system fault.
    ///
    /// Behaves as [`Clock::advance`], with [`SystemError::ClockHalted`] in
    /// place of [`ClockError::Halted`].
    pub fn step(&mut self) -> (result: Result<u64, SystemError>)
        requires
            old(self).cycles() < u64::MAX,
        ensures
            final(self).halted() == old(self).halted(),
            old(self).halted() ==> result == Err::<u64, SystemError>(SystemError::ClockHalted)
                && final(self).cycles() == old(self).cycles(),
            !old(self).halted() ==> result == Ok::<u64, SystemError>(final(self).cycles())
                && final(self).cycles() == old(self).cycles() + 1,
    {
        match self.advance() {
            Ok(cycles) => Ok(cycles),
            Err(_) => Err(SystemError::ClockHalted),
        }
    }

    /// Halts the clock for good. The cycle count is kept.
    pub fn halt(&mut self)
        ensures
            final(self).halted(),
            final(self).cycles() == old(self).cycles(),
    {
        self.halted = true;
    }

    /// The clock as a line of text: whether it is halted, and its cycle
    /// count in decimal.
    pub open spec fn text(&self) -> Seq<char> {
        "Clock Halted: "@ + truth(self.halted()) + " Cycles: "@ + decimal(self.cycles() as nat)
            + "\n"@
    }

    /// Writes the clock out as a line of text; see [`Clock::text`].
    pub fn to_string(&self) -> (text: String)
        ensures
            text@ == self.text(),
    {
        let mut text = String::from_str("Clock Halted: ");
        push_truth(&mut text, self.halted);
        text.append(" Cycles: ");
        push_decimal(&mut text, self.cycles);
        text.append("\n");
        text
    }
}

} // verus!
