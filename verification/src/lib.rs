//! A cycle-accurate emulator core for the VCPU16, a 16-bit virtual processor
//! in the DCPU-16 family.
//!
//! The crate models the whole machine: the register file, the 64K-word
//! memory, the interrupt controller, the clock, the processor and the
//! hardware bus. What a clock cycle does is stated as a mathematical
//! function on [`machine::Machine`], the abstract state of the processor,
//! and the executable code is proved to compute exactly that function.
//!
//! # The machine
//!
//! - [`mem::Memory`] holds 65,536 words and loads and saves them as a
//!   little-endian image of 131,072 bytes.
//! - [`registers::Registers`] holds PC, SP, PS, IA and the general
//!   registers A, B, C, X, Y, Z, I and J.
//! - [`queue::Queue`] is the bounded first-in, first-out queue of interrupt
//!   messages; [`pic::PIC`] adds the switch that holds interrupts back.
//! - [`clock::Clock`] counts cycles until it is halted.
//! - [`isa`] says how a word encodes an instruction, and [`alu`] what the
//!   arithmetic operations compute.
//! - [`cpu::VCPU16`] is the processor with all of the above.
//! - [`hardware::Hardware`] is what a device implements, [`bus::Bus`] holds
//!   the devices by port, and [`system::System`] steps processor and devices
//!   together.
//!
//! # A cycle
//!
//! Each cycle the clock counts, and the processor does one of four things,
//! as [`machine::State`] says:
//!
//! - while the last instruction is still taking its time, nothing;
//! - after a condition failed, it passes over the instruction at PC, and
//!   goes on passing over as long as what it passes over is a conditional;
//! - when an interrupt is pending, queueing is disabled and IA is not zero,
//!   it hands the oldest interrupt to the handler at IA;
//! - otherwise it fetches the instruction at PC, decodes it and performs it.
//!
//! An instruction that takes `n` cycles is performed in the first of them
//! and keeps the processor busy for the other `n - 1`. Passing over an
//! instruction takes one cycle and one more for each word of its operands.
//!
//! # Faults
//!
//! A cycle of a halted clock changes nothing and reports
//! [`SystemError::ClockHalted`]. A word that encodes no operation is passed
//! over like an instruction whose condition failed, and the cycle reports
//! [`SystemError::DecodeError`]. An interrupt raised on top of 255 pending
//! ones halts the clock and reports [`SystemError::InterruptOverflow`]. The
//! failure of a device is reported as [`SystemError::HardwareFailure`].

pub mod alu;
pub mod bus;
pub mod clock;
pub mod cpu;
pub mod error;
pub mod hardware;
pub mod isa;
pub mod machine;
pub mod mem;
pub mod pic;
pub mod queue;
pub mod registers;
pub mod system;
pub mod text;

pub use self::bus::Bus;
pub use self::clock::{Clock, ClockError};
pub use self::cpu::VCPU16;
pub use self::error::SystemError;
pub use self::hardware::Hardware;
pub use self::machine::State;
pub use self::mem::Memory;
pub use self::pic::{InterruptError, PIC};
pub use self::queue::Queue;
pub use self::registers::Registers;
pub use self::system::System;

use vstd::prelude::*;

verus! {

/// The machine word: an unsigned 16-bit value.
pub type Word = u16;

} // verus!
