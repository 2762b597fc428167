//! The contract between the system and the devices plugged into it.

use crate::clock::Clock;
use crate::error::SystemError;
use crate::mem::Memory;
use crate::pic::PIC;
use crate::registers::Registers;
use crate::Word;
use vstd::prelude::*;

verus! {

/// What a device says of itself when it is connected. The bus keeps it for
/// the hardware query instruction.
#[derive(Clone, Copy, Debug, PartialEq, Eq, Structural)]
pub struct DeviceInfo {
    /// The low word of the 32-bit hardware id.
    pub hardware_low: Word,
    /// The high word of the 32-bit hardware id.
    pub hardware_high: Word,
    /// The hardware version.
    pub version: Word,
    /// The low word of the 32-bit manufacturer id.
    pub manufacturer_low: Word,
    /// The high word of the 32-bit manufacturer id.
    pub manufacturer_high: Word,
}

impl DeviceInfo {
    /// Puts together what a device answered: its hardware id and its
    /// manufacturer id, each as low word and high word, and its version.
    pub fn new(hardware: (Word, Word), version: Word, manufacturer: (Word, Word)) -> (info:
        DeviceInfo)
        ensures
            info == (DeviceInfo {
                hardware_low: hardware.0,
                hardware_high: hardware.1,
                version,
                manufacturer_low: manufacturer.0,
                manufacturer_high: manufacturer.1,
            }),
    {
        DeviceInfo {
            hardware_low: hardware.0,
            hardware_high: hardware.1,
            version,
            manufacturer_low: manufacturer.0,
            manufacturer_high: manufacturer.1,
        }
    }

    /// What a query finds at a port with no device: zero in every word.
    pub open spec fn absent() -> DeviceInfo {
        DeviceInfo {
            hardware_low: 0,
            hardware_high: 0,
            version: 0,
            manufacturer_low: 0,
            manufacturer_high: 0,
        }
    }
}

/// An interrupt on its way from the processor to a device.
#[derive(Clone, Copy, Debug, PartialEq, Eq, Structural)]
pub struct Signal {
    /// The port of the device that the interrupt is for.
    pub port: Word,
    /// The message: register A at the time the interrupt was sent.
    pub message: Word,
}

/// What the system makes of the answer of a device: success stays success,
/// and an error of whatever kind is a hardware failure.
pub fn outcome(answer: Result<(), SystemError>) -> (result: Result<(), SystemError>)
    ensures
        answer is Ok ==> result == Ok::<(), SystemError>(()),
        answer is Err ==> result == Err::<(), SystemError>(SystemError::HardwareFailure),
{
    match answer {
        Ok(()) => Ok(()),
        Err(_) => Err(SystemError::HardwareFailure),
    }
}

/// A hardware device.
///
/// A device identifies itself by ids that never change, takes interrupts
/// from the processor, and is given the state of the machine once per cycle,
/// after the processor has done its part. It reports a failure by returning
/// an error; it must not panic.
pub trait Hardware {
    /// The hardware id as two words: low, then high.
    fn hdw_id(&self) -> (Word, Word);

    /// The hardware version.
    fn version(&self) -> Word;

    /// The manufacturer id as two words: low, then high.
    fn mfg_id(&self) -> (Word, Word);

    /// Takes an interrupt that the processor sent to this device.
    fn interrupt(&mut self, message: Word) -> Result<(), SystemError>;

    /// Advances the device by one cycle. The device may read the clock and
    /// may read and change registers, memory and the interrupt controller;
    /// an interrupt that it enqueues is taken by the processor in a later
    /// cycle.
    fn update(
        &mut self,
        clock: &Clock,
        registers: &mut Registers,
        memory: &mut Memory,
        pic: &mut PIC,
    ) -> Result<(), SystemError>;
}

} // verus!
