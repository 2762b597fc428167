//! The system: a processor and the devices on its bus, stepped together.

use crate::bus::{Bus, BUS_CAPACITY};
use crate::clock::Clock;
use crate::cpu::VCPU16;
use crate::error::SystemError;
use crate::hardware::{DeviceInfo, Hardware};
use crate::machine::Machine;
use crate::mem::Memory;
use crate::Word;
use vstd::prelude::*;

verus! {

/// A system is a container for the processor and all hardware.
///
/// One step of the system is one clock cycle: first the processor takes its
/// cycle, then every device takes its turn, in the order of the ports.
pub struct System<D: Hardware> {
    cpu: VCPU16,
    bus: Bus<D>,
}

impl<D: Hardware> System<D> {
    /// The state of the processor.
    pub closed spec fn machine(&self) -> Machine {
        self.cpu@
    }

    /// What the connected devices said of themselves, by port.
    pub closed spec fn ports(&self) -> Seq<DeviceInfo> {
        self.bus@
    }

    /// The connected devices, by port.
    pub closed spec fn devices(&self) -> Seq<D> {
        self.bus.devices()
    }

    /// Creates a system in its start-up state, with no device connected.
    pub fn new() -> (system: System<D>)
        ensures
            system.machine() == Machine::initial(),
            system.ports() == Seq::<DeviceInfo>::empty(),
            system.devices() == Seq::<D>::empty(),
    {
        System { cpu: VCPU16::new(), bus: Bus::new() }
    }

    /// The memory, for reading and writing. Nothing but memory can change
    /// through the borrow.
    pub fn mem(&mut self) -> (memory: &mut Memory)
        ensures
            memory@ == old(self).machine().mem,
            final(self).machine() == (Machine { mem: final(memory)@, ..old(self).machine() }),
            final(self).ports() == old(self).ports(),
            final(self).devices() == old(self).devices(),
    {
        self.cpu.memory_mut()
    }

    /// The processor, for reading and writing. The bus is out of reach of
    /// the borrow.
    pub fn cpu(&mut self) -> (cpu: &mut VCPU16)
        ensures
            cpu@ == old(self).machine(),
            final(self).machine() == final(cpu)@,
            final(self).ports() == old(self).ports(),
            final(self).devices() == old(self).devices(),
    {
        &mut self.cpu
    }

    /// The clock, for reading and writing. Nothing but the cycle count and
    /// the halt can change through the borrow.
    pub fn clk(&mut self) -> (clock: &mut Clock)
        ensures
            clock.cycles() == old(self).machine().cycles,
            clock.halted() == old(self).machine().halted,
            final(self).machine() == (Machine {
                cycles: final(clock).cycles() as nat,
                halted: final(clock).halted(),
                ..old(self).machine()
            }),
            final(self).ports() == old(self).ports(),
            final(self).devices() == old(self).devices(),
    {
        self.cpu.clock_mut()
    }

    /// The bus, for reading and writing. The processor is out of reach of
    /// the borrow.
    pub fn bus(&mut self) -> (bus: &mut Bus<D>)
        ensures
            bus@ == old(self).ports(),
            bus.devices() == old(self).devices(),
            final(self).machine() == old(self).machine(),
            final(self).ports() == final(bus)@,
            final(self).devices() == final(bus).devices(),
    {
        &mut self.bus
    }

    /// Connects a device at the next free port and returns the port; see
    /// [`Bus::connect`]. The processor is not touched.
    pub fn connect(&mut self, device: D) -> (result: Result<Word, SystemError>)
        ensures
            final(self).machine() == old(self).machine(),
            old(self).ports().len() < BUS_CAPACITY ==> {
                &&& result == Ok::<Word, SystemError>(old(self).ports().len() as Word)
                &&& final(self).ports().len() == old(self).ports().len() + 1
                &&& final(self).ports().subrange(0, old(self).ports().len() as int) == old(self).ports()
                &&& final(self).devices() == old(self).devices().push(device)
            },
            old(self).ports().len() >= BUS_CAPACITY ==> {
                &&& result == Err::<Word, SystemError>(SystemError::AddressOverflow)
                &&& final(self).ports() == old(self).ports()
                &&& final(self).devices() == old(self).devices()
            },
    {
        self.bus.connect(device)
    }

    /// Steps the system forward one clock cycle.
    ///
    /// First the processor takes its cycle, as [`Machine::tick`] describes
    /// it, with the identifications of the connected devices before it. A
    /// fault of the processor ends the step: the system is left as the
    /// processor left it, no device is touched, and the fault is reported as
    /// it is. These faults are [`SystemError::ClockHalted`], on which nothing
    /// has changed at all, [`SystemError::DecodeError`] and
    /// [`SystemError::InterruptOverflow`].
    ///
    /// Then the interrupt that the processor sent, if any, is handed to its
    /// device, and after that every device takes its turn, in the order of
    /// the ports. A device may change registers, memory and the interrupt
    /// controller, but neither the clock nor what is left to do of the
    /// current instruction. The first device to report a failure, be it on
    /// the interrupt or on its turn, ends the step with
    /// [`SystemError::HardwareFailure`]; the devices after it are not
    /// reached in this step. With no device connected the step is exactly
    /// the cycle of the processor.
    pub fn step(&mut self) -> (result: Result<(), SystemError>)
        requires
            old(self).machine().cycles < u64::MAX,
        ensures
            final(self).ports() == old(self).ports(),
            final(self).devices().len() == old(self).devices().len(),
            match old(self).machine().tick(old(self).ports()).fault {
                Some(error) => {
                    &&& result == Err::<(), SystemError>(error)
                    &&& final(self).machine() == old(self).machine().tick(old(self).ports()).next
                    &&& final(self).devices() == old(self).devices()
                },
                None => {
                    &&& final(self).machine() == (Machine {
                        reg: final(self).machine().reg,
                        mem: final(self).machine().mem,
                        queue: final(self).machine().queue,
                        queueing: final(self).machine().queueing,
                        ..old(self).machine().tick(old(self).ports()).next
                    })
                    &&& result is Err ==> result == Err::<(), SystemError>(
                        SystemError::HardwareFailure,
                    )
                    &&& old(self).ports().len() == 0 ==> {
                        &&& result == Ok::<(), SystemError>(())
                        &&& final(self).machine() == old(self).machine().tick(
                            old(self).ports(),
                        ).next
                        &&& final(self).devices() == old(self).devices()
                    }
                },
            },
    {
        let signal = match self.cpu.tick(self.bus.ports()) {
            Ok(signal) => signal,
            Err(error) => {
                return Err(error);
            },
        };
        match signal {
            Some(signal) => {
                match self.bus.interrupt(signal) {
                    Ok(()) => {},
                    Err(error) => {
                        return Err(error);
                    },
                }
            },
            None => {},
        }
        self.bus.update(&mut self.cpu)
    }
}

} // verus!
