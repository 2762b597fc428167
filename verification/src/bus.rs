//! The hardware bus: the devices plugged into the system, by port.

use crate::cpu::VCPU16;
use crate::error::SystemError;
use crate::hardware::{outcome, DeviceInfo, Hardware, Signal};
use crate::machine::Machine;
use crate::Word;
use vstd::prelude::*;

verus! {

/// The most devices a bus can hold, so that their number fits in a word.
pub const BUS_CAPACITY: usize = 0xFFFF;

/// The devices of a bus and what they said of themselves, port by port.
struct Slots<D> {
    devices: Vec<D>,
    ports: Vec<DeviceInfo>,
}

/// Whether the devices behind `port` are in `after` what they were in
/// `before`: no call has reached them.
pub open spec fn untouched_behind<D>(before: Seq<D>, after: Seq<D>, port: int) -> bool {
    before.len() == after.len() && forall|k: int|
        port < k < before.len() ==> #[trigger] after[k] == before[k]
}

/// Hardware bus.
///
/// Devices are connected one after the other and are known by their port,
/// the position at which they were connected. The bus asks a device for its
/// identification once, when it is connected, and keeps the answer. It
/// holds at most 65,535 devices.
pub struct Bus<D: Hardware> {
    slots: Slots<D>,
}

impl<D: Hardware> View for Bus<D> {
    type V = Seq<DeviceInfo>;

    /// What the connected devices said of themselves, by port.
    closed spec fn view(&self) -> Seq<DeviceInfo> {
        self.slots.ports@
    }
}

impl<D: Hardware> Bus<D> {
    #[verifier::type_invariant]
    spec fn inv(self) -> bool {
        self.slots.devices@.len() == self.slots.ports@.len() && self.slots.ports@.len()
            <= BUS_CAPACITY
    }

    /// The connected devices, by port.
    pub closed spec fn devices(&self) -> Seq<D> {
        self.slots.devices@
    }

    /// Takes the slots out of the bus and leaves it empty.
    fn take(&mut self) -> (slots: Slots<D>)
        ensures
            slots == old(self).slots,
            slots.devices@.len() == slots.ports@.len(),
            slots.ports@.len() <= BUS_CAPACITY,
            final(self).slots.devices@.len() == 0,
            final(self).slots.ports@.len() == 0,
    {
        proof {
            use_type_invariant(&*self);
        }
        let mut slots = Slots { devices: Vec::new(), ports: Vec::new() };
        core::mem::swap(&mut self.slots, &mut slots);
        slots
    }

    /// Puts slots back into an empty bus.
    fn put(&mut self, slots: Slots<D>)
        requires
            slots.devices@.len() == slots.ports@.len(),
            slots.ports@.len() <= BUS_CAPACITY,
        ensures
            final(self).slots == slots,
    {
        let mut slots = slots;
        core::mem::swap(&mut self.slots, &mut slots);
    }

    /// Creates a bus with no device.
    pub fn new() -> (bus: Bus<D>)
        ensures
            bus@ == Seq::<DeviceInfo>::empty(),
            bus.devices() == Seq::<D>::empty(),
    {
        Bus { slots: Slots { devices: Vec::new(), ports: Vec::new() } }
    }

    /// The number of connected devices.
    pub fn len(&self) -> (len: usize)
        ensures
            len == self@.len(),
            len == self.devices().len(),
            len <= BUS_CAPACITY,
    {
        proof {
            use_type_invariant(self);
        }
        self.slots.ports.len()
    }

    /// What the connected devices said of themselves, by port.
    pub fn ports(&self) -> (ports: &[DeviceInfo])
        ensures
            ports@ == self@,
            ports@.len() <= BUS_CAPACITY,
    {
        proof {
            use_type_invariant(self);
        }
        self.slots.ports.as_slice()
    }

    /// The device at `port`, if there is one.
    pub fn device(&self, port: Word) -> (device: Option<&D>)
        ensures
            match device {
                Some(device) => port < self.devices().len() && *device == self.devices()[port as int],
                None => port >= self.devices().len(),
            },
    {
        if (port as usize) < self.slots.devices.len() {
            Some(&self.slots.devices[port as usize])
        } else {
            None
        }
    }

    /// Connects a device under the given identification at the next free
    /// port and returns the port.
    ///
    /// A bus that holds 65,535 devices takes no more: it is left as it is,
    /// and the call reports [`SystemError::AddressOverflow`].
    pub fn attach(&mut self, device: D, info: DeviceInfo) -> (result: Result<Word, SystemError>)
        ensures
            old(self)@.len() < BUS_CAPACITY ==> {
                &&& result == Ok::<Word, SystemError>(old(self)@.len() as Word)
                &&& final(self)@ == old(self)@.push(info)
                &&& final(self).devices() == old(self).devices().push(device)
            },
            old(self)@.len() >= BUS_CAPACITY ==> {
                &&& result == Err::<Word, SystemError>(SystemError::AddressOverflow)
                &&& final(self)@ == old(self)@
                &&& final(self).devices() == old(self).devices()
            },
    {
        let mut slots = self.take();
        let port = slots.ports.len();
        if port >= BUS_CAPACITY {
            self.put(slots);
            return Err(SystemError::AddressOverflow);
        }
        slots.devices.push(device);
        slots.ports.push(info);
        self.put(slots);
        Ok(port as Word)
    }

    /// Connects a device at the next free port and returns the port.
    ///
    /// The device is asked for its hardware id, its version and its
    /// manufacturer id, and is then attached under what it answered; see
    /// [`Bus::attach`]. The answers are kept for as long as the device is
    /// connected.
    pub fn connect(&mut self, device: D) -> (result: Result<Word, SystemError>)
        ensures
            old(self)@.len() < BUS_CAPACITY ==> {
                &&& result == Ok::<Word, SystemError>(old(self)@.len() as Word)
                &&& final(self)@.len() == old(self)@.len() + 1
                &&& final(self)@.subrange(0, old(self)@.len() as int) == old(self)@
                &&& final(self).devices() == old(self).devices().push(device)
            },
            old(self)@.len() >= BUS_CAPACITY ==> {
                &&& result == Err::<Word, SystemError>(SystemError::AddressOverflow)
                &&& final(self)@ == old(self)@
                &&& final(self).devices() == old(self).devices()
            },
    {
        let info = DeviceInfo::new(device.hdw_id(), device.version(), device.mfg_id());
        let result = self.attach(device, info);
        assert(old(self)@.len() < BUS_CAPACITY ==> self@.subrange(0, old(self)@.len() as int)
            =~= old(self)@);
        result
    }

    /// Hands an interrupt from the processor to the device it is for.
    ///
    /// With no device at the port of the signal nothing happens. Where the
    /// device reports a failure, the call reports
    /// [`SystemError::HardwareFailure`]. No device but the one at the port
    /// of the signal is reached.
    pub fn interrupt(&mut self, signal: Signal) -> (result: Result<(), SystemError>)
        ensures
            final(self)@ == old(self)@,
            final(self).devices().len() == old(self).devices().len(),
            forall|k: int|
                0 <= k < old(self).devices().len() && k != signal.port
                    ==> #[trigger] final(self).devices()[k] == old(self).devices()[k],
            signal.port >= old(self)@.len() ==> result == Ok::<(), SystemError>(())
                && final(self).devices() == old(self).devices(),
            result is Err ==> result == Err::<(), SystemError>(SystemError::HardwareFailure),
    {
        let mut slots = self.take();
        let port = signal.port as usize;
        let result = if port < slots.devices.len() {
            outcome(slots.devices[port].interrupt(signal.message))
        } else {
            Ok(())
        };
        self.put(slots);
        result
    }

    /// Lets every device take its turn in the current cycle, in the order
    /// of their ports.
    ///
    /// Each device is handed the state of the processor as the devices
    /// before it left it; see [`VCPU16::poll`]. Where a device reports a
    /// failure, the devices after it are not reached, and the call reports
    /// [`SystemError::HardwareFailure`]. With no device connected nothing
    /// changes.
    pub fn update(&mut self, cpu: &mut VCPU16) -> (result: Result<(), SystemError>)
        ensures
            final(self)@ == old(self)@,
            final(self).devices().len() == old(self).devices().len(),
            final(cpu)@ == (Machine {
                reg: final(cpu)@.reg,
                mem: final(cpu)@.mem,
                queue: final(cpu)@.queue,
                queueing: final(cpu)@.queueing,
                ..old(cpu)@
            }),
            old(self)@.len() == 0 ==> result == Ok::<(), SystemError>(()) && final(cpu)@ == old(
                cpu,
            )@ && final(self).devices() == old(self).devices(),
            result is Err ==> result == Err::<(), SystemError>(SystemError::HardwareFailure),
            result is Err ==> exists|failed: int|
                0 <= failed < old(self).devices().len() && #[trigger] untouched_behind(
                    old(self).devices(),
                    final(self).devices(),
                    failed,
                ),
    {
        let mut slots = self.take();
        let count = slots.devices.len();
        let mut result = Ok(());
        let mut port: usize = 0;
        while port < count && result.is_ok()
            invariant
                port <= count,
                result is Err ==> port >= 1,
                untouched_behind(old(self).slots.devices@, slots.devices@, port - 1),
                count == slots.devices@.len(),
                count == old(self).slots.devices@.len(),
                count == slots.ports@.len(),
                count <= BUS_CAPACITY,
                slots.ports@ == old(self).slots.ports@,
                count == 0 ==> slots.devices@ == old(self).slots.devices@ && cpu@ == old(cpu)@
                    && result == Ok::<(), SystemError>(()),
                result is Err ==> result == Err::<(), SystemError>(SystemError::HardwareFailure),
                cpu@ == (Machine {
                    reg: cpu@.reg,
                    mem: cpu@.mem,
                    queue: cpu@.queue,
                    queueing: cpu@.queueing,
                    ..old(cpu)@
                }),
            decreases count - port,
        {
            result = outcome(cpu.poll(&mut slots.devices[port]));
            port += 1;
        }
        self.put(slots);
        assert(result is Err ==> untouched_behind(
            old(self).devices(),
            self.devices(),
            port - 1,
        ));
        result
    }
}

} // verus!
