//! The processor: the executable counterpart of [`Machine`].

use crate::clock::Clock;
use crate::error::SystemError;
use crate::hardware::{DeviceInfo, Hardware, Signal};
use crate::isa::{is_conditional, length, OpCode, Operation, ValueCode};
use crate::machine::{Instruction, Machine, Operand, State};
use crate::mem::{bytes_of, overlay, window, words_of, Memory};
use crate::pic::PIC;
use crate::registers::{Register, Registers};
use crate::Word;
use vstd::prelude::*;

verus! {

/// The VCPU16: a 16-bit processor with its registers, its memory, its
/// interrupt controller and its clock.
pub struct VCPU16 {
    reg: Registers,
    mem: Memory,
    clk: Clock,
    pic: PIC,
    busy: u8,
    skip: bool,
    latch: u64,
}

impl View for VCPU16 {
    type V = Machine;

    /// The state of the processor.
    closed spec fn view(&self) -> Machine {
        Machine {
            reg: self.reg,
            mem: self.mem@,
            queue: self.pic.pending(),
            queueing: self.pic.queueing(),
            cycles: self.clk.cycles() as nat,
            halted: self.clk.halted(),
            busy: self.busy as nat,
            skip: self.skip,
            latch: self.latch as nat,
        }
    }
}

impl VCPU16 {
    /// The processor is always in a well-formed state, and its counters fit
    /// their registers.
    pub proof fn lemma_wf(&self)
        ensures
            self@.wf(),
            self@.cycles <= u64::MAX,
            self@.latch <= u64::MAX,
            self@.busy <= u8::MAX,
    {
        self.mem.lemma_len();
        self.pic.lemma_len();
    }

    /// Creates a processor in its start-up state.
    pub fn new() -> (cpu: VCPU16)
        ensures
            cpu@ == Machine::initial(),
    {
        VCPU16 {
            reg: Registers::new(),
            mem: Memory::new(),
            clk: Clock::new(),
            pic: PIC::new(),
            busy: 0,
            skip: false,
            latch: 0,
        }
    }

    /// Reads an operand: a literal gives its value, a memory operand the
    /// cell at its address, a register operand the register.
    pub fn read(&self, operand: Operand) -> (value: Word)
        ensures
            value == self@.read(operand),
    {
        match operand {
            Operand::Literal(value) => value,
            Operand::Memory(address) => self.mem.get(address),
            Operand::Register(register) => self.reg.read(register),
        }
    }

    /// Writes an operand: the memory cell or the register that it refers
    /// to takes the value, and nothing else changes. A write to a literal
    /// changes nothing at all.
    pub fn write(&mut self, operand: Operand, value: Word)
        ensures
            final(self)@ == old(self)@.write(operand, value),
    {
        match operand {
            Operand::Literal(_) => {},
            Operand::Memory(address) => self.mem.set(address, value),
            Operand::Register(register) => self.reg.write(register, value),
        }
    }

    /// Takes the word at PC and moves PC on by one.
    pub fn next_word(&mut self) -> (word: Word)
        ensures
            (final(self)@, word) == old(self)@.next_word(),
    {
        let word = self.mem.get(self.reg.pc);
        self.reg.pc = self.reg.pc.wrapping_add(1);
        word
    }

    /// Pushes a value on the stack: SP moves down by one, then the value is
    /// stored at SP.
    pub fn push(&mut self, value: Word)
        ensures
            final(self)@ == old(self)@.push(value),
    {
        self.reg.sp = self.reg.sp.wrapping_sub(1);
        self.mem.set(self.reg.sp, value);
    }

    /// Pops a value off the stack: the word at SP is taken, then SP moves up
    /// by one.
    pub fn pop(&mut self) -> (value: Word)
        ensures
            (final(self)@, value) == old(self)@.pop(),
    {
        let value = self.mem.get(self.reg.sp);
        self.reg.sp = self.reg.sp.wrapping_add(1);
        value
    }

    /// Resolves an operand field to the operand that it refers to; see
    /// [`Machine::resolve`].
    ///
    /// `destination` says whether the field is the middle field of a binary
    /// instruction, where the stack operand is a push; anywhere else it is a
    /// pop. An operand that takes the next word moves PC on by one; nothing
    /// but PC and SP ever changes.
    pub fn resolve(&mut self, value: ValueCode, destination: bool) -> (operand: Operand)
        ensures
            (final(self)@, operand) == old(self)@.resolve(value, destination),
    {
        let code = value.code;
        if code < 0x08 {
            Operand::Register(Register::general(code))
        } else if code < 0x10 {
            Operand::Memory(self.reg.read(Register::general(code)))
        } else if code < 0x18 {
            let base = self.reg.read(Register::general(code));
            let word = self.next_word();
            Operand::Memory(base.wrapping_add(word))
        } else if code == 0x18 {
            if destination {
                self.reg.sp = self.reg.sp.wrapping_sub(1);
                Operand::Memory(self.reg.sp)
            } else {
                let sp = self.reg.sp;
                self.reg.sp = sp.wrapping_add(1);
                Operand::Memory(sp)
            }
        } else if code == 0x19 {
            Operand::Memory(self.reg.sp)
        } else if code == 0x1A {
            let base = self.reg.sp;
            let word = self.next_word();
            Operand::Memory(base.wrapping_add(word))
        } else if code == 0x1B {
            Operand::Register(Register::SP)
        } else if code == 0x1C {
            Operand::Register(Register::PC)
        } else if code == 0x1D {
            Operand::Register(Register::PS)
        } else if code == 0x1E {
            Operand::Memory(self.next_word())
        } else if code == 0x1F {
            Operand::Literal(self.next_word())
        } else {
            Operand::Literal((code as u16).wrapping_sub(0x21))
        }
    }

    /// Resolves the operands of an instruction that was fetched from
    /// `address`: the source first, then the destination; see
    /// [`Machine::decode`].
    pub fn decode(&mut self, operation: Operation, address: Word) -> (instruction: Instruction)
        ensures
            (final(self)@, instruction) == old(self)@.decode(operation, address),
    {
        let none = Operand::Literal(0);
        let time = operation.time();
        match operation {
            Operation::Nullary { op } => Instruction {
                address,
                opcode: op,
                upper: none,
                middle: none,
                time,
            },
            Operation::Unary { op, upper } => {
                let u = self.resolve(upper, false);
                Instruction { address, opcode: op, upper: u, middle: none, time }
            },
            Operation::Binary { op, middle, upper } => {
                let u = self.resolve(upper, false);
                let m = self.resolve(middle, true);
                Instruction { address, opcode: op, upper: u, middle: m, time }
            },
        }
    }

    /// Raises an interrupt with the given message.
    ///
    /// With IA at zero the interrupt is dropped. Otherwise the message joins
    /// the pending interrupts, to be handed to the handler at IA once
    /// queueing is disabled and the processor is between instructions.
    /// Where 255 interrupts are pending already, the clock is halted and the
    /// call reports [`SystemError::InterruptOverflow`].
    pub fn interrupt(&mut self, message: Word) -> (result: Result<(), SystemError>)
        ensures
            final(self)@ == old(self)@.raise(message).0,
            match old(self)@.raise(message).1 {
                Some(error) => result == Err::<(), SystemError>(error),
                None => result == Ok::<(), SystemError>(()),
            },
    {
        if self.reg.ia == 0 {
            return Ok(());
        }
        match self.pic.enqueue(message) {
            Ok(()) => Ok(()),
            Err(_) => {
                self.clk.halt();
                Err(SystemError::InterruptOverflow)
            },
        }
    }

    /// Performs a nullary operation.
    fn nullary(&mut self, op: OpCode)
        ensures
            final(self)@ == old(self)@.nullary(op),
    {
        match op {
            OpCode::CLK => {
                let cycles = self.clk.cycles();
                let (i, j, ps) = crate::alu::clk(cycles, self.latch);
                self.reg.i = i;
                self.reg.j = j;
                self.reg.ps = ps;
                self.latch = cycles;
            },
            _ => {},
        }
    }

    /// Performs a unary operation.
    fn unary(&mut self, op: OpCode, operand: Operand, ports: &[DeviceInfo]) -> (result: Result<
        Option<Signal>,
        SystemError,
    >)
        requires
            ports@.len() <= 0xFFFF,
        ensures
            final(self)@ == old(self)@.unary(op, operand, ports@).next,
            result == old(self)@.unary(op, operand, ports@).report(),
    {
        let u = self.read(operand);
        match op {
            OpCode::JSR => {
                let pc = self.reg.pc;
                self.push(pc);
                self.reg.pc = self.read(operand);
            },
            OpCode::NOT => {
                assert(!u == 0xFFFF - u) by (bit_vector);
                self.write(operand, !u);
            },
            OpCode::INT => {
                match self.interrupt(u) {
                    Ok(()) => {},
                    Err(error) => {
                        return Err(error);
                    },
                }
            },
            OpCode::IAG => {
                let ia = self.reg.ia;
                self.write(operand, ia);
            },
            OpCode::IAS => {
                self.reg.ia = u;
            },
            OpCode::RFI => {
                self.pic.disable();
                self.reg.a = self.pop();
                self.reg.pc = self.pop();
            },
            OpCode::IAQ => {
                if u != 0 {
                    self.pic.enable();
                } else {
                    self.pic.disable();
                }
            },
            OpCode::HWN => {
                self.write(operand, ports.len() as Word);
            },
            OpCode::HWQ => {
                let info = if (u as usize) < ports.len() {
                    ports[u as usize]
                } else {
                    DeviceInfo {
                        hardware_low: 0,
                        hardware_high: 0,
                        version: 0,
                        manufacturer_low: 0,
                        manufacturer_high: 0,
                    }
                };
                self.reg.x = info.hardware_low;
                self.reg.y = info.hardware_high;
                self.reg.z = info.version;
                self.reg.a = info.manufacturer_low;
                self.reg.b = info.manufacturer_high;
            },
            OpCode::HWI => {
                if (u as usize) < ports.len() {
                    return Ok(Some(Signal { port: u, message: self.reg.a }));
                }
            },
            _ => {},
        }
        Ok(None)
    }

    /// Performs a binary operation.
    fn binary(&mut self, op: OpCode, target: Operand, source: Operand)
        ensures
            final(self)@ == old(self)@.binary(op, target, source),
    {
        let m = self.read(target);
        let u = self.read(source);
        if op.conditional() {
            self.skip = !crate::alu::test(op, m, u);
        } else {
            let (value, status) = crate::alu::compute(op, m, u, self.reg.ps);
            self.write(target, value);
            match status {
                Some(ps) => {
                    self.reg.ps = ps;
                },
                None => {},
            }
            match op {
                OpCode::STI => {
                    self.reg.i = self.reg.i.wrapping_add(1);
                    self.reg.j = self.reg.j.wrapping_add(1);
                },
                OpCode::STD => {
                    self.reg.i = self.reg.i.wrapping_sub(1);
                    self.reg.j = self.reg.j.wrapping_sub(1);
                },
                _ => {},
            }
        }
    }

    /// Performs a decoded instruction.
    ///
    /// `ports` holds what the connected devices say of themselves, by port.
    /// The processor ends in the state that [`Machine::perform`] gives. The
    /// call reports the interrupt that HWI sends to a device, if any, or the
    /// fault of an INT that overflowed the interrupt queue.
    pub fn perform(&mut self, instruction: Instruction, ports: &[DeviceInfo]) -> (result: Result<
        Option<Signal>,
        SystemError,
    >)
        requires
            ports@.len() <= 0xFFFF,
        ensures
            final(self)@ == old(self)@.perform(instruction, ports@).next,
            result == old(self)@.perform(instruction, ports@).report(),
    {
        self.busy = if instruction.time == 0 {
            0
        } else {
            instruction.time - 1
        };
        let args = instruction.opcode.args();
        if args == 0 {
            self.nullary(instruction.opcode);
            Ok(None)
        } else if args == 1 {
            self.unary(instruction.opcode, instruction.upper, ports)
        } else {
            self.binary(instruction.opcode, instruction.middle, instruction.upper);
            Ok(None)
        }
    }

    /// Passes over the instruction at PC.
    fn pass(&mut self, skip: bool)
        ensures
            final(self)@ == old(self)@.pass(skip),
    {
        let size = length(self.mem.get(self.reg.pc));
        proof {
            crate::isa::lemma_length(self.mem@[self.reg.pc as int]);
        }
        self.busy = (size - 1) as u8;
        self.skip = skip;
        self.reg.pc = self.reg.pc.wrapping_add(size);
    }

    /// Fetches the instruction at PC and decodes it; see [`Machine::fetch`].
    ///
    /// PC moves past the instruction and the words of its operands, and a
    /// stack operand moves SP. A word that encodes no operation is passed
    /// over, and the call reports [`SystemError::DecodeError`].
    pub fn fetch(&mut self) -> (result: Result<Instruction, SystemError>)
        ensures
            final(self)@ == old(self)@.fetch().0,
            match old(self)@.fetch().1 {
                Some(instruction) => result == Ok::<Instruction, SystemError>(instruction),
                None => result == Err::<Instruction, SystemError>(SystemError::DecodeError),
            },
    {
        let address = self.reg.pc;
        match Operation::decode(self.mem.get(address)) {
            Ok(operation) => {
                let _ = self.next_word();
                Ok(self.decode(operation, address))
            },
            Err(error) => {
                self.pass(false);
                Err(error)
            },
        }
    }

    /// Fetches the instruction at PC, decodes it and performs it.
    ///
    /// `ports` holds what the connected devices say of themselves, by port.
    /// The processor ends in the state that [`Machine::execute`] gives. A
    /// word that encodes no operation is passed over, and the call reports
    /// [`SystemError::DecodeError`]; otherwise it reports what
    /// [`VCPU16::perform`] reports of the instruction.
    pub fn execute(&mut self, ports: &[DeviceInfo]) -> (result: Result<
        Option<Signal>,
        SystemError,
    >)
        requires
            ports@.len() <= 0xFFFF,
        ensures
            final(self)@ == old(self)@.execute(ports@).next,
            result == old(self)@.execute(ports@).report(),
    {
        match self.fetch() {
            Ok(instruction) => self.perform(instruction, ports),
            Err(error) => Err(error),
        }
    }

    /// What the processor does with its next cycle.
    pub fn state(&self) -> (state: State)
        ensures
            state == self@.state(),
    {
        if self.clk.halted() {
            State::Halted
        } else if self.busy > 0 {
            State::Busy
        } else if self.skip {
            State::Skip
        } else if self.pic.is_disabled() && !self.pic.is_empty() && self.reg.ia != 0 {
            State::Interrupt
        } else {
            State::Execute
        }
    }

    /// Whether the processor is interrupted: its next cycle takes the
    /// oldest pending interrupt instead of an instruction.
    pub fn interrupted(&self) -> (interrupted: bool)
        ensures
            interrupted == (self@.state() == State::Interrupt),
    {
        match self.state() {
            State::Interrupt => true,
            _ => false,
        }
    }

    /// Hands the oldest pending interrupt to its handler.
    fn deliver(&mut self)
        requires
            old(self)@.state() == State::Interrupt,
        ensures
            final(self)@ == old(self)@.deliver(),
    {
        match self.pic.trigger() {
            Ok(message) => {
                self.busy = 3;
                let pc = self.reg.pc;
                let a = self.reg.a;
                self.push(pc);
                self.push(a);
                self.reg.pc = self.reg.ia;
                self.reg.a = message;
            },
            Err(_) => {
                // An interrupt is due, so the controller has one to give.
                assert(false);
            },
        }
    }

    /// Counts the cycle on a running clock.
    fn count(&mut self)
        requires
            !old(self)@.halted,
            old(self)@.cycles < u64::MAX,
        ensures
            final(self)@ == (Machine { cycles: old(self)@.cycles + 1, ..old(self)@ }),
    {
        let _ = self.clk.advance();
    }

    /// Advances the processor by one clock cycle.
    ///
    /// `ports` holds what the connected devices say of themselves, by port.
    /// The processor ends in the state that [`Machine::tick`] gives. With
    /// the clock halted nothing changes and the call reports
    /// [`SystemError::ClockHalted`]. Otherwise the clock counts the cycle and
    /// the processor idles, passes over an instruction, takes an interrupt
    /// or executes an instruction, as its state calls for; the call then
    /// reports what [`VCPU16::execute`] reports, and nothing where no
    /// instruction was executed.
    pub fn tick(&mut self, ports: &[DeviceInfo]) -> (result: Result<Option<Signal>, SystemError>)
        requires
            old(self)@.cycles < u64::MAX,
            ports@.len() <= 0xFFFF,
        ensures
            final(self)@ == old(self)@.tick(ports@).next,
            result == old(self)@.tick(ports@).report(),
    {
        match self.state() {
            State::Halted => Err(SystemError::ClockHalted),
            State::Busy => {
                self.count();
                self.busy = self.busy - 1;
                Ok(None)
            },
            State::Skip => {
                self.count();
                let conditional = is_conditional(self.mem.get(self.reg.pc));
                self.pass(conditional);
                Ok(None)
            },
            State::Interrupt => {
                self.count();
                self.deliver();
                Ok(None)
            },
            State::Execute => {
                self.count();
                self.execute(ports)
            },
        }
    }

    /// Advances a processor without devices by one clock cycle.
    ///
    /// This is [`VCPU16::tick`] with no device connected: HWN finds none,
    /// HWQ finds zeros, and HWI sends nothing.
    pub fn step(&mut self) -> (result: Result<(), SystemError>)
        requires
            old(self)@.cycles < u64::MAX,
        ensures
            final(self)@ == old(self)@.tick(Seq::empty()).next,
            match old(self)@.tick(Seq::empty()).fault {
                Some(error) => result == Err::<(), SystemError>(error),
                None => result == Ok::<(), SystemError>(()),
            },
    {
        let ports: [DeviceInfo; 0] = [];
        assert(ports@ =~= Seq::<DeviceInfo>::empty());
        match self.tick(ports.as_slice()) {
            Ok(_) => Ok(()),
            Err(error) => Err(error),
        }
    }

    /// Loads a memory image; see [`Memory::load`]. Nothing but memory
    /// changes.
    pub fn load_mem(&mut self, image: &[u8; 131072])
        ensures
            final(self)@ == (Machine { mem: words_of(image@), ..old(self)@ }),
    {
        self.mem.load(image);
    }

    /// Saves the memory image; see [`Memory::save`].
    pub fn save_mem(&self, image: &mut [u8; 131072])
        ensures
            final(image)@ == bytes_of(self@.mem),
    {
        self.mem.save(image);
    }

    /// Zero-fills the memory. Nothing but memory changes.
    pub fn clear_mem(&mut self)
        ensures
            final(self)@ == (Machine { mem: Machine::initial().mem, ..old(self)@ }),
    {
        self.mem.clear();
    }

    /// Copies `buffer` into memory from `address` upwards; see
    /// [`Memory::write`]. Nothing but memory changes.
    pub fn write_mem(&mut self, address: Word, buffer: &[Word])
        ensures
            final(self)@ == (Machine {
                mem: overlay(old(self)@.mem, address as int, buffer@),
                ..old(self)@
            }),
    {
        self.mem.write(address, buffer);
    }

    /// Borrows `length` words of memory from `address` upwards; see
    /// [`Memory::read`].
    pub fn read_mem(&self, address: Word, length: Word) -> (words: &[Word])
        ensures
            words@ == window(self@.mem, address as int, length as int),
    {
        self.mem.read(address, length)
    }

    /// Sets the memory cell at `address` to `value`. Nothing else changes.
    pub fn set_mem(&mut self, address: Word, value: Word)
        ensures
            final(self)@ == (Machine {
                mem: old(self)@.mem.update(address as int, value),
                ..old(self)@
            }),
    {
        self.mem.set(address, value);
    }

    /// Gets the memory cell at `address`.
    pub fn get_mem(&self, address: Word) -> (value: Word)
        ensures
            value == self@.mem[address as int],
    {
        self.mem.get(address)
    }

    /// Gets the value of the Program Counter (PC) register.
    pub fn get_pc(&self) -> (value: Word)
        ensures
            value == self@.reg.pc,
    {
        self.reg.pc
    }

    /// Gets the value of the Stack Pointer (SP) register.
    pub fn get_sp(&self) -> (value: Word)
        ensures
            value == self@.reg.sp,
    {
        self.reg.sp
    }

    /// Gets the value of the Program Status (PS) register.
    pub fn get_ps(&self) -> (value: Word)
        ensures
            value == self@.reg.ps,
    {
        self.reg.ps
    }

    /// Gets the value of the Interrupt Address (IA) register.
    pub fn get_ia(&self) -> (value: Word)
        ensures
            value == self@.reg.ia,
    {
        self.reg.ia
    }

    /// Gets the value of register A.
    pub fn get_a(&self) -> (value: Word)
        ensures
            value == self@.reg.a,
    {
        self.reg.a
    }

    /// Gets the value of register B.
    pub fn get_b(&self) -> (value: Word)
        ensures
            value == self@.reg.b,
    {
        self.reg.b
    }

    /// Gets the value of register C.
    pub fn get_c(&self) -> (value: Word)
        ensures
            value == self@.reg.c,
    {
        self.reg.c
    }

    /// Gets the value of register X.
    pub fn get_x(&self) -> (value: Word)
        ensures
            value == self@.reg.x,
    {
        self.reg.x
    }

    /// Gets the value of register Y.
    pub fn get_y(&self) -> (value: Word)
        ensures
            value == self@.reg.y,
    {
        self.reg.y
    }

    /// Gets the value of register Z.
    pub fn get_z(&self) -> (value: Word)
        ensures
            value == self@.reg.z,
    {
        self.reg.z
    }

    /// Gets the value of register I.
    pub fn get_i(&self) -> (value: Word)
        ensures
            value == self@.reg.i,
    {
        self.reg.i
    }

    /// Gets the value of register J.
    pub fn get_j(&self) -> (value: Word)
        ensures
            value == self@.reg.j,
    {
        self.reg.j
    }

    /// The cycles that the current instruction still takes.
    pub fn busy(&self) -> (busy: u8)
        ensures
            busy == self@.busy,
    {
        self.busy
    }

    /// The registers.
    pub fn registers(&self) -> (registers: &Registers)
        ensures
            *registers == self@.reg,
    {
        &self.reg
    }

    /// The registers, for reading and writing. Nothing but the registers
    /// can change through the borrow.
    pub fn registers_mut(&mut self) -> (registers: &mut Registers)
        ensures
            *registers == old(self)@.reg,
            final(self)@ == (Machine { reg: *final(registers), ..old(self)@ }),
    {
        &mut self.reg
    }

    /// The memory.
    pub fn memory(&self) -> (memory: &Memory)
        ensures
            memory@ == self@.mem,
    {
        &self.mem
    }

    /// The memory, for reading and writing. Nothing but memory can change
    /// through the borrow.
    pub fn memory_mut(&mut self) -> (memory: &mut Memory)
        ensures
            memory@ == old(self)@.mem,
            final(self)@ == (Machine { mem: final(memory)@, ..old(self)@ }),
    {
        &mut self.mem
    }

    /// The clock.
    pub fn clock(&self) -> (clock: &Clock)
        ensures
            clock.cycles() == self@.cycles,
            clock.halted() == self@.halted,
    {
        &self.clk
    }

    /// The clock, for reading and writing. Nothing but the cycle count and
    /// the halt can change through the borrow.
    pub fn clock_mut(&mut self) -> (clock: &mut Clock)
        ensures
            clock.cycles() == old(self)@.cycles,
            clock.halted() == old(self)@.halted,
            final(self)@ == (Machine {
                cycles: final(clock).cycles() as nat,
                halted: final(clock).halted(),
                ..old(self)@
            }),
    {
        &mut self.clk
    }

    /// The interrupt controller.
    pub fn pic(&self) -> (pic: &PIC)
        ensures
            pic.pending() == self@.queue,
            pic.queueing() == self@.queueing,
    {
        &self.pic
    }

    /// The interrupt controller, for reading and writing. Nothing but the
    /// pending interrupts and the queueing switch can change through the
    /// borrow.
    pub fn pic_mut(&mut self) -> (pic: &mut PIC)
        ensures
            pic.pending() == old(self)@.queue,
            pic.queueing() == old(self)@.queueing,
            final(self)@ == (Machine {
                queue: final(pic).pending(),
                queueing: final(pic).queueing(),
                ..old(self)@
            }),
    {
        &mut self.pic
    }

    /// Halts the clock: from now on every cycle is refused.
    pub fn halt(&mut self)
        ensures
            final(self)@ == (Machine { halted: true, ..old(self)@ }),
    {
        self.clk.halt();
    }

    /// Lets a device take its turn in the current cycle.
    ///
    /// The device is shown the clock and handed the registers, the memory
    /// and the interrupt controller, which it may change as it sees fit.
    /// The clock and what is left to do of the current instruction are out
    /// of its reach. The call reports what the device reports.
    pub fn poll<D: Hardware>(&mut self, device: &mut D) -> (result: Result<(), SystemError>)
        ensures
            final(self)@ == (Machine {
                reg: final(self)@.reg,
                mem: final(self)@.mem,
                queue: final(self)@.queue,
                queueing: final(self)@.queueing,
                ..old(self)@
            }),
    {
        device.update(&self.clk, &mut self.reg, &mut self.mem, &mut self.pic)
    }
}

} // verus!
