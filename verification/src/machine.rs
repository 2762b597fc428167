//! The processor as a mathematical state machine.
//!
//! [`Machine`] is the state of the processor and everything it owns, and
//! [`Machine::tick`] is what one clock cycle makes of it. Everything that
//! [`crate::cpu::VCPU16`] does is stated in these terms.

use crate::alu::{spec_clk, spec_compute, spec_test, wrap};
use crate::error::SystemError;
use crate::hardware::{DeviceInfo, Signal};
use crate::isa::{spec_is_conditional, spec_length, OpCode, Operation, ValueCode};
use crate::queue::enqueued;
use crate::registers::{Register, Registers};
use crate::Word;
use vstd::prelude::*;

verus! {

/// An operand after decoding: what an instruction reads or writes.
#[derive(Clone, Copy, Debug, PartialEq, Eq, Structural)]
pub enum Operand {
    /// An immediate word. Writes to it are discarded.
    Literal(Word),
    /// The memory cell at an address.
    Memory(Word),
    /// A register.
    Register(Register),
}

/// An instruction after decoding, ready to be performed.
#[derive(Clone, Copy, Debug, PartialEq, Eq, Structural)]
pub struct Instruction {
    /// The address that the instruction was fetched from.
    pub address: Word,
    /// The operation.
    pub opcode: OpCode,
    /// The operand u, the source of a binary operation. A nullary
    /// instruction has the literal zero here.
    pub upper: Operand,
    /// The operand m, the destination of a binary operation. A nullary or
    /// unary instruction has the literal zero here.
    pub middle: Operand,
    /// The cycles that the instruction takes, operand fetches included.
    pub time: u8,
}

/// What the processor does with its next cycle.
#[derive(Clone, Copy, Debug, PartialEq, Eq, Structural)]
pub enum State {
    /// The clock is halted: nothing happens any more.
    Halted,
    /// The last instruction is still taking its time.
    Busy,
    /// The instruction at PC is passed over, because a condition failed.
    Skip,
    /// The oldest pending interrupt is handed to its handler.
    Interrupt,
    /// The instruction at PC is fetched, decoded and performed.
    Execute,
}

/// The state of the processor: registers, memory, interrupt controller,
/// clock, and what is left to do of the current instruction.
pub struct Machine {
    /// The registers.
    pub reg: Registers,
    /// The memory, indexed by address.
    pub mem: Seq<Word>,
    /// The pending interrupt messages, oldest first.
    pub queue: Seq<Word>,
    /// Whether interrupts are held back in the queue.
    pub queueing: bool,
    /// The cycles counted since start-up.
    pub cycles: nat,
    /// Whether the clock is halted.
    pub halted: bool,
    /// The cycles that the current instruction still takes.
    pub busy: nat,
    /// Whether a condition failed and the instruction at PC is to be passed
    /// over.
    pub skip: bool,
    /// The cycle count when CLK last latched it.
    pub latch: nat,
}

/// What a cycle, or a part of one, leads to.
pub struct Effect {
    /// The state afterwards.
    pub next: Machine,
    /// The interrupt that the processor sends to a device, if any.
    pub signal: Option<Signal>,
    /// The fault that ended the cycle, if any.
    pub fault: Option<SystemError>,
}

impl Effect {
    /// The effect of a step that ends in `next` without signal or fault.
    pub open spec fn quiet(next: Machine) -> Effect {
        Effect { next, signal: None, fault: None }
    }

    /// What the step reports: the fault if there is one, the signal
    /// otherwise.
    pub open spec fn report(self) -> Result<Option<Signal>, SystemError> {
        match self.fault {
            Some(error) => Err(error),
            None => Ok(self.signal),
        }
    }
}

impl Machine {
    /// The state at start-up: everything zero and empty, the clock running.
    pub open spec fn initial() -> Machine {
        Machine {
            reg: Registers::zero(),
            mem: Seq::new(65536, |a: int| 0u16),
            queue: Seq::empty(),
            queueing: false,
            cycles: 0,
            halted: false,
            busy: 0,
            skip: false,
            latch: 0,
        }
    }

    /// What holds of every state that the processor can be in: memory has
    /// its 65,536 words and at most 255 interrupts are pending.
    pub open spec fn wf(self) -> bool {
        self.mem.len() == 65536 && self.queue.len() <= 255
    }

    /// The state with the named register set to `value`.
    pub open spec fn set(self, register: Register, value: Word) -> Machine {
        Machine { reg: self.reg.set(register, value), ..self }
    }

    /// The value of an operand.
    pub open spec fn read(self, operand: Operand) -> Word {
        match operand {
            Operand::Literal(value) => value,
            Operand::Memory(address) => self.mem[address as int],
            Operand::Register(register) => self.reg.get(register),
        }
    }

    /// The state after `value` is written to an operand. A write to a
    /// literal changes nothing.
    pub open spec fn write(self, operand: Operand, value: Word) -> Machine {
        match operand {
            Operand::Literal(_) => self,
            Operand::Memory(address) => Machine {
                mem: self.mem.update(address as int, value),
                ..self
            },
            Operand::Register(register) => self.set(register, value),
        }
    }

    /// Takes the word at PC: the state with PC moved on by one, and the
    /// word.
    pub open spec fn next_word(self) -> (Machine, Word) {
        (self.set(Register::PC, wrap(self.reg.pc + 1)), self.mem[self.reg.pc as int])
    }

    /// Pushes `value`: SP moves down by one, then the value is stored at SP.
    pub open spec fn push(self, value: Word) -> Machine {
        let sp = wrap(self.reg.sp - 1);
        Machine { mem: self.mem.update(sp as int, value), ..self.set(Register::SP, sp) }
    }

    /// Pops a value: the word at SP is taken, then SP moves up by one.
    pub open spec fn pop(self) -> (Machine, Word) {
        (self.set(Register::SP, wrap(self.reg.sp + 1)), self.mem[self.reg.sp as int])
    }

    /// Resolves an operand field to the operand it refers to.
    ///
    /// An operand that takes the next word moves PC on. The stack operand
    /// moves SP: in the destination field it is a push, which moves SP down
    /// and refers to the new top; in the source field it is a pop, which
    /// refers to the top and moves SP up.
    pub open spec fn resolve(self, value: ValueCode, destination: bool) -> (Machine, Operand) {
        let code = value.code;
        let register = Register::spec_general(code as int);
        if code < 0x08 {
            (self, Operand::Register(register))
        } else if code < 0x10 {
            (self, Operand::Memory(self.reg.get(register)))
        } else if code < 0x18 {
            let (next, word) = self.next_word();
            (next, Operand::Memory(wrap(self.reg.get(register) + word)))
        } else if code == 0x18 {
            if destination {
                let sp = wrap(self.reg.sp - 1);
                (self.set(Register::SP, sp), Operand::Memory(sp))
            } else {
                (self.set(Register::SP, wrap(self.reg.sp + 1)), Operand::Memory(self.reg.sp))
            }
        } else if code == 0x19 {
            (self, Operand::Memory(self.reg.sp))
        } else if code == 0x1A {
            let (next, word) = self.next_word();
            (next, Operand::Memory(wrap(self.reg.sp + word)))
        } else if code == 0x1B {
            (self, Operand::Register(Register::SP))
        } else if code == 0x1C {
            (self, Operand::Register(Register::PC))
        } else if code == 0x1D {
            (self, Operand::Register(Register::PS))
        } else if code == 0x1E {
            let (next, word) = self.next_word();
            (next, Operand::Memory(word))
        } else if code == 0x1F {
            let (next, word) = self.next_word();
            (next, Operand::Literal(word))
        } else {
            (self, Operand::Literal(wrap(code - 0x21)))
        }
    }

    /// Resolves the operands of an instruction that was fetched from
    /// `address`: the source first, then the destination.
    pub open spec fn decode(self, operation: Operation, address: Word) -> (Machine, Instruction) {
        let none = Operand::Literal(0);
        let time = operation.spec_time();
        match operation {
            Operation::Nullary { op } => (
                self,
                Instruction { address, opcode: op, upper: none, middle: none, time },
            ),
            Operation::Unary { op, upper } => {
                let (next, u) = self.resolve(upper, false);
                (next, Instruction { address, opcode: op, upper: u, middle: none, time })
            },
            Operation::Binary { op, middle, upper } => {
                let (first, u) = self.resolve(upper, false);
                let (next, m) = first.resolve(middle, true);
                (next, Instruction { address, opcode: op, upper: u, middle: m, time })
            },
        }
    }

    /// Raises an interrupt with the given message.
    ///
    /// With IA at zero the interrupt is dropped. Otherwise the message joins
    /// the queue; where the queue is full, the clock is halted and the fault
    /// is an interrupt overflow.
    pub open spec fn raise(self, message: Word) -> (Machine, Option<SystemError>) {
        if self.reg.ia == 0 {
            (self, None)
        } else {
            match enqueued(self.queue, message) {
                Some(queue) => (Machine { queue, ..self }, None),
                None => (Machine { halted: true, ..self }, Some(SystemError::InterruptOverflow)),
            }
        }
    }

    /// Performs a nullary operation.
    ///
    /// CLK latches the cycle counter as [`spec_clk`] describes: the high
    /// half of its low 32 bits goes to I, the low half to J, and PS says
    /// whether the counter has wrapped around 32 bits since CLK last latched
    /// it. NOP does nothing.
    pub open spec fn nullary(self, op: OpCode) -> Machine {
        match op {
            OpCode::CLK => Machine {
                reg: Registers {
                    i: spec_clk(self.cycles, self.latch).0,
                    j: spec_clk(self.cycles, self.latch).1,
                    ps: spec_clk(self.cycles, self.latch).2,
                    ..self.reg
                },
                latch: self.cycles,
                ..self
            },
            _ => self,
        }
    }

    /// What a hardware query finds at `port`: the identification of the
    /// device there, or zeros where there is none.
    pub open spec fn query(ports: Seq<DeviceInfo>, port: Word) -> DeviceInfo {
        if port < ports.len() {
            ports[port as int]
        } else {
            DeviceInfo::absent()
        }
    }

    /// Performs a unary operation on the operand u.
    ///
    /// - JSR pushes PC, then sets PC to u.
    /// - NOT sets u to its bitwise complement.
    /// - INT raises an interrupt with message u.
    /// - IAG sets u to IA; IAS sets IA to u.
    /// - RFI disables queueing, then pops A, then pops PC.
    /// - IAQ enables queueing where u is not zero and disables it where it
    ///   is.
    /// - HWN sets u to the number of connected devices.
    /// - HWQ sets X and Y to the low and high word of the hardware id of the
    ///   device at port u, Z to its version, and A and B to the low and high
    ///   word of its manufacturer id.
    /// - HWI sends register A as an interrupt to the device at port u; with
    ///   no device there it does nothing.
    pub open spec fn unary(self, op: OpCode, operand: Operand, ports: Seq<DeviceInfo>) -> Effect {
        let u = self.read(operand);
        match op {
            OpCode::JSR => {
                let pushed = self.push(self.reg.pc);
                Effect::quiet(pushed.set(Register::PC, pushed.read(operand)))
            },
            OpCode::NOT => Effect::quiet(self.write(operand, wrap(0xFFFF - u))),
            OpCode::INT => {
                let (next, fault) = self.raise(u);
                Effect { next, signal: None, fault }
            },
            OpCode::IAG => Effect::quiet(self.write(operand, self.reg.ia)),
            OpCode::IAS => Effect::quiet(Machine { reg: Registers { ia: u, ..self.reg }, ..self }),
            OpCode::RFI => {
                let (first, a) = Machine { queueing: false, ..self }.pop();
                let (second, pc) = first.set(Register::A, a).pop();
                Effect::quiet(second.set(Register::PC, pc))
            },
            OpCode::IAQ => Effect::quiet(Machine { queueing: u != 0, ..self }),
            OpCode::HWN => Effect::quiet(self.write(operand, wrap(ports.len() as int))),
            OpCode::HWQ => {
                let info = Machine::query(ports, u);
                Effect::quiet(
                    Machine {
                        reg: Registers {
                            x: info.hardware_low,
                            y: info.hardware_high,
                            z: info.version,
                            a: info.manufacturer_low,
                            b: info.manufacturer_high,
                            ..self.reg
                        },
                        ..self
                    },
                )
            },
            OpCode::HWI => Effect {
                next: self,
                signal: if u < ports.len() {
                    Some(Signal { port: u, message: self.reg.a })
                } else {
                    None
                },
                fault: None,
            },
            _ => Effect::quiet(self),
        }
    }

    /// Performs a binary operation on the destination m and the source u.
    ///
    /// A conditional tests m against u and marks the next instruction to be
    /// passed over where the test fails. Any other operation stores what
    /// [`spec_compute`] gives: the result in m, then the status in PS, if
    /// there is one. After that STI moves I and J up by one, and STD moves
    /// them down by one.
    pub open spec fn binary(self, op: OpCode, target: Operand, source: Operand) -> Machine {
        let m = self.read(target);
        let u = self.read(source);
        if op.spec_conditional() {
            Machine { skip: !spec_test(op, m, u), ..self }
        } else {
            let (value, status) = spec_compute(op, m, u, self.reg.ps);
            let stored = self.write(target, value);
            let flagged = match status {
                Some(ps) => stored.set(Register::PS, ps),
                None => stored,
            };
            if op == OpCode::STI {
                flagged.set(Register::I, wrap(flagged.reg.i + 1)).set(
                    Register::J,
                    wrap(flagged.reg.j + 1),
                )
            } else if op == OpCode::STD {
                flagged.set(Register::I, wrap(flagged.reg.i - 1)).set(
                    Register::J,
                    wrap(flagged.reg.j - 1),
                )
            } else {
                flagged
            }
        }
    }

    /// Performs a decoded instruction.
    ///
    /// `ports` holds what the connected devices say of themselves, by port.
    /// The instruction's time, less the cycle that performs it, is left in
    /// the busy counter.
    pub open spec fn perform(self, instruction: Instruction, ports: Seq<DeviceInfo>) -> Effect {
        let s = Machine {
            busy: if instruction.time == 0 {
                0nat
            } else {
                (instruction.time - 1) as nat
            },
            ..self
        };
        if instruction.opcode.spec_args() == 0 {
            Effect::quiet(s.nullary(instruction.opcode))
        } else if instruction.opcode.spec_args() == 1 {
            s.unary(instruction.opcode, instruction.upper, ports)
        } else {
            Effect::quiet(s.binary(instruction.opcode, instruction.middle, instruction.upper))
        }
    }

    /// Passes over the instruction at PC: PC moves past the instruction and
    /// the words of its operands, and nothing else is touched. Each word
    /// costs a cycle. `skip` says whether the instruction after it is to be
    /// passed over as well.
    pub open spec fn pass(self, skip: bool) -> Machine {
        let word = self.mem[self.reg.pc as int];
        Machine { busy: (spec_length(word) - 1) as nat, skip, ..self }.set(
            Register::PC,
            wrap(self.reg.pc + spec_length(word)),
        )
    }

    /// Fetches the instruction at PC and decodes it: PC moves past the
    /// instruction and the words of its operands, and the operands are
    /// resolved.
    ///
    /// A word that encodes no operation gives no instruction. It is passed
    /// over with the words that its operand fields call for, and nothing
    /// else is touched.
    pub open spec fn fetch(self) -> (Machine, Option<Instruction>) {
        let (fetched, word) = self.next_word();
        match Operation::spec_decode(word) {
            Some(operation) => {
                let (decoded, instruction) = fetched.decode(operation, self.reg.pc);
                (decoded, Some(instruction))
            },
            None => (self.pass(false), None),
        }
    }

    /// Fetches the instruction at PC, decodes it and performs it.
    ///
    /// A word that encodes no operation is passed over and faults with a
    /// decode error.
    pub open spec fn execute(self, ports: Seq<DeviceInfo>) -> Effect {
        match self.fetch().1 {
            Some(instruction) => self.fetch().0.perform(instruction, ports),
            None => Effect {
                next: self.fetch().0,
                signal: None,
                fault: Some(SystemError::DecodeError),
            },
        }
    }

    /// Passes over the instruction at PC after a condition failed. A
    /// conditional that is passed over takes the instruction after it along.
    pub open spec fn skip_over(self) -> Machine {
        self.pass(spec_is_conditional(self.mem[self.reg.pc as int]))
    }

    /// Hands the oldest pending interrupt to its handler: PC and A are
    /// pushed, PC becomes IA, A becomes the message, and queueing is enabled
    /// until the handler returns. This takes four cycles.
    pub open spec fn deliver(self) -> Machine {
        let taken = Machine {
            queue: self.queue.drop_first(),
            queueing: true,
            busy: 3,
            ..self
        };
        taken.push(self.reg.pc).push(self.reg.a).set(Register::PC, self.reg.ia).set(
            Register::A,
            self.queue[0],
        )
    }

    /// What the processor does with its next cycle.
    pub open spec fn state(self) -> State {
        if self.halted {
            State::Halted
        } else if self.busy > 0 {
            State::Busy
        } else if self.skip {
            State::Skip
        } else if !self.queueing && self.queue.len() > 0 && self.reg.ia != 0 {
            State::Interrupt
        } else {
            State::Execute
        }
    }

    /// One clock cycle.
    ///
    /// A halted machine stays as it is and faults. Otherwise the clock
    /// counts the cycle, and the processor does what its state calls for.
    pub open spec fn tick(self, ports: Seq<DeviceInfo>) -> Effect {
        let counted = Machine { cycles: self.cycles + 1, ..self };
        match self.state() {
            State::Halted => Effect {
                next: self,
                signal: None,
                fault: Some(SystemError::ClockHalted),
            },
            State::Busy => Effect::quiet(Machine { busy: (self.busy - 1) as nat, ..counted }),
            State::Skip => Effect::quiet(counted.skip_over()),
            State::Interrupt => Effect::quiet(counted.deliver()),
            State::Execute => counted.execute(ports),
        }
    }

    /// The state after `count` cycles, faults or none.
    pub open spec fn run(self, ports: Seq<DeviceInfo>, count: nat) -> Machine
        decreases count,
    {
        if count == 0 {
            self
        } else {
            self.tick(ports).next.run(ports, (count - 1) as nat)
        }
    }

    /// Whether each of the next `count` cycles ends without a fault.
    pub open spec fn runs(self, ports: Seq<DeviceInfo>, count: nat) -> bool
        decreases count,
    {
        count == 0 || (self.tick(ports).fault.is_none() && self.tick(ports).next.runs(
            ports,
            (count - 1) as nat,
        ))
    }

    /// Resolving an operand touches nothing but PC and SP.
    pub proof fn lemma_resolve(self, value: ValueCode, destination: bool)
        ensures
            self.resolve(value, destination).0 == (Machine {
                reg: Registers {
                    pc: self.resolve(value, destination).0.reg.pc,
                    sp: self.resolve(value, destination).0.reg.sp,
                    ..self.reg
                },
                ..self
            }),
    {
    }

    /// Resolving an operand moves PC on by one where the operand takes the
    /// next word and leaves it alone where it does not; it moves SP by one
    /// for the stack operand, down for a push and up for a pop, and leaves
    /// it alone for any other.
    pub proof fn lemma_resolve_moves(self, value: ValueCode, destination: bool)
        ensures
            self.resolve(value, destination).0.reg.pc == wrap(self.reg.pc + value.spec_time()),
            self.resolve(value, destination).0.reg.sp == if value.code != 0x18 {
                self.reg.sp
            } else if destination {
                wrap(self.reg.sp - 1)
            } else {
                wrap(self.reg.sp + 1)
            },
    {
    }

    /// Decoding an instruction touches nothing but PC and SP.
    pub proof fn lemma_decode(self, operation: Operation, address: Word)
        ensures
            self.decode(operation, address).0 == (Machine {
                reg: Registers {
                    pc: self.decode(operation, address).0.reg.pc,
                    sp: self.decode(operation, address).0.reg.sp,
                    ..self.reg
                },
                ..self
            }),
    {
        match operation {
            Operation::Nullary { .. } => {},
            Operation::Unary { upper, .. } => {
                self.lemma_resolve(upper, false);
            },
            Operation::Binary { middle, upper, .. } => {
                self.lemma_resolve(upper, false);
                self.resolve(upper, false).0.lemma_resolve(middle, true);
            },
        }
    }

    /// Performing an instruction keeps a well-formed state well formed.
    pub proof fn lemma_perform_wf(self, instruction: Instruction, ports: Seq<DeviceInfo>)
        requires
            self.wf(),
        ensures
            self.perform(instruction, ports).next.wf(),
    {
        let s = Machine {
            busy: if instruction.time == 0 {
                0nat
            } else {
                (instruction.time - 1) as nat
            },
            ..self
        };
        if instruction.opcode.spec_args() == 0 {
            assert(s.nullary(instruction.opcode).wf());
        } else if instruction.opcode.spec_args() == 1 {
            assert(s.unary(instruction.opcode, instruction.upper, ports).next.wf());
        } else {
            assert(s.binary(instruction.opcode, instruction.middle, instruction.upper).wf());
        }
    }

    /// Fetching an instruction touches nothing but PC and SP. Where the
    /// word at PC encodes no operation, SP stays too; what changes then is
    /// PC, the busy counter, and the mark for passing over, which is
    /// cleared.
    pub proof fn lemma_fetch(self)
        ensures
            self.fetch().1.is_some() ==> self.fetch().0 == (Machine {
                reg: Registers {
                    pc: self.fetch().0.reg.pc,
                    sp: self.fetch().0.reg.sp,
                    ..self.reg
                },
                ..self
            }),
            self.fetch().1.is_none() ==> self.fetch().0 == (Machine {
                reg: Registers { pc: self.fetch().0.reg.pc, ..self.reg },
                busy: self.fetch().0.busy,
                skip: false,
                ..self
            }),
    {
        let (fetched, word) = self.next_word();
        match Operation::spec_decode(word) {
            Some(operation) => {
                fetched.lemma_decode(operation, self.reg.pc);
            },
            None => {},
        }
    }

    /// Performing an instruction never touches the cycle count, and the
    /// only fault it can end in is an interrupt overflow, which is also the
    /// only thing that halts the clock.
    pub proof fn lemma_perform(self, instruction: Instruction, ports: Seq<DeviceInfo>)
        ensures
            self.perform(instruction, ports).next.cycles == self.cycles,
            self.perform(instruction, ports).fault.is_none() || self.perform(
                instruction,
                ports,
            ).fault == Some(SystemError::InterruptOverflow),
            self.perform(instruction, ports).fault.is_none() ==> self.perform(
                instruction,
                ports,
            ).next.halted == self.halted,
            self.perform(instruction, ports).fault.is_some() ==> self.perform(
                instruction,
                ports,
            ).next.halted,
            self.perform(instruction, ports).next.busy == if instruction.time == 0 {
                0
            } else {
                instruction.time - 1
            },
    {
        let s = Machine {
            busy: if instruction.time == 0 {
                0nat
            } else {
                (instruction.time - 1) as nat
            },
            ..self
        };
        if instruction.opcode.spec_args() == 0 {
            assert(s.nullary(instruction.opcode).cycles == self.cycles);
        } else if instruction.opcode.spec_args() == 1 {
            assert(s.unary(instruction.opcode, instruction.upper, ports).next.cycles
                == self.cycles);
        } else {
            assert(s.binary(instruction.opcode, instruction.middle, instruction.upper).cycles
                == self.cycles);
        }
    }

    /// Decoding an instruction moves PC on by one for each operand that
    /// takes the next word.
    #[verifier::rlimit(40)]
    pub proof fn lemma_decode_moves(self, operation: Operation, address: Word)
        ensures
            self.decode(operation, address).0.reg.pc == wrap(
                self.reg.pc + operation.spec_size() - 1,
            ),
    {
        let pc = self.reg.pc as int;
        match operation {
            Operation::Nullary { .. } => {},
            Operation::Unary { upper, .. } => {
                self.lemma_resolve_moves(upper, false);
            },
            Operation::Binary { middle, upper, .. } => {
                let first = self.resolve(upper, false).0;
                self.lemma_resolve_moves(upper, false);
                first.lemma_resolve_moves(middle, true);
                assert(first.reg.pc == wrap(pc + upper.spec_time()));
                assert(wrap(first.reg.pc + middle.spec_time()) == wrap(
                    pc + upper.spec_time() + middle.spec_time(),
                ));
            },
        }
    }

    /// Fetching an instruction moves PC past the instruction and the words
    /// of its operands, exactly as far as passing over it does.
    #[verifier::rlimit(40)]
    pub proof fn lemma_fetch_moves(self)
        ensures
            self.fetch().0.reg.pc == wrap(self.reg.pc + spec_length(self.mem[self.reg.pc as int])),
            self.fetch().0.reg.pc == self.skip_over().reg.pc,
    {
        let pc = self.reg.pc as int;
        let word = self.mem[pc];
        let fetched = self.next_word().0;
        crate::isa::lemma_length(word);
        assert(self.skip_over().reg.pc == wrap(pc + spec_length(word)));
        match Operation::spec_decode(word) {
            Some(operation) => {
                fetched.lemma_decode_moves(operation, self.reg.pc);
                assert(fetched.reg.pc == wrap(pc + 1));
                assert(wrap(wrap(pc + 1) + operation.spec_size() - 1) == wrap(
                    pc + operation.spec_size(),
                ));
            },
            None => {},
        }
    }

    /// A cycle keeps a well-formed state well formed.
    pub proof fn lemma_tick_wf(self, ports: Seq<DeviceInfo>)
        requires
            self.wf(),
        ensures
            self.tick(ports).next.wf(),
    {
        let counted = Machine { cycles: self.cycles + 1, ..self };
        match self.state() {
            State::Execute => {
                counted.lemma_fetch();
                match counted.fetch().1 {
                    Some(instruction) => {
                        counted.fetch().0.lemma_perform_wf(instruction, ports);
                    },
                    None => {},
                }
            },
            _ => {},
        }
    }

    /// Every cycle is counted but the one that a halted clock refuses, on
    /// which nothing changes at all. A halt, once there, stays.
    pub proof fn lemma_tick_counts(self, ports: Seq<DeviceInfo>)
        ensures
            self.halted ==> self.tick(ports).next == self && self.tick(ports).fault == Some(
                SystemError::ClockHalted,
            ),
            !self.halted ==> self.tick(ports).next.cycles == self.cycles + 1 && self.tick(
                ports,
            ).fault != Some(SystemError::ClockHalted),
            self.halted ==> self.tick(ports).next.halted,
    {
        let counted = Machine { cycles: self.cycles + 1, ..self };
        match self.state() {
            State::Execute => {
                counted.lemma_fetch();
                match counted.fetch().1 {
                    Some(instruction) => {
                        counted.fetch().0.lemma_perform(instruction, ports);
                    },
                    None => {},
                }
            },
            _ => {},
        }
    }

    /// After `count` cycles without fault, the clock has counted `count`
    /// cycles more.
    pub proof fn lemma_run_counts(self, ports: Seq<DeviceInfo>, count: nat)
        requires
            self.runs(ports, count),
        ensures
            self.run(ports, count).cycles == self.cycles + count,
        decreases count,
    {
        if count > 0 {
            self.lemma_tick_counts(ports);
            self.tick(ports).next.lemma_run_counts(ports, (count - 1) as nat);
        }
    }

    /// A halted machine stays exactly as it is, however many cycles are
    /// asked of it.
    pub proof fn lemma_halted_run(self, ports: Seq<DeviceInfo>, count: nat)
        requires
            self.halted,
        ensures
            self.run(ports, count) == self,
            count > 0 ==> !self.runs(ports, count),
        decreases count,
    {
        if count > 0 {
            self.lemma_halted_run(ports, (count - 1) as nat);
        }
    }

    /// An instruction keeps the processor for as many cycles as it takes:
    /// while the busy counter runs down, a cycle does nothing but count.
    pub proof fn lemma_busy_run(self, ports: Seq<DeviceInfo>, count: nat)
        requires
            !self.halted,
            count <= self.busy,
        ensures
            self.runs(ports, count),
            self.run(ports, count) == (Machine {
                cycles: self.cycles + count,
                busy: (self.busy - count) as nat,
                ..self
            }),
        decreases count,
    {
        if count > 0 {
            self.tick(ports).next.lemma_busy_run(ports, (count - 1) as nat);
        }
    }

    /// A decoded instruction takes the time of its operation and one cycle
    /// for each operand that takes the next word, and leaves all but the
    /// cycle that performs it in the busy counter.
    pub proof fn lemma_time(self, operation: Operation, ports: Seq<DeviceInfo>)
        ensures
            self.decode(operation, self.reg.pc).1.time == operation.spec_time(),
            operation.spec_time() == operation.spec_opcode().spec_time() + operation.spec_size()
                - 1,
            1 <= operation.spec_time() <= 6,
            self.perform(self.decode(operation, self.reg.pc).1, ports).next.busy
                == operation.spec_time() - 1,
    {
    }

    /// The operand codes 0x20 to 0x3F are the literals -1 to 30: code `v`
    /// resolves to the literal `v - 0x21`, reduced to a word, in either
    /// field and without touching the state.
    pub proof fn lemma_literals(self, value: ValueCode, destination: bool)
        requires
            0x20 <= value.code <= 0x3F,
        ensures
            self.resolve(value, destination) == (self, Operand::Literal(wrap(value.code - 0x21))),
            value.code == 0x20 ==> wrap(value.code - 0x21) == 0xFFFF,
            value.code > 0x20 ==> wrap(value.code - 0x21) == value.code - 0x21,
            !value.spec_next(),
    {
    }

    /// What was pushed last is popped first, and the pop puts SP back where
    /// it was before the push.
    pub proof fn lemma_push_pop(self, value: Word)
        requires
            self.wf(),
        ensures
            self.push(value).pop().1 == value,
            self.push(value).pop().0.reg == self.reg,
            self.push(value).pop().0 == self.push(value).set(Register::SP, self.reg.sp),
    {
    }

    /// JSR leaves the address of the instruction after it on the stack:
    /// popping it into PC returns there and puts SP back where it was.
    pub proof fn lemma_jsr_return(self, target: Operand, ports: Seq<DeviceInfo>)
        requires
            self.wf(),
        ensures
            self.unary(OpCode::JSR, target, ports).fault.is_none(),
            self.unary(OpCode::JSR, target, ports).next.pop().1 == self.reg.pc,
            self.unary(OpCode::JSR, target, ports).next.pop().0.reg.sp == self.reg.sp,
    {
    }

    /// An interrupt that is raised while IA is zero is dropped; otherwise
    /// it joins the queue behind the others, if there is room.
    pub proof fn lemma_raise(self, message: Word)
        ensures
            self.reg.ia == 0 ==> self.raise(message) == (self, None::<SystemError>),
            self.reg.ia != 0 && self.queue.len() < 255 ==> self.raise(message) == (
                Machine { queue: self.queue.push(message), ..self },
                None::<SystemError>,
            ),
            self.reg.ia != 0 && self.queue.len() >= 255 ==> self.raise(message) == (
                Machine { halted: true, ..self },
                Some(SystemError::InterruptOverflow),
            ),
    {
    }

    /// Handing an interrupt to its handler puts PC, then A, on the stack,
    /// sets PC to IA and A to the oldest message, takes that message off the
    /// queue, enables queueing and charges four cycles.
    pub proof fn lemma_deliver(self)
        requires
            self.wf(),
        ensures
            self.deliver() == (Machine {
                reg: Registers {
                    pc: self.reg.ia,
                    a: self.queue[0],
                    sp: wrap(self.reg.sp - 2),
                    ..self.reg
                },
                mem: self.mem.update(wrap(self.reg.sp - 1) as int, self.reg.pc).update(
                    wrap(self.reg.sp - 2) as int,
                    self.reg.a,
                ),
                queue: self.queue.drop_first(),
                queueing: true,
                busy: 3,
                ..self
            }),
    {
        let taken = Machine {
            queue: self.queue.drop_first(),
            queueing: true,
            busy: 3,
            ..self
        };
        let first = taken.push(self.reg.pc);
        let second = first.push(self.reg.a);
        assert(first.reg.sp == wrap(self.reg.sp - 1));
        assert(second.reg.sp == wrap(self.reg.sp - 2));
        assert(self.deliver() == second.set(Register::PC, self.reg.ia).set(
            Register::A,
            self.queue[0],
        ));
    }

    /// When an interrupt is due, the cycle does nothing but count and hand
    /// the interrupt to its handler.
    pub proof fn lemma_interrupt(self, ports: Seq<DeviceInfo>)
        requires
            self.state() == State::Interrupt,
        ensures
            self.tick(ports) == Effect::quiet(
                Machine { cycles: self.cycles + 1, ..self }.deliver(),
            ),
            !self.queueing,
            self.queue.len() > 0,
            self.reg.ia != 0,
            self.busy == 0,
    {
    }

    /// RFI undoes what the delivery of an interrupt did to the registers:
    /// A, PC and SP are as they were before the interrupt, and queueing is
    /// disabled again.
    pub proof fn lemma_interrupt_return(self, operand: Operand, ports: Seq<DeviceInfo>)
        requires
            self.wf(),
        ensures
            self.deliver().unary(OpCode::RFI, operand, ports).next.reg == self.reg,
            !self.deliver().unary(OpCode::RFI, operand, ports).next.queueing,
            self.deliver().unary(OpCode::RFI, operand, ports).fault.is_none(),
    {
    }

    /// Passing over an instruction touches nothing but PC, the busy counter
    /// and the mark that says whether to pass over the next one too: no
    /// register, PS and SP included, and no memory cell changes.
    pub proof fn lemma_skip(self)
        ensures
            self.skip_over() == (Machine {
                reg: Registers { pc: self.skip_over().reg.pc, ..self.reg },
                busy: self.skip_over().busy,
                skip: self.skip_over().skip,
                ..self
            }),
            self.skip_over().skip == spec_is_conditional(self.mem[self.reg.pc as int]),
            self.skip_over().reg.pc == wrap(
                self.reg.pc + spec_length(self.mem[self.reg.pc as int]),
            ),
    {
    }

    /// A conditional whose test fails changes nothing but the mark that the
    /// next instruction is to be passed over; one whose test holds changes
    /// nothing at all.
    pub proof fn lemma_conditional(self, op: OpCode, target: Operand, source: Operand)
        requires
            op.spec_conditional(),
        ensures
            self.binary(op, target, source) == (Machine {
                skip: !spec_test(op, self.read(target), self.read(source)),
                ..self
            }),
    {
    }

    /// STI and STD store u in m and then move both I and J, up by one for
    /// STI and down by one for STD, wrapping around.
    pub proof fn lemma_sti_std(self, target: Operand, source: Operand)
        ensures
            self.binary(OpCode::STI, target, source).reg.i == wrap(
                self.write(target, self.read(source)).reg.i + 1,
            ),
            self.binary(OpCode::STI, target, source).reg.j == wrap(
                self.write(target, self.read(source)).reg.j + 1,
            ),
            self.binary(OpCode::STD, target, source).reg.i == wrap(
                self.write(target, self.read(source)).reg.i - 1,
            ),
            self.binary(OpCode::STD, target, source).reg.j == wrap(
                self.write(target, self.read(source)).reg.j - 1,
            ),
            self.binary(OpCode::STI, target, source).mem == self.write(
                target,
                self.read(source),
            ).mem,
            self.binary(OpCode::STD, target, source).mem == self.write(
                target,
                self.read(source),
            ).mem,
    {
    }

    /// CLK latches the low 32 bits of the cycle counter: I holds the high
    /// half and J the low half.
    pub proof fn lemma_clk(self)
        ensures
            self.nullary(OpCode::CLK).reg.i * 0x10000 + self.nullary(OpCode::CLK).reg.j
                == self.cycles % 0x1_0000_0000,
            self.nullary(OpCode::CLK).latch == self.cycles,
            self.cycles < 0x1_0000_0000 && self.latch < 0x1_0000_0000 ==> self.nullary(
                OpCode::CLK,
            ).reg.ps == 0,
    {
    }
}

} // verus!
