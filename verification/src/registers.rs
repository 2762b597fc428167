//! The register file.

use crate::text::{hex, push_hex};
use crate::Word;
use vstd::prelude::*;
use vstd::string::StringExecFns;

verus! {

/// The registers that an operand can name.
#[derive(Clone, Copy, Debug, PartialEq, Eq, Structural)]
pub enum Register {
    /// Program counter.
    PC,
    /// Stack pointer.
    SP,
    /// Program status: overflow, carry or the high half of a result.
    PS,
    /// General register A.
    A,
    /// General register B.
    B,
    /// General register C.
    C,
    /// General register X.
    X,
    /// General register Y.
    Y,
    /// General register Z.
    Z,
    /// General register I.
    I,
    /// General register J.
    J,
}

impl Register {
    /// The general register with the given index: A, B, C, X, Y, Z, I, J for
    /// 0 to 7. Only the low three bits of the index count.
    pub open spec fn spec_general(index: int) -> Register {
        let i = index % 8;
        if i == 0 {
            Register::A
        } else if i == 1 {
            Register::B
        } else if i == 2 {
            Register::C
        } else if i == 3 {
            Register::X
        } else if i == 4 {
            Register::Y
        } else if i == 5 {
            Register::Z
        } else if i == 6 {
            Register::I
        } else {
            Register::J
        }
    }

    /// The general register with the given index; see
    /// [`Register::spec_general`].
    pub fn general(index: u8) -> (register: Register)
        ensures
            register == Register::spec_general(index as int),
    {
        match index % 8 {
            0 => Register::A,
            1 => Register::B,
            2 => Register::C,
            3 => Register::X,
            4 => Register::Y,
            5 => Register::Z,
            6 => Register::I,
            _ => Register::J,
        }
    }
}

/// VCPU16 registers. Every register holds one word and starts at zero.
#[derive(Clone, Copy, Debug, PartialEq, Eq, Structural)]
pub struct Registers {
    /// Program counter.
    pub pc: Word,
    /// Stack pointer.
    pub sp: Word,
    /// Program status.
    pub ps: Word,
    /// Interrupt address.
    pub ia: Word,
    /// Register A.
    pub a: Word,
    /// Register B.
    pub b: Word,
    /// Register C.
    pub c: Word,
    /// Register X.
    pub x: Word,
    /// Register Y.
    pub y: Word,
    /// Register Z.
    pub z: Word,
    /// Register I.
    pub i: Word,
    /// Register J.
    pub j: Word,
}

impl Registers {
    /// The register file in which every register is zero.
    pub open spec fn zero() -> Registers {
        Registers { pc: 0, sp: 0, ps: 0, ia: 0, a: 0, b: 0, c: 0, x: 0, y: 0, z: 0, i: 0, j: 0 }
    }

    /// The value of the named register.
    pub open spec fn get(self, register: Register) -> Word {
        match register {
            Register::PC => self.pc,
            Register::SP => self.sp,
            Register::PS => self.ps,
            Register::A => self.a,
            Register::B => self.b,
            Register::C => self.c,
            Register::X => self.x,
            Register::Y => self.y,
            Register::Z => self.z,
            Register::I => self.i,
            Register::J => self.j,
        }
    }

    /// The register file with the named register replaced by `value`.
    pub open spec fn set(self, register: Register, value: Word) -> Registers {
        match register {
            Register::PC => Registers { pc: value, ..self },
            Register::SP => Registers { sp: value, ..self },
            Register::PS => Registers { ps: value, ..self },
            Register::A => Registers { a: value, ..self },
            Register::B => Registers { b: value, ..self },
            Register::C => Registers { c: value, ..self },
            Register::X => Registers { x: value, ..self },
            Register::Y => Registers { y: value, ..self },
            Register::Z => Registers { z: value, ..self },
            Register::I => Registers { i: value, ..self },
            Register::J => Registers { j: value, ..self },
        }
    }

    /// Creates a register file with every register at zero.
    pub fn new() -> (registers: Registers)
        ensures
            registers == Registers::zero(),
    {
        Registers { pc: 0, sp: 0, ps: 0, ia: 0, a: 0, b: 0, c: 0, x: 0, y: 0, z: 0, i: 0, j: 0 }
    }

    /// Reads the named register.
    pub fn read(&self, register: Register) -> (value: Word)
        ensures
            value == self.get(register),
    {
        match register {
            Register::PC => self.pc,
            Register::SP => self.sp,
            Register::PS => self.ps,
            Register::A => self.a,
            Register::B => self.b,
            Register::C => self.c,
            Register::X => self.x,
            Register::Y => self.y,
            Register::Z => self.z,
            Register::I => self.i,
            Register::J => self.j,
        }
    }

    /// Writes `value` to the named register and leaves the others alone.
    pub fn write(&mut self, register: Register, value: Word)
        ensures
            *final(self) == old(self).set(register, value),
    {
        match register {
            Register::PC => self.pc = value,
            Register::SP => self.sp = value,
            Register::PS => self.ps = value,
            Register::A => self.a = value,
            Register::B => self.b = value,
            Register::C => self.c = value,
            Register::X => self.x = value,
            Register::Y => self.y = value,
            Register::Z => self.z = value,
            Register::I => self.i = value,
            Register::J => self.j = value,
        }
    }

    /// Program counter.
    pub fn pc(&self) -> (value: Word)
        ensures
            value == self.pc,
    {
        self.pc
    }

    /// Stack pointer.
    pub fn sp(&self) -> (value: Word)
        ensures
            value == self.sp,
    {
        self.sp
    }

    /// Program status.
    pub fn ps(&self) -> (value: Word)
        ensures
            value == self.ps,
    {
        self.ps
    }

    /// Interrupt address.
    pub fn ia(&self) -> (value: Word)
        ensures
            value == self.ia,
    {
        self.ia
    }

    /// Register A.
    pub fn a(&self) -> (value: Word)
        ensures
            value == self.a,
    {
        self.a
    }

    /// Register B.
    pub fn b(&self) -> (value: Word)
        ensures
            value == self.b,
    {
        self.b
    }

    /// Register C.
    pub fn c(&self) -> (value: Word)
        ensures
            value == self.c,
    {
        self.c
    }

    /// Register X.
    pub fn x(&self) -> (value: Word)
        ensures
            value == self.x,
    {
        self.x
    }

    /// Register Y.
    pub fn y(&self) -> (value: Word)
        ensures
            value == self.y,
    {
        self.y
    }

    /// Register Z.
    pub fn z(&self) -> (value: Word)
        ensures
            value == self.z,
    {
        self.z
    }

    /// Register I.
    pub fn i(&self) -> (value: Word)
        ensures
            value == self.i,
    {
        self.i
    }

    /// Register J.
    pub fn j(&self) -> (value: Word)
        ensures
            value == self.j,
    {
        self.j
    }

    /// The registers as a line of text: each register by its name, with its
    /// value as four hexadecimal digits.
    pub open spec fn text(self) -> Seq<char> {
        "PC: "@ + hex(self.pc) + ", SP: "@ + hex(self.sp) + ", PS: "@ + hex(self.ps) + ", IA: "@
            + hex(self.ia) + ", A: "@ + hex(self.a) + ", B: "@ + hex(self.b) + ", C: "@ + hex(
            self.c,
        ) + ", X: "@ + hex(self.x) + ", Y: "@ + hex(self.y) + ", Z: "@ + hex(self.z) + ", I: "@
            + hex(self.i) + ", J: "@ + hex(self.j)
    }

    /// Writes the registers out as a line of text; see [`Registers::text`].
    pub fn to_string(&self) -> (text: String)
        ensures
            text@ == self.text(),
    {
        let mut text = String::from_str("PC: ");
        push_hex(&mut text, self.pc);
        text.append(", SP: ");
        push_hex(&mut text, self.sp);
        text.append(", PS: ");
        push_hex(&mut text, self.ps);
        text.append(", IA: ");
        push_hex(&mut text, self.ia);
        text.append(", A: ");
        push_hex(&mut text, self.a);
        text.append(", B: ");
        push_hex(&mut text, self.b);
        text.append(", C: ");
        push_hex(&mut text, self.c);
        text.append(", X: ");
        push_hex(&mut text, self.x);
        text.append(", Y: ");
        push_hex(&mut text, self.y);
        text.append(", Z: ");
        push_hex(&mut text, self.z);
        text.append(", I: ");
        push_hex(&mut text, self.i);
        text.append(", J: ");
        push_hex(&mut text, self.j);
        text
    }
}

} // verus!
