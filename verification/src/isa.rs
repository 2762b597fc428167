//! The instruction set: how a word encodes an operation.
//!
//! An instruction word has three fields, `aaaaaa bbbbb ooooo`: the upper
//! operand in bits 10 to 15, the middle operand in bits 5 to 9 and the
//! opcode in bits 0 to 4. A word whose opcode field is zero is a unary
//! instruction, with its opcode in the middle field and its operand in the
//! upper field; a word whose opcode and middle fields are both zero is a
//! nullary instruction, with its opcode in the upper field.

use crate::error::SystemError;
use crate::Word;
use vstd::prelude::*;

verus! {

/// The opcode field of an instruction word: bits 0 to 4.
pub open spec fn opcode_field(word: Word) -> int {
    word as int % 32
}

/// The middle field of an instruction word: bits 5 to 9.
pub open spec fn middle_field(word: Word) -> int {
    (word as int / 32) % 32
}

/// The upper field of an instruction word: bits 10 to 15.
pub open spec fn upper_field(word: Word) -> int {
    word as int / 1024
}

/// The fields are the bit ranges that masks and shifts cut out of the word.
pub proof fn lemma_fields(word: Word)
    ensures
        opcode_field(word) == word & 0x001F,
        middle_field(word) == (word >> 5) & 0x001F,
        upper_field(word) == (word >> 10) & 0x003F,
        word as int % 1024 == word & 0x03FF,
{
    assert(word & 0x001F == word % 32) by (bit_vector);
    assert((word >> 5) & 0x001F == (word / 32) % 32) by (bit_vector);
    assert((word >> 10) & 0x003F == word / 1024) by (bit_vector);
    assert(word & 0x03FF == word % 1024) by (bit_vector);
}

/// The operations of the processor.
#[derive(Clone, Copy, Debug, PartialEq, Eq, Structural)]
pub enum OpCode {
    /// No operation.
    NOP,
    /// Latches the cycle counter into I and J.
    CLK,
    /// Pushes the address of the next instruction, then jumps to u.
    JSR,
    /// Sets u to its bitwise complement.
    NOT,
    /// Raises a software interrupt with message u.
    INT,
    /// Sets u to IA.
    IAG,
    /// Sets IA to u.
    IAS,
    /// Returns from an interrupt handler.
    RFI,
    /// Enables interrupt queueing if u is not zero, disables it otherwise.
    IAQ,
    /// Sets u to the number of connected devices.
    HWN,
    /// Queries the device at port u for its identification.
    HWQ,
    /// Sends an interrupt to the device at port u.
    HWI,
    /// Sets m to u.
    SET,
    /// Sets m to m + u.
    ADD,
    /// Sets m to m - u.
    SUB,
    /// Sets m to m * u, unsigned.
    MUL,
    /// Sets m to m * u, signed.
    MLI,
    /// Sets m to m / u, unsigned.
    DIV,
    /// Sets m to m / u, signed.
    DVI,
    /// Sets m to m % u, unsigned.
    MOD,
    /// Sets m to m % u, signed.
    MDI,
    /// Sets m to m & u.
    AND,
    /// Sets m to m | u.
    BOR,
    /// Sets m to m ^ u.
    XOR,
    /// Shifts m left by u.
    LLS,
    /// Shifts m right by u, filling with zeros.
    LRS,
    /// Shifts m right by u, filling with the sign.
    ARS,
    /// Performs the next instruction only if (m & u) != 0.
    IFB,
    /// Performs the next instruction only if (m & u) == 0.
    IFC,
    /// Performs the next instruction only if m == u.
    IFE,
    /// Performs the next instruction only if m != u.
    IFN,
    /// Performs the next instruction only if m > u, unsigned.
    IFG,
    /// Performs the next instruction only if m > u, signed.
    IFA,
    /// Performs the next instruction only if m < u, unsigned.
    IFL,
    /// Performs the next instruction only if m < u, signed.
    IFU,
    /// Sets m to m + u + PS.
    ADX,
    /// Sets m to m - u + PS.
    SBX,
    /// Sets m to u, then increases I and J.
    STI,
    /// Sets m to u, then decreases I and J.
    STD,
}

impl OpCode {
    /// The number of operands: 0, 1 or 2.
    pub open spec fn spec_args(self) -> u8 {
        match self {
            OpCode::NOP | OpCode::CLK => 0,
            OpCode::JSR
            | OpCode::NOT
            | OpCode::INT
            | OpCode::IAG
            | OpCode::IAS
            | OpCode::RFI
            | OpCode::IAQ
            | OpCode::HWN
            | OpCode::HWQ
            | OpCode::HWI => 1,
            _ => 2,
        }
    }

    /// The number of the operation among those with as many operands.
    pub open spec fn spec_number(self) -> u16 {
        match self {
            OpCode::NOP => 0x00,
            OpCode::CLK => 0x01,
            OpCode::JSR => 0x01,
            OpCode::NOT => 0x02,
            OpCode::INT => 0x08,
            OpCode::IAG => 0x09,
            OpCode::IAS => 0x0A,
            OpCode::RFI => 0x0B,
            OpCode::IAQ => 0x0C,
            OpCode::HWN => 0x10,
            OpCode::HWQ => 0x11,
            OpCode::HWI => 0x12,
            OpCode::SET => 0x01,
            OpCode::ADD => 0x02,
            OpCode::SUB => 0x03,
            OpCode::MUL => 0x04,
            OpCode::MLI => 0x05,
            OpCode::DIV => 0x06,
            OpCode::DVI => 0x07,
            OpCode::MOD => 0x08,
            OpCode::MDI => 0x09,
            OpCode::AND => 0x0A,
            OpCode::BOR => 0x0B,
            OpCode::XOR => 0x0C,
            OpCode::LLS => 0x0D,
            OpCode::LRS => 0x0E,
            OpCode::ARS => 0x0F,
            OpCode::IFB => 0x10,
            OpCode::IFC => 0x11,
            OpCode::IFE => 0x12,
            OpCode::IFN => 0x13,
            OpCode::IFG => 0x14,
            OpCode::IFA => 0x15,
            OpCode::IFL => 0x16,
            OpCode::IFU => 0x17,
            OpCode::ADX => 0x1A,
            OpCode::SBX => 0x1B,
            OpCode::STI => 0x1E,
            OpCode::STD => 0x1F,
        }
    }

    /// The cycles that the operation takes, operand fetches not counted.
    pub open spec fn spec_time(self) -> u8 {
        match self {
            OpCode::NOP
            | OpCode::CLK
            | OpCode::NOT
            | OpCode::IAG
            | OpCode::IAS
            | OpCode::SET
            | OpCode::AND
            | OpCode::BOR
            | OpCode::XOR
            | OpCode::LLS
            | OpCode::LRS
            | OpCode::ARS => 1,
            OpCode::IAQ
            | OpCode::HWN
            | OpCode::ADD
            | OpCode::SUB
            | OpCode::MUL
            | OpCode::MLI
            | OpCode::IFB
            | OpCode::IFC
            | OpCode::IFE
            | OpCode::IFN
            | OpCode::IFG
            | OpCode::IFA
            | OpCode::IFL
            | OpCode::IFU
            | OpCode::STI
            | OpCode::STD => 2,
            OpCode::JSR
            | OpCode::RFI
            | OpCode::DIV
            | OpCode::DVI
            | OpCode::MOD
            | OpCode::MDI
            | OpCode::ADX
            | OpCode::SBX => 3,
            OpCode::INT | OpCode::HWQ | OpCode::HWI => 4,
        }
    }

    /// The bits of an instruction word that identify the operation.
    pub open spec fn spec_mask(self) -> u16 {
        if self.spec_args() == 0 {
            0xFFFF
        } else if self.spec_args() == 1 {
            0x03FF
        } else {
            0x001F
        }
    }

    /// The value that the identifying bits have in a word that encodes the
    /// operation: its number, moved into its field.
    pub open spec fn spec_code(self) -> u16 {
        if self.spec_args() == 0 {
            (self.spec_number() * 1024) as u16
        } else if self.spec_args() == 1 {
            (self.spec_number() * 32) as u16
        } else {
            self.spec_number()
        }
    }

    /// The mnemonic of the operation.
    pub open spec fn spec_name(self) -> Seq<char> {
        match self {
            OpCode::NOP => "NOP"@,
            OpCode::CLK => "CLK"@,
            OpCode::JSR => "JSR"@,
            OpCode::NOT => "NOT"@,
            OpCode::INT => "INT"@,
            OpCode::IAG => "IAG"@,
            OpCode::IAS => "IAS"@,
            OpCode::RFI => "RFI"@,
            OpCode::IAQ => "IAQ"@,
            OpCode::HWN => "HWN"@,
            OpCode::HWQ => "HWQ"@,
            OpCode::HWI => "HWI"@,
            OpCode::SET => "SET"@,
            OpCode::ADD => "ADD"@,
            OpCode::SUB => "SUB"@,
            OpCode::MUL => "MUL"@,
            OpCode::MLI => "MLI"@,
            OpCode::DIV => "DIV"@,
            OpCode::DVI => "DVI"@,
            OpCode::MOD => "MOD"@,
            OpCode::MDI => "MDI"@,
            OpCode::AND => "AND"@,
            OpCode::BOR => "BOR"@,
            OpCode::XOR => "XOR"@,
            OpCode::LLS => "LLS"@,
            OpCode::LRS => "LRS"@,
            OpCode::ARS => "ARS"@,
            OpCode::IFB => "IFB"@,
            OpCode::IFC => "IFC"@,
            OpCode::IFE => "IFE"@,
            OpCode::IFN => "IFN"@,
            OpCode::IFG => "IFG"@,
            OpCode::IFA => "IFA"@,
            OpCode::IFL => "IFL"@,
            OpCode::IFU => "IFU"@,
            OpCode::ADX => "ADX"@,
            OpCode::SBX => "SBX"@,
            OpCode::STI => "STI"@,
            OpCode::STD => "STD"@,
        }
    }

    /// Whether the operation is one of the conditionals IFB to IFU.
    pub open spec fn spec_conditional(self) -> bool {
        self.spec_args() == 2 && 0x10 <= self.spec_number() <= 0x17
    }

    /// Whether `word` encodes the operation: its identifying bits have the
    /// operation's code.
    pub open spec fn encoded_by(self, word: Word) -> bool {
        word as int % (self.spec_mask() + 1) == self.spec_code()
    }

    /// The nullary operation with the given number.
    pub open spec fn nullary(number: int) -> Option<OpCode> {
        if number == 0x00 {
            Some(OpCode::NOP)
        } else if number == 0x01 {
            Some(OpCode::CLK)
        } else {
            None
        }
    }

    /// The unary operation with the given number.
    pub open spec fn unary(number: int) -> Option<OpCode> {
        if number == 0x01 {
            Some(OpCode::JSR)
        } else if number == 0x02 {
            Some(OpCode::NOT)
        } else if number == 0x08 {
            Some(OpCode::INT)
        } else if number == 0x09 {
            Some(OpCode::IAG)
        } else if number == 0x0A {
            Some(OpCode::IAS)
        } else if number == 0x0B {
            Some(OpCode::RFI)
        } else if number == 0x0C {
            Some(OpCode::IAQ)
        } else if number == 0x10 {
            Some(OpCode::HWN)
        } else if number == 0x11 {
            Some(OpCode::HWQ)
        } else if number == 0x12 {
            Some(OpCode::HWI)
        } else {
            None
        }
    }

    /// The binary operation with the given number.
    pub open spec fn binary(number: int) -> Option<OpCode> {
        if number == 0x01 {
            Some(OpCode::SET)
        } else if number == 0x02 {
            Some(OpCode::ADD)
        } else if number == 0x03 {
            Some(OpCode::SUB)
        } else if number == 0x04 {
            Some(OpCode::MUL)
        } else if number == 0x05 {
            Some(OpCode::MLI)
        } else if number == 0x06 {
            Some(OpCode::DIV)
        } else if number == 0x07 {
            Some(OpCode::DVI)
        } else if number == 0x08 {
            Some(OpCode::MOD)
        } else if number == 0x09 {
            Some(OpCode::MDI)
        } else if number == 0x0A {
            Some(OpCode::AND)
        } else if number == 0x0B {
            Some(OpCode::BOR)
        } else if number == 0x0C {
            Some(OpCode::XOR)
        } else if number == 0x0D {
            Some(OpCode::LLS)
        } else if number == 0x0E {
            Some(OpCode::LRS)
        } else if number == 0x0F {
            Some(OpCode::ARS)
        } else if number == 0x10 {
            Some(OpCode::IFB)
        } else if number == 0x11 {
            Some(OpCode::IFC)
        } else if number == 0x12 {
            Some(OpCode::IFE)
        } else if number == 0x13 {
            Some(OpCode::IFN)
        } else if number == 0x14 {
            Some(OpCode::IFG)
        } else if number == 0x15 {
            Some(OpCode::IFA)
        } else if number == 0x16 {
            Some(OpCode::IFL)
        } else if number == 0x17 {
            Some(OpCode::IFU)
        } else if number == 0x1A {
            Some(OpCode::ADX)
        } else if number == 0x1B {
            Some(OpCode::SBX)
        } else if number == 0x1E {
            Some(OpCode::STI)
        } else if number == 0x1F {
            Some(OpCode::STD)
        } else {
            None
        }
    }

    /// The operation that `word` encodes, if any. The class comes first:
    /// nullary where the opcode and middle fields are zero, unary where only
    /// the opcode field is, binary otherwise.
    pub open spec fn spec_decode(word: Word) -> Option<OpCode> {
        if word as int % 1024 == 0 {
            OpCode::nullary(upper_field(word))
        } else if opcode_field(word) == 0 {
            OpCode::unary(middle_field(word))
        } else {
            OpCode::binary(opcode_field(word))
        }
    }

    /// Decoding inverts the table of codes and masks: a word decodes to an
    /// operation exactly if its identifying bits have that operation's code.
    /// So no word encodes two operations.
    pub proof fn lemma_decode(word: Word, op: OpCode)
        ensures
            OpCode::spec_decode(word) == Some(op) <==> op.encoded_by(word),
    {
        let w = word as int;
        assert(w % 1024 == 32 * middle_field(word) + opcode_field(word));
        assert(w == 1024 * upper_field(word) + w % 1024);
        if op.spec_args() == 0 {
            assert(op == OpCode::NOP || op == OpCode::CLK);
            assert(w % 65536 == w);
            assert(op.encoded_by(word) <==> w == op.spec_number() * 1024);
        } else if op.spec_args() == 1 {
            assert(op.encoded_by(word) <==> w % 1024 == op.spec_number() * 32);
        } else {
            assert(op.encoded_by(word) <==> w % 32 == op.spec_number());
        }
    }

    /// The class of a word is that of the operation it encodes: a nullary
    /// operation where the opcode and middle fields are zero, a unary one
    /// where only the opcode field is, a binary one otherwise.
    pub proof fn lemma_classes(word: Word)
        ensures
            OpCode::spec_decode(word) matches Some(op) ==> (op.spec_args() == 0 <==> word as int
                % 1024 == 0) && (op.spec_args() == 1 <==> word as int % 1024 != 0
                && opcode_field(word) == 0) && op.spec_args() <= 2,
    {
    }

    /// In a word, the mask selects the bits that the code is compared to.
    pub proof fn lemma_mask(word: Word, op: OpCode)
        ensures
            op.encoded_by(word) <==> word & op.spec_mask() == op.spec_code(),
    {
        assert(word & 0xFFFF == word) by (bit_vector);
        assert(word & 0x03FF == word % 1024) by (bit_vector);
        assert(word & 0x001F == word % 32) by (bit_vector);
        if op.spec_args() == 0 {
            assert(op.spec_mask() == 0xFFFF);
        } else if op.spec_args() == 1 {
            assert(op.spec_mask() == 0x03FF);
        } else {
            assert(op.spec_mask() == 0x001F);
        }
    }

    /// The number of operands: 0, 1 or 2.
    #[verifier::when_used_as_spec(spec_args)]
    pub fn args(self) -> (args: u8)
        ensures
            args == self.spec_args(),
    {
        match self {
            OpCode::NOP | OpCode::CLK => 0,
            OpCode::JSR
            | OpCode::NOT
            | OpCode::INT
            | OpCode::IAG
            | OpCode::IAS
            | OpCode::RFI
            | OpCode::IAQ
            | OpCode::HWN
            | OpCode::HWQ
            | OpCode::HWI => 1,
            _ => 2,
        }
    }

    /// The cycles that the operation takes, operand fetches not counted.
    #[verifier::when_used_as_spec(spec_time)]
    pub fn time(self) -> (time: u8)
        ensures
            time == self.spec_time(),
    {
        match self {
            OpCode::NOP
            | OpCode::CLK
            | OpCode::NOT
            | OpCode::IAG
            | OpCode::IAS
            | OpCode::SET
            | OpCode::AND
            | OpCode::BOR
            | OpCode::XOR
            | OpCode::LLS
            | OpCode::LRS
            | OpCode::ARS => 1,
            OpCode::IAQ
            | OpCode::HWN
            | OpCode::ADD
            | OpCode::SUB
            | OpCode::MUL
            | OpCode::MLI
            | OpCode::IFB
            | OpCode::IFC
            | OpCode::IFE
            | OpCode::IFN
            | OpCode::IFG
            | OpCode::IFA
            | OpCode::IFL
            | OpCode::IFU
            | OpCode::STI
            | OpCode::STD => 2,
            OpCode::JSR
            | OpCode::RFI
            | OpCode::DIV
            | OpCode::DVI
            | OpCode::MOD
            | OpCode::MDI
            | OpCode::ADX
            | OpCode::SBX => 3,
            OpCode::INT | OpCode::HWQ | OpCode::HWI => 4,
        }
    }

    /// The bits of an instruction word that identify the operation.
    #[verifier::when_used_as_spec(spec_mask)]
    pub fn mask(self) -> (mask: u16)
        ensures
            mask == self.spec_mask(),
    {
        match self.args() {
            0 => 0xFFFF,
            1 => 0x03FF,
            _ => 0x001F,
        }
    }

    /// The value that the identifying bits have in a word that encodes the
    /// operation.
    #[verifier::when_used_as_spec(spec_code)]
    pub fn code(self) -> (code: u16)
        ensures
            code == self.spec_code(),
    {
        match self.args() {
            0 => self.number() * 1024,
            1 => self.number() * 32,
            _ => self.number(),
        }
    }

    /// The number of the operation among those with as many operands.
    #[verifier::when_used_as_spec(spec_number)]
    pub fn number(self) -> (number: u16)
        ensures
            number == self.spec_number(),
    {
        match self {
            OpCode::NOP => 0x00,
            OpCode::CLK => 0x01,
            OpCode::JSR => 0x01,
            OpCode::NOT => 0x02,
            OpCode::INT => 0x08,
            OpCode::IAG => 0x09,
            OpCode::IAS => 0x0A,
            OpCode::RFI => 0x0B,
            OpCode::IAQ => 0x0C,
            OpCode::HWN => 0x10,
            OpCode::HWQ => 0x11,
            OpCode::HWI => 0x12,
            OpCode::SET => 0x01,
            OpCode::ADD => 0x02,
            OpCode::SUB => 0x03,
            OpCode::MUL => 0x04,
            OpCode::MLI => 0x05,
            OpCode::DIV => 0x06,
            OpCode::DVI => 0x07,
            OpCode::MOD => 0x08,
            OpCode::MDI => 0x09,
            OpCode::AND => 0x0A,
            OpCode::BOR => 0x0B,
            OpCode::XOR => 0x0C,
            OpCode::LLS => 0x0D,
            OpCode::LRS => 0x0E,
            OpCode::ARS => 0x0F,
            OpCode::IFB => 0x10,
            OpCode::IFC => 0x11,
            OpCode::IFE => 0x12,
            OpCode::IFN => 0x13,
            OpCode::IFG => 0x14,
            OpCode::IFA => 0x15,
            OpCode::IFL => 0x16,
            OpCode::IFU => 0x17,
            OpCode::ADX => 0x1A,
            OpCode::SBX => 0x1B,
            OpCode::STI => 0x1E,
            OpCode::STD => 0x1F,
        }
    }

    /// The mnemonic of the operation.
    pub fn name(self) -> (name: &'static str)
        ensures
            name@ == self.spec_name(),
    {
        match self {
            OpCode::NOP => "NOP",
            OpCode::CLK => "CLK",
            OpCode::JSR => "JSR",
            OpCode::NOT => "NOT",
            OpCode::INT => "INT",
            OpCode::IAG => "IAG",
            OpCode::IAS => "IAS",
            OpCode::RFI => "RFI",
            OpCode::IAQ => "IAQ",
            OpCode::HWN => "HWN",
            OpCode::HWQ => "HWQ",
            OpCode::HWI => "HWI",
            OpCode::SET => "SET",
            OpCode::ADD => "ADD",
            OpCode::SUB => "SUB",
            OpCode::MUL => "MUL",
            OpCode::MLI => "MLI",
            OpCode::DIV => "DIV",
            OpCode::DVI => "DVI",
            OpCode::MOD => "MOD",
            OpCode::MDI => "MDI",
            OpCode::AND => "AND",
            OpCode::BOR => "BOR",
            OpCode::XOR => "XOR",
            OpCode::LLS => "LLS",
            OpCode::LRS => "LRS",
            OpCode::ARS => "ARS",
            OpCode::IFB => "IFB",
            OpCode::IFC => "IFC",
            OpCode::IFE => "IFE",
            OpCode::IFN => "IFN",
            OpCode::IFG => "IFG",
            OpCode::IFA => "IFA",
            OpCode::IFL => "IFL",
            OpCode::IFU => "IFU",
            OpCode::ADX => "ADX",
            OpCode::SBX => "SBX",
            OpCode::STI => "STI",
            OpCode::STD => "STD",
        }
    }

    /// Whether the operation is one of the conditionals IFB to IFU.
    #[verifier::when_used_as_spec(spec_conditional)]
    pub fn conditional(self) -> (conditional: bool)
        ensures
            conditional == self.spec_conditional(),
    {
        match self {
            OpCode::IFB
            | OpCode::IFC
            | OpCode::IFE
            | OpCode::IFN
            | OpCode::IFG
            | OpCode::IFA
            | OpCode::IFL
            | OpCode::IFU => true,
            _ => false,
        }
    }

    /// Decodes the operation of an instruction word.
    ///
    /// Returns the operation that the word encodes, or `None` where the
    /// number in the opcode position of its class stands for no operation.
    pub fn decode(word: Word) -> (op: Option<OpCode>)
        ensures
            op == OpCode::spec_decode(word),
    {
        proof {
            lemma_fields(word);
        }
        if word & 0x03FF == 0 {
            match (word >> 10) & 0x003F {
                0x00 => Some(OpCode::NOP),
                0x01 => Some(OpCode::CLK),
                _ => None,
            }
        } else if word & 0x001F == 0 {
            match (word >> 5) & 0x001F {
                0x01 => Some(OpCode::JSR),
                0x02 => Some(OpCode::NOT),
                0x08 => Some(OpCode::INT),
                0x09 => Some(OpCode::IAG),
                0x0A => Some(OpCode::IAS),
                0x0B => Some(OpCode::RFI),
                0x0C => Some(OpCode::IAQ),
                0x10 => Some(OpCode::HWN),
                0x11 => Some(OpCode::HWQ),
                0x12 => Some(OpCode::HWI),
                _ => None,
            }
        } else {
            match word & 0x001F {
                0x01 => Some(OpCode::SET),
                0x02 => Some(OpCode::ADD),
                0x03 => Some(OpCode::SUB),
                0x04 => Some(OpCode::MUL),
                0x05 => Some(OpCode::MLI),
                0x06 => Some(OpCode::DIV),
                0x07 => Some(OpCode::DVI),
                0x08 => Some(OpCode::MOD),
                0x09 => Some(OpCode::MDI),
                0x0A => Some(OpCode::AND),
                0x0B => Some(OpCode::BOR),
                0x0C => Some(OpCode::XOR),
                0x0D => Some(OpCode::LLS),
                0x0E => Some(OpCode::LRS),
                0x0F => Some(OpCode::ARS),
                0x10 => Some(OpCode::IFB),
                0x11 => Some(OpCode::IFC),
                0x12 => Some(OpCode::IFE),
                0x13 => Some(OpCode::IFN),
                0x14 => Some(OpCode::IFG),
                0x15 => Some(OpCode::IFA),
                0x16 => Some(OpCode::IFL),
                0x17 => Some(OpCode::IFU),
                0x1A => Some(OpCode::ADX),
                0x1B => Some(OpCode::SBX),
                0x1E => Some(OpCode::STI),
                0x1F => Some(OpCode::STD),
                _ => None,
            }
        }
    }
}

/// An operand as an instruction word encodes it: the value of an operand
/// field, which says where the operand is to be found.
///
/// | Code | Operand |
/// |---|---|
/// | `0x00..=0x07` | register A, B, C, X, Y, Z, I or J |
/// | `0x08..=0x0F` | memory at the address in that register |
/// | `0x10..=0x17` | memory at that register plus the next word |
/// | `0x18` | push in the middle field, pop in the upper field |
/// | `0x19` | memory at SP |
/// | `0x1A` | memory at SP plus the next word |
/// | `0x1B`, `0x1C`, `0x1D` | register SP, PC, PS |
/// | `0x1E` | memory at the next word |
/// | `0x1F` | the next word itself |
/// | `0x20..=0x3F` | the literals 0xFFFF, 0, 1, ..., 30 |
#[derive(Clone, Copy, Debug, PartialEq, Eq, Structural)]
pub struct ValueCode {
    /// The value of the operand field.
    pub code: u8,
}

impl ValueCode {
    /// The operand in the upper field of `word`.
    pub open spec fn spec_upper(word: Word) -> ValueCode {
        ValueCode { code: upper_field(word) as u8 }
    }

    /// The operand in the middle field of `word`.
    pub open spec fn spec_middle(word: Word) -> ValueCode {
        ValueCode { code: middle_field(word) as u8 }
    }

    /// Whether the operand takes the word that follows the instruction.
    pub open spec fn spec_next(self) -> bool {
        0x10 <= self.code <= 0x17 || self.code == 0x1A || self.code == 0x1E || self.code == 0x1F
    }

    /// The cycles that fetching the operand adds to its instruction: one
    /// where it takes the next word, none otherwise.
    pub open spec fn spec_time(self) -> u8 {
        if self.spec_next() {
            1
        } else {
            0
        }
    }

    /// The operand in the upper field of `word`.
    pub fn upper(word: Word) -> (value: ValueCode)
        ensures
            value == ValueCode::spec_upper(word),
    {
        proof {
            lemma_fields(word);
        }
        ValueCode { code: ((word >> 10) & 0x003F) as u8 }
    }

    /// The operand in the middle field of `word`.
    pub fn middle(word: Word) -> (value: ValueCode)
        ensures
            value == ValueCode::spec_middle(word),
    {
        proof {
            lemma_fields(word);
        }
        ValueCode { code: ((word >> 5) & 0x001F) as u8 }
    }

    /// Whether the operand takes the word that follows the instruction.
    #[verifier::when_used_as_spec(spec_next)]
    pub fn next(self) -> (next: bool)
        ensures
            next == self.spec_next(),
    {
        (0x10 <= self.code && self.code <= 0x17) || self.code == 0x1A || self.code == 0x1E
            || self.code == 0x1F
    }

    /// The cycles that fetching the operand adds to its instruction.
    #[verifier::when_used_as_spec(spec_time)]
    pub fn time(self) -> (time: u8)
        ensures
            time == self.spec_time(),
    {
        if self.next() {
            1
        } else {
            0
        }
    }
}

/// An instruction as its word encodes it: the operation and where its
/// operands are to be found.
#[derive(Clone, Copy, Debug, PartialEq, Eq, Structural)]
pub enum Operation {
    /// An operation without operands.
    Nullary {
        /// The operation.
        op: OpCode,
    },
    /// An operation on the operand u.
    Unary {
        /// The operation.
        op: OpCode,
        /// The operand u, from the upper field.
        upper: ValueCode,
    },
    /// An operation on the destination m and the source u.
    Binary {
        /// The operation.
        op: OpCode,
        /// The destination m, from the middle field.
        middle: ValueCode,
        /// The source u, from the upper field.
        upper: ValueCode,
    },
}

impl Operation {
    /// The instruction that `word` encodes, if it encodes an operation.
    pub open spec fn spec_decode(word: Word) -> Option<Operation> {
        match OpCode::spec_decode(word) {
            Some(op) => Some(
                if op.spec_args() == 0 {
                    Operation::Nullary { op }
                } else if op.spec_args() == 1 {
                    Operation::Unary { op, upper: ValueCode::spec_upper(word) }
                } else {
                    Operation::Binary {
                        op,
                        middle: ValueCode::spec_middle(word),
                        upper: ValueCode::spec_upper(word),
                    }
                },
            ),
            None => None,
        }
    }

    /// The operation.
    pub open spec fn spec_opcode(self) -> OpCode {
        match self {
            Operation::Nullary { op } => op,
            Operation::Unary { op, .. } => op,
            Operation::Binary { op, .. } => op,
        }
    }

    /// The words that the instruction takes up: its own and one for each
    /// operand that takes the next word.
    pub open spec fn spec_size(self) -> u16 {
        match self {
            Operation::Nullary { .. } => 1,
            Operation::Unary { upper, .. } => (1 + upper.spec_time()) as u16,
            Operation::Binary { middle, upper, .. } => (1 + upper.spec_time()
                + middle.spec_time()) as u16,
        }
    }

    /// The cycles that the instruction takes: those of its operation and one
    /// for each operand that takes the next word.
    pub open spec fn spec_time(self) -> u8 {
        match self {
            Operation::Nullary { op } => op.spec_time(),
            Operation::Unary { op, upper } => (op.spec_time() + upper.spec_time()) as u8,
            Operation::Binary { op, middle, upper } => (op.spec_time() + upper.spec_time()
                + middle.spec_time()) as u8,
        }
    }

    /// Whether the instruction can be encoded: its operation takes as many
    /// operands as it has, and each operand fits its field.
    pub open spec fn encodable(self) -> bool {
        match self {
            Operation::Nullary { op } => op.spec_args() == 0,
            Operation::Unary { op, upper } => op.spec_args() == 1 && upper.code < 0x40,
            Operation::Binary { op, middle, upper } => op.spec_args() == 2 && upper.code < 0x40
                && middle.code < 0x20,
        }
    }

    /// The word that encodes the instruction: the code of its operation
    /// with its operands in their fields.
    pub open spec fn spec_encode(self) -> Word {
        match self {
            Operation::Nullary { op } => op.spec_code(),
            Operation::Unary { op, upper } => (op.spec_code() + 1024 * upper.code) as Word,
            Operation::Binary { op, middle, upper } => (op.spec_code() + 1024 * upper.code + 32
                * middle.code) as Word,
        }
    }

    /// What is encoded decodes to itself.
    pub proof fn lemma_encode_decode(self)
        requires
            self.encodable(),
        ensures
            Operation::spec_decode(self.spec_encode()) == Some(self),
    {
        let word = self.spec_encode();
        let op = self.spec_opcode();
        assert(op.spec_number() <= 0x1F);
        match self {
            Operation::Nullary { .. } => {
                assert(word == op.spec_number() * 1024);
            },
            Operation::Unary { upper, .. } => {
                assert(word == op.spec_number() * 32 + 1024 * upper.code);
                assert(upper_field(word) == upper.code);
                assert(middle_field(word) == op.spec_number());
            },
            Operation::Binary { middle, upper, .. } => {
                assert(word == op.spec_number() + 1024 * upper.code + 32 * middle.code);
                assert(upper_field(word) == upper.code);
                assert(middle_field(word) == middle.code);
                assert(opcode_field(word) == op.spec_number());
            },
        }
        OpCode::lemma_decode(word, op);
        assert(op.encoded_by(word));
    }

    /// What decodes can be encoded, and encodes to the word it came from.
    pub proof fn lemma_decode_encode(word: Word)
        ensures
            Operation::spec_decode(word) matches Some(operation) ==> operation.encodable()
                && operation.spec_encode() == word,
    {
        match OpCode::spec_decode(word) {
            Some(op) => {
                OpCode::lemma_decode(word, op);
                OpCode::lemma_classes(word);
                let w = word as int;
                assert(w == 1024 * upper_field(word) + 32 * middle_field(word) + opcode_field(
                    word,
                ));
            },
            None => {},
        }
    }

    /// Decodes an instruction word.
    ///
    /// Returns the operation with the operand fields that it uses, or
    /// [`SystemError::DecodeError`] where the word encodes no operation.
    pub fn decode(word: Word) -> (result: Result<Operation, SystemError>)
        ensures
            match Operation::spec_decode(word) {
                Some(operation) => result == Ok::<Operation, SystemError>(operation),
                None => result == Err::<Operation, SystemError>(SystemError::DecodeError),
            },
    {
        match OpCode::decode(word) {
            Some(op) => {
                let args = op.args();
                if args == 0 {
                    Ok(Operation::Nullary { op })
                } else if args == 1 {
                    Ok(Operation::Unary { op, upper: ValueCode::upper(word) })
                } else {
                    Ok(
                        Operation::Binary {
                            op,
                            middle: ValueCode::middle(word),
                            upper: ValueCode::upper(word),
                        },
                    )
                }
            },
            None => Err(SystemError::DecodeError),
        }
    }

    /// Encodes the instruction as a word; see [`Operation::spec_encode`].
    #[verifier::when_used_as_spec(spec_encode)]
    pub fn encode(self) -> (word: Word)
        requires
            self.encodable(),
        ensures
            word == self.spec_encode(),
    {
        match self {
            Operation::Nullary { op } => op.code(),
            Operation::Unary { op, upper } => op.code() + 1024 * upper.code as u16,
            Operation::Binary { op, middle, upper } => op.code() + 1024 * upper.code as u16 + 32
                * middle.code as u16,
        }
    }

    /// The operation.
    #[verifier::when_used_as_spec(spec_opcode)]
    pub fn opcode(self) -> (op: OpCode)
        ensures
            op == self.spec_opcode(),
    {
        match self {
            Operation::Nullary { op } => op,
            Operation::Unary { op, .. } => op,
            Operation::Binary { op, .. } => op,
        }
    }

    /// The words that the instruction takes up.
    #[verifier::when_used_as_spec(spec_size)]
    pub fn size(self) -> (size: u16)
        ensures
            size == self.spec_size(),
    {
        match self {
            Operation::Nullary { .. } => 1,
            Operation::Unary { upper, .. } => 1 + upper.time() as u16,
            Operation::Binary { middle, upper, .. } => 1 + upper.time() as u16
                + middle.time() as u16,
        }
    }

    /// The cycles that the instruction takes.
    #[verifier::when_used_as_spec(spec_time)]
    pub fn time(self) -> (time: u8)
        ensures
            time == self.spec_time(),
    {
        match self {
            Operation::Nullary { op } => op.time(),
            Operation::Unary { op, upper } => op.time() + upper.time(),
            Operation::Binary { op, middle, upper } => op.time() + upper.time() + middle.time(),
        }
    }
}

/// The words that the instruction starting with `word` takes up, whether or
/// not the word encodes an operation: its own and one for each operand
/// field of its class that takes the next word.
pub open spec fn spec_length(word: Word) -> u16 {
    if word as int % 1024 == 0 {
        1
    } else if opcode_field(word) == 0 {
        (1 + ValueCode::spec_upper(word).spec_time()) as u16
    } else {
        (1 + ValueCode::spec_upper(word).spec_time() + ValueCode::spec_middle(
            word,
        ).spec_time()) as u16
    }
}

/// Whether `word` encodes one of the conditionals IFB to IFU.
pub open spec fn spec_is_conditional(word: Word) -> bool {
    match OpCode::spec_decode(word) {
        Some(op) => op.spec_conditional(),
        None => false,
    }
}

/// An instruction that decodes takes up as many words as its first word
/// says.
pub proof fn lemma_length(word: Word)
    ensures
        1 <= spec_length(word) <= 3,
        Operation::spec_decode(word) matches Some(operation) ==> operation.spec_size()
            == spec_length(word),
{
    OpCode::lemma_classes(word);
}

/// The words that the instruction starting with `word` takes up; see
/// [`spec_length`].
#[verifier::when_used_as_spec(spec_length)]
pub fn length(word: Word) -> (length: u16)
    ensures
        length == spec_length(word),
{
    proof {
        lemma_fields(word);
    }
    if word & 0x03FF == 0 {
        1
    } else if word & 0x001F == 0 {
        1 + ValueCode::upper(word).time() as u16
    } else {
        1 + ValueCode::upper(word).time() as u16 + ValueCode::middle(word).time() as u16
    }
}

/// Whether `word` encodes one of the conditionals IFB to IFU.
#[verifier::when_used_as_spec(spec_is_conditional)]
pub fn is_conditional(word: Word) -> (conditional: bool)
    ensures
        conditional == spec_is_conditional(word),
{
    match OpCode::decode(word) {
        Some(op) => op.conditional(),
        None => false,
    }
}

} // verus!
