use vcpu16::error::SystemError;
use vcpu16::isa::{is_conditional, length, OpCode, Operation, ValueCode};

const ALL: [(OpCode, &str, u8, u16, u8); 39] = [
    (OpCode::NOP, "NOP", 0, 0x00, 1),
    (OpCode::CLK, "CLK", 0, 0x01, 1),
    (OpCode::JSR, "JSR", 1, 0x01, 3),
    (OpCode::NOT, "NOT", 1, 0x02, 1),
    (OpCode::INT, "INT", 1, 0x08, 4),
    (OpCode::IAG, "IAG", 1, 0x09, 1),
    (OpCode::IAS, "IAS", 1, 0x0A, 1),
    (OpCode::RFI, "RFI", 1, 0x0B, 3),
    (OpCode::IAQ, "IAQ", 1, 0x0C, 2),
    (OpCode::HWN, "HWN", 1, 0x10, 2),
    (OpCode::HWQ, "HWQ", 1, 0x11, 4),
    (OpCode::HWI, "HWI", 1, 0x12, 4),
    (OpCode::SET, "SET", 2, 0x01, 1),
    (OpCode::ADD, "ADD", 2, 0x02, 2),
    (OpCode::SUB, "SUB", 2, 0x03, 2),
    (OpCode::MUL, "MUL", 2, 0x04, 2),
    (OpCode::MLI, "MLI", 2, 0x05, 2),
    (OpCode::DIV, "DIV", 2, 0x06, 3),
    (OpCode::DVI, "DVI", 2, 0x07, 3),
    (OpCode::MOD, "MOD", 2, 0x08, 3),
    (OpCode::MDI, "MDI", 2, 0x09, 3),
    (OpCode::AND, "AND", 2, 0x0A, 1),
    (OpCode::BOR, "BOR", 2, 0x0B, 1),
    (OpCode::XOR, "XOR", 2, 0x0C, 1),
    (OpCode::LLS, "LLS", 2, 0x0D, 1),
    (OpCode::LRS, "LRS", 2, 0x0E, 1),
    (OpCode::ARS, "ARS", 2, 0x0F, 1),
    (OpCode::IFB, "IFB", 2, 0x10, 2),
    (OpCode::IFC, "IFC", 2, 0x11, 2),
    (OpCode::IFE, "IFE", 2, 0x12, 2),
    (OpCode::IFN, "IFN", 2, 0x13, 2),
    (OpCode::IFG, "IFG", 2, 0x14, 2),
    (OpCode::IFA, "IFA", 2, 0x15, 2),
    (OpCode::IFL, "IFL", 2, 0x16, 2),
    (OpCode::IFU, "IFU", 2, 0x17, 2),
    (OpCode::ADX, "ADX", 2, 0x1A, 3),
    (OpCode::SBX, "SBX", 2, 0x1B, 3),
    (OpCode::STI, "STI", 2, 0x1E, 2),
    (OpCode::STD, "STD", 2, 0x1F, 2),
];

#[test]
fn opcode_table() {
    for (op, name, args, number, time) in ALL {
        assert_eq!(name, op.name());
        assert_eq!(args, op.args());
        assert_eq!(number, op.number());
        assert_eq!(time, op.time());
        let (mask, code) = match args {
            0 => (0xFFFF, number << 10),
            1 => (0x03FF, number << 5),
            _ => (0x001F, number),
        };
        assert_eq!(mask, op.mask());
        assert_eq!(code, op.code());
        assert_eq!((0x10..=0x17).contains(&number) && args == 2, op.conditional());
    }
    assert_eq!(0x0400, OpCode::CLK.code());
    assert_eq!(0x0220, OpCode::HWQ.code());
    assert_eq!(0x001B, OpCode::SBX.code());
}

#[test]
fn every_word_decodes_to_the_operation_whose_code_it_carries() {
    for word in 0..=0xFFFFu16 {
        let matching: Vec<OpCode> = ALL
            .iter()
            .map(|entry| entry.0)
            .filter(|op| word & op.mask() == op.code())
            .collect();
        assert!(matching.len() <= 1);
        assert_eq!(matching.first().copied(), OpCode::decode(word));
    }
}

#[test]
fn classes_come_from_the_low_fields() {
    assert_eq!(Some(OpCode::NOP), OpCode::decode(0x0000));
    assert_eq!(Some(OpCode::CLK), OpCode::decode(0x0400));
    assert_eq!(None, OpCode::decode(0x0800));
    assert_eq!(None, OpCode::decode(0xFC00));
    assert_eq!(Some(OpCode::JSR), OpCode::decode(0x0020));
    assert_eq!(Some(OpCode::JSR), OpCode::decode(0xFC20));
    assert_eq!(Some(OpCode::HWI), OpCode::decode(0x0240));
    assert_eq!(None, OpCode::decode(0x0060));
    assert_eq!(None, OpCode::decode(0x03E0));
    assert_eq!(Some(OpCode::SET), OpCode::decode(0x0001));
    assert_eq!(Some(OpCode::SET), OpCode::decode(0xFFE1));
    assert_eq!(Some(OpCode::STD), OpCode::decode(0x001F));
    assert_eq!(None, OpCode::decode(0x0018));
    assert_eq!(None, OpCode::decode(0x0019));
    assert_eq!(None, OpCode::decode(0x001C));
    assert_eq!(None, OpCode::decode(0x001D));
}

#[test]
fn operand_fields() {
    assert_eq!(ValueCode { code: 0x3F }, ValueCode::upper(0xFFFF));
    assert_eq!(ValueCode { code: 0x1F }, ValueCode::middle(0xFFFF));
    assert_eq!(ValueCode { code: 0x00 }, ValueCode::upper(0x03FF));
    assert_eq!(ValueCode { code: 0x00 }, ValueCode::middle(0xFC1F));
    assert_eq!(ValueCode { code: 0x22 }, ValueCode::upper(0x8BF2));
    assert_eq!(ValueCode { code: 0x1F }, ValueCode::middle(0x8BF2));
    for word in 0..=0xFFFFu16 {
        assert_eq!((word >> 10) as u8, ValueCode::upper(word).code);
        assert_eq!(((word >> 5) & 0x1F) as u8, ValueCode::middle(word).code);
    }
}

#[test]
fn operands_that_take_the_next_word() {
    for code in 0..=0xFFu8 {
        let expected = matches!(code, 0x10..=0x17 | 0x1A | 0x1E | 0x1F);
        let value = ValueCode { code };
        assert_eq!(expected, value.next());
        assert_eq!(if expected { 1 } else { 0 }, value.time());
    }
}

#[test]
fn operations_decode_with_their_operands() {
    assert_eq!(Ok(Operation::Nullary { op: OpCode::NOP }), Operation::decode(0x0000));
    assert_eq!(Ok(Operation::Nullary { op: OpCode::CLK }), Operation::decode(0x0400));
    assert_eq!(
        Ok(Operation::Unary { op: OpCode::JSR, upper: ValueCode { code: 0x31 } }),
        Operation::decode(0xC420)
    );
    assert_eq!(
        Ok(Operation::Binary {
            op: OpCode::IFE,
            middle: ValueCode { code: 0x1F },
            upper: ValueCode { code: 0x22 },
        }),
        Operation::decode(0x8BF2)
    );
    assert_eq!(Err(SystemError::DecodeError), Operation::decode(0x0800));
    assert_eq!(Err(SystemError::DecodeError), Operation::decode(0x0060));
    assert_eq!(Err(SystemError::DecodeError), Operation::decode(0x8BF8));
}

#[test]
fn operations_know_their_size_and_time() {
    let operation = Operation::decode(0x0400).unwrap();
    assert_eq!(OpCode::CLK, operation.opcode());
    assert_eq!(1, operation.size());
    assert_eq!(1, operation.time());

    let operation = Operation::decode(0xC420).unwrap();
    assert_eq!(OpCode::JSR, operation.opcode());
    assert_eq!(1, operation.size());
    assert_eq!(3, operation.time());

    let operation = Operation::decode(0x7C20).unwrap();
    assert_eq!(OpCode::JSR, operation.opcode());
    assert_eq!(2, operation.size());
    assert_eq!(4, operation.time());

    let operation = Operation::decode(0x0401).unwrap();
    assert_eq!(OpCode::SET, operation.opcode());
    assert_eq!(1, operation.size());
    assert_eq!(1, operation.time());

    let operation = Operation::decode(0x4401).unwrap();
    assert_eq!(2, operation.size());
    assert_eq!(2, operation.time());

    let operation = Operation::decode(0x7FC6).unwrap();
    assert_eq!(OpCode::DIV, operation.opcode());
    assert_eq!(3, operation.size());
    assert_eq!(5, operation.time());
}

#[test]
fn length_goes_by_the_fields_of_the_class() {
    assert_eq!(1, length(0x0000));
    assert_eq!(1, length(0x7C00));
    assert_eq!(1, length(0xFC00));
    assert_eq!(1, length(0x0020));
    assert_eq!(2, length(0x7C20));
    assert_eq!(2, length(0x7C60));
    assert_eq!(1, length(0x0001));
    assert_eq!(2, length(0x7C01));
    assert_eq!(2, length(0x03E1));
    assert_eq!(3, length(0x7FE1));
    assert_eq!(3, length(0x7FF8));
    for word in 0..=0xFFFFu16 {
        if let Ok(operation) = Operation::decode(word) {
            assert_eq!(operation.size(), length(word));
        }
    }
}

#[test]
fn conditionals_are_told_by_their_word() {
    for word in 0..=0xFFFFu16 {
        let expected = (0x10..=0x17).contains(&(word & 0x1F));
        assert_eq!(expected, is_conditional(word));
    }
    assert!(is_conditional(0x8BF2));
    assert!(!is_conditional(0x0200));
    assert!(!is_conditional(0x4000));
}

#[test]
fn encoding_inverts_decoding() {
    for word in 0..=0xFFFFu16 {
        if let Ok(operation) = Operation::decode(word) {
            assert_eq!(word, operation.encode());
        }
    }
    assert_eq!(0x0400, Operation::Nullary { op: OpCode::CLK }.encode());
    assert_eq!(
        0xC420,
        Operation::Unary { op: OpCode::JSR, upper: ValueCode { code: 0x31 } }.encode()
    );
    assert_eq!(
        0x8BF2,
        Operation::Binary {
            op: OpCode::IFE,
            middle: ValueCode { code: 0x1F },
            upper: ValueCode { code: 0x22 },
        }
        .encode()
    );
    assert_eq!(
        0xFFFF,
        Operation::Binary {
            op: OpCode::STD,
            middle: ValueCode { code: 0x1F },
            upper: ValueCode { code: 0x3F },
        }
        .encode()
    );
}

#[test]
fn decoding_inverts_encoding() {
    for (op, _, args, _, _) in ALL {
        for upper in 0..0x40u8 {
            if args == 0 {
                let operation = Operation::Nullary { op };
                assert_eq!(Ok(operation), Operation::decode(operation.encode()));
            } else if args == 1 {
                let operation = Operation::Unary { op, upper: ValueCode { code: upper } };
                assert_eq!(Ok(operation), Operation::decode(operation.encode()));
            } else {
                for middle in 0..0x20u8 {
                    let operation = Operation::Binary {
                        op,
                        middle: ValueCode { code: middle },
                        upper: ValueCode { code: upper },
                    };
                    assert_eq!(Ok(operation), Operation::decode(operation.encode()));
                }
            }
        }
    }
}
