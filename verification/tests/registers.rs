use vcpu16::registers::{Register, Registers};

#[test]
fn reg_test_display() {
    println!();
    let reg = Registers::new();

    println!("{}", reg.to_string());
}

#[test]
fn registers_test_display() {
    println!();
    let reg = Registers::new();

    println!("{}", reg.to_string());
}

#[test]
fn new_registers_are_zero() {
    let reg = Registers::new();
    assert_eq!(0, reg.pc());
    assert_eq!(0, reg.sp());
    assert_eq!(0, reg.ps());
    assert_eq!(0, reg.ia());
    assert_eq!(0, reg.a());
    assert_eq!(0, reg.b());
    assert_eq!(0, reg.c());
    assert_eq!(0, reg.x());
    assert_eq!(0, reg.y());
    assert_eq!(0, reg.z());
    assert_eq!(0, reg.i());
    assert_eq!(0, reg.j());
}

#[test]
fn each_getter_reads_its_own_register() {
    let reg = Registers {
        pc: 1,
        sp: 2,
        ps: 3,
        ia: 4,
        a: 5,
        b: 6,
        c: 7,
        x: 8,
        y: 9,
        z: 10,
        i: 11,
        j: 12,
    };
    assert_eq!(1, reg.pc());
    assert_eq!(2, reg.sp());
    assert_eq!(3, reg.ps());
    assert_eq!(4, reg.ia());
    assert_eq!(5, reg.a());
    assert_eq!(6, reg.b());
    assert_eq!(7, reg.c());
    assert_eq!(8, reg.x());
    assert_eq!(9, reg.y());
    assert_eq!(10, reg.z());
    assert_eq!(11, reg.i());
    assert_eq!(12, reg.j());
}

#[test]
fn registers_are_read_and_written_by_name() {
    let names = [
        Register::PC,
        Register::SP,
        Register::PS,
        Register::A,
        Register::B,
        Register::C,
        Register::X,
        Register::Y,
        Register::Z,
        Register::I,
        Register::J,
    ];
    for (index, name) in names.iter().enumerate() {
        let mut reg = Registers::new();
        reg.write(*name, 0x1000 + index as u16);
        for (other, other_name) in names.iter().enumerate() {
            let expected = if other == index { 0x1000 + index as u16 } else { 0 };
            assert_eq!(expected, reg.read(*other_name));
        }
        assert_eq!(0, reg.ia);
    }
    let mut reg = Registers::new();
    reg.write(Register::PC, 1);
    assert_eq!(1, reg.pc);
    reg.write(Register::SP, 2);
    assert_eq!(2, reg.sp);
    reg.write(Register::PS, 3);
    assert_eq!(3, reg.ps);
    reg.write(Register::A, 4);
    assert_eq!(4, reg.a);
    reg.write(Register::J, 5);
    assert_eq!(5, reg.j);
}

#[test]
fn general_registers_by_index() {
    let expected = [
        Register::A,
        Register::B,
        Register::C,
        Register::X,
        Register::Y,
        Register::Z,
        Register::I,
        Register::J,
    ];
    for index in 0..=255u8 {
        assert_eq!(expected[(index % 8) as usize], Register::general(index));
    }
}

#[test]
fn registers_as_text() {
    assert_eq!(
        "PC: 0000, SP: 0000, PS: 0000, IA: 0000, A: 0000, B: 0000, C: 0000, X: 0000, Y: 0000, \
         Z: 0000, I: 0000, J: 0000",
        Registers::new().to_string()
    );
    let reg = Registers {
        pc: 0x0123,
        sp: 0x4567,
        ps: 0x89AB,
        ia: 0xCDEF,
        a: 0xFFFF,
        b: 0x000A,
        c: 0x00B0,
        x: 0x0C00,
        y: 0xD000,
        z: 0x1F2E,
        i: 0x0009,
        j: 0x0010,
    };
    assert_eq!(
        "PC: 0123, SP: 4567, PS: 89AB, IA: CDEF, A: FFFF, B: 000A, C: 00B0, X: 0C00, Y: D000, \
         Z: 1F2E, I: 0009, J: 0010",
        reg.to_string()
    );
}
