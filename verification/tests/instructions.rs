use vcpu16::cpu::VCPU16;
use vcpu16::error::SystemError;
use vcpu16::machine::State;

const A: u16 = 0x00;
const B: u16 = 0x01;
const C: u16 = 0x02;
const X: u16 = 0x03;
const Y: u16 = 0x04;
const Z: u16 = 0x05;
const I: u16 = 0x06;
const J: u16 = 0x07;
const STACK: u16 = 0x18;
const PEEK: u16 = 0x19;
const PICK: u16 = 0x1A;
const SP: u16 = 0x1B;
const PC: u16 = 0x1C;
const PS: u16 = 0x1D;
const AT_NEXT: u16 = 0x1E;
const NEXT: u16 = 0x1F;

const SET: u16 = 0x01;
const ADD: u16 = 0x02;
const SUB: u16 = 0x03;
const MUL: u16 = 0x04;
const MLI: u16 = 0x05;
const DIV: u16 = 0x06;
const DVI: u16 = 0x07;
const MOD: u16 = 0x08;
const MDI: u16 = 0x09;
const AND: u16 = 0x0A;
const BOR: u16 = 0x0B;
const XOR: u16 = 0x0C;
const LLS: u16 = 0x0D;
const LRS: u16 = 0x0E;
const ARS: u16 = 0x0F;
const IFB: u16 = 0x10;
const IFC: u16 = 0x11;
const IFE: u16 = 0x12;
const IFN: u16 = 0x13;
const IFG: u16 = 0x14;
const IFA: u16 = 0x15;
const IFL: u16 = 0x16;
const IFU: u16 = 0x17;
const ADX: u16 = 0x1A;
const SBX: u16 = 0x1B;
const STI: u16 = 0x1E;
const STD: u16 = 0x1F;

const JSR: u16 = 0x01;
const NOT: u16 = 0x02;
const INT: u16 = 0x08;
const IAG: u16 = 0x09;
const IAS: u16 = 0x0A;
const RFI: u16 = 0x0B;
const IAQ: u16 = 0x0C;
const HWN: u16 = 0x10;
const HWQ: u16 = 0x11;
const HWI: u16 = 0x12;

const NOP: u16 = 0x0000;
const CLK: u16 = 0x0400;

/// The memory operand at a register.
fn at(register: u16) -> u16 {
    0x08 + register
}

/// The memory operand at a register plus the next word.
fn at_plus(register: u16) -> u16 {
    0x10 + register
}

/// The short literal for a value from -1 to 30.
fn lit(value: i16) -> u16 {
    (0x21 + value) as u16
}

/// A binary instruction word.
fn bin(op: u16, m: u16, u: u16) -> u16 {
    (u << 10) | (m << 5) | op
}

/// A unary instruction word.
fn un(op: u16, u: u16) -> u16 {
    (u << 10) | (op << 5)
}

/// A processor with `program` at address zero.
fn load(program: &[u16]) -> Box<VCPU16> {
    let mut cpu = Box::new(VCPU16::new());
    cpu.write_mem(0, program);
    cpu
}

/// Steps until the processor is about to fetch again.
fn finish(cpu: &mut VCPU16) {
    cpu.step().unwrap();
    while cpu.state() == State::Busy {
        cpu.step().unwrap();
    }
}

/// Runs `m op u` from registers A and B and returns A and PS.
fn run(op: u16, m: u16, u: u16) -> (u16, u16) {
    let mut cpu = load(&[bin(op, A, B)]);
    cpu.registers_mut().a = m;
    cpu.registers_mut().b = u;
    cpu.registers_mut().ps = 0x5A5A;
    finish(&mut cpu);
    assert_eq!(u, cpu.get_b());
    assert_eq!(1, cpu.get_pc());
    (cpu.get_a(), cpu.get_ps())
}

/// Runs `m op u` with PS set beforehand and returns A and PS.
fn run_with(op: u16, m: u16, u: u16, ps: u16) -> (u16, u16) {
    let mut cpu = load(&[bin(op, A, B)]);
    cpu.registers_mut().a = m;
    cpu.registers_mut().b = u;
    cpu.registers_mut().ps = ps;
    finish(&mut cpu);
    (cpu.get_a(), cpu.get_ps())
}

/// Whether the instruction after `IFx m, u` is performed.
fn taken(op: u16, m: u16, u: u16) -> bool {
    let mut cpu = load(&[bin(op, A, B), bin(SET, C, lit(7)), bin(SET, X, lit(9))]);
    cpu.registers_mut().a = m;
    cpu.registers_mut().b = u;
    cpu.registers_mut().ps = 0x1234;
    for _ in 0..10 {
        cpu.step().unwrap();
    }
    assert_eq!(9, cpu.get_x());
    assert_eq!(0x1234, cpu.get_ps());
    assert_eq!(m, cpu.get_a());
    cpu.get_c() == 7
}

#[test]
fn add_overflows_into_ps() {
    let mut cpu = load(&[bin(ADD, A, lit(1))]);
    cpu.registers_mut().a = 0xFFFF;
    finish(&mut cpu);
    assert_eq!(0, cpu.get_a());
    assert_eq!(1, cpu.get_ps());
    assert_eq!((0x0003, 0), run(ADD, 1, 2));
    assert_eq!((0xFFFF, 0), run(ADD, 0xFFFE, 1));
    assert_eq!((0xFFFE, 1), run(ADD, 0xFFFF, 0xFFFF));
}

#[test]
fn sub_underflows_into_ps() {
    let mut cpu = load(&[bin(SUB, A, lit(1))]);
    finish(&mut cpu);
    assert_eq!(0xFFFF, cpu.get_a());
    assert_eq!(0xFFFF, cpu.get_ps());
    assert_eq!((0x0001, 0), run(SUB, 3, 2));
    assert_eq!((0x0000, 0), run(SUB, 2, 2));
    assert_eq!((0x0001, 0xFFFF), run(SUB, 0, 0xFFFF));
}

#[test]
fn mul_leaves_the_high_half_in_ps() {
    let mut cpu = load(&[bin(MUL, A, lit(2))]);
    cpu.registers_mut().a = 0x8000;
    finish(&mut cpu);
    assert_eq!(0, cpu.get_a());
    assert_eq!(1, cpu.get_ps());
    assert_eq!((0x0001, 0xFFFE), run(MUL, 0xFFFF, 0xFFFF));
    assert_eq!((0x0006, 0), run(MUL, 2, 3));
    assert_eq!((0x5678, 0), run(MUL, 0x0001, 0x5678));
    assert_eq!((0x0000, 0), run(MUL, 0xFFFF, 0));
}

#[test]
fn mli_multiplies_signed() {
    let mut cpu = load(&[bin(MLI, A, lit(2))]);
    cpu.registers_mut().a = 0xFFFF;
    finish(&mut cpu);
    assert_eq!(0xFFFE, cpu.get_a());
    assert_eq!(0xFFFF, cpu.get_ps());
    assert_eq!((0x0001, 0), run(MLI, 0xFFFF, 0xFFFF));
    assert_eq!((0x0000, 0x4000), run(MLI, 0x8000, 0x8000));
    assert_eq!((0x8000, 0xC000), run(MLI, 0x8000, 0x7FFF));
    assert_eq!((0x0006, 0), run(MLI, 2, 3));
}

#[test]
fn div_by_zero_gives_zero() {
    let mut cpu = load(&[bin(DIV, A, lit(0))]);
    cpu.registers_mut().a = 5;
    cpu.registers_mut().ps = 0x7777;
    finish(&mut cpu);
    assert_eq!(0, cpu.get_a());
    assert_eq!(0, cpu.get_ps());
}

#[test]
fn div_leaves_the_fraction_in_ps() {
    assert_eq!((3, 0x8000), run(DIV, 7, 2));
    assert_eq!((0, 0x5555), run(DIV, 1, 3));
    assert_eq!((0xFFFF, 0), run(DIV, 0xFFFF, 1));
    assert_eq!((1, 0), run(DIV, 0xFFFF, 0xFFFF));
    assert_eq!((0, 0x0001), run(DIV, 1, 0xFFFF));
}

#[test]
fn dvi_rounds_toward_zero() {
    assert_eq!((0xFFFD, 0x8000), run(DVI, 0xFFF9, 2));
    assert_eq!((0xFFFD, 0x8000), run(DVI, 7, 0xFFFE));
    assert_eq!((3, 0x8000), run(DVI, 0xFFF9, 0xFFFE));
    assert_eq!((3, 0x8000), run(DVI, 7, 2));
    assert_eq!((0x8000, 0), run(DVI, 0x8000, 0xFFFF));
    assert_eq!((0, 0), run(DVI, 0x8000, 0));
    assert_eq!((0, 0xAAAB), run(DVI, 0xFFFF, 3));
}

#[test]
fn mod_leaves_ps_alone() {
    assert_eq!((1, 0x5A5A), run(MOD, 7, 2));
    assert_eq!((0, 0x5A5A), run(MOD, 7, 0));
    assert_eq!((7, 0x5A5A), run(MOD, 7, 16));
    assert_eq!((0xFFF9, 0x5A5A), run(MOD, 0xFFF9, 0xFFFF));
}

#[test]
fn mdi_follows_the_sign_of_m() {
    assert_eq!((0xFFF9, 0x5A5A), run(MDI, 0xFFF9, 16));
    assert_eq!((7, 0x5A5A), run(MDI, 7, 16));
    assert_eq!((0xFFFF, 0x5A5A), run(MDI, 0xFFF9, 2));
    assert_eq!((1, 0x5A5A), run(MDI, 7, 0xFFFE));
    assert_eq!((0, 0x5A5A), run(MDI, 0x8000, 0xFFFF));
    assert_eq!((0, 0x5A5A), run(MDI, 7, 0));
}

#[test]
fn bitwise_operations_leave_ps_alone() {
    assert_eq!((0x0F00, 0x5A5A), run(AND, 0xFF00, 0x0FF0));
    assert_eq!((0xFFF0, 0x5A5A), run(BOR, 0xFF00, 0x0FF0));
    assert_eq!((0xF0F0, 0x5A5A), run(XOR, 0xFF00, 0x0FF0));
}

#[test]
fn lls_shifts_into_ps() {
    assert_eq!((0x2340, 0x0001), run(LLS, 0x1234, 4));
    assert_eq!((0x1234, 0), run(LLS, 0x1234, 0));
    assert_eq!((0, 0x1234), run(LLS, 0x1234, 16));
    assert_eq!((0, 0x2340), run(LLS, 0x1234, 20));
    assert_eq!((0, 0x8000), run(LLS, 0x0001, 31));
    assert_eq!((0, 0), run(LLS, 0xFFFF, 32));
    assert_eq!((0, 0), run(LLS, 0xFFFF, 0xFFFF));
}

#[test]
fn lrs_shifts_out_into_ps() {
    assert_eq!((0x0123, 0x4000), run(LRS, 0x1234, 4));
    assert_eq!((0x1234, 0), run(LRS, 0x1234, 0));
    assert_eq!((0x0FFF, 0xF000), run(LRS, 0xFFFF, 4));
    assert_eq!((0, 0x1234), run(LRS, 0x1234, 16));
    assert_eq!((0, 0x0123), run(LRS, 0x1234, 20));
    assert_eq!((0, 0x0001), run(LRS, 0x8000, 31));
    assert_eq!((0, 0), run(LRS, 0xFFFF, 32));
    assert_eq!((0, 0), run(LRS, 0xFFFF, 0xFFFF));
}

#[test]
fn ars_fills_with_the_sign() {
    assert_eq!((0x0123, 0x4000), run(ARS, 0x1234, 4));
    assert_eq!((0xF800, 0), run(ARS, 0x8000, 4));
    assert_eq!((0xFFFF, 0xF000), run(ARS, 0xFFFF, 4));
    assert_eq!((0xFFFF, 0x8001), run(ARS, 0x8001, 16));
    assert_eq!((0xFFFF, 0xFFFF), run(ARS, 0x8000, 32));
    assert_eq!((0xFFFF, 0xFFFF), run(ARS, 0x8000, 0xFFFF));
    assert_eq!((0, 0), run(ARS, 0x7FFF, 32));
    assert_eq!((0x8001, 0), run(ARS, 0x8001, 0));
    assert_eq!((0xFFFF, 0xFFFF), run(ARS, 0xFFFF, 31));
}

#[test]
fn adx_adds_ps() {
    assert_eq!((0x0006, 0), run_with(ADX, 2, 3, 1));
    assert_eq!((0x0000, 1), run_with(ADX, 0xFFFF, 0, 1));
    assert_eq!((0xFFFD, 1), run_with(ADX, 0xFFFF, 0xFFFF, 0xFFFF));
    assert_eq!((0xFFFF, 0), run_with(ADX, 0xFFFE, 1, 0));
    assert_eq!((0x0000, 1), run_with(ADX, 1, 0, 0xFFFF));
}

#[test]
fn sbx_adds_ps_to_the_difference() {
    assert_eq!((0x0002, 0), run_with(SBX, 3, 2, 1));
    assert_eq!((0xFFFF, 0xFFFF), run_with(SBX, 2, 3, 0));
    assert_eq!((0x0000, 0), run_with(SBX, 2, 3, 1));
    assert_eq!((0xFFFE, 0), run_with(SBX, 0xFFFF, 0, 0xFFFF));
    assert_eq!((0x0001, 0xFFFF), run_with(SBX, 0, 0xFFFF, 0));
}

#[test]
fn conditions_test_m_against_u() {
    assert!(taken(IFB, 0x00F0, 0x0010));
    assert!(!taken(IFB, 0x00F0, 0x0F00));
    assert!(taken(IFC, 0x00F0, 0x0F00));
    assert!(!taken(IFC, 0x00F0, 0x0010));
    assert!(taken(IFE, 5, 5));
    assert!(!taken(IFE, 5, 6));
    assert!(taken(IFN, 5, 6));
    assert!(!taken(IFN, 5, 5));
    assert!(taken(IFG, 0xFFFF, 1));
    assert!(!taken(IFG, 1, 0xFFFF));
    assert!(!taken(IFG, 5, 5));
    assert!(taken(IFA, 1, 0xFFFF));
    assert!(!taken(IFA, 0xFFFF, 1));
    assert!(!taken(IFA, 5, 5));
    assert!(taken(IFL, 1, 0xFFFF));
    assert!(!taken(IFL, 0xFFFF, 1));
    assert!(!taken(IFL, 5, 5));
    assert!(taken(IFU, 0xFFFF, 1));
    assert!(!taken(IFU, 1, 0xFFFF));
    assert!(!taken(IFU, 5, 5));
}

#[test]
fn short_literals_run_from_minus_one_to_thirty() {
    for code in 0x20..=0x3Fu16 {
        let mut cpu = load(&[bin(SET, A, code)]);
        cpu.registers_mut().a = 0x7777;
        cpu.step().unwrap();
        assert_eq!(code.wrapping_sub(0x21), cpu.get_a());
        assert_eq!(1, cpu.get_pc());
        assert_eq!(0, cpu.busy());
    }
    let mut cpu = load(&[bin(SET, A, 0x20), bin(SET, B, 0x21), bin(SET, C, 0x3F)]);
    for _ in 0..3 {
        cpu.step().unwrap();
    }
    assert_eq!(0xFFFF, cpu.get_a());
    assert_eq!(0, cpu.get_b());
    assert_eq!(0x1E, cpu.get_c());
}

#[test]
fn writes_to_literals_are_dropped() {
    let mut cpu = load(&[bin(SET, NEXT, lit(5)), 0x1234, bin(ADD, NEXT, lit(5)), 0x0001]);
    finish(&mut cpu);
    assert_eq!(2, cpu.get_pc());
    assert_eq!(0x1234, cpu.get_mem(1));
    finish(&mut cpu);
    assert_eq!(4, cpu.get_pc());
    assert_eq!(0x0001, cpu.get_mem(3));
    assert_eq!(0, cpu.get_ps());
    let mut cpu = load(&[un(NOT, lit(3)), un(IAG, lit(3))]);
    cpu.registers_mut().ia = 9;
    finish(&mut cpu);
    finish(&mut cpu);
    assert_eq!(2, cpu.get_pc());
    assert_eq!(0, cpu.get_a());
}

#[test]
fn registers_are_operands() {
    let registers = [A, B, C, X, Y, Z, I, J];
    for (index, register) in registers.iter().enumerate() {
        let mut cpu = load(&[bin(SET, *register, lit(index as i16 + 1))]);
        cpu.step().unwrap();
        let reg = *cpu.registers();
        let values = [reg.a, reg.b, reg.c, reg.x, reg.y, reg.z, reg.i, reg.j];
        for (other, value) in values.iter().enumerate() {
            assert_eq!(if other == index { index as u16 + 1 } else { 0 }, *value);
        }
    }
    for (index, register) in registers.iter().enumerate() {
        let mut cpu = load(&[bin(SET, PS, *register)]);
        {
            let reg = cpu.registers_mut();
            reg.a = 10;
            reg.b = 11;
            reg.c = 12;
            reg.x = 13;
            reg.y = 14;
            reg.z = 15;
            reg.i = 16;
            reg.j = 17;
        }
        cpu.step().unwrap();
        assert_eq!(10 + index as u16, cpu.get_ps());
    }
}

#[test]
fn special_registers_are_operands() {
    let mut cpu = load(&[bin(SET, SP, lit(8)), bin(SET, A, SP), bin(SET, PS, lit(3)), bin(SET, B, PS), bin(SET, C, PC), bin(SET, PC, lit(20))]);
    for _ in 0..6 {
        cpu.step().unwrap();
    }
    assert_eq!(8, cpu.get_sp());
    assert_eq!(8, cpu.get_a());
    assert_eq!(3, cpu.get_ps());
    assert_eq!(3, cpu.get_b());
    assert_eq!(5, cpu.get_c());
    assert_eq!(20, cpu.get_pc());
}

#[test]
fn memory_operands_go_through_registers() {
    let registers = [A, B, C, X, Y, Z, I, J];
    for (index, register) in registers.iter().enumerate() {
        let mut cpu = load(&[bin(SET, at(*register), lit(9)), bin(SET, PS, at(*register))]);
        {
            let reg = cpu.registers_mut();
            reg.a = 0x100;
            reg.b = 0x101;
            reg.c = 0x102;
            reg.x = 0x103;
            reg.y = 0x104;
            reg.z = 0x105;
            reg.i = 0x106;
            reg.j = 0x107;
        }
        cpu.step().unwrap();
        assert_eq!(0, cpu.busy());
        for address in 0x100..0x108u16 {
            assert_eq!(if address == 0x100 + index as u16 { 9 } else { 0 }, cpu.get_mem(address));
        }
        cpu.step().unwrap();
        assert_eq!(9, cpu.get_ps());
    }
}

#[test]
fn offset_operands_add_the_next_word() {
    let registers = [A, B, C, X, Y, Z, I, J];
    for (index, register) in registers.iter().enumerate() {
        let mut cpu = load(&[bin(SET, at_plus(*register), lit(9)), 0x0010]);
        {
            let reg = cpu.registers_mut();
            reg.a = 0x100;
            reg.b = 0x200;
            reg.c = 0x300;
            reg.x = 0x400;
            reg.y = 0x500;
            reg.z = 0x600;
            reg.i = 0x700;
            reg.j = 0xFFF8;
        }
        cpu.step().unwrap();
        assert_eq!(2, cpu.get_pc());
        assert_eq!(1, cpu.busy());
        let address = if index == 7 { 0x0008 } else { 0x0110 + 0x100 * index as u16 };
        assert_eq!(9, cpu.get_mem(address));
    }
}

#[test]
fn next_word_operands() {
    let mut cpu = load(&[bin(SET, AT_NEXT, NEXT), 0xBEEF, 0x0200, bin(SET, A, AT_NEXT), 0x0200]);
    cpu.step().unwrap();
    assert_eq!(3, cpu.get_pc());
    assert_eq!(2, cpu.busy());
    assert_eq!(0xBEEF, cpu.get_mem(0x0200));
    cpu.step().unwrap();
    cpu.step().unwrap();
    assert_eq!(3, cpu.get_pc());
    cpu.step().unwrap();
    assert_eq!(5, cpu.get_pc());
    assert_eq!(1, cpu.busy());
    assert_eq!(0xBEEF, cpu.get_a());
}

#[test]
fn source_word_comes_before_destination_word() {
    let mut cpu = load(&[bin(SET, at_plus(A), at_plus(B)), 0x0300, 0x0400]);
    cpu.set_mem(0x0300, 0x1111);
    cpu.set_mem(0x0400, 0x2222);
    cpu.step().unwrap();
    assert_eq!(0x1111, cpu.get_mem(0x0400));
    assert_eq!(0x1111, cpu.get_mem(0x0300));
    assert_eq!(3, cpu.get_pc());
}

#[test]
fn stack_discipline() {
    let mut cpu = load(&[
        bin(SET, STACK, lit(1)),
        bin(SET, STACK, lit(2)),
        bin(SET, A, STACK),
        bin(SET, B, STACK),
    ]);
    cpu.step().unwrap();
    assert_eq!(0xFFFF, cpu.get_sp());
    assert_eq!(1, cpu.get_mem(0xFFFF));
    cpu.step().unwrap();
    assert_eq!(0xFFFE, cpu.get_sp());
    assert_eq!(2, cpu.get_mem(0xFFFE));
    cpu.step().unwrap();
    assert_eq!(0xFFFF, cpu.get_sp());
    cpu.step().unwrap();
    assert_eq!(2, cpu.get_a());
    assert_eq!(1, cpu.get_b());
    assert_eq!(0, cpu.get_sp());
    assert_eq!(4, cpu.get_pc());
    assert_eq!(4, cpu.clock().cycles());
}

#[test]
fn peek_and_pick_leave_sp_alone() {
    let mut cpu = load(&[bin(SET, A, PEEK), bin(SET, B, PICK), 0x0002, bin(SET, PEEK, lit(7)), bin(SET, PICK, lit(8)), 0x0001]);
    cpu.registers_mut().sp = 0x8000;
    cpu.set_mem(0x8000, 0x1111);
    cpu.set_mem(0x8002, 0x2222);
    finish(&mut cpu);
    finish(&mut cpu);
    finish(&mut cpu);
    finish(&mut cpu);
    assert_eq!(0x1111, cpu.get_a());
    assert_eq!(0x2222, cpu.get_b());
    assert_eq!(7, cpu.get_mem(0x8000));
    assert_eq!(8, cpu.get_mem(0x8001));
    assert_eq!(0x8000, cpu.get_sp());
    assert_eq!(6, cpu.get_pc());
}

#[test]
fn pop_in_the_source_comes_before_push_in_the_destination() {
    let mut cpu = load(&[bin(SET, STACK, STACK)]);
    cpu.registers_mut().sp = 0x9000;
    cpu.set_mem(0x9000, 0x4242);
    cpu.step().unwrap();
    assert_eq!(0x9000, cpu.get_sp());
    assert_eq!(0x4242, cpu.get_mem(0x9000));
}

#[test]
fn jsr_and_return() {
    let mut cpu = load(&[un(JSR, lit(0x10)), bin(SET, B, lit(5))]);
    cpu.write_mem(0x10, &[bin(SET, A, lit(1)), bin(SET, PC, STACK)]);
    cpu.step().unwrap();
    assert_eq!(0x10, cpu.get_pc());
    assert_eq!(0xFFFF, cpu.get_sp());
    assert_eq!(1, cpu.get_mem(0xFFFF));
    assert_eq!(2, cpu.busy());
    cpu.step().unwrap();
    cpu.step().unwrap();
    assert_eq!(0x10, cpu.get_pc());
    cpu.step().unwrap();
    assert_eq!(1, cpu.get_a());
    cpu.step().unwrap();
    assert_eq!(1, cpu.get_pc());
    assert_eq!(0, cpu.get_sp());
    cpu.step().unwrap();
    assert_eq!(5, cpu.get_b());
    assert_eq!(2, cpu.get_pc());
}

#[test]
fn jsr_pushes_the_address_after_its_operand() {
    let mut cpu = load(&[un(JSR, NEXT), 0x0123]);
    cpu.step().unwrap();
    assert_eq!(0x0123, cpu.get_pc());
    assert_eq!(2, cpu.get_mem(0xFFFF));
    assert_eq!(3, cpu.busy());
}

#[test]
fn not_complements() {
    let mut cpu = load(&[un(NOT, A), un(NOT, at(B))]);
    cpu.registers_mut().a = 0x0F0F;
    cpu.registers_mut().b = 0x0100;
    cpu.registers_mut().ps = 0x1234;
    cpu.step().unwrap();
    cpu.step().unwrap();
    assert_eq!(0xF0F0, cpu.get_a());
    assert_eq!(0xFFFF, cpu.get_mem(0x0100));
    assert_eq!(0x1234, cpu.get_ps());
    assert_eq!(2, cpu.clock().cycles());
}

#[test]
fn conditional_skip_chain() {
    let mut cpu = load(&[
        bin(IFE, NEXT, lit(1)),
        0x0000,
        bin(IFE, NEXT, lit(1)),
        0x0000,
        bin(SET, A, lit(7)),
        bin(SET, A, lit(9)),
    ]);
    let mut seen_seven = false;
    for _ in 0..20 {
        cpu.step().unwrap();
        seen_seven = seen_seven || cpu.get_a() == 7;
    }
    assert_eq!(9, cpu.get_a());
    assert!(!seen_seven);

    let mut cpu = load(&[
        bin(IFE, NEXT, lit(1)),
        0x0001,
        bin(SET, A, lit(7)),
        bin(SET, A, lit(9)),
    ]);
    let mut seen_seven = false;
    for _ in 0..20 {
        cpu.step().unwrap();
        seen_seven = seen_seven || cpu.get_a() == 7;
    }
    assert_eq!(9, cpu.get_a());
    assert!(seen_seven);
}

#[test]
fn skip_chain_cycle_by_cycle() {
    let mut cpu = load(&[
        bin(IFE, NEXT, lit(1)),
        0x0000,
        bin(IFE, NEXT, lit(1)),
        0x0000,
        bin(SET, A, lit(7)),
        bin(SET, A, lit(9)),
    ]);
    cpu.step().unwrap();
    assert_eq!(2, cpu.get_pc());
    assert_eq!(2, cpu.busy());
    assert_eq!(State::Busy, cpu.state());
    cpu.step().unwrap();
    cpu.step().unwrap();
    assert_eq!(State::Skip, cpu.state());
    cpu.step().unwrap();
    assert_eq!(4, cpu.get_pc());
    assert_eq!(1, cpu.busy());
    cpu.step().unwrap();
    assert_eq!(State::Skip, cpu.state());
    cpu.step().unwrap();
    assert_eq!(5, cpu.get_pc());
    assert_eq!(0, cpu.busy());
    assert_eq!(0, cpu.get_a());
    assert_eq!(State::Execute, cpu.state());
    cpu.step().unwrap();
    assert_eq!(9, cpu.get_a());
    assert_eq!(6, cpu.get_pc());
    assert_eq!(7, cpu.clock().cycles());
}

#[test]
fn skipped_instruction_has_no_effect() {
    let mut cpu = load(&[
        bin(IFE, A, lit(1)),
        bin(ADD, STACK, STACK),
        bin(SET, B, lit(3)),
    ]);
    cpu.registers_mut().sp = 0x1000;
    cpu.registers_mut().ps = 0x4444;
    for _ in 0..6 {
        cpu.step().unwrap();
    }
    assert_eq!(0x1000, cpu.get_sp());
    assert_eq!(0x4444, cpu.get_ps());
    assert_eq!(3, cpu.get_b());
    assert_eq!(0, cpu.get_mem(0x0FFF));
}

#[test]
fn skipped_instruction_takes_its_words_along() {
    let mut cpu = load(&[
        bin(IFN, A, A),
        bin(SET, AT_NEXT, NEXT),
        0x00AA,
        0x0200,
        bin(SET, B, lit(3)),
    ]);
    cpu.step().unwrap();
    assert_eq!(1, cpu.busy());
    cpu.step().unwrap();
    cpu.step().unwrap();
    assert_eq!(4, cpu.get_pc());
    assert_eq!(2, cpu.busy());
    assert_eq!(0, cpu.get_mem(0x0200));
    cpu.step().unwrap();
    cpu.step().unwrap();
    cpu.step().unwrap();
    assert_eq!(3, cpu.get_b());
}

#[test]
fn sti_and_std_move_i_and_j() {
    let mut cpu = load(&[bin(STI, at(I), at(J))]);
    let word = cpu.get_mem(0);
    finish(&mut cpu);
    assert_eq!(word, cpu.get_mem(0));
    assert_eq!(1, cpu.get_i());
    assert_eq!(1, cpu.get_j());
    assert_eq!(2, cpu.clock().cycles());

    let mut cpu = load(&[bin(STD, at(I), at(J))]);
    let word = cpu.get_mem(0);
    finish(&mut cpu);
    assert_eq!(word, cpu.get_mem(0));
    assert_eq!(0xFFFF, cpu.get_i());
    assert_eq!(0xFFFF, cpu.get_j());

    let mut cpu = load(&[bin(STI, at(I), at(J)), bin(STI, at(I), at(J)), bin(STD, A, lit(4))]);
    cpu.registers_mut().i = 0x0100;
    cpu.registers_mut().j = 0x0200;
    cpu.write_mem(0x0200, &[0xAAAA, 0xBBBB]);
    finish(&mut cpu);
    finish(&mut cpu);
    assert_eq!(&[0xAAAAu16, 0xBBBB][..], cpu.read_mem(0x0100, 2));
    assert_eq!(0x0102, cpu.get_i());
    assert_eq!(0x0202, cpu.get_j());
    finish(&mut cpu);
    assert_eq!(4, cpu.get_a());
    assert_eq!(0x0101, cpu.get_i());
    assert_eq!(0x0201, cpu.get_j());
}

#[test]
fn sti_into_i_counts_from_the_new_value() {
    let mut cpu = load(&[bin(STI, I, lit(10))]);
    finish(&mut cpu);
    assert_eq!(11, cpu.get_i());
    assert_eq!(1, cpu.get_j());
}

#[test]
fn write_to_ps_gives_way_to_the_status() {
    let mut cpu = load(&[bin(ADD, PS, lit(1))]);
    cpu.registers_mut().ps = 0xFFFF;
    finish(&mut cpu);
    assert_eq!(1, cpu.get_ps());
}

#[test]
fn busy_cycle_accounting() {
    let mut cpu = load(&[bin(SET, A, B), bin(SET, C, lit(3))]);
    cpu.registers_mut().b = 0x1234;
    cpu.step().unwrap();
    assert_eq!(0x1234, cpu.get_a());
    assert_eq!(0, cpu.busy());
    assert_eq!(State::Execute, cpu.state());
    cpu.step().unwrap();
    assert_eq!(3, cpu.get_c());
    assert_eq!(2, cpu.clock().cycles());

    let mut cpu = load(&[bin(SET, A, at_plus(B)), 0x0010, bin(SET, C, lit(3))]);
    cpu.registers_mut().b = 0x0100;
    cpu.set_mem(0x0110, 0x5678);
    cpu.step().unwrap();
    assert_eq!(0x5678, cpu.get_a());
    assert_eq!(1, cpu.busy());
    assert_eq!(State::Busy, cpu.state());
    cpu.step().unwrap();
    assert_eq!(0, cpu.get_c());
    assert_eq!(0, cpu.busy());
    cpu.step().unwrap();
    assert_eq!(3, cpu.get_c());
    assert_eq!(3, cpu.clock().cycles());
}

/// The cycles that an instruction at address zero takes.
fn cycles(program: &[u16]) -> u64 {
    let mut cpu = load(program);
    cpu.registers_mut().ia = 0;
    finish(&mut cpu);
    cpu.clock().cycles()
}

#[test]
fn every_operation_takes_its_time() {
    assert_eq!(1, cycles(&[NOP]));
    assert_eq!(1, cycles(&[CLK]));
    assert_eq!(3, cycles(&[un(JSR, A)]));
    assert_eq!(1, cycles(&[un(NOT, A)]));
    assert_eq!(4, cycles(&[un(INT, A)]));
    assert_eq!(1, cycles(&[un(IAG, A)]));
    assert_eq!(1, cycles(&[un(IAS, A)]));
    assert_eq!(3, cycles(&[un(RFI, A)]));
    assert_eq!(2, cycles(&[un(IAQ, A)]));
    assert_eq!(2, cycles(&[un(HWN, A)]));
    assert_eq!(4, cycles(&[un(HWQ, A)]));
    assert_eq!(4, cycles(&[un(HWI, A)]));
    assert_eq!(1, cycles(&[bin(SET, A, B)]));
    assert_eq!(2, cycles(&[bin(ADD, A, B)]));
    assert_eq!(2, cycles(&[bin(SUB, A, B)]));
    assert_eq!(2, cycles(&[bin(MUL, A, B)]));
    assert_eq!(2, cycles(&[bin(MLI, A, B)]));
    assert_eq!(3, cycles(&[bin(DIV, A, B)]));
    assert_eq!(3, cycles(&[bin(DVI, A, B)]));
    assert_eq!(3, cycles(&[bin(MOD, A, B)]));
    assert_eq!(3, cycles(&[bin(MDI, A, B)]));
    assert_eq!(1, cycles(&[bin(AND, A, B)]));
    assert_eq!(1, cycles(&[bin(BOR, A, B)]));
    assert_eq!(1, cycles(&[bin(XOR, A, B)]));
    assert_eq!(1, cycles(&[bin(LLS, A, B)]));
    assert_eq!(1, cycles(&[bin(LRS, A, B)]));
    assert_eq!(1, cycles(&[bin(ARS, A, B)]));
    for op in [IFB, IFC, IFE, IFN, IFG, IFA, IFL, IFU] {
        assert_eq!(2, cycles(&[bin(op, A, B)]));
    }
    assert_eq!(3, cycles(&[bin(ADX, A, B)]));
    assert_eq!(3, cycles(&[bin(SBX, A, B)]));
    assert_eq!(2, cycles(&[bin(STI, A, B)]));
    assert_eq!(2, cycles(&[bin(STD, A, B)]));
    assert_eq!(3, cycles(&[bin(SET, AT_NEXT, NEXT), 0, 0]));
    assert_eq!(5, cycles(&[bin(DIV, at_plus(A), PICK), 0, 0]));
    assert_eq!(5, cycles(&[un(INT, NEXT), 0]));
}

#[test]
fn clk_latches_the_cycle_counter() {
    let mut cpu = Box::new(VCPU16::new());
    cpu.set_mem(0xFFFF, CLK);
    cpu.registers_mut().ps = 0x1111;
    for _ in 0..0xFFFF {
        cpu.step().unwrap();
    }
    assert_eq!(0xFFFF, cpu.get_pc());
    assert_eq!(0, cpu.get_i());
    assert_eq!(0x1111, cpu.get_ps());
    cpu.step().unwrap();
    assert_eq!(0x10000, cpu.clock().cycles());
    assert_eq!(1, cpu.get_i());
    assert_eq!(0, cpu.get_j());
    assert_eq!(0, cpu.get_ps());
    assert_eq!(0, cpu.get_pc());
}

#[test]
fn clk_early_on() {
    let mut cpu = load(&[NOP, NOP, CLK]);
    cpu.registers_mut().i = 5;
    for _ in 0..3 {
        cpu.step().unwrap();
    }
    assert_eq!(0, cpu.get_i());
    assert_eq!(3, cpu.get_j());
    assert_eq!(0, cpu.get_ps());
}

#[test]
fn unknown_opcodes_fault() {
    for word in [0x0800u16, 0xFC00, un(0x00, A) | 0x0060, un(0x03, A), un(0x07, A), un(0x0D, A), un(0x0F, A), un(0x13, A), un(0x1F, A), bin(0x18, A, B), bin(0x19, A, B), bin(0x1C, A, B), bin(0x1D, A, B)] {
        let mut cpu = load(&[word, bin(SET, A, lit(3))]);
        cpu.registers_mut().b = 5;
        assert_eq!(Err(SystemError::DecodeError), cpu.step());
        assert_eq!(1, cpu.get_pc());
        assert_eq!(1, cpu.clock().cycles());
        assert_eq!(0, cpu.busy());
        assert_eq!(0, cpu.get_a());
        assert_eq!(5, cpu.get_b());
        assert_eq!(0, cpu.get_sp());
        assert_eq!(Ok(()), cpu.step());
        assert_eq!(3, cpu.get_a());
    }
}

#[test]
fn faulting_instruction_is_passed_over_with_its_words() {
    let mut cpu = load(&[bin(0x18, STACK, NEXT), 0xFFFF, bin(SET, A, lit(3))]);
    assert_eq!(Err(SystemError::DecodeError), cpu.step());
    assert_eq!(2, cpu.get_pc());
    assert_eq!(1, cpu.busy());
    assert_eq!(0, cpu.get_sp());
    assert_eq!(Ok(()), cpu.step());
    assert_eq!(Ok(()), cpu.step());
    assert_eq!(3, cpu.get_a());
}

#[test]
fn skipped_unknown_opcode_does_not_fault() {
    let mut cpu = load(&[bin(IFE, A, lit(1)), bin(0x18, A, B), bin(SET, A, lit(3))]);
    for _ in 0..4 {
        assert_eq!(Ok(()), cpu.step());
    }
    assert_eq!(3, cpu.get_a());
}

#[test]
fn pc_wraps_around() {
    let mut cpu = Box::new(VCPU16::new());
    cpu.registers_mut().pc = 0xFFFF;
    cpu.set_mem(0xFFFF, bin(SET, A, NEXT));
    cpu.set_mem(0x0000, 0x4321);
    cpu.step().unwrap();
    assert_eq!(0x4321, cpu.get_a());
    assert_eq!(1, cpu.get_pc());
}

#[test]
fn hardware_instructions_without_devices() {
    let mut cpu = load(&[un(HWN, C), un(HWQ, lit(0)), un(HWI, lit(0))]);
    {
        let reg = cpu.registers_mut();
        reg.a = 1;
        reg.b = 2;
        reg.c = 3;
        reg.x = 4;
        reg.y = 5;
        reg.z = 6;
    }
    finish(&mut cpu);
    assert_eq!(0, cpu.get_c());
    finish(&mut cpu);
    assert_eq!(0, cpu.get_a());
    assert_eq!(0, cpu.get_b());
    assert_eq!(0, cpu.get_x());
    assert_eq!(0, cpu.get_y());
    assert_eq!(0, cpu.get_z());
    cpu.step().unwrap();
    assert_eq!(3, cpu.busy());
    assert_eq!(3, cpu.get_pc());
}
