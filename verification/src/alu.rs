//! The arithmetic of the processor.
//!
//! Every operation is defined on mathematical integers: the operands are
//! read as unsigned or as two's-complement signed numbers, the exact result
//! is computed, and [`wrap`] cuts it down to a word. The second word of a
//! result is what the operation leaves in the program status register PS.

use crate::isa::OpCode;
use crate::Word;
use vstd::arithmetic::div_mod::{
    lemma_basic_div, lemma_fundamental_div_mod, lemma_fundamental_div_mod_converse,
};
use vstd::arithmetic::power2::{lemma2_to64, lemma_pow2_adds, lemma_pow2_pos, pow2};
use vstd::bits::{lemma_u16_shr_is_div, lemma_u64_shl_is_mul, lemma_u64_shr_is_div};
use vstd::prelude::*;

verus! {

/// The word that an integer leaves when it is reduced modulo 2^16.
pub open spec fn wrap(value: int) -> Word {
    (value % 0x10000) as Word
}

/// The number that a word stands for when read as a two's-complement signed
/// value: -32768 to 32767.
pub open spec fn signed(word: Word) -> int {
    if word < 0x8000 {
        word as int
    } else {
        word as int - 0x10000
    }
}

/// The quotient of `a` by `b`, rounded toward zero. `b` is not zero.
pub open spec fn quotient(a: int, b: int) -> int {
    if a >= 0 {
        if b > 0 {
            a / b
        } else {
            -(a / (-b))
        }
    } else {
        if b > 0 {
            -((-a) / b)
        } else {
            (-a) / (-b)
        }
    }
}

/// The remainder of `a` by `b` that goes with [`quotient`]: its sign follows
/// `a`. `b` is not zero.
pub open spec fn remainder(a: int, b: int) -> int {
    let size = if b > 0 {
        b
    } else {
        -b
    };
    if a >= 0 {
        a % size
    } else {
        -((-a) % size)
    }
}

/// ADD: the sum, and 1 in PS where it overflows a word.
pub open spec fn spec_add(m: Word, u: Word) -> (Word, Word) {
    (
        wrap(m + u),
        if m + u > 0xFFFF {
            1
        } else {
            0
        },
    )
}

/// SUB: the difference, and 0xFFFF in PS where it underflows.
pub open spec fn spec_sub(m: Word, u: Word) -> (Word, Word) {
    (
        wrap(m - u),
        if m < u {
            0xFFFF
        } else {
            0
        },
    )
}

/// MUL: the low half of the unsigned product, and its high half in PS.
pub open spec fn spec_mul(m: Word, u: Word) -> (Word, Word) {
    (wrap(m * u), wrap((m * u) / 0x10000))
}

/// MLI: the low half of the signed 32-bit product, and its high half in PS.
pub open spec fn spec_mli(m: Word, u: Word) -> (Word, Word) {
    (wrap(signed(m) * signed(u)), wrap((signed(m) * signed(u)) / 0x10000))
}

/// DIV: the unsigned quotient, and in PS the fraction that the division
/// leaves, as the low word of (m * 2^16) / u. Both are zero where u is zero.
pub open spec fn spec_div(m: Word, u: Word) -> (Word, Word) {
    if u == 0 {
        (0, 0)
    } else {
        ((m / u) as Word, wrap((m * 0x10000) / (u as int)))
    }
}

/// DVI: as DIV, on signed operands, rounded toward zero.
pub open spec fn spec_dvi(m: Word, u: Word) -> (Word, Word) {
    if u == 0 {
        (0, 0)
    } else {
        (wrap(quotient(signed(m), signed(u))), wrap(quotient(signed(m) * 0x10000, signed(u))))
    }
}

/// MOD: the unsigned remainder, zero where u is zero.
pub open spec fn spec_mod(m: Word, u: Word) -> Word {
    if u == 0 {
        0
    } else {
        (m % u) as Word
    }
}

/// MDI: the signed remainder, whose sign follows m; zero where u is zero.
pub open spec fn spec_mdi(m: Word, u: Word) -> Word {
    if u == 0 {
        0
    } else {
        wrap(remainder(signed(m), signed(u)))
    }
}

/// Two to the power `e`. The powers that fit in 33 bits are written out.
pub open spec fn two_to(e: nat) -> nat {
    if e == 0 {
        1
    } else if e == 1 {
        2
    } else if e == 2 {
        4
    } else if e == 3 {
        8
    } else if e == 4 {
        0x10
    } else if e == 5 {
        0x20
    } else if e == 6 {
        0x40
    } else if e == 7 {
        0x80
    } else if e == 8 {
        0x100
    } else if e == 9 {
        0x200
    } else if e == 10 {
        0x400
    } else if e == 11 {
        0x800
    } else if e == 12 {
        0x1000
    } else if e == 13 {
        0x2000
    } else if e == 14 {
        0x4000
    } else if e == 15 {
        0x8000
    } else if e == 16 {
        0x10000
    } else if e == 17 {
        0x20000
    } else if e == 18 {
        0x40000
    } else if e == 19 {
        0x80000
    } else if e == 20 {
        0x100000
    } else if e == 21 {
        0x200000
    } else if e == 22 {
        0x400000
    } else if e == 23 {
        0x800000
    } else if e == 24 {
        0x1000000
    } else if e == 25 {
        0x2000000
    } else if e == 26 {
        0x4000000
    } else if e == 27 {
        0x8000000
    } else if e == 28 {
        0x10000000
    } else if e == 29 {
        0x20000000
    } else if e == 30 {
        0x40000000
    } else if e == 31 {
        0x80000000
    } else if e == 32 {
        0x1_0000_0000
    } else {
        pow2(e)
    }
}

/// The places that a shift by `u` moves a word: `u`, but no more than 32,
/// since by then every bit has left both the word and PS.
pub open spec fn places(u: Word) -> nat {
    if u < 32 {
        u as nat
    } else {
        32
    }
}

/// LLS: m * 2^u, of which the low word is the result and the next word is
/// left in PS.
pub open spec fn spec_lls(m: Word, u: Word) -> (Word, Word) {
    (wrap(m * two_to(places(u))), wrap((m * two_to(places(u))) / 0x10000))
}

/// LRS: m / 2^u, and in PS the bits shifted out, as the low word of
/// (m * 2^16) / 2^u.
pub open spec fn spec_lrs(m: Word, u: Word) -> (Word, Word) {
    (
        wrap(m as int / two_to(places(u)) as int),
        wrap((m * 0x10000) / (two_to(places(u)) as int)),
    )
}

/// ARS: as LRS, with m read as signed and both quotients rounded down, so
/// that the sign fills in from the left.
pub open spec fn spec_ars(m: Word, u: Word) -> (Word, Word) {
    (
        wrap(signed(m) / (two_to(places(u)) as int)),
        wrap((signed(m) * 0x10000) / (two_to(places(u)) as int)),
    )
}

/// ADX: the sum of m, u and PS, and 1 in PS where it overflows a word.
pub open spec fn spec_adx(m: Word, u: Word, ps: Word) -> (Word, Word) {
    (
        wrap(m + u + ps),
        if m + u + ps > 0xFFFF {
            1
        } else {
            0
        },
    )
}

/// SBX: m minus u plus PS, and 0xFFFF in PS where that is below zero.
pub open spec fn spec_sbx(m: Word, u: Word, ps: Word) -> (Word, Word) {
    (
        wrap(m - u + ps),
        if m - u + ps < 0 {
            0xFFFF
        } else {
            0
        },
    )
}

/// CLK: what a cycle counter that stands at `cycles` is latched as, when it
/// was last latched at `latch`: the high and the low half of its low 32
/// bits, and 1 for PS where it has passed a multiple of 2^32 in between, 0
/// where it has not.
pub open spec fn spec_clk(cycles: nat, latch: nat) -> (Word, Word, Word) {
    (
        wrap((cycles / 0x10000) as int),
        wrap(cycles as int),
        if cycles / 0x1_0000_0000 != latch / 0x1_0000_0000 {
            1
        } else {
            0
        },
    )
}

/// What a binary operation computes from the destination m, the source u
/// and the status PS: the word that it stores in the destination, and the
/// word that it leaves in PS, if it leaves one. An operation that computes
/// nothing gives m back.
pub open spec fn spec_compute(op: OpCode, m: Word, u: Word, ps: Word) -> (Word, Option<Word>) {
    match op {
        OpCode::SET | OpCode::STI | OpCode::STD => (u, None),
        OpCode::ADD => (spec_add(m, u).0, Some(spec_add(m, u).1)),
        OpCode::SUB => (spec_sub(m, u).0, Some(spec_sub(m, u).1)),
        OpCode::MUL => (spec_mul(m, u).0, Some(spec_mul(m, u).1)),
        OpCode::MLI => (spec_mli(m, u).0, Some(spec_mli(m, u).1)),
        OpCode::DIV => (spec_div(m, u).0, Some(spec_div(m, u).1)),
        OpCode::DVI => (spec_dvi(m, u).0, Some(spec_dvi(m, u).1)),
        OpCode::MOD => (spec_mod(m, u), None),
        OpCode::MDI => (spec_mdi(m, u), None),
        OpCode::AND => (m & u, None),
        OpCode::BOR => (m | u, None),
        OpCode::XOR => (m ^ u, None),
        OpCode::LLS => (spec_lls(m, u).0, Some(spec_lls(m, u).1)),
        OpCode::LRS => (spec_lrs(m, u).0, Some(spec_lrs(m, u).1)),
        OpCode::ARS => (spec_ars(m, u).0, Some(spec_ars(m, u).1)),
        OpCode::ADX => (spec_adx(m, u, ps).0, Some(spec_adx(m, u, ps).1)),
        OpCode::SBX => (spec_sbx(m, u, ps).0, Some(spec_sbx(m, u, ps).1)),
        _ => (m, None),
    }
}

/// Whether the condition of a conditional operation holds of m and u. For an
/// operation that is no conditional it holds.
pub open spec fn spec_test(op: OpCode, m: Word, u: Word) -> bool {
    match op {
        OpCode::IFB => m & u != 0,
        OpCode::IFC => m & u == 0,
        OpCode::IFE => m == u,
        OpCode::IFN => m != u,
        OpCode::IFG => m > u,
        OpCode::IFA => signed(m) > signed(u),
        OpCode::IFL => m < u,
        OpCode::IFU => signed(m) < signed(u),
        _ => true,
    }
}

/// The signed reading of a word lies between -32768 and 32767, and wraps
/// back to the word.
pub proof fn lemma_signed(word: Word)
    ensures
        -0x8000 <= signed(word) <= 0x7FFF,
        wrap(signed(word)) == word,
        signed(word) >= 0 <==> word < 0x8000,
{
}

/// A number between -32768 and 32767 is the signed reading of the word it
/// wraps to.
pub proof fn lemma_wrap(value: int)
    requires
        -0x8000 <= value <= 0x7FFF,
    ensures
        signed(wrap(value)) == value,
{
}

/// Quotient and remainder belong together: the divisor times the quotient,
/// plus the remainder, is the dividend; the remainder is smaller in size
/// than the divisor and has the sign of the dividend; and the quotient is
/// the exact ratio rounded toward zero.
pub proof fn lemma_quotient_remainder(a: int, b: int)
    requires
        b != 0,
    ensures
        a == b * quotient(a, b) + remainder(a, b),
        a >= 0 ==> 0 <= remainder(a, b),
        a <= 0 ==> remainder(a, b) <= 0,
        b > 0 ==> -b < remainder(a, b) < b,
        b < 0 ==> b < remainder(a, b) < -b,
        quotient(-a, b) == -quotient(a, b),
        quotient(a, -b) == -quotient(a, b),
{
    let size_a = if a >= 0 {
        a
    } else {
        -a
    };
    let size_b = if b > 0 {
        b
    } else {
        -b
    };
    lemma_fundamental_div_mod(size_a, size_b);
    let q = size_a / size_b;
    let r = size_a % size_b;
    assert(a == b * quotient(a, b) + remainder(a, b)) by (nonlinear_arith)
        requires
            size_a == size_b * q + r,
            size_a == if a >= 0 {
                a
            } else {
                -a
            },
            size_b == if b > 0 {
                b
            } else {
                -b
            },
            b != 0,
            quotient(a, b) == if (a >= 0) == (b > 0) {
                q
            } else {
                -q
            },
            remainder(a, b) == if a >= 0 {
                r
            } else {
                -r
            },
    ;
    if a == 0 {
        lemma_basic_div(0, size_b);
    }
}

/// ADD and ADX compute the exact sum: the result, with the carry in PS
/// counted as the seventeenth bit, is m + u, or m + u + PS.
pub proof fn lemma_sum(m: Word, u: Word, ps: Word)
    ensures
        spec_add(m, u).0 + 0x10000 * spec_add(m, u).1 == m + u,
        ps <= 1 ==> spec_adx(m, u, ps).0 + 0x10000 * spec_adx(m, u, ps).1 == m + u + ps,
{
}

/// SUB computes the exact difference: the result is m - u where that is
/// not negative, and m - u + 2^16 with 0xFFFF in PS where it is.
pub proof fn lemma_difference(m: Word, u: Word)
    ensures
        spec_sub(m, u).1 == 0 ==> spec_sub(m, u).0 == m - u,
        spec_sub(m, u).1 == 0xFFFF ==> spec_sub(m, u).0 == m - u + 0x10000,
        spec_sub(m, u).1 == 0 || spec_sub(m, u).1 == 0xFFFF,
{
}

/// MUL computes the exact product: PS and the result, read as one 32-bit
/// number, are m times u.
pub proof fn lemma_product(m: Word, u: Word)
    ensures
        spec_mul(m, u).1 * 0x10000 + spec_mul(m, u).0 == m * u,
{
    assert(0 <= m * u <= 0xFFFF * 0xFFFF) by (nonlinear_arith)
        requires
            0 <= m <= 0xFFFF,
            0 <= u <= 0xFFFF,
    ;
}

/// DIV and MOD belong together: the divisor times the quotient, plus the
/// remainder, is the dividend. Both are zero where the divisor is.
pub proof fn lemma_div_mod(m: Word, u: Word)
    ensures
        u != 0 ==> spec_div(m, u).0 * u + spec_mod(m, u) == m && spec_mod(m, u) < u,
        u == 0 ==> spec_div(m, u) == (0u16, 0u16) && spec_mod(m, u) == 0,
{
    if u != 0 {
        lemma_fundamental_div_mod(m as int, u as int);
        assert((m / u) * u == u * (m / u)) by (nonlinear_arith);
    }
}

/// DVI and MDI belong together in the same way, on the signed readings,
/// unless the quotient is 32768, which no signed word holds.
pub proof fn lemma_dvi_mdi(m: Word, u: Word)
    requires
        u != 0,
        !(m == 0x8000 && u == 0xFFFF),
    ensures
        signed(spec_dvi(m, u).0) * signed(u) + signed(spec_mdi(m, u)) == signed(m),
        signed(spec_dvi(m, u).0) == quotient(signed(m), signed(u)),
        signed(spec_mdi(m, u)) == remainder(signed(m), signed(u)),
{
    let a = signed(m);
    let b = signed(u);
    lemma_quotient_remainder(a, b);
    let size_a = if a >= 0 {
        a
    } else {
        -a
    };
    let size_b = if b > 0 {
        b
    } else {
        -b
    };
    lemma_quotient_bound(size_a, size_b);
    if size_b == 1 {
        assert(size_a / 1 == size_a);
    } else {
        lemma_fundamental_div_mod(size_a, size_b);
        assert(size_a / size_b <= 0x7FFF) by (nonlinear_arith)
            requires
                size_a == size_b * (size_a / size_b) + size_a % size_b,
                size_a % size_b >= 0,
                size_b >= 2,
                0 <= size_a <= 0x8000,
        ;
    }
    assert(-0x8000 <= quotient(a, b) <= 0x7FFF);
    lemma_wrap(quotient(a, b));
    lemma_wrap(remainder(a, b));
    assert(quotient(a, b) * b == b * quotient(a, b)) by (nonlinear_arith);
}

/// The powers that are written out are the powers of two.
pub proof fn lemma_two_to(e: nat)
    ensures
        two_to(e) == pow2(e),
        two_to(e) > 0,
{
    lemma2_to64();
    lemma_pow2_pos(e);
}

/// The shifts are exact, however far they go: LLS multiplies by 2^u and
/// LRS and ARS divide by it, rounding down, for every u up to 65,535. The
/// result is the low word of the product or quotient of m, and PS is the
/// low word of the same with m moved up by sixteen bits.
pub proof fn lemma_shift(m: Word, u: Word)
    ensures
        spec_lls(m, u) == (wrap(m * pow2(u as nat)), wrap((m * pow2(u as nat)) / 0x10000)),
        spec_lrs(m, u) == (
            wrap(m as int / pow2(u as nat) as int),
            wrap((m * 0x10000) / (pow2(u as nat) as int)),
        ),
        spec_ars(m, u) == (
            wrap(signed(m) / (pow2(u as nat) as int)),
            wrap((signed(m) * 0x10000) / (pow2(u as nat) as int)),
        ),
{
    let power = pow2(u as nat) as int;
    let table = two_to(places(u)) as int;
    if u < 32 {
        lemma_two_to(u as nat);
        assert(table == power);
    } else {
        lemma2_to64();
        lemma_pow2_adds(32, (u - 32) as nat);
        lemma_pow2_pos((u - 32) as nat);
        let rest = pow2((u - 32) as nat) as int;
        assert(table == 0x1_0000_0000);
        assert(power == 0x1_0000_0000 * rest);
        assert(power >= 0x1_0000_0000) by (nonlinear_arith)
            requires
                power == 0x1_0000_0000 * rest,
                rest > 0,
        ;
        // To the left, everything is a multiple of 2^32.
        let k = m * rest;
        assert(m * power == k * 0x1_0000_0000) by (nonlinear_arith)
            requires
                power == 0x1_0000_0000 * rest,
                k == m * rest,
        ;
        assert((k * 0x1_0000_0000) % 0x10000 == 0);
        assert((k * 0x1_0000_0000) / 0x10000 == k * 0x10000);
        assert(wrap(m * power) == 0);
        assert(wrap((m * power) / 0x10000) == 0);
        assert(wrap(m * table) == 0);
        assert(wrap((m * table) / 0x10000) == 0);
        // To the right, nothing is left of a number below 2^32.
        lemma_basic_div(m as int, power);
        lemma_basic_div(m * 0x10000, power);
        assert(m as int / table == 0);
        assert((m * 0x10000) / table == 0);
        if m < 0x8000 {
            assert(signed(m) == m);
        } else {
            let low = 0xFFFF - m;
            let wide = low * 0x10000 + 0xFFFF;
            assert(signed(m) == -(low + 1));
            assert(signed(m) * 0x10000 == -(wide + 1));
            lemma_floor_of_negative(low, power);
            lemma_floor_of_negative(wide, power);
            lemma_basic_div(low, power);
            lemma_basic_div(wide, power);
            assert(signed(m) / power == -1);
            assert((signed(m) * 0x10000) / power == -1);
            assert(signed(m) / table == -1);
            assert((signed(m) * 0x10000) / table == -1);
        }
    }
}

/// A shift by fewer than sixteen places is the shift of the bits: LLS
/// gives `m << u` and LRS gives `m >> u`.
pub proof fn lemma_shift_bits(m: Word, u: Word)
    requires
        u < 16,
    ensures
        spec_lls(m, u).0 == m << u,
        spec_lrs(m, u).0 == m >> u,
{
    lemma_two_to(u as nat);
    lemma_u16_shr_is_div(m, u);
    lemma_quotient_bound(m as int, pow2(u as nat) as int);
    assert(m * pow2(u as nat) <= 0xFFFF * 0x1_0000_0000) by (nonlinear_arith)
        requires
            0 <= m <= 0xFFFF,
            0 < pow2(u as nat) < 0x1_0000_0000,
    ;
    lemma_u64_shl_is_mul(m as u64, u as u64);
    let wide: u64 = (m as u64) << (u as u64);
    assert((((m as u64) << (u as u64)) & 0xFFFF) as u16 == m << u) by (bit_vector)
        requires
            u < 16,
    ;
    assert(wide & 0xFFFF == wide % 0x10000) by (bit_vector);
}

/// The signed reading of a word; see [`signed`].
fn to_signed(word: Word) -> (value: i64)
    ensures
        value == signed(word),
{
    if word < 0x8000 {
        word as i64
    } else {
        word as i64 - 0x10000
    }
}

/// The word of a number between -2^32 and 2^32; see [`wrap`].
fn to_word(value: i64) -> (word: Word)
    requires
        -0x1_0000_0000 <= value <= 0x1_0000_0000,
    ensures
        word == wrap(value as int),
{
    ((value + 0x1_0000_0000) % 0x10000) as Word
}

/// ADD; see [`spec_add`].
pub fn add(m: Word, u: Word) -> (result: (Word, Word))
    ensures
        result == spec_add(m, u),
{
    let sum: u32 = m as u32 + u as u32;
    (
        (sum % 0x10000) as Word,
        if sum > 0xFFFF {
            1
        } else {
            0
        },
    )
}

/// SUB; see [`spec_sub`].
pub fn sub(m: Word, u: Word) -> (result: (Word, Word))
    ensures
        result == spec_sub(m, u),
{
    (
        to_word(m as i64 - u as i64),
        if m < u {
            0xFFFF
        } else {
            0
        },
    )
}

/// MUL; see [`spec_mul`].
pub fn mul(m: Word, u: Word) -> (result: (Word, Word))
    ensures
        result == spec_mul(m, u),
{
    assert(0 <= m * u <= 0xFFFF * 0xFFFF) by (nonlinear_arith)
        requires
            0 <= m <= 0xFFFF,
            0 <= u <= 0xFFFF,
    ;
    let product: u32 = m as u32 * u as u32;
    ((product % 0x10000) as Word, (product / 0x10000) as Word)
}

/// MLI; see [`spec_mli`].
pub fn mli(m: Word, u: Word) -> (result: (Word, Word))
    ensures
        result == spec_mli(m, u),
{
    let a = to_signed(m);
    let b = to_signed(u);
    assert(-0x4000_0000 <= a * b <= 0x4000_0000) by (nonlinear_arith)
        requires
            -0x8000 <= a <= 0x7FFF,
            -0x8000 <= b <= 0x7FFF,
    ;
    let product: i64 = a * b;
    let shifted: i64 = product + 0x1_0000_0000;
    (to_word(product), ((shifted / 0x10000) % 0x10000) as Word)
}

/// DIV; see [`spec_div`].
pub fn div(m: Word, u: Word) -> (result: (Word, Word))
    ensures
        result == spec_div(m, u),
{
    if u == 0 {
        (0, 0)
    } else {
        let wide: u32 = m as u32 * 0x10000;
        (m / u, ((wide / u as u32) % 0x10000) as Word)
    }
}

/// The word of the quotient of two magnitudes, negated where `negative`.
fn signed_quotient(a: u32, b: u32, negative: bool) -> (word: Word)
    requires
        b != 0,
        a <= 0x8000_0000,
    ensures
        word == wrap(
            if negative {
                -(a as int / b as int)
            } else {
                a as int / b as int
            },
        ),
{
    let q: u32 = a / b;
    if negative {
        to_word(-(q as i64))
    } else {
        to_word(q as i64)
    }
}

/// DVI; see [`spec_dvi`].
pub fn dvi(m: Word, u: Word) -> (result: (Word, Word))
    ensures
        result == spec_dvi(m, u),
{
    if u == 0 {
        (0, 0)
    } else {
        let a = to_signed(m);
        let b = to_signed(u);
        let size_a: u32 = if a >= 0 {
            a as u32
        } else {
            (-a) as u32
        };
        let size_b: u32 = if b >= 0 {
            b as u32
        } else {
            (-b) as u32
        };
        let negative = (a < 0) != (b < 0);
        (
            signed_quotient(size_a, size_b, negative),
            signed_quotient(size_a * 0x10000, size_b, negative),
        )
    }
}

/// MOD; see [`spec_mod`].
pub fn modulo(m: Word, u: Word) -> (result: Word)
    ensures
        result == spec_mod(m, u),
{
    if u == 0 {
        0
    } else {
        m % u
    }
}

/// MDI; see [`spec_mdi`].
pub fn mdi(m: Word, u: Word) -> (result: Word)
    ensures
        result == spec_mdi(m, u),
{
    if u == 0 {
        0
    } else {
        let a = to_signed(m);
        let b = to_signed(u);
        let size_a: i64 = if a >= 0 {
            a
        } else {
            -a
        };
        let size_b: i64 = if b >= 0 {
            b
        } else {
            -b
        };
        let r: i64 = size_a % size_b;
        if a >= 0 {
            to_word(r)
        } else {
            to_word(-r)
        }
    }
}

/// ADX; see [`spec_adx`].
pub fn adx(m: Word, u: Word, ps: Word) -> (result: (Word, Word))
    ensures
        result == spec_adx(m, u, ps),
{
    let sum: u32 = m as u32 + u as u32 + ps as u32;
    (
        (sum % 0x10000) as Word,
        if sum > 0xFFFF {
            1
        } else {
            0
        },
    )
}

/// SBX; see [`spec_sbx`].
pub fn sbx(m: Word, u: Word, ps: Word) -> (result: (Word, Word))
    ensures
        result == spec_sbx(m, u, ps),
{
    let difference: i64 = m as i64 - u as i64 + ps as i64;
    (
        to_word(difference),
        if difference < 0 {
            0xFFFF
        } else {
            0
        },
    )
}

/// Rounding down, a negative number divides as the number that its
/// complement divides to, complemented: -(y + 1) / d is -(y / d) - 1.
proof fn lemma_floor_of_negative(y: int, d: int)
    requires
        y >= 0,
        d > 0,
    ensures
        (-(y + 1)) / d == -(y / d) - 1,
{
    let q = y / d;
    let r = y % d;
    lemma_fundamental_div_mod(y, d);
    assert(-(y + 1) == (-q - 1) * d + (d - r - 1)) by (nonlinear_arith)
        requires
            y == d * q + r,
    ;
    lemma_fundamental_div_mod_converse(-(y + 1), d, -q - 1, d - r - 1);
}

/// Dividing a number that is not negative by a positive one gives a number
/// between zero and the dividend.
proof fn lemma_quotient_bound(x: int, d: int)
    requires
        x >= 0,
        d > 0,
    ensures
        0 <= x / d <= x,
{
    lemma_fundamental_div_mod(x, d);
    assert(0 <= x / d <= x) by (nonlinear_arith)
        requires
            x == d * (x / d) + (x % d),
            0 <= x % d < d,
            x >= 0,
            d > 0,
    ;
}

/// What the shifts of the machine do to 64-bit numbers, for fewer than 32
/// places: to the left they multiply by the power of two, to the right they
/// divide by it.
proof fn lemma_wide_shift(x: u64, u: Word)
    requires
        u < 32,
        x <= 0xFFFF_FFFF,
    ensures
        0 < two_to(u as nat) <= 0x8000_0000,
        x << (u as u64) == x * two_to(u as nat),
        x >> (u as u64) == x as int / two_to(u as nat) as int,
        0 <= x as int / two_to(u as nat) as int <= x,
{
    lemma_two_to(u as nat);
    assert(x * two_to(u as nat) <= 0xFFFF_FFFF * 0x8000_0000) by (nonlinear_arith)
        requires
            0 <= x <= 0xFFFF_FFFF,
            0 < two_to(u as nat) <= 0x8000_0000,
    ;
    lemma_u64_shl_is_mul(x, u as u64);
    lemma_u64_shr_is_div(x, u as u64);
    lemma_quotient_bound(x as int, two_to(u as nat) as int);
}

/// LLS; see [`spec_lls`].
pub fn lls(m: Word, u: Word) -> (result: (Word, Word))
    ensures
        result == spec_lls(m, u),
{
    if u >= 32 {
        proof {
            assert(two_to(places(u)) == 0x1_0000_0000);
            assert((m * 0x1_0000_0000) % 0x10000 == 0);
            assert((m * 0x1_0000_0000) / 0x10000 == m * 0x10000);
        }
        (0, 0)
    } else {
        proof {
            lemma_wide_shift(m as u64, u);
            assert(places(u) == u as nat);
        }
        let wide: u64 = (m as u64) << (u as u64);
        assert(wide == m * two_to(places(u)));
        ((wide % 0x10000) as Word, ((wide / 0x10000) % 0x10000) as Word)
    }
}

/// LRS; see [`spec_lrs`].
pub fn lrs(m: Word, u: Word) -> (result: (Word, Word))
    ensures
        result == spec_lrs(m, u),
{
    if u >= 32 {
        proof {
            assert(two_to(places(u)) == 0x1_0000_0000);
            assert(m as int / 0x1_0000_0000 == 0);
            assert((m * 0x10000) / 0x1_0000_0000 == 0);
        }
        (0, 0)
    } else {
        let wide: u64 = m as u64 * 0x10000;
        proof {
            lemma_wide_shift(m as u64, u);
            lemma_wide_shift(wide, u);
            assert(places(u) == u as nat);
        }
        let value: u64 = (m as u64) >> (u as u64);
        let status: u64 = wide >> (u as u64);
        assert(value == m as int / two_to(places(u)) as int);
        assert(status == (m * 0x10000) / (two_to(places(u)) as int));
        assert(value <= m);
        (value as Word, (status % 0x10000) as Word)
    }
}

/// ARS; see [`spec_ars`].
pub fn ars(m: Word, u: Word) -> (result: (Word, Word))
    ensures
        result == spec_ars(m, u),
{
    if m < 0x8000 {
        proof {
            assert(signed(m) == m);
        }
        lrs(m, u)
    } else if u >= 32 {
        proof {
            assert(two_to(places(u)) == 0x1_0000_0000);
            assert(signed(m) == m - 0x10000);
            assert(signed(m) / 0x1_0000_0000 == -1);
            assert((signed(m) * 0x10000) / 0x1_0000_0000 == -1);
        }
        (0xFFFF, 0xFFFF)
    } else {
        let low: u64 = (0xFFFF - m) as u64;
        let wide: u64 = low * 0x10000 + 0xFFFF;
        let ghost power = two_to(places(u)) as int;
        proof {
            lemma_wide_shift(low, u);
            lemma_wide_shift(wide, u);
            assert(places(u) == u as nat);
            lemma_floor_of_negative(low as int, power);
            lemma_floor_of_negative(wide as int, power);
            assert(signed(m) == -(low + 1));
            assert(signed(m) * 0x10000 == -(wide + 1));
        }
        let value: u64 = low >> (u as u64);
        let status: u64 = wide >> (u as u64);
        assert(value == low as int / power);
        assert(status == wide as int / power);
        assert(signed(m) / power == -value - 1);
        assert((signed(m) * 0x10000) / power == -status - 1);
        assert(value <= 0x7FFF);
        ((0xFFFF - value) as Word, (0xFFFF - status % 0x10000) as Word)
    }
}

/// CLK; see [`spec_clk`].
pub fn clk(cycles: u64, latch: u64) -> (result: (Word, Word, Word))
    ensures
        result == spec_clk(cycles as nat, latch as nat),
{
    (
        ((cycles / 0x10000) % 0x10000) as Word,
        (cycles % 0x10000) as Word,
        if cycles / 0x1_0000_0000 != latch / 0x1_0000_0000 {
            1
        } else {
            0
        },
    )
}

/// A result together with the status that goes into PS.
fn with_status(result: (Word, Word)) -> (both: (Word, Option<Word>))
    ensures
        both == (result.0, Some(result.1)),
{
    (result.0, Some(result.1))
}

/// Computes a binary operation; see [`spec_compute`].
pub fn compute(op: OpCode, m: Word, u: Word, ps: Word) -> (result: (Word, Option<Word>))
    ensures
        result == spec_compute(op, m, u, ps),
{
    match op {
        OpCode::SET | OpCode::STI | OpCode::STD => (u, None),
        OpCode::ADD => with_status(self::add(m, u)),
        OpCode::SUB => with_status(self::sub(m, u)),
        OpCode::MUL => with_status(self::mul(m, u)),
        OpCode::MLI => with_status(mli(m, u)),
        OpCode::DIV => with_status(div(m, u)),
        OpCode::DVI => with_status(dvi(m, u)),
        OpCode::MOD => (modulo(m, u), None),
        OpCode::MDI => (mdi(m, u), None),
        OpCode::AND => (m & u, None),
        OpCode::BOR => (m | u, None),
        OpCode::XOR => (m ^ u, None),
        OpCode::LLS => with_status(lls(m, u)),
        OpCode::LRS => with_status(lrs(m, u)),
        OpCode::ARS => with_status(ars(m, u)),
        OpCode::ADX => with_status(adx(m, u, ps)),
        OpCode::SBX => with_status(sbx(m, u, ps)),
        _ => (m, None),
    }
}

/// Tests the condition of a conditional operation; see [`spec_test`].
pub fn test(op: OpCode, m: Word, u: Word) -> (holds: bool)
    ensures
        holds == spec_test(op, m, u),
{
    match op {
        OpCode::IFB => m & u != 0,
        OpCode::IFC => m & u == 0,
        OpCode::IFE => m == u,
        OpCode::IFN => m != u,
        OpCode::IFG => m > u,
        OpCode::IFA => to_signed(m) > to_signed(u),
        OpCode::IFL => m < u,
        OpCode::IFU => to_signed(m) < to_signed(u),
        _ => true,
    }
}

} // verus!
