//! Text for words and numbers: the building blocks of what the parts of the
//! machine write out about themselves.

use crate::Word;
use vstd::prelude::*;
use vstd::string::{StrSliceExecFns, StringExecFns};

verus! {

/// The digit for a value from 0 to 15: `0` to `9`, then `A` to `F`.
pub open spec fn digit(value: int) -> char {
    if value < 10 {
        ('0' as int + value) as char
    } else {
        ('A' as int + value - 10) as char
    }
}

/// A word as four upper-case hexadecimal digits, the highest first.
pub open spec fn hex(word: Word) -> Seq<char> {
    seq![
        digit(word as int / 0x1000),
        digit((word as int / 0x100) % 16),
        digit((word as int / 0x10) % 16),
        digit(word as int % 16),
    ]
}

/// A number in decimal digits, without leading zeros.
pub open spec fn decimal(value: nat) -> Seq<char>
    decreases value,
{
    if value < 10 {
        seq![digit(value as int)]
    } else {
        decimal(value / 10).push(digit((value % 10) as int))
    }
}

/// A truth value as the word `true` or `false`.
pub open spec fn truth(value: bool) -> Seq<char> {
    if value {
        "true"@
    } else {
        "false"@
    }
}

/// Whether a word is the code of an ASCII letter or digit.
pub open spec fn is_alphanumeric(word: Word) -> bool {
    ('0' as int <= word <= '9' as int) || ('A' as int <= word <= 'Z' as int) || ('a' as int
        <= word <= 'z' as int)
}

/// A word as one character: the ASCII letter or digit whose code it is, or
/// a dot where it is the code of none.
pub open spec fn glyph(word: Word) -> Seq<char> {
    if is_alphanumeric(word) {
        seq![word as char]
    } else {
        seq!['.']
    }
}

/// Appends one hexadecimal digit.
fn push_digit(text: &mut String, value: u16)
    requires
        value < 16,
    ensures
        final(text)@ == old(text)@.push(digit(value as int)),
{
    let digits = "0123456789ABCDEF";
    proof {
        reveal_strlit("0123456789ABCDEF");
    }
    let one = digits.substring_char(value as usize, value as usize + 1);
    assert(one@ =~= seq![digit(value as int)]);
    text.append(one);
    assert(text@ =~= old(text)@.push(digit(value as int)));
}

/// Appends a word as four hexadecimal digits.
pub fn push_hex(text: &mut String, word: Word)
    ensures
        final(text)@ == old(text)@ + hex(word),
{
    push_digit(text, word / 0x1000);
    push_digit(text, (word / 0x100) % 16);
    push_digit(text, (word / 0x10) % 16);
    push_digit(text, word % 16);
    assert(text@ =~= old(text)@ + hex(word));
}

/// Appends a number in decimal digits.
pub fn push_decimal(text: &mut String, value: u64)
    ensures
        final(text)@ == old(text)@ + decimal(value as nat),
    decreases value,
{
    if value < 10 {
        push_digit(text, value as u16);
        assert(text@ =~= old(text)@ + decimal(value as nat));
    } else {
        push_decimal(text, value / 10);
        push_digit(text, (value % 10) as u16);
        assert(text@ =~= old(text)@ + decimal(value as nat));
    }
}

/// Appends a truth value as the word `true` or `false`.
pub fn push_truth(text: &mut String, value: bool)
    ensures
        final(text)@ == old(text)@ + truth(value),
{
    if value {
        text.append("true");
    } else {
        text.append("false");
    }
}

/// Appends a word as one character; see [`glyph`].
pub fn push_glyph(text: &mut String, word: Word)
    ensures
        final(text)@ == old(text)@ + glyph(word),
{
    let letters = "0123456789ABCDEFGHIJKLMNOPQRSTUVWXYZabcdefghijklmnopqrstuvwxyz";
    proof {
        reveal_strlit("0123456789ABCDEFGHIJKLMNOPQRSTUVWXYZabcdefghijklmnopqrstuvwxyz");
        reveal_strlit(".");
    }
    if 0x30 <= word && word <= 0x39 {
        let index = (word - 0x30) as usize;
        let letter = letters.substring_char(index, index + 1);
        assert(letter@ =~= glyph(word));
        text.append(letter);
    } else if 0x41 <= word && word <= 0x5A {
        let index = (word - 0x41 + 10) as usize;
        let letter = letters.substring_char(index, index + 1);
        assert(letter@ =~= glyph(word));
        text.append(letter);
    } else if 0x61 <= word && word <= 0x7A {
        let index = (word - 0x61 + 36) as usize;
        let letter = letters.substring_char(index, index + 1);
        assert(letter@ =~= glyph(word));
        text.append(letter);
    } else {
        assert("."@ =~= glyph(word));
        text.append(".");
    }
}

} // verus!
