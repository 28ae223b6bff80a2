//! The diagnostic line for a received byte.
//!
//! A line is eight ASCII characters: the byte as `0x` and two upper-case
//! hexadecimal digits, a space, and the byte as a character between single
//! quotes. A byte that is not a printable ASCII character (a space through a
//! tilde) is shown as a dot. `0x41` gives `0x41 'A'`, `0x07` gives `0x07 '.'`.

use vstd::prelude::*;

verus! {

/// The character that stands for a byte that cannot be printed.
pub const PLACEHOLDER: u8 = 0x2e;

/// Whether `byte` is a printable ASCII character.
pub open spec fn is_printable(byte: u8) -> bool {
    0x20 <= byte <= 0x7e
}

/// The ASCII character for the value `digit` of one hexadecimal digit.
pub open spec fn hex_digit(digit: int) -> u8
    recommends
        0 <= digit < 16,
{
    if digit < 10 {
        (0x30 + digit) as u8
    } else {
        (0x41 + digit - 10) as u8
    }
}

/// The character that shows `byte` between the quotes.
pub open spec fn rendering(byte: u8) -> u8 {
    if is_printable(byte) {
        byte
    } else {
        PLACEHOLDER
    }
}

/// The line for `byte`.
pub open spec fn line_for(byte: u8) -> Seq<u8> {
    seq![
        0x30u8,
        0x78u8,
        hex_digit(byte as int / 16),
        hex_digit(byte as int % 16),
        0x20u8,
        0x27u8,
        rendering(byte),
        0x27u8,
    ]
}

/// Whether `byte` is a printable ASCII character.
pub fn printable(byte: u8) -> (yes: bool)
    ensures
        yes == is_printable(byte),
{
    0x20 <= byte && byte <= 0x7e
}

fn digit_char(digit: u8) -> (c: u8)
    requires
        digit < 16,
    ensures
        c == hex_digit(digit as int),
{
    if digit < 10 {
        0x30 + digit
    } else {
        0x41 + (digit - 10)
    }
}

/// The diagnostic line for a received byte, as ASCII characters.
pub fn received_line(byte: u8) -> (line: [u8; 8])
    ensures
        line@ == line_for(byte),
{
    let high: u8 = byte >> 4;
    let low: u8 = byte & 0x0f;
    assert(byte >> 4 == byte / 16) by (bit_vector);
    assert(byte & 0x0f == byte % 16) by (bit_vector);
    let shown: u8 = if printable(byte) {
        byte
    } else {
        PLACEHOLDER
    };
    let line: [u8; 8] = [
        0x30,
        0x78,
        digit_char(high),
        digit_char(low),
        0x20,
        0x27,
        shown,
        0x27,
    ];
    assert(line@ =~= line_for(byte));
    line
}

} // verus!
