//! Hexadecimal digits and the two nibbles of a byte.

use vstd::prelude::*;

verus! {

/// The value of a hexadecimal digit as it is typed: `0`-`9` and lower-case
/// `a`-`f`. No other character is one.
pub open spec fn hex_value(c: char) -> Option<u8> {
    if '0' <= c && c <= '9' {
        Some((c as u8 - '0' as u8) as u8)
    } else if 'a' <= c && c <= 'f' {
        Some((c as u8 - 'a' as u8 + 10) as u8)
    } else {
        None
    }
}

/// The character that shows the nibble `n`.
pub open spec fn hex_char(n: u8) -> char
    recommends
        n < 16,
{
    if n < 10 {
        ('0' as u8 + n) as char
    } else {
        ('a' as u8 + n - 10) as char
    }
}

/// The byte whose high nibble is `high` and whose low nibble is `low`.
/// Bits of `high` above the fourth are shifted out.
pub open spec fn compose(high: u8, low: u8) -> u8 {
    (high << 4) | low
}

/// Whether `byte` is a printable ASCII character: not a control character
/// and below 0x80.
pub open spec fn printable(byte: u8) -> bool {
    0x20 <= byte <= 0x7e
}

pub fn parse_hex_digit(c: char) -> (value: Option<u8>)
    ensures
        value == hex_value(c),
        value matches Some(n) ==> n < 16,
{
    if c >= '0' && c <= '9' {
        Some(c as u8 - 0x30u8)
    } else if c >= 'a' && c <= 'f' {
        Some(c as u8 - 0x61u8 + 10)
    } else {
        None
    }
}

pub fn hex_digit(n: u8) -> (c: char)
    requires
        n < 16,
    ensures
        c == hex_char(n),
{
    if n < 10 {
        (0x30u8 + n) as char
    } else {
        (0x61u8 + n - 10) as char
    }
}

pub fn compose_byte(high: u8, low: u8) -> (byte: u8)
    ensures
        byte == compose(high, low),
{
    (high << 4) | low
}

/// The character for `byte` in the text pane, where it has one.
pub fn ascii_glyph(byte: u8) -> (glyph: Option<char>)
    ensures
        glyph == (if printable(byte) {
            Some(byte as char)
        } else {
            None
        }),
{
    if byte >= 0x20 && byte <= 0x7e {
        Some(byte as char)
    } else {
        None
    }
}

/// Two nibbles compose to sixteen times the first plus the second, and the
/// byte gives both back.
pub proof fn lemma_compose_nibbles(high: u8, low: u8)
    requires
        high < 16,
        low < 16,
    ensures
        compose(high, low) == 16 * high + low,
        compose(high, low) >> 4 == high,
        compose(high, low) & 0xf == low,
        compose(0, low) == low,
{
    assert(((high << 4) | low) == 16 * high + low) by (bit_vector)
        requires
            high < 16,
            low < 16,
    ;
    assert(((high << 4) | low) >> 4 == high) by (bit_vector)
        requires
            high < 16,
            low < 16,
    ;
    assert(((high << 4) | low) & 0xf == low) by (bit_vector)
        requires
            high < 16,
            low < 16,
    ;
    assert(((0u8 << 4) | low) == low) by (bit_vector);
}

/// Every digit has a value below sixteen, and is shown by that value's
/// character.
pub proof fn lemma_hex_value_range(c: char)
    ensures
        hex_value(c) matches Some(n) ==> n < 16 && hex_char(n) == c,
{
}

} // verus!
