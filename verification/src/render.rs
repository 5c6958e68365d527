//! Textual renderings of numeric codes: fixed-width hexadecimal (as carried by
//! diagnostic output) and plain decimal.

use vstd::prelude::*;

verus! {

/// The lower-case hexadecimal digit for a value below sixteen.
pub open spec fn spec_hex_digit_lower(n: u32) -> char {
    if n == 0 {
        '0'
    } else if n == 1 {
        '1'
    } else if n == 2 {
        '2'
    } else if n == 3 {
        '3'
    } else if n == 4 {
        '4'
    } else if n == 5 {
        '5'
    } else if n == 6 {
        '6'
    } else if n == 7 {
        '7'
    } else if n == 8 {
        '8'
    } else if n == 9 {
        '9'
    } else if n == 10 {
        'a'
    } else if n == 11 {
        'b'
    } else if n == 12 {
        'c'
    } else if n == 13 {
        'd'
    } else if n == 14 {
        'e'
    } else {
        'f'
    }
}

/// The upper-case hexadecimal digit for a value below sixteen.
pub open spec fn spec_hex_digit_upper(n: u32) -> char {
    if n == 10 {
        'A'
    } else if n == 11 {
        'B'
    } else if n == 12 {
        'C'
    } else if n == 13 {
        'D'
    } else if n == 14 {
        'E'
    } else if n == 15 {
        'F'
    } else {
        spec_hex_digit_lower(n)
    }
}

/// A 32-bit value in `0x`-prefixed, zero-padded, eight-digit lower-case
/// hexadecimal: the canonical diagnostic form of a status or space code.
pub open spec fn spec_hex_u32_lower(v: u32) -> Seq<char> {
    seq![
        '0',
        'x',
        spec_hex_digit_lower(v / 0x10000000 % 16),
        spec_hex_digit_lower(v / 0x1000000 % 16),
        spec_hex_digit_lower(v / 0x100000 % 16),
        spec_hex_digit_lower(v / 0x10000 % 16),
        spec_hex_digit_lower(v / 0x1000 % 16),
        spec_hex_digit_lower(v / 0x100 % 16),
        spec_hex_digit_lower(v / 0x10 % 16),
        spec_hex_digit_lower(v % 16),
    ]
}

/// The upper-case form of [`spec_hex_u32_lower`]; the `0x` prefix stays lower
/// case, as `{:#X}` formatting renders it.
pub open spec fn spec_hex_u32_upper(v: u32) -> Seq<char> {
    seq![
        '0',
        'x',
        spec_hex_digit_upper(v / 0x10000000 % 16),
        spec_hex_digit_upper(v / 0x1000000 % 16),
        spec_hex_digit_upper(v / 0x100000 % 16),
        spec_hex_digit_upper(v / 0x10000 % 16),
        spec_hex_digit_upper(v / 0x1000 % 16),
        spec_hex_digit_upper(v / 0x100 % 16),
        spec_hex_digit_upper(v / 0x10 % 16),
        spec_hex_digit_upper(v % 16),
    ]
}

/// Lower-case hexadecimal digit as a one-character string slice.
fn hex_digit_lower(n: u32) -> (s: &'static str)
    requires
        n < 16,
    ensures
        s@ == seq![spec_hex_digit_lower(n)],
{
    proof {
        reveal_strlit("0");
        reveal_strlit("1");
        reveal_strlit("2");
        reveal_strlit("3");
        reveal_strlit("4");
        reveal_strlit("5");
        reveal_strlit("6");
        reveal_strlit("7");
        reveal_strlit("8");
        reveal_strlit("9");
        reveal_strlit("a");
        reveal_strlit("b");
        reveal_strlit("c");
        reveal_strlit("d");
        reveal_strlit("e");
        reveal_strlit("f");
    }
    let s: &'static str = match n {
        0 => "0",
        1 => "1",
        2 => "2",
        3 => "3",
        4 => "4",
        5 => "5",
        6 => "6",
        7 => "7",
        8 => "8",
        9 => "9",
        10 => "a",
        11 => "b",
        12 => "c",
        13 => "d",
        14 => "e",
        _ => "f",
    };
    proof {
        assert(s@ =~= seq![spec_hex_digit_lower(n)]);
    }
    s
}

/// Upper-case hexadecimal digit as a one-character string slice.
fn hex_digit_upper(n: u32) -> (s: &'static str)
    requires
        n < 16,
    ensures
        s@ == seq![spec_hex_digit_upper(n)],
{
    proof {
        reveal_strlit("A");
        reveal_strlit("B");
        reveal_strlit("C");
        reveal_strlit("D");
        reveal_strlit("E");
        reveal_strlit("F");
    }
    if n < 10 {
        hex_digit_lower(n)
    } else {
        let s: &'static str = match n {
            10 => "A",
            11 => "B",
            12 => "C",
            13 => "D",
            14 => "E",
            _ => "F",
        };
        proof {
            assert(s@ =~= seq![spec_hex_digit_upper(n)]);
        }
        s
    }
}

/// Renders a 32-bit code as `0x`-prefixed, zero-padded, eight-digit
/// lower-case hexadecimal, ten characters in all regardless of magnitude.
pub fn hex_u32_lower(v: u32) -> (s: String)
    ensures
        s@ == spec_hex_u32_lower(v),
        s@.len() == 10,
{
    let mut s = String::from_str("0x");
    proof {
        reveal_strlit("0x");
    }
    s.append(hex_digit_lower(v / 0x10000000 % 16));
    s.append(hex_digit_lower(v / 0x1000000 % 16));
    s.append(hex_digit_lower(v / 0x100000 % 16));
    s.append(hex_digit_lower(v / 0x10000 % 16));
    s.append(hex_digit_lower(v / 0x1000 % 16));
    s.append(hex_digit_lower(v / 0x100 % 16));
    s.append(hex_digit_lower(v / 0x10 % 16));
    s.append(hex_digit_lower(v % 16));
    proof {
        assert(s@ =~= spec_hex_u32_lower(v));
    }
    s
}

/// Renders a 32-bit code as `0x`-prefixed, zero-padded, eight-digit
/// upper-case hexadecimal, ten characters in all regardless of magnitude.
pub fn hex_u32_upper(v: u32) -> (s: String)
    ensures
        s@ == spec_hex_u32_upper(v),
        s@.len() == 10,
{
    let mut s = String::from_str("0x");
    proof {
        reveal_strlit("0x");
    }
    s.append(hex_digit_upper(v / 0x10000000 % 16));
    s.append(hex_digit_upper(v / 0x1000000 % 16));
    s.append(hex_digit_upper(v / 0x100000 % 16));
    s.append(hex_digit_upper(v / 0x10000 % 16));
    s.append(hex_digit_upper(v / 0x1000 % 16));
    s.append(hex_digit_upper(v / 0x100 % 16));
    s.append(hex_digit_upper(v / 0x10 % 16));
    s.append(hex_digit_upper(v % 16));
    proof {
        assert(s@ =~= spec_hex_u32_upper(v));
    }
    s
}

/// A 16-bit value in `0x`-prefixed, zero-padded, four-digit lower-case
/// hexadecimal.
pub open spec fn spec_hex_u16_lower(v: u16) -> Seq<char> {
    seq![
        '0',
        'x',
        spec_hex_digit_lower(v as u32 / 0x1000 % 16),
        spec_hex_digit_lower(v as u32 / 0x100 % 16),
        spec_hex_digit_lower(v as u32 / 0x10 % 16),
        spec_hex_digit_lower(v as u32 % 16),
    ]
}

/// The upper-case form of [`spec_hex_u16_lower`].
pub open spec fn spec_hex_u16_upper(v: u16) -> Seq<char> {
    seq![
        '0',
        'x',
        spec_hex_digit_upper(v as u32 / 0x1000 % 16),
        spec_hex_digit_upper(v as u32 / 0x100 % 16),
        spec_hex_digit_upper(v as u32 / 0x10 % 16),
        spec_hex_digit_upper(v as u32 % 16),
    ]
}

/// An 8-bit value in `0x`-prefixed, zero-padded, two-digit lower-case
/// hexadecimal.
pub open spec fn spec_hex_u8_lower(v: u8) -> Seq<char> {
    seq![
        '0',
        'x',
        spec_hex_digit_lower(v as u32 / 0x10 % 16),
        spec_hex_digit_lower(v as u32 % 16),
    ]
}

/// The upper-case form of [`spec_hex_u8_lower`].
pub open spec fn spec_hex_u8_upper(v: u8) -> Seq<char> {
    seq![
        '0',
        'x',
        spec_hex_digit_upper(v as u32 / 0x10 % 16),
        spec_hex_digit_upper(v as u32 % 16),
    ]
}

/// Renders a 16-bit value as `0x`-prefixed, zero-padded, four-digit
/// lower-case hexadecimal, six characters in all.
pub fn hex_u16_lower(v: u16) -> (s: String)
    ensures
        s@ == spec_hex_u16_lower(v),
        s@.len() == 6,
{
    let w = v as u32;
    let mut s = String::from_str("0x");
    proof {
        reveal_strlit("0x");
    }
    s.append(hex_digit_lower(w / 0x1000 % 16));
    s.append(hex_digit_lower(w / 0x100 % 16));
    s.append(hex_digit_lower(w / 0x10 % 16));
    s.append(hex_digit_lower(w % 16));
    proof {
        assert(s@ =~= spec_hex_u16_lower(v));
    }
    s
}

/// Renders a 16-bit value as `0x`-prefixed, zero-padded, four-digit
/// upper-case hexadecimal, six characters in all.
pub fn hex_u16_upper(v: u16) -> (s: String)
    ensures
        s@ == spec_hex_u16_upper(v),
        s@.len() == 6,
{
    let w = v as u32;
    let mut s = String::from_str("0x");
    proof {
        reveal_strlit("0x");
    }
    s.append(hex_digit_upper(w / 0x1000 % 16));
    s.append(hex_digit_upper(w / 0x100 % 16));
    s.append(hex_digit_upper(w / 0x10 % 16));
    s.append(hex_digit_upper(w % 16));
    proof {
        assert(s@ =~= spec_hex_u16_upper(v));
    }
    s
}

/// Renders an 8-bit value as `0x`-prefixed, zero-padded, two-digit
/// lower-case hexadecimal, four characters in all.
pub fn hex_u8_lower(v: u8) -> (s: String)
    ensures
        s@ == spec_hex_u8_lower(v),
        s@.len() == 4,
{
    let w = v as u32;
    let mut s = String::from_str("0x");
    proof {
        reveal_strlit("0x");
    }
    s.append(hex_digit_lower(w / 0x10 % 16));
    s.append(hex_digit_lower(w % 16));
    proof {
        assert(s@ =~= spec_hex_u8_lower(v));
    }
    s
}

/// Renders an 8-bit value as `0x`-prefixed, zero-padded, two-digit
/// upper-case hexadecimal, four characters in all.
pub fn hex_u8_upper(v: u8) -> (s: String)
    ensures
        s@ == spec_hex_u8_upper(v),
        s@.len() == 4,
{
    let w = v as u32;
    let mut s = String::from_str("0x");
    proof {
        reveal_strlit("0x");
    }
    s.append(hex_digit_upper(w / 0x10 % 16));
    s.append(hex_digit_upper(w % 16));
    proof {
        assert(s@ =~= spec_hex_u8_upper(v));
    }
    s
}

/// The decimal digit for a value below ten.
pub open spec fn spec_dec_digit(n: nat) -> char {
    spec_hex_digit_lower((n % 10) as u32)
}

/// A natural number in plain decimal, most significant digit first, with no
/// leading zeros (a lone zero renders as `0`).
pub open spec fn spec_dec_nat(n: nat) -> Seq<char>
    decreases n,
{
    if n < 10 {
        seq![spec_dec_digit(n)]
    } else {
        spec_dec_nat(n / 10) + seq![spec_dec_digit(n % 10)]
    }
}

/// Renders a 32-bit value in plain decimal.
pub fn dec_u32(n: u32) -> (s: String)
    ensures
        s@ == spec_dec_nat(n as nat),
    decreases n,
{
    if n < 10 {
        let s = String::from_str(hex_digit_lower(n));
        proof {
            assert(s@ =~= spec_dec_nat(n as nat));
        }
        s
    } else {
        let mut s = dec_u32(n / 10);
        s.append(hex_digit_lower(n % 10));
        proof {
            assert(s@ =~= spec_dec_nat(n as nat));
        }
        s
    }
}

} // verus!
