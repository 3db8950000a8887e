//! Colour keys: a pixel's colour written as `#rrggbb` in lower-case hex.

use vstd::prelude::*;
use vstd::string::*;

verus! {

/// The lower-case hex digit of `n`, for `n` below sixteen.
pub open spec fn hex_digit(n: int) -> char {
    if n == 0 {
        '0'
    } else if n == 1 {
        '1'
    } else if n == 2 {
        '2'
    } else if n == 3 {
        '3'
    } else if n == 4 {
        '4'
    } else if n == 5 {
        '5'
    } else if n == 6 {
        '6'
    } else if n == 7 {
        '7'
    } else if n == 8 {
        '8'
    } else if n == 9 {
        '9'
    } else if n == 10 {
        'a'
    } else if n == 11 {
        'b'
    } else if n == 12 {
        'c'
    } else if n == 13 {
        'd'
    } else if n == 14 {
        'e'
    } else {
        'f'
    }
}

/// The two hex digits of a byte, the high one first.
pub open spec fn hex_byte(v: u8) -> Seq<char> {
    seq![hex_digit(v as int / 16), hex_digit(v as int % 16)]
}

/// The key of the colour with the channels `r`, `g` and `b`: a hash sign
/// and two hex digits for each channel.
pub open spec fn spec_color_hex(r: u8, g: u8, b: u8) -> Seq<char> {
    seq!['#'] + hex_byte(r) + hex_byte(g) + hex_byte(b)
}

fn hex_digit_str(n: u8) -> (digit: &'static str)
    requires
        n < 16,
    ensures
        digit@ == seq![hex_digit(n as int)],
{
    proof {
        reveal_strlit("0");
        reveal_strlit("1");
        reveal_strlit("2");
        reveal_strlit("3");
        reveal_strlit("4");
        reveal_strlit("5");
        reveal_strlit("6");
        reveal_strlit("7");
        reveal_strlit("8");
        reveal_strlit("9");
        reveal_strlit("a");
        reveal_strlit("b");
        reveal_strlit("c");
        reveal_strlit("d");
        reveal_strlit("e");
        reveal_strlit("f");
    }
    let digit = if n == 0 {
        "0"
    } else if n == 1 {
        "1"
    } else if n == 2 {
        "2"
    } else if n == 3 {
        "3"
    } else if n == 4 {
        "4"
    } else if n == 5 {
        "5"
    } else if n == 6 {
        "6"
    } else if n == 7 {
        "7"
    } else if n == 8 {
        "8"
    } else if n == 9 {
        "9"
    } else if n == 10 {
        "a"
    } else if n == 11 {
        "b"
    } else if n == 12 {
        "c"
    } else if n == 13 {
        "d"
    } else if n == 14 {
        "e"
    } else {
        "f"
    };
    assert(digit@ =~= seq![hex_digit(n as int)]);
    digit
}

fn push_hex_byte(text: &mut String, v: u8)
    ensures
        final(text)@ == old(text)@ + hex_byte(v),
{
    text.append(hex_digit_str(v / 16));
    text.append(hex_digit_str(v % 16));
    assert(text@ =~= old(text)@ + hex_byte(v));
}

/// Writes a colour as the key under which a section's legend lists it.
pub fn color_hex(r: u8, g: u8, b: u8) -> (hex: String)
    ensures
        hex@ == spec_color_hex(r, g, b),
        hex@.len() == 7,
{
    proof {
        reveal_strlit("#");
    }
    let mut hex = String::new();
    hex.append("#");
    push_hex_byte(&mut hex, r);
    push_hex_byte(&mut hex, g);
    push_hex_byte(&mut hex, b);
    assert(hex@ =~= spec_color_hex(r, g, b));
    hex
}

} // verus!
