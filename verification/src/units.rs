//! Rates in readable units: bytes scaled by powers of 1024, bits by the bit
//! value of the same scale, both printed with two decimals.

use vstd::prelude::*;

verus! {

/// The scale at which a byte count reads between 1 and 1024: 0 for plain
/// bytes, then 1 to 4 for K, M, G and T.
pub open spec fn scale_of(bytes: u64) -> nat {
    if bytes < 0x400 {
        0
    } else if bytes < 0x10_0000 {
        1
    } else if bytes < 0x4000_0000 {
        2
    } else if bytes < 0x100_0000_0000 {
        3
    } else {
        4
    }
}

/// Bytes in one unit of the given scale: 1024 to the power of `scale`.
pub open spec fn unit_size(scale: nat) -> nat {
    if scale == 0 {
        1
    } else if scale == 1 {
        0x400
    } else if scale == 2 {
        0x10_0000
    } else if scale == 3 {
        0x4000_0000
    } else {
        0x100_0000_0000
    }
}

/// The letter that stands before `B` at the given scale. Plain bytes carry
/// the NUL character in its place.
pub open spec fn byte_unit(scale: nat) -> char {
    if scale == 0 {
        '\0'
    } else if scale == 1 {
        'K'
    } else if scale == 2 {
        'M'
    } else if scale == 3 {
        'G'
    } else {
        'T'
    }
}

/// Whether the bit value of a rate, eight times its scaled byte value, is
/// above 1000 and therefore shown in the next unit up, divided by 1000.
pub open spec fn bits_carry(bytes: u64) -> bool {
    8 * bytes > 1000 * unit_size(scale_of(bytes))
}

/// The letter that stands before `b`: the byte unit in lower case, or the
/// next metric unit up where the bit value carried.
pub open spec fn bit_unit(scale: nat, carried: bool) -> char {
    let step = if carried {
        scale + 1
    } else {
        scale
    };
    if step == 0 {
        '\0'
    } else if step == 1 {
        'k'
    } else if step == 2 {
        'm'
    } else if step == 3 {
        'g'
    } else if step == 4 {
        't'
    } else {
        'p'
    }
}

/// The integer nearest to `num / den`, the even one of two that are equally
/// near.
pub open spec fn rounded(num: nat, den: nat) -> nat
    recommends
        den > 0,
{
    let below = num / den;
    let rest = num % den;
    if 2 * rest < den {
        below
    } else if 2 * rest > den {
        below + 1
    } else if below % 2 == 0 {
        below
    } else {
        below + 1
    }
}

/// The character of a decimal digit.
pub open spec fn digit(d: nat) -> char
    recommends
        d < 10,
{
    if d == 0 {
        '0'
    } else if d == 1 {
        '1'
    } else if d == 2 {
        '2'
    } else if d == 3 {
        '3'
    } else if d == 4 {
        '4'
    } else if d == 5 {
        '5'
    } else if d == 6 {
        '6'
    } else if d == 7 {
        '7'
    } else if d == 8 {
        '8'
    } else {
        '9'
    }
}

/// A number in decimal, without leading zeros.
pub open spec fn decimal(n: nat) -> Seq<char>
    decreases n,
{
    if n < 10 {
        seq![digit(n)]
    } else {
        decimal(n / 10).push(digit(n % 10))
    }
}

/// A count of hundredths as a number with two decimals.
pub open spec fn two_decimals(hundredths: nat) -> Seq<char> {
    decimal(hundredths / 100) + seq!['.', digit(hundredths / 10 % 10), digit(hundredths % 10)]
}

/// A rate in bytes: the count divided by the size of its unit, rounded to
/// two decimals, then a space, the unit letter and `B`.
pub open spec fn byte_text(bytes: u64) -> Seq<char> {
    let scale = scale_of(bytes);
    two_decimals(rounded(100 * bytes as nat, unit_size(scale))) + seq![' ', byte_unit(scale), 'B']
}

/// A rate in bits: eight times the scaled byte value, divided by 1000 where
/// it carried, rounded to two decimals, then a space, the unit letter and
/// `b`.
pub open spec fn bit_text(bytes: u64) -> Seq<char> {
    let scale = scale_of(bytes);
    let carried = bits_carry(bytes);
    let den = if carried {
        1000 * unit_size(scale)
    } else {
        unit_size(scale)
    };
    two_decimals(rounded(800 * bytes as nat, den)) + seq![' ', bit_unit(scale, carried), 'b']
}

/// Finds the scale of a byte count.
fn scale_for(bytes: u64) -> (scale: u8)
    ensures
        scale == scale_of(bytes),
{
    if bytes < 0x400 {
        0
    } else if bytes < 0x10_0000 {
        1
    } else if bytes < 0x4000_0000 {
        2
    } else if bytes < 0x100_0000_0000 {
        3
    } else {
        4
    }
}

/// The size of the unit of a scale, in bytes.
fn size_of_unit(scale: u8) -> (size: u128)
    ensures
        size == unit_size(scale as nat),
{
    if scale == 0 {
        1
    } else if scale == 1 {
        0x400
    } else if scale == 2 {
        0x10_0000
    } else if scale == 3 {
        0x4000_0000
    } else {
        0x100_0000_0000
    }
}

/// What follows a byte value: a space and its unit.
fn byte_suffix(scale: u8) -> (suffix: &'static str)
    ensures
        suffix@ == seq![' ', byte_unit(scale as nat), 'B'],
{
    proof {
        reveal_strlit(" \0B");
        reveal_strlit(" KB");
        reveal_strlit(" MB");
        reveal_strlit(" GB");
        reveal_strlit(" TB");
    }
    if scale == 0 {
        " \0B"
    } else if scale == 1 {
        " KB"
    } else if scale == 2 {
        " MB"
    } else if scale == 3 {
        " GB"
    } else {
        " TB"
    }
}

/// What follows a bit value: a space and its unit.
fn bit_suffix(scale: u8, carried: bool) -> (suffix: &'static str)
    requires
        scale <= 4,
    ensures
        suffix@ == seq![' ', bit_unit(scale as nat, carried), 'b'],
{
    proof {
        reveal_strlit(" \0b");
        reveal_strlit(" kb");
        reveal_strlit(" mb");
        reveal_strlit(" gb");
        reveal_strlit(" tb");
        reveal_strlit(" pb");
    }
    let step: u8 = if carried {
        scale + 1
    } else {
        scale
    };
    if step == 0 {
        " \0b"
    } else if step == 1 {
        " kb"
    } else if step == 2 {
        " mb"
    } else if step == 3 {
        " gb"
    } else if step == 4 {
        " tb"
    } else {
        " pb"
    }
}

/// A decimal digit as text.
fn digit_text(d: u8) -> (text: &'static str)
    requires
        d < 10,
    ensures
        text@ == seq![digit(d as nat)],
{
    proof {
        reveal_strlit("0");
        reveal_strlit("1");
        reveal_strlit("2");
        reveal_strlit("3");
        reveal_strlit("4");
        reveal_strlit("5");
        reveal_strlit("6");
        reveal_strlit("7");
        reveal_strlit("8");
        reveal_strlit("9");
    }
    if d == 0 {
        "0"
    } else if d == 1 {
        "1"
    } else if d == 2 {
        "2"
    } else if d == 3 {
        "3"
    } else if d == 4 {
        "4"
    } else if d == 5 {
        "5"
    } else if d == 6 {
        "6"
    } else if d == 7 {
        "7"
    } else if d == 8 {
        "8"
    } else {
        "9"
    }
}

/// Divides and rounds to the nearest integer, halves to the even one.
fn round_half_even(num: u128, den: u128) -> (nearest: u128)
    requires
        den > 0,
        2 * den <= u128::MAX,
    ensures
        nearest == rounded(num as nat, den as nat),
{
    let below: u128 = num / den;
    let rest: u128 = num % den;
    if 2 * rest < den {
        below
    } else if 2 * rest > den {
        assert(below < u128::MAX) by (nonlinear_arith)
            requires
                below == num / den,
                den > 1,
                num <= u128::MAX,
        ;
        below + 1
    } else if below % 2 == 0 {
        below
    } else {
        assert(below < u128::MAX) by (nonlinear_arith)
            requires
                below == num / den,
                den > 1,
                num <= u128::MAX,
        ;
        below + 1
    }
}

/// Appends a number in decimal to `text`.
fn append_decimal(text: String, n: u128) -> (out: String)
    ensures
        out@ == text@ + decimal(n as nat),
    decreases n,
{
    if n < 10 {
        text.concat(digit_text(n as u8))
    } else {
        let front = append_decimal(text, n / 10);
        front.concat(digit_text((n % 10) as u8))
    }
}

/// Writes out a count of hundredths with two decimals, then `suffix`.
fn render_two_decimals(hundredths: u128, suffix: &str) -> (text: String)
    ensures
        text@ == two_decimals(hundredths as nat) + suffix@,
{
    proof {
        reveal_strlit(".");
    }
    let whole = append_decimal(String::new(), hundredths / 100);
    let pointed = whole.concat(".");
    let tenths = pointed.concat(digit_text((hundredths / 10 % 10) as u8));
    let full = tenths.concat(digit_text((hundredths % 10) as u8));
    full.concat(suffix)
}

/// Puts a rate of `bytes` bytes per second into readable form, first in
/// bytes and then in bits.
pub fn get_appropriate_byte_unit(bytes: u64) -> (texts: (String, String))
    ensures
        texts.0@ == byte_text(bytes),
        texts.1@ == bit_text(bytes),
{
    let scale: u8 = scale_for(bytes);
    let size: u128 = size_of_unit(scale);
    let count: u128 = bytes as u128;
    let byte_hundredths: u128 = round_half_even(100 * count, size);
    let carried: bool = 8 * count > 1000 * size;
    let den: u128 = if carried {
        1000 * size
    } else {
        size
    };
    let bit_hundredths: u128 = round_half_even(800 * count, den);
    (
        render_two_decimals(byte_hundredths, byte_suffix(scale)),
        render_two_decimals(bit_hundredths, bit_suffix(scale, carried)),
    )
}

} // verus!
