//! Number formatting used by the textual forms of keys and errors.

use vstd::prelude::*;

verus! {

/// The lowercase hexadecimal digit for `d` (`d < 16`).
pub open spec fn hex_digit(d: nat) -> Seq<char> {
    if d == 0 { "0"@ }
    else if d == 1 { "1"@ }
    else if d == 2 { "2"@ }
    else if d == 3 { "3"@ }
    else if d == 4 { "4"@ }
    else if d == 5 { "5"@ }
    else if d == 6 { "6"@ }
    else if d == 7 { "7"@ }
    else if d == 8 { "8"@ }
    else if d == 9 { "9"@ }
    else if d == 10 { "a"@ }
    else if d == 11 { "b"@ }
    else if d == 12 { "c"@ }
    else if d == 13 { "d"@ }
    else if d == 14 { "e"@ }
    else { "f"@ }
}

/// `n` in lowercase hexadecimal, without leading zeros (`0` is `"0"`).
pub open spec fn hex_digits(n: nat) -> Seq<char>
    decreases n,
{
    if n < 16 {
        hex_digit(n)
    } else {
        hex_digits(n / 16) + hex_digit(n % 16)
    }
}

/// `n` in lowercase hexadecimal, zero-padded to at least two digits.
pub open spec fn hex_text(n: nat) -> Seq<char> {
    if n < 16 {
        "0"@ + hex_digit(n)
    } else {
        hex_digits(n)
    }
}

/// The decimal digit for `d` (`d < 10`).
pub open spec fn decimal_digit(d: nat) -> Seq<char> {
    hex_digit(d)
}

/// `n` in decimal, without leading zeros (`0` is `"0"`).
pub open spec fn decimal_text(n: nat) -> Seq<char>
    decreases n,
{
    if n < 10 {
        decimal_digit(n)
    } else {
        decimal_text(n / 10) + decimal_digit(n % 10)
    }
}

fn digit_str(d: u16) -> (s: &'static str)
    requires
        d < 16,
    ensures
        s@ == hex_digit(d as nat),
{
    match d {
        0 => "0",
        1 => "1",
        2 => "2",
        3 => "3",
        4 => "4",
        5 => "5",
        6 => "6",
        7 => "7",
        8 => "8",
        9 => "9",
        10 => "a",
        11 => "b",
        12 => "c",
        13 => "d",
        14 => "e",
        _ => "f",
    }
}

fn append_hex_digits(out: &mut String, n: u16)
    ensures
        final(out)@ == old(out)@ + hex_digits(n as nat),
    decreases n,
{
    if n >= 16 {
        append_hex_digits(out, n / 16);
    }
    out.append(digit_str(n % 16));
}

/// Append `n` in lowercase hexadecimal, zero-padded to two digits.
pub fn append_hex(out: &mut String, n: u16)
    ensures
        final(out)@ == old(out)@ + hex_text(n as nat),
{
    if n < 16 {
        out.append("0");
    }
    append_hex_digits(out, n);
}

/// Append `n` in decimal.
pub fn append_decimal(out: &mut String, n: u64)
    ensures
        final(out)@ == old(out)@ + decimal_text(n as nat),
    decreases n,
{
    if n >= 10 {
        append_decimal(out, n / 10);
    }
    out.append(digit_str((n % 10) as u16));
}

} // verus!
