//! How numbers and hashes read in an error message: a number in decimal, a
//! hash by its first and its last two bytes in hexadecimal.

use crate::uint::{checked_div, checked_mul, saturating_sub, two_pow_64, U256};
use vstd::prelude::*;
use vstd::string::StringExecFns;

verus! {

/// The character of a decimal digit.
pub open spec fn decimal_digit(digit: nat) -> Seq<char> {
    if digit == 0 {
        "0"@
    } else if digit == 1 {
        "1"@
    } else if digit == 2 {
        "2"@
    } else if digit == 3 {
        "3"@
    } else if digit == 4 {
        "4"@
    } else if digit == 5 {
        "5"@
    } else if digit == 6 {
        "6"@
    } else if digit == 7 {
        "7"@
    } else if digit == 8 {
        "8"@
    } else {
        "9"@
    }
}

/// The decimal digits of a number, without leading zero.
pub open spec fn decimal(value: nat) -> Seq<char>
    decreases value,
{
    if value < 10 {
        decimal_digit(value)
    } else {
        decimal(value / 10) + decimal_digit(value % 10)
    }
}

/// The character of a hexadecimal digit, in lower case.
pub open spec fn hex_digit(digit: nat) -> Seq<char> {
    if digit < 10 {
        decimal_digit(digit)
    } else if digit == 10 {
        "a"@
    } else if digit == 11 {
        "b"@
    } else if digit == 12 {
        "c"@
    } else if digit == 13 {
        "d"@
    } else if digit == 14 {
        "e"@
    } else {
        "f"@
    }
}

/// The two hexadecimal digits of a byte.
pub open spec fn hex_byte(byte: u8) -> Seq<char> {
    hex_digit((byte / 16) as nat) + hex_digit((byte % 16) as nat)
}

/// A hash as it reads in a message: `0x`, its first two bytes, an ellipsis,
/// and its last two bytes.
pub open spec fn short_hex(bytes: Seq<u8>) -> Seq<char> {
    "0x"@ + hex_byte(bytes[0]) + hex_byte(bytes[1]) + "…"@ + hex_byte(bytes[bytes.len() - 2])
        + hex_byte(bytes[bytes.len() - 1])
}

/// The text of a decimal digit.
fn decimal_digit_text(digit: u64) -> (r: &'static str)
    requires
        digit < 10,
    ensures
        r@ == decimal_digit(digit as nat),
{
    if digit == 0 {
        "0"
    } else if digit == 1 {
        "1"
    } else if digit == 2 {
        "2"
    } else if digit == 3 {
        "3"
    } else if digit == 4 {
        "4"
    } else if digit == 5 {
        "5"
    } else if digit == 6 {
        "6"
    } else if digit == 7 {
        "7"
    } else if digit == 8 {
        "8"
    } else {
        "9"
    }
}

/// The text of a hexadecimal digit.
fn hex_digit_text(digit: u8) -> (r: &'static str)
    requires
        digit < 16,
    ensures
        r@ == hex_digit(digit as nat),
{
    if digit < 10 {
        decimal_digit_text(digit as u64)
    } else if digit == 10 {
        "a"
    } else if digit == 11 {
        "b"
    } else if digit == 12 {
        "c"
    } else if digit == 13 {
        "d"
    } else if digit == 14 {
        "e"
    } else {
        "f"
    }
}

/// Writes a 64-bit number in decimal.
pub fn word_to_decimal(value: u64) -> (r: String)
    ensures
        r@ == decimal(value as nat),
    decreases value,
{
    if value < 10 {
        String::from_str(decimal_digit_text(value))
    } else {
        let mut digits = word_to_decimal(value / 10);
        digits.append(decimal_digit_text(value % 10));
        digits
    }
}

/// Writes a 256-bit number in decimal.
pub fn uint_to_decimal(value: &U256) -> (r: String)
    ensures
        r@ == decimal(value@),
    decreases value@,
{
    if value.fits_u64() && value.low_u64() < 10 {
        proof {
            vstd::arithmetic::div_mod::lemma_small_mod(value@, two_pow_64());
        }
        String::from_str(decimal_digit_text(value.low_u64()))
    } else {
        proof {
            if value@ < two_pow_64() {
                vstd::arithmetic::div_mod::lemma_small_mod(value@, two_pow_64());
            }
            crate::uint::lemma_u256_bound(*value);
        }
        let ten = U256::from_u64(10);
        let quotient = checked_div(value, &ten).unwrap();
        let rounded = checked_mul(&quotient, &ten).unwrap();
        let last = saturating_sub(value, &rounded);
        proof {
            vstd::arithmetic::div_mod::lemma_small_mod(last@, two_pow_64());
        }
        let mut digits = uint_to_decimal(&quotient);
        digits.append(decimal_digit_text(last.low_u64()));
        digits
    }
}

/// Writes the two hexadecimal digits of a byte at the end of a text.
fn append_hex_byte(out: &mut String, byte: u8)
    ensures
        final(out)@ == old(out)@ + hex_byte(byte),
{
    out.append(hex_digit_text(byte / 16));
    out.append(hex_digit_text(byte % 16));
    assert(out@ =~= old(out)@ + hex_byte(byte));
}

/// Writes a hash of at least two bytes by its ends.
pub fn bytes_to_short_hex(bytes: &[u8]) -> (r: String)
    requires
        bytes@.len() >= 2,
    ensures
        r@ == short_hex(bytes@),
{
    let length = bytes.len();
    let mut out = String::from_str("0x");
    append_hex_byte(&mut out, bytes[0]);
    append_hex_byte(&mut out, bytes[1]);
    out.append("…");
    append_hex_byte(&mut out, bytes[length - 2]);
    append_hex_byte(&mut out, bytes[length - 1]);
    out
}

} // verus!
