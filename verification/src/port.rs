//! Parsing of the advertised port from its textual configuration value.
//!
//! A port is written as an optional `+` followed by one or more decimal
//! digits, and must fit in 32 bits. Anything else, including surrounding
//! whitespace, a minus sign or an empty string, is rejected.

use crate::error::ConfigurationError;
use vstd::prelude::*;
use vstd::string::*;

verus! {

/// ASCII code of `0`.
pub const ASCII_ZERO: u8 = 48;

/// ASCII code of `9`.
pub const ASCII_NINE: u8 = 57;

/// ASCII code of `+`.
pub const ASCII_PLUS: u8 = 43;

/// Whether `b` is the ASCII code of a decimal digit.
pub open spec fn is_decimal_digit(b: u8) -> bool {
    ASCII_ZERO <= b <= ASCII_NINE
}

/// The number a digit stands for; zero for any other byte.
pub open spec fn digit_value(b: u8) -> nat {
    if is_decimal_digit(b) {
        (b - ASCII_ZERO) as nat
    } else {
        0
    }
}

/// The number written by `digits` in base ten, most significant digit first.
pub open spec fn decimal_value(digits: Seq<u8>) -> nat
    decreases digits.len(),
{
    if digits.len() == 0 {
        0
    } else {
        decimal_value(digits.drop_last()) * 10 + digit_value(digits.last())
    }
}

/// `text` without its leading `+`, if it has one.
pub open spec fn unsigned_part(text: Seq<u8>) -> Seq<u8> {
    if text.len() > 0 && text[0] == ASCII_PLUS {
        text.subrange(1, text.len() as int)
    } else {
        text
    }
}

/// Whether every byte of `digits` is a decimal digit.
pub open spec fn all_decimal_digits(digits: Seq<u8>) -> bool {
    forall|i: int| 0 <= i < digits.len() ==> is_decimal_digit(#[trigger] digits[i])
}

/// Whether `text` denotes a port: at least one digit after the optional
/// sign, nothing but digits, and a value of at most `u32::MAX`.
pub open spec fn is_port_text(text: Seq<u8>) -> bool {
    let digits = unsigned_part(text);
    &&& digits.len() > 0
    &&& all_decimal_digits(digits)
    &&& decimal_value(digits) <= u32::MAX
}

/// What parsing `text` yields: the port it denotes, or nothing.
pub open spec fn port_of(text: Seq<u8>) -> Option<u32> {
    if is_port_text(text) {
        Some(decimal_value(unsigned_part(text)) as u32)
    } else {
        None
    }
}

/// A number never gets smaller when more digits are appended to it.
pub proof fn lemma_decimal_value_prefix(digits: Seq<u8>, k: int)
    requires
        0 <= k <= digits.len(),
    ensures
        decimal_value(digits.subrange(0, k)) <= decimal_value(digits),
    decreases digits.len(),
{
    if k == digits.len() {
        assert(digits.subrange(0, k) =~= digits);
    } else {
        lemma_decimal_value_prefix(digits.drop_last(), k);
        assert(digits.drop_last().subrange(0, k) =~= digits.subrange(0, k));
    }
}

/// Parses a port from the bytes of its textual form.
pub fn port_from_bytes(bytes: &[u8]) -> (r: Option<u32>)
    ensures
        r == port_of(bytes@),
{
    let n: usize = bytes.len();
    if n == 0 {
        return None;
    }
    let start: usize = if bytes[0] == ASCII_PLUS {
        1
    } else {
        0
    };
    if start == n {
        return None;
    }
    let ghost digits = unsigned_part(bytes@);
    assert(digits =~= bytes@.subrange(start as int, n as int));
    let mut value: u64 = 0;
    let mut i: usize = start;
    while i < n
        invariant
            start <= i <= n,
            n == bytes@.len(),
            digits == unsigned_part(bytes@),
            digits == bytes@.subrange(start as int, n as int),
            all_decimal_digits(digits.subrange(0, i - start)),
            value == decimal_value(digits.subrange(0, i - start)),
            value <= u32::MAX,
        decreases n - i,
    {
        let b: u8 = bytes[i];
        let ghost k = i - start;
        assert(digits[k] == b);
        assert(digits.subrange(0, k + 1).drop_last() =~= digits.subrange(0, k));
        assert(digits.subrange(0, k + 1).last() == b);
        if b < ASCII_ZERO || b > ASCII_NINE {
            return None;
        }
        let next: u64 = value * 10 + (b - ASCII_ZERO) as u64;
        if next > u32::MAX as u64 {
            proof {
                lemma_decimal_value_prefix(digits, k + 1);
            }
            return None;
        }
        value = next;
        i += 1;
    }
    assert(digits.subrange(0, n - start) =~= digits);
    Some(value as u32)
}

/// Parses the advertised port from its configuration text.
///
/// Succeeds exactly on the texts that [`is_port_text`] accepts; every other
/// text is a configuration error, reported before anything else happens.
pub fn parse_port(text: &str) -> (r: Result<u32, ConfigurationError>)
    ensures
        r == match port_of(text.spec_bytes()) {
            Some(port) => Ok::<u32, ConfigurationError>(port),
            None => Err(ConfigurationError::InvalidPort),
        },
{
    match port_from_bytes(text.as_bytes()) {
        Some(port) => Ok(port),
        None => Err(ConfigurationError::InvalidPort),
    }
}

} // verus!
