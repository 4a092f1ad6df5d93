//! Decimal numbers and truth values as text: reading a port number and a
//! boolean setting, and writing a number back.

use crate::text::{chars_of, same_text};
use vstd::prelude::*;

verus! {

/// Why a text could not be read as the value a setting needs.
#[derive(Clone, Copy, Debug, PartialEq, Eq, Structural)]
pub enum ValueFault {
    /// The text is empty.
    Empty,
    /// A number was expected and the text holds something that is no
    /// decimal digit, or only a sign.
    InvalidDigit,
    /// The number does not lie between 0 and 65535.
    OutOfRange,
    /// A truth value was expected and the text is neither `true` nor `false`.
    NotBoolean,
}

/// Whether `c` is one of the decimal digits `0` to `9`.
pub open spec fn is_digit(c: char) -> bool {
    0x30 <= c as u32 <= 0x39
}

/// The number a decimal digit stands for.
pub open spec fn digit_value(c: char) -> nat {
    (c as u32 - 0x30) as nat
}

/// The character that writes the digit `d`.
pub open spec fn digit_char(d: nat) -> char {
    (d + 0x30) as u8 as char
}

/// The number that a run of decimal digits denotes.
pub open spec fn decimal_value(digits: Seq<char>) -> nat
    decreases digits.len(),
{
    if digits.len() == 0 {
        0
    } else {
        decimal_value(digits.drop_last()) * 10 + digit_value(digits.last())
    }
}

/// Whether every character of `s` is a decimal digit.
pub open spec fn all_digits(s: Seq<char>) -> bool {
    forall|i: int| 0 <= i < s.len() ==> is_digit(#[trigger] s[i])
}

/// `s` without a leading plus sign, if it has one.
pub open spec fn without_sign(s: Seq<char>) -> Seq<char> {
    if s.len() > 0 && s.first() == '+' {
        s.drop_first()
    } else {
        s
    }
}

/// What a text denotes as an unsigned sixteen-bit number: an optional plus
/// sign followed by one or more decimal digits whose value is at most 65535.
pub open spec fn u16_of(s: Seq<char>) -> Result<u16, ValueFault> {
    let digits = without_sign(s);
    if s.len() == 0 {
        Err(ValueFault::Empty)
    } else if digits.len() == 0 || !all_digits(digits) {
        Err(ValueFault::InvalidDigit)
    } else if decimal_value(digits) > 0xFFFF {
        Err(ValueFault::OutOfRange)
    } else {
        Ok(decimal_value(digits) as u16)
    }
}

/// What a text denotes as a truth value: exactly `true` or `false`.
pub open spec fn bool_of(s: Seq<char>) -> Result<bool, ValueFault> {
    if s == "true"@ {
        Ok(true)
    } else if s == "false"@ {
        Ok(false)
    } else if s.len() == 0 {
        Err(ValueFault::Empty)
    } else {
        Err(ValueFault::NotBoolean)
    }
}

/// The decimal digits of `n`, most significant first, without leading zeros.
pub open spec fn decimal(n: nat) -> Seq<char>
    decreases n,
{
    if n < 10 {
        seq![digit_char(n)]
    } else {
        decimal(n / 10).push(digit_char(n % 10))
    }
}

/// The digits of a number are digits, and denote it.
pub proof fn lemma_decimal_digits(n: nat)
    ensures
        decimal(n).len() > 0,
        all_digits(decimal(n)),
        decimal_value(decimal(n)) == n,
    decreases n,
{
    if n < 10 {
        assert(decimal_value(decimal(n).drop_last()) == 0);
    } else {
        lemma_decimal_digits(n / 10);
        assert(decimal(n).drop_last() =~= decimal(n / 10));
    }
}

/// Writing a number and reading it back gives the number.
pub proof fn lemma_decimal_round_trip(n: u16)
    ensures
        u16_of(decimal(n as nat)) == Ok::<u16, ValueFault>(n),
{
    lemma_decimal_digits(n as nat);
}

/// Reads `s` as an unsigned sixteen-bit number.
pub fn parse_u16(s: &str) -> (r: Result<u16, ValueFault>)
    ensures
        r == u16_of(s@),
{
    let cs = chars_of(s);
    let n: usize = cs.len();
    if n == 0 {
        return Err(ValueFault::Empty);
    }
    let first: usize = if cs[0] == '+' {
        1
    } else {
        0
    };
    let ghost digits = without_sign(s@);
    if first == n {
        return Err(ValueFault::InvalidDigit);
    }
    let mut value: u32 = 0;
    let mut over: bool = false;
    let mut i: usize = first;
    while i < n
        invariant
            first <= i <= n,
            n == cs.len(),
            cs@ == s@,
            digits == s@.skip(first as int),
            digits == without_sign(s@),
            all_digits(digits.take(i - first)),
            value <= 0xFFFF,
            !over ==> value == decimal_value(digits.take(i - first)),
            over ==> decimal_value(digits.take(i - first)) > 0xFFFF,
        decreases n - i,
    {
        let c: u32 = cs[i] as u32;
        let ghost upto = digits.take(i - first + 1);
        assert(upto.drop_last() =~= digits.take(i - first));
        if c < 0x30 || c > 0x39 {
            assert(!is_digit(digits[i - first]));
            return Err(ValueFault::InvalidDigit);
        }
        assert forall|k: int| 0 <= k < upto.len() implies is_digit(#[trigger] upto[k]) by {
            if k < upto.len() - 1 {
                assert(upto[k] == digits.take(i - first)[k]);
            }
        }
        if !over {
            let next: u32 = value * 10 + (c - 0x30);
            if next > 0xFFFF {
                over = true;
            } else {
                value = next;
            }
        }
        i += 1;
    }
    assert(digits.take(n - first) =~= digits);
    if over {
        Err(ValueFault::OutOfRange)
    } else {
        Ok(value as u16)
    }
}

/// Reads `s` as a truth value.
pub fn parse_bool(s: &str) -> (r: Result<bool, ValueFault>)
    ensures
        r == bool_of(s@),
{
    if same_text(s, "true") {
        Ok(true)
    } else if same_text(s, "false") {
        Ok(false)
    } else if s.unicode_len() == 0 {
        Err(ValueFault::Empty)
    } else {
        Err(ValueFault::NotBoolean)
    }
}

/// The text of one decimal digit.
fn digit_text(d: u16) -> (r: &'static str)
    requires
        d < 10,
    ensures
        r@ == seq![digit_char(d as nat)],
{
    proof {
        reveal_strlit("0");
        reveal_strlit("1");
        reveal_strlit("2");
        reveal_strlit("3");
        reveal_strlit("4");
        reveal_strlit("5");
        reveal_strlit("6");
        reveal_strlit("7");
        reveal_strlit("8");
        reveal_strlit("9");
    }
    if d == 0 {
        "0"
    } else if d == 1 {
        "1"
    } else if d == 2 {
        "2"
    } else if d == 3 {
        "3"
    } else if d == 4 {
        "4"
    } else if d == 5 {
        "5"
    } else if d == 6 {
        "6"
    } else if d == 7 {
        "7"
    } else if d == 8 {
        "8"
    } else {
        "9"
    }
}

/// Writes `n` in decimal digits, without leading zeros.
pub fn to_decimal(n: u16) -> (r: String)
    ensures
        r@ == decimal(n as nat),
    decreases n,
{
    if n < 10 {
        String::from_str(digit_text(n))
    } else {
        let mut out = to_decimal(n / 10);
        out.append(digit_text(n % 10));
        out
    }
}

} // verus!
