//! Small text routines that the rest of the library shares.

use vstd::prelude::*;
use vstd::string::StrSliceExecFns;

verus! {

/// The character that stands for the decimal digit `d`.
pub open spec fn digit_char(d: int) -> char {
    ('0' as int + d) as char
}

/// The decimal digits of a natural number, most significant first, with no
/// leading zero but for zero itself.
pub open spec fn decimal_nat(n: nat) -> Seq<char>
    decreases n,
{
    if n < 10 {
        seq![digit_char(n as int)]
    } else {
        decimal_nat(n / 10).push(digit_char((n % 10) as int))
    }
}

/// The decimal text of an integer: a minus sign for a negative number, then
/// the digits of its magnitude.
pub open spec fn decimal_text(n: int) -> Seq<char> {
    if n < 0 {
        seq!['-'] + decimal_nat((-n) as nat)
    } else {
        decimal_nat(n as nat)
    }
}

/// Whether `c` is one of the ten decimal digits.
pub open spec fn is_decimal_digit(c: char) -> bool {
    '0' as int <= c as int && c as int <= '9' as int
}

/// The number that a run of decimal digits stands for.
pub open spec fn digits_value(digits: Seq<char>) -> nat
    decreases digits.len(),
{
    if digits.len() == 0 {
        0
    } else {
        digits_value(digits.drop_last()) * 10 + (digits.last() as int - '0' as int) as nat
    }
}

/// The number that a text stands for when it is read as an unsigned decimal
/// of at most `max`: an optional `+`, then one or more decimal digits and
/// nothing else. A text of any other shape, or a number over `max`, stands for
/// nothing.
pub open spec fn unsigned_decimal(text: Seq<char>, max: nat) -> Option<nat> {
    let digits = if text.len() > 0 && text[0] == '+' {
        text.drop_first()
    } else {
        text
    };
    if digits.len() > 0 && (forall|i: int| 0 <= i < digits.len() ==> is_decimal_digit(#[trigger] digits[i]))
        && digits_value(digits) <= max {
        Some(digits_value(digits))
    } else {
        None
    }
}

/// The truth value that a text stands for: `true` and `false` stand for
/// themselves, and no other text stands for one.
pub open spec fn truth_value(text: Seq<char>) -> Option<bool> {
    if text == "true"@ {
        Some(true)
    } else if text == "false"@ {
        Some(false)
    } else {
        None
    }
}

/// `str::parse::<u64>` reads an optional `+` followed by decimal digits, and
/// fails on an empty text, on any other character and on a number over
/// `u64::MAX`.
#[verifier::external_body]
pub(crate) fn parse_u64(text: &str) -> (n: Option<u64>)
    ensures
        match n {
            Some(n) => unsigned_decimal(text@, u64::MAX as nat) == Some(n as nat),
            None => unsigned_decimal(text@, u64::MAX as nat) is None,
        },
{
    text.parse::<u64>().ok()
}

/// `str::parse::<u32>` reads an optional `+` followed by decimal digits, and
/// fails on an empty text, on any other character and on a number over
/// `u32::MAX`.
#[verifier::external_body]
pub(crate) fn parse_u32(text: &str) -> (n: Option<u32>)
    ensures
        match n {
            Some(n) => unsigned_decimal(text@, u32::MAX as nat) == Some(n as nat),
            None => unsigned_decimal(text@, u32::MAX as nat) is None,
        },
{
    text.parse::<u32>().ok()
}

/// `str::parse::<bool>` accepts the two texts `true` and `false` and fails on
/// every other.
#[verifier::external_body]
pub(crate) fn parse_bool(text: &str) -> (b: Option<bool>)
    ensures
        b == truth_value(text@),
{
    text.parse::<bool>().ok()
}

/// The text inside an optional string.
pub open spec fn text_view(text: Option<String>) -> Option<Seq<char>> {
    match text {
        Some(t) => Some(t@),
        None => None,
    }
}

/// `String::push` appends one character to the end of the string.
pub assume_specification[ String::push ](s: &mut String, ch: char)
    ensures
        final(s)@ == old(s)@.push(ch),
;

fn digit(d: u32) -> (c: char)
    requires
        d < 10,
    ensures
        c == digit_char(d as int),
{
    // 48 is the code of the character `0`.
    (48u8 + d as u8) as char
}

fn push_decimal(s: &mut String, n: u32)
    ensures
        final(s)@ == old(s)@ + decimal_nat(n as nat),
    decreases n,
{
    if n >= 10 {
        push_decimal(s, n / 10);
    }
    s.push(digit(n % 10));
}

/// Writes a 32-bit integer in decimal.
pub fn decimal_string(n: i32) -> (s: String)
    ensures
        s@ == decimal_text(n as int),
{
    let mut s = String::new();
    if n < 0 {
        s.push('-');
        let magnitude: u32 = (-(n as i64)) as u32;
        push_decimal(&mut s, magnitude);
    } else {
        push_decimal(&mut s, n as u32);
    }
    s
}

/// Whether `text` begins with `prefix`.
pub open spec fn begins_with(text: Seq<char>, prefix: Seq<char>) -> bool {
    prefix.len() <= text.len() && text.subrange(0, prefix.len() as int) == prefix
}

/// Whether `text` begins with `prefix`.
pub fn starts_with(text: &str, prefix: &str) -> (begins: bool)
    ensures
        begins == begins_with(text@, prefix@),
{
    let wanted = prefix.unicode_len();
    if wanted > text.unicode_len() {
        return false;
    }
    let mut i: usize = 0;
    while i < wanted
        invariant
            i <= wanted,
            wanted == prefix@.len(),
            wanted <= text@.len(),
            forall|j: int| 0 <= j < i ==> text@[j] == prefix@[j],
        decreases wanted - i,
    {
        if text.get_char(i) != prefix.get_char(i) {
            assert(text@.subrange(0, prefix@.len() as int)[i as int] != prefix@[i as int]);
            return false;
        }
        i = i + 1;
    }
    assert(text@.subrange(0, prefix@.len() as int) == prefix@);
    true
}

} // verus!
