//! Numbers as text and text as numbers, for escape sequences, notices and
//! what the user types; and the comparison of two texts.

use vstd::prelude::*;
use vstd::string::StringExecFns;

verus! {

/// `String::push`: appends one character.
pub assume_specification[ String::push ](s: &mut String, ch: char)
    ensures
        final(s)@ == old(s)@.push(ch),
;

/// The character of a decimal digit.
pub open spec fn digit_char(d: nat) -> char
    recommends
        d < 10,
{
    ((48 + d) as u8) as char
}

/// The decimal digits of `n`, most significant first, without leading zeros.
pub open spec fn decimal_chars(n: nat) -> Seq<char>
    decreases n,
{
    if n < 10 {
        seq![digit_char(n)]
    } else {
        decimal_chars(n / 10).push(digit_char(n % 10))
    }
}

/// Appends the decimal digits of `n` to `out`.
pub fn push_decimal(out: &mut String, n: u64)
    ensures
        final(out)@ == old(out)@ + decimal_chars(n as nat),
    decreases n,
{
    if n >= 10 {
        push_decimal(out, n / 10);
    }
    let d: u8 = (n % 10) as u8;
    out.push((48u8 + d) as char);
}

/// The decimal digits of `n` as a string.
pub fn decimal(n: u64) -> (s: String)
    ensures
        s@ == decimal_chars(n as nat),
{
    let mut s = String::new();
    push_decimal(&mut s, n);
    s
}

/// Whether `c` is one of the ten decimal digits.
pub open spec fn is_digit(c: char) -> bool {
    48 <= c as u32 <= 57
}

/// Whether `cs` is made of decimal digits only.
pub open spec fn all_digits(cs: Seq<char>) -> bool {
    forall|i: int| 0 <= i < cs.len() ==> is_digit(#[trigger] cs[i])
}

/// The number that a sequence of decimal digits writes.
pub open spec fn digits_value(cs: Seq<char>) -> nat
    decreases cs.len(),
{
    if cs.len() == 0 {
        0
    } else {
        (digits_value(cs.drop_last()) * 10 + (cs.last() as u32 - 48)) as nat
    }
}

/// The digits of a written number: the text without a leading plus sign.
pub open spec fn number_body(cs: Seq<char>) -> Seq<char> {
    if cs.len() > 0 && cs[0] == '+' {
        cs.drop_first()
    } else {
        cs
    }
}

/// The number that a text writes: one or more decimal digits, with or without
/// a plus sign before them. Any other text writes no number.
pub open spec fn number_of(cs: Seq<char>) -> Option<nat> {
    let body = number_body(cs);
    if body.len() > 0 && all_digits(body) {
        Some(digits_value(body))
    } else {
        None
    }
}

/// More digits do not write a smaller number.
pub proof fn lemma_digits_value_grows(cs: Seq<char>, k: int)
    requires
        0 <= k <= cs.len(),
        all_digits(cs),
    ensures
        digits_value(cs.take(k)) <= digits_value(cs),
    decreases cs.len() - k,
{
    if k == cs.len() {
        assert(cs.take(k) =~= cs);
    } else {
        lemma_digits_value_grows(cs, k + 1);
        let longer = cs.take(k + 1);
        assert(longer.drop_last() =~= cs.take(k));
    }
}

/// Reads a number as [`number_of`] defines it. A number that is too large
/// for `usize` is not read.
pub fn parse_number(text: &str) -> (number: Option<usize>)
    ensures
        number == match number_of(text@) {
            Some(n) => if n <= usize::MAX {
                Some(n as usize)
            } else {
                None
            },
            None => None,
        },
{
    broadcast use vstd::string::group_string_axioms;

    let ghost body = number_body(text@);
    let ghost skip: int = text@.len() - body.len();
    let mut value: usize = 0;
    let ghost mut count: int = 0;
    let mut any: bool = false;
    let mut first: bool = true;
    for c in it: text.chars()
        invariant
            it.seq() == text@,
            body == number_body(text@),
            skip == text@.len() - body.len(),
            first == (it.index() == 0),
            it.index() <= skip ==> count == 0 && value == 0,
            it.index() >= skip ==> count == it.index() - skip,
            0 <= count <= body.len(),
            any == (count > 0),
            all_digits(body.take(count)),
            value == digits_value(body.take(count)),
    {
        let was_first = first;
        first = false;
        let code = c as u32;
        if !(was_first && c == '+') {
            proof {
                assert(body[count] == c);
            }
            if code < 48 || code > 57 {
                return None;
            }
            let digit = (code - 48) as usize;
            proof {
                let longer = body.take(count + 1);
                assert(longer.drop_last() =~= body.take(count));
                if all_digits(body) {
                    lemma_digits_value_grows(body, count + 1);
                }
            }
            if value > (usize::MAX - digit) / 10 {
                return None;
            }
            value = value * 10 + digit;
            any = true;
            proof {
                count = count + 1;
            }
        }
    }
    proof {
        assert(body.take(count) =~= body);
    }
    if !any {
        None
    } else {
        Some(value)
    }
}

/// Whether two texts hold the same characters.
pub fn same_text(a: &str, b: &str) -> (same: bool)
    ensures
        same == (a@ == b@),
{
    let left = String::from_str(a);
    let right = String::from_str(b);
    left == right
}

} // verus!
