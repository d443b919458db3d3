//! Decimal text of 32-bit integers: the form in which a token carries its
//! subject.

use vstd::prelude::*;
use vstd::std_specs::iter::IteratorSpec;
use vstd::string::StringExecFns;

verus! {

/// Whether `c` is one of `0` to `9`.
pub open spec fn is_digit(c: char) -> bool {
    '0' <= c && c <= '9'
}

/// The value of a digit.
pub open spec fn digit_value(c: char) -> int {
    c as u32 as int - 48
}

/// The digit of a value below ten.
pub open spec fn digit_char(d: int) -> char {
    (d + 48) as u8 as char
}

/// Whether every character is a digit.
pub open spec fn all_digits(text: Seq<char>) -> bool {
    forall|i: int| 0 <= i < text.len() ==> is_digit(#[trigger] text[i])
}

/// The number that a run of digits denotes, the first digit weighing most.
pub open spec fn digits_value(digits: Seq<char>) -> int
    decreases digits.len(),
{
    if digits.len() == 0 {
        0
    } else {
        10 * digits_value(digits.drop_last()) + digit_value(digits.last())
    }
}

/// The digits after an optional leading sign.
pub open spec fn unsigned_part(text: Seq<char>) -> Seq<char> {
    if text.len() > 0 && (text[0] == '-' || text[0] == '+') {
        text.subrange(1, text.len() as int)
    } else {
        text
    }
}

/// The integer that a text denotes: an optional `+` or `-`, then one digit
/// or more and nothing else.
pub open spec fn signed_value(text: Seq<char>) -> Option<int> {
    let digits = unsigned_part(text);
    if digits.len() == 0 || !all_digits(digits) {
        None
    } else if text[0] == '-' {
        Some(-digits_value(digits))
    } else {
        Some(digits_value(digits))
    }
}

/// The 32-bit integer that a text denotes, if it denotes one in range.
pub open spec fn spec_parse_i32(text: Seq<char>) -> Option<i32> {
    match signed_value(text) {
        Some(v) => if i32::MIN <= v <= i32::MAX {
            Some(v as i32)
        } else {
            None
        },
        None => None,
    }
}

/// The digits of a natural number, without leading zeros.
pub open spec fn digits_of(n: nat) -> Seq<char>
    decreases n,
{
    if n < 10 {
        seq![digit_char(n as int)]
    } else {
        digits_of(n / 10).push(digit_char((n % 10) as int))
    }
}

/// The decimal text of an integer: a `-` for a negative one, then its digits.
pub open spec fn spec_decimal(value: int) -> Seq<char> {
    if value < 0 {
        seq!['-'] + digits_of((-value) as nat)
    } else {
        digits_of(value as nat)
    }
}

/// A run of digits denotes at least what any of its beginnings denotes.
proof fn lemma_digits_value_grows(digits: Seq<char>, k: int)
    requires
        all_digits(digits),
        0 <= k <= digits.len(),
    ensures
        0 <= digits_value(digits.take(k)) <= digits_value(digits),
    decreases digits.len() - k,
{
    lemma_digits_value_nonnegative(digits.take(k));
    if k < digits.len() {
        lemma_digits_value_grows(digits, k + 1);
        let longer = digits.take(k + 1);
        assert(longer.drop_last() == digits.take(k));
    } else {
        assert(digits.take(k) == digits);
    }
}

proof fn lemma_digits_value_nonnegative(digits: Seq<char>)
    requires
        all_digits(digits),
    ensures
        0 <= digits_value(digits),
    decreases digits.len(),
{
    if digits.len() > 0 {
        lemma_digits_value_nonnegative(digits.drop_last());
    }
}

/// Reads a 32-bit integer from its decimal text.
pub fn parse_i32(text: &str) -> (value: Option<i32>)
    ensures
        value == spec_parse_i32(text@),
{
    let mut rest = text.chars();
    let first = match rest.next() {
        Some(c) => c,
        None => {
            return None;
        },
    };
    let negative = first == '-';
    let signed = first == '-' || first == '+';
    let ghost digits = unsigned_part(text@);
    let mut total: i64 = 0;
    let mut any_digit = false;
    let ghost mut seen: int = 0;
    if !signed {
        if !('0' <= first && first <= '9') {
            return None;
        }
        total = (first as u32 - 48) as i64;
        any_digit = true;
        proof {
            seen = 1;
            assert(digits_value(digits.take(1).drop_last()) == 0);
        }
    }
    loop
        invariant
            digits == unsigned_part(text@),
            text@.len() > 0,
            negative == (text@[0] == '-'),
            0 <= seen <= digits.len(),
            any_digit == (seen > 0),
            rest.remaining() == digits.skip(seen),
            all_digits(digits.take(seen)),
            total == digits_value(digits.take(seen)),
            0 <= total <= 2147483648,
        decreases digits.len() - seen,
    {
        let next = rest.next();
        match next {
            None => {
                proof {
                    assert(digits.take(seen) == digits);
                }
                if !any_digit {
                    return None;
                }
                if negative {
                    return Some((-total) as i32);
                }
                if total > 2147483647 {
                    return None;
                }
                return Some(total as i32);
            },
            Some(c) => {
                if !('0' <= c && c <= '9') {
                    return None;
                }
                let grown = total * 10 + (c as u32 - 48) as i64;
                proof {
                    let longer = digits.take(seen + 1);
                    assert(longer.drop_last() == digits.take(seen));
                }
                if grown > 2147483648 {
                    proof {
                        if all_digits(digits) {
                            lemma_digits_value_grows(digits, seen + 1);
                        }
                    }
                    return None;
                }
                total = grown;
                any_digit = true;
                proof {
                    seen = seen + 1;
                }
            },
        }
    }
}

/// The text of one digit.
fn digit_text(d: u32) -> (text: &'static str)
    requires
        d < 10,
    ensures
        text@ == seq![digit_char(d as int)],
{
    proof {
        reveal_strlit("0");
        reveal_strlit("1");
        reveal_strlit("2");
        reveal_strlit("3");
        reveal_strlit("4");
        reveal_strlit("5");
        reveal_strlit("6");
        reveal_strlit("7");
        reveal_strlit("8");
        reveal_strlit("9");
    }
    let text = match d {
        0 => "0",
        1 => "1",
        2 => "2",
        3 => "3",
        4 => "4",
        5 => "5",
        6 => "6",
        7 => "7",
        8 => "8",
        _ => "9",
    };
    text
}

/// Appends the digits of `n` to `out`.
fn push_digits(out: &mut String, n: u32)
    ensures
        final(out)@ == old(out)@ + digits_of(n as nat),
    decreases n,
{
    if n >= 10 {
        push_digits(out, n / 10);
    }
    out.append(digit_text(n % 10));
}

/// Writes a 32-bit integer as decimal text.
pub fn decimal(value: i32) -> (text: String)
    ensures
        text@ == spec_decimal(value as int),
{
    let mut text = String::new();
    if value < 0 {
        proof {
            reveal_strlit("-");
        }
        text.append("-");
        push_digits(&mut text, (-(value as i64)) as u32);
    } else {
        push_digits(&mut text, value as u32);
    }
    text
}

/// The digits of a number are digits, at least one, and denote the number.
pub proof fn lemma_digits_of(n: nat)
    ensures
        digits_of(n).len() > 0,
        all_digits(digits_of(n)),
        digits_value(digits_of(n)) == n,
    decreases n,
{
    let text = digits_of(n);
    if n < 10 {
        assert(digits_value(text.drop_last()) == 0);
    } else {
        lemma_digits_of(n / 10);
        assert(text.drop_last() =~= digits_of(n / 10));
    }
}

/// Reading the decimal text of a 32-bit integer gives the integer back.
pub proof fn lemma_parse_decimal(value: i32)
    ensures
        spec_parse_i32(spec_decimal(value as int)) == Some(value),
{
    let text = spec_decimal(value as int);
    if value < 0 {
        let digits = digits_of((-value) as nat);
        lemma_digits_of((-value) as nat);
        assert(unsigned_part(text) =~= digits);
    } else {
        lemma_digits_of(value as nat);
    }
}

} // verus!
