//! Decimal parsing of unsigned integers, as `str::parse` does it for
//! `u16` and `u64`: an optional leading `+`, then one or more ASCII digits,
//! scanned from the left; the first problem met decides the error.
use vstd::prelude::*;
use vstd::string::*;
use crate::amqp::{spec_decimal_text, spec_digit_char};

verus! {

/// Why a text is not an unsigned integer in range.
#[derive(Clone, Copy, Debug, PartialEq, Eq, Structural)]
pub enum IntErrorKind {
    /// The text is empty.
    Empty,
    /// A character that is not a decimal digit was met (or the text is a lone sign).
    InvalidDigit,
    /// The digits read so far already exceed the largest value allowed.
    PosOverflow,
}

impl IntErrorKind {
    /// The description that the standard library gives of this kind of error.
    pub fn description(&self) -> (res: &'static str)
        ensures
            res@ == spec_int_error_description(*self),
    {
        match self {
            IntErrorKind::Empty => "cannot parse integer from empty string",
            IntErrorKind::InvalidDigit => "invalid digit found in string",
            IntErrorKind::PosOverflow => "number too large to fit in target type",
        }
    }
}

pub open spec fn spec_int_error_description(kind: IntErrorKind) -> Seq<char> {
    match kind {
        IntErrorKind::Empty => "cannot parse integer from empty string"@,
        IntErrorKind::InvalidDigit => "invalid digit found in string"@,
        IntErrorKind::PosOverflow => "number too large to fit in target type"@,
    }
}

pub open spec fn is_decimal_digit(c: char) -> bool {
    '0' <= c && c <= '9'
}

pub open spec fn digit_value(c: char) -> int {
    (c as int) - ('0' as int)
}

/// The number that a run of decimal digits denotes.
pub open spec fn decimal_value(digits: Seq<char>) -> int
    decreases digits.len(),
{
    if digits.len() == 0 {
        0
    } else {
        decimal_value(digits.drop_last()) * 10 + digit_value(digits.last())
    }
}

/// The digits of an unsigned number: the text without its leading `+`, if any.
pub open spec fn unsigned_digits(s: Seq<char>) -> Seq<char> {
    if s.len() > 0 && s[0] == '+' {
        s.drop_first()
    } else {
        s
    }
}

/// The first problem met when the digits are read from the left and at most
/// `max` is allowed: a non-digit, or a prefix whose value exceeds `max`.
pub open spec fn first_problem(digits: Seq<char>, max: int) -> Option<IntErrorKind>
    decreases digits.len(),
{
    if digits.len() == 0 {
        None
    } else {
        match first_problem(digits.drop_last(), max) {
            Some(kind) => Some(kind),
            None => if !is_decimal_digit(digits.last()) {
                Some(IntErrorKind::InvalidDigit)
            } else if decimal_value(digits) > max {
                Some(IntErrorKind::PosOverflow)
            } else {
                None
            },
        }
    }
}

/// The result of reading `s` as an unsigned integer no larger than `max`.
pub open spec fn spec_parse_unsigned(s: Seq<char>, max: int) -> Result<int, IntErrorKind> {
    if s.len() == 0 {
        Err(IntErrorKind::Empty)
    } else if s.len() == 1 && s[0] == '+' {
        Err(IntErrorKind::InvalidDigit)
    } else {
        match first_problem(unsigned_digits(s), max) {
            Some(kind) => Err(kind),
            None => Ok(decimal_value(unsigned_digits(s))),
        }
    }
}

/// A problem in a prefix is the first problem of the whole run.
pub proof fn lemma_first_problem_prefix(digits: Seq<char>, j: int, max: int)
    requires
        0 <= j <= digits.len(),
        first_problem(digits.take(j), max) is Some,
    ensures
        first_problem(digits, max) == first_problem(digits.take(j), max),
    decreases digits.len(),
{
    if j == digits.len() {
        assert(digits.take(j) =~= digits);
    } else {
        assert(digits.drop_last().take(j) =~= digits.take(j));
        lemma_first_problem_prefix(digits.drop_last(), j, max);
    }
}

proof fn lemma_digit_char(d: int)
    requires
        0 <= d < 10,
    ensures
        is_decimal_digit(spec_digit_char(d)),
        digit_value(spec_digit_char(d)) == d,
        spec_digit_char(d) != '+',
{
    let digits = seq!['0', '1', '2', '3', '4', '5', '6', '7', '8', '9'];
    assert(spec_digit_char(d) == digits[d]);
}

proof fn lemma_decimal_text_digits(n: nat, max: int)
    requires
        n <= max,
    ensures
        spec_decimal_text(n).len() >= 1,
        spec_decimal_text(n)[0] != '+',
        decimal_value(spec_decimal_text(n)) == n,
        first_problem(spec_decimal_text(n), max) is None,
    decreases n,
{
    let t = spec_decimal_text(n);
    if n < 10 {
        lemma_digit_char(n as int);
        assert(t.drop_last() =~= Seq::<char>::empty());
        assert(t.last() == spec_digit_char(n as int));
        assert(decimal_value(Seq::<char>::empty()) == 0);
        assert(first_problem(Seq::<char>::empty(), max) is None);
        assert(decimal_value(t) == n);
    } else {
        lemma_decimal_text_digits(n / 10, max);
        lemma_digit_char((n % 10) as int);
        assert(t.drop_last() =~= spec_decimal_text(n / 10));
        assert(t.last() == spec_digit_char((n % 10) as int));
        assert(t[0] == spec_decimal_text(n / 10)[0]);
        assert((n / 10) * 10 + n % 10 == n);
        assert(decimal_value(t) == n);
    }
}

/// The decimal text of any number up to `max` reads as that number.
pub proof fn law_parse_reads_decimal_text(n: nat, max: int)
    requires
        n <= max,
    ensures
        spec_parse_unsigned(spec_decimal_text(n), max) == Ok::<int, IntErrorKind>(n as int),
{
    lemma_decimal_text_digits(n, max);
}

/// Reads `s` as an unsigned integer no larger than `max`.
pub fn parse_unsigned(s: &str, max: u64) -> (res: Result<u64, IntErrorKind>)
    ensures
        match spec_parse_unsigned(s@, max as int) {
            Ok(v) => res == Ok::<u64, IntErrorKind>(v as u64) && 0 <= v <= max,
            Err(kind) => res == Err::<u64, IntErrorKind>(kind),
        },
{
    let n = s.unicode_len();
    if n == 0 {
        return Err(IntErrorKind::Empty);
    }
    let first = s.get_char(0);
    if n == 1 && first == '+' {
        return Err(IntErrorKind::InvalidDigit);
    }
    let start: usize = if first == '+' { 1 } else { 0 };
    let ghost digits = unsigned_digits(s@);
    assert(digits =~= s@.subrange(start as int, n as int));
    let mut acc: u64 = 0;
    let mut i: usize = start;
    assert(digits.take(0) =~= Seq::<char>::empty());
    while i < n
        invariant
            start <= i <= n,
            n == s@.len(),
            n > 0,
            !(n == 1 && s@[0] == '+'),
            digits == unsigned_digits(s@),
            digits == s@.subrange(start as int, n as int),
            first_problem(digits.take(i - start), max as int) is None,
            acc as int == decimal_value(digits.take(i - start)),
            acc <= max,
        decreases n - i,
    {
        let c = s.get_char(i);
        let ghost k: int = i - start;
        assert(digits.take(k + 1).drop_last() =~= digits.take(k));
        assert(digits.take(k + 1).last() == c);
        if !('0' <= c && c <= '9') {
            assert(first_problem(digits.take(k + 1), max as int) == Some(IntErrorKind::InvalidDigit));
            proof {
                lemma_first_problem_prefix(digits, k + 1, max as int);
            }
            return Err(IntErrorKind::InvalidDigit);
        }
        let d: u64 = (c as u64) - ('0' as u64);
        let next: u128 = (acc as u128) * 10 + (d as u128);
        if next > (max as u128) {
            assert(decimal_value(digits.take(k + 1)) == next);
            assert(first_problem(digits.take(k + 1), max as int) == Some(IntErrorKind::PosOverflow));
            proof {
                lemma_first_problem_prefix(digits, k + 1, max as int);
            }
            return Err(IntErrorKind::PosOverflow);
        }
        acc = next as u64;
        i = i + 1;
    }
    assert(digits.take(n - start) =~= digits);
    Ok(acc)
}

} // verus!
