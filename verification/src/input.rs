//! Reading the operator's answers: a line of text to an hour or a minute.

use vstd::prelude::*;
use vstd::string::*;
use crate::schedule::ScheduleError;
use crate::text::{trim, trimmed};

verus! {

/// The value of a decimal digit; `None` for any other character.
pub open spec fn digit_spec(c: char) -> Option<int> {
    if 48 <= c as u32 <= 57 {
        Some(c as u32 as int - 48)
    } else {
        None
    }
}

/// The number that a run of decimal digits writes, the empty run writing
/// zero; `None` where a character is no digit.
pub open spec fn number_spec(digits: Seq<char>) -> Option<int>
    decreases digits.len(),
{
    if digits.len() == 0 {
        Some(0int)
    } else {
        match (number_spec(digits.drop_last()), digit_spec(digits.last())) {
            (Some(high), Some(low)) => Some(high * 10 + low),
            _ => None,
        }
    }
}

/// The text without one leading plus sign, if it has one.
pub open spec fn unsigned_part(text: Seq<char>) -> Seq<char> {
    if text.len() > 0 && text[0] == '+' {
        text.subrange(1, text.len() as int)
    } else {
        text
    }
}

/// The number that `text` writes in decimal: an optional plus sign, then
/// at least one digit and nothing else, the value within 32 bits.
pub open spec fn decimal_spec(text: Seq<char>) -> Option<u32> {
    let digits = unsigned_part(text);
    match number_spec(digits) {
        Some(value) => if digits.len() > 0 && value <= u32::MAX {
            Some(value as u32)
        } else {
            None
        },
        None => None,
    }
}

/// A run of digits writes no less than any of its beginnings does, and a
/// beginning that is no number makes the whole no number.
pub proof fn lemma_number_prefix(digits: Seq<char>, k: int)
    requires
        0 <= k <= digits.len(),
    ensures
        number_spec(digits) matches Some(whole) ==> number_spec(digits.subrange(0, k)) matches Some(
            part,
        ) && 0 <= part <= whole,
    decreases digits.len(),
{
    if k == digits.len() {
        assert(digits.subrange(0, k) =~= digits);
        if digits.len() > 0 {
            lemma_number_prefix(digits.drop_last(), 0);
        }
    } else {
        lemma_number_prefix(digits.drop_last(), k);
        assert(digits.drop_last().subrange(0, k) =~= digits.subrange(0, k));
    }
}

/// Reads a decimal number of at most 32 bits.
pub fn parse_decimal(text: &str) -> (r: Option<u32>)
    ensures
        r == decimal_spec(text@),
{
    let n = text.unicode_len();
    let start: usize = if n > 0 && text.get_char(0) == '+' {
        1
    } else {
        0
    };
    if start == n {
        return None;
    }
    let ghost digits = unsigned_part(text@);
    let mut value: u64 = 0;
    let mut i: usize = start;
    assert(digits.subrange(0, 0) =~= Seq::<char>::empty());
    while i < n
        invariant
            start <= i <= n,
            n == text@.len(),
            digits == unsigned_part(text@),
            digits.len() == n - start,
            number_spec(digits.subrange(0, i - start)) == Some(value as int),
            value <= u32::MAX,
        decreases n - i,
    {
        let c = text.get_char(i);
        let code: u32 = c as u32;
        proof {
            let upto = digits.subrange(0, i - start + 1);
            assert(upto.drop_last() =~= digits.subrange(0, i - start));
            assert(upto.last() == c);
            lemma_number_prefix(digits, i - start + 1);
        }
        if code < 48 || code > 57 {
            return None;
        }
        let next: u64 = value * 10 + (code - 48) as u64;
        if next > 0xffff_ffff {
            return None;
        }
        value = next;
        i += 1;
    }
    assert(digits.subrange(0, n - start) =~= digits);
    Some(value as u32)
}

/// What an answer means as an hour.
pub open spec fn hour_spec(answer: Seq<char>) -> Result<u32, ScheduleError> {
    match decimal_spec(trimmed(answer)) {
        None => Err(ScheduleError::NotANumber),
        Some(hour) => if hour > 23 {
            Err(ScheduleError::HourOutOfRange)
        } else {
            Ok(hour)
        },
    }
}

/// What an answer means as a minute.
pub open spec fn minute_spec(answer: Seq<char>) -> Result<u32, ScheduleError> {
    match decimal_spec(trimmed(answer)) {
        None => Err(ScheduleError::NotANumber),
        Some(minute) => if minute > 59 {
            Err(ScheduleError::MinuteOutOfRange)
        } else {
            Ok(minute)
        },
    }
}

/// Reads an hour of the day from the operator's answer: the answer
/// without the whitespace around it must be a number from 0 to 23.
pub fn read_hour(answer: &str) -> (r: Result<u32, ScheduleError>)
    ensures
        r == hour_spec(answer@),
{
    match parse_decimal(trim(answer)) {
        None => Err(ScheduleError::NotANumber),
        Some(hour) => crate::schedule::check_hour(hour),
    }
}

/// Reads a minute of the hour from the operator's answer: the answer
/// without the whitespace around it must be a number from 0 to 59.
pub fn read_minute(answer: &str) -> (r: Result<u32, ScheduleError>)
    ensures
        r == minute_spec(answer@),
{
    match parse_decimal(trim(answer)) {
        None => Err(ScheduleError::NotANumber),
        Some(minute) => crate::schedule::check_minute(minute),
    }
}

} // verus!
