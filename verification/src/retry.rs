//! The rate-limit policy: which HTTP statuses end an exchange, which one is
//! retried, and how long to wait before the next attempt.

use vstd::prelude::*;

verus! {

/// The status with which a server asks the client to slow down.
pub const TOO_MANY_REQUESTS: u16 = 429;

/// How many times one call re-issues its request after a rate-limit answer.
pub const RETRY_BUDGET: u8 = 5;

/// The wait before a retry when the server gives no usable hint, in milliseconds.
pub const DEFAULT_BACKOFF_MILLIS: u64 = 500;

/// A hint of this many seconds or more is ignored.
pub const HINT_LIMIT_SECS: u64 = 120;

/// Whether `status` is in the 2xx class.
pub open spec fn status_is_success(status: u16) -> bool {
    200 <= status < 300
}

/// Whether `byte` is an ASCII decimal digit.
pub open spec fn is_digit(byte: u8) -> bool {
    0x30 <= byte <= 0x39
}

/// The number that a string of decimal digits writes, most significant digit first.
pub open spec fn digits_value(digits: Seq<u8>) -> nat
    decreases digits.len(),
{
    if digits.len() == 0 {
        0
    } else {
        digits_value(digits.drop_last()) * 10 + (digits.last() - 0x30) as nat
    }
}

/// `text` without one leading plus sign.
pub open spec fn unsigned_part(text: Seq<u8>) -> Seq<u8> {
    if text.len() > 0 && text[0] == 0x2b {
        text.skip(1)
    } else {
        text
    }
}

/// The integer that `text` writes: an optional plus sign, then one or more
/// decimal digits and nothing else. `None` for every other text.
pub open spec fn decimal(text: Seq<u8>) -> Option<nat> {
    let digits = unsigned_part(text);
    if digits.len() > 0 && (forall|i: int| 0 <= i < digits.len() ==> is_digit(#[trigger] digits[i])) {
        Some(digits_value(digits))
    } else {
        None
    }
}

/// The number of seconds that a `Retry-After` value asks for, where the value is
/// an integer below the limit.
pub open spec fn hint_secs(text: Seq<u8>) -> Option<u64> {
    match decimal(text) {
        Some(n) => if n < HINT_LIMIT_SECS { Some(n as u64) } else { None },
        None => None,
    }
}

/// The wait before the next attempt, in milliseconds, for the `Retry-After`
/// header of a rate-limit answer (`None` where the answer has no such header).
pub open spec fn backoff_millis(retry_after: Option<Seq<u8>>) -> u64 {
    match retry_after {
        Some(text) => match hint_secs(text) {
            Some(secs) => (secs * 1000) as u64,
            None => DEFAULT_BACKOFF_MILLIS,
        },
        None => DEFAULT_BACKOFF_MILLIS,
    }
}

/// Any 2xx status is a success.
pub fn is_success(status: u16) -> (r: bool)
    ensures
        r == status_is_success(status),
{
    200 <= status && status < 300
}

proof fn lemma_digits_value_grows(digits: Seq<u8>)
    requires
        digits.len() > 0,
    ensures
        digits_value(digits) >= digits_value(digits.drop_last()),
{
}

/// Reads a `Retry-After` value as a number of seconds.
///
/// Returns the number where `text` is an optional plus sign followed by decimal
/// digits only and the number is below 120; `None` for any other text, however
/// long its digits are.
pub fn parse_retry_after(text: &[u8]) -> (r: Option<u64>)
    ensures
        r == hint_secs(text@),
{
    let n: usize = text.len();
    let start: usize = if n > 0 && text[0] == 0x2b { 1 } else { 0 };
    if start >= n {
        return None;
    }
    let ghost digits = unsigned_part(text@);
    assert(digits =~= text@.skip(start as int));
    let mut value: u64 = 0;
    let mut i: usize = start;
    while i < n
        invariant
            start <= i <= n,
            n == text@.len(),
            digits == unsigned_part(text@),
            digits == text@.skip(start as int),
            digits.len() > 0,
            forall|j: int| 0 <= j < i - start ==> is_digit(#[trigger] digits[j]),
            value <= HINT_LIMIT_SECS,
            value < HINT_LIMIT_SECS ==> value == digits_value(digits.take(i - start)),
            value == HINT_LIMIT_SECS ==> digits_value(digits.take(i - start)) >= HINT_LIMIT_SECS,
        decreases n - i,
    {
        let byte: u8 = text[i];
        if byte < 0x30 || byte > 0x39 {
            assert(!is_digit(digits[i - start]));
            return None;
        }
        proof {
            let next = digits.take(i - start + 1);
            assert(next.drop_last() =~= digits.take(i - start));
            assert(next.last() == byte);
            lemma_digits_value_grows(next);
        }
        if value < HINT_LIMIT_SECS {
            let sum: u64 = value * 10 + (byte - 0x30) as u64;
            value = if sum < HINT_LIMIT_SECS { sum } else { HINT_LIMIT_SECS };
        }
        i = i + 1;
    }
    assert(digits.take(n - start) =~= digits);
    if value < HINT_LIMIT_SECS {
        Some(value)
    } else {
        None
    }
}

/// The wait before re-issuing a rate-limited request, in milliseconds: the
/// server's hint in seconds where it is an integer below 120, else half a second.
pub fn backoff(retry_after: Option<&[u8]>) -> (millis: u64)
    ensures
        millis == backoff_millis(
            match retry_after {
                Some(text) => Some(text@),
                None => None,
            },
        ),
        millis == DEFAULT_BACKOFF_MILLIS || (millis % 1000 == 0 && millis < 120_000),
{
    match retry_after {
        Some(text) => match parse_retry_after(text) {
            Some(secs) => secs * 1000,
            None => DEFAULT_BACKOFF_MILLIS,
        },
        None => DEFAULT_BACKOFF_MILLIS,
    }
}

} // verus!
