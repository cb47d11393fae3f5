//! Reminder intervals written as a count and a unit letter: `45s`, `30m`, `2h`.
use vstd::prelude::*;

verus! {

/// Why an interval text was refused.
#[derive(Debug, Clone, Copy, PartialEq, Eq, Structural)]
pub enum IntervalError {
    /// Fewer than two characters.
    InvalidFormat,
    /// The part before the unit letter is not a non-negative integer, or the
    /// number of seconds does not fit in a `u64`.
    InvalidNumber,
    /// The last character is none of `s`, `m`, `h`.
    InvalidUnit,
}

pub open spec fn is_digit(c: char) -> bool {
    '0' <= c && c <= '9'
}

/// The number that a string of decimal digits writes.
pub open spec fn digits_value(s: Seq<char>) -> int
    decreases s.len(),
{
    if s.len() == 0 {
        0
    } else {
        digits_value(s.drop_last()) * 10 + (s.last() as int - '0' as int)
    }
}

/// What `u64` reads from a text: an optional `+`, then one or more decimal
/// digits whose value fits in 64 bits.
pub open spec fn u64_text_value(s: Seq<char>) -> Option<u64> {
    let d = if s.len() > 0 && s[0] == '+' {
        s.drop_first()
    } else {
        s
    };
    if d.len() > 0 && (forall|i: int| 0 <= i < d.len() ==> is_digit(#[trigger] d[i]))
        && digits_value(d) <= u64::MAX {
        Some(digits_value(d) as u64)
    } else {
        None
    }
}

/// Seconds in one of each unit letter.
pub open spec fn unit_seconds(c: char) -> Option<int> {
    if c == 's' {
        Some(1)
    } else if c == 'm' {
        Some(60)
    } else if c == 'h' {
        Some(3600)
    } else {
        None
    }
}

/// The meaning of an interval text: its number of seconds, or why it is refused.
pub open spec fn interval_value(s: Seq<char>) -> Result<u64, IntervalError> {
    if s.len() < 2 {
        Err(IntervalError::InvalidFormat)
    } else {
        match u64_text_value(s.drop_last()) {
            None => Err(IntervalError::InvalidNumber),
            Some(v) => match unit_seconds(s.last()) {
                None => Err(IntervalError::InvalidUnit),
                Some(f) => if v * f <= u64::MAX {
                    Ok((v * f) as u64)
                } else {
                    Err(IntervalError::InvalidNumber)
                },
            },
        }
    }
}

/// Relies on `str::parse::<u64>` (`u64`'s `FromStr`): an optional `+` and
/// decimal digits are read, anything else or an overflow is an error.
#[verifier::external_body]
fn parse_u64(text: &str) -> (r: Option<u64>)
    ensures
        r == u64_text_value(text@),
{
    text.parse::<u64>().ok()
}

impl IntervalError {
    /// The text of `message`.
    pub open spec fn message_text(self) -> Seq<char> {
        match self {
            IntervalError::InvalidFormat => "Ungültiges Intervallformat"@,
            IntervalError::InvalidNumber => "Ungültiger Zahlenwert im Intervall"@,
            IntervalError::InvalidUnit => "Ungültige Zeiteinheit im Intervall"@,
        }
    }

    /// The message the daemon reports for this error.
    pub fn message(&self) -> (r: &'static str)
        ensures
            r@ == self.message_text(),
    {
        match self {
            IntervalError::InvalidFormat => "Ungültiges Intervallformat",
            IntervalError::InvalidNumber => "Ungültiger Zahlenwert im Intervall",
            IntervalError::InvalidUnit => "Ungültige Zeiteinheit im Intervall",
        }
    }
}

/// Reads an interval such as `30m` as a number of seconds.
pub fn parse_interval(interval: &str) -> (r: Result<u64, IntervalError>)
    ensures
        r == interval_value(interval@),
{
    let len = interval.unicode_len();
    if len < 2 {
        return Err(IntervalError::InvalidFormat);
    }
    let number = interval.substring_char(0, len - 1);
    let unit = interval.get_char(len - 1);
    assert(number@ =~= interval@.drop_last());
    let value = match parse_u64(number) {
        Some(v) => v,
        None => {
            return Err(IntervalError::InvalidNumber);
        },
    };
    let factor: u64 = if unit == 's' {
        1
    } else if unit == 'm' {
        60
    } else if unit == 'h' {
        3600
    } else {
        return Err(IntervalError::InvalidUnit);
    };
    match value.checked_mul(factor) {
        Some(seconds) => Ok(seconds),
        None => Err(IntervalError::InvalidNumber),
    }
}

} // verus!
