//! The duration field: a token such as `25m`, `90s`, `1h` or `120` as a number
//! of seconds.

use vstd::prelude::*;
use vstd::string::{StrSliceExecFns, StringExecFns};
use vstd::utf8::is_ascii_chars;
use crate::decimal::{
    int_text, lemma_int_text_round_trip, lemma_signed_value_ascii, push_signed, read_digits,
    signed_value,
};

verus! {

/// Why a duration token was refused.
#[derive(Clone, Copy, Debug, PartialEq, Eq, Structural)]
pub enum TimeFormatError {
    /// The token is empty, or what precedes the unit is not a base-ten integer
    /// that fits in 32 bits, or the token ends in something that is neither a
    /// digit nor a unit.
    InvalidFormat,
}

/// A unit that a duration token may end in.
#[derive(Clone, Copy, Debug, PartialEq, Eq, Structural)]
pub enum TimeUnit {
    /// `h`: 3600 seconds.
    Hours,
    /// `m`: 60 seconds.
    Minutes,
    /// `s`: one second.
    Seconds,
}

impl TimeUnit {
    /// The number of seconds in one of this unit.
    pub open spec fn seconds(self) -> int {
        match self {
            TimeUnit::Hours => 3600,
            TimeUnit::Minutes => 60,
            TimeUnit::Seconds => 1,
        }
    }

    /// The letter that writes this unit.
    pub open spec fn suffix(self) -> char {
        match self {
            TimeUnit::Hours => 'h',
            TimeUnit::Minutes => 'm',
            TimeUnit::Seconds => 's',
        }
    }
}

/// The unit that the letter `c` writes, if it writes one.
pub open spec fn unit_of_suffix(c: char) -> Option<TimeUnit> {
    if c == 'h' {
        Some(TimeUnit::Hours)
    } else if c == 'm' {
        Some(TimeUnit::Minutes)
    } else if c == 's' {
        Some(TimeUnit::Seconds)
    } else {
        None
    }
}

/// The number of seconds that one of `unit` stands for; a token without a
/// unit counts seconds.
pub open spec fn multiplier(unit: Option<TimeUnit>) -> int {
    match unit {
        Some(u) => u.seconds(),
        None => 1,
    }
}

/// The unit that a token ends in, if its last character is one.
pub open spec fn unit_of_token(token: Seq<char>) -> Option<TimeUnit> {
    if token.len() == 0 {
        None
    } else {
        unit_of_suffix(token.last())
    }
}

/// The part of a token that is read as a number: the token without its unit,
/// or all of it where it ends in no unit.
pub open spec fn numeric_part(token: Seq<char>) -> Seq<char> {
    if unit_of_token(token) is Some {
        token.drop_last()
    } else {
        token
    }
}

/// The integer that `text` writes, provided it fits in 32 bits.
pub open spec fn i32_of_text(text: Seq<char>) -> Option<int> {
    match signed_value(text) {
        Some(v) => if i32::MIN <= v <= i32::MAX {
            Some(v)
        } else {
            None
        },
        None => None,
    }
}

/// The number of seconds that a duration token denotes: its numeric part, a
/// signed 32-bit integer, times the multiplier of its unit. `None` for a token
/// that denotes none.
pub open spec fn seconds_of_token(token: Seq<char>) -> Option<int> {
    match i32_of_text(numeric_part(token)) {
        Some(v) => Some(v * multiplier(unit_of_token(token))),
        None => None,
    }
}

/// The token that writes `n` of `unit`, or `n` alone where `unit` is `None`.
pub open spec fn token_text(n: int, unit: Option<TimeUnit>) -> Seq<char> {
    match unit {
        Some(u) => int_text(n).push(u.suffix()),
        None => int_text(n),
    }
}

/// Reads the first `end` characters of an ASCII text as a signed 32-bit integer.
fn read_i32(text: &str, end: usize) -> (value: Option<i32>)
    requires
        text.is_ascii(),
        end <= text@.len(),
    ensures
        value == match i32_of_text(text@.subrange(0, end as int)) {
            Some(v) => Some(v as i32),
            None => None,
        },
{
    let ghost body = text@.subrange(0, end as int);
    if end == 0 {
        return None;
    }
    let first: u8 = text.get_ascii(0);
    assert(body[0] == text@[0]);
    if first == 45 || first == 43 {
        assert(body[0] == '-' || body[0] == '+');
        assert(body.subrange(1, body.len() as int) =~= text@.subrange(1, end as int));
        if end == 1 {
            return None;
        }
        if first == 45 {
            match read_digits(text, 1, end, 2147483648) {
                Some(magnitude) => {
                    let value: i64 = -(magnitude as i64);
                    Some(value as i32)
                },
                None => None,
            }
        } else {
            match read_digits(text, 1, end, 2147483647) {
                Some(magnitude) => Some(magnitude as i32),
                None => None,
            }
        }
    } else {
        assert(body[0] != '-' && body[0] != '+');
        assert(body =~= text@.subrange(0, end as int));
        match read_digits(text, 0, end, 2147483647) {
            Some(magnitude) => Some(magnitude as i32),
            None => None,
        }
    }
}

/// Parses a duration token into seconds.
///
/// A token ending in `h`, `m` or `s` is the integer before that letter times
/// 3600, 60 or 1; any other token is read whole, as seconds. The integer is
/// written in base ten with an optional sign and must fit in 32 bits; zero and
/// negative values are accepted. The product is exact.
pub fn parse_time(time: &str) -> (result: Result<i64, TimeFormatError>)
    ensures
        result == match seconds_of_token(time@) {
            Some(v) => Ok::<i64, TimeFormatError>(v as i64),
            None => Err(TimeFormatError::InvalidFormat),
        },
        seconds_of_token(time@) matches Some(v) ==> i64::MIN <= v <= i64::MAX,
{
    if !time.is_ascii() {
        proof {
            if seconds_of_token(time@) is Some {
                lemma_signed_value_ascii(numeric_part(time@));
                assert forall|i: int| 0 <= i < time@.len() implies '\0' <= #[trigger] time@[i]
                    <= '\u{7f}' by {
                    if i < numeric_part(time@).len() {
                        assert(time@[i] == numeric_part(time@)[i]);
                    }
                }
            }
        }
        return Err(TimeFormatError::InvalidFormat);
    }
    let len = time.unicode_len();
    if len == 0 {
        return Err(TimeFormatError::InvalidFormat);
    }
    let last: u8 = time.get_ascii(len - 1);
    let (end, factor): (usize, i64) = if last == 104 {
        (len - 1, 3600)
    } else if last == 109 {
        (len - 1, 60)
    } else if last == 115 {
        (len - 1, 1)
    } else {
        (len, 1)
    };
    proof {
        assert(time@.last() == time@[len - 1]);
        assert(factor == multiplier(unit_of_token(time@)));
        assert(numeric_part(time@) =~= time@.subrange(0, end as int));
    }
    match read_i32(time, end) {
        Some(value) => Ok(value as i64 * factor),
        None => Err(TimeFormatError::InvalidFormat),
    }
}

/// Writes the token for `n` of `unit`, or the bare integer where `unit` is `None`.
pub fn format_token(n: i32, unit: Option<TimeUnit>) -> (text: String)
    ensures
        text@ == token_text(n as int, unit),
{
    let mut text = String::new();
    push_signed(&mut text, n as i64);
    proof {
        reveal_strlit("h");
        reveal_strlit("m");
        reveal_strlit("s");
    }
    match unit {
        Some(TimeUnit::Hours) => text.append("h"),
        Some(TimeUnit::Minutes) => text.append("m"),
        Some(TimeUnit::Seconds) => text.append("s"),
        None => {},
    }
    assert(text@ =~= token_text(n as int, unit));
    text
}

/// Parsing undoes writing: the token for any 32-bit `n`, with a unit or
/// without, denotes `n` times the unit's multiplier.
pub proof fn law_token_round_trip(n: int, unit: Option<TimeUnit>)
    requires
        i32::MIN <= n <= i32::MAX,
    ensures
        seconds_of_token(token_text(n, unit)) == Some(n * multiplier(unit)),
{
    lemma_int_text_round_trip(n);
    let token = token_text(n, unit);
    match unit {
        Some(u) => {
            assert(token.last() == u.suffix());
            assert(unit_of_token(token) == Some(u));
            assert(token.drop_last() =~= int_text(n));
        },
        None => {
            assert(unit_of_token(token) is None);
        },
    }
}

/// A token denotes nothing exactly when it is malformed: it is empty, or its
/// numeric part does not write an integer, or that integer does not fit in 32
/// bits. A token whose last character is neither a digit nor a unit is among
/// them.
pub proof fn law_malformed_tokens(token: Seq<char>)
    ensures
        seconds_of_token(token) is None <==> (token.len() == 0 || signed_value(
            numeric_part(token),
        ) is None || !(i32::MIN <= signed_value(numeric_part(token))->0 <= i32::MAX)),
        token.len() > 0 && !crate::decimal::is_digit(token.last()) && unit_of_suffix(
            token.last(),
        ) is None ==> seconds_of_token(token) is None,
{
    if token.len() > 0 && !crate::decimal::is_digit(token.last()) && unit_of_suffix(token.last())
        is None {
        let body = numeric_part(token);
        assert(body == token);
        if body[0] == '-' || body[0] == '+' {
            let digits = body.subrange(1, body.len() as int);
            if digits.len() > 0 {
                assert(digits[digits.len() - 1] == token.last());
            }
        }
    }
}

} // verus!
