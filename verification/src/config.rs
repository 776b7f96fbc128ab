//! The run configuration: the option flags, the duplicate-deletion policy and
//! the parser for the `H[H]:M[M]` day-wrap option.

use vstd::prelude::*;
use crate::timestamp::DayWrapOffset;

verus! {

/// What to do with the source file once an equal-sized copy is confirmed at
/// the destination. At most one deleting policy is ever in force: the two
/// deleting variants exclude each other by construction.
#[derive(Clone, Copy, Debug, PartialEq, Eq, Structural)]
pub enum DeletionPolicy {
    /// Leave the source alone and only report the duplicate (the default).
    ReportOnly,
    /// Delete the source file permanently.
    RemoveSource,
    /// Move the source file to the system trash.
    TrashSource,
}

/// The options of one run, constructed once at startup and read-only from
/// then on.
#[derive(Clone, Copy, Debug, PartialEq, Eq, Structural)]
pub struct RunConfig {
    /// Log every decision, not only the mutating ones.
    pub verbose: bool,
    /// Descend into subdirectories.
    pub recursive: bool,
    /// Compute and log outcomes without touching the filesystem.
    pub dry_run: bool,
    /// Case-fold destination file and sidecar names to lowercase.
    pub make_lowercase: bool,
    /// Follow symbolic links during traversal.
    pub dereference_symlinks: bool,
    /// Abort the run on the first file-level failure.
    pub halt_on_errors: bool,
    /// The duplicate-deletion policy.
    pub policy: DeletionPolicy,
    /// The day-wrap offset.
    pub day_wrap: DayWrapOffset,
}

/// A startup-time configuration error, reported before any traversal begins.
#[derive(Clone, Copy, Debug, PartialEq, Eq, Structural)]
pub enum ConfigError {
    /// The day-wrap option does not have the form `H[H]:M[M]` with an hour
    /// below 24 and a minute below 60.
    MalformedDayWrap,
}

/// `c` is a decimal digit.
pub open spec fn is_digit(c: char) -> bool {
    ||| c == '0'
    ||| c == '1'
    ||| c == '2'
    ||| c == '3'
    ||| c == '4'
    ||| c == '5'
    ||| c == '6'
    ||| c == '7'
    ||| c == '8'
    ||| c == '9'
}

/// The value of a decimal digit character.
pub open spec fn digit_val(c: char) -> int {
    if c == '0' {
        0
    } else if c == '1' {
        1
    } else if c == '2' {
        2
    } else if c == '3' {
        3
    } else if c == '4' {
        4
    } else if c == '5' {
        5
    } else if c == '6' {
        6
    } else if c == '7' {
        7
    } else if c == '8' {
        8
    } else {
        9
    }
}

/// The hour and minute fields of a string of the form `H[H]:M[M]`: one or two
/// digits, a colon, one or two digits, nothing else. `None` when the string
/// has any other shape.
pub open spec fn day_wrap_fields(s: Seq<char>) -> Option<(int, int)> {
    if s.len() == 3 && is_digit(s[0]) && s[1] == ':' && is_digit(s[2]) {
        Some((digit_val(s[0]), digit_val(s[2])))
    } else if s.len() == 4 && is_digit(s[0]) && s[1] == ':' && is_digit(s[2]) && is_digit(s[3]) {
        Some((digit_val(s[0]), 10 * digit_val(s[2]) + digit_val(s[3])))
    } else if s.len() == 4 && is_digit(s[0]) && is_digit(s[1]) && s[2] == ':' && is_digit(s[3]) {
        Some((10 * digit_val(s[0]) + digit_val(s[1]), digit_val(s[3])))
    } else if s.len() == 5 && is_digit(s[0]) && is_digit(s[1]) && s[2] == ':' && is_digit(s[3])
        && is_digit(s[4]) {
        Some((10 * digit_val(s[0]) + digit_val(s[1]), 10 * digit_val(s[3]) + digit_val(s[4])))
    } else {
        None
    }
}

/// The day-wrap offset a string parses to: its `H[H]:M[M]` fields, accepted
/// only when the hour is below 24 and the minute below 60.
pub open spec fn spec_parse_day_wrap(s: Seq<char>) -> Option<DayWrapOffset> {
    match day_wrap_fields(s) {
        Some((h, m)) => if h <= 23 && m <= 59 {
            Some(DayWrapOffset { hour: h as u8, minute: m as u8 })
        } else {
            None
        },
        None => None,
    }
}

fn digit_value(c: char) -> (r: Option<u8>)
    ensures
        is_digit(c) ==> r == Some::<u8>(digit_val(c) as u8),
        !is_digit(c) ==> r is None,
{
    if c == '0' {
        Some(0)
    } else if c == '1' {
        Some(1)
    } else if c == '2' {
        Some(2)
    } else if c == '3' {
        Some(3)
    } else if c == '4' {
        Some(4)
    } else if c == '5' {
        Some(5)
    } else if c == '6' {
        Some(6)
    } else if c == '7' {
        Some(7)
    } else if c == '8' {
        Some(8)
    } else if c == '9' {
        Some(9)
    } else {
        None
    }
}

/// Parses the day-wrap option string. Exactly the strings of the form
/// `H[H]:M[M]` whose hour is below 24 and whose minute is below 60 are
/// accepted; everything else is a configuration error.
pub fn parse_day_wrap(s: &str) -> (r: Result<DayWrapOffset, ConfigError>)
    ensures
        match spec_parse_day_wrap(s@) {
            Some(offset) => r == Ok::<DayWrapOffset, ConfigError>(offset),
            None => r == Err::<DayWrapOffset, ConfigError>(ConfigError::MalformedDayWrap),
        },
        r matches Ok(offset) ==> offset.wf(),
{
    let n: usize = s.unicode_len();
    if n < 3 || n > 5 {
        return Err(ConfigError::MalformedDayWrap);
    }
    let colon_at: usize = if s.get_char(1) == ':' {
        1
    } else if n >= 4 && s.get_char(2) == ':' {
        2
    } else {
        return Err(ConfigError::MalformedDayWrap);
    };
    let hour: u8 = if colon_at == 1 {
        match digit_value(s.get_char(0)) {
            Some(d) => d,
            None => {
                return Err(ConfigError::MalformedDayWrap);
            },
        }
    } else {
        let d0 = match digit_value(s.get_char(0)) {
            Some(d) => d,
            None => {
                return Err(ConfigError::MalformedDayWrap);
            },
        };
        let d1 = match digit_value(s.get_char(1)) {
            Some(d) => d,
            None => {
                return Err(ConfigError::MalformedDayWrap);
            },
        };
        10 * d0 + d1
    };
    let minute_digits: usize = n - colon_at - 1;
    let minute: u8 = if minute_digits == 1 {
        match digit_value(s.get_char(colon_at + 1)) {
            Some(d) => d,
            None => {
                return Err(ConfigError::MalformedDayWrap);
            },
        }
    } else if minute_digits == 2 {
        let d0 = match digit_value(s.get_char(colon_at + 1)) {
            Some(d) => d,
            None => {
                return Err(ConfigError::MalformedDayWrap);
            },
        };
        let d1 = match digit_value(s.get_char(colon_at + 2)) {
            Some(d) => d,
            None => {
                return Err(ConfigError::MalformedDayWrap);
            },
        };
        10 * d0 + d1
    } else {
        return Err(ConfigError::MalformedDayWrap);
    };
    if hour <= 23 && minute <= 59 {
        Ok(DayWrapOffset { hour, minute })
    } else {
        Err(ConfigError::MalformedDayWrap)
    }
}

} // verus!
