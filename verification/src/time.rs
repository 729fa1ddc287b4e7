//! Instants on the UTC time line, as plain numbers.

use chrono::{DateTime, Utc};
use vstd::prelude::*;
use crate::models::serde_helpers::unix_epoch;

verus! {

/// An instant: whole seconds since 1970-01-01T00:00:00Z and the nanoseconds
/// within that second.
#[derive(Clone, Copy, Debug, PartialEq, Eq, Structural)]
pub struct Timestamp {
    pub seconds: i64,
    pub nanos: u32,
}

/// The instant that `chrono` reads from a date-and-time text, if it reads one.
pub uninterp spec fn instant_of_text(text: Seq<char>) -> Option<Timestamp>;

/// `str::parse::<chrono::DateTime<Utc>>`, with the instant taken apart by
/// `DateTime::timestamp` and `DateTime::timestamp_subsec_nanos`. The result
/// depends on the text alone.
#[verifier::external_body]
fn parse_instant(text: &str) -> (r: Option<Timestamp>)
    ensures
        r == instant_of_text(text@),
{
    match text.parse::<DateTime<Utc>>() {
        Ok(t) => Some(Timestamp { seconds: t.timestamp(), nanos: t.timestamp_subsec_nanos() }),
        Err(_) => None,
    }
}

/// The earliest instant the decoders report: 1970-01-01T00:00:00Z.
pub open spec fn epoch() -> Timestamp {
    Timestamp { seconds: 0, nanos: 0 }
}

impl Timestamp {
    /// Reads a relaxed RFC 3339 date and time.
    pub fn parse(text: &str) -> (r: Option<Timestamp>)
        ensures
            r == instant_of_text(text@),
    {
        parse_instant(text)
    }

    /// Whether `self` is at or after `other`.
    pub open spec fn at_or_after(self, other: Timestamp) -> bool {
        self.seconds > other.seconds || (self.seconds == other.seconds && self.nanos >= other.nanos)
    }

    /// Whether `self` is at or after `other`.
    #[verifier::when_used_as_spec(at_or_after)]
    pub fn is_at_or_after(self, other: Timestamp) -> (r: bool)
        ensures
            r == self.at_or_after(other),
    {
        self.seconds > other.seconds || (self.seconds == other.seconds && self.nanos >= other.nanos)
    }

    /// `self` moved by `seconds`, stopping at the ends of the representable
    /// range.
    pub open spec fn shifted(self, seconds: i64) -> Timestamp {
        Timestamp {
            seconds: if self.seconds + seconds > i64::MAX {
                i64::MAX
            } else if self.seconds + seconds < i64::MIN {
                i64::MIN
            } else {
                (self.seconds + seconds) as i64
            },
            nanos: self.nanos,
        }
    }

    /// `self` moved by `seconds` and `nanos`: the nanoseconds are added,
    /// each full second of their sum is carried, and the seconds stop at
    /// the ends of the representable range.
    pub open spec fn shifted_by(self, seconds: i64, nanos: u32) -> Timestamp {
        let total = self.nanos as int + nanos as int;
        let whole = self.seconds as int + seconds as int + total / 1_000_000_000;
        Timestamp {
            seconds: if whole > i64::MAX {
                i64::MAX
            } else if whole < i64::MIN {
                i64::MIN
            } else {
                whole as i64
            },
            nanos: (total % 1_000_000_000) as u32,
        }
    }

    /// `self` moved by a span of `seconds` and `nanos`.
    pub fn plus(self, seconds: i64, nanos: u32) -> (r: Timestamp)
        ensures
            r == self.shifted_by(seconds, nanos),
    {
        let total: u64 = self.nanos as u64 + nanos as u64;
        let carry: u64 = total / 1_000_000_000;
        let rest: u64 = total % 1_000_000_000;
        let whole: i128 = self.seconds as i128 + seconds as i128 + carry as i128;
        let moved: i64 = if whole > 0x7fff_ffff_ffff_ffffi128 {
            i64::MAX
        } else if whole < -0x8000_0000_0000_0000i128 {
            i64::MIN
        } else {
            whole as i64
        };
        Timestamp { seconds: moved, nanos: rest as u32 }
    }

    /// `self` moved by `seconds`, stopping at the ends of the representable
    /// range.
    pub fn plus_seconds(self, seconds: i64) -> (r: Timestamp)
        ensures
            r == self.shifted(seconds),
    {
        let moved: i64 = if seconds >= 0 {
            if self.seconds > i64::MAX - seconds {
                i64::MAX
            } else {
                self.seconds + seconds
            }
        } else {
            if self.seconds < i64::MIN - seconds {
                i64::MIN
            } else {
                self.seconds + seconds
            }
        };
        Timestamp { seconds: moved, nanos: self.nanos }
    }
}

/// The seconds of a span, rounded down, where the span is given as whole
/// seconds and a part of a second that may lie below zero.
pub open spec fn span_seconds(seconds: i64, subsec_nanos: i32) -> int {
    seconds as int + (subsec_nanos as int) / 1_000_000_000
}

/// The nanoseconds of such a span above its seconds rounded down: from
/// zero to below a second.
pub open spec fn span_nanos(subsec_nanos: i32) -> int {
    (subsec_nanos as int) % 1_000_000_000
}

/// A span as seconds rounded down and nanoseconds from zero up, from a
/// span given as whole seconds and a part of a second of either sign. The
/// seconds stop at the ends of the representable range.
pub fn span_of(seconds: i64, subsec_nanos: i32) -> (r: (i64, u32))
    ensures
        r.1 as int == span_nanos(subsec_nanos),
        r.0 as int == if span_seconds(seconds, subsec_nanos) > i64::MAX {
            i64::MAX as int
        } else if span_seconds(seconds, subsec_nanos) < i64::MIN {
            i64::MIN as int
        } else {
            span_seconds(seconds, subsec_nanos)
        },
{
    let part: i64 = subsec_nanos as i64;
    let carry: i64 = if part >= 2_000_000_000 {
        2
    } else if part >= 1_000_000_000 {
        1
    } else if part >= 0 {
        0
    } else if part >= -1_000_000_000 {
        -1
    } else if part >= -2_000_000_000 {
        -2
    } else {
        -3
    };
    let rest: i64 = part - carry * 1_000_000_000;
    assert(0 <= rest < 1_000_000_000);
    assert(part == carry * 1_000_000_000 + rest);
    assert(carry == (subsec_nanos as int) / 1_000_000_000 && rest == (subsec_nanos as int)
        % 1_000_000_000);
    let whole: i128 = seconds as i128 + carry as i128;
    let floor: i64 = if whole > 0x7fff_ffff_ffff_ffffi128 {
        i64::MAX
    } else if whole < -0x8000_0000_0000_0000i128 {
        i64::MIN
    } else {
        whole as i64
    };
    (floor, rest as u32)
}

/// A span written as seconds rounded down and nanoseconds from zero up is
/// as long as it was.
pub proof fn lemma_span_keeps_its_length(seconds: i64, subsec_nanos: i32)
    ensures
        0 <= span_nanos(subsec_nanos) < 1_000_000_000,
        span_seconds(seconds, subsec_nanos) * 1_000_000_000 + span_nanos(subsec_nanos)
            == seconds * 1_000_000_000 + subsec_nanos,
{
}

/// Moving by whole seconds is moving by a span without nanoseconds, for
/// an instant whose nanoseconds are below a second.
pub proof fn lemma_whole_seconds_are_a_span(instant: Timestamp, seconds: i64)
    requires
        instant.nanos < 1_000_000_000,
    ensures
        instant.shifted_by(seconds, 0) == instant.shifted(seconds),
{
}

impl Default for Timestamp {
    fn default() -> (r: Timestamp)
        ensures
            r == epoch(),
    {
        unix_epoch()
    }
}

} // verus!
