//! Times of day at millisecond resolution, the unit in which cues are timed.
//!
//! Arithmetic across midnight and the reading of clock text are chrono's;
//! the few functions that call it say so, and state what is relied on.

use crate::text::{padded2, padded2_text, padded3, padded3_text};
use chrono::{NaiveTime, TimeDelta, Timelike};
use vstd::prelude::*;
use vstd::string::StringExecFns;

verus! {

/// Milliseconds in one day.
pub const MILLIS_PER_DAY: u32 = 86_400_000;

/// Seconds in one day.
pub const SECS_PER_DAY: u32 = 86_400;

/// Nanoseconds in one second.
pub const NANOS_PER_SEC: u32 = 1_000_000_000;

/// Nanoseconds in one millisecond.
pub const NANOS_PER_MILLI: u32 = 1_000_000;

/// A time of day, counted in milliseconds from midnight.
#[derive(Clone, Copy, Debug, PartialEq, Eq, Structural)]
pub struct TimeOfDay {
    pub millis: u32,
}

/// `t + delta` milliseconds on a clock that wraps at midnight.
pub open spec fn wrapped_millis(t: int, delta: int) -> int {
    (t + delta) % (MILLIS_PER_DAY as int)
}

/// What chrono reads in a text as `%H:%M:%S`: the seconds since midnight and
/// the nanoseconds within the second, or nothing where the text does not
/// parse.
pub uninterp spec fn clock_reading(text: Seq<char>) -> Option<(u32, u32)>;

/// `NaiveTime::overflowing_add_signed`, on a time without a leap second and
/// a shift of less than a day either way: the sum, wrapped at midnight, as
/// seconds since midnight and nanoseconds within the second.
#[verifier::external_body]
fn chrono_add_millis(secs: u32, nanos: u32, delta_ms: i64) -> (r: (u32, u32))
    requires
        secs < SECS_PER_DAY,
        nanos < NANOS_PER_SEC,
        -(MILLIS_PER_DAY as int) < delta_ms < MILLIS_PER_DAY,
    ensures
        r.0 < SECS_PER_DAY,
        r.1 < NANOS_PER_SEC,
        r.0 as int * 1_000_000_000 + r.1 as int == (secs as int * 1_000_000_000 + nanos as int
            + delta_ms as int * 1_000_000) % 86_400_000_000_000,
{
    let time = NaiveTime::from_num_seconds_from_midnight_opt(secs, nanos).unwrap();
    let (sum, _) = time.overflowing_add_signed(TimeDelta::milliseconds(delta_ms));
    (sum.num_seconds_from_midnight(), sum.nanosecond())
}

/// `NaiveTime::signed_duration_since` followed by
/// `TimeDelta::num_milliseconds`, on two times without leap seconds that
/// fall on whole milliseconds: the signed distance from `earlier` to the
/// first time.
#[verifier::external_body]
fn chrono_millis_since(secs: u32, nanos: u32, earlier_secs: u32, earlier_nanos: u32) -> (r: i64)
    requires
        secs < SECS_PER_DAY,
        nanos < NANOS_PER_SEC,
        nanos % NANOS_PER_MILLI == 0,
        earlier_secs < SECS_PER_DAY,
        earlier_nanos < NANOS_PER_SEC,
        earlier_nanos % NANOS_PER_MILLI == 0,
    ensures
        r == (secs as int - earlier_secs as int) * 1000 + (nanos as int - earlier_nanos as int)
            / 1_000_000,
{
    let time = NaiveTime::from_num_seconds_from_midnight_opt(secs, nanos).unwrap();
    let earlier =
        NaiveTime::from_num_seconds_from_midnight_opt(earlier_secs, earlier_nanos).unwrap();
    time.signed_duration_since(earlier).num_milliseconds()
}

/// `NaiveTime::parse_from_str` with the format `%H:%M:%S`. Which texts
/// parse, and to what, is chrono's grammar; of a time that comes back only
/// the bounds that every `NaiveTime` keeps are relied on.
#[verifier::external_body]
fn chrono_parse_clock(text: &str) -> (r: Option<(u32, u32)>)
    ensures
        r == clock_reading(text@),
        r matches Some(p) ==> p.0 < SECS_PER_DAY && p.1 < 2 * NANOS_PER_SEC,
{
    match NaiveTime::parse_from_str(text, "%H:%M:%S") {
        Ok(time) => Some((time.num_seconds_from_midnight(), time.nanosecond())),
        Err(_) => None,
    }
}

/// The time that a pair of seconds since midnight and nanoseconds within the
/// second stands for, if it is a time of day without a leap second.
/// Nanoseconds below the millisecond are dropped.
pub open spec fn time_of_parts(secs: u32, nano: u32) -> Option<TimeOfDay> {
    if secs < SECS_PER_DAY && nano < NANOS_PER_SEC {
        Some(TimeOfDay { millis: (secs * 1000 + nano / NANOS_PER_MILLI) as u32 })
    } else {
        None
    }
}

/// The time that a reading of clock text stands for.
pub open spec fn time_of_reading(reading: Option<(u32, u32)>) -> Option<TimeOfDay> {
    match reading {
        Some((secs, nano)) => time_of_parts(secs, nano),
        None => None,
    }
}

/// `hh:mm:ss` of a time of `millis` milliseconds since midnight.
pub open spec fn clock_text(millis: nat) -> Seq<char> {
    padded2_text(millis / 3_600_000) + seq![':'] + padded2_text((millis / 60_000) % 60) + seq![':']
        + padded2_text((millis / 1000) % 60)
}

/// `hh:mm:ss,mmm`, the form in which subtitle files write a time.
pub open spec fn srt_time_text(millis: nat) -> Seq<char> {
    clock_text(millis) + seq![','] + padded3_text(millis % 1000)
}

/// `mm:ss`, the minute within the hour and the second.
pub open spec fn minute_text(millis: nat) -> Seq<char> {
    padded2_text((millis / 60_000) % 60) + seq![':'] + padded2_text((millis / 1000) % 60)
}

impl TimeOfDay {
    /// A time of day lies before the next midnight.
    pub open spec fn wf(&self) -> bool {
        self.millis < MILLIS_PER_DAY
    }

    /// Whether this is a time of day.
    pub fn is_wf(&self) -> (r: bool)
        ensures
            r == self.wf(),
    {
        self.millis < MILLIS_PER_DAY
    }

    /// Midnight.
    pub fn midnight() -> (r: Self)
        ensures
            r.millis == 0,
            r.wf(),
    {
        TimeOfDay { millis: 0 }
    }

    /// The time `millis` milliseconds after midnight, if that is within the day.
    pub fn from_millis(millis: u32) -> (r: Option<Self>)
        ensures
            r == if millis < MILLIS_PER_DAY {
                Some(TimeOfDay { millis })
            } else {
                None::<TimeOfDay>
            },
    {
        if millis < MILLIS_PER_DAY {
            Some(TimeOfDay { millis })
        } else {
            None
        }
    }

    /// The time `secs` seconds and `nano` nanoseconds after midnight. Leap
    /// seconds (`nano` of a second or more) have no place in a cue and are
    /// refused, as are seconds beyond the day.
    pub fn from_num_seconds_from_midnight_opt(secs: u32, nano: u32) -> (r: Option<Self>)
        ensures
            r == time_of_parts(secs, nano),
            r matches Some(t) ==> t.wf(),
    {
        if secs < SECS_PER_DAY && nano < NANOS_PER_SEC {
            Some(TimeOfDay { millis: secs * 1000 + nano / NANOS_PER_MILLI })
        } else {
            None
        }
    }

    /// The time that a reading of clock text stands for; a reading with a
    /// leap second stands for none.
    pub fn from_clock_reading(reading: Option<(u32, u32)>) -> (r: Option<Self>)
        ensures
            r == time_of_reading(reading),
            r matches Some(t) ==> t.wf(),
    {
        match reading {
            Some((secs, nano)) => Self::from_num_seconds_from_midnight_opt(secs, nano),
            None => None,
        }
    }

    /// Reads `hh:mm:ss` text as chrono does.
    pub fn parse_clock(text: &str) -> (r: Option<Self>)
        ensures
            r == time_of_reading(clock_reading(text@)),
            r matches Some(t) ==> t.wf(),
    {
        Self::from_clock_reading(chrono_parse_clock(text))
    }

    /// Whole seconds since midnight.
    pub fn num_seconds_from_midnight(&self) -> (r: u32)
        ensures
            r == self.millis / 1000,
    {
        self.millis / 1000
    }

    /// This time shifted by `delta` milliseconds, forwards or backwards,
    /// wrapping at midnight.
    pub fn add_millis(self, delta: i64) -> (r: Self)
        requires
            self.wf(),
        ensures
            r.wf(),
            r.millis == wrapped_millis(self.millis as int, delta as int),
    {
        let within_day: i64 = delta % (MILLIS_PER_DAY as i64);
        let secs: u32 = self.millis / 1000;
        let nanos: u32 = (self.millis % 1000) * NANOS_PER_MILLI;
        let sum = chrono_add_millis(secs, nanos, within_day);
        let millis: u32 = sum.0 * 1000 + sum.1 / NANOS_PER_MILLI;
        proof {
            lemma_wrapped_sum(
                self.millis as int,
                delta as int,
                within_day as int,
                sum.0 as int,
                sum.1 as int,
            );
        }
        TimeOfDay { millis }
    }

    /// Milliseconds from `earlier` to this time; negative if this time is
    /// the earlier one.
    pub fn millis_since(self, earlier: Self) -> (r: i64)
        requires
            self.wf(),
            earlier.wf(),
        ensures
            r == self.millis - earlier.millis,
    {
        let r = chrono_millis_since(
            self.millis / 1000,
            (self.millis % 1000) * NANOS_PER_MILLI,
            earlier.millis / 1000,
            (earlier.millis % 1000) * NANOS_PER_MILLI,
        );
        r
    }

    /// Writes the time as `hh:mm:ss`.
    pub fn to_clock_text(&self) -> (r: String)
        ensures
            r@ == clock_text(self.millis as nat),
    {
        let hours: u32 = self.millis / 3_600_000;
        let minutes: u32 = (self.millis / 60_000) % 60;
        let seconds: u32 = (self.millis / 1000) % 60;
        let mut s = padded2(hours as u64);
        s.append(":");
        s.append(padded2(minutes as u64).as_str());
        s.append(":");
        s.append(padded2(seconds as u64).as_str());
        proof {
            reveal_strlit(":");
            assert(s@ =~= clock_text(self.millis as nat));
        }
        s
    }

    /// Writes the time as `hh:mm:ss,mmm`.
    pub fn to_srt_text(&self) -> (r: String)
        ensures
            r@ == srt_time_text(self.millis as nat),
    {
        let mut s = self.to_clock_text();
        s.append(",");
        s.append(padded3(self.millis % 1000).as_str());
        proof {
            reveal_strlit(",");
            assert(s@ =~= srt_time_text(self.millis as nat));
        }
        s
    }

    /// Writes the minute within the hour and the second, as `mm:ss`.
    pub fn to_minute_text(&self) -> (r: String)
        ensures
            r@ == minute_text(self.millis as nat),
    {
        let minutes: u32 = (self.millis / 60_000) % 60;
        let seconds: u32 = (self.millis / 1000) % 60;
        let mut s = padded2(minutes as u64);
        s.append(":");
        s.append(padded2(seconds as u64).as_str());
        proof {
            reveal_strlit(":");
            assert(s@ =~= minute_text(self.millis as nat));
        }
        s
    }
}

impl Default for TimeOfDay {
    fn default() -> (r: Self)
        ensures
            r.millis == 0,
    {
        TimeOfDay { millis: 0 }
    }
}

/// Ties the sum that comes back in seconds and nanoseconds to the sum in
/// milliseconds: shifting by `delta` and by its remainder within a day lead
/// to the same time.
proof fn lemma_wrapped_sum(millis: int, delta: int, within_day: int, secs: int, nanos: int)
    requires
        0 <= millis < 86_400_000,
        -86_400_000 < within_day < 86_400_000,
        (delta - within_day) % 86_400_000 == 0,
        0 <= secs < 86_400,
        0 <= nanos < 1_000_000_000,
        secs * 1_000_000_000 + nanos == ((millis / 1000) * 1_000_000_000 + (millis % 1000)
            * 1_000_000 + within_day * 1_000_000) % 86_400_000_000_000,
    ensures
        secs * 1000 + nanos / 1_000_000 == wrapped_millis(millis, delta),
{
    let total = millis + within_day;
    let wrapped = total % 86_400_000;
    assert((millis / 1000) * 1_000_000_000 + (millis % 1000) * 1_000_000 + within_day * 1_000_000
        == total * 1_000_000);
    assert((total * 1_000_000) % 86_400_000_000_000 == wrapped * 1_000_000) by {
        let q = total / 86_400_000;
        assert(total == q * 86_400_000 + wrapped);
        assert(total * 1_000_000 == q * 86_400_000_000_000 + wrapped * 1_000_000);
        vstd::arithmetic::div_mod::lemma_fundamental_div_mod_converse(
            total * 1_000_000,
            86_400_000_000_000,
            q,
            wrapped * 1_000_000,
        );
    }
    assert(secs * 1000 + nanos / 1_000_000 == wrapped);
    assert((millis + delta) % 86_400_000 == wrapped) by {
        let k = (delta - within_day) / 86_400_000;
        assert(delta - within_day == k * 86_400_000);
        let q = total / 86_400_000;
        assert(millis + delta == (q + k) * 86_400_000 + wrapped);
        vstd::arithmetic::div_mod::lemma_fundamental_div_mod_converse(
            millis + delta,
            86_400_000,
            q + k,
            wrapped,
        );
    }
}

} // verus!
