//! Small numeric helpers shared by the timeline and the cue blocks.

use crate::geometry::{bounding_rect, Rect};
use crate::text::{
    all_digit_bytes, digits_value, is_digit_byte, parse_u32, u32_reading, unsigned_digits,
};
use crate::time::TimeOfDay;
use std::cmp::Ordering;
use vstd::prelude::*;
use vstd::slice::slice_subrange;
use vstd::std_specs::cmp::PartialOrdSpec;
use vstd::string::StringSliceAdditionalSpecFns;

verus! {

/// The smallest rectangle that holds the points `(x, y)` and `(w, h)`.
pub fn new_rect(x: i64, y: i64, w: i64, h: i64) -> (r: Rect)
    ensures
        r == bounding_rect(x as int, y as int, w as int, h as int),
        r.wf(),
{
    Rect::from_points(x, y, w, h)
}

/// What `clamp` yields: `min` when `value` is below it, `max` when `value`
/// is above it, and `value` itself otherwise. The lower bound is tested first.
pub open spec fn clamp_spec<T: PartialOrd>(max: T, min: T, value: T) -> T {
    if value.partial_cmp_spec(&min) == Some(Ordering::Less) {
        min
    } else if value.partial_cmp_spec(&max) == Some(Ordering::Greater) {
        max
    } else {
        value
    }
}

/// Saturates `value` into `[min, max]`. Note the argument order: upper bound
/// first.
pub fn clamp<T: PartialOrd>(max: T, min: T, value: T) -> (r: T)
    ensures
        T::obeys_partial_cmp_spec() ==> r == clamp_spec(max, min, value),
{
    if value < min {
        min
    } else if value > max {
        return max;
    } else {
        return value;
    }
}

/// Whether `timestamp` lies in the half-open interval `[range[0], range[1])`.
pub open spec fn range_contains_timestamp_spec(range: [i64; 2], timestamp: i64) -> bool {
    range[0] <= timestamp < range[1]
}

/// Whether `timestamp` lies in the half-open interval `[range[0], range[1])`.
pub fn range_contains_timestamp(range: &[i64; 2], timestamp: i64) -> (r: bool)
    ensures
        r == range_contains_timestamp_spec(*range, timestamp),
{
    timestamp >= range[0] && timestamp < range[1]
}

/// Whether both ends of `other_range` lie in `[range[0], range[1])`.
pub fn range_contains_subrange(range: &[i64; 2], other_range: &[i64; 2]) -> (r: bool)
    ensures
        r == (range_contains_timestamp_spec(*range, other_range[0])
            && range_contains_timestamp_spec(*range, other_range[1])),
{
    range_contains_timestamp(range, other_range[0]) && range_contains_timestamp(
        range,
        other_range[1],
    )
}

/// The sign of `value`: `1`, `-1` or `0`.
pub fn sgn(value: i64) -> (r: i32)
    ensures
        r == if value > 0 { 1i32 } else if value < 0 { -1i32 } else { 0i32 },
{
    if value > 0 {
        1
    } else if value < 0 {
        -1
    } else {
        0
    }
}

/// Why a text is not a time in the form `MM:SS.mmm`.
#[derive(Clone, Copy, Debug, PartialEq, Eq, Structural)]
pub enum TimeTextError {
    /// Fewer than the nine bytes of `MM:SS.mmm`.
    TooShort,
    /// The first two bytes are not a number of minutes.
    Minutes,
    /// The fourth and fifth bytes are not a number of seconds.
    Seconds,
    /// The seventh to ninth bytes are not a number of milliseconds.
    Millis,
}

/// Reads the bytes of a time written as `MM:SS.mmm`: minutes in the first
/// two bytes, seconds in the fourth and fifth, milliseconds in the seventh
/// to ninth. Each field is an unsigned decimal number. The two separators
/// may be any byte, and what follows the ninth byte is not looked at. There
/// is no field for hours, and minutes and seconds beyond 59 carry over.
pub open spec fn wire_time_reading(bytes: Seq<u8>) -> Result<TimeOfDay, TimeTextError> {
    if bytes.len() < 9 {
        Err(TimeTextError::TooShort)
    } else {
        match u32_reading(bytes.subrange(0, 2)) {
            None => Err(TimeTextError::Minutes),
            Some(minutes) => match u32_reading(bytes.subrange(3, 5)) {
                None => Err(TimeTextError::Seconds),
                Some(seconds) => match u32_reading(bytes.subrange(6, 9)) {
                    None => Err(TimeTextError::Millis),
                    Some(millis) => Ok(
                        TimeOfDay { millis: ((minutes * 60 + seconds) * 1000 + millis) as u32 },
                    ),
                },
            },
        }
    }
}

/// A field of at most three bytes reads as a number below a thousand.
proof fn lemma_short_field_is_small(field: Seq<u8>)
    requires
        field.len() <= 3,
        u32_reading(field) is Some,
    ensures
        u32_reading(field)->0 < 1000,
        field.len() <= 2 ==> u32_reading(field)->0 < 100,
{
    let digits = unsigned_digits(field);
    reveal_with_fuel(digits_value, 4);
    assert(all_digit_bytes(digits));
    if digits.len() >= 1 {
        assert(is_digit_byte(digits[0]));
        assert(digits.drop_last().len() == digits.len() - 1);
    }
    if digits.len() >= 2 {
        assert(is_digit_byte(digits[1]));
        assert(digits.drop_last()[0] == digits[0]);
    }
    if digits.len() >= 3 {
        assert(is_digit_byte(digits[2]));
        assert(digits.drop_last()[1] == digits[1]);
        assert(digits.drop_last().drop_last()[0] == digits[0]);
    }
}

/// Reads a time written as `MM:SS.mmm`.
pub fn naive_time_from_str(str: &str) -> (r: Result<TimeOfDay, TimeTextError>)
    ensures
        r == wire_time_reading(str.spec_bytes()),
        r matches Ok(t) ==> t.wf(),
{
    let bytes = str.as_bytes();
    if bytes.len() < 9 {
        return Err(TimeTextError::TooShort);
    }
    let minutes = match parse_u32(slice_subrange(bytes, 0, 2)) {
        Some(n) => n,
        None => {
            return Err(TimeTextError::Minutes);
        },
    };
    let seconds = match parse_u32(slice_subrange(bytes, 3, 5)) {
        Some(n) => n,
        None => {
            return Err(TimeTextError::Seconds);
        },
    };
    let millis = match parse_u32(slice_subrange(bytes, 6, 9)) {
        Some(n) => n,
        None => {
            return Err(TimeTextError::Millis);
        },
    };
    proof {
        lemma_short_field_is_small(bytes@.subrange(0, 2));
        lemma_short_field_is_small(bytes@.subrange(3, 5));
        lemma_short_field_is_small(bytes@.subrange(6, 9));
    }
    Ok(TimeOfDay { millis: (minutes * 60 + seconds) * 1000 + millis })
}

} // verus!
