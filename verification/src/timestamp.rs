//! Points in time, as the server reports them.

use vstd::prelude::*;

verus! {

/// The first second that a timestamp can hold, counted from the start of 1970 in UTC.
pub const FIRST_SECOND: i64 = -8_334_601_228_800;

/// The last second that a timestamp can hold.
pub const LAST_SECOND: i64 = 8_210_266_876_799;

/// Nanoseconds in a second.
pub const SECOND: u32 = 1_000_000_000;

/// Whether there is a point in time `secs` seconds and `nanos` nanoseconds after the
/// start of 1970 in UTC, seen from `offset` seconds east of Greenwich. A fraction of
/// a second or more is a leap second, which only the last second of a minute has.
pub open spec fn valid_timestamp(secs: i64, nanos: u32, offset: i32) -> bool {
    &&& FIRST_SECOND <= secs <= LAST_SECOND
    &&& nanos < 2 * SECOND
    &&& nanos >= SECOND ==> secs % 60 == 59
    &&& -86_400 < offset < 86_400
}

/// What `chrono` prints for the point in time with the given parts: the date, the
/// time of day and the offset, as the clock at that offset shows them.
pub uninterp spec fn timestamp_text(secs: i64, nanos: u32, offset: i32) -> Seq<char>;

/// The integer nearest to `a / b` on the side of zero.
pub open spec fn truncated(a: int, b: int) -> int {
    if a >= 0 {
        a / b
    } else {
        -((-a) / b)
    }
}

/// The whole seconds from the point in time with the parts `then_secs` and
/// `then_nanos` to the one with `now_secs` and `now_nanos`. A leap second counts when
/// one of the two lies in it, and the other lies behind it by the time of day.
pub open spec fn whole_seconds_between(
    then_secs: i64,
    then_nanos: u32,
    now_secs: i64,
    now_nanos: u32,
) -> int {
    let then_of_day = then_secs as int % 86_400;
    let now_of_day = now_secs as int % 86_400;
    let leap: int = if now_of_day > then_of_day && then_nanos >= SECOND {
        1
    } else if now_of_day < then_of_day && now_nanos >= SECOND {
        -1
    } else {
        0
    };
    truncated((now_secs - then_secs + leap) * SECOND + now_nanos - then_nanos, SECOND as int)
}

/// Prints a point in time: `to_string` of `chrono::DateTime`, made by
/// `DateTime::from_timestamp` and moved to its offset by `with_timezone`. The text is
/// a function of the three parts alone; nothing more is claimed of it.
#[verifier::external_body]
fn chrono_text(secs: i64, nanos: u32, offset: i32) -> (text: String)
    requires
        valid_timestamp(secs, nanos, offset),
    ensures
        text@ == timestamp_text(secs, nanos, offset),
{
    let utc = chrono::DateTime::from_timestamp(secs, nanos).unwrap();
    utc.with_timezone(&chrono::FixedOffset::east_opt(offset).unwrap()).to_string()
}

/// The seconds between two points in time: `num_seconds` of what
/// `chrono::DateTime::signed_duration_since` returns for them. The claim is that the
/// difference is rounded towards zero, with the leap seconds that `chrono` counts.
#[verifier::external_body]
fn chrono_seconds_between(then_secs: i64, then_nanos: u32, now_secs: i64, now_nanos: u32) -> (secs:
    i64)
    requires
        valid_timestamp(then_secs, then_nanos, 0),
        valid_timestamp(now_secs, now_nanos, 0),
    ensures
        secs == whole_seconds_between(then_secs, then_nanos, now_secs, now_nanos),
{
    let then = chrono::DateTime::from_timestamp(then_secs, then_nanos).unwrap();
    let now = chrono::DateTime::from_timestamp(now_secs, now_nanos).unwrap();
    now.signed_duration_since(then).num_seconds()
}

/// A point in time, with the offset of the clock that shows it.
#[derive(Clone, Copy, Debug)]
pub struct Timestamp {
    secs: i64,
    nanos: u32,
    offset: i32,
}

impl View for Timestamp {
    type V = (i64, u32, i32);

    closed spec fn view(&self) -> (i64, u32, i32) {
        (self.secs, self.nanos, self.offset)
    }
}

impl Timestamp {
    #[verifier::type_invariant]
    spec fn in_range(self) -> bool {
        valid_timestamp(self.secs, self.nanos, self.offset)
    }

    /// The point in time with the given parts, where there is one.
    pub fn new(secs: i64, nanos: u32, offset: i32) -> (timestamp: Option<Timestamp>)
        ensures
            timestamp is Some <==> valid_timestamp(secs, nanos, offset),
            timestamp matches Some(t) ==> t@ == (secs, nanos, offset),
    {
        if secs < FIRST_SECOND || secs > LAST_SECOND || nanos >= 2_000_000_000 || offset <= -86_400
            || offset >= 86_400 {
            return None;
        }
        if nanos >= SECOND {
            // In exec code the remainder of a negative number is not positive.
            let remainder: i64 = secs % 60;
            if remainder != 59 && remainder != -1 {
                return None;
            }
        }
        Some(Timestamp { secs, nanos, offset })
    }

    /// The whole seconds since the start of 1970 in UTC.
    pub fn secs(&self) -> (secs: i64)
        ensures
            secs == self@.0,
    {
        self.secs
    }

    /// The nanoseconds since the last whole second.
    pub fn nanos(&self) -> (nanos: u32)
        ensures
            nanos == self@.1,
    {
        self.nanos
    }

    /// The seconds by which the clock is ahead of UTC.
    pub fn offset(&self) -> (offset: i32)
        ensures
            offset == self@.2,
    {
        self.offset
    }

    /// The text that shows this point in time.
    pub fn text(&self) -> (text: String)
        ensures
            text@ == timestamp_text(self@.0, self@.1, self@.2),
    {
        proof {
            use_type_invariant(self);
        }
        chrono_text(self.secs, self.nanos, self.offset)
    }

    /// The whole seconds that have gone by from `self` to `now`.
    pub fn seconds_until(&self, now: &Timestamp) -> (secs: i64)
        ensures
            secs == whole_seconds_between(self@.0, self@.1, now@.0, now@.1),
    {
        proof {
            use_type_invariant(self);
            use_type_invariant(now);
        }
        chrono_seconds_between(self.secs, self.nanos, now.secs, now.nanos)
    }
}

} // verus!
