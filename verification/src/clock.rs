//! Lengths of time, and the two clocks that the client reads.
use vstd::prelude::*;

verus! {

/// A length of time: whole seconds, and nanoseconds on top of them.
#[derive(Debug, Clone, Copy, PartialEq, Eq, Structural)]
pub struct Duration {
    pub secs: u64,
    pub nanos: u32,
}

impl View for Duration {
    type V = nat;

    /// The length in nanoseconds.
    open spec fn view(&self) -> nat {
        (self.secs * 1_000_000_000 + self.nanos) as nat
    }
}

impl Duration {
    /// A length of `secs` seconds.
    pub fn from_secs(secs: u64) -> (res: Duration)
        ensures
            res == (Duration { secs, nanos: 0 }),
            res@ == secs * 1_000_000_000,
    {
        Duration { secs, nanos: 0 }
    }

    /// The length in nanoseconds.
    pub fn as_nanos(&self) -> (res: u128)
        ensures
            res == self@,
            res == self.secs * 1_000_000_000 + self.nanos,
    {
        self.secs as u128 * 1_000_000_000 + self.nanos as u128
    }
}

/// [`std::time::Instant`]: a reading of the machine's clock, of which nothing is
/// known.
#[verifier::external_type_specification]
#[verifier::external_body]
pub struct ExInstant(std::time::Instant);

/// Calls [`std::time::Instant::now`]. Nothing is claimed of the reading.
#[verifier::external_body]
pub fn start() -> std::time::Instant {
    std::time::Instant::now()
}

/// Calls [`std::time::Instant::elapsed`] for the time since `start`. It is
/// claimed only that less than a second is given in nanoseconds, as
/// [`std::time::Duration::subsec_nanos`] documents; how much time it is rests on
/// the machine's clock and is left open.
#[verifier::external_body]
pub fn elapsed(start: &std::time::Instant) -> (res: Duration)
    ensures
        res.nanos < 1_000_000_000,
{
    let elapsed = start.elapsed();
    Duration { secs: elapsed.as_secs(), nanos: elapsed.subsec_nanos() }
}

/// First second that a date stands for: midnight of January 1, 262144 BCE,
/// counted from January 1, 1970.
pub const MIN_TIMESTAMP: i64 = -8_334_601_228_800;

/// Last second that a date stands for: the last one of December 31, 262142 CE.
pub const MAX_TIMESTAMP: i64 = 8_210_266_876_799;

/// Whether a date stands for the second `timestamp`.
pub open spec fn is_timestamp(timestamp: int) -> bool {
    MIN_TIMESTAMP <= timestamp <= MAX_TIMESTAMP
}

/// Calls [`chrono::Utc::now`] and [`chrono::DateTime::timestamp`] for the seconds
/// since January 1, 1970. A clock that stands before that day is refused by
/// chrono, so the reading is not negative, and it is a second of chrono's dates;
/// which one rests on the machine's clock and is left open.
#[verifier::external_body]
pub fn unix_time() -> (res: i64)
    ensures
        0 <= res <= MAX_TIMESTAMP,
{
    chrono::Utc::now().timestamp()
}

/// The second that lies `seconds` after `timestamp`, if dates stand for both.
pub open spec fn shifted(timestamp: i64, seconds: i64) -> Option<i64> {
    if is_timestamp(timestamp as int) && is_timestamp(timestamp + seconds) {
        Some((timestamp + seconds) as i64)
    } else {
        None
    }
}

/// Calls [`chrono::DateTime::checked_add_signed`]: the second that lies `seconds`
/// after `timestamp`, or `None` where one of the two is no second of chrono's
/// dates. [`chrono::DateTime::from_timestamp`], [`chrono::TimeDelta::try_seconds`]
/// and [`chrono::DateTime::timestamp`] convert; a number of seconds that
/// `try_seconds` refuses leads from no date to another.
#[verifier::external_body]
pub(crate) fn add_seconds(timestamp: i64, seconds: i64) -> (res: Option<i64>)
    ensures
        res == shifted(timestamp, seconds),
{
    let time = chrono::DateTime::from_timestamp(timestamp, 0)?;
    let time = time.checked_add_signed(chrono::TimeDelta::try_seconds(seconds)?)?;
    Some(time.timestamp())
}

} // verus!
