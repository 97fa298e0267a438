//! The clocks that entries are aged by: the wall clock for the ARP cache, a
//! clock that never runs backwards for the switch.

use vstd::prelude::*;

verus! {

/// A point in time: milliseconds since the Unix epoch.
pub type Millis = u64;

/// Calls `chrono::Local::now` and converts the instant with
/// `DateTime::timestamp_millis`. Nothing is claimed of the number: it is
/// whatever the system clock says.
#[verifier::external_body]
fn local_now_millis() -> (t: i64) {
    chrono::Local::now().timestamp_millis()
}

/// The point in time that a timestamp stands for: the milliseconds it
/// counts since the epoch. An instant before the epoch counts as the epoch.
pub open spec fn spec_from_timestamp(t: i64) -> Millis {
    if t < 0 {
        0
    } else {
        t as u64
    }
}

/// The point in time that a timestamp stands for.
pub fn from_timestamp(t: i64) -> (m: Millis)
    ensures
        m == spec_from_timestamp(t),
{
    if t < 0 {
        0
    } else {
        t as u64
    }
}

/// The current time: the point in time that the timestamp of the system
/// clock stands for. Which timestamp that is, nothing here can say.
pub fn now() -> (m: Millis)
    ensures
        exists|t: i64| m == spec_from_timestamp(t),
{
    let t: i64 = local_now_millis();
    from_timestamp(t)
}

/// The type `std::time::Instant`: a reading of the clock that never runs
/// backwards. Nothing inside it is known here.
#[verifier::external_type_specification]
#[verifier::external_body]
pub struct ExInstant(std::time::Instant);

/// Calls `std::time::Instant::now`. Nothing is claimed of the instant.
#[verifier::external_body]
fn instant_now() -> (i: std::time::Instant) {
    std::time::Instant::now()
}

/// Calls `std::time::Instant::saturating_duration_since`, which gives the
/// time from `earlier` to `later`, or none where `earlier` is the later of
/// the two. Nothing is claimed of the duration.
#[verifier::external_body]
fn instant_since(later: &std::time::Instant, earlier: &std::time::Instant) -> (d:
    std::time::Duration) {
    later.saturating_duration_since(*earlier)
}

/// Calls `std::time::Duration::as_millis`, which gives the whole
/// milliseconds of the duration. Nothing is claimed of their number.
#[verifier::external_body]
fn duration_as_millis(d: &std::time::Duration) -> (ms: u128) {
    d.as_millis()
}

/// The number of milliseconds as a point in time: a number too large for
/// one counts as the latest point there is.
pub open spec fn spec_saturate(ms: u128) -> Millis {
    if ms > u64::MAX {
        u64::MAX
    } else {
        ms as u64
    }
}

/// The number of milliseconds as a point in time.
pub fn saturate(ms: u128) -> (m: Millis)
    ensures
        m == spec_saturate(ms),
{
    if ms > u64::MAX as u128 {
        u64::MAX
    } else {
        ms as u64
    }
}

/// A clock that starts at zero when it is made and never runs backwards.
#[derive(Debug, Clone, Copy)]
pub struct Stopwatch {
    start: std::time::Instant,
}

impl Stopwatch {
    /// A clock that starts now.
    pub fn start() -> (w: Self) {
        Self { start: instant_now() }
    }

    /// The milliseconds since the clock was started. How many they are,
    /// nothing here can say.
    pub fn elapsed(&self) -> (m: Millis) {
        let now = instant_now();
        let passed = instant_since(&now, &self.start);
        saturate(duration_as_millis(&passed))
    }
}

/// How long ago `stored` is at `now`. A `stored` in the future is of age zero.
pub open spec fn spec_age(now: Millis, stored: Millis) -> Millis {
    if now >= stored {
        (now - stored) as u64
    } else {
        0
    }
}

/// How long ago `stored` is at `now`.
pub fn age(now: Millis, stored: Millis) -> (a: Millis)
    ensures
        a == spec_age(now, stored),
{
    if now >= stored {
        now - stored
    } else {
        0
    }
}

} // verus!
