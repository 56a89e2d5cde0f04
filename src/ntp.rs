//! Clock-offset estimation from the four timestamps of an SNTP exchange.
//!
//! With T1 the time a request leaves the client, T2 the time the server
//! receives it, T3 the time the server replies and T4 the time the reply
//! reaches the client, the round-trip delay is `d = (T4 - T1) - (T3 - T2)`
//! and the clock offset is `t = ((T2 - T1) + (T3 - T4)) / 2`.
use vstd::prelude::*;

verus! {

/// Nanoseconds in one second.
pub const NANOS_PER_SEC: i128 = 1_000_000_000;

/// Nanoseconds in one millisecond.
pub const NANOS_PER_MILLI: i128 = 1_000_000;

/// A point in time: whole seconds since an epoch plus a nanosecond part.
#[derive(Clone, Copy, Debug, PartialEq, Eq, Structural)]
pub struct Timestamp {
    pub sec: i64,
    pub nsec: i32,
}

impl Timestamp {
    /// The point in time as a number of nanoseconds since the epoch.
    pub open spec fn nanos(self) -> int {
        self.sec as int * 1_000_000_000 + self.nsec as int
    }

    /// Nanoseconds since the epoch, exactly.
    pub fn total_nanos(&self) -> (r: i128)
        ensures
            r as int == self.nanos(),
    {
        self.sec as i128 * NANOS_PER_SEC + self.nsec as i128
    }

    /// A timestamp from a number of milliseconds since the epoch.
    pub fn from_millis(ms: i64) -> (r: Timestamp)
        ensures
            r.nanos() == ms as int * 1_000_000,
    {
        let sec: i64 = ms / 1000;
        let rem: i64 = ms % 1000;
        Timestamp { sec, nsec: (rem * 1_000_000) as i32 }
    }
}

/// The four timestamps of one exchange with a time server.
#[derive(Clone, Copy, Debug, PartialEq, Eq, Structural)]
pub struct Sample {
    /// T1: the request left this host.
    pub orig: Timestamp,
    /// T2: the server received the request.
    pub recv: Timestamp,
    /// T3: the server sent its reply.
    pub transmit: Timestamp,
    /// T4: the reply reached this host.
    pub dest: Timestamp,
}

/// Integer division rounded toward zero, for a positive divisor.
pub open spec fn div_toward_zero(x: int, d: int) -> int
    recommends
        d > 0,
{
    if x >= 0 {
        x / d
    } else {
        -((-x) / d)
    }
}

/// The clock offset in nanoseconds: half of `(T2 - T1) + (T3 - T4)`,
/// rounded down to a whole nanosecond.
pub open spec fn offset_nanos_of(s: Sample) -> int {
    ((s.recv.nanos() - s.orig.nanos()) + (s.transmit.nanos() - s.dest.nanos())) / 2
}

/// The clock offset in whole milliseconds, rounded toward zero.
pub open spec fn offset_millis_of(s: Sample) -> int {
    div_toward_zero(offset_nanos_of(s), 1_000_000)
}

/// The round-trip delay `(T4 - T1) - (T3 - T2)` in nanoseconds.
pub open spec fn delay_nanos_of(s: Sample) -> int {
    (s.dest.nanos() - s.orig.nanos()) - (s.transmit.nanos() - s.recv.nanos())
}

/// The round-trip delay in whole milliseconds, rounded toward zero.
pub open spec fn delay_millis_of(s: Sample) -> int {
    div_toward_zero(delay_nanos_of(s), 1_000_000)
}

/// A server clock that runs `c` nanoseconds further ahead moves the offset
/// by exactly `c`, whatever the rounding of the halving.
pub proof fn lemma_offset_follows_server_shift(s: Sample, shifted: Sample, c: int)
    requires
        shifted.orig == s.orig,
        shifted.dest == s.dest,
        shifted.recv.nanos() == s.recv.nanos() + c,
        shifted.transmit.nanos() == s.transmit.nanos() + c,
    ensures
        offset_nanos_of(shifted) == offset_nanos_of(s) + c,
{
}

/// Whether an offset of `ms` milliseconds is beyond `threshold`.
pub open spec fn beyond(ms: int, threshold: int) -> bool {
    ms > threshold || -ms > threshold
}

/// `x / d` rounded toward zero, for `d > 0`.
fn div_trunc(x: i128, d: i128) -> (r: i128)
    requires
        d > 0,
        x > i128::MIN,
    ensures
        r as int == div_toward_zero(x as int, d as int),
{
    if x >= 0 {
        x / d
    } else {
        let q = (-x) / d;
        -q
    }
}

/// `x / 2` rounded down.
fn half_floor(x: i128) -> (r: i128)
    requires
        x > i128::MIN,
    ensures
        r as int == (x as int) / 2,
{
    if x >= 0 {
        x / 2
    } else {
        let m = -x;
        let q = m / 2 + m % 2;
        -q
    }
}

/// The clock offset of `s` in nanoseconds.
pub fn clock_offset_nanos(s: &Sample) -> (r: i128)
    ensures
        r as int == offset_nanos_of(*s),
{
    let t1 = s.orig.total_nanos();
    let t2 = s.recv.total_nanos();
    let t3 = s.transmit.total_nanos();
    let t4 = s.dest.total_nanos();
    half_floor((t2 - t1) + (t3 - t4))
}

/// The clock offset of `s` in whole milliseconds, rounded toward zero.
pub fn clock_offset_millis(s: &Sample) -> (r: i128)
    ensures
        r as int == offset_millis_of(*s),
{
    div_trunc(clock_offset_nanos(s), NANOS_PER_MILLI)
}

/// The round-trip delay of `s` in nanoseconds.
pub fn round_trip_delay_nanos(s: &Sample) -> (r: i128)
    ensures
        r as int == delay_nanos_of(*s),
{
    let t1 = s.orig.total_nanos();
    let t2 = s.recv.total_nanos();
    let t3 = s.transmit.total_nanos();
    let t4 = s.dest.total_nanos();
    (t4 - t1) - (t3 - t2)
}

/// The round-trip delay of `s` in whole milliseconds, rounded toward zero.
pub fn round_trip_delay_millis(s: &Sample) -> (r: i128)
    ensures
        r as int == delay_millis_of(*s),
{
    div_trunc(round_trip_delay_nanos(s), NANOS_PER_MILLI)
}

/// Seconds between two checks.
pub const CHECK_INTERVAL_SECS: u64 = 10;

/// Seconds of silence added after a run of warnings.
pub const BACKOFF_SECS: u64 = 1000;

/// Warnings in a row that start a silence.
pub const WARNINGS_BEFORE_BACKOFF: u8 = 10;

/// The warnings in a row and the pause in seconds before the next check,
/// after a check with `warnings` before it that gave `overflow`.
pub open spec fn next_check_of(warnings: u8, overflow: bool) -> (u8, u64) {
    if !overflow {
        (0, 10)
    } else if warnings as int + 1 >= 10 {
        (0, 1010)
    } else {
        ((warnings + 1) as u8, 10)
    }
}

/// One step of the clock check loop: a warning adds to the run of warnings,
/// the tenth in a row pauses the loop for the back-off as well and starts a
/// new run, and a check without a warning ends the run.
pub fn next_check(warnings: u8, overflow: bool) -> (r: (u8, u64))
    ensures
        r == next_check_of(warnings, overflow),
{
    if !overflow {
        (0, CHECK_INTERVAL_SECS)
    } else if warnings >= WARNINGS_BEFORE_BACKOFF - 1 {
        (0, BACKOFF_SECS + CHECK_INTERVAL_SECS)
    } else {
        (warnings + 1, CHECK_INTERVAL_SECS)
    }
}

/// Settings of the clock sanity check.
#[derive(Clone, Debug)]
pub struct Ntp {
    /// Whether the check runs at all.
    pub enabled: bool,
    /// The largest tolerated offset, in milliseconds.
    pub threshold: i64,
    /// Address of the time server, `host:port`.
    pub address: String,
}

impl Ntp {
    /// Whether the system clock is off by more than the threshold, given the
    /// outcome of one exchange with the time server. A failed exchange
    /// (`None`) leaves the offset unknown and counts as beyond the threshold.
    pub fn is_clock_offset_overflow(&self, sample: Option<Sample>) -> (r: bool)
        ensures
            r == match sample {
                None => true,
                Some(s) => beyond(offset_millis_of(s), self.threshold as int),
            },
    {
        match sample {
            None => true,
            Some(s) => {
                let ms = clock_offset_millis(&s);
                let t = self.threshold as i128;
                ms > t || -ms > t
            },
        }
    }
}

} // verus!
