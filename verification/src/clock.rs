use vstd::prelude::*;

verus! {

/// Nanoseconds in one second.
pub const NANOS_PER_SEC: u32 = 1_000_000_000;

/// Instants the library handles lie within this many seconds of the Unix
/// epoch, on either side: well past the calendar that the system clock can
/// report, with room for the offsets the library adds to a reading.
pub const INSTANT_SECS_LIMIT: i64 = 1_125_899_906_842_624;

/// A reading of the system clock that the library accepts lies within this
/// many seconds of the Unix epoch, well past the end of chrono's calendar.
pub const CLOCK_SECS_LIMIT: i64 = 281_474_976_710_656;

/// An instant in UTC: whole seconds since the Unix epoch and the
/// nanoseconds past that second.
#[derive(Clone, Copy, Debug, PartialEq, Eq, Structural)]
pub struct Timestamp {
    pub secs: i64,
    pub nanos: u32,
}

impl Timestamp {
    /// The instant as a count of nanoseconds since the Unix epoch.
    pub open spec fn nanos_since_epoch(self) -> int {
        self.secs * 1_000_000_000 + self.nanos
    }

    /// The instant lies in the range the library handles, with fewer than
    /// a second's worth of nanoseconds past its second.
    pub open spec fn wf(self) -> bool {
        &&& -INSTANT_SECS_LIMIT <= self.secs <= INSTANT_SECS_LIMIT
        &&& self.nanos < NANOS_PER_SEC
    }
}

/// What is known of every reading of the system clock: it is not before
/// the Unix epoch, and within the range the library accepts.
pub open spec fn is_clock_reading(t: Timestamp) -> bool {
    &&& 0 <= t.secs <= CLOCK_SECS_LIMIT
    &&& t.nanos < NANOS_PER_SEC
}

/// The span from `earlier` to `later`, in nanoseconds (negative when
/// `later` comes first).
pub open spec fn span_nanos(later: Timestamp, earlier: Timestamp) -> int {
    later.nanos_since_epoch() - earlier.nanos_since_epoch()
}

/// The whole seconds in a span of `d` nanoseconds, rounded toward zero.
pub open spec fn whole_seconds(d: int) -> int {
    if d >= 0 {
        d / 1_000_000_000
    } else {
        -((-d) / 1_000_000_000)
    }
}

/// The whole minutes in a span of `d` nanoseconds: its whole seconds
/// divided by 60, rounded toward zero.
pub open spec fn whole_minutes(d: int) -> int {
    let s = whole_seconds(d);
    if s >= 0 {
        s / 60
    } else {
        -((-s) / 60)
    }
}

/// The instant `secs` whole seconds after `t`.
pub open spec fn seconds_after(t: Timestamp, secs: int) -> Timestamp {
    Timestamp { secs: (t.secs + secs) as i64, nanos: t.nanos }
}

/// The system clock could not be read as an instant after the Unix epoch.
#[derive(Clone, Copy, Debug, PartialEq, Eq, Structural)]
pub struct ClockUnreadable;

/// The time elapsed since the Unix epoch by the system clock, as whole
/// seconds and the nanoseconds past them, through
/// `std::time::SystemTime::elapsed` on `UNIX_EPOCH`.
///
/// `elapsed` fails (`None` here) when the clock reads earlier than the
/// epoch; `Duration::subsec_nanos` is always below one second. Which time
/// is read is not stated.
#[verifier::external_body]
fn unix_epoch_elapsed() -> (r: Option<(u64, u32)>)
    ensures
        r matches Some(p) ==> p.1 < NANOS_PER_SEC,
{
    match std::time::UNIX_EPOCH.elapsed() {
        Ok(d) => Some((d.as_secs(), d.subsec_nanos())),
        Err(_) => None,
    }
}

/// The UTC instant `secs` seconds and `nanos` nanoseconds after the Unix
/// epoch, through `chrono::DateTime::from_timestamp`, read back with
/// `timestamp` and `timestamp_subsec_nanos`.
///
/// chrono answers `None` for seconds outside its calendar or nanoseconds
/// it does not accept, and otherwise an instant whose timestamp and
/// sub-second nanoseconds are the ones given. Which inputs are in range is
/// not stated.
#[verifier::external_body]
fn utc_from_timestamp(secs: i64, nanos: u32) -> (r: Option<Timestamp>)
    ensures
        r matches Some(t) ==> t.secs == secs && t.nanos == nanos,
{
    match chrono::DateTime::from_timestamp(secs, nanos) {
        Some(dt) => Some(Timestamp { secs: dt.timestamp(), nanos: dt.timestamp_subsec_nanos() }),
        None => None,
    }
}

/// Reads the system clock as a UTC instant: the time elapsed since the
/// Unix epoch, taken as a chrono UTC instant. Fails when the clock reads
/// before the epoch or outside the range chrono and the library handle.
pub fn utc_now() -> (r: Result<Timestamp, ClockUnreadable>)
    ensures
        r matches Ok(t) ==> is_clock_reading(t),
{
    match unix_epoch_elapsed() {
        None => Err(ClockUnreadable),
        Some((secs, nanos)) => {
            if secs > CLOCK_SECS_LIMIT as u64 {
                Err(ClockUnreadable)
            } else {
                match utc_from_timestamp(secs as i64, nanos) {
                    Some(t) => Ok(t),
                    None => Err(ClockUnreadable),
                }
            }
        },
    }
}

/// The span from `earlier` to `later`, in nanoseconds.
pub fn nanos_between(later: Timestamp, earlier: Timestamp) -> (r: i128)
    requires
        later.wf(),
        earlier.wf(),
    ensures
        r == span_nanos(later, earlier),
{
    let ds: i128 = later.secs as i128 - earlier.secs as i128;
    let dn: i128 = later.nanos as i128 - earlier.nanos as i128;
    ds * 1_000_000_000 + dn
}

/// The whole seconds from `earlier` to `later`, rounded toward zero.
pub fn whole_seconds_between(later: Timestamp, earlier: Timestamp) -> (r: i64)
    requires
        later.wf(),
        earlier.wf(),
    ensures
        r == whole_seconds(span_nanos(later, earlier)),
{
    let d = nanos_between(later, earlier);
    if d >= 0 {
        let q = (d as u128) / 1_000_000_000;
        q as i64
    } else {
        let q = ((-d) as u128) / 1_000_000_000;
        -(q as i64)
    }
}

/// The whole minutes from `earlier` to `later`, rounded toward zero.
pub fn whole_minutes_between(later: Timestamp, earlier: Timestamp) -> (r: i64)
    requires
        later.wf(),
        earlier.wf(),
    ensures
        r == whole_minutes(span_nanos(later, earlier)),
{
    let s = whole_seconds_between(later, earlier);
    if s >= 0 {
        s / 60
    } else {
        -((-s) / 60)
    }
}

/// Whether `a` comes strictly before `b`.
pub fn is_before(a: Timestamp, b: Timestamp) -> (r: bool)
    requires
        a.wf(),
        b.wf(),
    ensures
        r == (a.nanos_since_epoch() < b.nanos_since_epoch()),
{
    nanos_between(b, a) > 0
}

/// The instant `secs` whole seconds after `t`.
pub fn add_seconds(t: Timestamp, secs: i64) -> (r: Timestamp)
    requires
        -INSTANT_SECS_LIMIT <= t.secs + secs <= INSTANT_SECS_LIMIT,
    ensures
        r == seconds_after(t, secs as int),
{
    Timestamp { secs: t.secs + secs, nanos: t.nanos }
}

} // verus!
