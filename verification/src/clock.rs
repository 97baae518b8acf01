//! Points in time, as seconds and nanoseconds since the Unix epoch, and the
//! readings of the two clocks that the protocol consults.

use vstd::prelude::*;

verus! {

/// Earliest second that a UTC date-time can denote (1 January of year -262143).
pub const MIN_UNIX_SECS: i64 = -8334601228800i64;

/// Latest second that a UTC date-time can denote (31 December of year 262142).
pub const MAX_UNIX_SECS: i64 = 8210266876799i64;

/// Nanoseconds in a second.
pub const NANOS_PER_SEC: u32 = 1_000_000_000u32;

/// Abstract value of a [`Timestamp`].
pub struct TimestampView {
    pub secs: int,
    pub nanos: int,
}

impl TimestampView {
    /// Within the UTC range, with a sub-second part below one second, or below
    /// two seconds in the last second of a minute (a leap second), as chrono's
    /// UTC date-times are.
    pub open spec fn valid(self) -> bool {
        &&& MIN_UNIX_SECS <= self.secs <= MAX_UNIX_SECS
        &&& 0 <= self.nanos
        &&& (self.nanos < NANOS_PER_SEC || (self.nanos < 2_000_000_000 && self.secs % 60 == 59))
    }

    /// The instant lies in a leap second.
    pub open spec fn is_leap(self) -> bool {
        self.nanos >= NANOS_PER_SEC
    }

    /// Seconds since midnight.
    pub open spec fn time_of_day(self) -> int {
        self.secs % 86400
    }

    /// Nanoseconds since the epoch.
    pub open spec fn total_nanos(self) -> int {
        self.secs * 1_000_000_000 + self.nanos
    }
}

/// A UTC instant: whole seconds since the Unix epoch (leap seconds not
/// counted) and the nanoseconds past that second, a full second more during a
/// leap second. Always a UTC date-time that chrono can represent.
#[derive(Clone, Copy, Debug)]
pub struct Timestamp {
    secs: i64,
    nanos: u32,
}

impl View for Timestamp {
    type V = TimestampView;

    closed spec fn view(&self) -> TimestampView {
        TimestampView { secs: self.secs as int, nanos: self.nanos as int }
    }
}

impl Timestamp {
    #[verifier::type_invariant]
    closed spec fn well_formed(self) -> bool {
        self@.valid()
    }

    /// The instant `secs` seconds and `nanos` nanoseconds after the epoch, or
    /// `None` when that is outside the UTC range, or `nanos` is a whole second
    /// or more outside the last second of a minute, or two seconds or more.
    pub fn from_timestamp(secs: i64, nanos: u32) -> (res: Option<Timestamp>)
        ensures
            res is Some <==> (TimestampView { secs: secs as int, nanos: nanos as int }).valid(),
            res matches Some(t) ==> t@ == (TimestampView { secs: secs as int, nanos: nanos as int }),
    {
        if MIN_UNIX_SECS <= secs && secs <= MAX_UNIX_SECS {
            let from_min: u64 = (secs - MIN_UNIX_SECS) as u64;
            proof {
                lemma_mod_shift(secs as int, 60);
            }
            if nanos < NANOS_PER_SEC || (nanos < 2_000_000_000 && from_min % 60 == 59) {
                return Some(Timestamp { secs, nanos });
            }
        }
        None
    }

    /// Whole seconds since the epoch.
    pub fn timestamp(&self) -> (res: i64)
        ensures
            res == self@.secs,
            MIN_UNIX_SECS <= res <= MAX_UNIX_SECS,
    {
        proof {
            use_type_invariant(self);
        }
        self.secs
    }

    /// Nanoseconds past the whole second (a second more in a leap second).
    pub fn timestamp_subsec_nanos(&self) -> (res: u32)
        ensures
            res == self@.nanos,
            res < 2_000_000_000,
            res >= NANOS_PER_SEC ==> self@.secs % 60 == 59,
    {
        proof {
            use_type_invariant(self);
        }
        self.nanos
    }

    /// The current instant: the system clock's reading since the epoch, made a
    /// UTC date-time by chrono. `None` when the clock reads before the epoch or
    /// past the UTC range.
    pub fn now() -> (res: Option<Timestamp>)
        ensures
            res matches Some(t) ==> t@.valid() && t@.secs >= 0 && !t@.is_leap(),
    {
        match system_time_since_epoch() {
            None => None,
            Some((secs, nanos)) => {
                if secs > MAX_UNIX_SECS as u64 {
                    return None;
                }
                match utc_from_unix(secs as i64, nanos) {
                    Some((s, n)) => Some(Timestamp { secs: s, nanos: n }),
                    None => None,
                }
            },
        }
    }
}

/// chrono's `DateTime::from_timestamp(secs, nanos)`, read back through the
/// date-time's `timestamp()` and `timestamp_subsec_nanos()`. By chrono's source,
/// a date-time is made exactly when `secs` lies in the UTC range and `nanos` is
/// below one second, or below two seconds in the last second of a minute (a leap
/// second); and chrono documents that it reads back as the same two numbers.
#[verifier::external_body]
fn utc_from_unix(secs: i64, nanos: u32) -> (res: Option<(i64, u32)>)
    ensures
        res is Some <==> (MIN_UNIX_SECS <= secs <= MAX_UNIX_SECS && (nanos < NANOS_PER_SEC || (nanos
            < 2_000_000_000 && secs % 60 == 59))),
        res matches Some(r) ==> r == (secs, nanos),
{
    chrono::DateTime::from_timestamp(secs, nanos).map(|t| (t.timestamp(), t.timestamp_subsec_nanos()))
}

/// Reads std's `SystemTime::now().duration_since(UNIX_EPOCH)`: the duration's
/// `as_secs()` and `subsec_nanos()` when the system clock reads at or after the
/// epoch (std documents the latter as below one second), `None` when it reads
/// before. Nothing else is claimed of the reading: it is the time.
#[verifier::external_body]
pub(crate) fn system_time_since_epoch() -> (res: Option<(u64, u32)>)
    ensures
        res matches Some(r) ==> r.1 < NANOS_PER_SEC,
{
    std::time::SystemTime::now().duration_since(std::time::UNIX_EPOCH).ok().map(|d| (d.as_secs(), d.subsec_nanos()))
}

/// Whole seconds in a span of `nanos` nanoseconds, truncated toward zero.
pub open spec fn whole_seconds(nanos: int) -> int {
    if nanos >= 0 {
        nanos / 1_000_000_000
    } else {
        -((-nanos) / 1_000_000_000)
    }
}

/// The earliest second is a midnight: shifting by it keeps the time of day,
/// and the second within the minute.
proof fn lemma_mod_shift(secs: int, m: int)
    requires
        m == 60 || m == 86400,
    ensures
        (secs - MIN_UNIX_SECS) % m == secs % m,
{
    let k: int = if m == 60 { 138910020480 } else { 96465292 };
    assert(-MIN_UNIX_SECS == m * k);
    vstd::arithmetic::div_mod::lemma_mod_multiples_vanish(k, secs, m);
}

/// The leap-second correction chrono applies when it subtracts two times of
/// day: a leap second on the earlier side that the later time of day has passed
/// is counted, one on the later side before the earlier time of day is not.
pub open spec fn leap_adjust(later: TimestampView, earlier: TimestampView) -> int {
    if later.time_of_day() > earlier.time_of_day() && earlier.is_leap() {
        1
    } else if later.time_of_day() < earlier.time_of_day() && later.is_leap() {
        -1
    } else {
        0
    }
}

/// Nanoseconds from `earlier` to `later` as chrono's `signed_duration_since`
/// counts them: the difference of the days and of the times of day, with the
/// leap-second correction.
pub open spec fn nanos_between(later: TimestampView, earlier: TimestampView) -> int {
    (later.secs - earlier.secs + leap_adjust(later, earlier)) * 1_000_000_000 + (later.nanos - earlier.nanos)
}

/// Whole seconds from `earlier` to `later`, truncated toward zero (negative
/// when `later` comes first): chrono's `signed_duration_since(..).num_seconds()`.
pub open spec fn seconds_between(later: TimestampView, earlier: TimestampView) -> int {
    whole_seconds(nanos_between(later, earlier))
}

/// Between instants that are not leap seconds, chrono's count is the plain
/// difference of the nanoseconds since the epoch.
pub proof fn lemma_nanos_between_plain(later: TimestampView, earlier: TimestampView)
    requires
        !later.is_leap(),
        !earlier.is_leap(),
    ensures
        nanos_between(later, earlier) == later.total_nanos() - earlier.total_nanos(),
{
}

/// Whole seconds from `earlier` to `later`, truncated toward zero: what
/// chrono's `signed_duration_since(..).num_seconds()` gives for the two UTC
/// date-times, leap seconds included.
pub fn seconds_since(later: &Timestamp, earlier: &Timestamp) -> (res: i64)
    ensures
        res == seconds_between(later@, earlier@),
        MIN_UNIX_SECS - MAX_UNIX_SECS - 3 <= res <= MAX_UNIX_SECS - MIN_UNIX_SECS + 3,
{
    let ls = later.timestamp();
    let es = earlier.timestamp();
    let ln = later.timestamp_subsec_nanos();
    let en = earlier.timestamp_subsec_nanos();
    let later_tod: u64 = ((ls - MIN_UNIX_SECS) as u64) % 86400;
    let earlier_tod: u64 = ((es - MIN_UNIX_SECS) as u64) % 86400;
    proof {
        lemma_mod_shift(ls as int, 86400);
        lemma_mod_shift(es as int, 86400);
    }
    let adjust: i128 = if later_tod > earlier_tod && en >= NANOS_PER_SEC {
        1
    } else if later_tod < earlier_tod && ln >= NANOS_PER_SEC {
        -1
    } else {
        0
    };
    assert(adjust == leap_adjust(later@, earlier@));
    let d: i128 = (ls as i128 - es as i128 + adjust) * 1_000_000_000i128 + (ln as i128 - en as i128);
    assert(d == nanos_between(later@, earlier@));
    let whole: i128 = if d >= 0 {
        d / 1_000_000_000i128
    } else {
        -((-d) / 1_000_000_000i128)
    };
    assert(MIN_UNIX_SECS - MAX_UNIX_SECS - 3 <= whole <= MAX_UNIX_SECS - MIN_UNIX_SECS + 3) by {
        assert((MIN_UNIX_SECS - MAX_UNIX_SECS - 3) * 1_000_000_000 <= d);
        assert(d <= (MAX_UNIX_SECS - MIN_UNIX_SECS + 3) * 1_000_000_000);
    }
    whole as i64
}

/// The seconds from one instant to another are the negation of those back:
/// counting truncates toward zero on both sides. From an instant to itself
/// there are none.
pub proof fn lemma_seconds_between_antisymmetric(a: TimestampView, b: TimestampView)
    ensures
        seconds_between(a, b) == -seconds_between(b, a),
        seconds_between(a, a) == 0,
{
}

/// Away from leap seconds, whole seconds never decrease as the later instant
/// moves later. (chrono's counting across a leap second is not monotone.)
pub proof fn lemma_seconds_between_monotone(later1: TimestampView, later2: TimestampView, earlier: TimestampView)
    requires
        later1.total_nanos() <= later2.total_nanos(),
        !later1.is_leap(),
        !later2.is_leap(),
        !earlier.is_leap(),
    ensures
        seconds_between(later1, earlier) <= seconds_between(later2, earlier),
{
    let d1 = later1.total_nanos() - earlier.total_nanos();
    let d2 = later2.total_nanos() - earlier.total_nanos();
    if d1 >= 0 {
        vstd::arithmetic::div_mod::lemma_div_is_ordered(d1, d2, 1_000_000_000);
    } else if d2 >= 0 {
        assert(whole_seconds(d1) <= 0);
    } else {
        vstd::arithmetic::div_mod::lemma_div_is_ordered(-d2, -d1, 1_000_000_000);
    }
}

} // verus!
