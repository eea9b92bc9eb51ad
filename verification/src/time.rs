//! Moments of the wall clock.
use vstd::prelude::*;

verus! {

/// Nanoseconds in a second.
pub const NANOS_PER_SEC: u32 = 1_000_000_000;

/// The first second that the calendar of `chrono` can hold.
pub const FIRST_SECOND: i64 = -8_334_601_228_800;

/// The last second that the calendar of `chrono` can hold.
pub const LAST_SECOND: i64 = 8_210_266_876_799;

/// A moment: whole seconds since the Unix epoch and the nanoseconds past them.
///
/// Its view is the number of nanoseconds since the epoch.
#[derive(Clone, Copy, PartialEq, Eq, Structural, Debug)]
pub struct Timestamp {
    secs: i64,
    nanos: u32,
}

impl View for Timestamp {
    type V = int;

    closed spec fn view(&self) -> int {
        self.secs * NANOS_PER_SEC + self.nanos
    }
}

/// Whether the calendar holds the moment `nanos` nanoseconds after the epoch.
pub open spec fn in_calendar(nanos: int) -> bool {
    FIRST_SECOND * NANOS_PER_SEC <= nanos < (LAST_SECOND + 1) * NANOS_PER_SEC
}

/// Whether `times` are `n` moments, all of them in the calendar.
pub open spec fn readings(times: Seq<Timestamp>, n: nat) -> bool {
    &&& times.len() == n
    &&& forall|i: int| 0 <= i < times.len() ==> in_calendar((#[trigger] times[i])@)
}

/// The whole seconds in a span of `nanos` nanoseconds; a fraction is cut off, so that
/// a span of less than a second in either direction has none.
pub open spec fn whole_seconds(nanos: int) -> int {
    if nanos >= 0 {
        nanos / (NANOS_PER_SEC as int)
    } else {
        -((-nanos) / (NANOS_PER_SEC as int))
    }
}

impl Timestamp {
    #[verifier::type_invariant]
    spec fn is_valid(self) -> bool {
        &&& FIRST_SECOND <= self.secs <= LAST_SECOND
        &&& self.nanos < NANOS_PER_SEC
    }

    /// The moment `nanos` nanoseconds after second `secs` of the Unix epoch, if the
    /// calendar holds that second and `nanos` is less than a second.
    pub fn new(secs: i64, nanos: u32) -> (moment: Option<Timestamp>)
        ensures
            moment is Some <==> FIRST_SECOND <= secs <= LAST_SECOND && nanos < NANOS_PER_SEC,
            moment matches Some(m) ==> m@ == secs * NANOS_PER_SEC + nanos,
    {
        if FIRST_SECOND <= secs && secs <= LAST_SECOND && nanos < NANOS_PER_SEC {
            Some(Timestamp { secs, nanos })
        } else {
            None
        }
    }

    /// The current moment.
    pub fn now() -> (moment: Timestamp)
        ensures
            in_calendar(moment@),
    {
        let (secs, nanos) = clock();
        Timestamp { secs, nanos }
    }

    /// How many whole seconds have passed from `earlier` to `self`; negative if
    /// `earlier` is the later of the two.
    pub fn seconds_since(&self, earlier: &Timestamp) -> (secs: i64)
        ensures
            secs == whole_seconds(self@ - earlier@),
    {
        proof {
            use_type_invariant(self);
            use_type_invariant(earlier);
        }
        seconds_between(self.secs, self.nanos, earlier.secs, earlier.nanos)
    }
}

/// Calls `chrono::Local::now` and takes its `timestamp` and `timestamp_subsec_nanos`.
///
/// Of the moment read nothing is known but that the calendar holds it and that its
/// fraction is less than a second: the system's clock has no leap seconds. On a machine
/// whose clock stands before the Unix epoch, or whose data on its time zone cannot be
/// used, `chrono` panics.
#[verifier::external_body]
fn clock() -> (moment: (i64, u32))
    ensures
        FIRST_SECOND <= moment.0 <= LAST_SECOND,
        moment.1 < NANOS_PER_SEC,
{
    let now = chrono::Local::now();
    (now.timestamp(), now.timestamp_subsec_nanos())
}

/// Makes two `chrono::DateTime`s, subtracts the second from the first and takes
/// `num_seconds` of the difference.
///
/// The difference counts every nanosecond between the two moments, and `num_seconds`
/// cuts its fraction off toward zero.
#[verifier::external_body]
fn seconds_between(secs: i64, nanos: u32, earlier_secs: i64, earlier_nanos: u32) -> (whole: i64)
    requires
        FIRST_SECOND <= secs <= LAST_SECOND,
        FIRST_SECOND <= earlier_secs <= LAST_SECOND,
        nanos < NANOS_PER_SEC,
        earlier_nanos < NANOS_PER_SEC,
    ensures
        whole == whole_seconds(
            (secs * NANOS_PER_SEC + nanos) - (earlier_secs * NANOS_PER_SEC + earlier_nanos),
        ),
{
    let moment = chrono::DateTime::from_timestamp(secs, nanos).unwrap();
    let earlier = chrono::DateTime::from_timestamp(earlier_secs, earlier_nanos).unwrap();
    (moment - earlier).num_seconds()
}

/// The whole seconds of a span are what is left of it when less than a second is cut off
/// toward zero.
pub proof fn law_whole_seconds_cut_toward_zero(nanos: int)
    ensures
        nanos >= 0 ==> whole_seconds(nanos) * 1_000_000_000 <= nanos < (whole_seconds(nanos) + 1)
            * 1_000_000_000,
        nanos < 0 ==> (whole_seconds(nanos) - 1) * 1_000_000_000 < nanos <= whole_seconds(nanos)
            * 1_000_000_000,
{
}

/// A span in one direction has as many whole seconds as the same span in the other.
pub proof fn law_whole_seconds_are_symmetric(nanos: int)
    ensures
        whole_seconds(-nanos) == -whole_seconds(nanos),
{
}

/// The calendar reaches from the first second of the year -262143 to the last of the year
/// 262142.
pub proof fn law_calendar_ends(nanos: int)
    ensures
        FIRST_SECOND == -8_334_601_228_800,
        LAST_SECOND == 8_210_266_876_799,
        NANOS_PER_SEC == 1_000_000_000,
        in_calendar(nanos) <==> -8_334_601_228_800_000_000_000 <= nanos
            < 8_210_266_876_800_000_000_000,
{
}

/// Readings of the clock lie in the calendar, as many as were taken.
pub proof fn law_readings_lie_in_the_calendar(times: Seq<Timestamp>, n: nat)
    requires
        readings(times, n),
    ensures
        times.len() == n,
        forall|i: int|
            0 <= i < n ==> -8_334_601_228_800_000_000_000 <= (#[trigger] times[i])@
                < 8_210_266_876_800_000_000_000,
{
    assert forall|i: int| 0 <= i < n implies -8_334_601_228_800_000_000_000 <= (
    #[trigger] times[i])@ < 8_210_266_876_800_000_000_000 by {
        assert(in_calendar(times[i]@));
    }
}

} // verus!
