//! Addresses that may not connect for a while.
use crate::address::IpAddress;
use crate::time::{in_calendar, readings, whole_seconds, Timestamp};
use vstd::prelude::*;

verus! {

/// Why an address was banned.
#[derive(Clone, Copy, PartialEq, Eq, Structural, Debug)]
pub enum BanReason {
    WrongPassword,
    Spam,
}

/// An address that was banned at some moment.
#[derive(Clone, Copy, PartialEq, Eq, Structural, Debug)]
pub struct BannedAddress {
    pub banned_at: Timestamp,
    pub addr: IpAddress,
    pub reason: BanReason,
}

/// Whether a ban of `delay_sec` seconds is in force at moment `now`.
pub open spec fn in_force(ban: BannedAddress, now: int, delay_sec: int) -> bool {
    whole_seconds(now - ban.banned_at@) < delay_sec
}

/// The bans that are in force, each at its own reading of the clock, in their order.
pub open spec fn bans_in_force(
    bans: Seq<BannedAddress>,
    times: Seq<Timestamp>,
    delay_sec: int,
) -> Seq<BannedAddress>
    decreases bans.len(),
{
    if bans.len() == 0 {
        Seq::empty()
    } else {
        let rest = bans_in_force(bans.drop_last(), times.drop_last(), delay_sec);
        if in_force(bans.last(), times.last()@, delay_sec) {
            rest.push(bans.last())
        } else {
            rest
        }
    }
}

/// Whether some ban names `addr`.
pub open spec fn names(bans: Seq<BannedAddress>, addr: IpAddress) -> bool {
    exists|i: int| 0 <= i < bans.len() && #[trigger] bans[i].addr == addr
}

impl BannedAddress {
    /// Whether this ban, of `delay_sec` seconds, is in force at `now`.
    pub fn is_in_force(&self, now: &Timestamp, delay_sec: i64) -> (yes: bool)
        ensures
            yes == in_force(*self, now@, delay_sec as int),
    {
        now.seconds_since(&self.banned_at) < delay_sec
    }
}

/// Reads the clock `n` times.
pub fn read_clock(n: usize) -> (times: Vec<Timestamp>)
    ensures
        readings(times@, n as nat),
{
    let mut times: Vec<Timestamp> = Vec::new();
    while times.len() < n
        invariant
            times@.len() <= n,
            forall|i: int| 0 <= i < times@.len() ==> in_calendar((#[trigger] times@[i])@),
        decreases n - times@.len(),
    {
        times.push(Timestamp::now());
    }
    times
}

/// Drops each ban that is no longer in force at its moment in `times`.
pub fn keep_banned_at(bans: &mut Vec<BannedAddress>, times: &Vec<Timestamp>, delay_sec: i64)
    requires
        times@.len() == old(bans)@.len(),
    ensures
        final(bans)@ == bans_in_force(old(bans)@, times@, delay_sec as int),
{
    let mut kept: Vec<BannedAddress> = Vec::new();
    let mut i: usize = 0;
    while i < bans.len()
        invariant
            i <= bans@.len() == times@.len(),
            bans@ == old(bans)@,
            kept@ == bans_in_force(bans@.take(i as int), times@.take(i as int), delay_sec as int),
        decreases bans@.len() - i,
    {
        assert(bans@.take(i + 1).drop_last() == bans@.take(i as int));
        assert(times@.take(i + 1).drop_last() == times@.take(i as int));
        let ban = bans[i];
        if ban.is_in_force(&times[i], delay_sec) {
            kept.push(ban);
        }
        i = i + 1;
    }
    assert(bans@.take(i as int) == bans@);
    assert(times@.take(i as int) == times@);
    *bans = kept;
}

/// Whether some ban names `addr`.
pub fn is_banned(bans: &Vec<BannedAddress>, addr: &IpAddress) -> (yes: bool)
    ensures
        yes == names(bans@, *addr),
{
    let mut i: usize = 0;
    while i < bans.len()
        invariant
            i <= bans@.len(),
            forall|j: int| 0 <= j < i ==> #[trigger] bans@[j].addr != *addr,
        decreases bans@.len() - i,
    {
        if bans[i].addr == *addr {
            return true;
        }
        i = i + 1;
    }
    false
}

/// A ban of at least one second is in force exactly until that many seconds after it
/// was pronounced, and also while the clock stands before that moment.
pub proof fn law_ban_lasts_its_delay(ban: BannedAddress, now: int, delay_sec: int)
    requires
        delay_sec > 0,
    ensures
        in_force(ban, now, delay_sec) <==> now < ban.banned_at@ + delay_sec * 1_000_000_000,
{
}

/// A ban of no second or less is in force only while the clock stands more than its delay
/// and a second before the moment of the ban.
pub proof fn law_ban_without_delay(ban: BannedAddress, now: int, delay_sec: int)
    requires
        delay_sec <= 0,
    ensures
        in_force(ban, now, delay_sec) <==> now <= ban.banned_at@ + (delay_sec - 1) * 1_000_000_000,
{
}

/// A ban that is over at one moment is over at every later moment.
pub proof fn law_ban_stays_over(ban: BannedAddress, now: int, later: int, delay_sec: int)
    requires
        !in_force(ban, now, delay_sec),
        now <= later,
    ensures
        !in_force(ban, later, delay_sec),
{
}

/// An address is named after the bans were sorted out if and only if it is named by
/// one of the bans that were in force.
pub proof fn law_named_iff_in_force(
    bans: Seq<BannedAddress>,
    times: Seq<Timestamp>,
    delay_sec: int,
    addr: IpAddress,
)
    requires
        times.len() == bans.len(),
    ensures
        names(bans_in_force(bans, times, delay_sec), addr) <==> exists|i: int|
            0 <= i < bans.len() && #[trigger] bans[i].addr == addr && in_force(
                bans[i],
                times[i]@,
                delay_sec,
            ),
    decreases bans.len(),
{
    if bans.len() > 0 {
        let rest = bans_in_force(bans.drop_last(), times.drop_last(), delay_sec);
        law_named_iff_in_force(bans.drop_last(), times.drop_last(), delay_sec, addr);
        let kept = bans_in_force(bans, times, delay_sec);
        assert forall|i: int|
            0 <= i < bans.len() && #[trigger] bans[i].addr == addr && in_force(
                bans[i],
                times[i]@,
                delay_sec,
            ) implies names(kept, addr) by {
            if i < bans.len() - 1 {
                assert(bans.drop_last()[i].addr == addr);
                let j = choose|j: int| 0 <= j < rest.len() && #[trigger] rest[j].addr == addr;
                assert(kept[j].addr == addr);
            } else {
                assert(kept[kept.len() - 1].addr == addr);
            }
        }
        if names(kept, addr) {
            let j = choose|j: int| 0 <= j < kept.len() && #[trigger] kept[j].addr == addr;
            if j < rest.len() {
                assert(rest[j].addr == addr);
                let i = choose|i: int|
                    0 <= i < bans.drop_last().len() && #[trigger] bans.drop_last()[i].addr == addr
                        && in_force(bans.drop_last()[i], times.drop_last()[i]@, delay_sec);
                assert(bans[i].addr == addr);
            } else {
                assert(bans[bans.len() - 1].addr == addr);
            }
        }
    }
}

/// The bans that were kept stay kept, all of them and in their order, as long as each
/// is in force.
pub proof fn law_bans_in_force_stay(
    bans: Seq<BannedAddress>,
    times: Seq<Timestamp>,
    delay_sec: int,
)
    requires
        times.len() == bans.len(),
        forall|i: int|
            0 <= i < bans.len() ==> in_force(#[trigger] bans[i], times[i]@, delay_sec),
    ensures
        bans_in_force(bans, times, delay_sec) == bans,
    decreases bans.len(),
{
    if bans.len() > 0 {
        assert forall|i: int| 0 <= i < bans.len() - 1 implies in_force(
            #[trigger] bans.drop_last()[i],
            times.drop_last()[i]@,
            delay_sec,
        ) by {
            assert(in_force(bans[i], times[i]@, delay_sec));
        }
        law_bans_in_force_stay(bans.drop_last(), times.drop_last(), delay_sec);
        assert(in_force(bans[bans.len() - 1], times[bans.len() - 1]@, delay_sec));
        assert(bans.drop_last().push(bans.last()) == bans);
    }
}

/// Sorting the bans out a second time at the moment of the first changes nothing.
pub proof fn law_keeping_banned_is_idempotent(
    bans: Seq<BannedAddress>,
    times: Seq<Timestamp>,
    again: Seq<Timestamp>,
    now: int,
    delay_sec: int,
)
    requires
        times.len() == bans.len(),
        again.len() == bans_in_force(bans, times, delay_sec).len(),
        forall|i: int| 0 <= i < times.len() ==> (#[trigger] times[i])@ == now,
        forall|i: int| 0 <= i < again.len() ==> (#[trigger] again[i])@ == now,
    ensures
        bans_in_force(bans_in_force(bans, times, delay_sec), again, delay_sec) == bans_in_force(
            bans,
            times,
            delay_sec,
        ),
{
    let kept = bans_in_force(bans, times, delay_sec);
    lemma_kept_at_one_moment_in_force(bans, times, now, delay_sec);
    assert forall|i: int| 0 <= i < kept.len() implies in_force(
        #[trigger] kept[i],
        again[i]@,
        delay_sec,
    ) by {
        assert(again[i]@ == now);
    }
    law_bans_in_force_stay(kept, again, delay_sec);
}

/// What is kept at one moment is in force at that moment.
proof fn lemma_kept_at_one_moment_in_force(
    bans: Seq<BannedAddress>,
    times: Seq<Timestamp>,
    now: int,
    delay_sec: int,
)
    requires
        times.len() == bans.len(),
        forall|i: int| 0 <= i < times.len() ==> (#[trigger] times[i])@ == now,
    ensures
        forall|i: int|
            0 <= i < bans_in_force(bans, times, delay_sec).len() ==> in_force(
                #[trigger] bans_in_force(bans, times, delay_sec)[i],
                now,
                delay_sec,
            ),
    decreases bans.len(),
{
    if bans.len() > 0 {
        assert forall|i: int| 0 <= i < times.drop_last().len() implies (
        #[trigger] times.drop_last()[i])@ == now by {
            assert(times[i]@ == now);
        }
        lemma_kept_at_one_moment_in_force(bans.drop_last(), times.drop_last(), now, delay_sec);
        let rest = bans_in_force(bans.drop_last(), times.drop_last(), delay_sec);
        let kept = bans_in_force(bans, times, delay_sec);
        assert forall|i: int| 0 <= i < kept.len() implies in_force(
            #[trigger] kept[i],
            now,
            delay_sec,
        ) by {
            if i < rest.len() {
                assert(kept[i] == rest[i]);
            } else {
                assert(times[times.len() - 1]@ == now);
            }
        }
    }
}

/// Whether `places` are the places of the bans in force among `bans`, from the first to
/// the last.
pub open spec fn places_in_force(
    bans: Seq<BannedAddress>,
    times: Seq<Timestamp>,
    delay_sec: int,
    places: Seq<int>,
) -> bool {
    &&& forall|k: int| 0 <= k < places.len() ==> 0 <= #[trigger] places[k] < bans.len()
    &&& forall|k: int, l: int| 0 <= k < l < places.len() ==> places[k] < places[l]
    &&& forall|i: int|
        0 <= i < bans.len() ==> (in_force(#[trigger] bans[i], times[i]@, delay_sec)
            <==> places.contains(i))
}

/// What is kept are the bans in force, each of them as it was and once, in their order.
pub proof fn law_bans_in_force_are_kept(
    bans: Seq<BannedAddress>,
    times: Seq<Timestamp>,
    delay_sec: int,
)
    requires
        times.len() == bans.len(),
    ensures
        exists|places: Seq<int>|
            #[trigger] places_in_force(bans, times, delay_sec, places) && bans_in_force(
                bans,
                times,
                delay_sec,
            ) == Seq::new(places.len(), |k: int| bans[places[k]]),
    decreases bans.len(),
{
    let kept = bans_in_force(bans, times, delay_sec);
    if bans.len() == 0 {
        let none = Seq::<int>::empty();
        assert(kept =~= Seq::new(none.len(), |k: int| bans[none[k]]));
        assert(places_in_force(bans, times, delay_sec, none));
    } else {
        let head = bans.drop_last();
        let head_times = times.drop_last();
        let last = bans.len() - 1;
        law_bans_in_force_are_kept(head, head_times, delay_sec);
        let before = choose|places: Seq<int>|
            #[trigger] places_in_force(head, head_times, delay_sec, places) && bans_in_force(
                head,
                head_times,
                delay_sec,
            ) == Seq::new(places.len(), |k: int| head[places[k]]);
        let stays = in_force(bans[last], times[last]@, delay_sec);
        let places = if stays {
            before.push(last)
        } else {
            before
        };
        assert forall|i: int| 0 <= i < bans.len() implies (in_force(
            #[trigger] bans[i],
            times[i]@,
            delay_sec,
        ) <==> places.contains(i)) by {
            if i < last {
                assert(head[i] == bans[i] && head_times[i] == times[i]);
                assert(in_force(head[i], head_times[i]@, delay_sec) <==> before.contains(i));
                if before.contains(i) {
                    let k = choose|k: int| 0 <= k < before.len() && before[k] == i;
                    assert(places[k] == i);
                }
                if places.contains(i) {
                    let k = choose|k: int| 0 <= k < places.len() && places[k] == i;
                    assert(before[k] == i);
                }
            } else if stays {
                assert(places[places.len() - 1] == last);
            } else if places.contains(i) {
                let k = choose|k: int| 0 <= k < places.len() && places[k] == i;
                assert(before[k] < last);
            }
        }
        assert(places_in_force(bans, times, delay_sec, places));
        assert(kept =~= Seq::new(places.len(), |k: int| bans[places[k]]));
    }
}

} // verus!
