use net_service::address::IpAddress;
use net_service::bans::{is_banned, keep_banned_at, read_clock, BanReason, BannedAddress};
use net_service::time::{Timestamp, FIRST_SECOND, LAST_SECOND};

fn at(secs: i64, nanos: u32) -> Timestamp {
    Timestamp::new(secs, nanos).unwrap()
}

fn ban(secs: i64, nanos: u32, addr: IpAddress) -> BannedAddress {
    BannedAddress {
        banned_at: at(secs, nanos),
        addr,
        reason: BanReason::WrongPassword,
    }
}

#[test]
fn seconds_are_cut_toward_zero() {
    assert_eq!(at(10, 0).seconds_since(&at(7, 0)), 3);
    assert_eq!(at(10, 0).seconds_since(&at(7, 1)), 2);
    assert_eq!(at(7, 999_999_999).seconds_since(&at(7, 0)), 0);
    assert_eq!(at(7, 0).seconds_since(&at(7, 999_999_999)), 0);
    assert_eq!(at(7, 0).seconds_since(&at(10, 0)), -3);
    assert_eq!(at(7, 1).seconds_since(&at(10, 0)), -2);
    assert_eq!(at(-3, 500_000_000).seconds_since(&at(-1, 0)), -1);
}

#[test]
fn calendar_has_ends() {
    assert!(Timestamp::new(FIRST_SECOND, 0).is_some());
    assert!(Timestamp::new(FIRST_SECOND - 1, 0).is_none());
    assert!(Timestamp::new(LAST_SECOND, 999_999_999).is_some());
    assert!(Timestamp::new(LAST_SECOND + 1, 0).is_none());
    assert!(Timestamp::new(0, 1_000_000_000).is_none());
    assert_eq!(
        at(LAST_SECOND, 0).seconds_since(&at(FIRST_SECOND, 0)),
        LAST_SECOND - FIRST_SECOND
    );
    let first = chrono::DateTime::<chrono::Utc>::MIN_UTC.timestamp();
    let last = chrono::DateTime::<chrono::Utc>::MAX_UTC.timestamp();
    assert_eq!((first, last), (FIRST_SECOND, LAST_SECOND));
}

#[test]
fn clock_is_read() {
    let before = at(chrono::Utc::now().timestamp(), 0);
    let now = Timestamp::now();
    let since = now.seconds_since(&before);
    assert!(0 <= since && since < 10);
    assert_eq!(read_clock(3).len(), 3);
}

#[test]
fn ban_lasts_its_delay() {
    let b = ban(100, 500_000_000, IpAddress::V4(1));
    assert!(b.is_in_force(&at(100, 500_000_000), 5));
    assert!(b.is_in_force(&at(105, 499_999_999), 5));
    assert!(!b.is_in_force(&at(105, 500_000_000), 5));
    assert!(!b.is_in_force(&at(1_000, 0), 5));
    // A clock that was set back does not lift a ban.
    assert!(b.is_in_force(&at(0, 0), 5));
}

#[test]
fn ban_without_delay() {
    let b = ban(100, 0, IpAddress::V4(1));
    assert!(!b.is_in_force(&at(100, 0), 0));
    assert!(!b.is_in_force(&at(99, 1), 0));
    assert!(b.is_in_force(&at(99, 0), 0));
}

#[test]
fn bans_in_force_are_kept_in_order() {
    let a = ban(100, 0, IpAddress::V4(1));
    let b = ban(90, 0, IpAddress::V4(2));
    let c = ban(101, 0, IpAddress::V6(1));
    let mut bans = vec![a, b, c];
    let now = at(103, 0);
    keep_banned_at(&mut bans, &vec![now, now, now], 5);
    assert_eq!(bans, vec![a, c]);
    keep_banned_at(&mut bans, &vec![now, now], 5);
    assert_eq!(bans, vec![a, c]);
    // Each ban is judged at its own moment.
    keep_banned_at(&mut bans, &vec![at(105, 0), at(105, 999_999_999)], 5);
    assert_eq!(bans, vec![c]);
    keep_banned_at(&mut bans, &vec![at(106, 0)], 5);
    assert!(bans.is_empty());
}

#[test]
fn address_is_found() {
    let bans = vec![ban(1, 0, IpAddress::V4(7)), ban(2, 0, IpAddress::V6(8))];
    assert!(is_banned(&bans, &IpAddress::V4(7)));
    assert!(is_banned(&bans, &IpAddress::V6(8)));
    assert!(!is_banned(&bans, &IpAddress::V4(8)));
    assert!(!is_banned(&bans, &IpAddress::V6(7)));
    assert!(!is_banned(&Vec::new(), &IpAddress::V4(7)));
}

#[test]
fn reason_does_not_matter() {
    let mut b = ban(100, 0, IpAddress::V4(1));
    b.reason = BanReason::Spam;
    assert!(b.is_in_force(&at(104, 0), 5));
    assert!(!b.is_in_force(&at(105, 0), 5));
}
