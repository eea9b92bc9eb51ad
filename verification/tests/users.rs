use net_service::address::{IpAddress, PeerAddress};
use net_service::text::{decimal_text, located};
use net_service::time::Timestamp;
use net_service::users::{remove_user, UserInfo};
use net_service::wire::read_size;
use std::sync::Arc;

type User = UserInfo<u32, u32, u8>;

fn at(secs: i64) -> Timestamp {
    Timestamp::new(secs, 0).unwrap()
}

fn peer() -> PeerAddress {
    PeerAddress {
        ip: IpAddress::V4(0x7f00_0001),
        text: "127.0.0.1:4000".to_string(),
    }
}

fn user(name: &str) -> User {
    let mut user: User = UserInfo::new_at(peer(), 5, 9, "Lobby", at(1), at(2));
    user.username = name.to_string();
    user
}

fn names(users: &Vec<User>) -> Vec<&str> {
    users.iter().map(|u| u.username.as_str()).collect()
}

#[test]
fn new_user_is_nameless() {
    let user: User = UserInfo::new_at(peer(), 5, 9, "Lobby", at(1), at(2));
    assert_eq!(user.username, "");
    assert_eq!(user.room_name, "Lobby");
    assert_eq!(user.last_ping, 0);
    assert_eq!(user.tcp_addr.ip, peer().ip);
    assert_eq!(user.tcp_addr.text, "127.0.0.1:4000");
    assert_eq!(user.tcp_socket, 5);
    assert_eq!(user.udp_socket, None);
    assert_eq!(*user.tcp_io_mutex, 9);
    assert_eq!(user.last_text_message_sent, at(1));
    assert_eq!(user.last_time_entered_room, at(2));
    assert!(user.secret_key.is_empty());
}

#[test]
fn new_user_reads_the_clock() {
    let before = Timestamp::now();
    let user: User = UserInfo::new(peer(), 5, 9, "Lobby");
    assert!(user.last_text_message_sent.seconds_since(&before) < 10);
    assert!(user.last_time_entered_room.seconds_since(&before) < 10);
    assert_eq!(user.room_name, "Lobby");
}

#[test]
fn clone_keeps_who_the_user_is() {
    let mut original = user("ann");
    original.room_name = "Games".to_string();
    original.last_ping = 30;
    original.udp_socket = Some(6);
    original.secret_key = vec![1, 2, 3];
    let copy = original.clone(Ok(8), "Lobby", "here.rs", 1).unwrap();
    assert_eq!(copy.username, "ann");
    assert_eq!(copy.room_name, "Lobby");
    assert_eq!(copy.last_ping, 0);
    assert_eq!(copy.tcp_addr.text, "127.0.0.1:4000");
    assert_eq!(copy.tcp_socket, 8);
    assert_eq!(copy.udp_socket, None);
    assert!(Arc::ptr_eq(&copy.tcp_io_mutex, &original.tcp_io_mutex));
    assert_eq!(copy.secret_key, vec![1, 2, 3]);
    assert_eq!(original.room_name, "Games");
}

#[test]
fn clone_at_takes_the_given_moments() {
    let copy = user("ann").clone_at(8, "Lobby", at(30), at(40));
    assert_eq!(copy.last_text_message_sent, at(30));
    assert_eq!(copy.last_time_entered_room, at(40));
    let again = copy.clone_at(9, "Lobby", at(50), at(60));
    assert_eq!(again.username, "ann");
    assert_eq!(again.tcp_socket, 9);
}

#[test]
fn clone_tells_why_it_failed() {
    let result = user("ann").clone(Err("too many files".to_string()), "Lobby", "here.rs", 42);
    assert_eq!(
        result.err().unwrap(),
        "UserInfo::clone() failed, error: too many files at [here.rs, 42]"
    );
}

#[test]
fn first_of_the_name_is_removed() {
    let mut users = vec![user("ann"), user("bob"), user("cy")];
    assert_eq!(remove_user(&mut users, &"bob".to_string()), 2);
    assert_eq!(names(&users), vec!["ann", "cy"]);
    assert_eq!(remove_user(&mut users, &"cy".to_string()), 1);
    assert_eq!(remove_user(&mut users, &"ann".to_string()), 0);
    assert!(users.is_empty());
}

#[test]
fn only_one_namesake_is_removed() {
    let mut users = vec![user("bob"), user("ann"), user("bob")];
    users[0].last_ping = 1;
    users[2].last_ping = 3;
    assert_eq!(remove_user(&mut users, &"bob".to_string()), 2);
    assert_eq!(names(&users), vec!["ann", "bob"]);
    assert_eq!(users[1].last_ping, 3);
}

#[test]
fn unknown_user_counts_as_none_left() {
    let mut users = vec![user("ann"), user("bob")];
    assert_eq!(remove_user(&mut users, &"Ann".to_string()), 0);
    assert_eq!(names(&users), vec!["ann", "bob"]);
}

#[test]
fn numbers_are_written_in_decimal() {
    for n in [0, 1, 9, 10, 11, 99, 100, 51337, 65535, u64::MAX] {
        assert_eq!(decimal_text(n), n.to_string());
    }
}

#[test]
fn position_is_put_behind_a_text() {
    assert_eq!(located("oops", "src/a.rs", 7), "oops at [src/a.rs, 7]");
    assert_eq!(located("", "", 0), " at [, 0]");
}

#[test]
fn size_field_is_low_byte_first() {
    assert_eq!(read_size(&[0, 0]), Ok(0));
    assert_eq!(read_size(&[1, 0]), Ok(1));
    assert_eq!(read_size(&[0, 1]), Ok(256));
    assert_eq!(read_size(&[0x34, 0x12]), Ok(0x1234));
    assert_eq!(read_size(&[255, 255]), Ok(65535));
    assert_eq!(read_size(&[2, 0, 9]), Ok(2));
}

#[test]
fn short_size_field_is_an_error() {
    let expected = bincode::deserialize::<u16>(&[7u8]).unwrap_err().to_string();
    assert_eq!(read_size(&[7]), Err(expected));
    assert!(read_size(&[]).is_err());
}
