//! Users and the list of those who are connected.
use crate::address::PeerAddress;
use crate::text::{decimal, located, located_text};
use crate::time::{in_calendar, Timestamp};
use std::sync::Arc;
use vstd::prelude::*;

verus! {

/// What the server holds of one user.
///
/// `T` and `U` stand for a TCP and a UDP socket, `M` for the lock that guards the
/// input and output of the TCP socket.
pub struct UserInfo<T, U, M> {
    pub username: String,
    pub room_name: String,
    pub last_ping: u16,
    pub tcp_addr: PeerAddress,
    pub tcp_socket: T,
    pub udp_socket: Option<U>,
    pub tcp_io_mutex: Arc<M>,
    pub last_text_message_sent: Timestamp,
    pub last_time_entered_room: Timestamp,
    pub secret_key: Vec<u8>,
}

/// Whether `user` is as one who has just connected: nameless, in room `room`, without
/// ping, UDP socket or key.
pub open spec fn just_connected<T, U, M>(
    user: UserInfo<T, U, M>,
    tcp_addr: PeerAddress,
    tcp_socket: T,
    tcp_io_mutex: M,
    room: Seq<char>,
) -> bool {
    &&& user.username@ == Seq::<char>::empty()
    &&& user.room_name@ == room
    &&& user.last_ping == 0
    &&& user.tcp_addr == tcp_addr
    &&& user.tcp_socket == tcp_socket
    &&& user.udp_socket is None
    &&& *user.tcp_io_mutex == tcp_io_mutex
    &&& user.secret_key@ == Seq::<u8>::empty()
}

/// Whether `copy` is `user` over the socket `tcp_socket`, back in room `room`: name,
/// address, lock and key are kept, ping and UDP socket are not.
pub open spec fn copied<T, U, M>(
    user: UserInfo<T, U, M>,
    copy: UserInfo<T, U, M>,
    tcp_socket: T,
    room: Seq<char>,
) -> bool {
    &&& copy.username@ == user.username@
    &&& copy.room_name@ == room
    &&& copy.last_ping == 0
    &&& copy.tcp_addr == user.tcp_addr
    &&& copy.tcp_socket == tcp_socket
    &&& copy.udp_socket is None
    &&& copy.tcp_io_mutex == user.tcp_io_mutex
    &&& copy.secret_key@ == user.secret_key@
}

/// What is said when the socket of a user could not be copied.
pub open spec fn copy_failure(error: Seq<char>, file: Seq<char>, line: nat) -> Seq<char> {
    located_text("UserInfo::clone() failed, error: "@ + error, file, line)
}

impl<T, U, M> UserInfo<T, U, M> {
    /// A user who connected from `tcp_addr`, with the given clock readings.
    pub fn new_at(
        tcp_addr: PeerAddress,
        tcp_socket: T,
        tcp_io_mutex: M,
        room: &str,
        last_text_message_sent: Timestamp,
        last_time_entered_room: Timestamp,
    ) -> (user: UserInfo<T, U, M>)
        ensures
            just_connected(user, tcp_addr, tcp_socket, tcp_io_mutex, room@),
            user.last_text_message_sent == last_text_message_sent,
            user.last_time_entered_room == last_time_entered_room,
    {
        UserInfo {
            username: String::new(),
            room_name: room.to_owned(),
            last_ping: 0,
            tcp_addr,
            tcp_socket,
            udp_socket: None,
            tcp_io_mutex: Arc::new(tcp_io_mutex),
            last_text_message_sent,
            last_time_entered_room,
            secret_key: Vec::new(),
        }
    }

    /// A user who connects from `tcp_addr` now.
    pub fn new(tcp_addr: PeerAddress, tcp_socket: T, tcp_io_mutex: M, room: &str) -> (user:
        UserInfo<T, U, M>)
        ensures
            just_connected(user, tcp_addr, tcp_socket, tcp_io_mutex, room@),
            in_calendar(user.last_text_message_sent@),
            in_calendar(user.last_time_entered_room@),
    {
        let last_text_message_sent = Timestamp::now();
        let last_time_entered_room = Timestamp::now();
        UserInfo::new_at(
            tcp_addr,
            tcp_socket,
            tcp_io_mutex,
            room,
            last_text_message_sent,
            last_time_entered_room,
        )
    }

    /// A copy of the user over a copy of the socket, with the given clock readings.
    pub fn clone_at(
        &self,
        tcp_socket: T,
        room: &str,
        last_text_message_sent: Timestamp,
        last_time_entered_room: Timestamp,
    ) -> (copy: UserInfo<T, U, M>)
        ensures
            copied(*self, copy, tcp_socket, room@),
            copy.last_text_message_sent == last_text_message_sent,
            copy.last_time_entered_room == last_time_entered_room,
    {
        let secret_key = self.secret_key.clone();
        assert(secret_key@ == self.secret_key@);
        UserInfo {
            username: self.username.clone(),
            room_name: room.to_owned(),
            last_ping: 0,
            tcp_addr: self.tcp_addr.clone(),
            tcp_socket,
            udp_socket: None,
            tcp_io_mutex: Arc::clone(&self.tcp_io_mutex),
            last_text_message_sent,
            last_time_entered_room,
            secret_key,
        }
    }

    /// A copy of the user as of now, given the outcome of copying the socket: the copy,
    /// or the printed error. `file` and `line` are the position named in a failure.
    pub fn clone(
        &self,
        tcp_socket_clone: Result<T, String>,
        room: &str,
        file: &str,
        line: u32,
    ) -> (copy: Result<UserInfo<T, U, M>, String>)
        ensures
            copy is Ok <==> tcp_socket_clone is Ok,
            copy matches Ok(user) ==> copied(*self, user, tcp_socket_clone->Ok_0, room@),
            copy matches Ok(user) ==> in_calendar(user.last_text_message_sent@) && in_calendar(
                user.last_time_entered_room@,
            ),
            copy matches Err(text) ==> text@ == copy_failure(
                tcp_socket_clone->Err_0@,
                file@,
                line as nat,
            ),
    {
        match tcp_socket_clone {
            Ok(tcp_socket) => {
                let last_text_message_sent = Timestamp::now();
                let last_time_entered_room = Timestamp::now();
                Ok(self.clone_at(tcp_socket, room, last_text_message_sent, last_time_entered_room))
            },
            Err(error) => {
                let mut text = "UserInfo::clone() failed, error: ".to_owned();
                text.append(error.as_str());
                Err(located(text.as_str(), file, line))
            },
        }
    }
}

/// Whether some user is called `name`.
pub open spec fn has_user<T, U, M>(users: Seq<UserInfo<T, U, M>>, name: Seq<char>) -> bool {
    exists|i: int| 0 <= i < users.len() && #[trigger] users[i].username@ == name
}

/// Whether user `i` is the first who is called `name`.
pub open spec fn first_user<T, U, M>(
    users: Seq<UserInfo<T, U, M>>,
    name: Seq<char>,
    i: int,
) -> bool {
    &&& 0 <= i < users.len()
    &&& users[i].username@ == name
    &&& forall|j: int| 0 <= j < i ==> #[trigger] users[j].username@ != name
}

/// Takes the first user called `username` off the list and tells how many are left; if
/// nobody is called so, the list stays as it is and the answer is zero.
pub fn remove_user<T, U, M>(users: &mut Vec<UserInfo<T, U, M>>, username: &String) -> (left: usize)
    ensures
        has_user(old(users)@, username@) ==> left == final(users)@.len() && exists|i: int|
            #[trigger] first_user(old(users)@, username@, i) && final(users)@ == old(
                users,
            )@.remove(i),
        !has_user(old(users)@, username@) ==> left == 0 && final(users)@ == old(users)@,
{
    let mut i: usize = 0;
    while i < users.len()
        invariant
            i <= users@.len(),
            users@ == old(users)@,
            forall|j: int| 0 <= j < i ==> #[trigger] users@[j].username@ != username@,
        decreases users@.len() - i,
    {
        if users[i].username == *username {
            assert(first_user(old(users)@, username@, i as int));
            users.remove(i);
            return users.len();
        }
        i = i + 1;
    }
    0
}

/// Where no two users share a name, removing one leaves nobody of that name and
/// everybody else, in order.
pub proof fn law_removed_user_is_gone<T, U, M>(
    users: Seq<UserInfo<T, U, M>>,
    name: Seq<char>,
    i: int,
)
    requires
        forall|j: int, k: int|
            0 <= j < k < users.len() ==> (#[trigger] users[j]).username@ != (
            #[trigger] users[k]).username@,
        first_user(users, name, i),
    ensures
        !has_user(users.remove(i), name),
        users.remove(i).len() == users.len() - 1,
        forall|other: Seq<char>| #![trigger has_user(users, other)]
            other != name ==> (has_user(users.remove(i), other) <==> has_user(users, other)),
{
    let left = users.remove(i);
    assert forall|j: int| 0 <= j < left.len() implies #[trigger] left[j].username@ != name by {
        if j < i {
            assert(left[j] == users[j]);
        } else {
            assert(left[j] == users[j + 1]);
        }
    }
    lemma_others_stay(users, name, i);
}

/// Removing the first user of a name leaves the users of every other name.
proof fn lemma_others_stay<T, U, M>(users: Seq<UserInfo<T, U, M>>, name: Seq<char>, i: int)
    requires
        first_user(users, name, i),
    ensures
        forall|other: Seq<char>| #![trigger has_user(users, other)]
            other != name ==> (has_user(users.remove(i), other) <==> has_user(users, other)),
{
    let left = users.remove(i);
    assert forall|other: Seq<char>| #![trigger has_user(users, other)] other != name implies (
    has_user(left, other) <==> has_user(users, other)) by {
        if has_user(users, other) {
            let j = choose|j: int| 0 <= j < users.len() && #[trigger] users[j].username@ == other;
            if j < i {
                assert(left[j].username@ == other);
            } else {
                assert(left[j - 1].username@ == other);
            }
        }
        if has_user(left, other) {
            let j = choose|j: int| 0 <= j < left.len() && #[trigger] left[j].username@ == other;
            if j < i {
                assert(users[j].username@ == other);
            } else {
                assert(users[j + 1].username@ == other);
            }
        }
    }
}

/// There is only one first user of a name, so that what is removed is determined.
pub proof fn law_first_user_is_unique<T, U, M>(
    users: Seq<UserInfo<T, U, M>>,
    name: Seq<char>,
    i: int,
    j: int,
)
    requires
        first_user(users, name, i),
        first_user(users, name, j),
    ensures
        i == j,
{
    if i < j {
        assert(users[i].username@ != name);
    } else if j < i {
        assert(users[j].username@ != name);
    }
}

/// A copy of a copy is a copy of the user.
pub proof fn law_copy_of_copy<T, U, M>(
    user: UserInfo<T, U, M>,
    copy: UserInfo<T, U, M>,
    again: UserInfo<T, U, M>,
    tcp_socket: T,
    other_socket: T,
    room: Seq<char>,
)
    requires
        copied(user, copy, tcp_socket, room),
        copied(copy, again, other_socket, room),
    ensures
        copied(user, again, other_socket, room),
{
}

/// The first user of a name bears that name, and nobody before that user does; a list has
/// a user of a name if and only if it has a first one.
pub proof fn law_first_user_bears_the_name<T, U, M>(
    users: Seq<UserInfo<T, U, M>>,
    name: Seq<char>,
    i: int,
)
    ensures
        first_user(users, name, i) <==> 0 <= i < users.len() && users[i].username@ == name
            && forall|j: int| 0 <= j < i ==> (#[trigger] users[j]).username@ != name,
        has_user(users, name) <==> exists|j: int|
            0 <= j < users.len() && (#[trigger] users[j]).username@ == name,
        has_user(users, name) <==> exists|j: int| first_user(users, name, j),
{
    if has_user(users, name) {
        let j = choose|j: int| 0 <= j < users.len() && (#[trigger] users[j]).username@ == name;
        lemma_someone_is_first(users, name, j);
    }
}

/// Among the users of a name one is the first.
proof fn lemma_someone_is_first<T, U, M>(users: Seq<UserInfo<T, U, M>>, name: Seq<char>, i: int)
    requires
        0 <= i < users.len(),
        users[i].username@ == name,
    ensures
        exists|j: int| first_user(users, name, j),
    decreases i,
{
    if exists|j: int| 0 <= j < i && (#[trigger] users[j]).username@ == name {
        let j = choose|j: int| 0 <= j < i && (#[trigger] users[j]).username@ == name;
        lemma_someone_is_first(users, name, j);
    } else {
        assert(first_user(users, name, i));
    }
}

/// A copy has the name, the address, the lock and the key of the user and the given
/// socket; it is in the given room, with ping zero and no UDP socket.
pub proof fn law_copy_keeps_who_the_user_is<T, U, M>(
    user: UserInfo<T, U, M>,
    copy: UserInfo<T, U, M>,
    tcp_socket: T,
    room: Seq<char>,
)
    requires
        copied(user, copy, tcp_socket, room),
    ensures
        copy.username@ == user.username@,
        copy.room_name@ == room,
        copy.last_ping == 0,
        copy.tcp_addr == user.tcp_addr,
        copy.tcp_socket == tcp_socket,
        copy.udp_socket is None,
        copy.tcp_io_mutex == user.tcp_io_mutex,
        copy.secret_key@ == user.secret_key@,
{
}

/// One who has just connected has the given address, socket and lock, is in the given
/// room, and has no name, ping, UDP socket or key.
pub proof fn law_newcomer_has_only_a_connection<T, U, M>(
    user: UserInfo<T, U, M>,
    tcp_addr: PeerAddress,
    tcp_socket: T,
    tcp_io_mutex: M,
    room: Seq<char>,
)
    requires
        just_connected(user, tcp_addr, tcp_socket, tcp_io_mutex, room),
    ensures
        user.username@.len() == 0,
        user.room_name@ == room,
        user.last_ping == 0,
        user.tcp_addr == tcp_addr,
        user.tcp_socket == tcp_socket,
        user.udp_socket is None,
        *user.tcp_io_mutex == tcp_io_mutex,
        user.secret_key@.len() == 0,
{
}

/// A failure to copy names the error first and the position behind it.
pub proof fn law_copy_failure_names_the_error(error: Seq<char>, file: Seq<char>, line: nat)
    ensures
        copy_failure(error, file, line) == "UserInfo::clone() failed, error: "@ + error + " at ["@
            + file + ", "@ + decimal(line) + "]"@,
{
}

} // verus!
