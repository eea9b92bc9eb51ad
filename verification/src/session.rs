//! One user's TCP connection, from the exchange of keys to the closing line in the log.
use crate::address::PeerAddress;
use crate::output::{Output, OutputView};
use crate::text::{decimal, decimal_text};
use crate::time::{in_calendar, Timestamp};
use crate::udp_service::{UdpPhase, UdpService, UdpServiceView};
use crate::users::{first_user, has_user, remove_user, UserInfo};
use crate::wire::{read_size, size_field};
use vstd::prelude::*;

verus! {

/// How far a user has come.
#[derive(Clone, Copy, PartialEq, Eq, Structural, Debug)]
pub enum UserState {
    NotConnected,
    Connected,
}

/// The state of the service that talks to the user over TCP.
#[derive(Clone, Copy, PartialEq, Eq, Structural, Debug)]
pub struct UserTcpService {
    pub user_state: UserState,
    pub last_keep_alive_check_time: Timestamp,
    pub sent_keep_alive: bool,
}

/// The outcome of reading from a socket.
#[derive(PartialEq, Eq, Debug)]
pub enum IoResult {
    /// The other end has closed the connection.
    Fin,
    /// There is nothing to read yet.
    WouldBlock,
    /// The error, as it is printed.
    Failed(String),
    /// So many bytes were read.
    Done(usize),
}

/// The outcome of handling a packet, or of telling others something.
#[derive(PartialEq, Eq, Debug)]
pub enum HandleStateResult {
    Done,
    IoErr(IoResult),
    HandleStateErr(String),
    UserNotConnectedReason(String),
}

/// The outcome of reading a size field.
#[derive(PartialEq, Eq, Debug)]
pub enum SizeRead {
    Fin,
    WouldBlock,
    Failed(String),
    /// The size, or the error of decoding it, and the moment at which it was read.
    Packet(Result<u16, String>, Timestamp),
}

/// Decodes the size field that a read has put into `buf`, and reads the clock.
pub fn size_read(result: IoResult, buf: &[u8]) -> (read: SizeRead)
    ensures
        match result {
            IoResult::Fin => read == SizeRead::Fin,
            IoResult::WouldBlock => read == SizeRead::WouldBlock,
            IoResult::Failed(e) => read == SizeRead::Failed(e),
            IoResult::Done(_) => read matches SizeRead::Packet(size, at) && in_calendar(at@) && match size {
                Ok(n) => size_field(buf@) == Ok::<u16, Seq<char>>(n),
                Err(e) => size_field(buf@) == Err::<u16, Seq<char>>(e@),
            },
        },
{
    match result {
        IoResult::Fin => SizeRead::Fin,
        IoResult::WouldBlock => SizeRead::WouldBlock,
        IoResult::Failed(e) => SizeRead::Failed(e),
        IoResult::Done(_) => SizeRead::Packet(read_size(buf), Timestamp::now()),
    }
}

/// What a session waits for.
#[derive(Clone, Copy, PartialEq, Eq, Structural, Debug)]
pub enum SessionPhase {
    Securing,
    ReadingSize,
    CheckingKeepAlive,
    Sleeping,
    /// Holds the state of the user before the packet.
    HandlingState(UserState),
    StartingUdp,
    SignallingUdp,
    RemovingUser,
    SendingNotice,
    Logging,
    Closed,
}

/// An outcome that a session is told; errors come as they are printed.
#[derive(PartialEq, Eq, Debug)]
pub enum SessionEvent {
    /// The secret key that both ends agreed on, if they did.
    Secured(Option<Vec<u8>>),
    SizeRead(SizeRead),
    /// Whether the user is still there.
    KeepAliveChecked(bool),
    Slept,
    StateHandled(HandleStateResult),
    UdpStarted,
    UdpSignalled,
    /// How many users are left.
    UserRemoved(usize),
    NoticeSent(HandleStateResult),
    Logged(Result<(), String>),
}

/// What a session wants done.
pub enum SessionAction {
    /// Agree with the user on a secret key.
    Secure,
    /// Read two bytes.
    ReadSize,
    /// See whether the silent user is still there.
    CheckKeepAlive,
    /// Sleep for this many milliseconds.
    Sleep(u64),
    /// Handle the packet of this size.
    HandleState(u16),
    /// Start the user's UDP service beside the session.
    StartUdp(UdpService),
    /// Tell the UDP service that the session is over.
    SignalUdp,
    /// Take the user off the list.
    RemoveUser,
    /// Tell the others that the user has left.
    SendNotice,
    /// Print this line and write it to the log.
    Log(String),
    /// Nothing more: the session is over.
    Close,
    /// Nothing: the outcome is not the one that is waited for.
    Ignore,
}

/// A [`SessionAction`] as the values that it holds.
pub enum SessionActionView {
    Secure,
    ReadSize,
    CheckKeepAlive,
    Sleep(u64),
    HandleState(u16),
    StartUdp(UdpServiceView),
    SignalUdp,
    RemoveUser,
    SendNotice,
    Log(Seq<char>),
    Close,
    Ignore,
}

impl View for SessionAction {
    type V = SessionActionView;

    open spec fn view(&self) -> SessionActionView {
        match self {
            SessionAction::Secure => SessionActionView::Secure,
            SessionAction::ReadSize => SessionActionView::ReadSize,
            SessionAction::CheckKeepAlive => SessionActionView::CheckKeepAlive,
            SessionAction::Sleep(ms) => SessionActionView::Sleep(*ms),
            SessionAction::HandleState(size) => SessionActionView::HandleState(*size),
            SessionAction::StartUdp(service) => SessionActionView::StartUdp(service@),
            SessionAction::SignalUdp => SessionActionView::SignalUdp,
            SessionAction::RemoveUser => SessionActionView::RemoveUser,
            SessionAction::SendNotice => SessionActionView::SendNotice,
            SessionAction::Log(line) => SessionActionView::Log(line@),
            SessionAction::Close => SessionActionView::Close,
            SessionAction::Ignore => SessionActionView::Ignore,
        }
    }
}

/// What to print and what to do next.
pub struct SessionStep {
    pub output: Output,
    pub next: SessionAction,
}

/// The session of one user.
pub struct UserSession<T, U, M> {
    pub user_info: UserInfo<T, U, M>,
    pub tcp_service: UserTcpService,
    pub idle_ms: u64,
    pub udp_port: u16,
    pub phase: SessionPhase,
    pub is_error: bool,
    pub out_str: String,
}

/// A [`UserSession`] as the values that its course depends on.
pub struct SessionView {
    pub username: Seq<char>,
    pub tcp_addr: PeerAddress,
    pub secret_key: Seq<u8>,
    pub tcp_service: UserTcpService,
    /// How long to sleep when there is nothing to read, in milliseconds.
    pub idle_ms: u64,
    /// The port of the UDP service.
    pub udp_port: u16,
    pub phase: SessionPhase,
    /// Whether the session would now end by an error: it does unless the user closes
    /// the connection.
    pub is_error: bool,
    /// The closing line, once it is written.
    pub out_str: Seq<char>,
}

impl<T, U, M> View for UserSession<T, U, M> {
    type V = SessionView;

    open spec fn view(&self) -> SessionView {
        SessionView {
            username: self.user_info.username@,
            tcp_addr: self.user_info.tcp_addr,
            secret_key: self.user_info.secret_key@,
            tcp_service: self.tcp_service,
            idle_ms: self.idle_ms,
            udp_port: self.udp_port,
            phase: self.phase,
            is_error: self.is_error,
            out_str: self.out_str@,
        }
    }
}

/// The line that is logged at the end of a session: which socket and user it was, why
/// it ended, and how many users are left if the user was connected.
pub open spec fn closing_line(
    addr: Seq<char>,
    username: Seq<char>,
    users_left: Option<nat>,
    is_error: bool,
) -> Seq<char> {
    let socket = "Closing connection with socket ("@ + addr;
    match (users_left, is_error) {
        (Some(n), true) => socket + ") AKA ("@ + username + ") due to error [connected users: "@
            + decimal(n) + "]."@,
        (Some(n), false) => socket + ") AKA ("@ + username
            + ") in response to FIN [connected users: "@ + decimal(n) + "]."@,
        (None, true) => socket + ") due to error (this user was not connected)."@,
        (None, false) => socket + ") AKA ("@ + username
            + ") in response to FIN (this user was not connected)."@,
    }
}

/// Writes the closing line.
pub fn closing_text(addr: &str, username: &str, users_left: Option<usize>, is_error: bool) -> (line:
    String)
    ensures
        line@ == closing_line(
            addr@,
            username@,
            match users_left {
                Some(n) => Some(n as nat),
                None => None,
            },
            is_error,
        ),
{
    let mut line = "Closing connection with socket (".to_owned();
    line.append(addr);
    if users_left.is_none() && is_error {
        line.append(") due to error (this user was not connected).");
        return line;
    }
    line.append(") AKA (");
    line.append(username);
    match users_left {
        Some(n) => {
            if is_error {
                line.append(") due to error [connected users: ");
            } else {
                line.append(") in response to FIN [connected users: ");
            }
            line.append(decimal_text(n as u64).as_str());
            line.append("].");
        },
        None => {
            line.append(") in response to FIN (this user was not connected).");
        },
    }
    line
}

/// Where an outcome leads: the session that follows, the output and the action.
pub struct SessionMove {
    pub session: SessionView,
    pub output: OutputView,
    pub next: SessionActionView,
}

/// Waits for the outcome of `next`.
pub open spec fn waits(s: SessionView, phase: SessionPhase, next: SessionActionView) -> SessionMove {
    SessionMove { session: SessionView { phase, ..s }, output: OutputView::Nothing, next }
}

/// Stops reading from the user, after some output.
pub open spec fn leaves(s: SessionView, is_error: bool, output: OutputView) -> SessionMove {
    SessionMove {
        session: SessionView { phase: SessionPhase::SignallingUdp, is_error, ..s },
        output,
        next: SessionActionView::SignalUdp,
    }
}

/// Waits for the next packet.
pub open spec fn reads_on(s: SessionView) -> SessionMove {
    waits(s, SessionPhase::ReadingSize, SessionActionView::ReadSize)
}

/// After a packet that found the user in state `before`: a user who has become
/// connected gets a UDP service, and the next packet is waited for.
pub open spec fn packet_done(s: SessionView, before: UserState) -> SessionMove {
    if before == UserState::NotConnected && s.tcp_service.user_state == UserState::Connected {
        waits(
            s,
            SessionPhase::StartingUdp,
            SessionActionView::StartUdp(
                UdpServiceView {
                    username: s.username,
                    addr: s.tcp_addr,
                    secret_key: s.secret_key,
                    port: s.udp_port,
                    phase: UdpPhase::CreatingSocket,
                },
            ),
        )
    } else {
        reads_on(s)
    }
}

/// Logs the closing line after some output.
pub open spec fn logs(s: SessionView, line: Seq<char>, output: OutputView) -> SessionMove {
    SessionMove {
        session: SessionView { phase: SessionPhase::Logging, out_str: line, ..s },
        output,
        next: SessionActionView::Log(line),
    }
}

/// What is said when the size field from `addr` could not be decoded.
pub open spec fn size_failure(addr: Seq<char>, error: Seq<char>) -> Seq<char> {
    "Deserialize error for data size on socket ("@ + addr + "), error: "@ + error
}

/// Where reading a size field leads.
pub open spec fn size_move(s: SessionView, read: SizeRead) -> SessionMove {
    match read {
        SizeRead::Fin => leaves(s, false, OutputView::Nothing),
        SizeRead::WouldBlock => waits(
            s,
            SessionPhase::CheckingKeepAlive,
            SessionActionView::CheckKeepAlive,
        ),
        SizeRead::Failed(e) => leaves(s, s.is_error, OutputView::Report(e@)),
        SizeRead::Packet(Err(e), _) => leaves(
            s,
            s.is_error,
            OutputView::Report(size_failure(s.tcp_addr.text@, e@)),
        ),
        SizeRead::Packet(Ok(size), at) => waits(
            SessionView {
                tcp_service: UserTcpService {
                    last_keep_alive_check_time: at,
                    sent_keep_alive: false,
                    ..s.tcp_service
                },
                ..s
            },
            SessionPhase::HandlingState(s.tcp_service.user_state),
            SessionActionView::HandleState(size),
        ),
    }
}

/// Where handling a packet leads that found the user in state `before`.
pub open spec fn handled_move(
    s: SessionView,
    before: UserState,
    result: HandleStateResult,
) -> SessionMove {
    match result {
        HandleStateResult::IoErr(IoResult::Fin) => leaves(s, false, OutputView::Nothing),
        HandleStateResult::IoErr(IoResult::Failed(e)) => leaves(
            s,
            s.is_error,
            OutputView::Report(e@),
        ),
        HandleStateResult::HandleStateErr(e) => leaves(s, s.is_error, OutputView::Report(e@)),
        HandleStateResult::UserNotConnectedReason(reason) => leaves(
            s,
            s.is_error,
            OutputView::Print(reason@),
        ),
        HandleStateResult::IoErr(_) | HandleStateResult::Done => packet_done(s, before),
    }
}

/// Where `event` leads. An event that the phase does not wait for leads nowhere.
pub open spec fn session_move(s: SessionView, event: SessionEvent) -> SessionMove {
    match (s.phase, event) {
        (SessionPhase::Securing, SessionEvent::Secured(key)) => match key {
            Some(key) => reads_on(SessionView { secret_key: key@, ..s }),
            None => waits(s, SessionPhase::Closed, SessionActionView::Close),
        },
        (SessionPhase::ReadingSize, SessionEvent::SizeRead(read)) => size_move(s, read),
        (SessionPhase::CheckingKeepAlive, SessionEvent::KeepAliveChecked(alive)) => if alive {
            waits(s, SessionPhase::Sleeping, SessionActionView::Sleep(s.idle_ms))
        } else {
            leaves(s, s.is_error, OutputView::Nothing)
        },
        (SessionPhase::Sleeping, SessionEvent::Slept) => reads_on(s),
        (SessionPhase::HandlingState(before), SessionEvent::StateHandled(result)) => handled_move(
            s,
            before,
            result,
        ),
        (SessionPhase::StartingUdp, SessionEvent::UdpStarted) => reads_on(s),
        (SessionPhase::SignallingUdp, SessionEvent::UdpSignalled) => if s.tcp_service.user_state
            == UserState::Connected {
            waits(s, SessionPhase::RemovingUser, SessionActionView::RemoveUser)
        } else {
            logs(
                s,
                closing_line(s.tcp_addr.text@, s.username, None, s.is_error),
                OutputView::Nothing,
            )
        },
        (SessionPhase::RemovingUser, SessionEvent::UserRemoved(left)) => waits(
            SessionView {
                out_str: closing_line(
                    s.tcp_addr.text@,
                    s.username,
                    Some(left as nat),
                    s.is_error,
                ),
                ..s
            },
            SessionPhase::SendingNotice,
            SessionActionView::SendNotice,
        ),
        (SessionPhase::SendingNotice, SessionEvent::NoticeSent(result)) => logs(
            s,
            s.out_str,
            match result {
                HandleStateResult::HandleStateErr(e) => OutputView::Report(e@),
                _ => OutputView::Nothing,
            },
        ),
        (SessionPhase::Logging, SessionEvent::Logged(result)) => SessionMove {
            session: SessionView { phase: SessionPhase::Closed, ..s },
            output: match result {
                Ok(_) => OutputView::Nothing,
                Err(e) => OutputView::Report(e@),
            },
            next: SessionActionView::Close,
        },
        _ => waits(s, s.phase, SessionActionView::Ignore),
    }
}

/// Writes what is said when the size field from `addr` could not be decoded.
fn size_failure_text(addr: &str, error: &str) -> (text: String)
    ensures
        text@ == size_failure(addr@, error@),
{
    let mut text = "Deserialize error for data size on socket (".to_owned();
    text.append(addr);
    text.append("), error: ");
    text.append(error);
    text
}

/// Whether `after` is `before` but for the secret key.
pub open spec fn same_but_key<T, U, M>(
    before: UserInfo<T, U, M>,
    after: UserInfo<T, U, M>,
) -> bool {
    after == (UserInfo { secret_key: after.secret_key, ..before })
}

impl<T, U, M> UserSession<T, U, M> {
    /// Whether a step has led from `before` to `self` as `to` says.
    pub open spec fn moved(self, before: Self, to: SessionMove, step: SessionStep) -> bool {
        &&& self@ == to.session
        &&& same_but_key(before.user_info, self.user_info)
        &&& step.output@ == to.output
        &&& step.next@ == to.next
    }

    /// The session of a user who has just been accepted. Its first action is to agree on
    /// a secret key.
    pub fn new(
        user_info: UserInfo<T, U, M>,
        tcp_service: UserTcpService,
        idle_ms: u64,
        udp_port: u16,
    ) -> (session: UserSession<T, U, M>)
        ensures
            session.user_info == user_info,
            session@ == (SessionView {
                username: user_info.username@,
                tcp_addr: user_info.tcp_addr,
                secret_key: user_info.secret_key@,
                tcp_service,
                idle_ms,
                udp_port,
                phase: SessionPhase::Securing,
                is_error: true,
                out_str: Seq::empty(),
            }),
    {
        UserSession {
            user_info,
            tcp_service,
            idle_ms,
            udp_port,
            phase: SessionPhase::Securing,
            is_error: true,
            out_str: String::new(),
        }
    }

    /// What a new session wants done first; nothing, if it is no longer new.
    pub fn first(&self) -> (step: SessionStep)
        ensures
            step.output@ == OutputView::Nothing,
            self.phase == SessionPhase::Securing ==> step.next@ == SessionActionView::Secure,
            self.phase != SessionPhase::Securing ==> step.next@ == SessionActionView::Ignore,
    {
        let next = if self.phase == SessionPhase::Securing {
            SessionAction::Secure
        } else {
            SessionAction::Ignore
        };
        SessionStep { output: Output::Nothing, next }
    }

    /// Goes to `phase` and asks for `next`.
    fn wait(&mut self, phase: SessionPhase, next: SessionAction) -> (step: SessionStep)
        ensures
            final(self).moved(*old(self), waits(old(self)@, phase, next@), step),
    {
        self.phase = phase;
        SessionStep { output: Output::Nothing, next }
    }

    /// Stops reading from the user, after some output.
    fn leave(&mut self, is_error: bool, output: Output) -> (step: SessionStep)
        ensures
            final(self).moved(*old(self), leaves(old(self)@, is_error, output@), step),
    {
        self.phase = SessionPhase::SignallingUdp;
        self.is_error = is_error;
        SessionStep { output, next: SessionAction::SignalUdp }
    }

    /// Logs the closing line, after some output.
    fn log(&mut self, line: String, output: Output) -> (step: SessionStep)
        ensures
            final(self).moved(*old(self), logs(old(self)@, line@, output@), step),
    {
        self.phase = SessionPhase::Logging;
        self.out_str = line.clone();
        SessionStep { output, next: SessionAction::Log(line) }
    }

    /// Takes note that a read of the size field has ended.
    fn on_size_read(&mut self, read: SizeRead) -> (step: SessionStep)
        ensures
            final(self).moved(*old(self), size_move(old(self)@, read), step),
    {
        let is_error = self.is_error;
        match read {
            SizeRead::Fin => self.leave(false, Output::Nothing),
            SizeRead::WouldBlock => self.wait(
                SessionPhase::CheckingKeepAlive,
                SessionAction::CheckKeepAlive,
            ),
            SizeRead::Failed(e) => self.leave(is_error, Output::Report(e)),
            SizeRead::Packet(Err(e), _) => {
                let report = size_failure_text(self.user_info.tcp_addr.text.as_str(), e.as_str());
                self.leave(is_error, Output::Report(report))
            },
            SizeRead::Packet(Ok(size), at) => {
                let before = self.tcp_service.user_state;
                self.tcp_service = UserTcpService {
                    user_state: before,
                    last_keep_alive_check_time: at,
                    sent_keep_alive: false,
                };
                self.wait(SessionPhase::HandlingState(before), SessionAction::HandleState(size))
            },
        }
    }

    /// Takes note that a packet was handled that found the user in state `before`.
    fn on_state_handled(&mut self, before: UserState, result: HandleStateResult) -> (step:
        SessionStep)
        ensures
            final(self).moved(*old(self), handled_move(old(self)@, before, result), step),
    {
        let is_error = self.is_error;
        match result {
            HandleStateResult::IoErr(IoResult::Fin) => self.leave(false, Output::Nothing),
            HandleStateResult::IoErr(IoResult::Failed(e)) => self.leave(
                is_error,
                Output::Report(e),
            ),
            HandleStateResult::HandleStateErr(e) => self.leave(is_error, Output::Report(e)),
            HandleStateResult::UserNotConnectedReason(reason) => self.leave(
                is_error,
                Output::Print(reason),
            ),
            HandleStateResult::IoErr(_) | HandleStateResult::Done => self.on_packet_done(before),
        }
    }

    /// Starts the UDP service of a user who has just become connected, and reads on.
    fn on_packet_done(&mut self, before: UserState) -> (step: SessionStep)
        ensures
            final(self).moved(*old(self), packet_done(old(self)@, before), step),
    {
        if before == UserState::NotConnected && self.tcp_service.user_state
            == UserState::Connected {
            let secret_key = self.user_info.secret_key.clone();
            assert(secret_key@ == self.user_info.secret_key@);
            let udp = UdpService::new(
                self.user_info.username.clone(),
                self.user_info.tcp_addr.clone(),
                secret_key,
                self.udp_port,
            );
            self.wait(SessionPhase::StartingUdp, SessionAction::StartUdp(udp))
        } else {
            self.wait(SessionPhase::ReadingSize, SessionAction::ReadSize)
        }
    }

    /// Writes the closing line.
    fn closing(&self, users_left: Option<usize>) -> (line: String)
        ensures
            line@ == closing_line(
                self@.tcp_addr.text@,
                self@.username,
                match users_left {
                    Some(n) => Some(n as nat),
                    None => None,
                },
                self@.is_error,
            ),
    {
        closing_text(
            self.user_info.tcp_addr.text.as_str(),
            self.user_info.username.as_str(),
            users_left,
            self.is_error,
        )
    }

    /// Takes note of an outcome and says what to do next.
    pub fn advance(&mut self, event: SessionEvent) -> (step: SessionStep)
        ensures
            final(self).moved(*old(self), session_move(old(self)@, event), step),
    {
        let is_error = self.is_error;
        match (self.phase, event) {
            (SessionPhase::Securing, SessionEvent::Secured(key)) => match key {
                Some(key) => {
                    self.user_info.secret_key = key;
                    self.wait(SessionPhase::ReadingSize, SessionAction::ReadSize)
                },
                None => self.wait(SessionPhase::Closed, SessionAction::Close),
            },
            (SessionPhase::ReadingSize, SessionEvent::SizeRead(read)) => self.on_size_read(read),
            (SessionPhase::CheckingKeepAlive, SessionEvent::KeepAliveChecked(alive)) => {
                if alive {
                    let idle_ms = self.idle_ms;
                    self.wait(SessionPhase::Sleeping, SessionAction::Sleep(idle_ms))
                } else {
                    self.leave(is_error, Output::Nothing)
                }
            },
            (SessionPhase::Sleeping, SessionEvent::Slept) => self.wait(
                SessionPhase::ReadingSize,
                SessionAction::ReadSize,
            ),
            (
                SessionPhase::HandlingState(before),
                SessionEvent::StateHandled(result),
            ) => self.on_state_handled(before, result),
            (SessionPhase::StartingUdp, SessionEvent::UdpStarted) => self.wait(
                SessionPhase::ReadingSize,
                SessionAction::ReadSize,
            ),
            (SessionPhase::SignallingUdp, SessionEvent::UdpSignalled) => {
                if self.tcp_service.user_state == UserState::Connected {
                    self.wait(SessionPhase::RemovingUser, SessionAction::RemoveUser)
                } else {
                    let line = self.closing(None);
                    self.log(line, Output::Nothing)
                }
            },
            (SessionPhase::RemovingUser, SessionEvent::UserRemoved(left)) => {
                self.out_str = self.closing(Some(left));
                self.wait(SessionPhase::SendingNotice, SessionAction::SendNotice)
            },
            (SessionPhase::SendingNotice, SessionEvent::NoticeSent(result)) => {
                let output = match result {
                    HandleStateResult::HandleStateErr(e) => Output::Report(e),
                    _ => Output::Nothing,
                };
                let line = self.out_str.clone();
                self.log(line, output)
            },
            (SessionPhase::Logging, SessionEvent::Logged(result)) => {
                self.phase = SessionPhase::Closed;
                let output = match result {
                    Ok(_) => Output::Nothing,
                    Err(e) => Output::Report(e),
                };
                SessionStep { output, next: SessionAction::Close }
            },
            (phase, _) => self.wait(phase, SessionAction::Ignore),
        }
    }

    /// Takes the user of this session off the list of users.
    pub fn remove_from(&self, users: &mut Vec<UserInfo<T, U, M>>) -> (event: SessionEvent)
        ensures
            has_user(old(users)@, self@.username) ==> event == SessionEvent::UserRemoved(
                final(users)@.len() as usize,
            ) && exists|i: int| #[trigger]
                first_user(old(users)@, self@.username, i) && final(users)@ == old(users)@.remove(
                    i,
                ),
            !has_user(old(users)@, self@.username) ==> event == SessionEvent::UserRemoved(0)
                && final(users)@ == old(users)@,
    {
        SessionEvent::UserRemoved(remove_user(users, &self.user_info.username))
    }
}

} // verus!
