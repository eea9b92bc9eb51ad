//! What holds of a session as a whole.
//!
//! Between two events the program around a session may change what it holds of the user
//! and of the TCP service: handling a packet does. The laws on courses of events hold
//! whatever is changed.
use crate::address::PeerAddress;
use crate::output::OutputView;
use crate::session::{
    closing_line, session_move, HandleStateResult, IoResult, SessionAction, SessionActionView,
    SessionEvent, SessionMove, SessionPhase, SessionStep, SessionView, SizeRead, UserSession,
    UserState, UserTcpService,
};
use crate::text::decimal;
use crate::time::Timestamp;
use crate::udp_service::{UdpPhase, UdpService, UdpServiceView};
use vstd::prelude::*;

verus! {

/// Whether the session waits for `event`.
pub open spec fn session_awaits(phase: SessionPhase, event: SessionEvent) -> bool {
    match phase {
        SessionPhase::Securing => event is Secured,
        SessionPhase::ReadingSize => event is SizeRead,
        SessionPhase::CheckingKeepAlive => event is KeepAliveChecked,
        SessionPhase::Sleeping => event is Slept,
        SessionPhase::HandlingState(_) => event is StateHandled,
        SessionPhase::StartingUdp => event is UdpStarted,
        SessionPhase::SignallingUdp => event is UdpSignalled,
        SessionPhase::RemovingUser => event is UserRemoved,
        SessionPhase::SendingNotice => event is NoticeSent,
        SessionPhase::Logging => event is Logged,
        SessionPhase::Closed => false,
    }
}

/// An event that is not waited for changes nothing, prints nothing and asks for nothing;
/// one that is waited for is not ignored. A session that is closed waits for nothing.
pub proof fn law_session_ignores_what_it_does_not_await(s: SessionView, event: SessionEvent)
    ensures
        session_awaits(s.phase, event) <==> session_move(s, event).next
            != SessionActionView::Ignore,
        !session_awaits(s.phase, event) ==> session_move(s, event).session == s && session_move(
            s,
            event,
        ).output == OutputView::Nothing,
        s.phase == SessionPhase::Closed ==> !session_awaits(s.phase, event),
{
}

/// The state of the user before the packet that is being handled.
pub open spec fn state_before(phase: SessionPhase) -> Option<UserState> {
    match phase {
        SessionPhase::HandlingState(before) => Some(before),
        _ => None,
    }
}

/// Whether the outcome of handling a packet lets the session go on.
pub open spec fn goes_on(event: SessionEvent) -> bool {
    match event {
        SessionEvent::StateHandled(HandleStateResult::Done) => true,
        SessionEvent::StateHandled(HandleStateResult::IoErr(IoResult::WouldBlock)) => true,
        SessionEvent::StateHandled(HandleStateResult::IoErr(IoResult::Done(_))) => true,
        _ => false,
    }
}

/// The UDP service is started exactly when a packet has made the user connected, with
/// the name, the address and the key of that user.
pub proof fn law_udp_starts_when_user_connects(s: SessionView, event: SessionEvent)
    ensures
        session_move(s, event).next is StartUdp <==> state_before(s.phase) == Some(
            UserState::NotConnected,
        ) && goes_on(event) && s.tcp_service.user_state == UserState::Connected,
        session_move(s, event).next matches SessionActionView::StartUdp(udp) ==> udp == (
        UdpServiceView {
            username: s.username,
            addr: s.tcp_addr,
            secret_key: s.secret_key,
            port: s.udp_port,
            phase: UdpPhase::CreatingSocket,
        }),
{
}

/// A session never changes the name, the address or the state of its user. It sets the
/// key only when both ends agreed on one, and the keep-alive record only when a packet
/// arrives, which counts as a sign of life.
pub proof fn law_what_a_session_changes(s: SessionView, event: SessionEvent)
    ensures
        ({
            let t = session_move(s, event).session;
            &&& t.username == s.username
            &&& t.tcp_addr == s.tcp_addr
            &&& t.idle_ms == s.idle_ms
            &&& t.udp_port == s.udp_port
            &&& t.tcp_service.user_state == s.tcp_service.user_state
            &&& t.secret_key != s.secret_key ==> s.phase == SessionPhase::Securing && (
            event matches SessionEvent::Secured(Some(key)) && t.secret_key == key@)
            &&& t.tcp_service != s.tcp_service ==> s.phase == SessionPhase::ReadingSize && (
            event matches SessionEvent::SizeRead(SizeRead::Packet(Ok(_), at)) && t.tcp_service == (
            UserTcpService {
                user_state: s.tcp_service.user_state,
                last_keep_alive_check_time: at,
                sent_keep_alive: false,
            }))
        }),
{
}

/// What the program around a session hands it at one time: the user and the TCP service
/// as they are by then, and the event.
pub struct Told {
    pub username: Seq<char>,
    pub tcp_addr: PeerAddress,
    pub secret_key: Seq<u8>,
    pub tcp_service: UserTcpService,
    pub event: SessionEvent,
}

/// The session when it is handed `told`.
pub open spec fn met(s: SessionView, told: Told) -> SessionView {
    SessionView {
        username: told.username,
        tcp_addr: told.tcp_addr,
        secret_key: told.secret_key,
        tcp_service: told.tcp_service,
        ..s
    }
}

/// The session after a course of events.
pub open spec fn session_run(s: SessionView, course: Seq<Told>) -> SessionView
    decreases course.len(),
{
    if course.len() == 0 {
        s
    } else {
        session_move(
            met(session_run(s, course.drop_last()), course.last()),
            course.last().event,
        ).session
    }
}

/// Whether `event` tells a session in `phase` that the user has closed the connection.
pub open spec fn is_fin(phase: SessionPhase, event: SessionEvent) -> bool {
    match phase {
        SessionPhase::ReadingSize => event == SessionEvent::SizeRead(SizeRead::Fin),
        SessionPhase::HandlingState(_) => event == SessionEvent::StateHandled(
            HandleStateResult::IoErr(IoResult::Fin),
        ),
        _ => false,
    }
}

/// Whether event `i` of a course told that the user has closed the connection.
pub open spec fn fin_at(s: SessionView, course: Seq<Told>, i: int) -> bool {
    0 <= i < course.len() && is_fin(session_run(s, course.take(i)).phase, course[i].event)
}

/// After an event a session still counts as an error exactly if it did before and the user
/// did not close the connection.
proof fn lemma_fin_clears_error(s: SessionView, event: SessionEvent)
    ensures
        session_move(s, event).session.is_error <==> s.is_error && !is_fin(s.phase, event),
{
}

/// What event `i` told does not depend on the events behind it.
proof fn lemma_fin_at_prefix(s: SessionView, course: Seq<Told>, i: int)
    requires
        course.len() > 0,
        i < course.len() - 1,
    ensures
        fin_at(s, course, i) == fin_at(s, course.drop_last(), i),
{
    if 0 <= i {
        assert(course.drop_last().take(i) =~= course.take(i));
    }
}

/// A session ends without error exactly if the user closed the connection; every other
/// end is an error.
pub proof fn law_only_fin_is_no_error(s: SessionView, course: Seq<Told>)
    requires
        s.is_error,
    ensures
        session_run(s, course).is_error <==> forall|i: int| !fin_at(s, course, i),
    decreases course.len(),
{
    if course.len() > 0 {
        let before = course.drop_last();
        let last = course.len() - 1;
        law_only_fin_is_no_error(s, before);
        lemma_fin_clears_error(met(session_run(s, before), course.last()), course.last().event);
        assert(course.take(last) =~= before);
        assert(fin_at(s, course, last) == is_fin(
            session_run(s, before).phase,
            course.last().event,
        ));
        if !session_run(s, before).is_error {
            let i = choose|i: int| fin_at(s, before, i);
            lemma_fin_at_prefix(s, course, i);
            assert(fin_at(s, course, i));
        } else {
            assert forall|i: int| i != last implies !fin_at(s, course, i) by {
                if i < last {
                    lemma_fin_at_prefix(s, course, i);
                    assert(!fin_at(s, before, i));
                }
            }
        }
    }
}

/// How far a session is from being closed once it reads no more; zero while it reads.
pub open spec fn to_close(phase: SessionPhase) -> int {
    match phase {
        SessionPhase::SignallingUdp => 4,
        SessionPhase::RemovingUser => 3,
        SessionPhase::SendingNotice => 2,
        SessionPhase::Logging => 1,
        _ => 0,
    }
}

/// Whether a session reads no more from its user.
pub open spec fn closing(phase: SessionPhase) -> bool {
    to_close(phase) > 0 || phase == SessionPhase::Closed
}

/// A session that reads no more never reads again, and each event that it waits for
/// brings it nearer to its close, of which it is at most four events away.
pub proof fn law_closing_session_closes(s: SessionView, event: SessionEvent)
    requires
        closing(s.phase),
    ensures
        closing(session_move(s, event).session.phase),
        0 <= to_close(s.phase) <= 4,
        session_awaits(s.phase, event) ==> to_close(session_move(s, event).session.phase)
            < to_close(s.phase),
        to_close(s.phase) == 0 <==> s.phase == SessionPhase::Closed,
{
}

/// How many lines were logged in a course of events.
pub open spec fn lines_logged(s: SessionView, course: Seq<Told>) -> int
    decreases course.len(),
{
    if course.len() == 0 {
        0
    } else {
        lines_logged(s, course.drop_last()) + if session_move(
            met(session_run(s, course.drop_last()), course.last()),
            course.last().event,
        ).next is Log {
            1int
        } else {
            0int
        }
    }
}

/// A session whose ends agreed on a key logs one line, at its end.
pub proof fn law_one_closing_line(s: SessionView, course: Seq<Told>)
    requires
        s.phase == SessionPhase::ReadingSize,
    ensures
        lines_logged(s, course) == if session_run(s, course).phase == SessionPhase::Logging
            || session_run(s, course).phase == SessionPhase::Closed {
            1int
        } else {
            0int
        },
        session_run(s, course).phase != SessionPhase::Securing,
    decreases course.len(),
{
    if course.len() > 0 {
        law_one_closing_line(s, course.drop_last());
    }
}

/// How often the UDP service was told of the end in a course of events.
pub open spec fn udp_signals(s: SessionView, course: Seq<Told>) -> int
    decreases course.len(),
{
    if course.len() == 0 {
        0
    } else {
        udp_signals(s, course.drop_last()) + if session_move(
            met(session_run(s, course.drop_last()), course.last()),
            course.last().event,
        ).next is SignalUdp {
            1int
        } else {
            0int
        }
    }
}

/// A session whose ends agreed on a key tells the UDP service once that it is over, as
/// soon as it reads no more from its user.
pub proof fn law_udp_is_signalled_once(s: SessionView, course: Seq<Told>)
    requires
        s.phase == SessionPhase::ReadingSize,
    ensures
        udp_signals(s, course) == if closing(session_run(s, course).phase) {
            1int
        } else {
            0int
        },
        session_run(s, course).phase != SessionPhase::Securing,
    decreases course.len(),
{
    if course.len() > 0 {
        law_udp_is_signalled_once(s, course.drop_last());
    }
}

/// A session whose ends did not agree on a key closes at once and in silence.
pub proof fn law_unsecured_session_closes_in_silence(s: SessionView)
    requires
        s.phase == SessionPhase::Securing,
    ensures
        ({
            let to = session_move(s, SessionEvent::Secured(None));
            &&& to.session == (SessionView { phase: SessionPhase::Closed, ..s })
            &&& to.output == OutputView::Nothing
            &&& to.next == SessionActionView::Close
        }),
{
}

/// A connected user who leaves is first taken off the list, and the others are told;
/// then a line with the number of users left is logged, whatever became of telling.
pub proof fn law_connected_user_is_seen_off(
    s: SessionView,
    left: usize,
    told: HandleStateResult,
    logged: Result<(), String>,
)
    requires
        s.phase == SessionPhase::SignallingUdp,
        s.tcp_service.user_state == UserState::Connected,
    ensures
        ({
            let a = session_move(s, SessionEvent::UdpSignalled);
            let b = session_move(a.session, SessionEvent::UserRemoved(left));
            let c = session_move(b.session, SessionEvent::NoticeSent(told));
            let d = session_move(c.session, SessionEvent::Logged(logged));
            &&& a.next == SessionActionView::RemoveUser
            &&& b.next == SessionActionView::SendNotice
            &&& c.next == SessionActionView::Log(
                closing_line(s.tcp_addr.text@, s.username, Some(left as nat), s.is_error),
            )
            &&& d.next == SessionActionView::Close
            &&& d.session.phase == SessionPhase::Closed
        }),
{
}

/// Of a user who never became connected nobody is told and nobody is taken off the
/// list: only a line is logged.
pub proof fn law_stranger_is_only_logged(s: SessionView, logged: Result<(), String>)
    requires
        s.phase == SessionPhase::SignallingUdp,
        s.tcp_service.user_state == UserState::NotConnected,
    ensures
        ({
            let a = session_move(s, SessionEvent::UdpSignalled);
            let b = session_move(a.session, SessionEvent::Logged(logged));
            &&& a.next == SessionActionView::Log(
                closing_line(s.tcp_addr.text@, s.username, None, s.is_error),
            )
            &&& b.next == SessionActionView::Close
            &&& b.session.phase == SessionPhase::Closed
        }),
{
}

/// A session that finds nothing to read and its user still there sleeps for its interval
/// and reads again, unchanged.
pub proof fn law_idle_session_reads_again(s: SessionView)
    requires
        s.phase == SessionPhase::ReadingSize,
    ensures
        ({
            let a = session_move(s, SessionEvent::SizeRead(SizeRead::WouldBlock));
            let b = session_move(a.session, SessionEvent::KeepAliveChecked(true));
            let c = session_move(b.session, SessionEvent::Slept);
            &&& a.next == SessionActionView::CheckKeepAlive
            &&& b.next == SessionActionView::Sleep(s.idle_ms)
            &&& c.next == SessionActionView::ReadSize
            &&& c.session == s
        }),
{
}

/// An action is seen as what it holds.
pub proof fn law_session_action_shows_what_it_holds(
    ms: u64,
    size: u16,
    udp: UdpService,
    line: String,
)
    ensures
        SessionAction::Secure@ == SessionActionView::Secure,
        SessionAction::ReadSize@ == SessionActionView::ReadSize,
        SessionAction::CheckKeepAlive@ == SessionActionView::CheckKeepAlive,
        SessionAction::Sleep(ms)@ == SessionActionView::Sleep(ms),
        SessionAction::HandleState(size)@ == SessionActionView::HandleState(size),
        SessionAction::StartUdp(udp)@ == SessionActionView::StartUdp(udp@),
        SessionAction::SignalUdp@ == SessionActionView::SignalUdp,
        SessionAction::RemoveUser@ == SessionActionView::RemoveUser,
        SessionAction::SendNotice@ == SessionActionView::SendNotice,
        SessionAction::Log(line)@ == SessionActionView::Log(line@),
        SessionAction::Close@ == SessionActionView::Close,
        SessionAction::Ignore@ == SessionActionView::Ignore,
{
}

/// A session is seen as what it holds.
pub proof fn law_session_shows_what_it_holds<T, U, M>(session: UserSession<T, U, M>)
    ensures
        session@.username == session.user_info.username@,
        session@.tcp_addr == session.user_info.tcp_addr,
        session@.secret_key == session.user_info.secret_key@,
        session@.tcp_service == session.tcp_service,
        session@.idle_ms == session.idle_ms,
        session@.udp_port == session.udp_port,
        session@.phase == session.phase,
        session@.is_error == session.is_error,
        session@.out_str == session.out_str@,
{
}

/// A step leads to the session, the output and the action that were announced, and touches
/// nothing of the user but the key.
pub proof fn law_step_keeps_the_user<T, U, M>(
    before: UserSession<T, U, M>,
    after: UserSession<T, U, M>,
    to: SessionMove,
    step: SessionStep,
)
    requires
        after.moved(before, to, step),
    ensures
        after@ == to.session,
        step.output@ == to.output,
        step.next@ == to.next,
        after.user_info.username == before.user_info.username,
        after.user_info.room_name == before.user_info.room_name,
        after.user_info.last_ping == before.user_info.last_ping,
        after.user_info.tcp_addr == before.user_info.tcp_addr,
        after.user_info.tcp_socket == before.user_info.tcp_socket,
        after.user_info.udp_socket == before.user_info.udp_socket,
        after.user_info.tcp_io_mutex == before.user_info.tcp_io_mutex,
        after.user_info.last_text_message_sent == before.user_info.last_text_message_sent,
        after.user_info.last_time_entered_room == before.user_info.last_time_entered_room,
{
}

/// The key that both ends agreed on, whatever it is, becomes the user's, and the first
/// packet is waited for.
pub proof fn law_agreed_key_is_kept(s: SessionView, key: Vec<u8>)
    requires
        s.phase == SessionPhase::Securing,
    ensures
        session_move(s, SessionEvent::Secured(Some(key))) == (SessionMove {
            session: SessionView { secret_key: key@, phase: SessionPhase::ReadingSize, ..s },
            output: OutputView::Nothing,
            next: SessionActionView::ReadSize,
        }),
{
}

/// A packet is handed on with the size that was read, whatever it is, and with the state
/// of the user at that time; it counts as a sign of life.
pub proof fn law_packet_is_handed_on(s: SessionView, size: u16, at: Timestamp)
    requires
        s.phase == SessionPhase::ReadingSize,
    ensures
        session_move(s, SessionEvent::SizeRead(SizeRead::Packet(Ok(size), at))) == (SessionMove {
            session: SessionView {
                tcp_service: UserTcpService {
                    user_state: s.tcp_service.user_state,
                    last_keep_alive_check_time: at,
                    sent_keep_alive: false,
                },
                phase: SessionPhase::HandlingState(s.tcp_service.user_state),
                ..s
            },
            output: OutputView::Nothing,
            next: SessionActionView::HandleState(size),
        }),
{
}

/// The key that both ends agreed on is the one that the UDP service gets when the user
/// becomes connected, along with the name that the user has by then.
pub proof fn law_udp_gets_the_agreed_key(
    s: SessionView,
    key: Vec<u8>,
    size: u16,
    at: Timestamp,
    username: Seq<char>,
)
    requires
        s.phase == SessionPhase::Securing,
        s.tcp_service.user_state == UserState::NotConnected,
    ensures
        ({
            let a = session_move(s, SessionEvent::Secured(Some(key))).session;
            let b = session_move(a, SessionEvent::SizeRead(SizeRead::Packet(Ok(size), at))).session;
            let connected = SessionView {
                username,
                tcp_service: UserTcpService {
                    user_state: UserState::Connected,
                    ..b.tcp_service
                },
                ..b
            };
            session_move(connected, SessionEvent::StateHandled(HandleStateResult::Done)).next
                == SessionActionView::StartUdp(
                UdpServiceView {
                    username,
                    addr: s.tcp_addr,
                    secret_key: key@,
                    port: s.udp_port,
                    phase: UdpPhase::CreatingSocket,
                },
            )
        }),
{
}

/// The end of reading: a user who closes the connection ends the session in silence and
/// without error, a failed read with its error, and a size that cannot be decoded with a
/// report that names the socket. Nothing else of the session changes.
pub proof fn law_reading_ends(s: SessionView, error: String, at: Timestamp)
    requires
        s.phase == SessionPhase::ReadingSize,
    ensures
        session_move(s, SessionEvent::SizeRead(SizeRead::Fin)) == (SessionMove {
            session: SessionView { phase: SessionPhase::SignallingUdp, is_error: false, ..s },
            output: OutputView::Nothing,
            next: SessionActionView::SignalUdp,
        }),
        session_move(s, SessionEvent::SizeRead(SizeRead::Failed(error))) == (SessionMove {
            session: SessionView { phase: SessionPhase::SignallingUdp, ..s },
            output: OutputView::Report(error@),
            next: SessionActionView::SignalUdp,
        }),
        session_move(s, SessionEvent::SizeRead(SizeRead::Packet(Err(error), at))) == (SessionMove {
            session: SessionView { phase: SessionPhase::SignallingUdp, ..s },
            output: OutputView::Report(
                "Deserialize error for data size on socket ("@ + s.tcp_addr.text@ + "), error: "@
                    + error@,
            ),
            next: SessionActionView::SignalUdp,
        }),
{
}

/// Nothing to read: the user is checked on, and one who is gone is left in silence; what
/// was known of the session stays.
pub proof fn law_silent_user_is_checked_on(s: SessionView)
    ensures
        s.phase == SessionPhase::ReadingSize ==> session_move(
            s,
            SessionEvent::SizeRead(SizeRead::WouldBlock),
        ) == (SessionMove {
            session: SessionView { phase: SessionPhase::CheckingKeepAlive, ..s },
            output: OutputView::Nothing,
            next: SessionActionView::CheckKeepAlive,
        }),
        s.phase == SessionPhase::CheckingKeepAlive ==> session_move(
            s,
            SessionEvent::KeepAliveChecked(true),
        ) == (SessionMove {
            session: SessionView { phase: SessionPhase::Sleeping, ..s },
            output: OutputView::Nothing,
            next: SessionActionView::Sleep(s.idle_ms),
        }),
        s.phase == SessionPhase::CheckingKeepAlive ==> session_move(
            s,
            SessionEvent::KeepAliveChecked(false),
        ) == (SessionMove {
            session: SessionView { phase: SessionPhase::SignallingUdp, ..s },
            output: OutputView::Nothing,
            next: SessionActionView::SignalUdp,
        }),
        s.phase == SessionPhase::Sleeping ==> session_move(s, SessionEvent::Slept) == (
        SessionMove {
            session: SessionView { phase: SessionPhase::ReadingSize, ..s },
            output: OutputView::Nothing,
            next: SessionActionView::ReadSize,
        }),
{
}

/// A packet that ends the session: the user has closed the connection, or something failed,
/// or the user was turned away with a reason.
pub proof fn law_packet_ends_the_session(
    s: SessionView,
    before: UserState,
    text: String,
)
    requires
        s.phase == SessionPhase::HandlingState(before),
    ensures
        session_move(
            s,
            SessionEvent::StateHandled(HandleStateResult::IoErr(IoResult::Fin)),
        ) == (SessionMove {
            session: SessionView { phase: SessionPhase::SignallingUdp, is_error: false, ..s },
            output: OutputView::Nothing,
            next: SessionActionView::SignalUdp,
        }),
        session_move(
            s,
            SessionEvent::StateHandled(HandleStateResult::IoErr(IoResult::Failed(text))),
        ) == (SessionMove {
            session: SessionView { phase: SessionPhase::SignallingUdp, ..s },
            output: OutputView::Report(text@),
            next: SessionActionView::SignalUdp,
        }),
        session_move(s, SessionEvent::StateHandled(HandleStateResult::HandleStateErr(text))) == (
        SessionMove {
            session: SessionView { phase: SessionPhase::SignallingUdp, ..s },
            output: OutputView::Report(text@),
            next: SessionActionView::SignalUdp,
        }),
        session_move(
            s,
            SessionEvent::StateHandled(HandleStateResult::UserNotConnectedReason(text)),
        ) == (SessionMove {
            session: SessionView { phase: SessionPhase::SignallingUdp, ..s },
            output: OutputView::Print(text@),
            next: SessionActionView::SignalUdp,
        }),
{
}

/// A packet that does not end the session: the next is waited for, after the start of the
/// UDP service if the packet has made the user connected.
pub proof fn law_session_goes_on_after_a_packet(
    s: SessionView,
    before: UserState,
    bytes: usize,
    result: HandleStateResult,
)
    requires
        s.phase == SessionPhase::HandlingState(before),
        result == HandleStateResult::Done || result == HandleStateResult::IoErr(
            IoResult::WouldBlock,
        ) || result == HandleStateResult::IoErr(IoResult::Done(bytes)),
    ensures
        ({
            let to = session_move(s, SessionEvent::StateHandled(result));
            let connects = before == UserState::NotConnected && s.tcp_service.user_state
                == UserState::Connected;
            &&& to.output == OutputView::Nothing
            &&& !connects ==> to.next == SessionActionView::ReadSize && to.session == (SessionView {
                phase: SessionPhase::ReadingSize,
                ..s
            })
            &&& connects ==> to.session == (SessionView { phase: SessionPhase::StartingUdp, ..s })
            &&& connects ==> to.next == SessionActionView::StartUdp(
                UdpServiceView {
                    username: s.username,
                    addr: s.tcp_addr,
                    secret_key: s.secret_key,
                    port: s.udp_port,
                    phase: UdpPhase::CreatingSocket,
                },
            )
        }),
{
}

/// Once the UDP service was started the next packet is waited for.
pub proof fn law_session_goes_on_beside_udp(s: SessionView)
    requires
        s.phase == SessionPhase::StartingUdp,
    ensures
        session_move(s, SessionEvent::UdpStarted) == (SessionMove {
            session: SessionView { phase: SessionPhase::ReadingSize, ..s },
            output: OutputView::Nothing,
            next: SessionActionView::ReadSize,
        }),
{
}

/// The steps of closing, one by one: nothing of the session changes but the phase and the
/// closing line, and what goes wrong with the notice or the log is reported.
pub proof fn law_steps_of_closing(
    s: SessionView,
    left: usize,
    notice: HandleStateResult,
    logged: Result<(), String>,
)
    ensures
        s.phase == SessionPhase::SignallingUdp ==> ({
            let to = session_move(s, SessionEvent::UdpSignalled);
            let line = closing_line(s.tcp_addr.text@, s.username, None, s.is_error);
            &&& to.output == OutputView::Nothing
            &&& s.tcp_service.user_state == UserState::Connected ==> to.next
                == SessionActionView::RemoveUser && to.session == (SessionView {
                phase: SessionPhase::RemovingUser,
                ..s
            })
            &&& s.tcp_service.user_state == UserState::NotConnected ==> to.next
                == SessionActionView::Log(line) && to.session == (SessionView {
                phase: SessionPhase::Logging,
                out_str: line,
                ..s
            })
        }),
        s.phase == SessionPhase::RemovingUser ==> session_move(
            s,
            SessionEvent::UserRemoved(left),
        ) == (SessionMove {
            session: SessionView {
                phase: SessionPhase::SendingNotice,
                out_str: closing_line(
                    s.tcp_addr.text@,
                    s.username,
                    Some(left as nat),
                    s.is_error,
                ),
                ..s
            },
            output: OutputView::Nothing,
            next: SessionActionView::SendNotice,
        }),
        s.phase == SessionPhase::SendingNotice ==> session_move(
            s,
            SessionEvent::NoticeSent(notice),
        ) == (SessionMove {
            session: SessionView { phase: SessionPhase::Logging, ..s },
            output: if notice is HandleStateErr {
                OutputView::Report(notice->HandleStateErr_0@)
            } else {
                OutputView::Nothing
            },
            next: SessionActionView::Log(s.out_str),
        }),
        s.phase == SessionPhase::Logging ==> session_move(s, SessionEvent::Logged(logged)) == (
        SessionMove {
            session: SessionView { phase: SessionPhase::Closed, ..s },
            output: if logged is Err {
                OutputView::Report(logged->Err_0@)
            } else {
                OutputView::Nothing
            },
            next: SessionActionView::Close,
        }),
{
}

/// The closing line names the socket, the user unless a user who never became connected
/// ended in error, the reason, and the number of users left if the user was connected.
pub proof fn law_closing_line_tells_who_and_why(addr: Seq<char>, username: Seq<char>, left: nat)
    ensures
        closing_line(addr, username, Some(left), true) == "Closing connection with socket ("@ + addr
            + ") AKA ("@ + username + ") due to error [connected users: "@ + decimal(left)
            + "]."@,
        closing_line(addr, username, Some(left), false) == "Closing connection with socket ("@
            + addr + ") AKA ("@ + username + ") in response to FIN [connected users: "@ + decimal(
            left,
        ) + "]."@,
        closing_line(addr, username, None, true) == "Closing connection with socket ("@ + addr
            + ") due to error (this user was not connected)."@,
        closing_line(addr, username, None, false) == "Closing connection with socket ("@ + addr
            + ") AKA ("@ + username + ") in response to FIN (this user was not connected)."@,
{
}

/// Every phase takes note of the outcome of what was asked for last, and of nothing else.
pub proof fn law_session_takes_note_of_what_it_asked_for(s: SessionView, event: SessionEvent)
    requires
        s.phase is Securing ==> !(event is Secured),
        s.phase is ReadingSize ==> !(event is SizeRead),
        s.phase is CheckingKeepAlive ==> !(event is KeepAliveChecked),
        s.phase is Sleeping ==> !(event is Slept),
        s.phase is HandlingState ==> !(event is StateHandled),
        s.phase is StartingUdp ==> !(event is UdpStarted),
        s.phase is SignallingUdp ==> !(event is UdpSignalled),
        s.phase is RemovingUser ==> !(event is UserRemoved),
        s.phase is SendingNotice ==> !(event is NoticeSent),
        s.phase is Logging ==> !(event is Logged),
    ensures
        session_move(s, event) == (SessionMove {
            session: s,
            output: OutputView::Nothing,
            next: SessionActionView::Ignore,
        }),
{
}

} // verus!
