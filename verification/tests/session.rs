use net_service::address::{IpAddress, PeerAddress};
use net_service::output::Output;
use net_service::session::{
    closing_text, size_read, HandleStateResult, IoResult, SessionAction, SessionEvent,
    SessionPhase, SizeRead, UserSession, UserState, UserTcpService,
};
use net_service::time::Timestamp;
use net_service::udp_service::UdpPhase;
use net_service::users::UserInfo;

type Session = UserSession<u32, u32, u8>;

fn at(secs: i64) -> Timestamp {
    Timestamp::new(secs, 0).unwrap()
}

fn user(name: &str) -> UserInfo<u32, u32, u8> {
    let addr = PeerAddress {
        ip: IpAddress::V4(1),
        text: "1.2.3.4:5".to_string(),
    };
    let mut user = UserInfo::new_at(addr, 5, 9, "Lobby", at(1), at(2));
    user.username = name.to_string();
    user
}

fn fresh() -> Session {
    let tcp_service = UserTcpService {
        user_state: UserState::NotConnected,
        last_keep_alive_check_time: at(1),
        sent_keep_alive: true,
    };
    UserSession::new(user("ann"), tcp_service, 300, 4444)
}

fn reading(state: UserState) -> Session {
    let mut s = fresh();
    let step = s.advance(SessionEvent::Secured(Some(vec![1, 2, 3])));
    assert!(matches!(step.next, SessionAction::ReadSize));
    s.tcp_service.user_state = state;
    s
}

fn packet(size: u16) -> SessionEvent {
    SessionEvent::SizeRead(SizeRead::Packet(Ok(size), at(50)))
}

fn text(s: &str) -> String {
    s.to_string()
}

#[test]
fn size_is_decoded() {
    let before = Timestamp::now();
    match size_read(IoResult::Done(2), &[0x34, 0x12]) {
        SizeRead::Packet(size, at) => {
            assert_eq!(size, Ok(0x1234));
            assert!(at.seconds_since(&before) < 10);
        }
        _ => panic!("no packet"),
    }
    assert!(matches!(
        size_read(IoResult::Done(1), &[1]),
        SizeRead::Packet(Err(_), _)
    ));
    assert_eq!(size_read(IoResult::Fin, &[0, 0]), SizeRead::Fin);
    assert_eq!(size_read(IoResult::WouldBlock, &[0, 0]), SizeRead::WouldBlock);
    assert_eq!(
        size_read(IoResult::Failed(text("reset")), &[0, 0]),
        SizeRead::Failed(text("reset"))
    );
}

#[test]
fn new_session_wants_a_key_first() {
    let step = fresh().first();
    assert_eq!(step.output, Output::Nothing);
    assert!(matches!(step.next, SessionAction::Secure));
    let step = reading(UserState::NotConnected).first();
    assert_eq!(step.output, Output::Nothing);
    assert!(matches!(step.next, SessionAction::Ignore));
}

#[test]
fn key_is_kept() {
    let s = reading(UserState::NotConnected);
    assert_eq!(s.user_info.secret_key, vec![1, 2, 3]);
    assert_eq!(s.phase, SessionPhase::ReadingSize);
}

#[test]
fn session_without_key_closes_in_silence() {
    let mut s = fresh();
    let step = s.advance(SessionEvent::Secured(None));
    assert_eq!(step.output, Output::Nothing);
    assert!(matches!(step.next, SessionAction::Close));
    assert_eq!(s.phase, SessionPhase::Closed);
    assert!(matches!(
        s.advance(SessionEvent::Slept).next,
        SessionAction::Ignore
    ));
}

#[test]
fn idle_session_sleeps_and_reads_again() {
    let mut s = reading(UserState::Connected);
    let step = s.advance(SessionEvent::SizeRead(SizeRead::WouldBlock));
    assert!(matches!(step.next, SessionAction::CheckKeepAlive));
    let step = s.advance(SessionEvent::KeepAliveChecked(true));
    assert!(matches!(step.next, SessionAction::Sleep(300)));
    let step = s.advance(SessionEvent::Slept);
    assert!(matches!(step.next, SessionAction::ReadSize));
    assert!(s.tcp_service.sent_keep_alive);
}

#[test]
fn dead_user_is_left() {
    let mut s = reading(UserState::Connected);
    s.advance(SessionEvent::SizeRead(SizeRead::WouldBlock));
    let step = s.advance(SessionEvent::KeepAliveChecked(false));
    assert_eq!(step.output, Output::Nothing);
    assert!(matches!(step.next, SessionAction::SignalUdp));
    assert!(s.is_error);
}

#[test]
fn packet_is_a_sign_of_life() {
    let mut s = reading(UserState::Connected);
    let step = s.advance(packet(700));
    assert!(matches!(step.next, SessionAction::HandleState(700)));
    assert_eq!(s.tcp_service.last_keep_alive_check_time, at(50));
    assert!(!s.tcp_service.sent_keep_alive);
    assert_eq!(s.tcp_service.user_state, UserState::Connected);
    let step = s.advance(SessionEvent::StateHandled(HandleStateResult::Done));
    assert!(matches!(step.next, SessionAction::ReadSize));
}

#[test]
fn udp_starts_when_user_connects() {
    let mut s = reading(UserState::NotConnected);
    s.advance(packet(1));
    s.tcp_service.user_state = UserState::Connected;
    s.user_info.username = text("bob");
    let step = s.advance(SessionEvent::StateHandled(HandleStateResult::Done));
    match step.next {
        SessionAction::StartUdp(udp) => {
            assert_eq!(udp.username, "bob");
            assert_eq!(udp.addr.text, "1.2.3.4:5");
            assert_eq!(udp.secret_key, vec![1, 2, 3]);
            assert_eq!(udp.port, 4444);
            assert_eq!(udp.phase, UdpPhase::CreatingSocket);
        }
        _ => panic!("no UDP service"),
    }
    let step = s.advance(SessionEvent::UdpStarted);
    assert!(matches!(step.next, SessionAction::ReadSize));
    s.advance(packet(1));
    let step = s.advance(SessionEvent::StateHandled(HandleStateResult::Done));
    assert!(matches!(step.next, SessionAction::ReadSize));
}

#[test]
fn harmless_io_outcomes_do_not_end_a_session() {
    for result in [IoResult::WouldBlock, IoResult::Done(3)] {
        let mut s = reading(UserState::NotConnected);
        s.advance(packet(1));
        s.tcp_service.user_state = UserState::Connected;
        let step = s.advance(SessionEvent::StateHandled(HandleStateResult::IoErr(result)));
        assert!(matches!(step.next, SessionAction::StartUdp(_)));
    }
}

#[test]
fn ends_while_reading() {
    let cases = [
        (SizeRead::Fin, Output::Nothing, false),
        (SizeRead::Failed(text("reset")), Output::Report(text("reset")), true),
        (
            SizeRead::Packet(Err(text("too short")), at(50)),
            Output::Report(text(
                "Deserialize error for data size on socket (1.2.3.4:5), error: too short",
            )),
            true,
        ),
    ];
    for (read, output, is_error) in cases {
        let mut s = reading(UserState::Connected);
        let step = s.advance(SessionEvent::SizeRead(read));
        assert_eq!(step.output, output);
        assert!(matches!(step.next, SessionAction::SignalUdp));
        assert_eq!(s.is_error, is_error);
        assert!(s.tcp_service.sent_keep_alive);
    }
}

#[test]
fn ends_while_handling() {
    let cases = [
        (HandleStateResult::IoErr(IoResult::Fin), Output::Nothing, false),
        (
            HandleStateResult::IoErr(IoResult::Failed(text("reset"))),
            Output::Report(text("reset")),
            true,
        ),
        (
            HandleStateResult::HandleStateErr(text("bad packet")),
            Output::Report(text("bad packet")),
            true,
        ),
        (
            HandleStateResult::UserNotConnectedReason(text("wrong password")),
            Output::Print(text("wrong password")),
            true,
        ),
    ];
    for (result, output, is_error) in cases {
        let mut s = reading(UserState::NotConnected);
        s.advance(packet(1));
        s.tcp_service.user_state = UserState::Connected;
        let step = s.advance(SessionEvent::StateHandled(result));
        assert_eq!(step.output, output);
        assert!(matches!(step.next, SessionAction::SignalUdp));
        assert_eq!(s.is_error, is_error);
    }
}

#[test]
fn connected_user_is_seen_off() {
    let mut s = reading(UserState::Connected);
    s.advance(SessionEvent::SizeRead(SizeRead::Fin));
    let step = s.advance(SessionEvent::UdpSignalled);
    assert!(matches!(step.next, SessionAction::RemoveUser));
    let mut users = vec![user("bob"), user("ann"), user("cy")];
    let removed = s.remove_from(&mut users);
    assert_eq!(removed, SessionEvent::UserRemoved(2));
    assert_eq!(users[0].username, "bob");
    assert_eq!(users[1].username, "cy");
    let step = s.advance(removed);
    assert!(matches!(step.next, SessionAction::SendNotice));
    let step = s.advance(SessionEvent::NoticeSent(HandleStateResult::HandleStateErr(
        text("nobody listens"),
    )));
    assert_eq!(step.output, Output::Report(text("nobody listens")));
    assert!(matches!(step.next, SessionAction::Log(line) if line
        == "Closing connection with socket (1.2.3.4:5) AKA (ann) in response to FIN [connected users: 2]."));
    let step = s.advance(SessionEvent::Logged(Err(text("disk full"))));
    assert_eq!(step.output, Output::Report(text("disk full")));
    assert!(matches!(step.next, SessionAction::Close));
    assert_eq!(s.phase, SessionPhase::Closed);
}

#[test]
fn notice_failures_of_other_kinds_are_not_reported() {
    let mut s = reading(UserState::Connected);
    s.advance(SessionEvent::SizeRead(SizeRead::Failed(text("reset"))));
    s.advance(SessionEvent::UdpSignalled);
    assert_eq!(s.remove_from(&mut vec![user("bob")]), SessionEvent::UserRemoved(0));
    s.advance(SessionEvent::UserRemoved(0));
    let step = s.advance(SessionEvent::NoticeSent(HandleStateResult::IoErr(
        IoResult::Failed(text("reset")),
    )));
    assert_eq!(step.output, Output::Nothing);
    assert!(matches!(step.next, SessionAction::Log(line) if line
        == "Closing connection with socket (1.2.3.4:5) AKA (ann) due to error [connected users: 0]."));
    let step = s.advance(SessionEvent::Logged(Ok(())));
    assert_eq!(step.output, Output::Nothing);
    assert!(matches!(step.next, SessionAction::Close));
}

#[test]
fn stranger_is_only_logged() {
    let mut s = reading(UserState::NotConnected);
    s.advance(SessionEvent::SizeRead(SizeRead::Failed(text("reset"))));
    let step = s.advance(SessionEvent::UdpSignalled);
    assert!(matches!(step.next, SessionAction::Log(line) if line
        == "Closing connection with socket (1.2.3.4:5) due to error (this user was not connected)."));
    assert_eq!(s.phase, SessionPhase::Logging);
}

#[test]
fn closing_lines() {
    assert_eq!(
        closing_text("a:1", "ann", Some(12), true),
        "Closing connection with socket (a:1) AKA (ann) due to error [connected users: 12]."
    );
    assert_eq!(
        closing_text("a:1", "ann", Some(0), false),
        "Closing connection with socket (a:1) AKA (ann) in response to FIN [connected users: 0]."
    );
    assert_eq!(
        closing_text("a:1", "", None, true),
        "Closing connection with socket (a:1) due to error (this user was not connected)."
    );
    assert_eq!(
        closing_text("a:1", "", None, false),
        "Closing connection with socket (a:1) AKA () in response to FIN (this user was not connected)."
    );
}

#[test]
fn events_out_of_turn_are_ignored() {
    let mut s = reading(UserState::Connected);
    let step = s.advance(SessionEvent::UserRemoved(3));
    assert_eq!(step.output, Output::Nothing);
    assert!(matches!(step.next, SessionAction::Ignore));
    assert_eq!(s.phase, SessionPhase::ReadingSize);
    assert!(s.is_error);
}

#[test]
fn whole_course_signals_and_logs_once() {
    let mut s = fresh();
    let course = vec![
        SessionEvent::Secured(Some(vec![9])),
        packet(4),
        SessionEvent::StateHandled(HandleStateResult::Done),
        SessionEvent::SizeRead(SizeRead::WouldBlock),
        SessionEvent::KeepAliveChecked(true),
        SessionEvent::Slept,
        SessionEvent::SizeRead(SizeRead::Fin),
        SessionEvent::SizeRead(SizeRead::Fin),
        SessionEvent::UdpSignalled,
        SessionEvent::UdpSignalled,
        SessionEvent::Logged(Ok(())),
        SessionEvent::Logged(Ok(())),
    ];
    let mut signals = 0;
    let mut lines = Vec::new();
    for event in course {
        match s.advance(event).next {
            SessionAction::SignalUdp => signals += 1,
            SessionAction::Log(line) => lines.push(line),
            _ => {}
        }
    }
    assert_eq!(signals, 1);
    assert_eq!(
        lines,
        vec![
            "Closing connection with socket (1.2.3.4:5) AKA (ann) in response to FIN (this user was not connected)."
        ]
    );
    assert!(!s.is_error);
    assert_eq!(s.phase, SessionPhase::Closed);
}
