use net_service::address::{IpAddress, PeerAddress};
use net_service::bans::{BanReason, BannedAddress};
use net_service::net_service::{
    Acceptance, GlobalParams, NetService, ServerConfig, ServiceAction, ServiceEvent, ServicePhase,
    ServiceStep,
};
use net_service::output::Output;
use net_service::session::{SessionPhase, UserState, UserTcpService};
use net_service::time::Timestamp;

type Service = NetService<u32, u32, u8>;

fn at(secs: i64) -> Timestamp {
    Timestamp::new(secs, 0).unwrap()
}

fn service() -> Service {
    NetService::new(
        ServerConfig {
            server_port: 51337,
            server_password: "pass".to_string(),
            log_file_path: "/var/log/server.log".to_string(),
        },
        GlobalParams {
            password_retry_delay_sec: 5,
            default_room_name: "Lobby".to_string(),
            interval_tcp_idle_ms: 300,
            server_default_port: 4444,
        },
    )
}

fn peer(ip: u32) -> PeerAddress {
    PeerAddress {
        ip: IpAddress::V4(ip),
        text: format!("peer {}", ip),
    }
}

fn err(text: &str) -> Result<(), String> {
    Err(text.to_string())
}

fn report(step: &ServiceStep) -> &str {
    match &step.output {
        Output::Report(text) => text,
        _ => panic!("no report"),
    }
}

fn print(step: &ServiceStep) -> &str {
    match &step.output {
        Output::Print(text) => text,
        _ => panic!("nothing printed"),
    }
}

fn listening() -> Service {
    let mut s = service();
    s.start();
    s.advance(ServiceEvent::LogOpened(Ok(())));
    s.advance(ServiceEvent::Logged(Ok(())));
    s.advance(ServiceEvent::Bound(Ok(())));
    s.advance(ServiceEvent::Logged(Ok(())));
    s
}

#[test]
fn new_service_is_idle() {
    let s = service();
    assert!(!s.is_running);
    assert!(s.connected_users.is_empty());
    assert!(s.banned_addrs.is_empty());
    assert_eq!(s.server_config.server_port, 51337);
    assert!(matches!(s.phase, ServicePhase::Idle));
}

#[test]
fn start_leads_to_accepting() {
    let mut s = service();
    let step = s.start();
    assert!(s.is_running);
    assert_eq!(step.output, Output::Nothing);
    assert!(matches!(step.next, ServiceAction::OpenLog(path) if path == "/var/log/server.log"));
    let step = s.advance(ServiceEvent::LogOpened(Ok(())));
    assert!(matches!(step.next, ServiceAction::Log(line) if line == "Starting..."));
    let step = s.advance(ServiceEvent::Logged(Ok(())));
    assert!(matches!(step.next, ServiceAction::Bind(addr) if addr == "0.0.0.0:51337"));
    let step = s.advance(ServiceEvent::Bound(Ok(())));
    assert!(matches!(step.next, ServiceAction::Log(line)
        if line == "Ready. Listening on port 51337 for connection requests..."));
    let step = s.advance(ServiceEvent::Logged(Ok(())));
    assert_eq!(step.output, Output::Nothing);
    assert!(matches!(step.next, ServiceAction::Accept));
}

#[test]
fn second_start_is_refused() {
    let mut s = listening();
    let step = s.start();
    assert_eq!(print(&step), "\nAlready running...");
    assert!(matches!(step.next, ServiceAction::Finish));
    assert!(matches!(s.phase, ServicePhase::Accepting));
}

#[test]
fn start_is_refused_after_a_failed_bind() {
    let mut s = service();
    s.start();
    s.advance(ServiceEvent::LogOpened(Ok(())));
    s.advance(ServiceEvent::Logged(Ok(())));
    let step = s.advance(ServiceEvent::Bound(err("address in use")));
    assert_eq!(
        report(&step),
        "listener_socket.accept() failed, error: address in use"
    );
    assert!(matches!(step.next, ServiceAction::Finish));
    assert!(s.is_running);
    assert_eq!(print(&s.start()), "\nAlready running...");
    assert!(matches!(
        s.advance(ServiceEvent::Served).next,
        ServiceAction::Ignore
    ));
}

#[test]
fn log_failures_are_only_printed() {
    let mut s = service();
    s.start();
    let step = s.advance(ServiceEvent::LogOpened(err("no such file")));
    assert_eq!(
        print(&step),
        "ServerLogger::open() failed, error: no such file"
    );
    assert!(matches!(step.next, ServiceAction::Log(line) if line == "Starting..."));
    let step = s.advance(ServiceEvent::Logged(err("disk full")));
    assert_eq!(print(&step), "ServerLogger failed, error: disk full");
    assert!(matches!(step.next, ServiceAction::Bind(_)));
    s.advance(ServiceEvent::Bound(Ok(())));
    let step = s.advance(ServiceEvent::Logged(err("disk full")));
    assert_eq!(
        report(&step),
        "ServerLogger.println_and_log() failed, error: disk full"
    );
    assert!(matches!(step.next, ServiceAction::Accept));
}

#[test]
fn admitted_peer_is_served() {
    let mut s = listening();
    let acceptance = s.accepted(Ok(peer(1)));
    assert!(matches!(&acceptance, Acceptance::Admitted(p) if p.text == "peer 1"));
    let step = s.advance(ServiceEvent::Accepted(acceptance));
    assert!(matches!(step.next, ServiceAction::SetNoDelay));
    let step = s.advance(ServiceEvent::NoDelaySet(Ok(())));
    assert!(matches!(step.next, ServiceAction::SetNonBlocking));
    let step = s.advance(ServiceEvent::NonBlockingSet(Ok(())));
    assert!(matches!(step.next, ServiceAction::Serve(p) if p.text == "peer 1"));
    let step = s.advance(ServiceEvent::Served);
    assert!(matches!(step.next, ServiceAction::Accept));
}

#[test]
fn failures_on_a_connection_are_reported() {
    let mut s = listening();
    let acceptance = s.accepted(Err("aborted".to_string()));
    let step = s.advance(ServiceEvent::Accepted(acceptance));
    assert_eq!(
        report(&step),
        "listener_socket.accept() failed, error: aborted"
    );
    assert!(matches!(step.next, ServiceAction::Accept));

    s.advance(ServiceEvent::Accepted(Acceptance::Admitted(peer(1))));
    let step = s.advance(ServiceEvent::NoDelaySet(err("bad socket")));
    assert_eq!(
        report(&step),
        "socket.set_nodelay() failed on addr (peer 1), error: bad socket"
    );
    assert!(matches!(step.next, ServiceAction::Accept));

    s.advance(ServiceEvent::Accepted(Acceptance::Admitted(peer(2))));
    s.advance(ServiceEvent::NoDelaySet(Ok(())));
    let step = s.advance(ServiceEvent::NonBlockingSet(err("bad socket")));
    assert_eq!(
        report(&step),
        "socket.set_nonblocking() failed on addr (peer 2), error: bad socket"
    );
    assert!(matches!(step.next, ServiceAction::Accept));
}

#[test]
fn banned_peer_is_dropped_in_silence() {
    let mut s = listening();
    let ban = BannedAddress {
        banned_at: at(100),
        addr: IpAddress::V4(7),
        reason: BanReason::Spam,
    };
    s.banned_addrs.push(ban);
    let acceptance = s.accepted_at(Ok(peer(7)), &vec![at(104)]);
    assert!(matches!(&acceptance, Acceptance::Banned(_)));
    assert_eq!(s.banned_addrs, vec![ban]);
    let step = s.advance(ServiceEvent::Accepted(acceptance));
    assert_eq!(step.output, Output::Nothing);
    assert!(matches!(step.next, ServiceAction::Accept));

    let acceptance = s.accepted_at(Ok(peer(8)), &vec![at(104)]);
    assert!(matches!(acceptance, Acceptance::Admitted(_)));
    assert_eq!(s.banned_addrs.len(), 1);

    let acceptance = s.accepted_at(Ok(peer(7)), &vec![at(105)]);
    assert!(matches!(acceptance, Acceptance::Admitted(_)));
    assert!(s.banned_addrs.is_empty());
}

#[test]
fn ban_is_judged_by_the_clock() {
    let mut s = listening();
    s.banned_addrs.push(BannedAddress {
        banned_at: Timestamp::now(),
        addr: IpAddress::V4(7),
        reason: BanReason::WrongPassword,
    });
    s.params.password_retry_delay_sec = 3600;
    assert!(matches!(s.accepted(Ok(peer(7))), Acceptance::Banned(_)));
    s.banned_addrs[0].banned_at = at(0);
    assert!(matches!(s.accepted(Ok(peer(7))), Acceptance::Admitted(_)));
    assert!(s.banned_addrs.is_empty());
}

#[test]
fn failed_accept_leaves_the_bans() {
    let mut s = listening();
    s.banned_addrs.push(BannedAddress {
        banned_at: at(0),
        addr: IpAddress::V4(7),
        reason: BanReason::WrongPassword,
    });
    assert!(matches!(
        s.accepted(Err("aborted".to_string())),
        Acceptance::Failed(e) if e == "aborted"
    ));
    assert_eq!(s.banned_addrs.len(), 1);
}

#[test]
fn unexpected_events_are_ignored() {
    let mut s = service();
    let step = s.advance(ServiceEvent::Bound(Ok(())));
    assert!(matches!(step.next, ServiceAction::Ignore));
    assert!(matches!(s.phase, ServicePhase::Idle));
    let mut s = listening();
    let step = s.advance(ServiceEvent::NonBlockingSet(err("x")));
    assert_eq!(step.output, Output::Nothing);
    assert!(matches!(step.next, ServiceAction::Ignore));
    assert!(matches!(s.phase, ServicePhase::Accepting));
}

#[test]
fn session_takes_over_the_parameters() {
    let tcp_service = UserTcpService {
        user_state: UserState::NotConnected,
        last_keep_alive_check_time: at(1),
        sent_keep_alive: false,
    };
    let session = service().new_session(peer(3), 5, 9, tcp_service);
    assert_eq!(session.user_info.room_name, "Lobby");
    assert_eq!(session.user_info.tcp_addr.text, "peer 3");
    assert_eq!(session.user_info.tcp_socket, 5);
    assert_eq!(session.tcp_service, tcp_service);
    assert_eq!(session.idle_ms, 300);
    assert_eq!(session.udp_port, 4444);
    assert_eq!(session.phase, SessionPhase::Securing);
    assert!(session.is_error);
}
