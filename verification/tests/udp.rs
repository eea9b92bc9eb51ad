use net_service::address::{IpAddress, PeerAddress};
use net_service::output::Output;
use net_service::udp_service::{UdpAction, UdpEvent, UdpPhase, UdpService};

fn service() -> UdpService {
    let addr = PeerAddress {
        ip: IpAddress::V4(1),
        text: "1.2.3.4:5".to_string(),
    };
    UdpService::new("ann".to_string(), addr, vec![1, 2], 4444)
}

fn good() -> Vec<UdpEvent> {
    vec![
        UdpEvent::SocketCreated(Ok(())),
        UdpEvent::ReuseAddressSet(Ok(())),
        UdpEvent::Bound(Ok(())),
        UdpEvent::NonBlockingSet(Ok(())),
        UdpEvent::Connected(Ok(())),
        UdpEvent::PingChecked(Ok(37)),
        UdpEvent::PingSent(Ok(())),
    ]
}

/// The service after the first `n` successes.
fn after(n: usize) -> UdpService {
    let mut s = service();
    for event in good().into_iter().take(n) {
        s.advance(event);
    }
    s
}

#[test]
fn new_service_wants_a_socket_first() {
    let step = service().first();
    assert_eq!(step.output, Output::Nothing);
    assert_eq!(step.next, UdpAction::CreateSocket);
    assert_eq!(after(1).first().next, UdpAction::Ignore);
    assert_eq!(after(7).first().next, UdpAction::Ignore);
}

#[test]
fn good_course() {
    let mut s = service();
    assert_eq!(s.username, "ann");
    assert_eq!(s.secret_key, vec![1, 2]);
    assert_eq!(s.phase, UdpPhase::CreatingSocket);
    let actions = [
        UdpAction::SetReuseAddress,
        UdpAction::Bind(IpAddress::V4(0), 4444),
        UdpAction::SetNonBlocking,
        UdpAction::WaitForConnection,
        UdpAction::CheckPing,
        UdpAction::SendPing(37),
        UdpAction::Finish,
    ];
    for (event, action) in good().into_iter().zip(actions) {
        let step = s.advance(event);
        assert_eq!(step.output, Output::Nothing);
        assert_eq!(step.next, action);
    }
    assert_eq!(s.phase, UdpPhase::Finished);
    assert_eq!(s.advance(UdpEvent::PingChecked(Ok(1))).next, UdpAction::Ignore);
}

#[test]
fn every_failure_ends_the_service() {
    let e = || "no".to_string();
    let cases = vec![
        (UdpEvent::SocketCreated(Err(e())), "Socket::new() failed, error: no,"),
        (
            UdpEvent::ReuseAddressSet(Err(e())),
            "Socket::set_reuse_address() failed, error: no,",
        ),
        (UdpEvent::Bound(Err(e())), "Socket::bind() failed, error: no,"),
        (
            UdpEvent::NonBlockingSet(Err(e())),
            "udp_socket.set_nonblocking() failed, error: no,",
        ),
        (UdpEvent::Connected(Err(e())), "no"),
        (UdpEvent::PingChecked(Err(e())), "no"),
        (UdpEvent::PingSent(Err(e())), "no"),
    ];
    for (n, (event, report)) in cases.into_iter().enumerate() {
        let mut s = after(n);
        let step = s.advance(event);
        assert_eq!(step.output, Output::Report(report.to_string()));
        assert_eq!(step.next, UdpAction::Finish);
        assert_eq!(s.phase, UdpPhase::Finished);
    }
}

#[test]
fn outcomes_out_of_turn_are_ignored() {
    let mut s = after(2);
    let step = s.advance(UdpEvent::PingChecked(Ok(5)));
    assert_eq!(step.output, Output::Nothing);
    assert_eq!(step.next, UdpAction::Ignore);
    assert_eq!(s.phase, UdpPhase::Binding);
    assert_eq!(s.port, 4444);
}
