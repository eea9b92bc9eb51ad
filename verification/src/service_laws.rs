//! What the service does with each outcome, and with each connection as a whole.
use crate::address::PeerAddress;
use crate::bans::{bans_in_force, in_force, law_named_iff_in_force, BannedAddress};
use crate::net_service::{
    judged, service_move, Acceptance, ServiceAction, ServiceActionView, ServiceEvent, ServicePhase,
};
use crate::output::OutputView;
use crate::text::decimal;
use crate::time::Timestamp;
use vstd::prelude::*;

verus! {

/// An action is seen as what it holds.
pub proof fn law_service_action_shows_what_it_holds(text: String, peer: PeerAddress)
    ensures
        ServiceAction::OpenLog(text)@ == ServiceActionView::OpenLog(text@),
        ServiceAction::Log(text)@ == ServiceActionView::Log(text@),
        ServiceAction::Bind(text)@ == ServiceActionView::Bind(text@),
        ServiceAction::Accept@ == ServiceActionView::Accept,
        ServiceAction::SetNoDelay@ == ServiceActionView::SetNoDelay,
        ServiceAction::SetNonBlocking@ == ServiceActionView::SetNonBlocking,
        ServiceAction::Serve(peer)@ == ServiceActionView::Serve(peer),
        ServiceAction::Finish@ == ServiceActionView::Finish,
        ServiceAction::Ignore@ == ServiceActionView::Ignore,
{
}

/// A connection from an address of which a ban is in force is refused, whatever the
/// address; every other connection is admitted, and a failure stays a failure.
pub proof fn law_connection_is_refused_iff_its_address_is_banned(
    bans: Seq<BannedAddress>,
    times: Seq<Timestamp>,
    delay_sec: int,
    peer: PeerAddress,
    error: String,
)
    requires
        times.len() == bans.len(),
    ensures
        (exists|i: int|
            0 <= i < bans.len() && #[trigger] bans[i].addr == peer.ip && in_force(
                bans[i],
                times[i]@,
                delay_sec,
            )) ==> judged(bans_in_force(bans, times, delay_sec), Ok(peer)) == Acceptance::Banned(
            peer,
        ),
        (forall|i: int|
            0 <= i < bans.len() && #[trigger] bans[i].addr == peer.ip ==> !in_force(
                bans[i],
                times[i]@,
                delay_sec,
            )) ==> judged(bans_in_force(bans, times, delay_sec), Ok(peer)) == Acceptance::Admitted(
            peer,
        ),
        judged(bans_in_force(bans, times, delay_sec), Err(error)) == Acceptance::Failed(error),
{
    law_named_iff_in_force(bans, times, delay_sec, peer.ip);
}

/// With a delay of at least a second: a connection is refused as long as less than the
/// delay has passed since a ban of its address, and admitted once it has passed since all.
pub proof fn law_connection_is_refused_for_the_delay(
    bans: Seq<BannedAddress>,
    times: Seq<Timestamp>,
    delay_sec: int,
    peer: PeerAddress,
)
    requires
        times.len() == bans.len(),
        delay_sec > 0,
    ensures
        (exists|i: int|
            0 <= i < bans.len() && #[trigger] bans[i].addr == peer.ip && times[i]@
                - bans[i].banned_at@ < delay_sec * 1_000_000_000) ==> judged(
            bans_in_force(bans, times, delay_sec),
            Ok(peer),
        ) == Acceptance::Banned(peer),
        (forall|i: int|
            0 <= i < bans.len() && #[trigger] bans[i].addr == peer.ip ==> times[i]@
                - bans[i].banned_at@ >= delay_sec * 1_000_000_000) ==> judged(
            bans_in_force(bans, times, delay_sec),
            Ok(peer),
        ) == Acceptance::Admitted(peer),
{
    law_named_iff_in_force(bans, times, delay_sec, peer.ip);
    assert forall|i: int| 0 <= i < bans.len() implies (in_force(
        #[trigger] bans[i],
        times[i]@,
        delay_sec,
    ) <==> times[i]@ - bans[i].banned_at@ < delay_sec * 1_000_000_000) by {
        crate::bans::law_ban_lasts_its_delay(bans[i], times[i]@, delay_sec);
    }
}

/// Every admitted peer is served: its socket is prepared in two steps, silently, the peer
/// that is served is the one that was admitted, and then the next is waited for.
pub proof fn law_admitted_peer_is_served(
    port: nat,
    peer: PeerAddress,
    no_delay: Result<(), String>,
    non_blocking: Result<(), String>,
)
    requires
        no_delay is Ok,
        non_blocking is Ok,
    ensures
        ({
            let a = service_move(
                ServicePhase::Accepting,
                port,
                ServiceEvent::Accepted(Acceptance::Admitted(peer)),
            );
            let b = service_move(a.phase, port, ServiceEvent::NoDelaySet(no_delay));
            let c = service_move(b.phase, port, ServiceEvent::NonBlockingSet(non_blocking));
            let d = service_move(c.phase, port, ServiceEvent::Served);
            &&& a.next == ServiceActionView::SetNoDelay
            &&& a.output == OutputView::Nothing
            &&& a.phase == ServicePhase::SettingNoDelay(peer)
            &&& b.next == ServiceActionView::SetNonBlocking
            &&& b.output == OutputView::Nothing
            &&& b.phase == ServicePhase::SettingNonBlocking(peer)
            &&& c.next == ServiceActionView::Serve(peer)
            &&& c.output == OutputView::Nothing
            &&& c.phase == ServicePhase::Serving
            &&& d.next == ServiceActionView::Accept
            &&& d.output == OutputView::Nothing
            &&& d.phase == ServicePhase::Accepting
        }),
{
}

/// A connection that is not served is dropped and the next one waited for: a banned one in
/// silence, one that failed with a report of the call, the peer and the error.
pub proof fn law_other_connections_are_dropped(port: nat, peer: PeerAddress, error: String)
    ensures
        ({
            let banned = service_move(
                ServicePhase::Accepting,
                port,
                ServiceEvent::Accepted(Acceptance::Banned(peer)),
            );
            &&& banned.phase == ServicePhase::Accepting
            &&& banned.next == ServiceActionView::Accept
            &&& banned.output == OutputView::Nothing
        }),
        ({
            let failed = service_move(
                ServicePhase::Accepting,
                port,
                ServiceEvent::Accepted(Acceptance::Failed(error)),
            );
            &&& failed.phase == ServicePhase::Accepting
            &&& failed.next == ServiceActionView::Accept
            &&& failed.output == OutputView::Report(
                "listener_socket.accept() failed, error: "@ + error@,
            )
        }),
        ({
            let unset = service_move(
                ServicePhase::SettingNoDelay(peer),
                port,
                ServiceEvent::NoDelaySet(Err(error)),
            );
            &&& unset.phase == ServicePhase::Accepting
            &&& unset.next == ServiceActionView::Accept
            &&& unset.output == OutputView::Report(
                "socket.set_nodelay() failed on addr ("@ + peer.text@ + "), error: "@ + error@,
            )
        }),
        ({
            let unset = service_move(
                ServicePhase::SettingNonBlocking(peer),
                port,
                ServiceEvent::NonBlockingSet(Err(error)),
            );
            &&& unset.phase == ServicePhase::Accepting
            &&& unset.next == ServiceActionView::Accept
            &&& unset.output == OutputView::Report(
                "socket.set_nonblocking() failed on addr ("@ + peer.text@ + "), error: "@ + error@,
            )
        }),
{
    reveal_strlit("listener_socket.accept()");
    reveal_strlit(" failed, error: ");
    reveal_strlit("listener_socket.accept() failed, error: ");
    assert("listener_socket.accept()"@ + " failed, error: "@
        =~= "listener_socket.accept() failed, error: "@);
    reveal_strlit("socket.set_nodelay()");
    reveal_strlit("socket.set_nonblocking()");
    reveal_strlit(" failed on addr (");
    reveal_strlit("socket.set_nodelay() failed on addr (");
    reveal_strlit("socket.set_nonblocking() failed on addr (");
    assert("socket.set_nodelay()"@ + " failed on addr ("@
        =~= "socket.set_nodelay() failed on addr ("@);
    assert("socket.set_nonblocking()"@ + " failed on addr ("@
        =~= "socket.set_nonblocking() failed on addr ("@);
}

/// Starting up: the log is opened, the start is logged, the port is bound on all addresses
/// of the machine, that the service is ready is logged, and connections are waited for.
pub proof fn law_start_up(
    port: nat,
    opened: Result<(), String>,
    started: Result<(), String>,
    bound: Result<(), String>,
    ready: Result<(), String>,
)
    requires
        bound is Ok,
    ensures
        ({
            let a = service_move(ServicePhase::OpeningLog, port, ServiceEvent::LogOpened(opened));
            let b = service_move(a.phase, port, ServiceEvent::Logged(started));
            let c = service_move(b.phase, port, ServiceEvent::Bound(bound));
            let d = service_move(c.phase, port, ServiceEvent::Logged(ready));
            &&& a.phase == ServicePhase::LoggingStart
            &&& a.next == ServiceActionView::Log("Starting..."@)
            &&& a.output == match opened {
                Ok(_) => OutputView::Nothing,
                Err(e) => OutputView::Print("ServerLogger::open() failed, error: "@ + e@),
            }
            &&& b.phase == ServicePhase::Binding
            &&& b.next == ServiceActionView::Bind("0.0.0.0:"@ + decimal(port))
            &&& b.output == match started {
                Ok(_) => OutputView::Nothing,
                Err(e) => OutputView::Print("ServerLogger failed, error: "@ + e@),
            }
            &&& c.phase == ServicePhase::LoggingReady
            &&& c.next == ServiceActionView::Log(
                "Ready. Listening on port "@ + decimal(port) + " for connection requests..."@,
            )
            &&& c.output == OutputView::Nothing
            &&& d.phase == ServicePhase::Accepting
            &&& d.next == ServiceActionView::Accept
            &&& d.output == match ready {
                Ok(_) => OutputView::Nothing,
                Err(e) => OutputView::Report(
                    "ServerLogger.println_and_log() failed, error: "@ + e@,
                ),
            }
        }),
{
    reveal_strlit(" failed, error: ");
    reveal_strlit("ServerLogger::open()");
    reveal_strlit("ServerLogger::open() failed, error: ");
    reveal_strlit("ServerLogger");
    reveal_strlit("ServerLogger failed, error: ");
    reveal_strlit("ServerLogger.println_and_log()");
    reveal_strlit("ServerLogger.println_and_log() failed, error: ");
    assert("ServerLogger::open()"@ + " failed, error: "@
        =~= "ServerLogger::open() failed, error: "@);
    assert("ServerLogger"@ + " failed, error: "@ =~= "ServerLogger failed, error: "@);
    assert("ServerLogger.println_and_log()"@ + " failed, error: "@
        =~= "ServerLogger.println_and_log() failed, error: "@);
}

/// A service that cannot be bound reports the error and is over.
pub proof fn law_unbound_service_is_over(port: nat, error: String)
    ensures
        ({
            let to = service_move(ServicePhase::Binding, port, ServiceEvent::Bound(Err(error)));
            &&& to.phase == ServicePhase::Stopped
            &&& to.next == ServiceActionView::Finish
            &&& to.output == OutputView::Report(
                "listener_socket.accept() failed, error: "@ + error@,
            )
        }),
{
    reveal_strlit("listener_socket.accept()");
    reveal_strlit(" failed, error: ");
    reveal_strlit("listener_socket.accept() failed, error: ");
    assert("listener_socket.accept()"@ + " failed, error: "@
        =~= "listener_socket.accept() failed, error: "@);
}

/// Every phase takes note of the outcome of what was asked for last, and of nothing else.
pub proof fn law_service_takes_note_of_what_it_asked_for(
    phase: ServicePhase,
    port: nat,
    event: ServiceEvent,
)
    requires
        phase is OpeningLog ==> !(event is LogOpened),
        phase is LoggingStart || phase is LoggingReady ==> !(event is Logged),
        phase is Binding ==> !(event is Bound),
        phase is Accepting ==> !(event is Accepted),
        phase is SettingNoDelay ==> !(event is NoDelaySet),
        phase is SettingNonBlocking ==> !(event is NonBlockingSet),
        phase is Serving ==> !(event is Served),
    ensures
        service_move(phase, port, event).phase == phase,
        service_move(phase, port, event).output == OutputView::Nothing,
        service_move(phase, port, event).next == ServiceActionView::Ignore,
{
}

} // verus!
