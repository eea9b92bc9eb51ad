//! A user's UDP service: a shared datagram socket is opened, the user's first packet is
//! awaited, the ping is measured and told to everybody.
use crate::address::{IpAddress, PeerAddress};
use crate::output::{Output, OutputView};
use vstd::prelude::*;

verus! {

/// What the UDP service waits for.
#[derive(Clone, Copy, PartialEq, Eq, Structural, Debug)]
pub enum UdpPhase {
    CreatingSocket,
    SettingReuseAddress,
    Binding,
    SettingNonBlocking,
    Connecting,
    CheckingPing,
    SendingPing,
    Finished,
}

/// An outcome that the UDP service is told; errors come as they are printed.
#[derive(PartialEq, Eq, Debug)]
pub enum UdpEvent {
    SocketCreated(Result<(), String>),
    ReuseAddressSet(Result<(), String>),
    Bound(Result<(), String>),
    NonBlockingSet(Result<(), String>),
    Connected(Result<(), String>),
    /// The ping in milliseconds.
    PingChecked(Result<u16, String>),
    PingSent(Result<(), String>),
}

/// What the UDP service wants done.
#[derive(Clone, Copy, PartialEq, Eq, Structural, Debug)]
pub enum UdpAction {
    /// Create an IP version 4 datagram socket.
    CreateSocket,
    /// Let the socket share its address.
    SetReuseAddress,
    /// Bind the socket.
    Bind(IpAddress, u16),
    /// Make the socket return at once where it would have to wait.
    SetNonBlocking,
    /// Wait for the user's first packet.
    WaitForConnection,
    /// Measure the ping for the first time.
    CheckPing,
    /// Tell all users that the user's ping is this many milliseconds.
    SendPing(u16),
    /// Nothing more: the service is over.
    Finish,
    /// Nothing: the outcome is not the one that is waited for.
    Ignore,
}

/// What to print and what to do next.
pub struct UdpStep {
    pub output: Output,
    pub next: UdpAction,
}

/// The UDP service of one user.
pub struct UdpService {
    pub username: String,
    pub addr: PeerAddress,
    pub secret_key: Vec<u8>,
    pub port: u16,
    pub phase: UdpPhase,
}

/// A [`UdpService`] as the values that it holds.
pub struct UdpServiceView {
    pub username: Seq<char>,
    pub addr: PeerAddress,
    pub secret_key: Seq<u8>,
    pub port: u16,
    pub phase: UdpPhase,
}

impl View for UdpService {
    type V = UdpServiceView;

    open spec fn view(&self) -> UdpServiceView {
        UdpServiceView {
            username: self.username@,
            addr: self.addr,
            secret_key: self.secret_key@,
            port: self.port,
            phase: self.phase,
        }
    }
}

/// Where an outcome leads: the phase that follows, the output and the action.
pub struct UdpMove {
    pub phase: UdpPhase,
    pub output: OutputView,
    pub next: UdpAction,
}

/// Goes on silently.
pub open spec fn udp_goes_on(phase: UdpPhase, next: UdpAction) -> UdpMove {
    UdpMove { phase, output: OutputView::Nothing, next }
}

/// Ends with a report.
pub open spec fn udp_fails(report: Seq<char>) -> UdpMove {
    UdpMove {
        phase: UdpPhase::Finished,
        output: OutputView::Report(report),
        next: UdpAction::Finish,
    }
}

/// What is said when the call `call` failed with `error`.
pub open spec fn call_failure(call: Seq<char>, error: Seq<char>) -> Seq<char> {
    call + " failed, error: "@ + error + ","@
}

/// Where `event` leads from `phase` for a service on `port`: on success to the next
/// phase, on failure to the end. An event that the phase does not wait for leads
/// nowhere.
pub open spec fn udp_move(phase: UdpPhase, port: u16, event: UdpEvent) -> UdpMove {
    match (phase, event) {
        (UdpPhase::CreatingSocket, UdpEvent::SocketCreated(result)) => match result {
            Ok(_) => udp_goes_on(UdpPhase::SettingReuseAddress, UdpAction::SetReuseAddress),
            Err(e) => udp_fails(call_failure("Socket::new()"@, e@)),
        },
        (UdpPhase::SettingReuseAddress, UdpEvent::ReuseAddressSet(result)) => match result {
            Ok(_) => udp_goes_on(UdpPhase::Binding, UdpAction::Bind(IpAddress::V4(0), port)),
            Err(e) => udp_fails(call_failure("Socket::set_reuse_address()"@, e@)),
        },
        (UdpPhase::Binding, UdpEvent::Bound(result)) => match result {
            Ok(_) => udp_goes_on(UdpPhase::SettingNonBlocking, UdpAction::SetNonBlocking),
            Err(e) => udp_fails(call_failure("Socket::bind()"@, e@)),
        },
        (UdpPhase::SettingNonBlocking, UdpEvent::NonBlockingSet(result)) => match result {
            Ok(_) => udp_goes_on(UdpPhase::Connecting, UdpAction::WaitForConnection),
            Err(e) => udp_fails(call_failure("udp_socket.set_nonblocking()"@, e@)),
        },
        (UdpPhase::Connecting, UdpEvent::Connected(result)) => match result {
            Ok(_) => udp_goes_on(UdpPhase::CheckingPing, UdpAction::CheckPing),
            Err(e) => udp_fails(e@),
        },
        (UdpPhase::CheckingPing, UdpEvent::PingChecked(result)) => match result {
            Ok(ping_ms) => udp_goes_on(UdpPhase::SendingPing, UdpAction::SendPing(ping_ms)),
            Err(e) => udp_fails(e@),
        },
        (UdpPhase::SendingPing, UdpEvent::PingSent(result)) => match result {
            Ok(_) => udp_goes_on(UdpPhase::Finished, UdpAction::Finish),
            Err(e) => udp_fails(e@),
        },
        _ => udp_goes_on(phase, UdpAction::Ignore),
    }
}

/// Writes what is said when the call `call` failed with `error`.
fn call_failure_text(call: &str, error: &String) -> (text: String)
    ensures
        text@ == call_failure(call@, error@),
{
    let mut text = call.to_owned();
    text.append(" failed, error: ");
    text.append(error.as_str());
    text.append(",");
    text
}

impl UdpService {
    /// The UDP service of `username`, who is connected from `addr`. Its first action is
    /// to create a socket, which will be bound to `port`.
    pub fn new(username: String, addr: PeerAddress, secret_key: Vec<u8>, port: u16) -> (service:
        UdpService)
        ensures
            service@ == (UdpServiceView {
                username: username@,
                addr,
                secret_key: secret_key@,
                port,
                phase: UdpPhase::CreatingSocket,
            }),
    {
        UdpService { username, addr, secret_key, port, phase: UdpPhase::CreatingSocket }
    }

    /// What a new service wants done first; nothing, if it is no longer new.
    pub fn first(&self) -> (step: UdpStep)
        ensures
            step.output@ == OutputView::Nothing,
            self.phase == UdpPhase::CreatingSocket ==> step.next == UdpAction::CreateSocket,
            self.phase != UdpPhase::CreatingSocket ==> step.next == UdpAction::Ignore,
    {
        let next = if self.phase == UdpPhase::CreatingSocket {
            UdpAction::CreateSocket
        } else {
            UdpAction::Ignore
        };
        UdpStep { output: Output::Nothing, next }
    }

    /// Goes to `phase` and asks for `next`.
    fn go_on(&mut self, phase: UdpPhase, next: UdpAction) -> (step: UdpStep)
        ensures
            final(self)@ == (UdpServiceView { phase, ..old(self)@ }),
            step.output@ == OutputView::Nothing,
            step.next == next,
    {
        self.phase = phase;
        UdpStep { output: Output::Nothing, next }
    }

    /// Ends with a report.
    fn fail(&mut self, report: String) -> (step: UdpStep)
        ensures
            final(self)@ == (UdpServiceView { phase: UdpPhase::Finished, ..old(self)@ }),
            step.output@ == OutputView::Report(report@),
            step.next == UdpAction::Finish,
    {
        self.phase = UdpPhase::Finished;
        UdpStep { output: Output::Report(report), next: UdpAction::Finish }
    }

    /// Takes note of an outcome and says what to do next.
    pub fn advance(&mut self, event: UdpEvent) -> (step: UdpStep)
        ensures
            ({
                let to = udp_move(old(self)@.phase, old(self)@.port, event);
                &&& final(self)@ == (UdpServiceView { phase: to.phase, ..old(self)@ })
                &&& step.output@ == to.output
                &&& step.next == to.next
            }),
    {
        match (self.phase, event) {
            (UdpPhase::CreatingSocket, UdpEvent::SocketCreated(result)) => match result {
                Ok(_) => self.go_on(UdpPhase::SettingReuseAddress, UdpAction::SetReuseAddress),
                Err(e) => self.fail(call_failure_text("Socket::new()", &e)),
            },
            (UdpPhase::SettingReuseAddress, UdpEvent::ReuseAddressSet(result)) => match result {
                Ok(_) => {
                    let port = self.port;
                    self.go_on(UdpPhase::Binding, UdpAction::Bind(IpAddress::V4(0), port))
                },
                Err(e) => self.fail(call_failure_text("Socket::set_reuse_address()", &e)),
            },
            (UdpPhase::Binding, UdpEvent::Bound(result)) => match result {
                Ok(_) => self.go_on(UdpPhase::SettingNonBlocking, UdpAction::SetNonBlocking),
                Err(e) => self.fail(call_failure_text("Socket::bind()", &e)),
            },
            (UdpPhase::SettingNonBlocking, UdpEvent::NonBlockingSet(result)) => match result {
                Ok(_) => self.go_on(UdpPhase::Connecting, UdpAction::WaitForConnection),
                Err(e) => self.fail(call_failure_text("udp_socket.set_nonblocking()", &e)),
            },
            (UdpPhase::Connecting, UdpEvent::Connected(result)) => match result {
                Ok(_) => self.go_on(UdpPhase::CheckingPing, UdpAction::CheckPing),
                Err(e) => self.fail(e),
            },
            (UdpPhase::CheckingPing, UdpEvent::PingChecked(result)) => match result {
                Ok(ping_ms) => self.go_on(UdpPhase::SendingPing, UdpAction::SendPing(ping_ms)),
                Err(e) => self.fail(e),
            },
            (UdpPhase::SendingPing, UdpEvent::PingSent(result)) => match result {
                Ok(_) => self.go_on(UdpPhase::Finished, UdpAction::Finish),
                Err(e) => self.fail(e),
            },
            (phase, _) => self.go_on(phase, UdpAction::Ignore),
        }
    }
}

/// How many outcomes a service in `phase` has behind it.
pub open spec fn udp_stage(phase: UdpPhase) -> int {
    match phase {
        UdpPhase::CreatingSocket => 0,
        UdpPhase::SettingReuseAddress => 1,
        UdpPhase::Binding => 2,
        UdpPhase::SettingNonBlocking => 3,
        UdpPhase::Connecting => 4,
        UdpPhase::CheckingPing => 5,
        UdpPhase::SendingPing => 6,
        UdpPhase::Finished => 7,
    }
}

/// Whether `phase` waits for `event`.
pub open spec fn udp_awaits(phase: UdpPhase, event: UdpEvent) -> bool {
    match phase {
        UdpPhase::CreatingSocket => event is SocketCreated,
        UdpPhase::SettingReuseAddress => event is ReuseAddressSet,
        UdpPhase::Binding => event is Bound,
        UdpPhase::SettingNonBlocking => event is NonBlockingSet,
        UdpPhase::Connecting => event is Connected,
        UdpPhase::CheckingPing => event is PingChecked,
        UdpPhase::SendingPing => event is PingSent,
        UdpPhase::Finished => false,
    }
}

/// Whether `event` tells of a success.
pub open spec fn udp_succeeded(event: UdpEvent) -> bool {
    match event {
        UdpEvent::SocketCreated(result) | UdpEvent::ReuseAddressSet(result) | UdpEvent::Bound(
            result,
        ) | UdpEvent::NonBlockingSet(result) | UdpEvent::Connected(result) | UdpEvent::PingSent(
            result,
        ) => result is Ok,
        UdpEvent::PingChecked(result) => result is Ok,
    }
}

/// The stages are passed in order and none is left out: a success leads silently to the
/// next stage, a failure with a report to the last, and what is not waited for nowhere.
pub proof fn law_udp_passes_stages_in_order(phase: UdpPhase, port: u16, event: UdpEvent)
    ensures
        ({
            let to = udp_move(phase, port, event);
            &&& !udp_awaits(phase, event) ==> to == udp_goes_on(phase, UdpAction::Ignore)
            &&& udp_awaits(phase, event) && udp_succeeded(event) ==> udp_stage(to.phase)
                == udp_stage(phase) + 1 && to.output == OutputView::Nothing
            &&& udp_awaits(phase, event) && !udp_succeeded(event) ==> to.phase
                == UdpPhase::Finished && to.output is Report
            &&& udp_awaits(phase, event) ==> (to.next == UdpAction::Finish <==> to.phase
                == UdpPhase::Finished)
        }),
{
}

/// The phase after a sequence of events.
pub open spec fn udp_run(phase: UdpPhase, port: u16, events: Seq<UdpEvent>) -> UdpPhase
    decreases events.len(),
{
    if events.len() == 0 {
        phase
    } else {
        udp_move(udp_run(phase, port, events.drop_last()), port, events.last()).phase
    }
}

/// How many of a sequence of events are waited for when they come.
pub open spec fn udp_awaited(phase: UdpPhase, port: u16, events: Seq<UdpEvent>) -> int
    decreases events.len(),
{
    if events.len() == 0 {
        0
    } else {
        let before = events.drop_last();
        udp_awaited(phase, port, before) + if udp_awaits(
            udp_run(phase, port, before),
            events.last(),
        ) {
            1int
        } else {
            0int
        }
    }
}

/// A UDP service ends after at most seven outcomes.
pub proof fn law_udp_ends(phase: UdpPhase, port: u16, events: Seq<UdpEvent>)
    ensures
        udp_stage(phase) + udp_awaited(phase, port, events) <= udp_stage(
            udp_run(phase, port, events),
        ),
        udp_awaited(phase, port, events) <= 7 - udp_stage(phase),
    decreases events.len(),
{
    if events.len() > 0 {
        law_udp_ends(phase, port, events.drop_last());
    }
}

/// Whether event `i` made the service tell a ping.
pub open spec fn tells_ping(phase: UdpPhase, port: u16, events: Seq<UdpEvent>, i: int) -> bool {
    &&& 0 <= i < events.len()
    &&& udp_move(udp_run(phase, port, events.take(i)), port, events[i]).next is SendPing
}

/// The ping that is told is the one that was measured, and it is told once.
pub proof fn law_udp_tells_measured_ping_once(
    phase: UdpPhase,
    port: u16,
    events: Seq<UdpEvent>,
    i: int,
    j: int,
)
    requires
        tells_ping(phase, port, events, i),
        tells_ping(phase, port, events, j),
    ensures
        events[i] matches UdpEvent::PingChecked(Ok(ping_ms)) && udp_move(
            udp_run(phase, port, events.take(i)),
            port,
            events[i],
        ).next == UdpAction::SendPing(ping_ms),
        i == j,
{
    if i < j {
        lemma_stage_grows(phase, port, events, i + 1, j);
        assert(events.take(i + 1).drop_last() =~= events.take(i));
    } else if j < i {
        lemma_stage_grows(phase, port, events, j + 1, i);
        assert(events.take(j + 1).drop_last() =~= events.take(j));
    }
}

/// The stage never falls back.
proof fn lemma_stage_grows(phase: UdpPhase, port: u16, events: Seq<UdpEvent>, i: int, j: int)
    requires
        0 <= i <= j <= events.len(),
    ensures
        udp_stage(udp_run(phase, port, events.take(i))) <= udp_stage(
            udp_run(phase, port, events.take(j)),
        ),
    decreases j - i,
{
    if i < j {
        lemma_stage_grows(phase, port, events, i, j - 1);
        assert(events.take(j).drop_last() =~= events.take(j - 1));
    }
}

/// A service is seen as what it holds.
pub proof fn law_udp_service_shows_what_it_holds(service: UdpService)
    ensures
        service@.username == service.username@,
        service@.addr == service.addr,
        service@.secret_key == service.secret_key@,
        service@.port == service.port,
        service@.phase == service.phase,
{
}

/// Bringing a service up: each success asks for the step whose outcome is waited for next,
/// the socket is bound to the port of the service on all addresses of the machine, and the
/// ping that was measured, whatever it is, is told to everybody.
pub proof fn law_udp_good_course(
    port: u16,
    created: Result<(), String>,
    reuse: Result<(), String>,
    bound: Result<(), String>,
    non_blocking: Result<(), String>,
    connected: Result<(), String>,
    ping_ms: u16,
    sent: Result<(), String>,
)
    requires
        created is Ok && reuse is Ok && bound is Ok && non_blocking is Ok && connected is Ok
            && sent is Ok,
    ensures
        ({
            let a = udp_move(UdpPhase::CreatingSocket, port, UdpEvent::SocketCreated(created));
            let b = udp_move(a.phase, port, UdpEvent::ReuseAddressSet(reuse));
            let c = udp_move(b.phase, port, UdpEvent::Bound(bound));
            let d = udp_move(c.phase, port, UdpEvent::NonBlockingSet(non_blocking));
            let e = udp_move(d.phase, port, UdpEvent::Connected(connected));
            let f = udp_move(e.phase, port, UdpEvent::PingChecked(Ok(ping_ms)));
            let g = udp_move(f.phase, port, UdpEvent::PingSent(sent));
            &&& a.phase == UdpPhase::SettingReuseAddress && a.next == UdpAction::SetReuseAddress
            &&& b.phase == UdpPhase::Binding && b.next == UdpAction::Bind(IpAddress::V4(0), port)
            &&& c.phase == UdpPhase::SettingNonBlocking && c.next == UdpAction::SetNonBlocking
            &&& d.phase == UdpPhase::Connecting && d.next == UdpAction::WaitForConnection
            &&& e.phase == UdpPhase::CheckingPing && e.next == UdpAction::CheckPing
            &&& f.phase == UdpPhase::SendingPing && f.next == UdpAction::SendPing(ping_ms)
            &&& g.phase == UdpPhase::Finished && g.next == UdpAction::Finish
            &&& a.output is Nothing && b.output is Nothing && c.output is Nothing
            &&& d.output is Nothing && e.output is Nothing && f.output is Nothing
            &&& g.output is Nothing
        }),
{
}

/// Each failure ends the service with one report: of a call it names the call and the
/// error, of what went wrong with the user it is the message as it came.
pub proof fn law_udp_failure_is_reported(port: u16, error: String)
    ensures
        udp_move(UdpPhase::CreatingSocket, port, UdpEvent::SocketCreated(Err(error))) == (UdpMove {
            phase: UdpPhase::Finished,
            output: OutputView::Report("Socket::new() failed, error: "@ + error@ + ","@),
            next: UdpAction::Finish,
        }),
        udp_move(UdpPhase::SettingReuseAddress, port, UdpEvent::ReuseAddressSet(Err(error))) == (
        UdpMove {
            phase: UdpPhase::Finished,
            output: OutputView::Report(
                "Socket::set_reuse_address() failed, error: "@ + error@ + ","@,
            ),
            next: UdpAction::Finish,
        }),
        udp_move(UdpPhase::Binding, port, UdpEvent::Bound(Err(error))) == (UdpMove {
            phase: UdpPhase::Finished,
            output: OutputView::Report("Socket::bind() failed, error: "@ + error@ + ","@),
            next: UdpAction::Finish,
        }),
        udp_move(UdpPhase::SettingNonBlocking, port, UdpEvent::NonBlockingSet(Err(error))) == (
        UdpMove {
            phase: UdpPhase::Finished,
            output: OutputView::Report(
                "udp_socket.set_nonblocking() failed, error: "@ + error@ + ","@,
            ),
            next: UdpAction::Finish,
        }),
        udp_move(UdpPhase::Connecting, port, UdpEvent::Connected(Err(error))) == (UdpMove {
            phase: UdpPhase::Finished,
            output: OutputView::Report(error@),
            next: UdpAction::Finish,
        }),
        udp_move(UdpPhase::CheckingPing, port, UdpEvent::PingChecked(Err(error))) == (UdpMove {
            phase: UdpPhase::Finished,
            output: OutputView::Report(error@),
            next: UdpAction::Finish,
        }),
        udp_move(UdpPhase::SendingPing, port, UdpEvent::PingSent(Err(error))) == (UdpMove {
            phase: UdpPhase::Finished,
            output: OutputView::Report(error@),
            next: UdpAction::Finish,
        }),
{
    reveal_strlit(" failed, error: ");
    reveal_strlit("Socket::new()");
    reveal_strlit("Socket::new() failed, error: ");
    reveal_strlit("Socket::set_reuse_address()");
    reveal_strlit("Socket::set_reuse_address() failed, error: ");
    reveal_strlit("Socket::bind()");
    reveal_strlit("Socket::bind() failed, error: ");
    reveal_strlit("udp_socket.set_nonblocking()");
    reveal_strlit("udp_socket.set_nonblocking() failed, error: ");
    assert("Socket::new()"@ + " failed, error: "@ =~= "Socket::new() failed, error: "@);
    assert("Socket::set_reuse_address()"@ + " failed, error: "@
        =~= "Socket::set_reuse_address() failed, error: "@);
    assert("Socket::bind()"@ + " failed, error: "@ =~= "Socket::bind() failed, error: "@);
    assert("udp_socket.set_nonblocking()"@ + " failed, error: "@
        =~= "udp_socket.set_nonblocking() failed, error: "@);
}

/// Every phase takes note of the outcome of what was asked for last, and of nothing else.
pub proof fn law_udp_takes_note_of_what_it_asked_for(phase: UdpPhase, port: u16, event: UdpEvent)
    requires
        phase is CreatingSocket ==> !(event is SocketCreated),
        phase is SettingReuseAddress ==> !(event is ReuseAddressSet),
        phase is Binding ==> !(event is Bound),
        phase is SettingNonBlocking ==> !(event is NonBlockingSet),
        phase is Connecting ==> !(event is Connected),
        phase is CheckingPing ==> !(event is PingChecked),
        phase is SendingPing ==> !(event is PingSent),
    ensures
        udp_move(phase, port, event) == (UdpMove {
            phase,
            output: OutputView::Nothing,
            next: UdpAction::Ignore,
        }),
{
}

} // verus!
