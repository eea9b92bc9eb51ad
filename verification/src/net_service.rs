//! The service itself: it opens the log, listens, and hands each connection whose address
//! is not banned to a session of its own.
use crate::address::PeerAddress;
use crate::bans::{
    bans_in_force, in_force, is_banned, keep_banned_at, law_named_iff_in_force, names, read_clock,
    BannedAddress,
};
use crate::output::{Output, OutputView};
use crate::session::{SessionPhase, UserSession, UserTcpService};
use crate::text::{decimal, decimal_text};
use crate::time::{in_calendar, readings, Timestamp};
use crate::users::{just_connected, UserInfo};
use vstd::prelude::*;

verus! {

/// What the operator of the server chose.
#[derive(Debug)]
pub struct ServerConfig {
    pub server_port: u16,
    pub server_password: String,
    pub log_file_path: String,
}

impl Clone for ServerConfig {
    fn clone(&self) -> (other: ServerConfig)
        ensures
            other == *self,
    {
        ServerConfig {
            server_port: self.server_port,
            server_password: self.server_password.clone(),
            log_file_path: self.log_file_path.clone(),
        }
    }
}

/// What is the same for every server.
#[derive(Debug)]
pub struct GlobalParams {
    /// How long an address stays banned, in seconds.
    pub password_retry_delay_sec: i64,
    /// The room that a user enters first.
    pub default_room_name: String,
    /// How long a session sleeps when there is nothing to read, in milliseconds.
    pub interval_tcp_idle_ms: u64,
    /// The port of the UDP services.
    pub server_default_port: u16,
}

/// What the service waits for.
#[derive(Debug)]
pub enum ServicePhase {
    /// It was not started yet.
    Idle,
    OpeningLog,
    LoggingStart,
    Binding,
    LoggingReady,
    Accepting,
    SettingNoDelay(PeerAddress),
    SettingNonBlocking(PeerAddress),
    Serving,
    /// It could not listen.
    Stopped,
}

/// The outcome of accepting a connection.
#[derive(Debug)]
pub enum Acceptance {
    /// The error, as it is printed.
    Failed(String),
    /// The address is banned.
    Banned(PeerAddress),
    /// The address is not banned.
    Admitted(PeerAddress),
}

/// An outcome that the service is told; errors come as they are printed.
#[derive(Debug)]
pub enum ServiceEvent {
    LogOpened(Result<(), String>),
    Logged(Result<(), String>),
    Bound(Result<(), String>),
    Accepted(Acceptance),
    NoDelaySet(Result<(), String>),
    NonBlockingSet(Result<(), String>),
    Served,
}

/// What the service wants done.
#[derive(Debug)]
pub enum ServiceAction {
    /// Open the log file at this path.
    OpenLog(String),
    /// Print this line and write it to the log.
    Log(String),
    /// Listen on this address.
    Bind(String),
    /// Wait for a connection. One that was accepted before and not served is dropped.
    Accept,
    /// Send small packets on the new connection at once.
    SetNoDelay,
    /// Make the new connection return at once where it would have to wait.
    SetNonBlocking,
    /// Start a session for the new connection beside the service.
    Serve(PeerAddress),
    /// Nothing more: the call that started the service returns.
    Finish,
    /// Nothing: the outcome is not the one that is waited for.
    Ignore,
}

/// A [`ServiceAction`] as the values that it holds.
pub enum ServiceActionView {
    OpenLog(Seq<char>),
    Log(Seq<char>),
    Bind(Seq<char>),
    Accept,
    SetNoDelay,
    SetNonBlocking,
    Serve(PeerAddress),
    Finish,
    Ignore,
}

impl View for ServiceAction {
    type V = ServiceActionView;

    open spec fn view(&self) -> ServiceActionView {
        match self {
            ServiceAction::OpenLog(path) => ServiceActionView::OpenLog(path@),
            ServiceAction::Log(line) => ServiceActionView::Log(line@),
            ServiceAction::Bind(addr) => ServiceActionView::Bind(addr@),
            ServiceAction::Accept => ServiceActionView::Accept,
            ServiceAction::SetNoDelay => ServiceActionView::SetNoDelay,
            ServiceAction::SetNonBlocking => ServiceActionView::SetNonBlocking,
            ServiceAction::Serve(peer) => ServiceActionView::Serve(*peer),
            ServiceAction::Finish => ServiceActionView::Finish,
            ServiceAction::Ignore => ServiceActionView::Ignore,
        }
    }
}

/// What to print and what to do next.
#[derive(Debug)]
pub struct ServiceStep {
    pub output: Output,
    pub next: ServiceAction,
}

/// The service, with the users that are connected and the addresses that are banned.
pub struct NetService<T, U, M> {
    pub server_config: ServerConfig,
    pub params: GlobalParams,
    pub connected_users: Vec<UserInfo<T, U, M>>,
    pub banned_addrs: Vec<BannedAddress>,
    pub is_running: bool,
    pub phase: ServicePhase,
}

/// Where an outcome leads: the phase that follows, the output and the action.
pub struct ServiceMove {
    pub phase: ServicePhase,
    pub output: OutputView,
    pub next: ServiceActionView,
}

/// The address that a service on `port` listens on: all of the machine's.
pub open spec fn listen_address(port: nat) -> Seq<char> {
    "0.0.0.0:"@ + decimal(port)
}

/// The line that is logged when the service listens.
pub open spec fn ready_line(port: nat) -> Seq<char> {
    "Ready. Listening on port "@ + decimal(port) + " for connection requests..."@
}

/// What is said when `call` failed with `error`.
pub open spec fn failure(call: Seq<char>, error: Seq<char>) -> Seq<char> {
    call + " failed, error: "@ + error
}

/// What is said when `call` failed with `error` on the connection from `peer`.
pub open spec fn peer_failure(call: Seq<char>, peer: PeerAddress, error: Seq<char>) -> Seq<char> {
    call + " failed on addr ("@ + peer.text@ + "), error: "@ + error
}

/// Waits for the next connection, after some output.
pub open spec fn accepts(output: OutputView) -> ServiceMove {
    ServiceMove { phase: ServicePhase::Accepting, output, next: ServiceActionView::Accept }
}

/// Nothing where a line was logged or a file opened, else a line on the failure.
pub open spec fn print_failure(call: Seq<char>, result: Result<(), String>) -> OutputView {
    match result {
        Ok(_) => OutputView::Nothing,
        Err(e) => OutputView::Print(failure(call, e@)),
    }
}

/// Where `event` leads from `phase` for a service on `port`. An event that the phase
/// does not wait for leads nowhere.
pub open spec fn service_move(phase: ServicePhase, port: nat, event: ServiceEvent) -> ServiceMove {
    match (phase, event) {
        (ServicePhase::OpeningLog, ServiceEvent::LogOpened(result)) => ServiceMove {
            phase: ServicePhase::LoggingStart,
            output: print_failure("ServerLogger::open()"@, result),
            next: ServiceActionView::Log("Starting..."@),
        },
        (ServicePhase::LoggingStart, ServiceEvent::Logged(result)) => ServiceMove {
            phase: ServicePhase::Binding,
            output: print_failure("ServerLogger"@, result),
            next: ServiceActionView::Bind(listen_address(port)),
        },
        (ServicePhase::Binding, ServiceEvent::Bound(result)) => match result {
            Ok(_) => ServiceMove {
                phase: ServicePhase::LoggingReady,
                output: OutputView::Nothing,
                next: ServiceActionView::Log(ready_line(port)),
            },
            Err(e) => ServiceMove {
                phase: ServicePhase::Stopped,
                output: OutputView::Report(failure("listener_socket.accept()"@, e@)),
                next: ServiceActionView::Finish,
            },
        },
        (ServicePhase::LoggingReady, ServiceEvent::Logged(result)) => match result {
            Ok(_) => accepts(OutputView::Nothing),
            Err(e) => accepts(OutputView::Report(failure("ServerLogger.println_and_log()"@, e@))),
        },
        (ServicePhase::Accepting, ServiceEvent::Accepted(acceptance)) => match acceptance {
            Acceptance::Failed(e) => accepts(
                OutputView::Report(failure("listener_socket.accept()"@, e@)),
            ),
            Acceptance::Banned(_) => accepts(OutputView::Nothing),
            Acceptance::Admitted(peer) => ServiceMove {
                phase: ServicePhase::SettingNoDelay(peer),
                output: OutputView::Nothing,
                next: ServiceActionView::SetNoDelay,
            },
        },
        (ServicePhase::SettingNoDelay(peer), ServiceEvent::NoDelaySet(result)) => match result {
            Ok(_) => ServiceMove {
                phase: ServicePhase::SettingNonBlocking(peer),
                output: OutputView::Nothing,
                next: ServiceActionView::SetNonBlocking,
            },
            Err(e) => accepts(
                OutputView::Report(peer_failure("socket.set_nodelay()"@, peer, e@)),
            ),
        },
        (ServicePhase::SettingNonBlocking(peer), ServiceEvent::NonBlockingSet(result)) => match result {
            Ok(_) => ServiceMove {
                phase: ServicePhase::Serving,
                output: OutputView::Nothing,
                next: ServiceActionView::Serve(peer),
            },
            Err(e) => accepts(
                OutputView::Report(peer_failure("socket.set_nonblocking()"@, peer, e@)),
            ),
        },
        (ServicePhase::Serving, ServiceEvent::Served) => accepts(OutputView::Nothing),
        _ => ServiceMove { phase, output: OutputView::Nothing, next: ServiceActionView::Ignore },
    }
}

/// Writes what is said when `call` failed with `error`.
fn failure_text(call: &str, error: &String) -> (text: String)
    ensures
        text@ == failure(call@, error@),
{
    let mut text = call.to_owned();
    text.append(" failed, error: ");
    text.append(error.as_str());
    text
}

/// Writes what is said when `call` failed with `error` on the connection from `peer`.
fn peer_failure_text(call: &str, peer: &PeerAddress, error: &String) -> (text: String)
    ensures
        text@ == peer_failure(call@, *peer, error@),
{
    let mut text = call.to_owned();
    text.append(" failed on addr (");
    text.append(peer.text.as_str());
    text.append("), error: ");
    text.append(error.as_str());
    text
}

/// Nothing where a line was logged or a file opened, else a line on the failure.
fn failure_output(call: &str, result: Result<(), String>) -> (output: Output)
    ensures
        output@ == print_failure(call@, result),
{
    match result {
        Ok(_) => Output::Nothing,
        Err(e) => Output::Print(failure_text(call, &e)),
    }
}

/// Writes the address to listen on.
fn listen_text(port: u16) -> (text: String)
    ensures
        text@ == listen_address(port as nat),
{
    let mut text = "0.0.0.0:".to_owned();
    text.append(decimal_text(port as u64).as_str());
    text
}

/// Writes the line that is logged when the service listens.
fn ready_text(port: u16) -> (text: String)
    ensures
        text@ == ready_line(port as nat),
{
    let mut text = "Ready. Listening on port ".to_owned();
    text.append(decimal_text(port as u64).as_str());
    text.append(" for connection requests...");
    text
}

/// What the check of the bans `bans` makes of an accepted connection.
pub open spec fn judged(bans: Seq<BannedAddress>, result: Result<PeerAddress, String>) -> Acceptance {
    match result {
        Err(e) => Acceptance::Failed(e),
        Ok(peer) => if names(bans, peer.ip) {
            Acceptance::Banned(peer)
        } else {
            Acceptance::Admitted(peer)
        },
    }
}

impl<T, U, M> NetService<T, U, M> {
    /// A service that was not started, without users and bans.
    pub fn new(server_config: ServerConfig, params: GlobalParams) -> (service: NetService<T, U, M>)
        ensures
            service.server_config == server_config,
            service.params == params,
            service.connected_users@ == Seq::<UserInfo<T, U, M>>::empty(),
            service.banned_addrs@ == Seq::<BannedAddress>::empty(),
            !service.is_running,
            service.phase == ServicePhase::Idle,
    {
        NetService {
            server_config,
            params,
            connected_users: Vec::new(),
            banned_addrs: Vec::new(),
            is_running: false,
            phase: ServicePhase::Idle,
        }
    }

    /// Starts the service, unless it was started before.
    pub fn start(&mut self) -> (step: ServiceStep)
        ensures
            old(self).is_running ==> *final(self) == *old(self) && step.output@
                == OutputView::Print("\nAlready running..."@) && step.next@
                == ServiceActionView::Finish,
            !old(self).is_running ==> *final(self) == (NetService {
                is_running: true,
                phase: ServicePhase::OpeningLog,
                ..*old(self)
            }) && step.output@ == OutputView::Nothing && step.next@ == ServiceActionView::OpenLog(
                old(self).server_config.log_file_path@,
            ),
    {
        if self.is_running {
            return ServiceStep {
                output: Output::Print("\nAlready running...".to_owned()),
                next: ServiceAction::Finish,
            };
        }
        self.is_running = true;
        self.phase = ServicePhase::OpeningLog;
        ServiceStep {
            output: Output::Nothing,
            next: ServiceAction::OpenLog(self.server_config.log_file_path.clone()),
        }
    }

    /// Judges an accepted connection by the bans that are in force, each at its moment in
    /// `times`; the bans that are over are dropped.
    pub fn accepted_at(
        &mut self,
        result: Result<PeerAddress, String>,
        times: &Vec<Timestamp>,
    ) -> (acceptance: Acceptance)
        requires
            result is Ok ==> times@.len() == old(self).banned_addrs@.len(),
        ensures
            *final(self) == (NetService {
                banned_addrs: final(self).banned_addrs,
                ..*old(self)
            }),
            final(self).banned_addrs@ == if result is Ok {
                bans_in_force(
                    old(self).banned_addrs@,
                    times@,
                    old(self).params.password_retry_delay_sec as int,
                )
            } else {
                old(self).banned_addrs@
            },
            acceptance == judged(final(self).banned_addrs@, result),
    {
        match result {
            Err(e) => Acceptance::Failed(e),
            Ok(peer) => {
                keep_banned_at(
                    &mut self.banned_addrs,
                    times,
                    self.params.password_retry_delay_sec,
                );
                if is_banned(&self.banned_addrs, &peer.ip) {
                    Acceptance::Banned(peer)
                } else {
                    Acceptance::Admitted(peer)
                }
            },
        }
    }

    /// Judges an accepted connection by the bans that are in force now; the clock is read
    /// for each ban, and the bans that are over are dropped.
    pub fn accepted(&mut self, result: Result<PeerAddress, String>) -> (acceptance: Acceptance)
        ensures
            *final(self) == (NetService {
                banned_addrs: final(self).banned_addrs,
                ..*old(self)
            }),
            result is Err ==> final(self).banned_addrs@ == old(self).banned_addrs@,
            result is Ok ==> exists|times: Seq<Timestamp>|
                readings(times, old(self).banned_addrs@.len()) && final(self).banned_addrs@
                    == #[trigger] bans_in_force(
                    old(self).banned_addrs@,
                    times,
                    old(self).params.password_retry_delay_sec as int,
                ),
            acceptance == judged(final(self).banned_addrs@, result),
    {
        let times = match &result {
            Ok(_) => read_clock(self.banned_addrs.len()),
            Err(_) => Vec::new(),
        };
        self.accepted_at(result, &times)
    }

    /// Goes to `phase` and asks for `next`, after some output.
    fn go(&mut self, phase: ServicePhase, output: Output, next: ServiceAction) -> (step: ServiceStep)
        ensures
            *final(self) == (NetService { phase, ..*old(self) }),
            step.output == output,
            step.next == next,
    {
        self.phase = phase;
        ServiceStep { output, next }
    }

    /// Waits for the next connection, after some output.
    fn accept(&mut self, output: Output) -> (step: ServiceStep)
        ensures
            *final(self) == (NetService { phase: ServicePhase::Accepting, ..*old(self) }),
            step.output == output,
            step.next == ServiceAction::Accept,
    {
        self.go(ServicePhase::Accepting, output, ServiceAction::Accept)
    }

    /// Takes note of an outcome and says what to do next.
    pub fn advance(&mut self, event: ServiceEvent) -> (step: ServiceStep)
        ensures
            ({
                let to = service_move(
                    old(self).phase,
                    old(self).server_config.server_port as nat,
                    event,
                );
                &&& *final(self) == (NetService { phase: to.phase, ..*old(self) })
                &&& step.output@ == to.output
                &&& step.next@ == to.next
            }),
    {
        let port = self.server_config.server_port;
        let mut phase = ServicePhase::Stopped;
        core::mem::swap(&mut phase, &mut self.phase);
        match (phase, event) {
            (ServicePhase::OpeningLog, ServiceEvent::LogOpened(result)) => self.go(
                ServicePhase::LoggingStart,
                failure_output("ServerLogger::open()", result),
                ServiceAction::Log("Starting...".to_owned()),
            ),
            (ServicePhase::LoggingStart, ServiceEvent::Logged(result)) => self.go(
                ServicePhase::Binding,
                failure_output("ServerLogger", result),
                ServiceAction::Bind(listen_text(port)),
            ),
            (ServicePhase::Binding, ServiceEvent::Bound(result)) => match result {
                Ok(_) => self.go(
                    ServicePhase::LoggingReady,
                    Output::Nothing,
                    ServiceAction::Log(ready_text(port)),
                ),
                Err(e) => self.go(
                    ServicePhase::Stopped,
                    Output::Report(failure_text("listener_socket.accept()", &e)),
                    ServiceAction::Finish,
                ),
            },
            (ServicePhase::LoggingReady, ServiceEvent::Logged(result)) => match result {
                Ok(_) => self.accept(Output::Nothing),
                Err(e) => self.accept(
                    Output::Report(failure_text("ServerLogger.println_and_log()", &e)),
                ),
            },
            (ServicePhase::Accepting, ServiceEvent::Accepted(acceptance)) => match acceptance {
                Acceptance::Failed(e) => self.accept(
                    Output::Report(failure_text("listener_socket.accept()", &e)),
                ),
                Acceptance::Banned(_) => self.accept(Output::Nothing),
                Acceptance::Admitted(peer) => self.go(
                    ServicePhase::SettingNoDelay(peer),
                    Output::Nothing,
                    ServiceAction::SetNoDelay,
                ),
            },
            (ServicePhase::SettingNoDelay(peer), ServiceEvent::NoDelaySet(result)) => match result {
                Ok(_) => self.go(
                    ServicePhase::SettingNonBlocking(peer),
                    Output::Nothing,
                    ServiceAction::SetNonBlocking,
                ),
                Err(e) => self.accept(
                    Output::Report(peer_failure_text("socket.set_nodelay()", &peer, &e)),
                ),
            },
            (
                ServicePhase::SettingNonBlocking(peer),
                ServiceEvent::NonBlockingSet(result),
            ) => match result {
                Ok(_) => self.go(
                    ServicePhase::Serving,
                    Output::Nothing,
                    ServiceAction::Serve(peer),
                ),
                Err(e) => self.accept(
                    Output::Report(peer_failure_text("socket.set_nonblocking()", &peer, &e)),
                ),
            },
            (ServicePhase::Serving, ServiceEvent::Served) => self.accept(Output::Nothing),
            (phase, _) => self.go(phase, Output::Nothing, ServiceAction::Ignore),
        }
    }

    /// A session for a connection that is to be served.
    pub fn new_session(
        &self,
        peer: PeerAddress,
        tcp_socket: T,
        tcp_io_mutex: M,
        tcp_service: UserTcpService,
    ) -> (session: UserSession<T, U, M>)
        ensures
            just_connected(
                session.user_info,
                peer,
                tcp_socket,
                tcp_io_mutex,
                self.params.default_room_name@,
            ),
            in_calendar(session.user_info.last_text_message_sent@),
            in_calendar(session.user_info.last_time_entered_room@),
            session.tcp_service == tcp_service,
            session.idle_ms == self.params.interval_tcp_idle_ms,
            session.udp_port == self.params.server_default_port,
            session.phase == SessionPhase::Securing,
            session.is_error,
            session.out_str@ == Seq::<char>::empty(),
    {
        let user_info = UserInfo::new(
            peer,
            tcp_socket,
            tcp_io_mutex,
            self.params.default_room_name.as_str(),
        );
        UserSession::new(
            user_info,
            tcp_service,
            self.params.interval_tcp_idle_ms,
            self.params.server_default_port,
        )
    }
}

/// Whether `phase` waits for `event`.
pub open spec fn service_awaits(phase: ServicePhase, event: ServiceEvent) -> bool {
    match phase {
        ServicePhase::OpeningLog => event is LogOpened,
        ServicePhase::LoggingStart => event is Logged,
        ServicePhase::Binding => event is Bound,
        ServicePhase::LoggingReady => event is Logged,
        ServicePhase::Accepting => event is Accepted,
        ServicePhase::SettingNoDelay(_) => event is NoDelaySet,
        ServicePhase::SettingNonBlocking(_) => event is NonBlockingSet,
        ServicePhase::Serving => event is Served,
        ServicePhase::Idle | ServicePhase::Stopped => false,
    }
}

/// An event that is not waited for changes nothing, prints nothing and asks for nothing;
/// one that is waited for is not ignored.
pub proof fn law_service_ignores_what_it_does_not_await(
    phase: ServicePhase,
    port: nat,
    event: ServiceEvent,
)
    ensures
        service_awaits(phase, event) <==> service_move(phase, port, event).next
            != ServiceActionView::Ignore,
        !service_awaits(phase, event) ==> service_move(phase, port, event).phase == phase
            && service_move(phase, port, event).output == OutputView::Nothing,
{
}

/// Whether the service listens.
pub open spec fn listening(phase: ServicePhase) -> bool {
    match phase {
        ServicePhase::LoggingReady | ServicePhase::Accepting | ServicePhase::SettingNoDelay(_)
        | ServicePhase::SettingNonBlocking(_) | ServicePhase::Serving => true,
        _ => false,
    }
}

/// What fails while the log is opened or written is printed and changes nothing else.
pub proof fn law_log_failures_are_only_printed(
    phase: ServicePhase,
    port: nat,
    error: String,
)
    ensures
        ({
            let well = service_move(phase, port, ServiceEvent::LogOpened(Ok(())));
            let ill = service_move(phase, port, ServiceEvent::LogOpened(Err(error)));
            well.phase == ill.phase && well.next == ill.next
        }),
        ({
            let well = service_move(phase, port, ServiceEvent::Logged(Ok(())));
            let ill = service_move(phase, port, ServiceEvent::Logged(Err(error)));
            well.phase == ill.phase && well.next == ill.next
        }),
{
}

/// The phase after a sequence of events.
pub open spec fn service_run(phase: ServicePhase, port: nat, events: Seq<ServiceEvent>) -> ServicePhase
    decreases events.len(),
{
    if events.len() == 0 {
        phase
    } else {
        service_move(
            service_run(phase, port, events.drop_last()),
            port,
            events.last(),
        ).phase
    }
}

/// A service that listens goes on listening, whatever happens.
pub proof fn law_listening_does_not_end(phase: ServicePhase, port: nat, events: Seq<ServiceEvent>)
    requires
        listening(phase),
    ensures
        listening(service_run(phase, port, events)),
        forall|event: ServiceEvent|
            (#[trigger] service_move(service_run(phase, port, events), port, event)).next
                != ServiceActionView::Finish,
    decreases events.len(),
{
    if events.len() > 0 {
        law_listening_does_not_end(phase, port, events.drop_last());
    }
}

/// A service that was started asks for connections after four outcomes, whatever became
/// of the log, if and only if it could be bound.
pub proof fn law_started_service_accepts(
    port: nat,
    opened: Result<(), String>,
    started: Result<(), String>,
    bound: Result<(), String>,
    ready: Result<(), String>,
)
    ensures
        ({
            let end = service_run(
                ServicePhase::OpeningLog,
                port,
                seq![
                    ServiceEvent::LogOpened(opened),
                    ServiceEvent::Logged(started),
                    ServiceEvent::Bound(bound),
                    ServiceEvent::Logged(ready),
                ],
            );
            &&& bound is Ok ==> end == ServicePhase::Accepting
            &&& bound is Err ==> end == ServicePhase::Stopped
        }),
{
    let e1 = seq![ServiceEvent::LogOpened(opened)];
    let e2 = e1.push(ServiceEvent::Logged(started));
    let e3 = e2.push(ServiceEvent::Bound(bound));
    let e4 = e3.push(ServiceEvent::Logged(ready));
    assert(e4 =~= seq![
        ServiceEvent::LogOpened(opened),
        ServiceEvent::Logged(started),
        ServiceEvent::Bound(bound),
        ServiceEvent::Logged(ready),
    ]);
    assert(e1.drop_last() =~= Seq::<ServiceEvent>::empty());
    assert(e2.drop_last() =~= e1);
    assert(e3.drop_last() =~= e2);
    assert(e4.drop_last() =~= e3);
    assert(service_run(ServicePhase::OpeningLog, port, e1.drop_last())
        == ServicePhase::OpeningLog);
    assert(service_run(ServicePhase::OpeningLog, port, e1) == ServicePhase::LoggingStart);
    assert(service_run(ServicePhase::OpeningLog, port, e2) == ServicePhase::Binding);
    assert(service_run(ServicePhase::OpeningLog, port, e3) == if bound is Ok {
        ServicePhase::LoggingReady
    } else {
        ServicePhase::Stopped
    });
}

/// The peer whose connection is being prepared.
pub open spec fn prepared_peer(phase: ServicePhase) -> Option<PeerAddress> {
    match phase {
        ServicePhase::SettingNoDelay(peer) | ServicePhase::SettingNonBlocking(peer) => Some(peer),
        _ => None,
    }
}

/// Whether event `j` admitted `peer`.
pub open spec fn admitted_at(
    phase: ServicePhase,
    port: nat,
    events: Seq<ServiceEvent>,
    peer: PeerAddress,
    j: int,
) -> bool {
    &&& 0 <= j < events.len()
    &&& events[j] == ServiceEvent::Accepted(Acceptance::Admitted(peer))
    &&& service_run(phase, port, events.take(j)) == ServicePhase::Accepting
}

/// Whether `event` tells that the first option of a socket was set.
pub open spec fn sets_no_delay(event: ServiceEvent) -> bool {
    event matches ServiceEvent::NoDelaySet(Ok(_))
}

/// Whether event `j` admitted `peer` and from then on, up to event `k`, the first option
/// of its socket was being set.
pub open spec fn sets_no_delay_between(
    phase: ServicePhase,
    port: nat,
    events: Seq<ServiceEvent>,
    peer: PeerAddress,
    j: int,
    k: int,
) -> bool {
    &&& j < k
    &&& admitted_at(phase, port, events, peer, j)
    &&& forall|m: int|
        j < m <= k ==> #[trigger] service_run(phase, port, events.take(m))
            == ServicePhase::SettingNoDelay(peer)
}

/// Whether event `k` told that the first option of the socket of `peer` was set, and from
/// then on the second was being set.
pub open spec fn sets_non_blocking_since(
    phase: ServicePhase,
    port: nat,
    events: Seq<ServiceEvent>,
    peer: PeerAddress,
    k: int,
) -> bool {
    &&& 0 <= k < events.len()
    &&& sets_no_delay(events[k])
    &&& service_run(phase, port, events.take(k)) == ServicePhase::SettingNoDelay(peer)
    &&& forall|m: int|
        k < m <= events.len() ==> #[trigger] service_run(phase, port, events.take(m))
            == ServicePhase::SettingNonBlocking(peer)
}

/// A peer the first option of whose socket is being set was admitted, and nothing else was
/// done since.
proof fn lemma_peer_was_admitted(
    phase: ServicePhase,
    port: nat,
    events: Seq<ServiceEvent>,
    peer: PeerAddress,
)
    requires
        prepared_peer(phase) is None,
        service_run(phase, port, events) == ServicePhase::SettingNoDelay(peer),
    ensures
        exists|j: int|
            sets_no_delay_between(phase, port, events, peer, j, events.len() as int),
    decreases events.len(),
{
    let before = events.drop_last();
    let last = events.len() - 1;
    assert(events.take(last) =~= before);
    assert(events.take(last + 1) =~= events);
    if service_run(phase, port, before) == ServicePhase::SettingNoDelay(peer) {
        lemma_peer_was_admitted(phase, port, before, peer);
        let j = choose|j: int| sets_no_delay_between(phase, port, before, peer, j, last);
        assert(before.take(j) =~= events.take(j));
        assert forall|m: int| j < m <= last + 1 implies #[trigger] service_run(
            phase,
            port,
            events.take(m),
        ) == ServicePhase::SettingNoDelay(peer) by {
            if m <= last {
                assert(before.take(m) =~= events.take(m));
            }
        }
        assert(sets_no_delay_between(phase, port, events, peer, j, last + 1));
    } else {
        assert(admitted_at(phase, port, events, peer, last));
        assert(sets_no_delay_between(phase, port, events, peer, last, last + 1));
    }
}

/// Before the second option of a socket is set, the first was, and nothing else was done
/// since.
proof fn lemma_no_delay_was_set(
    phase: ServicePhase,
    port: nat,
    events: Seq<ServiceEvent>,
    peer: PeerAddress,
)
    requires
        prepared_peer(phase) is None,
        service_run(phase, port, events) == ServicePhase::SettingNonBlocking(peer),
    ensures
        exists|k: int| sets_non_blocking_since(phase, port, events, peer, k),
    decreases events.len(),
{
    let before = events.drop_last();
    let last = events.len() - 1;
    assert(events.take(last) =~= before);
    assert(events.take(last + 1) =~= events);
    if service_run(phase, port, before) == ServicePhase::SettingNonBlocking(peer) {
        lemma_no_delay_was_set(phase, port, before, peer);
        let k = choose|k: int| sets_non_blocking_since(phase, port, before, peer, k);
        assert(before.take(k) =~= events.take(k));
        assert forall|m: int| k < m <= last + 1 implies #[trigger] service_run(
            phase,
            port,
            events.take(m),
        ) == ServicePhase::SettingNonBlocking(peer) by {
            if m <= last {
                assert(before.take(m) =~= events.take(m));
            }
        }
        assert(sets_non_blocking_since(phase, port, events, peer, k));
    } else {
        assert(sets_non_blocking_since(phase, port, events, peer, last));
    }
}

/// Only a peer that was admitted is served, and only once both options of its socket
/// were set, one after the other and with nothing else done between.
pub proof fn law_served_peer_was_admitted(
    phase: ServicePhase,
    port: nat,
    events: Seq<ServiceEvent>,
    event: ServiceEvent,
    peer: PeerAddress,
)
    requires
        prepared_peer(phase) is None,
        service_move(service_run(phase, port, events), port, event).next
            == ServiceActionView::Serve(peer),
    ensures
        event matches ServiceEvent::NonBlockingSet(Ok(_)),
        exists|j: int, k: int|
            #[trigger] sets_no_delay_between(phase, port, events, peer, j, k)
                && sets_non_blocking_since(phase, port, events, peer, k),
{
    lemma_no_delay_was_set(phase, port, events, peer);
    let k = choose|k: int| sets_non_blocking_since(phase, port, events, peer, k);
    let start = events.take(k);
    lemma_peer_was_admitted(phase, port, start, peer);
    let j = choose|j: int| sets_no_delay_between(phase, port, start, peer, j, k);
    assert(start.take(j) =~= events.take(j));
    assert forall|m: int| j < m <= k implies #[trigger] service_run(phase, port, events.take(m))
        == ServicePhase::SettingNoDelay(peer) by {
        assert(start.take(m) =~= events.take(m));
    }
    assert(sets_no_delay_between(phase, port, events, peer, j, k));
}

/// A connection is admitted if and only if no ban of its address is in force.
pub proof fn law_admitted_iff_no_ban_in_force(
    bans: Seq<BannedAddress>,
    times: Seq<Timestamp>,
    delay_sec: int,
    peer: PeerAddress,
)
    requires
        times.len() == bans.len(),
    ensures
        judged(bans_in_force(bans, times, delay_sec), Ok(peer)) == Acceptance::Admitted(peer)
            <==> forall|i: int|
            0 <= i < bans.len() && #[trigger] bans[i].addr == peer.ip ==> !in_force(
                bans[i],
                times[i]@,
                delay_sec,
            ),
{
    law_named_iff_in_force(bans, times, delay_sec, peer.ip);
}

} // verus!
