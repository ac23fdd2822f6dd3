//! Waiting for a freshly spawned `llama-server` to come up: first its port
//! must accept connections, then `/health` must answer with a success
//! status, all before a deadline.
//!
//! The wait alternates outside work (reading the clock, connecting,
//! sleeping, HTTP requests) with decisions; `ServerWait::advance` makes the
//! decisions and names the next piece of work.
use vstd::prelude::*;
use vstd::string::*;
use crate::inference::{health_url, health_url_spec, socket_address, socket_address_spec};
use crate::text::{decimal, push_decimal};

verus! {

/// How long a connection attempt may take, in milliseconds.
pub const CONNECT_TIMEOUT_MILLIS: u64 = 200;

/// The pause between connection attempts, in milliseconds.
pub const CONNECT_RETRY_MILLIS: u64 = 300;

/// The pause between health requests, in milliseconds.
pub const HEALTH_RETRY_MILLIS: u64 = 500;

/// The timeout of the HTTP client that asks for `/health`, in seconds.
pub const HTTP_TIMEOUT_SECS: u64 = 2;

/// Where a wait stands.
#[derive(Debug, Clone, Copy, PartialEq, Eq, Structural)]
pub enum WaitPhase {
    /// The clock must be read; `polling` once the port has accepted a
    /// connection and the HTTP client is built.
    AwaitingClock { polling: bool },
    /// A connection attempt is under way.
    AwaitingConnect,
    /// The HTTP client is being built.
    AwaitingClient,
    /// A health request is under way.
    AwaitingHealth,
    /// The wait is over.
    Done,
}

/// A wait for the server on `port`, with a deadline `timeout_secs` after it
/// began.
#[derive(Debug)]
pub struct ServerWait {
    pub port: u16,
    pub timeout_secs: u64,
    pub phase: WaitPhase,
}

/// The outcome of the piece of outside work that a wait asked for.
#[derive(Debug)]
pub enum WaitEvent {
    /// Whether the deadline has passed.
    Clock { deadline_passed: bool },
    /// Whether the connection attempt succeeded.
    Connected(bool),
    /// Whether the HTTP client was built, or why not.
    ClientBuilt(Result<(), String>),
    /// The status code of the health response, or `None` where the request
    /// failed.
    HealthStatus(Option<u16>),
}

/// An event with its texts as character sequences.
pub enum WaitEventView {
    Clock { deadline_passed: bool },
    Connected(bool),
    ClientBuilt(Result<(), Seq<char>>),
    HealthStatus(Option<u16>),
}

impl View for WaitEvent {
    type V = WaitEventView;

    open spec fn view(&self) -> WaitEventView {
        match self {
            WaitEvent::Clock { deadline_passed } => WaitEventView::Clock {
                deadline_passed: *deadline_passed,
            },
            WaitEvent::Connected(b) => WaitEventView::Connected(*b),
            WaitEvent::ClientBuilt(r) => WaitEventView::ClientBuilt(
                match r {
                    Ok(_) => Ok(()),
                    Err(e) => Err(e@),
                },
            ),
            WaitEvent::HealthStatus(s) => WaitEventView::HealthStatus(*s),
        }
    }
}

/// The next piece of outside work of a wait, or its result.
#[derive(Debug)]
pub enum WaitAction {
    /// Read the clock; report `Clock`.
    CheckClock,
    /// Try to connect to `address` within `timeout_millis`; report `Connected`.
    Connect { address: String, timeout_millis: u64 },
    /// Sleep, then read the clock; report `Clock`.
    Sleep { millis: u64 },
    /// Build an HTTP client with a timeout of `timeout_secs`; report `ClientBuilt`.
    BuildClient { timeout_secs: u64 },
    /// Send a GET request to `url`; report `HealthStatus`.
    RequestHealth { url: String },
    /// The wait is over: the server answers, or why it does not.
    Finish(Result<(), String>),
}

/// An action with its texts as character sequences.
pub enum WaitActionView {
    CheckClock,
    Connect { address: Seq<char>, timeout_millis: u64 },
    Sleep { millis: u64 },
    BuildClient { timeout_secs: u64 },
    RequestHealth { url: Seq<char> },
    Finish(Result<(), Seq<char>>),
}

impl View for WaitAction {
    type V = WaitActionView;

    open spec fn view(&self) -> WaitActionView {
        match self {
            WaitAction::CheckClock => WaitActionView::CheckClock,
            WaitAction::Connect { address, timeout_millis } => WaitActionView::Connect {
                address: address@,
                timeout_millis: *timeout_millis,
            },
            WaitAction::Sleep { millis } => WaitActionView::Sleep { millis: *millis },
            WaitAction::BuildClient { timeout_secs } => WaitActionView::BuildClient {
                timeout_secs: *timeout_secs,
            },
            WaitAction::RequestHealth { url } => WaitActionView::RequestHealth { url: url@ },
            WaitAction::Finish(r) => WaitActionView::Finish(
                match r {
                    Ok(_) => Ok(()),
                    Err(e) => Err(e@),
                },
            ),
        }
    }
}

/// A success status: 200 to 299, as `StatusCode::is_success` has it.
pub open spec fn is_success_status(code: u16) -> bool {
    200 <= code <= 299
}

/// Whether a status code is a success status.
pub fn is_success(code: u16) -> (r: bool)
    ensures
        r == is_success_status(code),
{
    200 <= code && code <= 299
}

/// The error when the port never accepted a connection:
/// `llama-server startade inte inom <secs>s`.
pub open spec fn startup_timeout_message(timeout_secs: u64) -> Seq<char> {
    "llama-server startade inte inom "@ + decimal(timeout_secs as nat) + "s"@
}

/// The error when `/health` never answered with a success status.
pub open spec fn health_timeout_message() -> Seq<char> {
    "llama-server /health svarade inte i tid"@
}

/// The error when the HTTP client could not be built.
pub open spec fn client_error_message(detail: Seq<char>) -> Seq<char> {
    "HTTP client fel: "@ + detail
}

/// Whether a phase waits for this kind of event.
pub open spec fn wait_accepts(phase: WaitPhase, event: WaitEventView) -> bool {
    match (phase, event) {
        (WaitPhase::AwaitingClock { .. }, WaitEventView::Clock { .. }) => true,
        (WaitPhase::AwaitingConnect, WaitEventView::Connected(_)) => true,
        (WaitPhase::AwaitingClient, WaitEventView::ClientBuilt(_)) => true,
        (WaitPhase::AwaitingHealth, WaitEventView::HealthStatus(_)) => true,
        _ => false,
    }
}

/// The phase after an event, and the action it calls for.
pub open spec fn wait_step(port: u16, timeout_secs: u64, phase: WaitPhase, event: WaitEventView) -> (
    WaitPhase,
    WaitActionView,
) {
    match (phase, event) {
        (WaitPhase::AwaitingClock { polling }, WaitEventView::Clock { deadline_passed }) => {
            if deadline_passed {
                (
                    WaitPhase::Done,
                    WaitActionView::Finish(
                        Err(
                            if polling {
                                health_timeout_message()
                            } else {
                                startup_timeout_message(timeout_secs)
                            },
                        ),
                    ),
                )
            } else if polling {
                (WaitPhase::AwaitingHealth, WaitActionView::RequestHealth { url: health_url_spec(port) })
            } else {
                (
                    WaitPhase::AwaitingConnect,
                    WaitActionView::Connect {
                        address: socket_address_spec(port),
                        timeout_millis: CONNECT_TIMEOUT_MILLIS,
                    },
                )
            }
        },
        (WaitPhase::AwaitingConnect, WaitEventView::Connected(ok)) => if ok {
            (WaitPhase::AwaitingClient, WaitActionView::BuildClient { timeout_secs: HTTP_TIMEOUT_SECS })
        } else {
            (
                WaitPhase::AwaitingClock { polling: false },
                WaitActionView::Sleep { millis: CONNECT_RETRY_MILLIS },
            )
        },
        (WaitPhase::AwaitingClient, WaitEventView::ClientBuilt(r)) => match r {
            Ok(_) => (WaitPhase::AwaitingClock { polling: true }, WaitActionView::CheckClock),
            Err(detail) => (WaitPhase::Done, WaitActionView::Finish(Err(client_error_message(detail)))),
        },
        (WaitPhase::AwaitingHealth, WaitEventView::HealthStatus(status)) => match status {
            Some(code) if is_success_status(code) => (WaitPhase::Done, WaitActionView::Finish(Ok(()))),
            _ => (
                WaitPhase::AwaitingClock { polling: true },
                WaitActionView::Sleep { millis: HEALTH_RETRY_MILLIS },
            ),
        },
        _ => (phase, WaitActionView::CheckClock),
    }
}

impl ServerWait {
    /// A wait for the server on `port` that gives up `timeout_secs` after
    /// it began. Its first piece of work is to read the clock.
    pub fn new(port: u16, timeout_secs: u64) -> (r: Self)
        ensures
            r.port == port,
            r.timeout_secs == timeout_secs,
            r.phase == (WaitPhase::AwaitingClock { polling: false }),
    {
        ServerWait { port, timeout_secs, phase: WaitPhase::AwaitingClock { polling: false } }
    }

    /// Whether the wait waits for this kind of event.
    pub fn accepts(&self, event: &WaitEvent) -> (r: bool)
        ensures
            r == wait_accepts(self.phase, event@),
    {
        match (self.phase, event) {
            (WaitPhase::AwaitingClock { .. }, WaitEvent::Clock { .. }) => true,
            (WaitPhase::AwaitingConnect, WaitEvent::Connected(_)) => true,
            (WaitPhase::AwaitingClient, WaitEvent::ClientBuilt(_)) => true,
            (WaitPhase::AwaitingHealth, WaitEvent::HealthStatus(_)) => true,
            _ => false,
        }
    }

    /// Takes the outcome of the last piece of work and returns the next one,
    /// or the result of the wait.
    pub fn advance(&mut self, event: WaitEvent) -> (a: WaitAction)
        requires
            wait_accepts(old(self).phase, event@),
        ensures
            final(self).port == old(self).port,
            final(self).timeout_secs == old(self).timeout_secs,
            (final(self).phase, a@) == wait_step(
                old(self).port,
                old(self).timeout_secs,
                old(self).phase,
                event@,
            ),
    {
        match (self.phase, event) {
            (WaitPhase::AwaitingClock { polling }, WaitEvent::Clock { deadline_passed }) => {
                if deadline_passed {
                    self.phase = WaitPhase::Done;
                    if polling {
                        WaitAction::Finish(Err("llama-server /health svarade inte i tid".to_owned()))
                    } else {
                        let mut m = "llama-server startade inte inom ".to_owned();
                        push_decimal(&mut m, self.timeout_secs);
                        m.append("s");
                        WaitAction::Finish(Err(m))
                    }
                } else if polling {
                    self.phase = WaitPhase::AwaitingHealth;
                    WaitAction::RequestHealth { url: health_url(self.port) }
                } else {
                    self.phase = WaitPhase::AwaitingConnect;
                    WaitAction::Connect {
                        address: socket_address(self.port),
                        timeout_millis: CONNECT_TIMEOUT_MILLIS,
                    }
                }
            },
            (WaitPhase::AwaitingConnect, WaitEvent::Connected(ok)) => {
                if ok {
                    self.phase = WaitPhase::AwaitingClient;
                    WaitAction::BuildClient { timeout_secs: HTTP_TIMEOUT_SECS }
                } else {
                    self.phase = WaitPhase::AwaitingClock { polling: false };
                    WaitAction::Sleep { millis: CONNECT_RETRY_MILLIS }
                }
            },
            (WaitPhase::AwaitingClient, WaitEvent::ClientBuilt(r)) => {
                match r {
                    Ok(_) => {
                        self.phase = WaitPhase::AwaitingClock { polling: true };
                        WaitAction::CheckClock
                    },
                    Err(detail) => {
                        self.phase = WaitPhase::Done;
                        let mut m = "HTTP client fel: ".to_owned();
                        m.append(detail.as_str());
                        WaitAction::Finish(Err(m))
                    },
                }
            },
            (WaitPhase::AwaitingHealth, WaitEvent::HealthStatus(status)) => {
                let answered = match status {
                    Some(code) => is_success(code),
                    None => false,
                };
                if answered {
                    self.phase = WaitPhase::Done;
                    WaitAction::Finish(Ok(()))
                } else {
                    self.phase = WaitPhase::AwaitingClock { polling: true };
                    WaitAction::Sleep { millis: HEALTH_RETRY_MILLIS }
                }
            },
            _ => vstd::pervasive::unreached(),
        }
    }
}


/// Whether a phase belongs to the health-polling part of a wait.
pub open spec fn is_polling(phase: WaitPhase) -> bool {
    phase == (WaitPhase::AwaitingClock { polling: true }) || phase == WaitPhase::AwaitingHealth
}

/// A wait reports the server ready only on a health response with a
/// success status.
pub proof fn lemma_ready_only_on_success(
    port: u16,
    timeout_secs: u64,
    phase: WaitPhase,
    event: WaitEventView,
)
    requires
        wait_accepts(phase, event),
        wait_step(port, timeout_secs, phase, event).1 == WaitActionView::Finish(Ok(())),
    ensures
        phase == WaitPhase::AwaitingHealth,
        event matches WaitEventView::HealthStatus(Some(code)) && is_success_status(code),
{
}

/// A wait gives up for lack of time only when the deadline has passed;
/// the only other failure is an HTTP client that could not be built.
pub proof fn lemma_fails_only_past_deadline(
    port: u16,
    timeout_secs: u64,
    phase: WaitPhase,
    event: WaitEventView,
    reason: Seq<char>,
)
    requires
        wait_accepts(phase, event),
        wait_step(port, timeout_secs, phase, event).1 == WaitActionView::Finish(Err(reason)),
    ensures
        event == (WaitEventView::Clock { deadline_passed: true }) || event is ClientBuilt,
{
}

/// Health requests start only after the port accepted a connection and
/// the HTTP client was built; once polling, a wait never goes back to
/// connecting.
pub proof fn lemma_polling_follows_connection(
    port: u16,
    timeout_secs: u64,
    phase: WaitPhase,
    event: WaitEventView,
)
    requires
        wait_accepts(phase, event),
    ensures
        is_polling(wait_step(port, timeout_secs, phase, event).0) && !is_polling(phase) ==> phase
            == WaitPhase::AwaitingClient && event matches WaitEventView::ClientBuilt(Ok(_)),
        wait_step(port, timeout_secs, phase, event).0 == WaitPhase::AwaitingClient ==> phase
            == WaitPhase::AwaitingConnect && event == WaitEventView::Connected(true),
        is_polling(phase) ==> is_polling(wait_step(port, timeout_secs, phase, event).0)
            || wait_step(port, timeout_secs, phase, event).0 == WaitPhase::Done,
{
}

/// A finished wait takes no further events, and a wait is finished exactly
/// when its last action was its result.
pub proof fn lemma_done_is_final(
    port: u16,
    timeout_secs: u64,
    phase: WaitPhase,
    event: WaitEventView,
)
    requires
        wait_accepts(phase, event),
    ensures
        !wait_accepts(WaitPhase::Done, event),
        wait_step(port, timeout_secs, phase, event).0 == WaitPhase::Done <==> wait_step(
            port,
            timeout_secs,
            phase,
            event,
        ).1 is Finish,
{
}


/// Whether `ev` reports the outcome of the work `a` asked for.
pub open spec fn answers_wait(a: WaitActionView, ev: WaitEventView) -> bool {
    match (a, ev) {
        (WaitActionView::CheckClock, WaitEventView::Clock { .. }) => true,
        (WaitActionView::Sleep { .. }, WaitEventView::Clock { .. }) => true,
        (WaitActionView::Connect { .. }, WaitEventView::Connected(_)) => true,
        (WaitActionView::BuildClient { .. }, WaitEventView::ClientBuilt(_)) => true,
        (WaitActionView::RequestHealth { .. }, WaitEventView::HealthStatus(_)) => true,
        _ => false,
    }
}

/// A new wait takes the first reading of the clock, and after each step a
/// wait takes every outcome of the work it asked for: any clock reading,
/// connection result, client result, and any health answer (any status
/// code, or none).
pub proof fn lemma_wait_takes_every_outcome(
    port: u16,
    timeout_secs: u64,
    phase: WaitPhase,
    ev: WaitEventView,
    next: WaitEventView,
)
    ensures
        answers_wait(WaitActionView::CheckClock, next) ==> wait_accepts(
            WaitPhase::AwaitingClock { polling: false },
            next,
        ),
        wait_accepts(phase, ev) && answers_wait(wait_step(port, timeout_secs, phase, ev).1, next)
            ==> wait_accepts(wait_step(port, timeout_secs, phase, ev).0, next),
{
}

/// While a health answer is awaited, every answer is taken: a status from
/// 200 to 299 ends the wait with success; any other status, or a failed
/// request, is followed by a pause of 500 ms and another reading of the
/// clock before the next request.
pub proof fn lemma_health_answers(port: u16, timeout_secs: u64, status: Option<u16>)
    ensures
        wait_accepts(WaitPhase::AwaitingHealth, WaitEventView::HealthStatus(status)),
        match status {
            Some(code) => 200 <= code <= 299,
            None => false,
        } ==> wait_step(port, timeout_secs, WaitPhase::AwaitingHealth, WaitEventView::HealthStatus(status))
            == (WaitPhase::Done, WaitActionView::Finish(Ok(()))),
        !match status {
            Some(code) => 200 <= code <= 299,
            None => false,
        } ==> wait_step(port, timeout_secs, WaitPhase::AwaitingHealth, WaitEventView::HealthStatus(status))
            == (WaitPhase::AwaitingClock { polling: true }, WaitActionView::Sleep { millis: 500 }),
{
}


/// Before the deadline, a wait first tries `127.0.0.1:<port>` with a 200 ms
/// timeout, pausing 300 ms after each refusal; once connected it builds an
/// HTTP client with a 2 s timeout and, after reading the clock, asks
/// `http://127.0.0.1:<port>/health`. Past the deadline it fails, naming the
/// timeout in seconds while still connecting, and the health check while
/// polling; a client that cannot be built fails with its reason.
pub proof fn lemma_wait_details(port: u16, timeout_secs: u64, detail: Seq<char>)
    ensures
        wait_step(
            port,
            timeout_secs,
            WaitPhase::AwaitingClock { polling: false },
            WaitEventView::Clock { deadline_passed: false },
        ) == (WaitPhase::AwaitingConnect, (WaitActionView::Connect {
            address: "127.0.0.1:"@ + decimal(port as nat),
            timeout_millis: 200,
        })),
        wait_step(port, timeout_secs, WaitPhase::AwaitingConnect, WaitEventView::Connected(false))
            == (WaitPhase::AwaitingClock { polling: false }, (WaitActionView::Sleep { millis: 300 })),
        wait_step(port, timeout_secs, WaitPhase::AwaitingConnect, WaitEventView::Connected(true))
            == (WaitPhase::AwaitingClient, (WaitActionView::BuildClient { timeout_secs: 2 })),
        wait_step(
            port,
            timeout_secs,
            WaitPhase::AwaitingClient,
            WaitEventView::ClientBuilt(Ok(())),
        ) == (WaitPhase::AwaitingClock { polling: true }, WaitActionView::CheckClock),
        wait_step(
            port,
            timeout_secs,
            WaitPhase::AwaitingClock { polling: true },
            WaitEventView::Clock { deadline_passed: false },
        ) == (WaitPhase::AwaitingHealth, (WaitActionView::RequestHealth {
            url: "http://127.0.0.1:"@ + decimal(port as nat) + "/health"@,
        })),
        wait_step(
            port,
            timeout_secs,
            WaitPhase::AwaitingClock { polling: false },
            WaitEventView::Clock { deadline_passed: true },
        ) == (WaitPhase::Done, WaitActionView::Finish(
            Err("llama-server startade inte inom "@ + decimal(timeout_secs as nat) + "s"@),
        )),
        wait_step(
            port,
            timeout_secs,
            WaitPhase::AwaitingClock { polling: true },
            WaitEventView::Clock { deadline_passed: true },
        ) == (WaitPhase::Done, WaitActionView::Finish(
            Err("llama-server /health svarade inte i tid"@),
        )),
        wait_step(
            port,
            timeout_secs,
            WaitPhase::AwaitingClient,
            WaitEventView::ClientBuilt(Err(detail)),
        ) == (WaitPhase::Done, WaitActionView::Finish(Err("HTTP client fel: "@ + detail))),
{
}

} // verus!
