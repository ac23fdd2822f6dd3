//! The life cycle of the local `llama-server` process.
//!
//! Starting the server alternates decisions with outside work (probing a
//! port, killing the old process, looking for the binary, finding a free
//! port, spawning, waiting until the server answers). The engine makes the
//! decisions: `start` and `advance` return the next piece of outside work,
//! and the caller reports its outcome back as a `StartEvent`.
use vstd::prelude::*;
use vstd::string::*;
use crate::text::{decimal, push_decimal};

verus! {

/// The loopback address the server listens on.
pub open spec fn host_spec() -> Seq<char> {
    "127.0.0.1"@
}

/// The socket address `127.0.0.1:<port>`.
pub open spec fn socket_address_spec(port: u16) -> Seq<char> {
    "127.0.0.1:"@ + decimal(port as nat)
}

/// The base URL `http://127.0.0.1:<port>` of a server on `port`.
pub open spec fn server_url_spec(port: u16) -> Seq<char> {
    "http://127.0.0.1:"@ + decimal(port as nat)
}

/// The health-check URL `http://127.0.0.1:<port>/health`.
pub open spec fn health_url_spec(port: u16) -> Seq<char> {
    server_url_spec(port) + "/health"@
}

fn text_and_number(prefix: &str, n: u64) -> (r: String)
    ensures
        r@ == prefix@ + decimal(n as nat),
{
    let mut r = prefix.to_owned();
    push_decimal(&mut r, n);
    r
}

fn text_and_text(prefix: &str, detail: &str) -> (r: String)
    ensures
        r@ == prefix@ + detail@,
{
    let mut r = prefix.to_owned();
    r.append(detail);
    r
}

/// The socket address of a server on `port`.
pub fn socket_address(port: u16) -> (r: String)
    ensures
        r@ == socket_address_spec(port),
{
    text_and_number("127.0.0.1:", port as u64)
}

/// The base URL of a server on `port`.
pub fn server_url_for(port: u16) -> (r: String)
    ensures
        r@ == server_url_spec(port),
{
    text_and_number("http://127.0.0.1:", port as u64)
}

/// The health-check URL of a server on `port`.
pub fn health_url(port: u16) -> (r: String)
    ensures
        r@ == health_url_spec(port),
{
    let mut r = server_url_for(port);
    r.append("/health");
    r
}


/// Context size the server is started with.
pub const CONTEXT_SIZE: u64 = 8192;

/// Seconds the server is given to come up.
pub const STARTUP_TIMEOUT_SECS: u64 = 120;

/// The arguments `llama-server` is started with for a model at `path` and
/// a server on `port`.
pub open spec fn launch_args_spec(path: Seq<char>, port: u16) -> Seq<Seq<char>> {
    seq![
        "--model"@,
        path,
        "--port"@,
        decimal(port as nat),
        "--host"@,
        host_spec(),
        "--ctx-size"@,
        decimal(CONTEXT_SIZE as nat),
        "--jinja"@,
    ]
}

/// The views of a vector of texts.
pub open spec fn texts(v: Seq<String>) -> Seq<Seq<char>> {
    v.map_values(|s: String| s@)
}

/// The arguments `llama-server` is started with.
pub fn launch_args(path: &str, port: u16) -> (r: Vec<String>)
    ensures
        texts(r@) == launch_args_spec(path@, port),
{
    let mut port_text = String::new();
    push_decimal(&mut port_text, port as u64);
    let mut size_text = String::new();
    push_decimal(&mut size_text, CONTEXT_SIZE);
    let mut r: Vec<String> = Vec::new();
    r.push("--model".to_owned());
    r.push(path.to_owned());
    r.push("--port".to_owned());
    r.push(port_text);
    r.push("--host".to_owned());
    r.push("127.0.0.1".to_owned());
    r.push("--ctx-size".to_owned());
    r.push(size_text);
    r.push("--jinja".to_owned());
    assert(texts(r@) =~= launch_args_spec(path@, port));
    r
}

/// Where a start of the server stands.
#[derive(Debug)]
pub enum StartStage {
    /// No start is under way.
    Idle,
    /// The server for this model may still run on `port`; is it alive?
    Probing { path: String, port: u16 },
    /// The old server is being stopped.
    Killing { path: String },
    /// Does the server binary exist?
    CheckingBinary { path: String, binary: String },
    /// A free port is being looked for.
    AllocatingPort { path: String, binary: String },
    /// The server is being spawned on `port`.
    Spawning { path: String, port: u16 },
    /// The server runs on `port`; does it answer?
    WaitingReady { path: String, port: u16 },
}

/// A stage with its texts as character sequences.
pub enum StageView {
    Idle,
    Probing { path: Seq<char>, port: u16 },
    Killing { path: Seq<char> },
    CheckingBinary { path: Seq<char>, binary: Seq<char> },
    AllocatingPort { path: Seq<char>, binary: Seq<char> },
    Spawning { path: Seq<char>, port: u16 },
    WaitingReady { path: Seq<char>, port: u16 },
}

impl View for StartStage {
    type V = StageView;

    open spec fn view(&self) -> StageView {
        match self {
            StartStage::Idle => StageView::Idle,
            StartStage::Probing { path, port } => StageView::Probing { path: path@, port: *port },
            StartStage::Killing { path } => StageView::Killing { path: path@ },
            StartStage::CheckingBinary { path, binary } => StageView::CheckingBinary {
                path: path@,
                binary: binary@,
            },
            StartStage::AllocatingPort { path, binary } => StageView::AllocatingPort {
                path: path@,
                binary: binary@,
            },
            StartStage::Spawning { path, port } => StageView::Spawning { path: path@, port: *port },
            StartStage::WaitingReady { path, port } => StageView::WaitingReady {
                path: path@,
                port: *port,
            },
        }
    }
}

/// The outcome of the piece of outside work that a start asked for.
#[derive(Debug)]
pub enum StartEvent {
    /// Whether the server's port accepted a connection.
    AliveChecked(bool),
    /// The old server process, if any, has been killed and reaped.
    ServerKilled,
    /// Whether the server binary exists.
    BinaryChecked(bool),
    /// A free port, or why none was found.
    PortAllocated(Result<u16, String>),
    /// Whether the server process was spawned, or why not.
    Spawned(Result<(), String>),
    /// Whether the server came up, or the reason it did not.
    ServerReady(Result<(), String>),
}

/// An event with its texts as character sequences.
pub enum EventView {
    AliveChecked(bool),
    ServerKilled,
    BinaryChecked(bool),
    PortAllocated(Result<u16, Seq<char>>),
    Spawned(Result<(), Seq<char>>),
    ServerReady(Result<(), Seq<char>>),
}

impl View for StartEvent {
    type V = EventView;

    open spec fn view(&self) -> EventView {
        match self {
            StartEvent::AliveChecked(b) => EventView::AliveChecked(*b),
            StartEvent::ServerKilled => EventView::ServerKilled,
            StartEvent::BinaryChecked(b) => EventView::BinaryChecked(*b),
            StartEvent::PortAllocated(r) => EventView::PortAllocated(
                match r {
                    Ok(p) => Ok(*p),
                    Err(e) => Err(e@),
                },
            ),
            StartEvent::Spawned(r) => EventView::Spawned(
                match r {
                    Ok(_) => Ok(()),
                    Err(e) => Err(e@),
                },
            ),
            StartEvent::ServerReady(r) => EventView::ServerReady(
                match r {
                    Ok(_) => Ok(()),
                    Err(e) => Err(e@),
                },
            ),
        }
    }
}

/// The next piece of outside work of a start, or its result.
#[derive(Debug)]
pub enum StartAction {
    /// Try to connect to `address`; report `AliveChecked`.
    ProbeAlive { address: String },
    /// Kill and reap the server process, if there is one; report `ServerKilled`.
    KillServer,
    /// Look whether the file `binary` exists; report `BinaryChecked`.
    CheckBinary { binary: String },
    /// Find a free port on the loopback interface; report `PortAllocated`.
    AllocatePort,
    /// Spawn `program` with `args`, its output discarded; report `Spawned`.
    Spawn { program: String, args: Vec<String> },
    /// Wait until the server on `port` answers, at most `timeout_secs`
    /// seconds; report `ServerReady`.
    AwaitReady { port: u16, timeout_secs: u64 },
    /// The start is over: the server's port, or why it could not start.
    Finished(Result<u16, String>),
}

/// An action with its texts as character sequences.
pub enum ActionView {
    ProbeAlive { address: Seq<char> },
    KillServer,
    CheckBinary { binary: Seq<char> },
    AllocatePort,
    Spawn { program: Seq<char>, args: Seq<Seq<char>> },
    AwaitReady { port: u16, timeout_secs: u64 },
    Finished(Result<u16, Seq<char>>),
}

impl View for StartAction {
    type V = ActionView;

    open spec fn view(&self) -> ActionView {
        match self {
            StartAction::ProbeAlive { address } => ActionView::ProbeAlive { address: address@ },
            StartAction::KillServer => ActionView::KillServer,
            StartAction::CheckBinary { binary } => ActionView::CheckBinary { binary: binary@ },
            StartAction::AllocatePort => ActionView::AllocatePort,
            StartAction::Spawn { program, args } => ActionView::Spawn {
                program: program@,
                args: texts(args@),
            },
            StartAction::AwaitReady { port, timeout_secs } => ActionView::AwaitReady {
                port: *port,
                timeout_secs: *timeout_secs,
            },
            StartAction::Finished(r) => ActionView::Finished(
                match r {
                    Ok(p) => Ok(*p),
                    Err(e) => Err(e@),
                },
            ),
        }
    }
}

/// The error when no server binary has been set.
pub open spec fn missing_binary_message() -> Seq<char> {
    "llama-server binary saknas"@
}

/// The error when the server binary does not exist.
pub open spec fn binary_not_found_message(binary: Seq<char>) -> Seq<char> {
    "llama-server binary hittades inte: "@ + binary
}

/// The error when no free port was found.
pub open spec fn no_port_message(detail: Seq<char>) -> Seq<char> {
    "Kunde inte hitta ledig port: "@ + detail
}

/// The error when the server could not be spawned.
pub open spec fn spawn_failed_message(detail: Seq<char>) -> Seq<char> {
    "Kunde inte starta llama-server: "@ + detail
}


/// Manages the `llama-server` process: which binary to run, which model it
/// serves and on which port, and how far a start has come.
#[derive(Debug)]
pub struct InferenceEngine {
    server_binary: Option<String>,
    pub port: Option<u16>,
    model_path: Option<String>,
    stage: StartStage,
}

/// The state of an engine with its texts as character sequences.
pub struct EngineView {
    pub server_binary: Option<Seq<char>>,
    pub port: Option<u16>,
    pub model_path: Option<Seq<char>>,
    pub stage: StageView,
}

/// The view of an optional text.
pub open spec fn opt_text(s: Option<String>) -> Option<Seq<char>> {
    match s {
        Some(t) => Some(t@),
        None => None,
    }
}

impl View for InferenceEngine {
    type V = EngineView;

    closed spec fn view(&self) -> EngineView {
        EngineView {
            server_binary: opt_text(self.server_binary),
            port: self.port,
            model_path: opt_text(self.model_path),
            stage: self.stage@,
        }
    }
}

/// The engine after the old server is told to stop on the way to serving
/// `path`: no port, and the kill under way.
pub open spec fn kill_for(e: EngineView, path: Seq<char>) -> (EngineView, ActionView) {
    (EngineView { port: None, stage: StageView::Killing { path }, ..e }, ActionView::KillServer)
}

/// The engine with its start over, and the result of the start.
pub open spec fn finish(e: EngineView, result: Result<u16, Seq<char>>) -> (EngineView, ActionView) {
    (EngineView { stage: StageView::Idle, ..e }, ActionView::Finished(result))
}

/// The first step of starting the server for the model at `path`. A server
/// that already serves this model is reused if it is still alive; otherwise
/// the old server is stopped first.
pub open spec fn start_spec(e: EngineView, path: Seq<char>) -> (EngineView, ActionView) {
    match (e.model_path, e.port) {
        (Some(current), Some(port)) if current == path => (
            EngineView { stage: StageView::Probing { path, port }, ..e },
            ActionView::ProbeAlive { address: socket_address_spec(port) },
        ),
        _ => kill_for(e, path),
    }
}

/// Whether a stage waits for this kind of event.
pub open spec fn accepts(stage: StageView, event: EventView) -> bool {
    match (stage, event) {
        (StageView::Probing { .. }, EventView::AliveChecked(_)) => true,
        (StageView::Killing { .. }, EventView::ServerKilled) => true,
        (StageView::CheckingBinary { .. }, EventView::BinaryChecked(_)) => true,
        (StageView::AllocatingPort { .. }, EventView::PortAllocated(_)) => true,
        (StageView::Spawning { .. }, EventView::Spawned(_)) => true,
        (StageView::WaitingReady { .. }, EventView::ServerReady(_)) => true,
        _ => false,
    }
}

/// The step of a start that follows the outcome `event`.
pub open spec fn advance_spec(e: EngineView, event: EventView) -> (EngineView, ActionView) {
    match (e.stage, event) {
        (StageView::Probing { path, port }, EventView::AliveChecked(alive)) => if alive {
            finish(e, Ok(port))
        } else {
            kill_for(e, path)
        },
        (StageView::Killing { path }, EventView::ServerKilled) => match e.server_binary {
            None => finish(e, Err(missing_binary_message())),
            Some(binary) => (
                EngineView { stage: StageView::CheckingBinary { path, binary }, ..e },
                ActionView::CheckBinary { binary },
            ),
        },
        (StageView::CheckingBinary { path, binary }, EventView::BinaryChecked(exists)) => if exists {
            (
                EngineView { stage: StageView::AllocatingPort { path, binary }, ..e },
                ActionView::AllocatePort,
            )
        } else {
            finish(e, Err(binary_not_found_message(binary)))
        },
        (StageView::AllocatingPort { path, binary }, EventView::PortAllocated(r)) => match r {
            Ok(port) => (
                EngineView { stage: StageView::Spawning { path, port }, ..e },
                ActionView::Spawn { program: binary, args: launch_args_spec(path, port) },
            ),
            Err(detail) => finish(e, Err(no_port_message(detail))),
        },
        (StageView::Spawning { path, port }, EventView::Spawned(r)) => match r {
            Ok(_) => (
                EngineView {
                    port: Some(port),
                    model_path: Some(path),
                    stage: StageView::WaitingReady { path, port },
                    ..e
                },
                ActionView::AwaitReady { port, timeout_secs: STARTUP_TIMEOUT_SECS },
            ),
            Err(detail) => finish(e, Err(spawn_failed_message(detail))),
        },
        (StageView::WaitingReady { port, .. }, EventView::ServerReady(r)) => match r {
            Ok(_) => finish(e, Ok(port)),
            Err(reason) => finish(e, Err(reason)),
        },
        _ => (e, ActionView::KillServer),
    }
}


impl InferenceEngine {
    /// An engine with no binary, no server and no model.
    pub fn new() -> (r: Self)
        ensures
            r@ == (EngineView {
                server_binary: None,
                port: None,
                model_path: None,
                stage: StageView::Idle,
            }),
    {
        InferenceEngine { server_binary: None, port: None, model_path: None, stage: StartStage::Idle }
    }

    /// Sets the path of the `llama-server` binary.
    pub fn set_server_binary(&mut self, path: String)
        ensures
            final(self)@ == (EngineView { server_binary: Some(path@), ..old(self)@ }),
    {
        self.server_binary = Some(path);
    }

    /// Forgets the server's port; the caller kills the process itself.
    fn kill_server(&mut self)
        ensures
            final(self)@ == (EngineView { port: None, ..old(self)@ }),
    {
        self.port = None;
    }

    /// Stops the server and forgets the model; a start under way is
    /// abandoned. The caller kills the process itself.
    pub fn stop(&mut self)
        ensures
            final(self)@ == (EngineView {
                port: None,
                model_path: None,
                stage: StageView::Idle,
                ..old(self)@
            }),
    {
        self.kill_server();
        self.model_path = None;
        self.stage = StartStage::Idle;
    }

    /// The URL the server has while it has a port, whether or not it
    /// answers; `running_server_url` gives it only while the server runs.
    pub fn server_url(&self) -> (r: Option<String>)
        ensures
            match self@.port {
                Some(p) => r matches Some(u) && u@ == server_url_spec(p),
                None => r is None,
            },
    {
        match self.port {
            Some(p) => Some(server_url_for(p)),
            None => None,
        }
    }

    /// The port the server listens on, if there is one.
    pub fn port(&self) -> (r: Option<u16>)
        ensures
            r == self@.port,
    {
        self.port
    }

    /// The URL of the server while it runs: it has a port and that port
    /// accepted a connection (`port_answers`); otherwise none.
    pub fn running_server_url(&self, port_answers: bool) -> (r: Option<String>)
        ensures
            r is Some <==> self.is_running_spec(port_answers),
            match self@.port {
                Some(p) => port_answers ==> (r matches Some(u) && u@ == server_url_spec(p)),
                None => r is None,
            },
    {
        match self.port {
            Some(p) => if port_answers {
                Some(server_url_for(p))
            } else {
                None
            },
            None => None,
        }
    }

    /// Whether the server runs, given whether its port accepted a connection.
    pub open spec fn is_running_spec(&self, port_answers: bool) -> bool {
        self@.port is Some && port_answers
    }

    /// The address to probe to learn whether the server is alive; without a
    /// port there is nothing to probe and the server counts as dead.
    pub fn alive_probe_address(&self) -> (r: Option<String>)
        ensures
            match self@.port {
                Some(p) => r matches Some(a) && a@ == socket_address_spec(p),
                None => r is None,
            },
    {
        match self.port {
            Some(p) => Some(socket_address(p)),
            None => None,
        }
    }

    /// Whether the server runs: it has a port and that port accepted a
    /// connection (`port_answers`).
    pub fn is_running(&self, port_answers: bool) -> (r: bool)
        ensures
            r == self.is_running_spec(port_answers),
    {
        self.port.is_some() && port_answers
    }

    /// Begins starting the server for the model at `path` and returns the
    /// first piece of outside work.
    pub fn start(&mut self, path: &str) -> (a: StartAction)
        ensures
            (final(self)@, a@) == start_spec(old(self)@, path@),
    {
        let reuse = match (&self.model_path, self.port) {
            (Some(current), Some(port)) => {
                if *current == path.to_owned() {
                    Some(port)
                } else {
                    None
                }
            },
            _ => None,
        };
        match reuse {
            Some(port) => {
                self.stage = StartStage::Probing { path: path.to_owned(), port };
                StartAction::ProbeAlive { address: socket_address(port) }
            },
            None => {
                self.kill_server();
                self.stage = StartStage::Killing { path: path.to_owned() };
                StartAction::KillServer
            },
        }
    }

    /// Whether the start under way waits for this kind of event.
    pub fn accepts(&self, event: &StartEvent) -> (r: bool)
        ensures
            r == accepts(self@.stage, event@),
    {
        match (&self.stage, event) {
            (StartStage::Probing { .. }, StartEvent::AliveChecked(_)) => true,
            (StartStage::Killing { .. }, StartEvent::ServerKilled) => true,
            (StartStage::CheckingBinary { .. }, StartEvent::BinaryChecked(_)) => true,
            (StartStage::AllocatingPort { .. }, StartEvent::PortAllocated(_)) => true,
            (StartStage::Spawning { .. }, StartEvent::Spawned(_)) => true,
            (StartStage::WaitingReady { .. }, StartEvent::ServerReady(_)) => true,
            _ => false,
        }
    }

    /// Takes the outcome of the last piece of outside work and returns the
    /// next one, or the result of the start.
    pub fn advance(&mut self, event: StartEvent) -> (a: StartAction)
        requires
            accepts(old(self)@.stage, event@),
        ensures
            (final(self)@, a@) == advance_spec(old(self)@, event@),
    {
        let mut stage = StartStage::Idle;
        std::mem::swap(&mut stage, &mut self.stage);
        match (stage, event) {
            (StartStage::Probing { path, port }, StartEvent::AliveChecked(alive)) => {
                if alive {
                    StartAction::Finished(Ok(port))
                } else {
                    self.kill_server();
                    self.stage = StartStage::Killing { path };
                    StartAction::KillServer
                }
            },
            (StartStage::Killing { path }, StartEvent::ServerKilled) => {
                match &self.server_binary {
                    None => {
                        let m = "llama-server binary saknas".to_owned();
                        StartAction::Finished(Err(m))
                    },
                    Some(binary) => {
                        let binary = binary.clone();
                        self.stage = StartStage::CheckingBinary { path, binary: binary.clone() };
                        StartAction::CheckBinary { binary }
                    },
                }
            },
            (StartStage::CheckingBinary { path, binary }, StartEvent::BinaryChecked(exists)) => {
                if exists {
                    self.stage = StartStage::AllocatingPort { path, binary };
                    StartAction::AllocatePort
                } else {
                    StartAction::Finished(
                        Err(text_and_text("llama-server binary hittades inte: ", binary.as_str())),
                    )
                }
            },
            (StartStage::AllocatingPort { path, binary }, StartEvent::PortAllocated(r)) => {
                match r {
                    Ok(port) => {
                        let args = launch_args(path.as_str(), port);
                        self.stage = StartStage::Spawning { path, port };
                        StartAction::Spawn { program: binary, args }
                    },
                    Err(detail) => StartAction::Finished(
                        Err(text_and_text("Kunde inte hitta ledig port: ", detail.as_str())),
                    ),
                }
            },
            (StartStage::Spawning { path, port }, StartEvent::Spawned(r)) => {
                match r {
                    Ok(_) => {
                        self.port = Some(port);
                        self.model_path = Some(path.clone());
                        self.stage = StartStage::WaitingReady { path, port };
                        StartAction::AwaitReady { port, timeout_secs: STARTUP_TIMEOUT_SECS }
                    },
                    Err(detail) => StartAction::Finished(
                        Err(text_and_text("Kunde inte starta llama-server: ", detail.as_str())),
                    ),
                }
            },
            (StartStage::WaitingReady { port, .. }, StartEvent::ServerReady(r)) => {
                match r {
                    Ok(_) => StartAction::Finished(Ok(port)),
                    Err(reason) => StartAction::Finished(Err(reason)),
                }
            },
            _ => vstd::pervasive::unreached(),
        }
    }
}


/// How far a stage lies along a start; a start only moves forward.
pub open spec fn stage_rank(stage: StageView) -> int {
    match stage {
        StageView::Idle => 0,
        StageView::Probing { .. } => 1,
        StageView::Killing { .. } => 2,
        StageView::CheckingBinary { .. } => 3,
        StageView::AllocatingPort { .. } => 4,
        StageView::Spawning { .. } => 5,
        StageView::WaitingReady { .. } => 6,
    }
}

/// The model path a start under way is for.
pub open spec fn stage_path(stage: StageView) -> Seq<char> {
    match stage {
        StageView::Idle => Seq::empty(),
        StageView::Probing { path, .. } => path,
        StageView::Killing { path } => path,
        StageView::CheckingBinary { path, .. } => path,
        StageView::AllocatingPort { path, .. } => path,
        StageView::Spawning { path, .. } => path,
        StageView::WaitingReady { path, .. } => path,
    }
}

/// What the engine's port and model say while a start is under way: while
/// the old server is checked it still serves the model; from the kill until
/// the spawn there is no port; once spawned, the new server serves it.
pub open spec fn engine_inv(e: EngineView) -> bool {
    match e.stage {
        StageView::Idle => true,
        StageView::Probing { path, port } => e.model_path == Some(path) && e.port == Some(port),
        StageView::Killing { .. } => e.port is None,
        StageView::CheckingBinary { .. } => e.port is None,
        StageView::AllocatingPort { .. } => e.port is None,
        StageView::Spawning { .. } => e.port is None,
        StageView::WaitingReady { path, port } => e.model_path == Some(path) && e.port == Some(
            port,
        ),
    }
}

/// Starting, from any state, begins a start for the given model that
/// satisfies the engine invariant, and leaves the binary as it was.
pub proof fn lemma_start_establishes_invariant(e: EngineView, path: Seq<char>)
    ensures
        engine_inv(start_spec(e, path).0),
        stage_rank(start_spec(e, path).0.stage) >= 1,
        stage_path(start_spec(e, path).0.stage) == path,
        start_spec(e, path).0.server_binary == e.server_binary,
{
}

/// Every step of a start keeps the engine invariant and the binary.
pub proof fn lemma_advance_preserves_invariant(e: EngineView, event: EventView)
    requires
        engine_inv(e),
        accepts(e.stage, event),
    ensures
        engine_inv(advance_spec(e, event).0),
        advance_spec(e, event).0.server_binary == e.server_binary,
{
}

/// A start ends exactly when it returns a result, and until then every step
/// moves it strictly forward, for the same model; so it ends after at most
/// six steps.
pub proof fn lemma_advance_makes_progress(e: EngineView, event: EventView)
    requires
        accepts(e.stage, event),
    ensures
        advance_spec(e, event).1 is Finished <==> advance_spec(e, event).0.stage is Idle,
        !(advance_spec(e, event).1 is Finished) ==> stage_rank(advance_spec(e, event).0.stage)
            > stage_rank(e.stage) && stage_path(advance_spec(e, event).0.stage) == stage_path(
            e.stage,
        ),
{
}

/// A start that succeeds leaves the engine serving the model it was
/// started for, on the port it returns.
pub proof fn lemma_success_serves_model(e: EngineView, event: EventView, port: u16)
    requires
        engine_inv(e),
        accepts(e.stage, event),
        advance_spec(e, event).1 == ActionView::Finished(Ok(port)),
    ensures
        advance_spec(e, event).0.port == Some(port),
        advance_spec(e, event).0.model_path == Some(stage_path(e.stage)),
{
}

/// Starting the model that the server already serves, while that server is
/// alive, returns its port and changes nothing: no kill, no new process.
pub proof fn lemma_start_reuses_live_server(e: EngineView, path: Seq<char>, port: u16)
    requires
        e.model_path == Some(path),
        e.port == Some(port),
    ensures
        start_spec(e, path).1 == (ActionView::ProbeAlive { address: socket_address_spec(port) }),
        advance_spec(start_spec(e, path).0, EventView::AliveChecked(true)) == finish(e, Ok(port)),
{
}


/// Starting a model other than the one served, or with no server port,
/// stops the old server first and forgets its port.
pub proof fn lemma_start_other_model_kills(e: EngineView, path: Seq<char>)
    requires
        e.model_path != Some(path) || e.port is None,
    ensures
        start_spec(e, path).1 == ActionView::KillServer,
        start_spec(e, path).0.port is None,
        start_spec(e, path).0.stage == (StageView::Killing { path }),
{
}


/// The engine and the actions of a start for `path` from `e`, once the
/// outcomes `events` have been reported in turn.
pub open spec fn run_start(e: EngineView, path: Seq<char>, events: Seq<EventView>) -> (
    EngineView,
    Seq<ActionView>,
)
    decreases events.len(),
{
    if events.len() == 0 {
        (start_spec(e, path).0, seq![start_spec(e, path).1])
    } else {
        let prev = run_start(e, path, events.drop_last());
        let step = advance_spec(prev.0, events.last());
        (step.0, prev.1.push(step.1))
    }
}

/// Each outcome in `events` was one that the start waited for.
pub open spec fn valid_start_run(e: EngineView, path: Seq<char>, events: Seq<EventView>) -> bool
    decreases events.len(),
{
    events.len() == 0 || (valid_start_run(e, path, events.drop_last()) && accepts(
        run_start(e, path, events.drop_last()).0.stage,
        events.last(),
    ))
}

/// Some action before position `j` is a kill.
pub open spec fn kill_before(acts: Seq<ActionView>, j: int) -> bool {
    exists|i: int| 0 <= i < j && (#[trigger] acts[i]) is KillServer
}

/// A stage that follows the kill of the old server.
pub open spec fn after_kill(stage: StageView) -> bool {
    ||| stage is Killing
    ||| stage is CheckingBinary
    ||| stage is AllocatingPort
    ||| stage is Spawning
    ||| stage is WaitingReady
}

/// Some action is a spawn.
pub open spec fn has_spawn(acts: Seq<ActionView>) -> bool {
    exists|j: int| 0 <= j < acts.len() && (#[trigger] acts[j]) is Spawn
}

/// What holds of every prefix of a start.
pub open spec fn start_run_inv(st: EngineView, acts: Seq<ActionView>) -> bool {
    &&& acts.len() >= 1
    &&& forall|j: int| 0 <= j < acts.len() && (#[trigger] acts[j]) is Spawn ==> kill_before(acts, j)
    &&& after_kill(st.stage) ==> kill_before(acts, acts.len() as int)
    &&& has_spawn(acts) ==> (st.stage is Spawning || st.stage is WaitingReady || st.stage is Idle)
    &&& forall|j: int, k: int|
        0 <= j < acts.len() && 0 <= k < acts.len() && (#[trigger] acts[j]) is Spawn && (
        #[trigger] acts[k]) is Spawn ==> j == k
}

proof fn lemma_start_run_inv(e: EngineView, path: Seq<char>, events: Seq<EventView>)
    requires
        valid_start_run(e, path, events),
    ensures
        start_run_inv(run_start(e, path, events).0, run_start(e, path, events).1),
    decreases events.len(),
{
    if events.len() == 0 {
        let acts = run_start(e, path, events).1;
        if start_spec(e, path).0.stage is Killing {
            assert(acts[0] is KillServer);
        }
    } else {
        let prev = run_start(e, path, events.drop_last());
        lemma_start_run_inv(e, path, events.drop_last());
        let (st, acts) = prev;
        let a = advance_spec(st, events.last()).1;
        let st2 = advance_spec(st, events.last()).0;
        let acts2 = acts.push(a);
        let n = acts.len() as int;
        assert forall|i: int| 0 <= i < n implies acts2[i] == acts[i] by {}
        assert forall|j: int| 0 <= j < acts2.len() && (#[trigger] acts2[j]) is Spawn implies kill_before(
            acts2,
            j,
        ) by {
            if j < n {
                assert(acts[j] is Spawn);
                let i = choose|i: int| 0 <= i < j && (#[trigger] acts[i]) is KillServer;
                assert(acts2[i] is KillServer);
            } else {
                assert(st.stage is AllocatingPort);
                let i = choose|i: int| 0 <= i < n && (#[trigger] acts[i]) is KillServer;
                assert(acts2[i] is KillServer);
            }
        }
        if after_kill(st2.stage) {
            if a is KillServer {
                assert(acts2[n] is KillServer);
            } else {
                assert(after_kill(st.stage));
                let i = choose|i: int| 0 <= i < n && (#[trigger] acts[i]) is KillServer;
                assert(acts2[i] is KillServer);
            }
        }
        if has_spawn(acts2) {
            let j = choose|j: int| 0 <= j < acts2.len() && (#[trigger] acts2[j]) is Spawn;
            if j < n {
                assert(acts[j] is Spawn);
                assert(has_spawn(acts));
            }
        }
        assert forall|j: int, k: int|
            0 <= j < acts2.len() && 0 <= k < acts2.len() && (#[trigger] acts2[j]) is Spawn && (
            #[trigger] acts2[k]) is Spawn implies j == k by {
            if j < n && k < n {
                assert(acts[j] is Spawn && acts[k] is Spawn);
            } else if j < n {
                assert(acts[j] is Spawn);
                assert(has_spawn(acts));
            } else if k < n {
                assert(acts[k] is Spawn);
                assert(has_spawn(acts));
            }
        }
    }
}

/// Over a whole start, the old server is killed before any process is
/// spawned, and at most one process is spawned.
pub proof fn lemma_kill_before_spawn(e: EngineView, path: Seq<char>, events: Seq<EventView>)
    requires
        valid_start_run(e, path, events),
    ensures
        forall|j: int|
            0 <= j < run_start(e, path, events).1.len() && (#[trigger] run_start(
                e,
                path,
                events,
            ).1[j]) is Spawn ==> kill_before(run_start(e, path, events).1, j),
        forall|j: int, k: int|
            0 <= j < run_start(e, path, events).1.len() && 0 <= k < run_start(
                e,
                path,
                events,
            ).1.len() && (#[trigger] run_start(e, path, events).1[j]) is Spawn && (
            #[trigger] run_start(e, path, events).1[k]) is Spawn ==> j == k,
{
    lemma_start_run_inv(e, path, events);
}


/// Whether `ev` reports the outcome of the work `a` asked for.
pub open spec fn answers_start(a: ActionView, ev: EventView) -> bool {
    match (a, ev) {
        (ActionView::ProbeAlive { .. }, EventView::AliveChecked(_)) => true,
        (ActionView::KillServer, EventView::ServerKilled) => true,
        (ActionView::CheckBinary { .. }, EventView::BinaryChecked(_)) => true,
        (ActionView::AllocatePort, EventView::PortAllocated(_)) => true,
        (ActionView::Spawn { .. }, EventView::Spawned(_)) => true,
        (ActionView::AwaitReady { .. }, EventView::ServerReady(_)) => true,
        _ => false,
    }
}

/// A start takes every outcome of the work it asks for: whatever the probe,
/// the binary check, the port search, the spawn or the wait found, the
/// engine accepts the report and moves on; it asks for nothing once it has
/// returned its result.
pub proof fn lemma_start_takes_every_outcome(
    e: EngineView,
    path: Seq<char>,
    ev: EventView,
    next: EventView,
)
    ensures
        answers_start(start_spec(e, path).1, next) ==> accepts(start_spec(e, path).0.stage, next),
        accepts(e.stage, ev) && answers_start(advance_spec(e, ev).1, next) ==> accepts(
            advance_spec(e, ev).0.stage,
            next,
        ),
        start_spec(e, path).1 is Finished || exists|n: EventView| #[trigger]
            answers_start(start_spec(e, path).1, n),
{
    let a = start_spec(e, path).1;
    if a is KillServer {
        assert(answers_start(a, EventView::ServerKilled));
    } else {
        assert(answers_start(a, EventView::AliveChecked(true)));
    }
}

/// While the server that serves the model is probed, both answers are
/// taken: a live server is reused with its port, a dead one is killed.
pub proof fn lemma_probe_takes_both_answers(path: Seq<char>, port: u16, e: EngineView)
    requires
        e.stage == (StageView::Probing { path, port }),
    ensures
        accepts(e.stage, EventView::AliveChecked(true)),
        accepts(e.stage, EventView::AliveChecked(false)),
        advance_spec(e, EventView::AliveChecked(true)).1 == ActionView::Finished(Ok(port)),
        advance_spec(e, EventView::AliveChecked(false)).1 == ActionView::KillServer,
{
}


/// What each step of a start hands to the outside work: the probe goes to
/// `127.0.0.1:<port>` of the serving port; the binary set on the engine is
/// checked and then spawned with the model path, the new port, the loopback
/// host, a context of 8192 and `--jinja`; the spawned server is awaited for
/// 120 seconds and then serves the model on its port.
pub proof fn lemma_start_hands_over(
    e: EngineView,
    path: Seq<char>,
    port: u16,
    binary: Seq<char>,
)
    ensures
        e.model_path == Some(path) && e.port == Some(port) ==> start_spec(e, path).1 == (
        ActionView::ProbeAlive { address: "127.0.0.1:"@ + decimal(port as nat) }),
        e.stage == (StageView::Killing { path }) && e.server_binary == Some(binary)
            ==> advance_spec(e, EventView::ServerKilled).1 == (ActionView::CheckBinary { binary }),
        e.stage == (StageView::CheckingBinary { path, binary }) ==> advance_spec(
            e,
            EventView::BinaryChecked(true),
        ).1 == ActionView::AllocatePort,
        e.stage == (StageView::AllocatingPort { path, binary }) ==> advance_spec(
            e,
            EventView::PortAllocated(Ok(port)),
        ).1 == (ActionView::Spawn {
            program: binary,
            args: seq![
                "--model"@,
                path,
                "--port"@,
                decimal(port as nat),
                "--host"@,
                "127.0.0.1"@,
                "--ctx-size"@,
                decimal(8192),
                "--jinja"@,
            ],
        }),
        e.stage == (StageView::Spawning { path, port }) ==> advance_spec(
            e,
            EventView::Spawned(Ok(())),
        ) == ((EngineView {
            port: Some(port),
            model_path: Some(path),
            stage: StageView::WaitingReady { path, port },
            ..e
        }), (ActionView::AwaitReady { port, timeout_secs: 120 })),
        e.stage == (StageView::WaitingReady { path, port }) ==> advance_spec(
            e,
            EventView::ServerReady(Ok(())),
        ).1 == ActionView::Finished(Ok(port)),
{
}

/// Each failed start returns a message that names its cause and carries the
/// detail reported; a server that did not come up returns the wait's reason
/// unchanged.
pub proof fn lemma_start_failure_messages(
    e: EngineView,
    path: Seq<char>,
    binary: Seq<char>,
    detail: Seq<char>,
)
    ensures
        e.stage == (StageView::Killing { path }) && e.server_binary is None ==> advance_spec(
            e,
            EventView::ServerKilled,
        ).1 == ActionView::Finished(Err("llama-server binary saknas"@)),
        e.stage == (StageView::CheckingBinary { path, binary }) ==> advance_spec(
            e,
            EventView::BinaryChecked(false),
        ).1 == ActionView::Finished(Err("llama-server binary hittades inte: "@ + binary)),
        (e.stage is AllocatingPort) ==> advance_spec(e, EventView::PortAllocated(Err(detail))).1
            == ActionView::Finished(Err("Kunde inte hitta ledig port: "@ + detail)),
        (e.stage is Spawning) ==> advance_spec(e, EventView::Spawned(Err(detail))).1
            == ActionView::Finished(Err("Kunde inte starta llama-server: "@ + detail)),
        (e.stage is WaitingReady) ==> advance_spec(e, EventView::ServerReady(Err(detail))).1
            == ActionView::Finished(Err(detail)),
{
}

/// The server's URL is `http://127.0.0.1:<port>`, and its health check is
/// that URL followed by `/health`.
pub proof fn lemma_server_urls(port: u16)
    ensures
        server_url_spec(port) == "http://127.0.0.1:"@ + decimal(port as nat),
        health_url_spec(port) == "http://127.0.0.1:"@ + decimal(port as nat) + "/health"@,
        socket_address_spec(port) == "127.0.0.1:"@ + decimal(port as nat),
{
}


/// The server counts as running exactly when the engine has a port and
/// that port accepted a connection.
pub proof fn lemma_running_meaning(e: &InferenceEngine, port_answers: bool)
    ensures
        e.is_running_spec(port_answers) <==> (e@.port is Some && port_answers),
{
}

} // verus!
