//! Supervision of the backend services: the Ollama server and the Python
//! API.
//!
//! Starting, probing and killing processes is the caller's part. Which ports
//! to try, what a probe means and when to give up is decided here.

use vstd::prelude::*;
use vstd::string::StringExecFns;
use crate::platform::{Arch, Platform};

verus! {

/// The port the bundled Ollama server listens on by preference.
pub const DEFAULT_OLLAMA_PORT: u16 = 11436;

/// The port of the Python API.
pub const API_PORT: u16 = 8080;

/// How often the health of the Ollama server is asked for before giving up.
pub const OLLAMA_HEALTH_ATTEMPTS: u32 = 30;

/// How often the health of the Python API is asked for before giving up.
pub const API_HEALTH_ATTEMPTS: u32 = 60;

/// The file name of the DeepFilterNet model.
pub const DEEPFILTER_MODEL_NAME: &'static str = "DeepFilterNet3_onnx.tar.gz";

/// The state of the backend services.
#[derive(Clone, Debug, PartialEq, Eq)]
pub struct ServiceStatus {
    pub ollama_running: bool,
    pub api_running: bool,
    pub whisper_loaded: bool,
    pub deepfilter_available: bool,
    pub deepfilter_binary: Option<String>,
    pub deepfilter_model: Option<String>,
}

/// What the caller found when it looked at the two services.
#[derive(Clone, Copy, Debug, PartialEq, Eq, Structural)]
pub struct ServiceProbe {
    /// The Ollama child process is alive.
    pub ollama_child_running: bool,
    /// Something listens on the Ollama port.
    pub ollama_port_listening: bool,
    /// The API child process is alive.
    pub api_child_running: bool,
    /// Something listens on the API port.
    pub api_port_listening: bool,
}

/// The file names of the DeepFilterNet binary and model.
#[derive(Clone, Debug, PartialEq, Eq)]
pub struct DeepFilterNetPaths {
    pub bin_name: String,
    pub model_name: String,
}

/// The ports tried for Ollama, in order: the preferred port, Ollama's own
/// default, then the ten ports after the preferred one.
pub open spec fn preferred_ports_spec() -> Seq<u16> {
    seq![11436u16, 11434u16] + Seq::new(10, |i: int| (11437 + i) as u16)
}

/// The name of the DeepFilterNet binary for a platform, where there is one.
pub open spec fn deepfilter_binary_spec(platform: Platform, arch: Arch) -> Option<Seq<char>> {
    match platform {
        Platform::Windows => Some("deep-filter-0.5.6-x86_64-pc-windows-msvc.exe"@),
        Platform::MacOs => if arch is Aarch64 {
            Some("deep-filter-0.5.6-aarch64-apple-darwin"@)
        } else {
            Some("deep-filter-0.5.6-x86_64-apple-darwin"@)
        },
        _ => None,
    }
}

/// What to do with a port on which something listens already.
#[derive(Clone, Copy, Debug, PartialEq, Eq, Structural)]
pub enum PortVerdict {
    /// A working Ollama server: use it, and start none.
    UseExisting,
    /// Not a usable Ollama server: go on to the next port.
    TryNext,
}

/// How the one-token generation request to an existing server ended.
#[derive(Clone, Copy, Debug, PartialEq, Eq, Structural)]
pub enum GenerateOutcome {
    /// Answered with a success status.
    Success,
    /// Answered with another status.
    Rejected,
    /// Timed out.
    TimedOut,
    /// Failed in another way.
    Failed,
}

/// The verdict on a port on which something listens: it is used where the
/// model list was served and the generation request succeeded or timed out,
/// a time-out being taken for a model that is still loading.
pub open spec fn port_verdict_spec(tags_ok: bool, generate: GenerateOutcome) -> PortVerdict {
    if tags_ok && (generate is Success || generate is TimedOut) {
        PortVerdict::UseExisting
    } else {
        PortVerdict::TryNext
    }
}

/// What the caller does next while Ollama is being started.
#[derive(Clone, Copy, Debug, PartialEq, Eq, Structural)]
pub enum StartStep {
    /// See whether something listens on the port, and answer `Listening`.
    Probe(u16),
    /// Ask the server on the port for its model list, and answer `Tags`.
    AskTags(u16),
    /// Ask the server on the port to generate one token, and answer
    /// `Generate`.
    AskGenerate(u16),
    /// Start the bundled server on the port, and answer `Spawned`.
    Spawn(u16),
    /// Wait for the started server to become healthy, and answer `Healthy`.
    AwaitHealth(u16),
    /// Kill the server started on the port, and answer `Abandoned`.
    Abandon(u16),
    /// A working server was found on the port; none is started.
    UseExisting(u16),
    /// The bundled server runs on the port.
    Started(u16),
    /// The bundled server could not be started.
    SpawnFailed,
    /// No port was left to try.
    NoPortLeft,
}

/// What the caller found.
#[derive(Clone, Copy, Debug, PartialEq, Eq, Structural)]
pub enum StartAnswer {
    Listening(bool),
    Tags(bool),
    Generate(GenerateOutcome),
    Spawned(bool),
    Healthy(bool),
    Abandoned,
}

/// Where the start of Ollama stands.
#[derive(Clone, Copy, Debug, PartialEq, Eq, Structural)]
pub enum StartPhase {
    /// Waiting for the answer to `Probe`.
    Probing,
    /// Waiting for the answer to `AskTags`.
    AskingTags,
    /// Waiting for the answer to `AskGenerate`.
    AskingGenerate,
    /// Waiting for the answer to `Spawn`.
    Spawning,
    /// Waiting for the answer to `AwaitHealth`.
    AwaitingHealth,
    /// Waiting for the answer to `Abandon`.
    Abandoning,
    /// Ended with this step.
    Ended(StartStep),
}

/// The state of a start: the port being tried, as an index into the
/// preferred ports, and the phase.
pub struct StartState {
    pub index: int,
    pub phase: StartPhase,
}

/// The step that asks for the first answer on the port at `index`, or
/// `NoPortLeft` where the ports are used up.
pub open spec fn probe_at(ports: Seq<u16>, index: int) -> StartState {
    if 0 <= index < ports.len() {
        StartState { index, phase: StartPhase::Probing }
    } else {
        StartState { index, phase: StartPhase::Ended(StartStep::NoPortLeft) }
    }
}

/// The step that a state asks of the caller.
pub open spec fn step_of(ports: Seq<u16>, state: StartState) -> StartStep {
    let port = if 0 <= state.index < ports.len() {
        ports[state.index]
    } else {
        0
    };
    match state.phase {
        StartPhase::Probing => StartStep::Probe(port),
        StartPhase::AskingTags => StartStep::AskTags(port),
        StartPhase::AskingGenerate => StartStep::AskGenerate(port),
        StartPhase::Spawning => StartStep::Spawn(port),
        StartPhase::AwaitingHealth => StartStep::AwaitHealth(port),
        StartPhase::Abandoning => StartStep::Abandon(port),
        StartPhase::Ended(step) => step,
    }
}

/// The state after an answer.
///
/// A port on which something listens is used where it proves to be a working
/// Ollama server, and passed over where it does not. On a free port the
/// bundled server is started; a server that does not become healthy is
/// killed, and the next port is tried. A server that cannot be started ends
/// the attempt. An answer to another question than the one asked changes
/// nothing.
pub open spec fn after_answer(ports: Seq<u16>, state: StartState, answer: StartAnswer) -> StartState {
    let port = if 0 <= state.index < ports.len() {
        ports[state.index]
    } else {
        0
    };
    let stay = |phase: StartPhase| StartState { index: state.index, phase };
    match (state.phase, answer) {
        (StartPhase::Probing, StartAnswer::Listening(true)) => stay(StartPhase::AskingTags),
        (StartPhase::Probing, StartAnswer::Listening(false)) => stay(StartPhase::Spawning),
        (StartPhase::AskingTags, StartAnswer::Tags(true)) => stay(StartPhase::AskingGenerate),
        (StartPhase::AskingTags, StartAnswer::Tags(false)) => probe_at(ports, state.index + 1),
        (StartPhase::AskingGenerate, StartAnswer::Generate(outcome)) => match port_verdict_spec(
            true,
            outcome,
        ) {
            PortVerdict::UseExisting => stay(StartPhase::Ended(StartStep::UseExisting(port))),
            PortVerdict::TryNext => probe_at(ports, state.index + 1),
        },
        (StartPhase::Spawning, StartAnswer::Spawned(true)) => stay(StartPhase::AwaitingHealth),
        (StartPhase::Spawning, StartAnswer::Spawned(false)) => stay(
            StartPhase::Ended(StartStep::SpawnFailed),
        ),
        (StartPhase::AwaitingHealth, StartAnswer::Healthy(true)) => stay(
            StartPhase::Ended(StartStep::Started(port)),
        ),
        (StartPhase::AwaitingHealth, StartAnswer::Healthy(false)) => stay(StartPhase::Abandoning),
        (StartPhase::Abandoning, StartAnswer::Abandoned) => probe_at(ports, state.index + 1),
        _ => state,
    }
}

/// How far a state is from its end: it falls with every answer to the
/// question asked.
pub open spec fn start_distance(ports: Seq<u16>, state: StartState) -> int {
    let left = if state.index < ports.len() {
        ports.len() - state.index
    } else {
        0
    };
    let rank: int = match state.phase {
        StartPhase::Probing => 4,
        StartPhase::AskingTags => 3,
        StartPhase::AskingGenerate => 2,
        StartPhase::Spawning => 3,
        StartPhase::AwaitingHealth => 2,
        StartPhase::Abandoning => 1,
        StartPhase::Ended(_) => 0,
    };
    4 * left + rank
}

/// The start of Ollama ends: every answer that changes the state brings it
/// nearer to its end, so it ends after at most four answers a port.
pub proof fn lemma_start_ends(ports: Seq<u16>, state: StartState, answer: StartAnswer)
    requires
        0 <= state.index < ports.len(),
        !(state.phase is Ended),
    ensures
        ({
            let next = after_answer(ports, state, answer);
            &&& next == state || start_distance(ports, next) < start_distance(ports, state)
            &&& start_distance(ports, next) >= 0
            &&& state.index <= next.index <= state.index + 1
            &&& next.phase is Ended || 0 <= next.index < ports.len()
        }),
{
}

/// The attempt to bring up Ollama: which port is tried, and what is asked
/// of the caller next.
pub struct OllamaStart {
    ports: Vec<u16>,
    index: usize,
    phase: StartPhase,
}

impl View for OllamaStart {
    type V = StartState;

    closed spec fn view(&self) -> StartState {
        StartState { index: self.index as int, phase: self.phase }
    }
}

impl OllamaStart {
    /// The ports that the attempt tries, in order.
    pub closed spec fn ports(&self) -> Seq<u16> {
        self.ports@
    }

    /// A new attempt, at the first of the preferred ports.
    pub fn new() -> (start: Self)
        ensures
            start.ports() == preferred_ports_spec(),
            start@ == probe_at(preferred_ports_spec(), 0),
    {
        let ports = preferred_ports();
        OllamaStart { ports, index: 0, phase: StartPhase::Probing }
    }

    /// What the caller does next.
    pub fn step(&self) -> (step: StartStep)
        ensures
            step == step_of(self.ports(), self@),
    {
        let port = if self.index < self.ports.len() {
            self.ports[self.index]
        } else {
            0
        };
        match self.phase {
            StartPhase::Probing => StartStep::Probe(port),
            StartPhase::AskingTags => StartStep::AskTags(port),
            StartPhase::AskingGenerate => StartStep::AskGenerate(port),
            StartPhase::Spawning => StartStep::Spawn(port),
            StartPhase::AwaitingHealth => StartStep::AwaitHealth(port),
            StartPhase::Abandoning => StartStep::Abandon(port),
            StartPhase::Ended(step) => step,
        }
    }

    fn try_next_port(&mut self)
        requires
            old(self).index < old(self).ports.len(),
        ensures
            final(self).ports() == old(self).ports(),
            final(self)@ == probe_at(old(self).ports(), old(self)@.index + 1),
    {
        self.index = self.index + 1;
        if self.index < self.ports.len() {
            self.phase = StartPhase::Probing;
        } else {
            self.phase = StartPhase::Ended(StartStep::NoPortLeft);
        }
    }

    /// Takes the caller's answer and gives the next step.
    pub fn answer(&mut self, answer: StartAnswer) -> (step: StartStep)
        ensures
            final(self).ports() == old(self).ports(),
            old(self)@.index < old(self).ports().len() ==> final(self)@ == after_answer(
                old(self).ports(),
                old(self)@,
                answer,
            ),
            old(self)@.index >= old(self).ports().len() ==> final(self)@ == old(self)@,
            step == step_of(final(self).ports(), final(self)@),
    {
        if self.index >= self.ports.len() {
            return self.step();
        }
        let port = self.ports[self.index];
        match (self.phase, answer) {
            (StartPhase::Probing, StartAnswer::Listening(true)) => {
                self.phase = StartPhase::AskingTags;
            },
            (StartPhase::Probing, StartAnswer::Listening(false)) => {
                self.phase = StartPhase::Spawning;
            },
            (StartPhase::AskingTags, StartAnswer::Tags(true)) => {
                self.phase = StartPhase::AskingGenerate;
            },
            (StartPhase::AskingTags, StartAnswer::Tags(false)) => {
                self.try_next_port();
            },
            (StartPhase::AskingGenerate, StartAnswer::Generate(outcome)) => {
                match port_verdict(true, outcome) {
                    PortVerdict::UseExisting => {
                        self.phase = StartPhase::Ended(StartStep::UseExisting(port));
                    },
                    PortVerdict::TryNext => {
                        self.try_next_port();
                    },
                }
            },
            (StartPhase::Spawning, StartAnswer::Spawned(true)) => {
                self.phase = StartPhase::AwaitingHealth;
            },
            (StartPhase::Spawning, StartAnswer::Spawned(false)) => {
                self.phase = StartPhase::Ended(StartStep::SpawnFailed);
            },
            (StartPhase::AwaitingHealth, StartAnswer::Healthy(true)) => {
                self.phase = StartPhase::Ended(StartStep::Started(port));
            },
            (StartPhase::AwaitingHealth, StartAnswer::Healthy(false)) => {
                self.phase = StartPhase::Abandoning;
            },
            (StartPhase::Abandoning, StartAnswer::Abandoned) => {
                self.try_next_port();
            },
            _ => {},
        }
        self.step()
    }
}

/// What to do after one health request.
#[derive(Clone, Copy, Debug, PartialEq, Eq, Structural)]
pub enum WaitStep {
    /// The service is healthy.
    Ready,
    /// Sleep a second and ask again.
    Retry,
    /// The service did not become healthy in time.
    GiveUp,
}

/// The step after health request number `attempt`, counted from one, of at
/// most `max_attempts`.
pub open spec fn wait_step_spec(attempt: u32, max_attempts: u32, healthy: bool) -> WaitStep {
    if healthy {
        WaitStep::Ready
    } else if attempt < max_attempts {
        WaitStep::Retry
    } else {
        WaitStep::GiveUp
    }
}

/// The state of the supervisor that outlives a probe.
pub struct ProcessManager {
    ollama_port: u16,
    use_port_checks: bool,
    deepfilter_available: bool,
    deepfilter_binary: Option<String>,
    deepfilter_model: Option<String>,
}

impl ProcessManager {
    /// The port Ollama is taken to listen on.
    pub closed spec fn port(&self) -> u16 {
        self.ollama_port
    }

    /// Whether a listening port counts as a running service.
    pub closed spec fn port_checks(&self) -> bool {
        self.use_port_checks
    }

    /// Whether DeepFilterNet was found when the API was started.
    pub closed spec fn deepfilter(&self) -> bool {
        self.deepfilter_available
    }

    /// The file name of the DeepFilterNet binary, where it was found.
    pub closed spec fn deepfilter_binary_name(&self) -> Option<String> {
        self.deepfilter_binary
    }

    /// The file name of the DeepFilterNet model, where it was found.
    pub closed spec fn deepfilter_model_name(&self) -> Option<String> {
        self.deepfilter_model
    }

    /// A supervisor that has started nothing: Ollama is expected on the
    /// preferred port, ports are not probed, DeepFilterNet is not known.
    pub fn new() -> (manager: Self)
        ensures
            manager.port() == DEFAULT_OLLAMA_PORT,
            !manager.port_checks(),
            !manager.deepfilter(),
            manager.deepfilter_binary_name() is None,
            manager.deepfilter_model_name() is None,
    {
        ProcessManager {
            ollama_port: DEFAULT_OLLAMA_PORT,
            use_port_checks: false,
            deepfilter_available: false,
            deepfilter_binary: None,
            deepfilter_model: None,
        }
    }

    /// The port Ollama is taken to listen on.
    pub fn ollama_port(&self) -> (port: u16)
        ensures
            port == self.port(),
    {
        self.ollama_port
    }

    /// Whether the caller has to probe the ports for `get_status`.
    pub fn uses_port_checks(&self) -> (used: bool)
        ensures
            used == self.port_checks(),
    {
        self.use_port_checks
    }

    /// Notes that the services are being started: from now on a listening
    /// port counts as a running service.
    pub fn start_all(&mut self)
        ensures
            final(self).port_checks(),
            final(self).port() == old(self).port(),
            final(self).deepfilter() == old(self).deepfilter(),
            final(self).deepfilter_binary_name() == old(self).deepfilter_binary_name(),
            final(self).deepfilter_model_name() == old(self).deepfilter_model_name(),
    {
        self.use_port_checks = true;
    }

    /// Notes the port on which Ollama was found or started.
    pub fn set_ollama_port(&mut self, port: u16)
        ensures
            final(self).port() == port,
            final(self).port_checks() == old(self).port_checks(),
            final(self).deepfilter() == old(self).deepfilter(),
            final(self).deepfilter_binary_name() == old(self).deepfilter_binary_name(),
            final(self).deepfilter_model_name() == old(self).deepfilter_model_name(),
    {
        self.ollama_port = port;
    }

    /// Notes what was found of DeepFilterNet when the API was started.
    pub fn set_deepfilter(&mut self, paths: Option<DeepFilterNetPaths>)
        ensures
            final(self).port() == old(self).port(),
            final(self).port_checks() == old(self).port_checks(),
            final(self).deepfilter() == (paths is Some),
            match paths {
                Some(found) => {
                    &&& final(self).deepfilter_binary_name() == Some(found.bin_name)
                    &&& final(self).deepfilter_model_name() == Some(found.model_name)
                },
                None => {
                    &&& final(self).deepfilter_binary_name() is None
                    &&& final(self).deepfilter_model_name() is None
                },
            },
    {
        match paths {
            Some(found) => {
                self.deepfilter_available = true;
                self.deepfilter_binary = Some(found.bin_name);
                self.deepfilter_model = Some(found.model_name);
            },
            None => {
                self.deepfilter_available = false;
                self.deepfilter_binary = None;
                self.deepfilter_model = None;
            },
        }
    }

    /// The state of the services. A service runs where its child process is
    /// alive, or, once the services have been started, where something
    /// listens on its port. The Whisper model counts as loaded where the API
    /// runs.
    pub fn get_status(&mut self, probe: ServiceProbe) -> (status: ServiceStatus)
        ensures
            *final(self) == *old(self),
            status.ollama_running == (probe.ollama_child_running || (old(self).port_checks()
                && probe.ollama_port_listening)),
            status.api_running == (probe.api_child_running || (old(self).port_checks()
                && probe.api_port_listening)),
            status.whisper_loaded == status.api_running,
            status.deepfilter_available == old(self).deepfilter(),
            status.deepfilter_binary == old(self).deepfilter_binary_name(),
            status.deepfilter_model == old(self).deepfilter_model_name(),
    {
        let ollama_running = if self.use_port_checks {
            probe.ollama_child_running || probe.ollama_port_listening
        } else {
            probe.ollama_child_running
        };
        let api_running = if self.use_port_checks {
            probe.api_child_running || probe.api_port_listening
        } else {
            probe.api_child_running
        };
        ServiceStatus {
            ollama_running,
            api_running,
            whisper_loaded: api_running,
            deepfilter_available: self.deepfilter_available,
            deepfilter_binary: self.deepfilter_binary.clone(),
            deepfilter_model: self.deepfilter_model.clone(),
        }
    }
}

/// The name of the Ollama binary.
pub fn ollama_binary_name(platform: Platform) -> (name: &'static str)
    ensures
        name@ == if platform is Windows {
            "ollama.exe"@
        } else {
            "ollama"@
        },
{
    match platform {
        Platform::Windows => "ollama.exe",
        _ => "ollama",
    }
}

/// The name of the Python API binary.
pub fn api_binary_name(platform: Platform) -> (name: &'static str)
    ensures
        name@ == if platform is Windows {
            "cogniscribe-api.exe"@
        } else {
            "cogniscribe-api"@
        },
{
    match platform {
        Platform::Windows => "cogniscribe-api.exe",
        _ => "cogniscribe-api",
    }
}

/// The ports tried for Ollama, in order.
pub fn preferred_ports() -> (ports: Vec<u16>)
    ensures
        ports@ == preferred_ports_spec(),
{
    let mut ports: Vec<u16> = Vec::new();
    ports.push(11436);
    ports.push(11434);
    let mut port: u16 = 11437;
    while port <= 11446
        invariant
            11437 <= port <= 11447,
            ports.len() == 2 + (port - 11437),
            ports@[0] == 11436,
            ports@[1] == 11434,
            forall|j: int| 2 <= j < ports.len() ==> ports@[j] == 11435 + j,
        decreases 11447 - port,
    {
        ports.push(port);
        port = port + 1;
    }
    assert(ports@ =~= preferred_ports_spec());
    ports
}

/// The verdict on a port on which something listens already.
pub fn port_verdict(tags_ok: bool, generate: GenerateOutcome) -> (verdict: PortVerdict)
    ensures
        verdict == port_verdict_spec(tags_ok, generate),
{
    if !tags_ok {
        return PortVerdict::TryNext;
    }
    match generate {
        GenerateOutcome::Success => PortVerdict::UseExisting,
        GenerateOutcome::TimedOut => PortVerdict::UseExisting,
        _ => PortVerdict::TryNext,
    }
}

/// Whether a status of the API's health endpoint shows that the API
/// answers: `200`, or `503` while the models are loading.
pub fn api_answers(status: u16) -> (answers: bool)
    ensures
        answers == (status == 200 || status == 503),
{
    status == 200 || status == 503
}

/// The step after health request number `attempt` of at most
/// `max_attempts`.
pub fn wait_step(attempt: u32, max_attempts: u32, healthy: bool) -> (step: WaitStep)
    ensures
        step == wait_step_spec(attempt, max_attempts, healthy),
{
    if healthy {
        WaitStep::Ready
    } else if attempt < max_attempts {
        WaitStep::Retry
    } else {
        WaitStep::GiveUp
    }
}

/// The DeepFilterNet files to use, given what exists on disk: none unless
/// the directory, the platform's binary and the model all exist.
pub fn deepfilternet_paths(
    platform: Platform,
    arch: Arch,
    dir_exists: bool,
    bin_exists: bool,
    model_exists: bool,
) -> (paths: Option<DeepFilterNetPaths>)
    ensures
        paths is Some <==> (dir_exists && bin_exists && model_exists && deepfilter_binary_spec(
            platform,
            arch,
        ) is Some),
        paths is Some ==> {
            &&& Some(paths.unwrap().bin_name@) == deepfilter_binary_spec(platform, arch)
            &&& paths.unwrap().model_name@ == DEEPFILTER_MODEL_NAME@
        },
{
    if !dir_exists {
        return None;
    }
    let bin_name = match deepfilter_binary_name(platform, arch) {
        Some(name) => name,
        None => { return None; },
    };
    if !bin_exists {
        return None;
    }
    if !model_exists {
        return None;
    }
    Some(
        DeepFilterNetPaths {
            bin_name: String::from_str(bin_name),
            model_name: String::from_str(DEEPFILTER_MODEL_NAME),
        },
    )
}

/// The origins that the API accepts requests from.
pub const CORS_ALLOW_ORIGINS: &'static str =
    "http://localhost,http://127.0.0.1,http://localhost:5173,http://127.0.0.1:5173,tauri://localhost,app://localhost,http://tauri.localhost,https://tauri.localhost";

/// What the API is started with.
#[derive(Clone, Debug, PartialEq, Eq)]
pub struct ApiSettings {
    pub ollama_port: u16,
    pub whisper_model: String,
    pub use_gpu: bool,
    pub ollama_model: String,
    pub audio_storage_dir: String,
    pub temp_audio_dir: String,
    /// The paths of the DeepFilterNet binary and model, where they were
    /// found.
    pub deepfilter: Option<(String, String)>,
}

/// The text of a truth value.
pub open spec fn bool_text(value: bool) -> Seq<char> {
    if value {
        "true"@
    } else {
        "false"@
    }
}

/// The environment of the API process, as names and values in the order in
/// which they are set.
pub open spec fn api_environment_spec(settings: ApiSettings) -> Seq<(Seq<char>, Seq<char>)> {
    let base = seq![
        ("PORT"@, "8080"@),
        ("OLLAMA_HOST"@, "localhost"@),
        ("OLLAMA_PORT"@, crate::text::decimal(settings.ollama_port as nat)),
        ("WHISPER_MODEL"@, settings.whisper_model@),
        ("USE_GPU"@, bool_text(settings.use_gpu)),
        ("OLLAMA_MODEL"@, settings.ollama_model@),
        ("AUDIO_STORAGE_DIR"@, settings.audio_storage_dir@),
        ("TEMP_AUDIO_DIR"@, settings.temp_audio_dir@),
        ("CORS_ALLOW_ORIGINS"@, CORS_ALLOW_ORIGINS@),
        ("LOG_LEVEL"@, "INFO"@),
    ];
    match settings.deepfilter {
        Some((bin_path, model_path)) => base + seq![
            ("DEEPFILTERNET_ENABLED"@, "true"@),
            ("DEEPFILTERNET_BIN"@, bin_path@),
            ("DEEPFILTERNET_MODEL"@, model_path@),
            ("DEEPFILTERNET_USE_POSTFILTER"@, "true"@),
        ],
        None => base,
    }
}

/// The names and values of an environment, as contracts see them.
pub open spec fn environment_view(env: Seq<(String, String)>) -> Seq<(Seq<char>, Seq<char>)> {
    Seq::new(env.len(), |i: int| (env[i].0@, env[i].1@))
}

fn set(env: &mut Vec<(String, String)>, name: &str, value: String)
    ensures
        environment_view(final(env)@) == environment_view(old(env)@).push((name@, value@)),
{
    env.push((String::from_str(name), value));
    assert(environment_view(env@) =~= environment_view(old(env)@).push((name@, value@)));
}

/// The environment that the API process is started with.
pub fn api_environment(settings: &ApiSettings) -> (env: Vec<(String, String)>)
    ensures
        environment_view(env@) == api_environment_spec(*settings),
{
    let mut env: Vec<(String, String)> = Vec::new();
    assert(environment_view(env@) =~= Seq::empty());
    set(&mut env, "PORT", String::from_str("8080"));
    set(&mut env, "OLLAMA_HOST", String::from_str("localhost"));
    set(&mut env, "OLLAMA_PORT", crate::text::decimal_string(settings.ollama_port as u64));
    set(&mut env, "WHISPER_MODEL", settings.whisper_model.clone());
    set(
        &mut env,
        "USE_GPU",
        if settings.use_gpu {
            String::from_str("true")
        } else {
            String::from_str("false")
        },
    );
    set(&mut env, "OLLAMA_MODEL", settings.ollama_model.clone());
    set(&mut env, "AUDIO_STORAGE_DIR", settings.audio_storage_dir.clone());
    set(&mut env, "TEMP_AUDIO_DIR", settings.temp_audio_dir.clone());
    set(&mut env, "CORS_ALLOW_ORIGINS", String::from_str(CORS_ALLOW_ORIGINS));
    set(&mut env, "LOG_LEVEL", String::from_str("INFO"));
    assert(environment_view(env@) =~= seq![
        ("PORT"@, "8080"@),
        ("OLLAMA_HOST"@, "localhost"@),
        ("OLLAMA_PORT"@, crate::text::decimal(settings.ollama_port as nat)),
        ("WHISPER_MODEL"@, settings.whisper_model@),
        ("USE_GPU"@, bool_text(settings.use_gpu)),
        ("OLLAMA_MODEL"@, settings.ollama_model@),
        ("AUDIO_STORAGE_DIR"@, settings.audio_storage_dir@),
        ("TEMP_AUDIO_DIR"@, settings.temp_audio_dir@),
        ("CORS_ALLOW_ORIGINS"@, CORS_ALLOW_ORIGINS@),
        ("LOG_LEVEL"@, "INFO"@),
    ]);
    match &settings.deepfilter {
        Some((bin_path, model_path)) => {
            let ghost base = environment_view(env@);
            set(&mut env, "DEEPFILTERNET_ENABLED", String::from_str("true"));
            set(&mut env, "DEEPFILTERNET_BIN", bin_path.clone());
            set(&mut env, "DEEPFILTERNET_MODEL", model_path.clone());
            set(&mut env, "DEEPFILTERNET_USE_POSTFILTER", String::from_str("true"));
            assert(environment_view(env@) =~= base + seq![
                ("DEEPFILTERNET_ENABLED"@, "true"@),
                ("DEEPFILTERNET_BIN"@, bin_path@),
                ("DEEPFILTERNET_MODEL"@, model_path@),
                ("DEEPFILTERNET_USE_POSTFILTER"@, "true"@),
            ]);
        },
        None => {},
    }
    env
}

/// The name of the DeepFilterNet binary for a platform, where there is one.
pub fn deepfilter_binary_name(platform: Platform, arch: Arch) -> (name: Option<&'static str>)
    ensures
        match deepfilter_binary_spec(platform, arch) {
            Some(text) => name is Some && name.unwrap()@ == text,
            None => name is None,
        },
{
    match platform {
        Platform::Windows => Some("deep-filter-0.5.6-x86_64-pc-windows-msvc.exe"),
        Platform::MacOs => match arch {
            Arch::Aarch64 => Some("deep-filter-0.5.6-aarch64-apple-darwin"),
            _ => Some("deep-filter-0.5.6-x86_64-apple-darwin"),
        },
        _ => None,
    }
}

} // verus!
