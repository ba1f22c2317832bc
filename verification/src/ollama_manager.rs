//! The supervisor of the locally hosted model server.
//!
//! The supervisor decides and its caller acts: each step of a start-up is
//! handed out as an action, and what the action gave comes back as an event.

use vstd::prelude::*;
use crate::http::{is_success, is_success_code, is_unreadable, Reply};
use crate::text::{concat2, concat3, concat4, str_contains, text_contains};

verus! {

/// A fresh snapshot of the local server.
#[derive(Debug)]
pub struct OllamaStatus {
    pub running: bool,
    pub model_ready: bool,
    pub error: Option<String>,
}

/// The mathematical content of an `OllamaStatus`.
pub ghost struct StatusView {
    pub running: bool,
    pub model_ready: bool,
    pub error: Option<Seq<char>>,
}

impl View for OllamaStatus {
    type V = StatusView;

    open spec fn view(&self) -> StatusView {
        StatusView {
            running: self.running,
            model_ready: self.model_ready,
            error: match self.error {
                Some(text) => Some(text@),
                None => None,
            },
        }
    }
}

impl StatusView {
    /// A server that does not run is reported with an error, and a model is
    /// ready only on a running server whose catalog could be read: then no
    /// error is reported.
    pub open spec fn wf(self) -> bool {
        &&& !self.running ==> self.error is Some
        &&& self.model_ready ==> self.running && self.error is None
    }
}

/// The catalog lists a model of the vision family.
pub open spec fn has_vision_model(body: Seq<char>) -> bool {
    ||| text_contains(body, "llava:7b"@)
    ||| text_contains(body, "llava:"@)
    ||| text_contains(body, "llama3.2-vision"@)
}

/// Does the catalog list a model of the vision family?
pub fn lists_vision_model(body: &str) -> (listed: bool)
    ensures
        listed == has_vision_model(body@),
{
    str_contains(body, "llava:7b") || str_contains(body, "llava:") || str_contains(
        body,
        "llama3.2-vision",
    )
}

/// The snapshot that a probe of the catalog stands for: not running where no
/// answer came or one without success; running without a verdict on the model
/// where the catalog could not be read; else running, with the model ready
/// where the catalog lists it.
pub open spec fn status_of(probe: Reply) -> StatusView {
    match probe {
        Reply::Unreachable { cause } => StatusView {
            running: false,
            model_ready: false,
            error: Some("Ollama server not responding: "@ + cause@),
        },
        Reply::Answered { status, status_text, body } => if is_success_code(status) {
            match body {
                Ok(text) => StatusView {
                    running: true,
                    model_ready: has_vision_model(text@),
                    error: None,
                },
                Err(cause) => StatusView {
                    running: true,
                    model_ready: false,
                    error: Some("Ollama response could not be read: "@ + cause@),
                },
            }
        } else {
            StatusView {
                running: false,
                model_ready: false,
                error: Some("Ollama server returned: "@ + status_text@),
            }
        },
    }
}

/// The platform that the server binary is fetched for.
#[derive(Clone, Copy, Debug, PartialEq, Eq, Structural)]
pub enum Platform {
    MacOs,
    Windows,
    Linux,
}

/// Where a start-up stands.
#[derive(Clone, Copy, Debug, PartialEq, Eq, Structural)]
pub enum StartPhase {
    Idle,
    Probing,
    Fetching,
    Preparing,
    Spawning,
    Settling,
}

/// What the caller reports to a start-up.
pub enum StartEvent {
    /// A start is asked for. It begins a start-up afresh, whatever became of
    /// an earlier one.
    Requested,
    /// The liveness probe answered with success, or did not.
    Probed { alive: bool },
    /// The server binary is in place, or could not be had.
    BinaryReady { failure: Option<String> },
    /// The models directory exists, or could not be made.
    DirectoryReady { failure: Option<String> },
    /// The process runs under the given identifier, or could not be spawned.
    Spawned { outcome: Result<u32, String> },
    /// The settle period is over.
    Settled,
}

/// What the caller is to do next.
pub enum StartAction {
    /// The start succeeded; nothing is left to do.
    Finished,
    /// Probe the liveness endpoint.
    Probe,
    /// Make sure the server binary is in place.
    EnsureBinary,
    /// Create the models directory.
    CreateModelsDir,
    /// Spawn the server process.
    Spawn,
    /// Wait for the given number of seconds.
    Settle { seconds: u64 },
    /// The start failed for the given reason.
    Failed { reason: String },
    /// The event does not belong to the step that is under way.
    Ignored,
}

/// The mathematical content of a `StartAction`.
pub ghost enum ActionView {
    Finished,
    Probe,
    EnsureBinary,
    CreateModelsDir,
    Spawn,
    Settle { seconds: u64 },
    Failed { reason: Seq<char> },
    Ignored,
}

impl View for StartAction {
    type V = ActionView;

    open spec fn view(&self) -> ActionView {
        match *self {
            StartAction::Finished => ActionView::Finished,
            StartAction::Probe => ActionView::Probe,
            StartAction::EnsureBinary => ActionView::EnsureBinary,
            StartAction::CreateModelsDir => ActionView::CreateModelsDir,
            StartAction::Spawn => ActionView::Spawn,
            StartAction::Settle { seconds } => ActionView::Settle { seconds },
            StartAction::Failed { reason } => ActionView::Failed { reason: reason@ },
            StartAction::Ignored => ActionView::Ignored,
        }
    }
}

/// The seconds that a spawned server is given to bind its socket.
pub const SETTLE_SECONDS: u64 = 2;

/// One step of a start-up: the process held, the phase and the action that
/// follow from the process held, the phase and an event.
pub open spec fn start_step(process: Option<u32>, phase: StartPhase, event: StartEvent) -> (
    Option<u32>,
    StartPhase,
    ActionView,
) {
    match (phase, event) {
        (_, StartEvent::Requested) => if process is Some {
            (process, StartPhase::Idle, ActionView::Finished)
        } else {
            (process, StartPhase::Probing, ActionView::Probe)
        },
        (StartPhase::Probing, StartEvent::Probed { alive }) => if alive {
            (process, StartPhase::Idle, ActionView::Finished)
        } else {
            (process, StartPhase::Fetching, ActionView::EnsureBinary)
        },
        (StartPhase::Fetching, StartEvent::BinaryReady { failure }) => match failure {
            Some(reason) => (process, StartPhase::Idle, ActionView::Failed { reason: reason@ }),
            None => (process, StartPhase::Preparing, ActionView::CreateModelsDir),
        },
        (StartPhase::Preparing, StartEvent::DirectoryReady { failure }) => match failure {
            Some(reason) => (process, StartPhase::Idle, ActionView::Failed { reason: reason@ }),
            None => (process, StartPhase::Spawning, ActionView::Spawn),
        },
        (StartPhase::Spawning, StartEvent::Spawned { outcome }) => match outcome {
            Ok(pid) => (
                Some(pid),
                StartPhase::Settling,
                ActionView::Settle { seconds: SETTLE_SECONDS },
            ),
            Err(cause) => (
                process,
                StartPhase::Idle,
                ActionView::Failed { reason: "Failed to start Ollama: "@ + cause@ },
            ),
        },
        (StartPhase::Settling, StartEvent::Settled) => (
            process,
            StartPhase::Idle,
            ActionView::Finished,
        ),
        _ => (process, phase, ActionView::Ignored),
    }
}

/// A process is held only between its spawn and the next start-up.
pub open spec fn consistent(process: Option<u32>, phase: StartPhase) -> bool {
    process is Some ==> phase == StartPhase::Idle || phase == StartPhase::Settling
}

/// The step records a spawned process.
pub open spec fn records_process(phase: StartPhase, event: StartEvent) -> bool {
    &&& phase == StartPhase::Spawning
    &&& event matches StartEvent::Spawned { outcome }
    &&& outcome is Ok
}

/// The number of processes that a run of events records.
pub open spec fn processes_recorded(
    process: Option<u32>,
    phase: StartPhase,
    events: Seq<StartEvent>,
) -> nat
    decreases events.len(),
{
    if events.len() == 0 {
        0
    } else {
        let (next_process, next_phase, _) = start_step(process, phase, events[0]);
        let here: nat = if records_process(phase, events[0]) {
            1
        } else {
            0
        };
        here + processes_recorded(next_process, next_phase, events.drop_first())
    }
}

/// The number of times that a run of events asks for a spawn.
pub open spec fn spawns_asked(process: Option<u32>, phase: StartPhase, events: Seq<StartEvent>)
    -> nat
    decreases events.len(),
{
    if events.len() == 0 {
        0
    } else {
        let (next_process, next_phase, action) = start_step(process, phase, events[0]);
        let here: nat = if action is Spawn {
            1
        } else {
            0
        };
        here + spawns_asked(next_process, next_phase, events.drop_first())
    }
}

/// Every step keeps the supervisor consistent.
pub proof fn lemma_step_keeps_consistent(process: Option<u32>, phase: StartPhase, event: StartEvent)
    requires
        consistent(process, phase),
    ensures
        consistent(start_step(process, phase, event).0, start_step(process, phase, event).1),
{
}

/// While a process is held, no step asks for a spawn, records a process or
/// lets go of the one held.
pub proof fn lemma_held_process_is_kept(process: Option<u32>, phase: StartPhase, event: StartEvent)
    requires
        consistent(process, phase),
        process is Some,
    ensures
        !(start_step(process, phase, event).2 is Spawn),
        !records_process(phase, event),
        start_step(process, phase, event).0 == process,
{
}

/// Whatever is asked of a supervisor, and however often, without a stop in
/// between it records at most one process; and one that holds a process
/// records none and asks for no spawn.
pub proof fn lemma_at_most_one_process(
    process: Option<u32>,
    phase: StartPhase,
    events: Seq<StartEvent>,
)
    requires
        consistent(process, phase),
    ensures
        processes_recorded(process, phase, events) <= 1,
        process is Some ==> processes_recorded(process, phase, events) == 0,
        process is Some ==> spawns_asked(process, phase, events) == 0,
    decreases events.len(),
{
    if events.len() > 0 {
        let (next_process, next_phase, _) = start_step(process, phase, events[0]);
        lemma_step_keeps_consistent(process, phase, events[0]);
        lemma_at_most_one_process(next_process, next_phase, events.drop_first());
        if process is Some {
            lemma_held_process_is_kept(process, phase, events[0]);
        }
    }
}

/// A start that finds a server answering finishes with success at once: it
/// asks for no spawn, records no process and holds no more than before.
pub proof fn lemma_answering_server_is_used(process: Option<u32>)
    ensures
        start_step(process, StartPhase::Probing, StartEvent::Probed { alive: true }) == (
            process,
            StartPhase::Idle,
            ActionView::Finished,
        ),
        spawns_asked(
            process,
            StartPhase::Idle,
            seq![StartEvent::Requested, StartEvent::Probed { alive: true }],
        ) == 0,
        processes_recorded(
            process,
            StartPhase::Idle,
            seq![StartEvent::Requested, StartEvent::Probed { alive: true }],
        ) == 0,
{
    let events = seq![StartEvent::Requested, StartEvent::Probed { alive: true }];
    let rest = events.drop_first();
    assert(rest.len() == 1);
    assert(rest[0] == events[1]);
    assert(rest.drop_first().len() == 0);
    let (asked, asked_phase, _) = start_step(process, StartPhase::Idle, events[0]);
    let (probed, probed_phase, _) = start_step(asked, asked_phase, rest[0]);
    assert(spawns_asked(probed, probed_phase, rest.drop_first()) == 0);
    assert(processes_recorded(probed, probed_phase, rest.drop_first()) == 0);
    assert(spawns_asked(asked, asked_phase, rest) == 0);
    assert(processes_recorded(asked, asked_phase, rest) == 0);
}

/// What is to be done about the server binary.
pub enum DownloadPlan {
    /// The binary is in place at the path.
    Present { path: String },
    /// Fetch the binary from `url`, write it to `path` and make it executable
    /// with the permission bits `mode`.
    Fetch { url: String, path: String, mode: u32 },
}

/// A probe of the local server, ready to be sent.
pub struct ProbeCall {
    pub url: String,
    pub timeout_ms: u64,
}

/// The process to spawn for the local server.
pub struct SpawnCommand {
    pub program: String,
    pub argument: String,
    /// The directory that `OLLAMA_MODELS` names.
    pub models_dir: String,
    /// The address that `OLLAMA_HOST` names.
    pub host: String,
}

/// The timeout of a probe, in milliseconds.
pub const PROBE_TIMEOUT_MS: u64 = 2000;

/// What is to be done about a model.
pub enum PullPlan {
    /// The model is on disk; no request is made.
    AlreadyPresent,
    /// Post a pull request for the model to `url`; the body names the model
    /// and asks for no streaming.
    Request { url: String, name: String, stream: bool },
}

/// The supervisor of the local server: the process it holds and where it
/// keeps the server's files.
pub struct OllamaManager {
    process: Option<u32>,
    phase: StartPhase,
    data_dir: String,
}

/// The release that the platform's binary is fetched from.
pub open spec fn release_url(platform: Platform) -> Seq<char> {
    match platform {
        Platform::MacOs => "https://github.com/ollama/ollama/releases/download/v0.4.7/ollama-darwin"@,
        Platform::Windows => "https://github.com/ollama/ollama/releases/download/v0.4.7/ollama-windows-amd64.exe"@,
        Platform::Linux => "https://github.com/ollama/ollama/releases/download/v0.4.7/ollama-linux-amd64"@,
    }
}

/// The file name of the platform's binary.
pub open spec fn binary_name(platform: Platform) -> Seq<char> {
    match platform {
        Platform::Windows => "ollama.exe"@,
        _ => "ollama"@,
    }
}

/// The outcome of fetching the server binary: success where the release
/// answered with success and its body could be read, else the failure with
/// its cause.
pub open spec fn download_outcome(reply: Reply) -> Result<(), Seq<char>> {
    match reply {
        Reply::Unreachable { cause } => Err("Failed to download Ollama: "@ + cause@),
        Reply::Answered { status, status_text, body } => if !is_success_code(status) {
            Err("Failed to download Ollama: "@ + status_text@)
        } else {
            match body {
                Ok(_) => Ok(()),
                Err(cause) => Err("Failed to read download: "@ + cause@),
            }
        },
    }
}

/// The outcome of a pull request.
pub open spec fn pull_outcome(reply: Reply) -> Result<(), Seq<char>> {
    match reply {
        Reply::Unreachable { cause } => Err("Failed to pull model: "@ + cause@),
        Reply::Answered { status, status_text, body } => if is_success_code(status) {
            Ok(())
        } else {
            Err("Failed to pull model: "@ + status_text@)
        },
    }
}

impl OllamaManager {
    /// The process that the supervisor holds.
    pub closed spec fn process(&self) -> Option<u32> {
        self.process
    }

    /// Where the start-up stands.
    pub closed spec fn phase(&self) -> StartPhase {
        self.phase
    }

    /// The directory that holds the server's files.
    pub closed spec fn data_dir(&self) -> Seq<char> {
        self.data_dir@
    }

    /// A process is held only between its spawn and the next start-up.
    pub open spec fn wf(&self) -> bool {
        consistent(self.process(), self.phase())
    }

    /// The directory that holds the models.
    pub open spec fn models_dir_spec(&self) -> Seq<char> {
        self.data_dir() + "/models"@
    }

    /// A supervisor that holds no process, with its files under the user's
    /// home directory, or under `/tmp` where there is none.
    pub fn new(home: Option<String>) -> (manager: OllamaManager)
        ensures
            manager.wf(),
            manager.process() is None,
            manager.phase() == StartPhase::Idle,
            manager.data_dir() == (match home {
                Some(dir) => dir@,
                None => "/tmp"@,
            }) + "/.live-vision-analyzer/ollama"@,
    {
        let data_dir = match &home {
            Some(dir) => concat2(dir.as_str(), "/.live-vision-analyzer/ollama"),
            None => concat2("/tmp", "/.live-vision-analyzer/ollama"),
        };
        OllamaManager { process: None, phase: StartPhase::Idle, data_dir }
    }

    /// The identifier of the process held, if one is held.
    pub fn process_id(&self) -> (pid: Option<u32>)
        ensures
            pid == self.process(),
    {
        self.process
    }

    /// The phase of the start-up under way.
    pub fn start_phase(&self) -> (phase: StartPhase)
        ensures
            phase == self.phase(),
    {
        self.phase
    }

    /// The directory that holds the server's files.
    pub fn data_directory(&self) -> (path: &str)
        ensures
            path@ == self.data_dir(),
    {
        self.data_dir.as_str()
    }

    /// The directory that holds the models.
    pub fn models_dir(&self) -> (path: String)
        ensures
            path@ == self.models_dir_spec(),
    {
        concat2(self.data_dir.as_str(), "/models")
    }

    /// The path of the server binary for the platform.
    pub fn binary_path(&self, platform: Platform) -> (path: String)
        ensures
            path@ == self.data_dir() + "/bin/"@ + binary_name(platform),
    {
        match platform {
            Platform::Windows => concat3(self.data_dir.as_str(), "/bin/", "ollama.exe"),
            _ => concat3(self.data_dir.as_str(), "/bin/", "ollama"),
        }
    }

    /// The manifest whose presence shows that the model is on disk.
    pub fn manifest_path(&self, model_name: &str) -> (path: String)
        ensures
            path@ == self.data_dir() + "/models"@ + "/manifests/registry.ollama.ai/library/"@
                + model_name@,
    {
        concat4(
            self.data_dir.as_str(),
            "/models",
            "/manifests/registry.ollama.ai/library/",
            model_name,
        )
    }

    /// Did the liveness probe find a server? One that answers with a status
    /// of success counts, whoever started it.
    pub fn is_alive(reply: &Reply) -> (alive: bool)
        ensures
            alive == (match *reply {
                Reply::Answered { status, status_text, body } => is_success_code(status),
                Reply::Unreachable { cause } => false,
            }),
    {
        match reply {
            Reply::Answered { status, status_text, body } => is_success(*status),
            Reply::Unreachable { cause } => false,
        }
    }

    /// The probe that tells whether a server answers at all.
    pub fn liveness_probe() -> (call: ProbeCall)
        ensures
            call.url@ == "http://127.0.0.1:11434/api/version"@,
            call.timeout_ms == PROBE_TIMEOUT_MS,
    {
        ProbeCall {
            url: "http://127.0.0.1:11434/api/version".to_owned(),
            timeout_ms: PROBE_TIMEOUT_MS,
        }
    }

    /// The probe that fetches the catalog of models.
    pub fn catalog_probe() -> (call: ProbeCall)
        ensures
            call.url@ == "http://127.0.0.1:11434/api/tags"@,
            call.timeout_ms == PROBE_TIMEOUT_MS,
    {
        ProbeCall { url: "http://127.0.0.1:11434/api/tags".to_owned(), timeout_ms: PROBE_TIMEOUT_MS }
    }

    /// The process to spawn: the binary serving on the fixed address, with
    /// its models in the supervisor's models directory.
    pub fn spawn_command(&self, binary: String) -> (command: SpawnCommand)
        ensures
            command.program@ == binary@,
            command.argument@ == "serve"@,
            command.models_dir@ == self.models_dir_spec(),
            command.host@ == "127.0.0.1:11434"@,
    {
        SpawnCommand {
            program: binary,
            argument: "serve".to_owned(),
            models_dir: self.models_dir(),
            host: "127.0.0.1:11434".to_owned(),
        }
    }

    /// What is to be done about the server binary: nothing where it is
    /// present, else a fetch from the platform's release.
    pub fn download_ollama(&self, platform: Platform, present: bool) -> (plan: DownloadPlan)
        ensures
            match plan {
                DownloadPlan::Present { path } => present && path@ == self.data_dir() + "/bin/"@
                    + binary_name(platform),
                DownloadPlan::Fetch { url, path, mode } => !present && url@ == release_url(
                    platform,
                ) && path@ == self.data_dir() + "/bin/"@ + binary_name(platform) && mode
                    == 0o755,
            },
    {
        let path = self.binary_path(platform);
        if present {
            return DownloadPlan::Present { path };
        }
        let url = match platform {
            Platform::MacOs => "https://github.com/ollama/ollama/releases/download/v0.4.7/ollama-darwin",
            Platform::Windows => "https://github.com/ollama/ollama/releases/download/v0.4.7/ollama-windows-amd64.exe",
            Platform::Linux => "https://github.com/ollama/ollama/releases/download/v0.4.7/ollama-linux-amd64",
        };
        DownloadPlan::Fetch { url: url.to_owned(), path, mode: 0o755 }
    }

    /// The outcome of fetching the server binary. Only on success is the file
    /// to be written: what a release answers without success is no binary.
    pub fn download_result(reply: &Reply) -> (outcome: Result<(), String>)
        ensures
            outcome is Ok <==> (*reply matches Reply::Answered { status, status_text, body }
                && is_success_code(status) && body is Ok),
            match outcome {
                Ok(_) => download_outcome(*reply) is Ok,
                Err(message) => download_outcome(*reply) == Err::<(), Seq<char>>(message@),
            },
    {
        match reply {
            Reply::Unreachable { cause } => Err(
                concat2("Failed to download Ollama: ", cause.as_str()),
            ),
            Reply::Answered { status, status_text, body } => {
                if !is_success(*status) {
                    return Err(concat2("Failed to download Ollama: ", status_text.as_str()));
                }
                match body {
                    Ok(_) => Ok(()),
                    Err(cause) => Err(concat2("Failed to read download: ", cause.as_str())),
                }
            },
        }
    }

    /// One step of a start-up. A start that finds a process held finishes at
    /// once; one that finds a server answering finishes without a spawn.
    pub fn start(&mut self, event: StartEvent) -> (action: StartAction)
        ensures
            (final(self).process(), final(self).phase(), action@) == start_step(
                old(self).process(),
                old(self).phase(),
                event,
            ),
            final(self).data_dir() == old(self).data_dir(),
            old(self).wf() ==> final(self).wf(),
            old(self).process() is Some && old(self).wf() ==> !(action is Spawn),
            old(self).process() is Some && old(self).wf() ==> final(self).process()
                == old(self).process(),
    {
        match (self.phase, event) {
            (_, StartEvent::Requested) => {
                if self.process.is_some() {
                    self.phase = StartPhase::Idle;
                    StartAction::Finished
                } else {
                    self.phase = StartPhase::Probing;
                    StartAction::Probe
                }
            },
            (StartPhase::Probing, StartEvent::Probed { alive }) => {
                if alive {
                    self.phase = StartPhase::Idle;
                    StartAction::Finished
                } else {
                    self.phase = StartPhase::Fetching;
                    StartAction::EnsureBinary
                }
            },
            (StartPhase::Fetching, StartEvent::BinaryReady { failure }) => match failure {
                Some(reason) => {
                    self.phase = StartPhase::Idle;
                    StartAction::Failed { reason }
                },
                None => {
                    self.phase = StartPhase::Preparing;
                    StartAction::CreateModelsDir
                },
            },
            (StartPhase::Preparing, StartEvent::DirectoryReady { failure }) => match failure {
                Some(reason) => {
                    self.phase = StartPhase::Idle;
                    StartAction::Failed { reason }
                },
                None => {
                    self.phase = StartPhase::Spawning;
                    StartAction::Spawn
                },
            },
            (StartPhase::Spawning, StartEvent::Spawned { outcome }) => match outcome {
                Ok(pid) => {
                    self.process = Some(pid);
                    self.phase = StartPhase::Settling;
                    StartAction::Settle { seconds: SETTLE_SECONDS }
                },
                Err(cause) => {
                    self.phase = StartPhase::Idle;
                    StartAction::Failed {
                        reason: concat2("Failed to start Ollama: ", cause.as_str()),
                    }
                },
            },
            (StartPhase::Settling, StartEvent::Settled) => {
                self.phase = StartPhase::Idle;
                StartAction::Finished
            },
            _ => StartAction::Ignored,
        }
    }

    /// What is to be done about a model: nothing where its manifest is on
    /// disk, else one pull request.
    pub fn pull_model(&self, model_name: &str, manifest_present: bool) -> (plan: PullPlan)
        ensures
            match plan {
                PullPlan::AlreadyPresent => manifest_present,
                PullPlan::Request { url, name, stream } => !manifest_present && url@
                    == "http://127.0.0.1:11434/api/pull"@ && name@ == model_name@ && !stream,
            },
    {
        if manifest_present {
            PullPlan::AlreadyPresent
        } else {
            PullPlan::Request {
                url: "http://127.0.0.1:11434/api/pull".to_owned(),
                name: model_name.to_owned(),
                stream: false,
            }
        }
    }

    /// The outcome of a pull request: success on a status of success, else
    /// the failure with its cause.
    pub fn pull_result(reply: &Reply) -> (outcome: Result<(), String>)
        ensures
            match outcome {
                Ok(_) => pull_outcome(*reply) is Ok,
                Err(message) => pull_outcome(*reply) == Err::<(), Seq<char>>(message@),
            },
    {
        match reply {
            Reply::Unreachable { cause } => Err(concat2("Failed to pull model: ", cause.as_str())),
            Reply::Answered { status, status_text, body } => {
                if is_success(*status) {
                    Ok(())
                } else {
                    Err(concat2("Failed to pull model: ", status_text.as_str()))
                }
            },
        }
    }

    /// The snapshot that a probe of the catalog stands for. It needs no
    /// supervisor: a status is taken without holding one. An error is
    /// reported exactly when the server does not run or its catalog could not
    /// be read.
    pub fn check_status(probe: &Reply) -> (status: OllamaStatus)
        ensures
            status@ == status_of(*probe),
            status@.wf(),
            status@.model_ready <==> (match *probe {
                Reply::Answered { status, status_text, body } => is_success_code(status)
                    && body is Ok && has_vision_model(body.unwrap()@),
                Reply::Unreachable { cause } => false,
            }),
            status@.error is Some <==> !status@.running || is_unreadable(*probe),
            status@.running && status@.error is Some ==> !status@.model_ready,
            status@.error is Some ==> status@.error.unwrap().len() > 0,
    {
        match probe {
            Reply::Unreachable { cause } => {
                proof {
                    reveal_strlit("Ollama server not responding: ");
                }
                OllamaStatus {
                    running: false,
                    model_ready: false,
                    error: Some(concat2("Ollama server not responding: ", cause.as_str())),
                }
            },
            Reply::Answered { status, status_text, body } => {
                if !is_success(*status) {
                    proof {
                        reveal_strlit("Ollama server returned: ");
                    }
                    return OllamaStatus {
                        running: false,
                        model_ready: false,
                        error: Some(concat2("Ollama server returned: ", status_text.as_str())),
                    };
                }
                match body {
                    Ok(text) => OllamaStatus {
                        running: true,
                        model_ready: lists_vision_model(text.as_str()),
                        error: None,
                    },
                    Err(cause) => {
                        proof {
                            reveal_strlit("Ollama response could not be read: ");
                        }
                        OllamaStatus {
                            running: true,
                            model_ready: false,
                            error: Some(
                                concat2("Ollama response could not be read: ", cause.as_str()),
                            ),
                        }
                    },
                }
            },
        }
    }

    /// Lets go of the process held and hands out its identifier, for the
    /// caller to kill. With no process held nothing changes.
    pub fn stop(&mut self) -> (released: Option<u32>)
        ensures
            released == old(self).process(),
            final(self).process() is None,
            final(self).wf(),
            final(self).phase() == old(self).phase(),
            final(self).data_dir() == old(self).data_dir(),
    {
        self.process.take()
    }
}

} // verus!
