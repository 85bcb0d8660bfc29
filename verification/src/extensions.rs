//! Enabling the extensions of a session.
use vstd::prelude::*;

use crate::agent::{Agent, AgentView, ToolInfo};
use crate::error::{Error, ErrorView};
use crate::host::{ExtensionQueueModeState, HostState, HostStateView};
use crate::text::{chars_of, decimal, decimal_of, owned, same_text};

verus! {

/// The engine that an extension runs on.
#[derive(Debug, Clone, Copy, PartialEq, Eq, Structural)]
pub enum RuntimeKind {
    Js,
    NativeRust,
}

/// How broken extensions are to be repaired, as settings have it.
#[derive(Debug, Clone, Copy, PartialEq, Eq, Structural)]
pub enum RepairPolicyMode {
    Off,
    Suggest,
    AutoSafe,
    AutoStrict,
}

/// How broken extensions are to be repaired, as the engine has it.
#[derive(Debug, Clone, Copy, PartialEq, Eq, Structural)]
pub enum RepairMode {
    Off,
    Suggest,
    AutoSafe,
    AutoStrict,
}

/// The engine's repair mode for a setting.
pub open spec fn repair_mode(mode: RepairPolicyMode) -> RepairMode {
    match mode {
        RepairPolicyMode::Off => RepairMode::Off,
        RepairPolicyMode::Suggest => RepairMode::Suggest,
        RepairPolicyMode::AutoSafe => RepairMode::AutoSafe,
        RepairPolicyMode::AutoStrict => RepairMode::AutoStrict,
    }
}

/// The engine's repair mode for a setting.
pub fn runtime_repair_mode(mode: RepairPolicyMode) -> (r: RepairMode)
    ensures
        r == repair_mode(mode),
{
    match mode {
        RepairPolicyMode::Off => RepairMode::Off,
        RepairPolicyMode::Suggest => RepairMode::Suggest,
        RepairPolicyMode::AutoSafe => RepairMode::AutoSafe,
        RepairPolicyMode::AutoStrict => RepairMode::AutoStrict,
    }
}

/// The repair setting that counts: the one given, else the configured one, else safe repairs.
pub open spec fn repair_policy(
    given: Option<RepairPolicyMode>,
    configured: Option<RepairPolicyMode>,
) -> RepairPolicyMode {
    match given {
        Some(mode) => mode,
        None => match configured {
            Some(mode) => mode,
            None => RepairPolicyMode::AutoSafe,
        },
    }
}

/// The policy that extensions run under: the one given, else the configured one, else the fallback.
pub fn resolve_extension_policy_for_enable<P>(
    given: Option<P>,
    configured: Option<P>,
    fallback: P,
) -> (r: P)
    ensures
        r == (match given {
            Some(policy) => policy,
            None => match configured {
                Some(policy) => policy,
                None => fallback,
            },
        }),
{
    match given {
        Some(policy) => policy,
        None => match configured {
            Some(policy) => policy,
            None => fallback,
        },
    }
}

/// A memory limit in bytes for one in mebibytes; what is too much for the machine becomes its
/// maximum, and zero means that there is no limit.
pub open spec fn memory_limit(max_memory_mb: u32) -> Option<usize> {
    let bytes = max_memory_mb * 1_048_576;
    if bytes == 0 {
        None
    } else if bytes > usize::MAX {
        Some(usize::MAX)
    } else {
        Some(bytes as usize)
    }
}

/// A memory limit in bytes for one in mebibytes.
pub fn memory_limit_bytes(max_memory_mb: u32) -> (r: Option<usize>)
    ensures
        r == memory_limit(max_memory_mb),
{
    let bytes: usize = match (max_memory_mb as usize).checked_mul(1_048_576) {
        Some(b) => b,
        None => usize::MAX,
    };
    if bytes > 0 {
        Some(bytes)
    } else {
        None
    }
}

/// How the engine is to run.
#[derive(Debug, Clone, Copy, PartialEq, Eq, Structural)]
pub struct RuntimeSettings {
    pub repair: RepairMode,
    pub memory_limit_bytes: Option<usize>,
}

/// How the engine is to run, from the settings.
pub fn resolve_runtime_settings(
    given: Option<RepairPolicyMode>,
    configured: Option<RepairPolicyMode>,
    max_memory_mb: u32,
) -> (r: RuntimeSettings)
    ensures
        r.repair == repair_mode(repair_policy(given, configured)),
        r.memory_limit_bytes == memory_limit(max_memory_mb),
{
    let policy = match given {
        Some(mode) => mode,
        None => match configured {
            Some(mode) => mode,
            None => RepairPolicyMode::AutoSafe,
        },
    };
    RuntimeSettings {
        repair: runtime_repair_mode(policy),
        memory_limit_bytes: memory_limit_bytes(max_memory_mb),
    }
}

/// What enabling extensions waits for.
#[derive(Debug, Clone, Copy, PartialEq, Eq, Structural)]
pub enum EnablePhase {
    /// What kind of extension an entry is.
    Resolve,
    /// The engine.
    Runtime,
    /// That the extensions on the JavaScript engine are loaded.
    LoadJs,
    /// That the native extensions are loaded.
    LoadNative,
    /// What was repaired while loading.
    Repairs,
    /// Where the session is kept.
    SessionPath,
    /// That extensions were told of the start.
    Startup,
    /// That extensions were told of the session.
    SessionStart,
    /// The tools that extensions bring.
    Tools,
    /// Nothing more.
    Done,
}

/// An engine that was started ahead of time.
#[derive(Debug, Clone, Copy, PartialEq, Eq, Structural)]
pub struct PreWarmedExtensionRuntime {
    pub runtime: RuntimeKind,
}

/// Enabling the extensions of a session. Entries are named by their position.
#[derive(Debug)]
pub struct Enabling {
    pub entries: usize,
    /// How many entries are known by kind.
    pub resolved: usize,
    pub js: Vec<usize>,
    pub native: Vec<usize>,
    /// The engine that was started ahead of time, if one was.
    pub prewarmed: Option<PreWarmedExtensionRuntime>,
    pub phase: EnablePhase,
}

/// The mathematical value of [`Enabling`].
#[verifier::ext_equal]
pub struct EnablingView {
    pub entries: usize,
    pub resolved: usize,
    pub js: Seq<usize>,
    pub native: Seq<usize>,
    pub prewarmed: Option<PreWarmedExtensionRuntime>,
    pub phase: EnablePhase,
}

impl View for Enabling {
    type V = EnablingView;

    open spec fn view(&self) -> EnablingView {
        EnablingView {
            entries: self.entries,
            resolved: self.resolved,
            js: self.js@,
            native: self.native@,
            prewarmed: self.prewarmed,
            phase: self.phase,
        }
    }
}

impl EnablingView {
    /// No more entries are known by kind than there are.
    pub open spec fn wf(self) -> bool {
        &&& self.resolved <= self.entries
        &&& self.phase == EnablePhase::Resolve ==> self.resolved < self.entries
    }

    /// The engine that the entries need.
    pub open spec fn wanted(self) -> RuntimeKind {
        if self.js.len() > 0 {
            RuntimeKind::Js
        } else {
            RuntimeKind::NativeRust
        }
    }
}

/// What enabling extensions answers to.
#[derive(Debug, PartialEq, Eq)]
pub enum EnableInput {
    /// What kind of extension an entry is.
    Resolved(Result<RuntimeKind, Error>),
    /// Whether the engine runs.
    Runtime(Result<(), Error>),
    /// Whether the extensions are loaded.
    Loaded(Result<(), Error>),
    /// That repairs were reported.
    Repairs,
    /// Whether the session could be asked where it is kept.
    SessionPath(Result<(), Error>),
    /// That extensions were told, or could not be told, of something.
    Told,
    /// The tools that extensions bring.
    Tools(Result<Vec<ToolInfo>, Error>),
}

/// What enabling extensions asks for next.
#[derive(Debug, PartialEq, Eq)]
pub enum EnableAction {
    /// Find out what kind of extension an entry is.
    Resolve(usize),
    /// Use the engine that was started ahead of time.
    AdoptRuntime(RuntimeKind),
    /// Start an engine; the flag says that one was started ahead of time that does not fit.
    StartRuntime(RuntimeKind, bool),
    /// Load extensions on the JavaScript engine.
    LoadJs(Vec<usize>),
    /// Load native extensions.
    LoadNative(Vec<usize>),
    /// Report what was repaired.
    DrainRepairs,
    /// Ask the session where it is kept.
    ReadSessionPath,
    /// Tell extensions of the start.
    DispatchStartup,
    /// Tell extensions of the session.
    DispatchSessionStart,
    /// Collect the tools that extensions bring.
    CollectTools,
    /// Extensions are enabled, or there are none, or they could not be enabled.
    Finish(Result<(), Error>),
}

/// The mathematical value of [`EnableAction`].
#[verifier::ext_equal]
pub enum EnableActionView {
    Resolve(usize),
    AdoptRuntime(RuntimeKind),
    StartRuntime(RuntimeKind, bool),
    LoadJs(Seq<usize>),
    LoadNative(Seq<usize>),
    DrainRepairs,
    ReadSessionPath,
    DispatchStartup,
    DispatchSessionStart,
    CollectTools,
    Finished,
    Failed(ErrorView),
}

impl View for EnableAction {
    type V = EnableActionView;

    open spec fn view(&self) -> EnableActionView {
        match *self {
            EnableAction::Resolve(i) => EnableActionView::Resolve(i),
            EnableAction::AdoptRuntime(k) => EnableActionView::AdoptRuntime(k),
            EnableAction::StartRuntime(k, b) => EnableActionView::StartRuntime(k, b),
            EnableAction::LoadJs(v) => EnableActionView::LoadJs(v@),
            EnableAction::LoadNative(v) => EnableActionView::LoadNative(v@),
            EnableAction::DrainRepairs => EnableActionView::DrainRepairs,
            EnableAction::ReadSessionPath => EnableActionView::ReadSessionPath,
            EnableAction::DispatchStartup => EnableActionView::DispatchStartup,
            EnableAction::DispatchSessionStart => EnableActionView::DispatchSessionStart,
            EnableAction::CollectTools => EnableActionView::CollectTools,
            EnableAction::Finish(r) => match r {
                Ok(_) => EnableActionView::Finished,
                Err(e) => EnableActionView::Failed(e@),
            },
        }
    }
}

/// How a session and its extensions stand to each other.
#[derive(Debug, Clone, Copy, PartialEq, Eq, Structural)]
pub struct ExtensionLink {
    /// Whether extensions are enabled.
    pub enabled: bool,
    /// The delivery modes that extensions see, once they are connected.
    pub modes: Option<ExtensionQueueModeState>,
}

/// Enabling extensions together with all that it changes: the agent, what extensions share with the
/// session, and how they stand to each other.
#[verifier::ext_equal]
pub struct EnableWorld {
    pub run: EnablingView,
    pub agent: AgentView,
    pub host: HostStateView,
    pub link: ExtensionLink,
}

/// What is said of entries that need different engines.
pub open spec fn mixed_engines() -> ErrorView {
    ErrorView::Validation(
        "Mixed extension runtimes are not supported in one session yet. Use either JS/TS extensions (QuickJS) or native-rust descriptors (*.native.json), but not both at once."@,
    )
}

impl EnableWorld {
    /// This world in another phase.
    pub open spec fn in_phase(self, phase: EnablePhase) -> EnableWorld {
        EnableWorld { run: EnablingView { phase, ..self.run }, ..self }
    }

    /// This world at its end, with a failure.
    pub open spec fn failed(self, e: ErrorView) -> (EnableWorld, EnableActionView) {
        (self.in_phase(EnablePhase::Done), EnableActionView::Failed(e))
    }

    /// This world on its way through the entries: once all are known, entries for two engines are
    /// refused, no entries disconnect the extensions, and others need their engine.
    pub open spec fn resolving(self) -> (EnableWorld, EnableActionView) {
        if self.run.resolved < self.run.entries {
            (self.in_phase(EnablePhase::Resolve), EnableActionView::Resolve(self.run.resolved))
        } else if self.run.js.len() > 0 && self.run.native.len() > 0 {
            self.failed(mixed_engines())
        } else if self.run.js.len() == 0 && self.run.native.len() == 0 {
            (
                EnableWorld {
                    link: ExtensionLink { enabled: false, modes: None },
                    ..self
                }.in_phase(EnablePhase::Done),
                EnableActionView::Finished,
            )
        } else {
            (
                self.in_phase(EnablePhase::Runtime),
                if self.run.prewarmed == Some(
                    PreWarmedExtensionRuntime { runtime: self.run.wanted() },
                ) {
                    EnableActionView::AdoptRuntime(self.run.wanted())
                } else {
                    EnableActionView::StartRuntime(self.run.wanted(), self.run.prewarmed is Some)
                },
            )
        }
    }

    /// This world with the extensions connected: their queue is new and follows the agent's modes,
    /// while what waits in earlier queues goes on waiting.
    pub open spec fn connected(self) -> EnableWorld {
        let modes = ExtensionQueueModeState {
            steering_mode: self.agent.queue.steering_mode,
            follow_up_mode: self.agent.queue.follow_up_mode,
        };
        EnableWorld {
            link: ExtensionLink { modes: Some(modes), ..self.link },
            host: self.host.connected(modes),
            ..self
        }
    }

    /// What an input does. An input that the phase does not wait for ends the work as a failure that
    /// changes nothing.
    pub open spec fn step(self, input: EnableInput) -> (EnableWorld, EnableActionView) {
        match (self.run.phase, input) {
            (EnablePhase::Resolve, EnableInput::Resolved(kind)) => match kind {
                Err(e) => self.failed(e@),
                Ok(RuntimeKind::Js) => EnableWorld {
                    run: EnablingView {
                        js: self.run.js.push(self.run.resolved),
                        resolved: (self.run.resolved + 1) as usize,
                        ..self.run
                    },
                    ..self
                }.resolving(),
                Ok(RuntimeKind::NativeRust) => EnableWorld {
                    run: EnablingView {
                        native: self.run.native.push(self.run.resolved),
                        resolved: (self.run.resolved + 1) as usize,
                        ..self.run
                    },
                    ..self
                }.resolving(),
            },
            (EnablePhase::Runtime, EnableInput::Runtime(started)) => match started {
                Err(e) => self.failed(e@),
                Ok(_) => if self.run.js.len() > 0 {
                    (
                        self.connected().in_phase(EnablePhase::LoadJs),
                        EnableActionView::LoadJs(self.run.js),
                    )
                } else {
                    (
                        self.connected().in_phase(EnablePhase::LoadNative),
                        EnableActionView::LoadNative(self.run.native),
                    )
                },
            },
            (EnablePhase::LoadJs | EnablePhase::LoadNative, EnableInput::Loaded(done)) => match done {
                Err(e) => self.failed(e@),
                Ok(_) => (self.in_phase(EnablePhase::Repairs), EnableActionView::DrainRepairs),
            },
            (EnablePhase::Repairs, EnableInput::Repairs) => (
                self.in_phase(EnablePhase::SessionPath),
                EnableActionView::ReadSessionPath,
            ),
            (EnablePhase::SessionPath, EnableInput::SessionPath(done)) => match done {
                Err(e) => self.failed(e@),
                Ok(_) => (self.in_phase(EnablePhase::Startup), EnableActionView::DispatchStartup),
            },
            (EnablePhase::Startup, EnableInput::Told) => (
                self.in_phase(EnablePhase::SessionStart),
                EnableActionView::DispatchSessionStart,
            ),
            (EnablePhase::SessionStart, EnableInput::Told) => (
                self.in_phase(EnablePhase::Tools),
                EnableActionView::CollectTools,
            ),
            (EnablePhase::Tools, EnableInput::Tools(found)) => match found {
                Err(e) => self.failed(e@),
                Ok(tools) => (
                    EnableWorld {
                        agent: AgentView {
                            tools: self.agent.tools + tools.deep_view(),
                            ..self.agent
                        },
                        link: ExtensionLink { enabled: true, ..self.link },
                        ..self
                    }.in_phase(EnablePhase::Done),
                    EnableActionView::Finished,
                ),
            },
            _ => self.failed(ErrorView::Extension("Enabling out of step"@)),
        }
    }
}

/// The world that the parts of it make up.
pub open spec fn enable_world(
    run: Enabling,
    agent: Agent,
    host: HostState,
    link: ExtensionLink,
) -> EnableWorld {
    EnableWorld { run: run@, agent: agent@, host: host@, link }
}

fn copy_indices(v: &Vec<usize>) -> (r: Vec<usize>)
    ensures
        r@ == v@,
{
    let mut r: Vec<usize> = Vec::new();
    let mut i: usize = 0;
    while i < v.len()
        invariant
            i <= v@.len(),
            r@ == v@.take(i as int),
        decreases v@.len() - i,
    {
        r.push(v[i]);
        assert(v@.take(i + 1) =~= v@.take(i as int).push(v@[i as int]));
        i += 1;
    }
    assert(v@.take(i as int) =~= v@);
    r
}

impl Enabling {
    /// Starts to enable the extensions of the given number of entries.
    pub fn start(
        entries: usize,
        prewarmed: Option<PreWarmedExtensionRuntime>,
        agent: &Agent,
        host: &HostState,
        link: &mut ExtensionLink,
    ) -> (r: (Self, EnableAction))
        ensures
            (enable_world(r.0, *agent, *host, *final(link)), r.1@) == (EnableWorld {
                run: EnablingView {
                    entries,
                    resolved: 0,
                    js: Seq::empty(),
                    native: Seq::empty(),
                    prewarmed,
                    phase: EnablePhase::Done,
                },
                agent: agent@,
                host: host@,
                link: *old(link),
            }).resolving(),
            r.0@.wf(),
    {
        let mut run = Enabling {
            entries,
            resolved: 0,
            js: Vec::new(),
            native: Vec::new(),
            prewarmed,
            phase: EnablePhase::Done,
        };
        let action = run.go_on(agent, host, link);
        (run, action)
    }

    fn go_on(&mut self, agent: &Agent, host: &HostState, link: &mut ExtensionLink) -> (action:
        EnableAction)
        requires
            old(self)@.resolved <= old(self)@.entries,
        ensures
            (enable_world(*final(self), *agent, *host, *final(link)), action@) == enable_world(
                *old(self),
                *agent,
                *host,
                *old(link),
            ).resolving(),
            final(self)@.wf(),
    {
        if self.resolved < self.entries {
            self.phase = EnablePhase::Resolve;
            return EnableAction::Resolve(self.resolved);
        }
        if self.js.len() > 0 && self.native.len() > 0 {
            self.phase = EnablePhase::Done;
            return EnableAction::Finish(
                Err(
                    Error::Validation(
                        owned(
                            "Mixed extension runtimes are not supported in one session yet. Use either JS/TS extensions (QuickJS) or native-rust descriptors (*.native.json), but not both at once.",
                        ),
                    ),
                ),
            );
        }
        if self.js.len() == 0 && self.native.len() == 0 {
            *link = ExtensionLink { enabled: false, modes: None };
            self.phase = EnablePhase::Done;
            return EnableAction::Finish(Ok(()));
        }
        let wanted = if self.js.len() > 0 {
            RuntimeKind::Js
        } else {
            RuntimeKind::NativeRust
        };
        self.phase = EnablePhase::Runtime;
        match self.prewarmed {
            Some(ready) => {
                if ready.runtime == wanted {
                    EnableAction::AdoptRuntime(wanted)
                } else {
                    EnableAction::StartRuntime(wanted, true)
                }
            },
            None => EnableAction::StartRuntime(wanted, false),
        }
    }

    fn connect(agent: &Agent, host: &mut HostState, link: &mut ExtensionLink)
        ensures
            forall|run: EnablingView|
                (EnableWorld { run, agent: agent@, host: final(host)@, link: *final(link) })
                    == #[trigger] (EnableWorld {
                    run,
                    agent: agent@,
                    host: old(host)@,
                    link: *old(link),
                }).connected(),
    {
        let (steering_mode, follow_up_mode) = agent.queue_modes();
        let modes = ExtensionQueueModeState { steering_mode, follow_up_mode };
        link.modes = Some(modes);
        host.connect(modes);
    }

    /// Takes one step towards enabled extensions.
    #[verifier::spinoff_prover]
    #[verifier::rlimit(30)]
    pub fn step(
        &mut self,
        input: EnableInput,
        agent: &mut Agent,
        host: &mut HostState,
        link: &mut ExtensionLink,
    ) -> (action: EnableAction)
        requires
            old(self)@.wf(),
        ensures
            (enable_world(*final(self), *final(agent), *final(host), *final(link)), action@)
                == enable_world(*old(self), *old(agent), *old(host), *old(link)).step(input),
            final(self)@.wf(),
            old(agent).wf() ==> final(agent).wf(),
    {
        match (self.phase, input) {
            (EnablePhase::Resolve, EnableInput::Resolved(kind)) => match kind {
                Err(e) => {
                    self.phase = EnablePhase::Done;
                    EnableAction::Finish(Err(e))
                },
                Ok(RuntimeKind::Js) => {
                    self.js.push(self.resolved);
                    self.resolved += 1;
                    self.go_on(agent, host, link)
                },
                Ok(RuntimeKind::NativeRust) => {
                    self.native.push(self.resolved);
                    self.resolved += 1;
                    self.go_on(agent, host, link)
                },
            },
            (EnablePhase::Runtime, EnableInput::Runtime(started)) => match started {
                Err(e) => {
                    self.phase = EnablePhase::Done;
                    EnableAction::Finish(Err(e))
                },
                Ok(_) => {
                    let ghost before = enable_world(*self, *agent, *host, *link);
                    Self::connect(agent, host, link);
                    assert(enable_world(*self, *agent, *host, *link) == before.connected());
                    if self.js.len() > 0 {
                        self.phase = EnablePhase::LoadJs;
                        EnableAction::LoadJs(copy_indices(&self.js))
                    } else {
                        self.phase = EnablePhase::LoadNative;
                        EnableAction::LoadNative(copy_indices(&self.native))
                    }
                },
            },
            (EnablePhase::LoadJs, EnableInput::Loaded(done)) => match done {
                Err(e) => {
                    self.phase = EnablePhase::Done;
                    EnableAction::Finish(Err(e))
                },
                Ok(_) => {
                    self.phase = EnablePhase::Repairs;
                    EnableAction::DrainRepairs
                },
            },
            (EnablePhase::LoadNative, EnableInput::Loaded(done)) => match done {
                Err(e) => {
                    self.phase = EnablePhase::Done;
                    EnableAction::Finish(Err(e))
                },
                Ok(_) => {
                    self.phase = EnablePhase::Repairs;
                    EnableAction::DrainRepairs
                },
            },
            (EnablePhase::Repairs, EnableInput::Repairs) => {
                self.phase = EnablePhase::SessionPath;
                EnableAction::ReadSessionPath
            },
            (EnablePhase::SessionPath, EnableInput::SessionPath(done)) => match done {
                Err(e) => {
                    self.phase = EnablePhase::Done;
                    EnableAction::Finish(Err(e))
                },
                Ok(_) => {
                    self.phase = EnablePhase::Startup;
                    EnableAction::DispatchStartup
                },
            },
            (EnablePhase::Startup, EnableInput::Told) => {
                self.phase = EnablePhase::SessionStart;
                EnableAction::DispatchSessionStart
            },
            (EnablePhase::SessionStart, EnableInput::Told) => {
                self.phase = EnablePhase::Tools;
                EnableAction::CollectTools
            },
            (EnablePhase::Tools, EnableInput::Tools(found)) => {
                self.phase = EnablePhase::Done;
                match found {
                    Err(e) => EnableAction::Finish(Err(e)),
                    Ok(tools) => {
                        agent.extend_tools(tools);
                        link.enabled = true;
                        EnableAction::Finish(Ok(()))
                    },
                }
            },
            _ => {
                self.phase = EnablePhase::Done;
                EnableAction::Finish(Err(Error::Extension(owned("Enabling out of step"))))
            },
        }
    }
}

/// Each entry is resolved once, in order, and counts for the engine that it needs.
pub open spec fn entries_accounted(run: EnablingView) -> bool {
    &&& run.js.len() + run.native.len() == run.resolved
    &&& forall|i: int| 0 <= i < run.js.len() ==> (#[trigger] run.js[i]) < run.resolved
    &&& forall|i: int| 0 <= i < run.native.len() ==> (#[trigger] run.native[i]) < run.resolved
    &&& forall|i: int, j: int| 0 <= i < j < run.js.len() ==> run.js[i] < run.js[j]
    &&& forall|i: int, j: int| 0 <= i < j < run.native.len() ==> run.native[i] < run.native[j]
}

/// Enabling extensions never loads entries for both engines, loads all of them and in order, and
/// extends the tools of the agent only at the very end. Until then the agent is what it was.
pub proof fn enabling_is_orderly(w: EnableWorld, input: EnableInput)
    requires
        w.run.wf(),
        entries_accounted(w.run),
        w.run.phase != EnablePhase::Resolve ==> w.run.resolved == w.run.entries,
        w.run.phase != EnablePhase::Resolve && w.run.phase != EnablePhase::Done ==> w.run.js.len()
            == 0 || w.run.native.len() == 0,
    ensures
        ({
            let (next, action) = w.step(input);
            &&& entries_accounted(next.run)
            &&& action matches EnableActionView::LoadJs(js) ==> js.len() == w.run.entries
                && w.run.native.len() == 0
            &&& action matches EnableActionView::LoadNative(native) ==> native.len()
                == w.run.entries && w.run.js.len() == 0
            &&& !(action is Finished) ==> next.agent == w.agent && next.link.enabled
                == w.link.enabled
            &&& w.run.phase != EnablePhase::Tools ==> next.agent == w.agent
        }),
{
}

/// Enabling extensions loses no message of extensions that were enabled before: what waits in their
/// queues, and what is to be done once the session is idle, stays as it is at every step.
pub proof fn enabling_keeps_waiting_messages(w: EnableWorld, input: EnableInput, connection: nat)
    requires
        connection <= w.host.earlier.len(),
    ensures
        ({
            let next = w.step(input).0;
            &&& next.host.queue_of(connection) == w.host.queue_of(connection)
            &&& next.host.idle == w.host.idle
        }),
{
}

/// A runtime that was started ahead of time is used exactly if it is the one that the entries need.
pub proof fn prewarmed_runtime_is_used_iff_it_fits(w: EnableWorld)
    requires
        w.run.resolved == w.run.entries,
        (w.run.js.len() == 0) != (w.run.native.len() == 0),
    ensures
        w.resolving().1 is AdoptRuntime <==> w.run.prewarmed == Some(
            PreWarmedExtensionRuntime { runtime: w.run.wanted() },
        ),
        w.resolving().1 is AdoptRuntime || w.resolving().1 is StartRuntime,
{
}

/// A repair that was made while an extension was loaded.
#[derive(Debug, PartialEq, Eq)]
pub struct RepairEvent {
    pub extension_id: String,
    pub pattern: String,
    pub repair_action: String,
}

/// Whether a setting asks for details of repairs.
pub open spec fn wants_details(value: Seq<char>) -> bool {
    value == "1"@ || crate::pi_ai::ascii_lower(value) == "true"@
}

/// Whether one text comes before another in the order of their characters.
pub open spec fn comes_before(a: Seq<char>, b: Seq<char>) -> bool
    decreases a.len(),
{
    if b.len() == 0 {
        false
    } else if a.len() == 0 {
        true
    } else if a[0] == b[0] {
        comes_before(a.drop_first(), b.drop_first())
    } else {
        (a[0] as u32) < (b[0] as u32)
    }
}

fn is_before(a: &str, b: &str) -> (r: bool)
    ensures
        r == comes_before(a@, b@),
{
    let x = chars_of(a);
    let y = chars_of(b);
    let mut i: usize = 0;
    assert(a@.skip(0) =~= a@);
    assert(b@.skip(0) =~= b@);
    while i < x.len() && i < y.len()
        invariant
            i <= x@.len(),
            i <= y@.len(),
            x@ == a@,
            y@ == b@,
            comes_before(a@.skip(i as int), b@.skip(i as int)) == comes_before(a@, b@),
        decreases x@.len() - i,
    {
        proof {
            assert(a@.skip(i as int).drop_first() =~= a@.skip(i + 1));
            assert(b@.skip(i as int).drop_first() =~= b@.skip(i + 1));
        }
        let c: char = x[i];
        let d: char = y[i];
        if c != d {
            return (c as u32) < (d as u32);
        }
        i += 1;
    }
    i < y.len()
}

/// How many of the repairs follow a pattern.
pub open spec fn repairs_of(events: Seq<RepairEvent>, pattern: Seq<char>) -> nat
    decreases events.len(),
{
    if events.len() == 0 {
        0
    } else {
        repairs_of(events.drop_last(), pattern) + if events.last().pattern@ == pattern {
            1nat
        } else {
            0nat
        }
    }
}

/// A pattern and how many repairs follow it.
#[derive(Debug, PartialEq, Eq)]
pub struct PatternCount {
    pub pattern: String,
    pub count: usize,
}

/// Whether counts tell of each pattern that occurs, once, in order.
pub open spec fn counts_patterns(counts: Seq<PatternCount>, events: Seq<RepairEvent>) -> bool {
    &&& forall|i: int, j: int|
        0 <= i < j < counts.len() ==> comes_before(
            (#[trigger] counts[i]).pattern@,
            (#[trigger] counts[j]).pattern@,
        )
    &&& forall|i: int|
        0 <= i < counts.len() ==> (#[trigger] counts[i]).count == repairs_of(
            events,
            counts[i].pattern@,
        ) && counts[i].count > 0
    &&& forall|k: int|
        0 <= k < events.len() ==> exists|i: int|
            0 <= i < counts.len() && (#[trigger] counts[i]).pattern@ == (
            #[trigger] events[k]).pattern@
}

proof fn lemma_order_trans(a: Seq<char>, b: Seq<char>, c: Seq<char>)
    requires
        comes_before(a, b),
        comes_before(b, c),
    ensures
        comes_before(a, c),
    decreases a.len(),
{
    if a.len() > 0 && a[0] == b[0] && b[0] == c[0] {
        lemma_order_trans(a.drop_first(), b.drop_first(), c.drop_first());
    }
}

/// Different characters have different numbers.
proof fn lemma_chars_differ(c: char, d: char)
    requires
        c != d,
    ensures
        c as u32 != d as u32,
{
    broadcast use vstd::utf8::char_u32_cast, vstd::utf8::char_is_scalar;

    assert((c as u32) as char == c);
    assert((d as u32) as char == d);
}

proof fn lemma_order_total(a: Seq<char>, b: Seq<char>)
    ensures
        comes_before(a, b) || comes_before(b, a) || a == b,
        !(comes_before(a, b) && comes_before(b, a)),
        comes_before(a, b) ==> a != b,
    decreases a.len(),
{
    if a.len() > 0 && b.len() > 0 {
        if a[0] == b[0] {
            lemma_order_total(a.drop_first(), b.drop_first());
            if a.drop_first() == b.drop_first() {
                assert(a =~= seq![a[0]] + a.drop_first());
                assert(b =~= seq![b[0]] + b.drop_first());
            }
        } else {
            lemma_chars_differ(a[0], b[0]);
        }
    } else if a.len() == 0 && b.len() == 0 {
        assert(a =~= b);
    }
}

proof fn lemma_repairs_occur(events: Seq<RepairEvent>, pattern: Seq<char>)
    ensures
        repairs_of(events, pattern) > 0 ==> exists|k: int|
            0 <= k < events.len() && (#[trigger] events[k]).pattern@ == pattern,
        repairs_of(events, pattern) <= events.len(),
    decreases events.len(),
{
    if events.len() > 0 {
        let fewer = events.drop_last();
        lemma_repairs_occur(fewer, pattern);
        if events.last().pattern@ == pattern {
            assert(events[events.len() - 1].pattern@ == pattern);
        } else if repairs_of(fewer, pattern) > 0 {
            let k = choose|k: int| 0 <= k < fewer.len() && (#[trigger] fewer[k]).pattern@ == pattern;
            assert(events[k].pattern@ == pattern);
        }
    }
}

/// One more repair of a pattern that is counted already.
proof fn lemma_count_again(
    counts: Seq<PatternCount>,
    events: Seq<RepairEvent>,
    event: RepairEvent,
    j: int,
    updated: PatternCount,
)
    requires
        counts_patterns(counts, events),
        0 <= j < counts.len(),
        counts[j].pattern@ == event.pattern@,
        updated.pattern@ == event.pattern@,
        updated.count == counts[j].count + 1,
    ensures
        counts_patterns(counts.update(j, updated), events.push(event)),
{
    let after = counts.update(j, updated);
    let all = events.push(event);
    assert(all.drop_last() =~= events);
    assert forall|a: int, b: int| 0 <= a < b < after.len() implies comes_before(
        (#[trigger] after[a]).pattern@,
        (#[trigger] after[b]).pattern@,
    ) by {
        assert(comes_before(counts[a].pattern@, counts[b].pattern@));
    }
    assert forall|i: int| 0 <= i < after.len() implies (#[trigger] after[i]).count == repairs_of(
        all,
        after[i].pattern@,
    ) && after[i].count > 0 by {
        assert(counts[i].count == repairs_of(events, counts[i].pattern@));
        if i < j {
            assert(comes_before(counts[i].pattern@, counts[j].pattern@));
            lemma_order_total(counts[i].pattern@, counts[j].pattern@);
        } else if i > j {
            assert(comes_before(counts[j].pattern@, counts[i].pattern@));
            lemma_order_total(counts[j].pattern@, counts[i].pattern@);
        }
    }
    assert forall|k: int| 0 <= k < all.len() implies exists|i: int|
        0 <= i < after.len() && (#[trigger] after[i]).pattern@ == (#[trigger] all[k]).pattern@ by {
        if k < events.len() {
            assert(all[k] == events[k]);
            let i = choose|i: int|
                0 <= i < counts.len() && (#[trigger] counts[i]).pattern@ == events[k].pattern@;
            assert(after[i].pattern@ == all[k].pattern@);
        } else {
            assert(after[j].pattern@ == all[k].pattern@);
        }
    }
}

/// The first repair of a pattern.
proof fn lemma_count_first(
    counts: Seq<PatternCount>,
    events: Seq<RepairEvent>,
    event: RepairEvent,
    j: int,
    added: PatternCount,
)
    requires
        counts_patterns(counts, events),
        0 <= j <= counts.len(),
        forall|i: int|
            0 <= i < j ==> comes_before((#[trigger] counts[i]).pattern@, event.pattern@),
        j < counts.len() ==> comes_before(event.pattern@, counts[j].pattern@),
        added.pattern@ == event.pattern@,
        added.count == 1,
    ensures
        counts_patterns(counts.insert(j, added), events.push(event)),
{
    let after = counts.insert(j, added);
    let all = events.push(event);
    let p = event.pattern@;
    assert(all.drop_last() =~= events);
    assert forall|i: int| j <= i < counts.len() implies comes_before(
        p,
        (#[trigger] counts[i]).pattern@,
    ) by {
        if i > j {
            assert(comes_before(counts[j].pattern@, counts[i].pattern@));
            lemma_order_trans(p, counts[j].pattern@, counts[i].pattern@);
        }
    }
    assert forall|i: int| 0 <= i < counts.len() implies (#[trigger] counts[i]).pattern@ != p by {
        lemma_order_total(counts[i].pattern@, p);
    }
    lemma_repairs_occur(events, p);
    if repairs_of(events, p) > 0 {
        let k = choose|k: int| 0 <= k < events.len() && (#[trigger] events[k]).pattern@ == p;
        let i = choose|i: int|
            0 <= i < counts.len() && (#[trigger] counts[i]).pattern@ == events[k].pattern@;
        assert(counts[i].pattern@ == p);
        assert(false);
    }
    assert forall|a: int, b: int| 0 <= a < b < after.len() implies comes_before(
        (#[trigger] after[a]).pattern@,
        (#[trigger] after[b]).pattern@,
    ) by {
        if b < j {
            assert(after[a] == counts[a] && after[b] == counts[b]);
        } else if b == j {
            assert(after[a] == counts[a]);
        } else if a < j {
            assert(after[a] == counts[a] && after[b] == counts[b - 1]);
        } else if a == j {
            assert(after[b] == counts[b - 1]);
        } else {
            assert(after[a] == counts[a - 1] && after[b] == counts[b - 1]);
        }
    }
    assert forall|i: int| 0 <= i < after.len() implies (#[trigger] after[i]).count == repairs_of(
        all,
        after[i].pattern@,
    ) && after[i].count > 0 by {
        if i < j {
            assert(after[i] == counts[i]);
        } else if i > j {
            assert(after[i] == counts[i - 1]);
        }
    }
    assert forall|k: int| 0 <= k < all.len() implies exists|i: int|
        0 <= i < after.len() && (#[trigger] after[i]).pattern@ == (#[trigger] all[k]).pattern@ by {
        if k < events.len() {
            assert(all[k] == events[k]);
            let i = choose|i: int|
                0 <= i < counts.len() && (#[trigger] counts[i]).pattern@ == events[k].pattern@;
            if i < j {
                assert(after[i] == counts[i]);
            } else {
                assert(after[i + 1] == counts[i]);
            }
        } else {
            assert(after[j].pattern@ == all[k].pattern@);
        }
    }
}

/// Counts repairs by their pattern.
pub fn count_repairs(events: &Vec<RepairEvent>) -> (counts: Vec<PatternCount>)
    ensures
        counts_patterns(counts@, events@),
{
    let mut counts: Vec<PatternCount> = Vec::new();
    let mut k: usize = 0;
    assert(events@.take(0) =~= Seq::empty());
    while k < events.len()
        invariant
            k <= events@.len(),
            counts_patterns(counts@, events@.take(k as int)),
        decreases events@.len() - k,
    {
        let event = &events[k];
        assert(events@.take(k + 1) =~= events@.take(k as int).push(*event));
        let mut j: usize = 0;
        while j < counts.len() && is_before(counts[j].pattern.as_str(), event.pattern.as_str())
            invariant
                j <= counts@.len(),
                forall|i: int|
                    0 <= i < j ==> comes_before((#[trigger] counts@[i]).pattern@, event.pattern@),
            ensures
                j < counts@.len() ==> !comes_before(counts@[j as int].pattern@, event.pattern@),
            decreases counts@.len() - j,
        {
            j += 1;
        }
        let ghost before = counts@;
        if j < counts.len() && counts[j].pattern == event.pattern {
            proof {
                lemma_repairs_occur(events@.take(k as int), event.pattern@);
            }
            let count: usize = counts[j].count + 1;
            let updated = PatternCount { pattern: event.pattern.clone(), count };
            proof {
                lemma_count_again(before, events@.take(k as int), *event, j as int, updated);
            }
            counts.set(j, updated);
        } else {
            let added = PatternCount { pattern: event.pattern.clone(), count: 1 };
            proof {
                if j < before.len() {
                    lemma_order_total(before[j as int].pattern@, event.pattern@);
                }
                lemma_count_first(before, events@.take(k as int), *event, j as int, added);
            }
            counts.insert(j, added);
        }
        k += 1;
    }
    assert(events@.take(k as int) =~= events@);
    counts
}

/// The counts in one line.
pub open spec fn summary_line(counts: Seq<PatternCount>) -> Seq<char>
    decreases counts.len(),
{
    if counts.len() == 0 {
        Seq::empty()
    } else {
        let last = counts.last().pattern@ + ":"@ + decimal(counts.last().count as nat);
        if counts.len() == 1 {
            last
        } else {
            summary_line(counts.drop_last()) + ", "@ + last
        }
    }
}

/// The counts in one line.
pub fn repair_summary_line(counts: &Vec<PatternCount>) -> (r: String)
    ensures
        r@ == summary_line(counts@),
{
    let mut r = String::new();
    let mut i: usize = 0;
    assert(counts@.take(0) =~= Seq::empty());
    while i < counts.len()
        invariant
            i <= counts@.len(),
            r@ == summary_line(counts@.take(i as int)),
        decreases counts@.len() - i,
    {
        let ghost before = r@;
        proof {
            let next = counts@.take(i + 1);
            assert(next.drop_last() =~= counts@.take(i as int));
            assert(next.last() == counts@[i as int]);
        }
        if i > 0 {
            r.push_str(", ");
        }
        r.push_str(counts[i].pattern.as_str());
        r.push_str(":");
        r.push_str(decimal_of(counts[i].count as u64).as_str());
        proof {
            let last = counts@[i as int].pattern@ + ":"@ + decimal(counts@[i as int].count as nat);
            if i > 0 {
                assert(r@ =~= before + ", "@ + last);
            } else {
                assert(r@ =~= last);
            }
        }
        i += 1;
    }
    assert(counts@.take(i as int) =~= counts@);
    r
}

/// The lines that tell of each repair: how many there were, then each by its pattern, its extension
/// and what was done.
pub open spec fn detail_lines(events: Seq<RepairEvent>) -> Seq<Seq<char>> {
    let head = "[auto-repair] "@ + decimal(events.len()) + " extension"@ + (if events.len() == 1 {
        ""@
    } else {
        "s"@
    }) + " auto-repaired:"@;
    seq![head] + events.map_values(|e: RepairEvent| detail_line(e))
}

/// The line that tells of a repair.
pub open spec fn detail_line(e: RepairEvent) -> Seq<char> {
    "  "@ + e.pattern@ + ": "@ + e.extension_id@ + " ("@ + e.repair_action@ + ")"@
}

/// The lines that tell of each repair.
pub fn repair_detail_lines(events: &Vec<RepairEvent>) -> (r: Vec<String>)
    ensures
        crate::semantic::texts(r@) == detail_lines(events@),
{
    let mut head = owned("[auto-repair] ");
    head.push_str(decimal_of(events.len() as u64).as_str());
    head.push_str(" extension");
    head.push_str(
        if events.len() == 1 {
            ""
        } else {
            "s"
        },
    );
    head.push_str(" auto-repaired:");
    let ghost goal = detail_lines(events@);
    let mut r: Vec<String> = Vec::new();
    assert(head@ == goal[0]);
    r.push(head);
    let mut i: usize = 0;
    while i < events.len()
        invariant
            i <= events@.len(),
            r@.len() == i + 1,
            goal == detail_lines(events@),
            forall|j: int| 0 <= j <= i ==> (#[trigger] r@[j])@ == goal[j],
        decreases events@.len() - i,
    {
        let event = &events[i];
        let mut line = owned("  ");
        line.push_str(event.pattern.as_str());
        line.push_str(": ");
        line.push_str(event.extension_id.as_str());
        line.push_str(" (");
        line.push_str(event.repair_action.as_str());
        line.push_str(")");
        assert(line@ == goal[i + 1]);
        r.push(line);
        i += 1;
    }
    assert(crate::semantic::texts(r@) =~= goal);
    r
}

/// Whether a setting asks for details of repairs.
pub fn wants_repair_details(value: &str) -> (r: bool)
    ensures
        r == wants_details(value@),
{
    same_text(value, "1") || same_text(
        crate::pi_ai::ascii_lower_of(value).as_str(),
        "true",
    )
}

} // verus!
