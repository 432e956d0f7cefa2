//! The system kernel: how it is built, and what it does when it starts, stops and resets.
//!
//! The kernel decides what is done and in which order. The engines, the trader and the clock are
//! driven by the caller, who takes one action after the other and reports what came of it.

use vstd::prelude::*;
use std::time::Duration;
use crate::config::CacheConfig;
use crate::streaming::StreamingConfig;

verus! {

/// The environment that a kernel runs in.
#[derive(Clone, Copy, Debug, PartialEq, Eq, Structural)]
pub enum Environment {
    /// Historical data, simulated execution.
    Backtest,
    /// Live data, simulated execution.
    Sandbox,
    /// Live data, live execution.
    Live,
}

/// Configuration of a kernel.
#[derive(Debug)]
pub struct KernelConfig {
    /// The environment.
    pub environment: Environment,
    /// The trader ID.
    pub trader_id: String,
    /// Whether state is loaded on start.
    pub load_state: bool,
    /// Whether state is saved on stop.
    pub save_state: bool,
    /// Whether tracing is forwarded to the log.
    pub use_tracing: bool,
    /// The instance ID, if one is given.
    pub instance_id: Option<String>,
    /// How long residual events are awaited after the trader is stopped.
    pub delay_post_stop: Duration,
    /// The cache configuration, if one is given.
    pub cache: Option<CacheConfig>,
    /// The streaming configuration, if events are streamed.
    pub streaming: Option<StreamingConfig>,
}

impl KernelConfig {
    /// The instance ID of a kernel, where `fresh` is used if none is configured.
    pub open spec fn spec_instance_id(self, fresh: Seq<char>) -> Seq<char> {
        match self.instance_id {
            Some(id) => id@,
            None => fresh,
        }
    }
}

/// What can go wrong while a kernel is built or its clients are disconnected.
#[derive(Debug)]
pub enum KernelError {
    /// The machine has no host name.
    NoHostName,
    /// Another logger is registered already.
    ForeignLogger { cause: String },
    /// Logging could not be initialized.
    Logging { cause: String },
    /// Tracing could not be initialized.
    Tracing { cause: String },
    /// The clients of an engine could not be disconnected.
    Disconnect { cause: String },
}

impl KernelError {
    /// The message of the error.
    pub open spec fn text(self) -> Seq<char> {
        match self {
            KernelError::NoHostName => "Failed to determine hostname"@,
            KernelError::ForeignLogger { .. } =>
                "A non-Nautilus logger is already registered; cannot initialize Nautilus logging"@,
            KernelError::Logging { cause } => cause@,
            KernelError::Tracing { cause } => cause@,
            KernelError::Disconnect { cause } => cause@,
        }
    }

    /// The message of the error.
    pub fn message(&self) -> (r: String)
        ensures
            r@ == self.text(),
    {
        match self {
            KernelError::NoHostName => "Failed to determine hostname".to_owned(),
            KernelError::ForeignLogger { .. } =>
                "A non-Nautilus logger is already registered; cannot initialize Nautilus logging".to_owned(),
            KernelError::Logging { cause } => cause.clone(),
            KernelError::Tracing { cause } => cause.clone(),
            KernelError::Disconnect { cause } => cause.clone(),
        }
    }
}

/// Why the logger could not be registered.
pub enum LoggerFailure {
    /// A logger is registered already.
    AlreadyRegistered { cause: String },
    /// Something else went wrong.
    Other { cause: String },
}

/// The guard that keeps logging alive: that of the logger just registered, or of one that was
/// registered earlier.
pub open spec fn logging_guard<G>(
    registered: Result<G, LoggerFailure>,
    existing: Option<G>,
) -> Result<G, KernelError> {
    match registered {
        Ok(guard) => Ok(guard),
        Err(LoggerFailure::AlreadyRegistered { cause }) => match existing {
            Some(guard) => Ok(guard),
            None => Err(KernelError::ForeignLogger { cause }),
        },
        Err(LoggerFailure::Other { cause }) => Err(KernelError::Logging { cause }),
    }
}

/// The clock that drives a kernel.
#[derive(Clone, Copy, Debug, PartialEq, Eq, Structural)]
pub enum ClockKind {
    /// A clock that is set by the caller.
    Test,
    /// A clock that follows real time.
    Live,
}

/// `sysinfo::System::host_name`: the host name of this machine, or `None` if it cannot be told.
/// Nothing is claimed of the name, which depends on the machine.
#[verifier::external_body]
fn host_name() -> (r: Option<String>) {
    sysinfo::System::host_name().ok()
}

/// What building a kernel consists of.
#[derive(Clone, Copy, Debug, PartialEq, Eq, Structural)]
pub enum BootStep {
    DetermineMachineId,
    InitializeLogging,
    LogHeader,
    InitializeClock,
    InitializeCache,
    SetMessageBus,
    CreatePortfolio,
    CreateRiskEngine,
    CreateExecEngine,
    CreateOrderEmulator,
    CreateDataEngine,
    RegisterDataHandlers,
    RegisterRiskHandlers,
    RegisterExecHandlers,
    SetupStreaming,
    CreateTrader,
    ReadClock,
}

impl BootStep {
    /// Whether a kernel is not built when the step fails.
    pub open spec fn spec_is_fatal(self) -> bool {
        self is DetermineMachineId || self is InitializeLogging
    }

    /// Returns whether a kernel is not built when the step fails.
    ///
    /// A failure to set up streaming leaves the kernel without streaming; the other steps do not
    /// fail.
    pub fn is_fatal(self) -> (r: bool)
        ensures
            r == self.spec_is_fatal(),
    {
        match self {
            BootStep::DetermineMachineId => true,
            BootStep::InitializeLogging => true,
            _ => false,
        }
    }
}

/// What is done to build a kernel, in order.
pub open spec fn boot_sequence(streaming: bool) -> Seq<BootStep> {
    seq![
        BootStep::DetermineMachineId,
        BootStep::InitializeLogging,
        BootStep::LogHeader,
        BootStep::InitializeClock,
        BootStep::InitializeCache,
        BootStep::SetMessageBus,
        BootStep::CreatePortfolio,
        BootStep::CreateRiskEngine,
        BootStep::CreateExecEngine,
        BootStep::CreateOrderEmulator,
        BootStep::CreateDataEngine,
        BootStep::RegisterDataHandlers,
        BootStep::RegisterRiskHandlers,
        BootStep::RegisterExecHandlers,
    ] + (if streaming {
        seq![BootStep::SetupStreaming]
    } else {
        Seq::empty()
    }) + seq![BootStep::CreateTrader, BootStep::ReadClock]
}

/// How far the building of a kernel has come.
pub struct BootState {
    /// How many steps are behind.
    pub passed: int,
    /// Why the kernel is not built, if it is not.
    pub failure: Option<String>,
}

/// The state after the next step, which had this outcome.
///
/// The failure of a fatal step ends the building; any other leaves the kernel without what the step
/// was for.
pub open spec fn boot_advance(
    steps: Seq<BootStep>,
    state: BootState,
    outcome: Result<(), String>,
) -> BootState {
    if state.failure is Some {
        state
    } else {
        match outcome {
            Err(cause) if steps[state.passed].spec_is_fatal() => BootState {
                passed: state.passed,
                failure: Some(cause),
            },
            _ => BootState { passed: state.passed + 1, failure: None },
        }
    }
}

/// The state after several steps, from the start.
pub open spec fn boot_run(steps: Seq<BootStep>, outcomes: Seq<Result<(), String>>) -> BootState
    decreases outcomes.len(),
{
    if outcomes.len() == 0 {
        BootState { passed: 0, failure: None }
    } else {
        boot_advance(steps, boot_run(steps, outcomes.drop_last()), outcomes.last())
    }
}

/// The building of a kernel, step by step.
pub struct KernelBoot {
    steps: Vec<BootStep>,
    next: usize,
    failure: Option<String>,
}

impl KernelBoot {
    /// All steps, in order.
    pub closed spec fn steps(self) -> Seq<BootStep> {
        self.steps@
    }

    /// How far the building has come.
    pub closed spec fn state(self) -> BootState {
        BootState { passed: self.next as int, failure: self.failure }
    }

    /// No more steps are behind than there are.
    pub open spec fn wf(self) -> bool {
        0 <= self.state().passed <= self.steps().len()
    }

    /// Begins to build a kernel.
    pub fn new(config: &KernelConfig) -> (r: Self)
        ensures
            r.wf(),
            r.steps() == boot_sequence(config.streaming is Some),
            r.state() == boot_run(r.steps(), Seq::empty()),
    {
        KernelBoot { steps: NautilusKernel::boot_steps(config), next: 0, failure: None }
    }

    /// Returns the step to take next, or `None` if all are behind or the building has ended.
    pub fn next_step(&self) -> (r: Option<BootStep>)
        requires
            self.wf(),
        ensures
            r == (if self.state().failure is None && self.state().passed < self.steps().len() {
                Some(self.steps()[self.state().passed])
            } else {
                None
            }),
    {
        if self.failure.is_none() && self.next < self.steps.len() {
            Some(self.steps[self.next])
        } else {
            None
        }
    }

    /// Takes what came of the next step.
    ///
    /// Returns the cause of a failure that does not end the building, to be logged.
    pub fn record(&mut self, outcome: Result<(), String>) -> (logged: Option<String>)
        requires
            old(self).wf(),
            old(self).state().failure is None,
            old(self).state().passed < old(self).steps().len(),
        ensures
            final(self).wf(),
            final(self).steps() == old(self).steps(),
            final(self).state() == boot_advance(old(self).steps(), old(self).state(), outcome),
            logged == (match outcome {
                Err(cause) if !old(self).steps()[old(self).state().passed].spec_is_fatal() => Some(
                    cause,
                ),
                _ => None,
            }),
    {
        let step = self.steps[self.next];
        assert(self.next < self.steps.len());
        match outcome {
            Ok(()) => {
                self.next = self.next + 1;
                None
            },
            Err(cause) => {
                if step.is_fatal() {
                    self.failure = Some(cause);
                    None
                } else {
                    self.next = self.next + 1;
                    Some(cause)
                }
            },
        }
    }

    /// Returns the result of the building so far.
    ///
    /// # Errors
    ///
    /// Returns the cause of the failure that ended the building, if one did.
    pub fn result(self) -> (r: Result<(), String>)
        ensures
            r == (match self.state().failure {
                Some(cause) => Err::<(), String>(cause),
                None => Ok(()),
            }),
    {
        match self.failure {
            Some(cause) => Err(cause),
            None => Ok(()),
        }
    }
}

/// A kernel is built unless a fatal step fails: then nothing more is done, and the failure is the
/// one of that step. No other failure keeps a step from being taken.
pub proof fn law_boot_ends_at_fatal_failure(
    steps: Seq<BootStep>,
    outcomes: Seq<Result<(), String>>,
)
    requires
        outcomes.len() <= steps.len(),
    ensures
        ({
            let state = boot_run(steps, outcomes);
            let fatal = |i: int|
                0 <= i < outcomes.len() && steps[i].spec_is_fatal() && outcomes[i] is Err;
            match state.failure {
                None => state.passed == outcomes.len() && forall|i: int| !#[trigger] fatal(i),
                Some(cause) => {
                    &&& fatal(state.passed)
                    &&& outcomes[state.passed] == Err::<(), String>(cause)
                    &&& forall|i: int| i < state.passed ==> !#[trigger] fatal(i)
                },
            }
        }),
    decreases outcomes.len(),
{
    if outcomes.len() > 0 {
        let before = outcomes.drop_last();
        law_boot_ends_at_fatal_failure(steps, before);
        let earlier = |i: int|
            0 <= i < before.len() && steps[i].spec_is_fatal() && before[i] is Err;
        let fatal = |i: int|
            0 <= i < outcomes.len() && steps[i].spec_is_fatal() && outcomes[i] is Err;
        assert forall|i: int| i < before.len() implies #[trigger] fatal(i) == earlier(i) by {}
    }
}

/// What a kernel asks its caller to do.
#[derive(Clone, Copy, Debug, PartialEq, Eq, Structural)]
pub enum KernelAction {
    StartDataEngine,
    StartExecEngine,
    StartRiskEngine,
    StopDataEngine,
    StopExecEngine,
    StopRiskEngine,
    ResetDataEngine,
    ResetExecEngine,
    ResetRiskEngine,
    DisposeDataEngine,
    DisposeExecEngine,
    DisposeRiskEngine,
    InitializeTrader,
    StartTrader,
    QueryTraderRunning,
    StopTrader,
    ResetTrader,
    DisposeTrader,
    StartClients,
    StopClients,
    CancelTimers,
    ConnectDataClients,
    ConnectExecClients,
    DisconnectDataClients,
    DisconnectExecClients,
    /// Reads the clock for the time of the start.
    RecordStarted,
    /// Reads the clock for the time of the shutdown.
    RecordShutdown,
    /// Asks for nothing: the times of start and shutdown are forgotten.
    ClearTimes,
}

/// What came of an action.
pub enum ActionOutcome {
    /// It is done.
    Done,
    /// It failed.
    Failed(String),
    /// The clock shows this time, in nanoseconds since the epoch.
    Time(u64),
    /// The trader is running, or is not.
    Running(bool),
}

/// Whether an outcome answers an action.
pub open spec fn answers(action: KernelAction, outcome: ActionOutcome) -> bool {
    match action {
        KernelAction::RecordStarted => outcome is Time,
        KernelAction::RecordShutdown => outcome is Time,
        KernelAction::QueryTraderRunning => outcome is Running,
        KernelAction::InitializeTrader => outcome is Done || outcome is Failed,
        KernelAction::StartTrader => outcome is Done || outcome is Failed,
        KernelAction::StopTrader => outcome is Done || outcome is Failed,
        KernelAction::ResetTrader => outcome is Done || outcome is Failed,
        KernelAction::DisposeTrader => outcome is Done || outcome is Failed,
        KernelAction::StartClients => outcome is Done || outcome is Failed,
        KernelAction::StopClients => outcome is Done || outcome is Failed,
        KernelAction::DisconnectDataClients => outcome is Done || outcome is Failed,
        KernelAction::DisconnectExecClients => outcome is Done || outcome is Failed,
        _ => outcome is Done,
    }
}

/// Whether nothing more is done after an action that had this outcome.
///
/// A trader that cannot be initialized is not started, one that does not run is not stopped, and
/// the first failure to disconnect ends the disconnection.
pub open spec fn ends(action: KernelAction, outcome: ActionOutcome) -> bool {
    match action {
        KernelAction::InitializeTrader => outcome is Failed,
        KernelAction::QueryTraderRunning => outcome == ActionOutcome::Running(false),
        KernelAction::DisconnectDataClients => outcome is Failed,
        KernelAction::DisconnectExecClients => outcome is Failed,
        _ => false,
    }
}

/// When a kernel was last started and last shut down, if it was.
pub struct KernelTimes {
    pub started: Option<u64>,
    pub shutdown: Option<u64>,
}

/// The times after an action that had this outcome.
pub open spec fn times_after(
    action: KernelAction,
    outcome: ActionOutcome,
    before: KernelTimes,
) -> KernelTimes {
    match (action, outcome) {
        (KernelAction::RecordStarted, ActionOutcome::Time(ts)) => KernelTimes {
            started: Some(ts),
            shutdown: before.shutdown,
        },
        (KernelAction::RecordShutdown, ActionOutcome::Time(ts)) => KernelTimes {
            started: before.started,
            shutdown: Some(ts),
        },
        (KernelAction::ClearTimes, _) => KernelTimes { started: None, shutdown: None },
        _ => before,
    }
}

/// Why clients could not be disconnected, given what came of an action.
pub open spec fn disconnect_cause(action: KernelAction, outcome: ActionOutcome) -> Option<String> {
    match (action, outcome) {
        (KernelAction::DisconnectDataClients, ActionOutcome::Failed(cause)) => Some(cause),
        (KernelAction::DisconnectExecClients, ActionOutcome::Failed(cause)) => Some(cause),
        _ => None,
    }
}

/// How far a run of actions has come.
pub struct RunState {
    /// How many actions are behind, or have become needless.
    pub passed: int,
    /// When the kernel was started and shut down.
    pub times: KernelTimes,
    /// Why clients could not be disconnected, if they could not.
    pub failure: Option<String>,
}

/// The state before the first action.
pub open spec fn at_start(times: KernelTimes) -> RunState {
    RunState { passed: 0, times, failure: None }
}

/// The state after the next action, which had this outcome.
pub open spec fn advance(
    actions: Seq<KernelAction>,
    state: RunState,
    outcome: ActionOutcome,
) -> RunState {
    let action = actions[state.passed];
    RunState {
        passed: if ends(action, outcome) {
            actions.len() as int
        } else {
            state.passed + 1
        },
        times: times_after(action, outcome, state.times),
        failure: match disconnect_cause(action, outcome) {
            Some(cause) => Some(cause),
            None => state.failure,
        },
    }
}

/// The state after several actions, which had these outcomes.
pub open spec fn run(
    actions: Seq<KernelAction>,
    outcomes: Seq<ActionOutcome>,
    state: RunState,
) -> RunState
    decreases outcomes.len(),
{
    if outcomes.len() == 0 {
        state
    } else {
        run(actions, outcomes.drop_first(), advance(actions, state, outcomes.first()))
    }
}

/// The system kernel.
pub struct NautilusKernel {
    /// The kernel name.
    pub name: String,
    /// The unique instance identifier.
    pub instance_id: String,
    /// The machine identifier.
    pub machine_id: String,
    /// The configuration.
    pub config: KernelConfig,
    /// When the kernel was created, in nanoseconds since the epoch.
    pub ts_created: u64,
    /// When the kernel was last started, in nanoseconds since the epoch.
    pub ts_started: Option<u64>,
    /// When the kernel was last shut down, in nanoseconds since the epoch.
    pub ts_shutdown: Option<u64>,
}

/// What a kernel is built from.
pub struct NautilusKernelBuilder {
    /// The kernel name.
    pub name: String,
    /// The trader ID.
    pub trader_id: String,
    /// The environment.
    pub environment: Environment,
}

/// A run of actions that a kernel asks for, one after the other.
pub struct Procedure {
    actions: Vec<KernelAction>,
    next: usize,
    failure: Option<String>,
}

impl Procedure {
    /// All actions, in order.
    pub closed spec fn actions(self) -> Seq<KernelAction> {
        self.actions@
    }

    /// How many actions are behind, or have become needless.
    pub closed spec fn passed(self) -> int {
        self.next as int
    }

    /// Why clients could not be disconnected, if they could not.
    pub closed spec fn failure(self) -> Option<String> {
        self.failure
    }

    /// How far the procedure has come on a kernel.
    pub open spec fn state(self, kernel: NautilusKernel) -> RunState {
        RunState { passed: self.passed(), times: kernel.times(), failure: self.failure() }
    }

    /// No more actions are behind than there are.
    pub closed spec fn wf(self) -> bool {
        self.next <= self.actions@.len()
    }

    /// Whether the procedure is at the start of `actions`.
    pub open spec fn begins(self, actions: Seq<KernelAction>) -> bool {
        &&& self.wf()
        &&& self.actions() == actions
        &&& self.passed() == 0
        &&& self.failure() is None
    }

    fn new(actions: Vec<KernelAction>) -> (r: Self)
        ensures
            r.begins(actions@),
    {
        Procedure { actions, next: 0, failure: None }
    }

    /// Returns the action to take next, or `None` if nothing is left to do.
    pub fn next_action(&self) -> (r: Option<KernelAction>)
        requires
            self.wf(),
        ensures
            match r {
                Some(action) => self.passed() < self.actions().len() && action
                    == self.actions()[self.passed()],
                None => self.passed() == self.actions().len(),
            },
    {
        if self.next < self.actions.len() {
            Some(self.actions[self.next])
        } else {
            None
        }
    }

    /// Takes what came of the next action.
    pub fn record(&mut self, kernel: &mut NautilusKernel, outcome: ActionOutcome)
        requires
            old(self).wf(),
            old(self).passed() < old(self).actions().len(),
            answers(old(self).actions()[old(self).passed()], outcome),
        ensures
            final(self).wf(),
            final(self).actions() == old(self).actions(),
            final(self).state(*final(kernel)) == advance(
                old(self).actions(),
                old(self).state(*old(kernel)),
                outcome,
            ),
            final(kernel).same_but_times(*old(kernel)),
    {
        let action = self.actions[self.next];
        assert(self.next < self.actions.len());
        self.next = self.next + 1;
        match action {
            KernelAction::InitializeTrader => {
                if let ActionOutcome::Failed(_) = outcome {
                    self.next = self.actions.len();
                }
            },
            KernelAction::QueryTraderRunning => {
                if let ActionOutcome::Running(false) = outcome {
                    self.next = self.actions.len();
                }
            },
            KernelAction::DisconnectDataClients => {
                if let ActionOutcome::Failed(cause) = outcome {
                    self.next = self.actions.len();
                    self.failure = Some(cause);
                }
            },
            KernelAction::DisconnectExecClients => {
                if let ActionOutcome::Failed(cause) = outcome {
                    self.next = self.actions.len();
                    self.failure = Some(cause);
                }
            },
            KernelAction::RecordStarted => {
                if let ActionOutcome::Time(ts) = outcome {
                    kernel.ts_started = Some(ts);
                }
            },
            KernelAction::RecordShutdown => {
                if let ActionOutcome::Time(ts) = outcome {
                    kernel.ts_shutdown = Some(ts);
                }
            },
            KernelAction::ClearTimes => {
                kernel.ts_started = None;
                kernel.ts_shutdown = None;
            },
            _ => {},
        }
    }

    /// Returns the result of the procedure.
    ///
    /// # Errors
    ///
    /// Returns an error if clients could not be disconnected.
    pub fn result(self) -> (r: Result<(), KernelError>)
        ensures
            match self.failure() {
                Some(cause) => r == Err::<(), KernelError>(KernelError::Disconnect { cause }),
                None => r is Ok,
            },
    {
        match self.failure {
            Some(cause) => Err(KernelError::Disconnect { cause }),
            None => Ok(()),
        }
    }
}

/// What starting the kernel consists of.
pub open spec fn start_actions() -> Seq<KernelAction> {
    seq![
        KernelAction::StartDataEngine,
        KernelAction::StartExecEngine,
        KernelAction::StartRiskEngine,
        KernelAction::InitializeTrader,
        KernelAction::StartClients,
        KernelAction::RecordStarted,
    ]
}

/// What finalizing the shutdown consists of.
pub open spec fn finalize_stop_actions() -> Seq<KernelAction> {
    seq![
        KernelAction::StopClients,
        KernelAction::StopDataEngine,
        KernelAction::StopExecEngine,
        KernelAction::StopRiskEngine,
        KernelAction::CancelTimers,
        KernelAction::RecordShutdown,
    ]
}

/// What a reset consists of.
pub open spec fn reset_actions() -> Seq<KernelAction> {
    seq![
        KernelAction::ResetTrader,
        KernelAction::ResetDataEngine,
        KernelAction::ResetExecEngine,
        KernelAction::ResetRiskEngine,
        KernelAction::ClearTimes,
    ]
}

/// What disposing of the kernel consists of.
pub open spec fn dispose_actions() -> Seq<KernelAction> {
    seq![
        KernelAction::DisposeTrader,
        KernelAction::StopDataEngine,
        KernelAction::StopExecEngine,
        KernelAction::StopRiskEngine,
        KernelAction::DisposeDataEngine,
        KernelAction::DisposeExecEngine,
        KernelAction::DisposeRiskEngine,
    ]
}

/// The errors among several results, in their order.
pub open spec fn errors_of<E>(results: Seq<Result<(), E>>) -> Seq<E>
    decreases results.len(),
{
    if results.len() == 0 {
        Seq::empty()
    } else {
        let before = errors_of(results.drop_last());
        match results.last() {
            Ok(()) => before,
            Err(e) => before.push(e),
        }
    }
}

/// Whether `r` says that all of several results are good, or else gives their errors in order.
pub open spec fn collects<E>(results: Seq<Result<(), E>>, r: Result<(), Vec<E>>) -> bool {
    match r {
        Ok(()) => errors_of(results).len() == 0,
        Err(errors) => errors@ == errors_of(results) && errors@.len() > 0,
    }
}

fn collect_errors<E>(results: Vec<Result<(), E>>) -> (r: Result<(), Vec<E>>)
    ensures
        collects(results@, r),
{
    let ghost all = results@;
    let mut errors: Vec<E> = Vec::new();
    for result in it: results
        invariant
            it.seq() == all,
            errors@ == errors_of(all.take(it.index() as int)),
    {
        proof {
            let seen = all.take(it.index() as int + 1);
            assert(seen.drop_last() =~= all.take(it.index() as int));
            assert(seen.last() == result);
        }
        match result {
            Ok(()) => {},
            Err(e) => {
                errors.push(e);
            },
        }
    }
    assert(all.take(all.len() as int) =~= all);
    if errors.len() == 0 {
        Ok(())
    } else {
        Err(errors)
    }
}

impl NautilusKernel {
    /// When the kernel was last started and last shut down.
    pub open spec fn times(self) -> KernelTimes {
        KernelTimes { started: self.ts_started, shutdown: self.ts_shutdown }
    }

    /// Whether two kernels differ at most in when they were started and shut down.
    pub open spec fn same_but_times(self, other: NautilusKernel) -> bool {
        &&& self.name == other.name
        &&& self.instance_id == other.instance_id
        &&& self.machine_id == other.machine_id
        &&& self.config == other.config
        &&& self.ts_created == other.ts_created
    }

    /// Returns a builder for a kernel.
    pub fn builder(name: String, trader_id: String, environment: Environment) -> (r:
        NautilusKernelBuilder)
        ensures
            r.name == name,
            r.trader_id == trader_id,
            r.environment == environment,
    {
        NautilusKernelBuilder { name, trader_id, environment }
    }

    /// Returns what is done to build a kernel, in order.
    pub fn boot_steps(config: &KernelConfig) -> (steps: Vec<BootStep>)
        ensures
            steps@ == boot_sequence(config.streaming is Some),
    {
        let mut steps: Vec<BootStep> = Vec::new();
        steps.push(BootStep::DetermineMachineId);
        steps.push(BootStep::InitializeLogging);
        steps.push(BootStep::LogHeader);
        steps.push(BootStep::InitializeClock);
        steps.push(BootStep::InitializeCache);
        steps.push(BootStep::SetMessageBus);
        steps.push(BootStep::CreatePortfolio);
        steps.push(BootStep::CreateRiskEngine);
        steps.push(BootStep::CreateExecEngine);
        steps.push(BootStep::CreateOrderEmulator);
        steps.push(BootStep::CreateDataEngine);
        steps.push(BootStep::RegisterDataHandlers);
        steps.push(BootStep::RegisterRiskHandlers);
        steps.push(BootStep::RegisterExecHandlers);
        if config.streaming.is_some() {
            steps.push(BootStep::SetupStreaming);
        }
        steps.push(BootStep::CreateTrader);
        steps.push(BootStep::ReadClock);
        assert(steps@ =~= boot_sequence(config.streaming is Some));
        steps
    }

    /// Creates a kernel.
    ///
    /// `fresh_instance_id` is used if the configuration gives no instance ID. The host name, the
    /// result of initializing logging and the time of creation come from the machine.
    ///
    /// # Errors
    ///
    /// Returns an error if there is no host name or logging could not be initialized.
    pub fn new(
        name: String,
        config: KernelConfig,
        fresh_instance_id: String,
        host_name: Option<String>,
        logging: Result<(), KernelError>,
        ts_created: u64,
    ) -> (r: Result<Self, KernelError>)
        ensures
            match (host_name, logging) {
                (None, _) => r == Err::<Self, KernelError>(KernelError::NoHostName),
                (Some(_), Err(e)) => r == Err::<Self, KernelError>(e),
                (Some(host_name), Ok(())) => {
                    &&& r is Ok
                    &&& r->Ok_0.name == name
                    &&& r->Ok_0.instance_id@ == config.spec_instance_id(fresh_instance_id@)
                    &&& r->Ok_0.machine_id == host_name
                    &&& r->Ok_0.config == config
                    &&& r->Ok_0.ts_created == ts_created
                    &&& r->Ok_0.times() == (KernelTimes { started: None, shutdown: None })
                },
            },
    {
        let instance_id = Self::choose_instance_id(&config, fresh_instance_id);
        let machine_id = match Self::machine_id_from(host_name) {
            Ok(machine_id) => machine_id,
            Err(e) => {
                return Err(e);
            },
        };
        match logging {
            Ok(()) => {},
            Err(e) => {
                return Err(e);
            },
        }
        Ok(
            NautilusKernel {
                name,
                instance_id,
                machine_id,
                config,
                ts_created,
                ts_started: None,
                ts_shutdown: None,
            },
        )
    }

    /// Returns the instance ID of a kernel: the configured one, or else a fresh one.
    pub fn choose_instance_id(config: &KernelConfig, fresh_instance_id: String) -> (r: String)
        ensures
            r@ == config.spec_instance_id(fresh_instance_id@),
    {
        match &config.instance_id {
            Some(id) => id.clone(),
            None => fresh_instance_id,
        }
    }

    /// Returns the machine ID, which is the host name of this machine.
    ///
    /// # Errors
    ///
    /// Returns an error if there is no host name.
    pub fn determine_machine_id() -> (r: Result<String, KernelError>)
        ensures
            r is Err ==> r == Err::<String, KernelError>(KernelError::NoHostName),
    {
        Self::machine_id_from(host_name())
    }

    /// Returns the machine ID for a host name.
    ///
    /// # Errors
    ///
    /// Returns an error if there is no host name.
    pub fn machine_id_from(host_name: Option<String>) -> (r: Result<String, KernelError>)
        ensures
            match host_name {
                Some(host_name) => r == Ok::<String, KernelError>(host_name),
                None => r == Err::<String, KernelError>(KernelError::NoHostName),
            },
    {
        match host_name {
            Some(host_name) => Ok(host_name),
            None => Err(KernelError::NoHostName),
        }
    }

    /// Returns whether the guard of an earlier logger is to be used, if there is one.
    pub fn needs_existing_guard<G>(registered: &Result<G, LoggerFailure>) -> (r: bool)
        ensures
            r == (registered is Err && registered->Err_0 is AlreadyRegistered),
    {
        match registered {
            Err(LoggerFailure::AlreadyRegistered { .. }) => true,
            _ => false,
        }
    }

    /// Returns the guard that keeps logging alive.
    ///
    /// `registered` is what registering the logger gave. If a logger was registered already, the
    /// guard is `existing`, the one of a logger that an earlier kernel registered, if there is one.
    ///
    /// # Errors
    ///
    /// Returns an error if the logger could not be registered and there is no earlier one.
    pub fn log_guard<G>(registered: Result<G, LoggerFailure>, existing: Option<G>) -> (r: Result<
        G,
        KernelError,
    >)
        ensures
            r == logging_guard(registered, existing),
    {
        match registered {
            Ok(guard) => Ok(guard),
            Err(LoggerFailure::AlreadyRegistered { cause }) => match existing {
                Some(guard) => Ok(guard),
                None => Err(KernelError::ForeignLogger { cause }),
            },
            Err(LoggerFailure::Other { cause }) => Err(KernelError::Logging { cause }),
        }
    }

    /// Returns whether tracing has to be initialized, given the guard that keeps logging alive.
    pub fn needs_tracing<G>(
        config: &KernelConfig,
        guard: &Result<G, KernelError>,
        tracing_is_initialized: bool,
    ) -> (r: bool)
        ensures
            r == (guard is Ok && config.use_tracing && !tracing_is_initialized),
    {
        match guard {
            Ok(_) => config.use_tracing && !tracing_is_initialized,
            Err(_) => false,
        }
    }

    /// Returns the guard that keeps logging alive once logging is initialized.
    ///
    /// `tracing` is what initializing tracing gave, where that was needed.
    ///
    /// # Errors
    ///
    /// Returns an error if there is no guard, or else if tracing could not be initialized.
    pub fn initialize_logging<G>(guard: Result<G, KernelError>, tracing: Result<(), String>) -> (r:
        Result<G, KernelError>)
        ensures
            r == (match guard {
                Ok(guard) => match tracing {
                    Ok(()) => Ok::<G, KernelError>(guard),
                    Err(cause) => Err(KernelError::Tracing { cause }),
                },
                Err(e) => Err(e),
            }),
    {
        match guard {
            Ok(guard) => match tracing {
                Ok(()) => Ok(guard),
                Err(cause) => Err(KernelError::Tracing { cause }),
            },
            Err(e) => Err(e),
        }
    }

    /// Returns the clock that drives a kernel in an environment.
    ///
    /// `live` says whether there is a live clock; without one there are only backtests.
    pub fn initialize_clock(environment: Environment, live: bool) -> (r: ClockKind)
        requires
            live || environment is Backtest,
        ensures
            r == match environment {
                Environment::Backtest => ClockKind::Test,
                Environment::Live => ClockKind::Live,
                Environment::Sandbox => ClockKind::Live,
            },
    {
        match environment {
            Environment::Backtest => ClockKind::Test,
            Environment::Live => ClockKind::Live,
            Environment::Sandbox => ClockKind::Live,
        }
    }

    /// Returns the configuration of the cache, which has no database behind it.
    pub fn initialize_cache(cache_config: Option<CacheConfig>) -> (r: CacheConfig)
        ensures
            match cache_config {
                Some(config) => r == config,
                None => {
                    &&& r.is_default()
                    &&& r.database is None
                    &&& r.encoding is MsgPack
                    &&& r.buffer_interval_ms is None
                    &&& r.bulk_read_batch_size is None
                    &&& r.use_trader_prefix
                    &&& !r.use_instance_id
                },
            },
    {
        match cache_config {
            Some(config) => config,
            None => CacheConfig::default(),
        }
    }

    /// Returns the environment.
    pub fn environment(&self) -> (r: Environment)
        ensures
            r == self.config.environment,
    {
        self.config.environment
    }

    /// Returns the kernel name.
    pub fn name(&self) -> (r: &str)
        ensures
            r@ == self.name@,
    {
        self.name.as_str()
    }

    /// Returns the trader ID.
    pub fn trader_id(&self) -> (r: &str)
        ensures
            r@ == self.config.trader_id@,
    {
        self.config.trader_id.as_str()
    }

    /// Returns the machine ID.
    pub fn machine_id(&self) -> (r: &str)
        ensures
            r@ == self.machine_id@,
    {
        self.machine_id.as_str()
    }

    /// Returns the instance ID.
    pub fn instance_id(&self) -> (r: &str)
        ensures
            r@ == self.instance_id@,
    {
        self.instance_id.as_str()
    }

    /// Returns how long residual events are awaited after the trader is stopped.
    pub fn delay_post_stop(&self) -> (r: Duration)
        ensures
            r == self.config.delay_post_stop,
    {
        self.config.delay_post_stop
    }

    /// Returns when the kernel was created.
    pub fn ts_created(&self) -> (r: u64)
        ensures
            r == self.ts_created,
    {
        self.ts_created
    }

    /// Returns when the kernel was last started.
    pub fn ts_started(&self) -> (r: Option<u64>)
        ensures
            r == self.ts_started,
    {
        self.ts_started
    }

    /// Returns when the kernel was last shut down.
    pub fn ts_shutdown(&self) -> (r: Option<u64>)
        ensures
            r == self.ts_shutdown,
    {
        self.ts_shutdown
    }

    /// Returns whether the kernel loads state.
    pub fn load_state(&self) -> (r: bool)
        ensures
            r == self.config.load_state,
    {
        self.config.load_state
    }

    /// Returns whether the kernel saves state.
    pub fn save_state(&self) -> (r: bool)
        ensures
            r == self.config.save_state,
    {
        self.config.save_state
    }

    /// Starts the kernel: its engines, then the trader's initialization, then the clients.
    pub fn start(&self) -> (r: Procedure)
        ensures
            r.begins(start_actions()),
    {
        let mut actions: Vec<KernelAction> = Vec::new();
        actions.push(KernelAction::StartDataEngine);
        actions.push(KernelAction::StartExecEngine);
        actions.push(KernelAction::StartRiskEngine);
        actions.push(KernelAction::InitializeTrader);
        actions.push(KernelAction::StartClients);
        actions.push(KernelAction::RecordStarted);
        assert(actions@ =~= start_actions());
        Procedure::new(actions)
    }

    /// Starts the trader, once the clients are connected and the instruments are cached.
    pub fn start_trader(&self) -> (r: Procedure)
        ensures
            r.begins(seq![KernelAction::StartTrader]),
    {
        let mut actions: Vec<KernelAction> = Vec::new();
        actions.push(KernelAction::StartTrader);
        assert(actions@ =~= seq![KernelAction::StartTrader]);
        Procedure::new(actions)
    }

    /// Stops the trader if it is running, which may lead to residual events.
    pub fn stop_trader(&self) -> (r: Procedure)
        ensures
            r.begins(seq![KernelAction::QueryTraderRunning, KernelAction::StopTrader]),
    {
        let mut actions: Vec<KernelAction> = Vec::new();
        actions.push(KernelAction::QueryTraderRunning);
        actions.push(KernelAction::StopTrader);
        assert(actions@ =~= seq![KernelAction::QueryTraderRunning, KernelAction::StopTrader]);
        Procedure::new(actions)
    }

    /// Finalizes the shutdown, once the residual events are processed.
    pub fn finalize_stop(&self) -> (r: Procedure)
        ensures
            r.begins(finalize_stop_actions()),
    {
        let mut actions: Vec<KernelAction> = Vec::new();
        actions.push(KernelAction::StopClients);
        actions.push(KernelAction::StopDataEngine);
        actions.push(KernelAction::StopExecEngine);
        actions.push(KernelAction::StopRiskEngine);
        actions.push(KernelAction::CancelTimers);
        actions.push(KernelAction::RecordShutdown);
        assert(actions@ =~= finalize_stop_actions());
        Procedure::new(actions)
    }

    /// Resets the kernel to its initial state.
    pub fn reset(&self) -> (r: Procedure)
        ensures
            r.begins(reset_actions()),
    {
        let mut actions: Vec<KernelAction> = Vec::new();
        actions.push(KernelAction::ResetTrader);
        actions.push(KernelAction::ResetDataEngine);
        actions.push(KernelAction::ResetExecEngine);
        actions.push(KernelAction::ResetRiskEngine);
        actions.push(KernelAction::ClearTimes);
        assert(actions@ =~= reset_actions());
        Procedure::new(actions)
    }

    /// Disposes of the kernel: the trader, then the engines, which are stopped first.
    pub fn dispose(&self) -> (r: Procedure)
        ensures
            r.begins(dispose_actions()),
    {
        let mut actions: Vec<KernelAction> = Vec::new();
        actions.push(KernelAction::DisposeTrader);
        actions.push(KernelAction::StopDataEngine);
        actions.push(KernelAction::StopExecEngine);
        actions.push(KernelAction::StopRiskEngine);
        actions.push(KernelAction::DisposeDataEngine);
        actions.push(KernelAction::DisposeExecEngine);
        actions.push(KernelAction::DisposeRiskEngine);
        assert(actions@ =~= dispose_actions());
        Procedure::new(actions)
    }

    /// Connects the clients of the engines.
    pub fn connect_clients(&self) -> (r: Procedure)
        ensures
            r.begins(seq![KernelAction::ConnectDataClients, KernelAction::ConnectExecClients]),
    {
        let mut actions: Vec<KernelAction> = Vec::new();
        actions.push(KernelAction::ConnectDataClients);
        actions.push(KernelAction::ConnectExecClients);
        assert(actions@ =~= seq![
            KernelAction::ConnectDataClients,
            KernelAction::ConnectExecClients,
        ]);
        Procedure::new(actions)
    }

    /// Disconnects the clients of the engines.
    pub fn disconnect_clients(&self) -> (r: Procedure)
        ensures
            r.begins(
                seq![KernelAction::DisconnectDataClients, KernelAction::DisconnectExecClients],
            ),
    {
        let mut actions: Vec<KernelAction> = Vec::new();
        actions.push(KernelAction::DisconnectDataClients);
        actions.push(KernelAction::DisconnectExecClients);
        assert(actions@ =~= seq![
            KernelAction::DisconnectDataClients,
            KernelAction::DisconnectExecClients,
        ]);
        Procedure::new(actions)
    }

    /// Returns the result of starting the execution clients, each of which was started.
    ///
    /// # Errors
    ///
    /// Returns the errors of the clients that could not be started.
    pub fn start_clients<E>(&self, results: Vec<Result<(), E>>) -> (r: Result<(), Vec<E>>)
        ensures
            collects(results@, r),
    {
        collect_errors(results)
    }

    /// Returns the result of stopping the execution clients, each of which was stopped.
    ///
    /// # Errors
    ///
    /// Returns the errors of the clients that could not be stopped.
    pub fn stop_all_clients<E>(&self, results: Vec<Result<(), E>>) -> (r: Result<(), Vec<E>>)
        ensures
            collects(results@, r),
    {
        collect_errors(results)
    }

    /// Returns whether the clients of both engines are connected.
    pub fn check_engines_connected(&self, data: bool, exec: bool) -> (r: bool)
        ensures
            r == (data && exec),
    {
        data && exec
    }

    /// Returns whether the clients of both engines are disconnected.
    pub fn check_engines_disconnected(&self, data: bool, exec: bool) -> (r: bool)
        ensures
            r == (data && exec),
    {
        data && exec
    }
}

/// A kernel whose trader is initialized counts as started at the time that the clock then shows,
/// whether or not all clients could be started.
pub proof fn law_start_records_time(clients: ActionOutcome, ts: u64, before: KernelTimes)
    requires
        answers(KernelAction::StartClients, clients),
    ensures
        run(
            start_actions(),
            seq![
                ActionOutcome::Done,
                ActionOutcome::Done,
                ActionOutcome::Done,
                ActionOutcome::Done,
                clients,
                ActionOutcome::Time(ts),
            ],
            at_start(before),
        ) == (RunState {
            passed: start_actions().len() as int,
            times: KernelTimes { started: Some(ts), shutdown: before.shutdown },
            failure: None,
        }),
{
    reveal_with_fuel(run, 7);
}

/// A kernel whose trader cannot be initialized starts no clients and does not count as started.
pub proof fn law_start_aborts(cause: String, before: KernelTimes)
    ensures
        run(
            start_actions(),
            seq![
                ActionOutcome::Done,
                ActionOutcome::Done,
                ActionOutcome::Done,
                ActionOutcome::Failed(cause),
            ],
            at_start(before),
        ) == (RunState {
            passed: start_actions().len() as int,
            times: before,
            failure: None,
        }),
{
    reveal_with_fuel(run, 5);
}

/// A shutdown is recorded at the time that the clock shows at its end, whether or not all clients
/// could be stopped.
pub proof fn law_finalize_stop_records_time(clients: ActionOutcome, ts: u64, before: KernelTimes)
    requires
        answers(KernelAction::StopClients, clients),
    ensures
        run(
            finalize_stop_actions(),
            seq![
                clients,
                ActionOutcome::Done,
                ActionOutcome::Done,
                ActionOutcome::Done,
                ActionOutcome::Done,
                ActionOutcome::Time(ts),
            ],
            at_start(before),
        ) == (RunState {
            passed: finalize_stop_actions().len() as int,
            times: KernelTimes { started: before.started, shutdown: Some(ts) },
            failure: None,
        }),
{
    reveal_with_fuel(run, 7);
}

/// A reset leaves the times that a new kernel has, whether or not the trader could be reset.
pub proof fn law_reset_restores_times(trader: ActionOutcome, before: KernelTimes)
    requires
        answers(KernelAction::ResetTrader, trader),
    ensures
        run(
            reset_actions(),
            seq![
                trader,
                ActionOutcome::Done,
                ActionOutcome::Done,
                ActionOutcome::Done,
                ActionOutcome::Done,
            ],
            at_start(before),
        ) == (RunState {
            passed: reset_actions().len() as int,
            times: KernelTimes { started: None, shutdown: None },
            failure: None,
        }),
{
    reveal_with_fuel(run, 6);
}

/// A trader that does not run is not asked to stop; one that runs is, and the times stay.
pub proof fn law_stop_trader_only_if_running(stopped: ActionOutcome, before: KernelTimes)
    requires
        answers(KernelAction::StopTrader, stopped),
    ensures
        ({
            let actions = seq![KernelAction::QueryTraderRunning, KernelAction::StopTrader];
            let idle = run(actions, seq![ActionOutcome::Running(false)], at_start(before));
            let running = run(actions, seq![ActionOutcome::Running(true)], at_start(before));
            let done = run(actions, seq![ActionOutcome::Running(true), stopped], at_start(before));
            &&& idle.passed == actions.len() && idle.times == before
            &&& running.passed == 1 && running.times == before
            &&& done.passed == actions.len() && done.times == before
        }),
{
    reveal_with_fuel(run, 3);
}

/// The first engine whose clients cannot be disconnected ends the disconnection with its error;
/// without one there is no error.
pub proof fn law_disconnect_stops_at_failure(cause: String, before: KernelTimes)
    ensures
        ({
            let actions = seq![
                KernelAction::DisconnectDataClients,
                KernelAction::DisconnectExecClients,
            ];
            let done = ActionOutcome::Done;
            let failed = ActionOutcome::Failed(cause);
            let data_failed = run(actions, seq![failed], at_start(before));
            let exec_failed = run(actions, seq![done, failed], at_start(before));
            let neither = run(actions, seq![done, done], at_start(before));
            &&& data_failed.passed == actions.len() && data_failed.failure == Some(cause)
            &&& exec_failed.passed == actions.len() && exec_failed.failure == Some(cause)
            &&& neither.passed == actions.len() && neither.failure is None
        }),
{
    reveal_with_fuel(run, 3);
}

/// Whether `a` comes before `b`.
pub open spec fn precedes<T>(s: Seq<T>, a: T, b: T) -> bool {
    exists|i: int, j: int| 0 <= i < j < s.len() && #[trigger] s[i] == a && #[trigger] s[j] == b
}

/// A start takes each of its actions once: the engines are started, then the trader is initialized,
/// then the clients are started, and then the time is recorded.
pub proof fn law_start_order()
    ensures
        ({
            let actions = start_actions();
            &&& actions.len() == 6
            &&& actions.no_duplicates()
            &&& precedes(actions, KernelAction::StartDataEngine, KernelAction::StartExecEngine)
            &&& precedes(actions, KernelAction::StartExecEngine, KernelAction::StartRiskEngine)
            &&& precedes(actions, KernelAction::StartRiskEngine, KernelAction::InitializeTrader)
            &&& precedes(actions, KernelAction::InitializeTrader, KernelAction::StartClients)
            &&& precedes(actions, KernelAction::StartClients, KernelAction::RecordStarted)
        }),
{
    let actions = start_actions();
    assert(actions[0] == KernelAction::StartDataEngine);
    assert(actions[1] == KernelAction::StartExecEngine);
    assert(actions[2] == KernelAction::StartRiskEngine);
    assert(actions[3] == KernelAction::InitializeTrader);
    assert(actions[4] == KernelAction::StartClients);
    assert(actions[5] == KernelAction::RecordStarted);
}

/// A shutdown takes each of its actions once: the clients are stopped, then the engines, then the
/// timers are cancelled, and then the time is recorded.
pub proof fn law_finalize_stop_order()
    ensures
        ({
            let actions = finalize_stop_actions();
            &&& actions.len() == 6
            &&& actions.no_duplicates()
            &&& precedes(actions, KernelAction::StopClients, KernelAction::StopDataEngine)
            &&& precedes(actions, KernelAction::StopDataEngine, KernelAction::StopExecEngine)
            &&& precedes(actions, KernelAction::StopExecEngine, KernelAction::StopRiskEngine)
            &&& precedes(actions, KernelAction::StopRiskEngine, KernelAction::CancelTimers)
            &&& precedes(actions, KernelAction::CancelTimers, KernelAction::RecordShutdown)
        }),
{
    let actions = finalize_stop_actions();
    assert(actions[0] == KernelAction::StopClients);
    assert(actions[1] == KernelAction::StopDataEngine);
    assert(actions[2] == KernelAction::StopExecEngine);
    assert(actions[3] == KernelAction::StopRiskEngine);
    assert(actions[4] == KernelAction::CancelTimers);
    assert(actions[5] == KernelAction::RecordShutdown);
}

/// A reset takes each of its actions once: the trader is reset, then the engines, and then the times
/// are forgotten.
pub proof fn law_reset_order()
    ensures
        ({
            let actions = reset_actions();
            &&& actions.len() == 5
            &&& actions.no_duplicates()
            &&& precedes(actions, KernelAction::ResetTrader, KernelAction::ResetDataEngine)
            &&& precedes(actions, KernelAction::ResetDataEngine, KernelAction::ResetExecEngine)
            &&& precedes(actions, KernelAction::ResetExecEngine, KernelAction::ResetRiskEngine)
            &&& precedes(actions, KernelAction::ResetRiskEngine, KernelAction::ClearTimes)
        }),
{
    let actions = reset_actions();
    assert(actions[0] == KernelAction::ResetTrader);
    assert(actions[1] == KernelAction::ResetDataEngine);
    assert(actions[2] == KernelAction::ResetExecEngine);
    assert(actions[3] == KernelAction::ResetRiskEngine);
    assert(actions[4] == KernelAction::ClearTimes);
}

/// A disposal takes each of its actions once: the trader is disposed of, then the engines are
/// stopped, and then these are disposed of.
pub proof fn law_dispose_order()
    ensures
        ({
            let actions = dispose_actions();
            &&& actions.len() == 7
            &&& actions.no_duplicates()
            &&& precedes(actions, KernelAction::DisposeTrader, KernelAction::StopDataEngine)
            &&& precedes(actions, KernelAction::StopDataEngine, KernelAction::StopExecEngine)
            &&& precedes(actions, KernelAction::StopExecEngine, KernelAction::StopRiskEngine)
            &&& precedes(actions, KernelAction::StopRiskEngine, KernelAction::DisposeDataEngine)
            &&& precedes(actions, KernelAction::DisposeDataEngine, KernelAction::DisposeExecEngine)
            &&& precedes(actions, KernelAction::DisposeExecEngine, KernelAction::DisposeRiskEngine)
        }),
{
    let actions = dispose_actions();
    assert(actions[0] == KernelAction::DisposeTrader);
    assert(actions[1] == KernelAction::StopDataEngine);
    assert(actions[2] == KernelAction::StopExecEngine);
    assert(actions[3] == KernelAction::StopRiskEngine);
    assert(actions[4] == KernelAction::DisposeDataEngine);
    assert(actions[5] == KernelAction::DisposeExecEngine);
    assert(actions[6] == KernelAction::DisposeRiskEngine);
}

/// Building a kernel takes every step exactly once, streaming only if it is configured. The message
/// bus is set before anything is created that uses it, each engine's handlers are registered after
/// the engine is created, streaming is set up behind these and before the trader is created, and the
/// clock is read last.
pub proof fn law_boot_takes_each_step_once(streaming: bool, step: BootStep)
    ensures
        ({
            let steps = boot_sequence(streaming);
            &&& steps.len() == if streaming { 17int } else { 16int }
            &&& steps.no_duplicates()
            &&& steps.contains(step) <==> !(step is SetupStreaming) || streaming
            &&& precedes(steps, BootStep::DetermineMachineId, BootStep::InitializeLogging)
            &&& precedes(steps, BootStep::InitializeLogging, BootStep::LogHeader)
            &&& precedes(steps, BootStep::LogHeader, BootStep::InitializeClock)
            &&& precedes(steps, BootStep::InitializeClock, BootStep::InitializeCache)
            &&& precedes(steps, BootStep::InitializeCache, BootStep::SetMessageBus)
            &&& precedes(steps, BootStep::SetMessageBus, BootStep::CreatePortfolio)
            &&& precedes(steps, BootStep::CreatePortfolio, BootStep::CreateRiskEngine)
            &&& precedes(steps, BootStep::CreateRiskEngine, BootStep::CreateExecEngine)
            &&& precedes(steps, BootStep::CreateExecEngine, BootStep::CreateOrderEmulator)
            &&& precedes(steps, BootStep::CreateOrderEmulator, BootStep::CreateDataEngine)
            &&& precedes(steps, BootStep::CreateDataEngine, BootStep::RegisterDataHandlers)
            &&& precedes(steps, BootStep::CreateRiskEngine, BootStep::RegisterRiskHandlers)
            &&& precedes(steps, BootStep::CreateExecEngine, BootStep::RegisterExecHandlers)
            &&& precedes(steps, BootStep::RegisterDataHandlers, BootStep::RegisterRiskHandlers)
            &&& precedes(steps, BootStep::RegisterRiskHandlers, BootStep::RegisterExecHandlers)
            &&& precedes(steps, BootStep::RegisterExecHandlers, BootStep::CreateTrader)
            &&& precedes(steps, BootStep::CreateTrader, BootStep::ReadClock)
            &&& streaming ==> precedes(
                steps,
                BootStep::RegisterExecHandlers,
                BootStep::SetupStreaming,
            ) && precedes(steps, BootStep::SetupStreaming, BootStep::CreateTrader)
        }),
{
    let steps = boot_sequence(streaming);
    let n = steps.len() as int;
    assert(steps[0] == BootStep::DetermineMachineId);
    assert(steps[1] == BootStep::InitializeLogging);
    assert(steps[2] == BootStep::LogHeader);
    assert(steps[3] == BootStep::InitializeClock);
    assert(steps[4] == BootStep::InitializeCache);
    assert(steps[5] == BootStep::SetMessageBus);
    assert(steps[6] == BootStep::CreatePortfolio);
    assert(steps[7] == BootStep::CreateRiskEngine);
    assert(steps[8] == BootStep::CreateExecEngine);
    assert(steps[9] == BootStep::CreateOrderEmulator);
    assert(steps[10] == BootStep::CreateDataEngine);
    assert(steps[11] == BootStep::RegisterDataHandlers);
    assert(steps[12] == BootStep::RegisterRiskHandlers);
    assert(steps[13] == BootStep::RegisterExecHandlers);
    assert(steps[n - 2] == BootStep::CreateTrader);
    assert(steps[n - 1] == BootStep::ReadClock);
    if streaming {
        assert(steps[14] == BootStep::SetupStreaming);
    }
}

/// A kernel is not built without a machine ID or without logging; no other step is fatal.
pub proof fn law_fatal_steps(step: BootStep)
    ensures
        step.spec_is_fatal() <==> step == BootStep::DetermineMachineId || step
            == BootStep::InitializeLogging,
{
}

/// Whether an action can end a procedure before all of its actions are taken.
pub open spec fn may_end(action: KernelAction) -> bool {
    ||| action == KernelAction::InitializeTrader
    ||| action == KernelAction::QueryTraderRunning
    ||| action == KernelAction::DisconnectDataClients
    ||| action == KernelAction::DisconnectExecClients
}

/// A procedure goes on to its next action whatever came of the last one, unless the trader could not
/// be initialized, does not run, or clients could not be disconnected: then it is over. Only a
/// failure to disconnect is an error, and only the recording of a time and a reset change the times.
pub proof fn law_what_an_action_leads_to(
    actions: Seq<KernelAction>,
    state: RunState,
    outcome: ActionOutcome,
)
    requires
        0 <= state.passed < actions.len(),
    ensures
        ({
            let action = actions[state.passed];
            let next = advance(actions, state, outcome);
            let disconnects = action == KernelAction::DisconnectDataClients || action
                == KernelAction::DisconnectExecClients;
            let over = {
                ||| action == KernelAction::InitializeTrader && outcome is Failed
                ||| disconnects && outcome is Failed
                ||| action == KernelAction::QueryTraderRunning && outcome == ActionOutcome::Running(
                    false,
                )
            };
            &&& next.passed == if over { actions.len() as int } else { state.passed + 1 }
            &&& next.failure == if disconnects && outcome is Failed {
                Some(outcome->Failed_0)
            } else {
                state.failure
            }
            &&& next.times.started == if action == KernelAction::RecordStarted && outcome is Time {
                Some(outcome->Time_0)
            } else if action == KernelAction::ClearTimes {
                None
            } else {
                state.times.started
            }
            &&& next.times.shutdown == if action == KernelAction::RecordShutdown
                && outcome is Time {
                Some(outcome->Time_0)
            } else if action == KernelAction::ClearTimes {
                None
            } else {
                state.times.shutdown
            }
        }),
{
}

proof fn lemma_run_goes_on(
    actions: Seq<KernelAction>,
    outcomes: Seq<ActionOutcome>,
    state: RunState,
)
    requires
        0 <= state.passed,
        state.passed + outcomes.len() <= actions.len(),
        forall|i: int|
            state.passed <= i < state.passed + outcomes.len() ==> !may_end(#[trigger] actions[i]),
    ensures
        run(actions, outcomes, state).passed == state.passed + outcomes.len(),
        run(actions, outcomes, state).failure == state.failure,
    decreases outcomes.len(),
{
    if outcomes.len() > 0 {
        assert(!may_end(actions[state.passed]));
        let next = advance(actions, state, outcomes.first());
        lemma_run_goes_on(actions, outcomes.drop_first(), next);
    }
}

/// A procedure without an action that can end it is carried out to its end, whatever comes of its
/// actions: after each answer exactly one more of them is behind.
pub proof fn law_procedure_is_carried_out(
    actions: Seq<KernelAction>,
    outcomes: Seq<ActionOutcome>,
    before: KernelTimes,
)
    requires
        outcomes.len() <= actions.len(),
        forall|i: int| 0 <= i < actions.len() ==> !may_end(#[trigger] actions[i]),
    ensures
        run(actions, outcomes, at_start(before)).passed == outcomes.len(),
        run(actions, outcomes, at_start(before)).failure is None,
{
    lemma_run_goes_on(actions, outcomes, at_start(before));
}

/// Disposal, shutdown, reset, starting the trader and connecting are always carried out to their
/// end, whatever comes of their actions: after each answer exactly one more action is behind.
pub proof fn law_disposal_is_carried_out(outcomes: Seq<ActionOutcome>, before: KernelTimes)
    ensures
        outcomes.len() <= dispose_actions().len() ==> run(
            dispose_actions(),
            outcomes,
            at_start(before),
        ).passed == outcomes.len(),
        outcomes.len() <= finalize_stop_actions().len() ==> run(
            finalize_stop_actions(),
            outcomes,
            at_start(before),
        ).passed == outcomes.len(),
        outcomes.len() <= reset_actions().len() ==> run(
            reset_actions(),
            outcomes,
            at_start(before),
        ).passed == outcomes.len(),
        outcomes.len() <= 1 ==> run(
            seq![KernelAction::StartTrader],
            outcomes,
            at_start(before),
        ).passed == outcomes.len(),
        outcomes.len() <= 2 ==> run(
            seq![KernelAction::ConnectDataClients, KernelAction::ConnectExecClients],
            outcomes,
            at_start(before),
        ).passed == outcomes.len(),
{
    let trader = seq![KernelAction::StartTrader];
    let connect = seq![KernelAction::ConnectDataClients, KernelAction::ConnectExecClients];
    if outcomes.len() <= dispose_actions().len() {
        law_procedure_is_carried_out(dispose_actions(), outcomes, before);
    }
    if outcomes.len() <= finalize_stop_actions().len() {
        law_procedure_is_carried_out(finalize_stop_actions(), outcomes, before);
    }
    if outcomes.len() <= reset_actions().len() {
        law_procedure_is_carried_out(reset_actions(), outcomes, before);
    }
    if outcomes.len() <= 1 {
        law_procedure_is_carried_out(trader, outcomes, before);
    }
    if outcomes.len() <= 2 {
        law_procedure_is_carried_out(connect, outcomes, before);
    }
}

/// What can come of an action: the clock is read for a time, the trader is asked whether it runs,
/// requests to the trader, to clients and for disconnection are done or fail, and all others are
/// done.
pub proof fn law_what_answers_an_action(action: KernelAction, cause: String, ts: u64, yes: bool)
    ensures
        ({
            let reads_clock = action == KernelAction::RecordStarted || action
                == KernelAction::RecordShutdown;
            let asks = action == KernelAction::QueryTraderRunning;
            let can_fail = {
                ||| action == KernelAction::InitializeTrader
                ||| action == KernelAction::StartTrader
                ||| action == KernelAction::StopTrader
                ||| action == KernelAction::ResetTrader
                ||| action == KernelAction::DisposeTrader
                ||| action == KernelAction::StartClients
                ||| action == KernelAction::StopClients
                ||| action == KernelAction::DisconnectDataClients
                ||| action == KernelAction::DisconnectExecClients
            };
            &&& answers(action, ActionOutcome::Time(ts)) <==> reads_clock
            &&& answers(action, ActionOutcome::Running(yes)) <==> asks
            &&& answers(action, ActionOutcome::Failed(cause)) <==> can_fail
            &&& answers(action, ActionOutcome::Done) <==> !reads_clock && !asks
        }),
{
}

/// The errors of several results are those of the results one by one, in order; there is none
/// exactly if every result is good.
pub proof fn law_errors_are_collected_in_order<E>(
    first: Seq<Result<(), E>>,
    second: Seq<Result<(), E>>,
    e: E,
)
    ensures
        errors_of(first + second) == errors_of(first) + errors_of(second),
        errors_of(seq![Err::<(), E>(e)]) == seq![e],
        errors_of(seq![Ok::<(), E>(())]).len() == 0,
        errors_of(second).len() == 0 <==> forall|i: int|
            0 <= i < second.len() ==> #[trigger] second[i] is Ok,
    decreases second.len(),
{
    reveal_with_fuel(errors_of, 2);
    let bad = seq![Err::<(), E>(e)];
    let good = seq![Ok::<(), E>(())];
    assert(bad.drop_last() =~= Seq::empty());
    assert(good.drop_last() =~= Seq::empty());
    assert(errors_of(bad) =~= seq![e]);
    if second.len() == 0 {
        assert(first + second =~= first);
        assert(errors_of(first) + Seq::<E>::empty() =~= errors_of(first));
    } else {
        let before = second.drop_last();
        law_errors_are_collected_in_order(first, before, e);
        assert((first + second).drop_last() =~= first + before);
        assert(forall|i: int| 0 <= i < before.len() ==> #[trigger] second[i] == before[i]);
        assert(second[second.len() - 1] == second.last());
        if let Err(last) = second.last() {
            assert((errors_of(first) + errors_of(before)).push(last) =~= errors_of(first)
                + errors_of(before).push(last));
        }
    }
}

/// Clients are all well exactly if each of them is, and otherwise every error is given.
pub proof fn law_client_errors_are_all_given<E>(results: Seq<Result<(), E>>, r: Result<(), Vec<E>>)
    requires
        collects(results, r),
    ensures
        r is Ok <==> forall|i: int| 0 <= i < results.len() ==> #[trigger] results[i] is Ok,
        r is Err ==> r->Err_0@ == errors_of(results),
{
    if exists|i: int| 0 <= i < results.len() && results[i] is Err {
        let i: int = choose|i: int| 0 <= i < results.len() && results[i] is Err;
        law_errors_are_collected_in_order(Seq::empty(), results, results[i]->Err_0);
    } else {
        lemma_no_errors(results);
    }
}

proof fn lemma_no_errors<E>(results: Seq<Result<(), E>>)
    requires
        forall|i: int| 0 <= i < results.len() ==> #[trigger] results[i] is Ok,
    ensures
        errors_of(results).len() == 0,
    decreases results.len(),
{
    if results.len() > 0 {
        let before = results.drop_last();
        assert forall|i: int| 0 <= i < before.len() implies #[trigger] before[i] is Ok by {
            assert(before[i] == results[i]);
        }
        lemma_no_errors(before);
        assert(results[results.len() - 1] is Ok);
    }
}

/// A registered logger keeps its own guard. One that was registered before is used only if there is
/// one and only where registering failed for that reason; any other failure is given as it is.
pub proof fn law_which_guard_keeps_logging<G>(
    registered: Result<G, LoggerFailure>,
    existing: Option<G>,
)
    ensures
        ({
            let r = logging_guard(registered, existing);
            let taken = registered is Err && registered->Err_0 is AlreadyRegistered;
            &&& registered is Ok ==> r is Ok && r->Ok_0 == registered->Ok_0
            &&& taken && existing is Some ==> r is Ok && r->Ok_0 == existing->0
            &&& taken && existing is None ==> r is Err && r->Err_0 == (KernelError::ForeignLogger {
                cause: registered->Err_0->AlreadyRegistered_cause,
            })
            &&& registered is Err && !taken ==> r is Err && r->Err_0 == (KernelError::Logging {
                cause: registered->Err_0->Other_cause,
            })
        }),
{
}

/// A configured instance ID is used whatever the fresh one is, and the fresh one is used where none
/// is configured.
pub proof fn law_configured_instance_id_wins(config: KernelConfig, fresh: Seq<char>)
    ensures
        config.instance_id is Some ==> config.spec_instance_id(fresh) == config.instance_id->0@,
        config.instance_id is None ==> config.spec_instance_id(fresh) == fresh,
{
}

/// What each error of a kernel says.
pub proof fn law_kernel_errors_quote_their_causes(cause: String)
    ensures
        KernelError::NoHostName.text() == "Failed to determine hostname"@,
        (KernelError::ForeignLogger { cause }).text()
            == "A non-Nautilus logger is already registered; cannot initialize Nautilus logging"@,
        (KernelError::Logging { cause }).text() == cause@,
        (KernelError::Tracing { cause }).text() == cause@,
        (KernelError::Disconnect { cause }).text() == cause@,
{
}

/// A procedure begins with none of its actions behind and without a failure, and kernels that differ
/// at most in their times have all else in common.
pub proof fn law_begin_and_sameness(
    procedure: Procedure,
    actions: Seq<KernelAction>,
    a: NautilusKernel,
    b: NautilusKernel,
)
    ensures
        procedure.begins(actions) ==> {
            &&& procedure.wf()
            &&& procedure.actions() == actions
            &&& procedure.state(a) == at_start(a.times())
        },
        at_start(a.times()).passed == 0 && at_start(a.times()).failure is None,
        a.times().started == a.ts_started && a.times().shutdown == a.ts_shutdown,
        a.same_but_times(b) && a.times() == b.times() ==> a == b,
{
}

} // verus!
