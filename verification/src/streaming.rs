//! Streaming of events from the message bus to files, through a dedicated writer.
//!
//! The message bus hands every message to a handler, which forwards the events that are stored. The
//! writer receives them in order, writes each one, and flushes from time to time.

use vstd::prelude::*;
use crate::text::{concat, concat3, str_eq};

verus! {

/// How long the writer waits for an event before it looks at the time again, in milliseconds.
pub const RECEIVE_TIMEOUT_MS: u64 = 100;

/// The name of the writer's thread.
pub const WRITER_THREAD: &'static str = "streaming-writer";

/// The topic pattern that the handler is subscribed to.
pub const ALL_TOPICS: &'static str = "*";

/// When a new file is begun, as configured.
#[derive(Clone, Copy, Debug, PartialEq, Eq, Structural)]
pub enum RotationConfig {
    /// Once a file has reached a size in bytes.
    Size { max_size: u64 },
    /// Once a file has reached an age.
    Interval { interval_ns: u64 },
    /// On scheduled dates.
    ScheduledDates,
    /// Never.
    NoRotation,
}

/// When the writer begins a new file.
#[derive(Clone, Copy, Debug, PartialEq, Eq, Structural)]
pub enum WriterRotation {
    /// Once a file has reached a size in bytes.
    Size { max_size: u64 },
    /// Once a file has reached an age.
    Interval { interval_ns: u64 },
    /// Never.
    NoRotation,
}

/// Configuration of streaming.
#[derive(Clone, Debug)]
pub struct StreamingConfig {
    /// The path under which the files of all runs stand.
    pub catalog_path: String,
    /// The protocol of the file system.
    pub fs_protocol: String,
    /// How long events are kept in memory before they are flushed, in milliseconds.
    pub flush_interval_ms: u64,
    /// When a new file is begun.
    pub rotation_config: RotationConfig,
}

/// What setting up streaming consists of.
#[derive(Clone, Copy, Debug, PartialEq, Eq, Structural)]
pub enum SetupStep {
    /// Creates the catalog directory.
    CreateDirectory,
    /// Opens the object store at the catalog path.
    OpenStore,
    /// Spawns the thread of the writer.
    SpawnWriter,
    /// Subscribes the handler to the message bus, which cannot fail.
    Subscribe,
}

/// What has to be done next, with all that it takes.
pub enum SetupAction<'a> {
    /// Creates a directory and those that it stands in.
    CreateDirectory { path: &'a str },
    /// Opens the object store that the writer writes to.
    OpenStore { path: &'a str },
    /// Spawns the thread of the writer.
    SpawnWriter { rotation: WriterRotation, flush_interval_ms: u64 },
    /// Subscribes one handler to the topics.
    Subscribe { topics: &'static str },
}

/// The set-up of streaming for a run.
pub struct StreamingSetup {
    /// The path under which the files of this run stand.
    pub catalog_path: String,
    /// When the writer begins a new file.
    pub rotation: WriterRotation,
    /// How long events are kept in memory before they are flushed, in milliseconds.
    pub flush_interval_ms: u64,
    /// What has to be done, in order.
    pub steps: Vec<SetupStep>,
    /// How many steps have succeeded.
    pub succeeded: usize,
    /// Whether a step has failed, which ends the set-up.
    pub failed: bool,
}

/// How far a set-up has come.
pub struct SetupState {
    /// How many steps have succeeded.
    pub succeeded: int,
    /// Whether a step has failed.
    pub failed: bool,
}

/// What can go wrong while streaming is set up.
#[derive(Debug)]
pub enum StreamingError {
    /// The catalog directory could not be created.
    CreateDirectory { path: String, cause: String },
    /// The object store could not be opened.
    OpenStore { cause: String },
    /// The thread of the writer could not be spawned.
    SpawnWriter { cause: String },
}

impl StreamingError {
    /// The message of the error.
    pub open spec fn text(self) -> Seq<char> {
        match self {
            StreamingError::CreateDirectory { path, cause } =>
                "failed to create streaming catalog directory '"@ + path@ + ("': "@ + cause@),
            StreamingError::OpenStore { cause } => cause@,
            StreamingError::SpawnWriter { cause } =>
                "failed to spawn streaming writer thread: "@ + cause@,
        }
    }

    /// The message of the error.
    pub fn message(&self) -> (r: String)
        ensures
            r@ == self.text(),
    {
        match self {
            StreamingError::CreateDirectory { path, cause } => {
                let tail = concat("': ", cause);
                concat3("failed to create streaming catalog directory '", path, &tail)
            },
            StreamingError::OpenStore { cause } => cause.clone(),
            StreamingError::SpawnWriter { cause } => concat(
                "failed to spawn streaming writer thread: ",
                cause,
            ),
        }
    }
}

impl RotationConfig {
    /// The rotation that the writer uses; it knows no scheduled dates.
    pub open spec fn spec_writer_rotation(self) -> WriterRotation {
        match self {
            RotationConfig::Size { max_size } => WriterRotation::Size { max_size },
            RotationConfig::Interval { interval_ns } => WriterRotation::Interval { interval_ns },
            RotationConfig::ScheduledDates => WriterRotation::NoRotation,
            RotationConfig::NoRotation => WriterRotation::NoRotation,
        }
    }

    /// Returns the rotation that the writer uses.
    ///
    /// Scheduled dates are not supported: the writer then never begins a new file.
    pub fn writer_rotation(self) -> (r: WriterRotation)
        ensures
            r == self.spec_writer_rotation(),
    {
        match self {
            RotationConfig::Size { max_size } => WriterRotation::Size { max_size },
            RotationConfig::Interval { interval_ns } => WriterRotation::Interval { interval_ns },
            RotationConfig::ScheduledDates => WriterRotation::NoRotation,
            RotationConfig::NoRotation => WriterRotation::NoRotation,
        }
    }
}

/// The path under which the files of one run stand.
pub open spec fn run_path(
    catalog_path: Seq<char>,
    environment: Seq<char>,
    instance_id: Seq<char>,
) -> Seq<char> {
    catalog_path + "/"@ + environment + ("/"@ + instance_id)
}

/// What has to be done to set up streaming, in order; a directory is created on the local file
/// system only, and the handler is subscribed last.
pub open spec fn setup_steps(fs_protocol: Seq<char>) -> Seq<SetupStep> {
    if fs_protocol == "file"@ {
        seq![
            SetupStep::CreateDirectory,
            SetupStep::OpenStore,
            SetupStep::SpawnWriter,
            SetupStep::Subscribe,
        ]
    } else {
        seq![SetupStep::OpenStore, SetupStep::SpawnWriter, SetupStep::Subscribe]
    }
}

/// The state after a step that succeeded, or did not; after a failure nothing more is done.
pub open spec fn advance(state: SetupState, ok: bool) -> SetupState {
    if state.failed {
        state
    } else if ok {
        SetupState { succeeded: state.succeeded + 1, failed: false }
    } else {
        SetupState { succeeded: state.succeeded, failed: true }
    }
}

/// The state after several steps, from the start.
pub open spec fn setup_run(outcomes: Seq<bool>) -> SetupState
    decreases outcomes.len(),
{
    if outcomes.len() == 0 {
        SetupState { succeeded: 0, failed: false }
    } else {
        advance(setup_run(outcomes.drop_last()), outcomes.last())
    }
}

/// The step that comes next, if one does.
pub open spec fn next_step(steps: Seq<SetupStep>, state: SetupState) -> Option<SetupStep> {
    if !state.failed && 0 <= state.succeeded < steps.len() {
        Some(steps[state.succeeded])
    } else {
        None
    }
}

/// Returns the set-up of streaming for a run, of which nothing is done yet.
pub fn setup_streaming(config: &StreamingConfig, environment: &str, instance_id: &str) -> (setup:
    StreamingSetup)
    ensures
        setup.catalog_path@ == run_path(config.catalog_path@, environment@, instance_id@),
        setup.rotation == config.rotation_config.spec_writer_rotation(),
        setup.flush_interval_ms == config.flush_interval_ms,
        setup.steps@ == setup_steps(config.fs_protocol@),
        setup.state() == setup_run(Seq::empty()),
{
    let tail = concat("/", instance_id);
    let head = concat3(&config.catalog_path, "/", environment);
    let catalog_path = concat(&head, &tail);
    let mut steps: Vec<SetupStep> = Vec::new();
    if str_eq(&config.fs_protocol, "file") {
        steps.push(SetupStep::CreateDirectory);
    }
    steps.push(SetupStep::OpenStore);
    steps.push(SetupStep::SpawnWriter);
    steps.push(SetupStep::Subscribe);
    assert(steps@ =~= setup_steps(config.fs_protocol@));
    StreamingSetup {
        catalog_path,
        rotation: config.rotation_config.writer_rotation(),
        flush_interval_ms: config.flush_interval_ms,
        steps,
        succeeded: 0,
        failed: false,
    }
}

impl StreamingSetup {
    /// How far the set-up has come.
    pub open spec fn state(self) -> SetupState {
        SetupState { succeeded: self.succeeded as int, failed: self.failed }
    }

    /// Whether two set-ups differ at most in how far they have come.
    pub open spec fn same_plan(self, other: Self) -> bool {
        &&& self.catalog_path == other.catalog_path
        &&& self.rotation == other.rotation
        &&& self.flush_interval_ms == other.flush_interval_ms
        &&& self.steps == other.steps
    }

    /// Returns what has to be done next, or `None` if the set-up is complete or has failed.
    pub fn next_action(&self) -> (action: Option<SetupAction<'_>>)
        ensures
            match next_step(self.steps@, self.state()) {
                None => action is None,
                Some(SetupStep::CreateDirectory) => {
                    &&& action matches Some(SetupAction::CreateDirectory { path })
                    &&& path@ == self.catalog_path@
                },
                Some(SetupStep::OpenStore) => {
                    &&& action matches Some(SetupAction::OpenStore { path })
                    &&& path@ == self.catalog_path@
                },
                Some(SetupStep::SpawnWriter) => {
                    &&& action matches Some(SetupAction::SpawnWriter { rotation, flush_interval_ms })
                    &&& rotation == self.rotation
                    &&& flush_interval_ms == self.flush_interval_ms
                },
                Some(SetupStep::Subscribe) => {
                    &&& action matches Some(SetupAction::Subscribe { topics })
                    &&& topics@ == ALL_TOPICS@
                },
            },
    {
        if self.failed || self.succeeded >= self.steps.len() {
            return None;
        }
        match self.steps[self.succeeded] {
            SetupStep::CreateDirectory => Some(
                SetupAction::CreateDirectory { path: self.catalog_path.as_str() },
            ),
            SetupStep::OpenStore => Some(
                SetupAction::OpenStore { path: self.catalog_path.as_str() },
            ),
            SetupStep::SpawnWriter => Some(
                SetupAction::SpawnWriter {
                    rotation: self.rotation,
                    flush_interval_ms: self.flush_interval_ms,
                },
            ),
            SetupStep::Subscribe => Some(SetupAction::Subscribe { topics: ALL_TOPICS }),
        }
    }

    /// Takes what came of what was done.
    ///
    /// # Errors
    ///
    /// Returns an error if it failed, which ends the set-up.
    pub fn record(&mut self, outcome: Result<(), String>) -> (r: Result<(), StreamingError>)
        requires
            next_step(old(self).steps@, old(self).state()) is Some,
            next_step(old(self).steps@, old(self).state()) == Some(SetupStep::Subscribe)
                ==> outcome is Ok,
        ensures
            final(self).same_plan(*old(self)),
            final(self).state() == advance(old(self).state(), outcome is Ok),
            match outcome {
                Ok(()) => r is Ok,
                Err(cause) => {
                    &&& r is Err
                    &&& match next_step(old(self).steps@, old(self).state())->0 {
                        SetupStep::CreateDirectory => r->Err_0 is CreateDirectory
                            && r->Err_0->CreateDirectory_path@ == old(self).catalog_path@
                            && r->Err_0->CreateDirectory_cause == cause,
                        SetupStep::OpenStore => r->Err_0 == (StreamingError::OpenStore { cause }),
                        _ => r->Err_0 == (StreamingError::SpawnWriter { cause }),
                    }
                },
            },
    {
        let step = self.steps[self.succeeded];
        match outcome {
            Ok(()) => {
                assert(self.succeeded < self.steps.len());
                self.succeeded = self.succeeded + 1;
                Ok(())
            },
            Err(cause) => {
                self.failed = true;
                match step {
                    SetupStep::CreateDirectory => Err(
                        StreamingError::CreateDirectory { path: self.catalog_path.clone(), cause },
                    ),
                    SetupStep::OpenStore => Err(StreamingError::OpenStore { cause }),
                    _ => Err(StreamingError::SpawnWriter { cause }),
                }
            },
        }
    }

    /// Returns whether everything is done.
    pub fn is_complete(&self) -> (r: bool)
        ensures
            r == (!self.failed && self.succeeded >= self.steps@.len()),
    {
        !self.failed && self.succeeded >= self.steps.len()
    }
}

proof fn lemma_setup_run(outcomes: Seq<bool>)
    ensures
        !setup_run(outcomes).failed <==> (forall|i: int|
            0 <= i < outcomes.len() ==> #[trigger] outcomes[i]),
        !setup_run(outcomes).failed ==> setup_run(outcomes).succeeded == outcomes.len(),
    decreases outcomes.len(),
{
    if outcomes.len() > 0 {
        let before = outcomes.drop_last();
        lemma_setup_run(before);
        assert(forall|i: int| 0 <= i < before.len() ==> #[trigger] outcomes[i] == before[i]);
        assert(outcomes[outcomes.len() - 1] == outcomes.last());
    }
}

/// A handler is subscribed once, as the last step, after all other steps have succeeded, and not
/// at all if one of them fails; the set-up is complete exactly if every step has succeeded.
pub proof fn law_subscribed_once_set_up(fs_protocol: Seq<char>, outcomes: Seq<bool>)
    requires
        outcomes.len() <= setup_steps(fs_protocol).len(),
    ensures
        ({
            let steps = setup_steps(fs_protocol);
            let n = steps.len();
            let all_ok = forall|i: int| 0 <= i < outcomes.len() ==> #[trigger] outcomes[i];
            let state = setup_run(outcomes);
            &&& forall|i: int|
                0 <= i < n ==> (#[trigger] steps[i] is Subscribe <==> i == n - 1)
            &&& next_step(steps, state) == Some(SetupStep::Subscribe) <==> all_ok && outcomes.len()
                == n - 1
            &&& !state.failed && state.succeeded == n <==> all_ok && outcomes.len() == n
            &&& !all_ok ==> next_step(steps, state) is None
        }),
{
    lemma_setup_run(outcomes);
}

/// The kinds of event that are stored.
#[derive(Clone, Copy, Debug, PartialEq, Eq, Structural)]
pub enum EventKind {
    QuoteTick,
    TradeTick,
    Bar,
    OrderBookDelta,
    OrderBookDepth10,
    IndexPriceUpdate,
    MarkPriceUpdate,
    InstrumentClose,
    InstrumentAny,
    OrderFilled,
    OrderAccepted,
    OrderCanceled,
    OrderRejected,
    OrderInitialized,
    OrderSubmitted,
    OrderDenied,
    OrderExpired,
    OrderTriggered,
    OrderUpdated,
    OrderPendingCancel,
    OrderPendingUpdate,
    OrderCancelRejected,
    OrderModifyRejected,
    OrderEmulated,
    OrderReleased,
    PositionOpened,
    PositionChanged,
    PositionClosed,
    PositionAdjusted,
    AccountState,
    FundingRateUpdate,
}

/// The kind of event that a type name stands for, if such events are stored.
pub open spec fn kind_of(event_type: Seq<char>) -> Option<EventKind> {
    if exists|kind: EventKind| kind.spec_name() == event_type {
        Some(choose|kind: EventKind| kind.spec_name() == event_type)
    } else {
        None
    }
}

impl EventKind {
    /// The name of the type of such an event.
    pub open spec fn spec_name(self) -> Seq<char> {
        match self {
            EventKind::QuoteTick => "QuoteTick"@,
            EventKind::TradeTick => "TradeTick"@,
            EventKind::Bar => "Bar"@,
            EventKind::OrderBookDelta => "OrderBookDelta"@,
            EventKind::OrderBookDepth10 => "OrderBookDepth10"@,
            EventKind::IndexPriceUpdate => "IndexPriceUpdate"@,
            EventKind::MarkPriceUpdate => "MarkPriceUpdate"@,
            EventKind::InstrumentClose => "InstrumentClose"@,
            EventKind::InstrumentAny => "InstrumentAny"@,
            EventKind::OrderFilled => "OrderFilled"@,
            EventKind::OrderAccepted => "OrderAccepted"@,
            EventKind::OrderCanceled => "OrderCanceled"@,
            EventKind::OrderRejected => "OrderRejected"@,
            EventKind::OrderInitialized => "OrderInitialized"@,
            EventKind::OrderSubmitted => "OrderSubmitted"@,
            EventKind::OrderDenied => "OrderDenied"@,
            EventKind::OrderExpired => "OrderExpired"@,
            EventKind::OrderTriggered => "OrderTriggered"@,
            EventKind::OrderUpdated => "OrderUpdated"@,
            EventKind::OrderPendingCancel => "OrderPendingCancel"@,
            EventKind::OrderPendingUpdate => "OrderPendingUpdate"@,
            EventKind::OrderCancelRejected => "OrderCancelRejected"@,
            EventKind::OrderModifyRejected => "OrderModifyRejected"@,
            EventKind::OrderEmulated => "OrderEmulated"@,
            EventKind::OrderReleased => "OrderReleased"@,
            EventKind::PositionOpened => "PositionOpened"@,
            EventKind::PositionChanged => "PositionChanged"@,
            EventKind::PositionClosed => "PositionClosed"@,
            EventKind::PositionAdjusted => "PositionAdjusted"@,
            EventKind::AccountState => "AccountState"@,
            EventKind::FundingRateUpdate => "FundingRateUpdate"@,
        }
    }

    /// Returns the name of the type of such an event.
    pub fn name(self) -> (r: &'static str)
        ensures
            r@ == self.spec_name(),
    {
        match self {
            EventKind::QuoteTick => "QuoteTick",
            EventKind::TradeTick => "TradeTick",
            EventKind::Bar => "Bar",
            EventKind::OrderBookDelta => "OrderBookDelta",
            EventKind::OrderBookDepth10 => "OrderBookDepth10",
            EventKind::IndexPriceUpdate => "IndexPriceUpdate",
            EventKind::MarkPriceUpdate => "MarkPriceUpdate",
            EventKind::InstrumentClose => "InstrumentClose",
            EventKind::InstrumentAny => "InstrumentAny",
            EventKind::OrderFilled => "OrderFilled",
            EventKind::OrderAccepted => "OrderAccepted",
            EventKind::OrderCanceled => "OrderCanceled",
            EventKind::OrderRejected => "OrderRejected",
            EventKind::OrderInitialized => "OrderInitialized",
            EventKind::OrderSubmitted => "OrderSubmitted",
            EventKind::OrderDenied => "OrderDenied",
            EventKind::OrderExpired => "OrderExpired",
            EventKind::OrderTriggered => "OrderTriggered",
            EventKind::OrderUpdated => "OrderUpdated",
            EventKind::OrderPendingCancel => "OrderPendingCancel",
            EventKind::OrderPendingUpdate => "OrderPendingUpdate",
            EventKind::OrderCancelRejected => "OrderCancelRejected",
            EventKind::OrderModifyRejected => "OrderModifyRejected",
            EventKind::OrderEmulated => "OrderEmulated",
            EventKind::OrderReleased => "OrderReleased",
            EventKind::PositionOpened => "PositionOpened",
            EventKind::PositionChanged => "PositionChanged",
            EventKind::PositionClosed => "PositionClosed",
            EventKind::PositionAdjusted => "PositionAdjusted",
            EventKind::AccountState => "AccountState",
            EventKind::FundingRateUpdate => "FundingRateUpdate",
        }
    }

    /// Returns the kind of event that a type name stands for, if such events are stored.
    pub fn from_name(event_type: &str) -> (r: Option<EventKind>)
        ensures
            r == kind_of(event_type@),
    {
        let r: Option<EventKind> = if str_eq(event_type, "QuoteTick") {
            Some(EventKind::QuoteTick)
        } else if str_eq(event_type, "TradeTick") {
            Some(EventKind::TradeTick)
        } else if str_eq(event_type, "Bar") {
            Some(EventKind::Bar)
        } else if str_eq(event_type, "OrderBookDelta") {
            Some(EventKind::OrderBookDelta)
        } else if str_eq(event_type, "OrderBookDepth10") {
            Some(EventKind::OrderBookDepth10)
        } else if str_eq(event_type, "IndexPriceUpdate") {
            Some(EventKind::IndexPriceUpdate)
        } else if str_eq(event_type, "MarkPriceUpdate") {
            Some(EventKind::MarkPriceUpdate)
        } else if str_eq(event_type, "InstrumentClose") {
            Some(EventKind::InstrumentClose)
        } else if str_eq(event_type, "InstrumentAny") {
            Some(EventKind::InstrumentAny)
        } else if str_eq(event_type, "OrderFilled") {
            Some(EventKind::OrderFilled)
        } else if str_eq(event_type, "OrderAccepted") {
            Some(EventKind::OrderAccepted)
        } else if str_eq(event_type, "OrderCanceled") {
            Some(EventKind::OrderCanceled)
        } else if str_eq(event_type, "OrderRejected") {
            Some(EventKind::OrderRejected)
        } else if str_eq(event_type, "OrderInitialized") {
            Some(EventKind::OrderInitialized)
        } else if str_eq(event_type, "OrderSubmitted") {
            Some(EventKind::OrderSubmitted)
        } else if str_eq(event_type, "OrderDenied") {
            Some(EventKind::OrderDenied)
        } else if str_eq(event_type, "OrderExpired") {
            Some(EventKind::OrderExpired)
        } else if str_eq(event_type, "OrderTriggered") {
            Some(EventKind::OrderTriggered)
        } else if str_eq(event_type, "OrderUpdated") {
            Some(EventKind::OrderUpdated)
        } else if str_eq(event_type, "OrderPendingCancel") {
            Some(EventKind::OrderPendingCancel)
        } else if str_eq(event_type, "OrderPendingUpdate") {
            Some(EventKind::OrderPendingUpdate)
        } else if str_eq(event_type, "OrderCancelRejected") {
            Some(EventKind::OrderCancelRejected)
        } else if str_eq(event_type, "OrderModifyRejected") {
            Some(EventKind::OrderModifyRejected)
        } else if str_eq(event_type, "OrderEmulated") {
            Some(EventKind::OrderEmulated)
        } else if str_eq(event_type, "OrderReleased") {
            Some(EventKind::OrderReleased)
        } else if str_eq(event_type, "PositionOpened") {
            Some(EventKind::PositionOpened)
        } else if str_eq(event_type, "PositionChanged") {
            Some(EventKind::PositionChanged)
        } else if str_eq(event_type, "PositionClosed") {
            Some(EventKind::PositionClosed)
        } else if str_eq(event_type, "PositionAdjusted") {
            Some(EventKind::PositionAdjusted)
        } else if str_eq(event_type, "AccountState") {
            Some(EventKind::AccountState)
        } else if str_eq(event_type, "FundingRateUpdate") {
            Some(EventKind::FundingRateUpdate)
        } else {
            None
        };
        proof {
            if let Some(kind) = r {
                law_kind_of_name(kind);
            }
        }
        r
    }
}

/// The name of the type of a message that holds several order book deltas.
pub const ORDER_BOOK_DELTAS: &'static str = "OrderBookDeltas";

/// An event on its way from the message bus to the writer.
pub struct StreamedEvent<T> {
    /// The kind of the event.
    pub kind: EventKind,
    /// The event.
    pub data: T,
}

/// The items of a message as events of one kind, in their order.
pub open spec fn events_of<T>(kind: EventKind, items: Seq<T>) -> Seq<StreamedEvent<T>> {
    items.map_values(|data: T| StreamedEvent { kind, data })
}

/// What is forwarded of a message of the named type that holds `items`.
///
/// The deltas of an order book are forwarded one by one, an event that is stored as it is, and any
/// other message not at all.
pub open spec fn forwarded<T>(event_type: Seq<char>, items: Seq<T>) -> Seq<StreamedEvent<T>> {
    if event_type == ORDER_BOOK_DELTAS@ {
        events_of(EventKind::OrderBookDelta, items)
    } else {
        match kind_of(event_type) {
            Some(kind) => events_of(kind, items),
            None => Seq::empty(),
        }
    }
}

/// Returns the events to forward of a message of the named type.
///
/// The items of a message are its deltas if it holds several, else the message itself.
pub fn forward<T>(event_type: &str, items: Vec<T>) -> (events: Vec<StreamedEvent<T>>)
    ensures
        events@ == forwarded(event_type@, items@),
{
    let ghost all = items@;
    let kind: EventKind = if str_eq(event_type, ORDER_BOOK_DELTAS) {
        EventKind::OrderBookDelta
    } else {
        match EventKind::from_name(event_type) {
            Some(kind) => kind,
            None => {
                return Vec::new();
            },
        }
    };
    let mut events: Vec<StreamedEvent<T>> = Vec::new();
    for data in it: items
        invariant
            it.seq() == all,
            events@ == events_of(kind, all.take(it.index() as int)),
    {
        events.push(StreamedEvent { kind, data });
        assert(events@ =~= events_of(kind, all.take(it.index() as int + 1)));
    }
    assert(all.take(all.len() as int) =~= all);
    events
}

/// How the writer stores an event.
#[derive(Clone, Copy, Debug, PartialEq, Eq, Structural)]
pub enum WriteCall {
    /// As an event of its kind.
    Event(EventKind),
    /// As an instrument definition.
    Instrument,
}

/// How an event of a kind is written.
pub open spec fn call_for(kind: EventKind) -> WriteCall {
    if kind is InstrumentAny {
        WriteCall::Instrument
    } else {
        WriteCall::Event(kind)
    }
}

/// Returns how an event of the named type is written, or `None` if it is not.
pub fn dispatch_write(event_type: &str) -> (call: Option<WriteCall>)
    ensures
        call == (match kind_of(event_type@) {
            Some(kind) => Some(call_for(kind)),
            None => None,
        }),
{
    match EventKind::from_name(event_type) {
        None => None,
        Some(EventKind::InstrumentAny) => Some(WriteCall::Instrument),
        Some(kind) => Some(WriteCall::Event(kind)),
    }
}

/// Returns what is said when an event could not be written.
pub fn write_failure(kind: EventKind, cause: &str) -> (r: String)
    ensures
        r@ == "Failed to write "@ + kind.spec_name() + (": "@ + cause@),
{
    let tail = concat(": ", cause);
    concat3("Failed to write ", kind.name(), &tail)
}

/// What the writer gets when it waits for the next event.
pub enum Received<T> {
    /// An event.
    Event(T),
    /// None has come in time.
    Timeout,
    /// None will come any more.
    Disconnected,
}

/// What the writer does next.
pub struct WriterTurn<T> {
    /// The event to write, if there is one.
    pub write: Option<T>,
    /// Whether to close the writer, without a look at the time.
    pub stop: bool,
}

/// What the writer does for what it received.
pub open spec fn turn_of<T>(received: Received<T>) -> WriterTurn<T> {
    match received {
        Received::Event(event) => WriterTurn { write: Some(event), stop: false },
        Received::Timeout => WriterTurn { write: None, stop: false },
        Received::Disconnected => WriterTurn { write: None, stop: true },
    }
}

/// The writer's clock.
pub struct StreamWriter {
    flush_interval_ms: u64,
    last_flush_ns: u128,
}

impl StreamWriter {
    /// The least time between two flushes, in nanoseconds.
    pub closed spec fn flush_interval_ns(self) -> int {
        self.flush_interval_ms * 1_000_000
    }

    /// When the writer last flushed, or else when it was created, in nanoseconds.
    pub closed spec fn last_flush(self) -> int {
        self.last_flush_ns as int
    }

    /// Creates the clock of a writer that starts at `now_ns`.
    pub fn new(flush_interval_ms: u64, now_ns: u128) -> (r: Self)
        ensures
            r.flush_interval_ns() == flush_interval_ms * 1_000_000,
            r.last_flush() == now_ns,
    {
        StreamWriter { flush_interval_ms, last_flush_ns: now_ns }
    }

    /// Returns what to do for what was received.
    pub fn receive<T>(&self, received: Received<T>) -> (turn: WriterTurn<T>)
        ensures
            turn == turn_of(received),
    {
        match received {
            Received::Event(event) => WriterTurn { write: Some(event), stop: false },
            Received::Timeout => WriterTurn { write: None, stop: false },
            Received::Disconnected => WriterTurn { write: None, stop: true },
        }
    }

    /// Returns whether the writer has to flush.
    pub fn flush_due(&self, now_ns: u128) -> (r: bool)
        ensures
            r == (self.flush_interval_ns() == 0 || now_ns - self.last_flush()
                >= self.flush_interval_ns()),
    {
        let interval_ns: u128 = self.flush_interval_ms as u128 * 1_000_000;
        if now_ns < self.last_flush_ns {
            interval_ns == 0
        } else {
            now_ns - self.last_flush_ns >= interval_ns
        }
    }

    /// Notes that the writer has flushed, whether or not that succeeded.
    pub fn flushed(&mut self, now_ns: u128)
        ensures
            final(self).flush_interval_ns() == old(self).flush_interval_ns(),
            final(self).last_flush() == now_ns,
    {
        self.last_flush_ns = now_ns;
    }
}

/// The events that the writer writes of all it receives, turn by turn until it stops.
pub open spec fn written<T>(received: Seq<Received<T>>) -> Seq<T>
    decreases received.len(),
{
    if received.len() == 0 {
        Seq::empty()
    } else {
        let turn = turn_of(received.first());
        let now = match turn.write {
            Some(event) => seq![event],
            None => Seq::empty(),
        };
        if turn.stop {
            now
        } else {
            now + written(received.drop_first())
        }
    }
}

/// All events among what is received, in their order.
pub open spec fn received_events<T>(received: Seq<Received<T>>) -> Seq<T>
    decreases received.len(),
{
    if received.len() == 0 {
        Seq::empty()
    } else {
        match received.first() {
            Received::Event(event) => seq![event] + received_events(received.drop_first()),
            _ => received_events(received.drop_first()),
        }
    }
}

/// Type names tell the kinds of event apart.
pub proof fn law_names_distinct(a: EventKind, b: EventKind)
    ensures
        a.spec_name() == b.spec_name() ==> a == b,
        a.spec_name() != ORDER_BOOK_DELTAS@,
{
    reveal_strlit("QuoteTick");
    reveal_strlit("TradeTick");
    reveal_strlit("Bar");
    reveal_strlit("OrderBookDelta");
    reveal_strlit("OrderBookDepth10");
    reveal_strlit("IndexPriceUpdate");
    reveal_strlit("MarkPriceUpdate");
    reveal_strlit("InstrumentClose");
    reveal_strlit("InstrumentAny");
    reveal_strlit("OrderFilled");
    reveal_strlit("OrderAccepted");
    reveal_strlit("OrderCanceled");
    reveal_strlit("OrderRejected");
    reveal_strlit("OrderInitialized");
    reveal_strlit("OrderSubmitted");
    reveal_strlit("OrderDenied");
    reveal_strlit("OrderExpired");
    reveal_strlit("OrderTriggered");
    reveal_strlit("OrderUpdated");
    reveal_strlit("OrderPendingCancel");
    reveal_strlit("OrderPendingUpdate");
    reveal_strlit("OrderCancelRejected");
    reveal_strlit("OrderModifyRejected");
    reveal_strlit("OrderEmulated");
    reveal_strlit("OrderReleased");
    reveal_strlit("PositionOpened");
    reveal_strlit("PositionChanged");
    reveal_strlit("PositionClosed");
    reveal_strlit("PositionAdjusted");
    reveal_strlit("AccountState");
    reveal_strlit("FundingRateUpdate");
    reveal_strlit("OrderBookDeltas");
    assert("QuoteTick"@.len() == 9 && "QuoteTick"@[0] == 'Q');
    assert("TradeTick"@.len() == 9 && "TradeTick"@[0] == 'T');
    assert("Bar"@.len() == 3);
    assert("OrderBookDelta"@.len() == 14 && "OrderBookDelta"@[8] == 'k');
    assert("OrderBookDepth10"@.len() == 16 && "OrderBookDepth10"@[5] == 'B');
    assert("IndexPriceUpdate"@.len() == 16 && "IndexPriceUpdate"@[5] == 'P');
    assert("MarkPriceUpdate"@.len() == 15 && "MarkPriceUpdate"@[0] == 'M');
    assert("InstrumentClose"@.len() == 15 && "InstrumentClose"@[0] == 'I');
    assert("InstrumentAny"@.len() == 13 && "InstrumentAny"@[7] == 'e');
    assert("OrderFilled"@.len() == 11 && "OrderFilled"@[5] == 'F');
    assert("OrderAccepted"@.len() == 13 && "OrderAccepted"@[7] == 'c');
    assert("OrderCanceled"@.len() == 13 && "OrderCanceled"@[7] == 'n');
    assert("OrderRejected"@.len() == 13 && "OrderRejected"@[7] == 'j');
    assert("OrderInitialized"@.len() == 16 && "OrderInitialized"@[5] == 'I');
    assert("OrderSubmitted"@.len() == 14 && "OrderSubmitted"@[8] == 'm');
    assert("OrderDenied"@.len() == 11 && "OrderDenied"@[5] == 'D');
    assert("OrderExpired"@.len() == 12 && "OrderExpired"@[5] == 'E');
    assert("OrderTriggered"@.len() == 14 && "OrderTriggered"@[8] == 'g');
    assert("OrderUpdated"@.len() == 12 && "OrderUpdated"@[5] == 'U');
    assert("OrderPendingCancel"@.len() == 18 && "OrderPendingCancel"@[12] == 'C');
    assert("OrderPendingUpdate"@.len() == 18 && "OrderPendingUpdate"@[12] == 'U');
    assert("OrderCancelRejected"@.len() == 19 && "OrderCancelRejected"@[5] == 'C');
    assert("OrderModifyRejected"@.len() == 19 && "OrderModifyRejected"@[5] == 'M');
    assert("OrderEmulated"@.len() == 13 && "OrderEmulated"@[7] == 'u');
    assert("OrderReleased"@.len() == 13 && "OrderReleased"@[7] == 'l');
    assert("PositionOpened"@.len() == 14 && "PositionOpened"@[8] == 'O');
    assert("PositionChanged"@.len() == 15 && "PositionChanged"@[0] == 'P');
    assert("PositionClosed"@.len() == 14 && "PositionClosed"@[8] == 'C');
    assert("PositionAdjusted"@.len() == 16 && "PositionAdjusted"@[5] == 'i');
    assert("AccountState"@.len() == 12 && "AccountState"@[5] == 'n');
    assert("FundingRateUpdate"@.len() == 17);
    assert("OrderBookDeltas"@.len() == 15 && "OrderBookDeltas"@[0] == 'O');
}

/// A kind of event is found by the name of its type.
pub proof fn law_kind_of_name(kind: EventKind)
    ensures
        kind_of(kind.spec_name()) == Some(kind),
{
    assert(kind.spec_name() == kind.spec_name());
    let found = choose|other: EventKind| other.spec_name() == kind.spec_name();
    assert(found.spec_name() == kind.spec_name());
    law_names_distinct(found, kind);
}

/// Every event that is forwarded is written, as an event of the type that it had on the message
/// bus, or as a delta if it came as one of several; no forwarded type is unknown to the writer.
pub proof fn law_forwarded_is_written<T>(event_type: Seq<char>, items: Seq<T>, i: int)
    requires
        0 <= i < forwarded(event_type, items).len(),
    ensures
        ({
            let event = forwarded(event_type, items)[i];
            &&& forwarded(event_type, items).len() == items.len()
            &&& event.data == items[i]
            &&& event_type != ORDER_BOOK_DELTAS@ ==> event.kind.spec_name() == event_type
            &&& event_type == ORDER_BOOK_DELTAS@ ==> event.kind is OrderBookDelta
            &&& kind_of(event.kind.spec_name()) == Some(event.kind)
        }),
{
    law_kind_of_name(forwarded(event_type, items)[i].kind);
}

/// Until the channel is disconnected the writer writes every event, once and in order, however
/// often it waits in vain.
pub proof fn law_writes_all_received<T>(received: Seq<Received<T>>)
    requires
        forall|i: int| 0 <= i < received.len() ==> !(#[trigger] received[i] is Disconnected),
    ensures
        written(received) == received_events(received),
        written(received.push(Received::Disconnected)) == received_events(received),
    decreases received.len(),
{
    let closed = received.push(Received::<T>::Disconnected);
    if received.len() == 0 {
        assert(closed.first() is Disconnected);
    } else {
        let rest = received.drop_first();
        assert forall|i: int| 0 <= i < rest.len() implies !(#[trigger] rest[i] is Disconnected) by {
            assert(rest[i] == received[i + 1]);
        }
        law_writes_all_received(rest);
        assert(received[0] == received.first());
        assert(closed.first() == received.first());
        assert(closed.drop_first() =~= rest.push(Received::Disconnected));
        assert(Seq::<T>::empty() + received_events(rest) =~= received_events(rest));
    }
}

/// No stored message is dropped, and no other message is forwarded: each item of a message that
/// holds deltas or is of a stored kind gives one event, in order, however many there are.
pub proof fn law_nothing_stored_is_dropped<T>(event_type: Seq<char>, items: Seq<T>)
    ensures
        event_type == ORDER_BOOK_DELTAS@ || (exists|kind: EventKind|
            kind.spec_name() == event_type) ==> forwarded(event_type, items).len() == items.len(),
        event_type != ORDER_BOOK_DELTAS@ && (forall|kind: EventKind|
            kind.spec_name() != event_type) ==> forwarded(event_type, items).len() == 0,
        forall|i: int|
            #![trigger forwarded(event_type, items)[i]]
            0 <= i < forwarded(event_type, items).len() ==> forwarded(event_type, items)[i].data
                == items[i],
{
}

/// What is forwarded of a message is what is forwarded of its items one by one.
pub proof fn law_items_are_forwarded_one_by_one<T>(
    event_type: Seq<char>,
    first: Seq<T>,
    second: Seq<T>,
)
    ensures
        forwarded(event_type, first + second) == forwarded(event_type, first) + forwarded(
            event_type,
            second,
        ),
{
    assert(forwarded(event_type, first + second) =~= forwarded(event_type, first) + forwarded(
        event_type,
        second,
    ));
}

/// Deltas are forwarded as deltas, and any other stored event under the kind that bears the name of
/// its type.
pub proof fn law_forwarded_kind<T>(event_type: Seq<char>, items: Seq<T>, kind: EventKind, i: int)
    requires
        0 <= i < items.len(),
    ensures
        event_type == ORDER_BOOK_DELTAS@ ==> forwarded(event_type, items)[i].kind is OrderBookDelta,
        event_type == kind.spec_name() ==> forwarded(event_type, items)[i].kind == kind,
{
    law_kind_of_name(kind);
    law_names_distinct(kind, kind);
}

/// The writer rotates as configured, and not at all for scheduled dates.
pub proof fn law_rotation_is_kept(max_size: u64, interval_ns: u64)
    ensures
        (RotationConfig::Size { max_size }).spec_writer_rotation() == (WriterRotation::Size {
            max_size,
        }),
        (RotationConfig::Interval { interval_ns }).spec_writer_rotation() == (
        WriterRotation::Interval { interval_ns }),
        RotationConfig::ScheduledDates.spec_writer_rotation() is NoRotation,
        RotationConfig::NoRotation.spec_writer_rotation() is NoRotation,
{
}

/// The files of a run stand in a directory of its instance, in one of its environment, below the
/// catalog path.
pub proof fn law_run_path_nests(
    catalog_path: Seq<char>,
    environment: Seq<char>,
    instance_id: Seq<char>,
)
    ensures
        run_path(catalog_path, environment, instance_id) == catalog_path + seq!['/'] + environment
            + seq!['/'] + instance_id,
{
    reveal_strlit("/");
    assert("/"@ =~= seq!['/']);
    assert(run_path(catalog_path, environment, instance_id) =~= catalog_path + seq!['/']
        + environment + seq!['/'] + instance_id);
}

/// Each step of a set-up is taken once: the directory is created exactly on the local file system
/// and then first, the store is opened before the writer is spawned, and the handler is subscribed
/// behind both.
pub proof fn law_setup_takes_each_step_once(fs_protocol: Seq<char>, step: SetupStep)
    ensures
        ({
            let steps = setup_steps(fs_protocol);
            let n = steps.len() as int;
            &&& steps.no_duplicates()
            &&& steps.contains(step) <==> !(step is CreateDirectory) || fs_protocol == "file"@
            &&& fs_protocol == "file"@ ==> steps[0] is CreateDirectory
            &&& steps[n - 3] is OpenStore
            &&& steps[n - 2] is SpawnWriter
            &&& steps[n - 1] is Subscribe
        }),
{
    let steps = setup_steps(fs_protocol);
    let n = steps.len() as int;
    assert(steps[0] is CreateDirectory || steps[0] is OpenStore);
    assert(steps[n - 3] is OpenStore && steps[n - 2] is SpawnWriter && steps[n - 1] is Subscribe);
    if fs_protocol == "file"@ {
        assert(steps[0] == SetupStep::CreateDirectory);
    }
}

/// An instrument is written as an instrument definition, and every other event as an event of its
/// kind.
pub proof fn law_only_instruments_are_definitions(kind: EventKind)
    ensures
        call_for(kind) is Instrument <==> kind is InstrumentAny,
        !(kind is InstrumentAny) ==> call_for(kind) == WriteCall::Event(kind),
{
}

/// The writer stops exactly when the channel is disconnected: it then writes nothing, and nothing of
/// what might still come.
pub proof fn law_writer_stops_when_disconnected<T>(
    received: Seq<Received<T>>,
    more: Seq<Received<T>>,
    next: Received<T>,
)
    requires
        forall|i: int| 0 <= i < received.len() ==> !(#[trigger] received[i] is Disconnected),
    ensures
        turn_of(next).stop <==> next is Disconnected,
        turn_of(next).write is Some <==> next is Event,
        next is Event ==> turn_of(next).write == Some(next->0),
        written(received.push(Received::Disconnected) + more) == received_events(received),
    decreases received.len(),
{
    let all = received.push(Received::<T>::Disconnected) + more;
    if received.len() == 0 {
        assert(all.first() is Disconnected);
    } else {
        let rest = received.drop_first();
        assert forall|i: int| 0 <= i < rest.len() implies !(#[trigger] rest[i] is Disconnected) by {
            assert(rest[i] == received[i + 1]);
        }
        law_writer_stops_when_disconnected(rest, more, next);
        assert(received[0] == received.first());
        assert(all.first() == received.first());
        assert(all.drop_first() =~= rest.push(Received::Disconnected) + more);
        assert(Seq::<T>::empty() + received_events(rest) =~= received_events(rest));
    }
}

/// What each error of a set-up says.
pub proof fn law_setup_errors_quote_their_causes(path: String, cause: String)
    ensures
        (StreamingError::CreateDirectory { path, cause }).text()
            == "failed to create streaming catalog directory '"@ + path@ + "': "@ + cause@,
        (StreamingError::OpenStore { cause }).text() == cause@,
        (StreamingError::SpawnWriter { cause }).text()
            == "failed to spawn streaming writer thread: "@ + cause@,
{
    assert((StreamingError::CreateDirectory { path, cause }).text()
        =~= "failed to create streaming catalog directory '"@ + path@ + "': "@ + cause@);
}

/// A set-up goes on step by step: the next step is the one behind those that have succeeded, a
/// success brings it one further, and a failure ends it.
pub proof fn law_setup_goes_step_by_step(steps: Seq<SetupStep>, state: SetupState, ok: bool)
    requires
        0 <= state.succeeded,
    ensures
        next_step(steps, state) is Some <==> !state.failed && state.succeeded < steps.len(),
        next_step(steps, state) is Some ==> next_step(steps, state)->0 == steps[state.succeeded],
        !state.failed && ok ==> advance(state, ok).succeeded == state.succeeded + 1 && !advance(
            state,
            ok,
        ).failed,
        !state.failed && !ok ==> advance(state, ok).failed,
        state.failed ==> advance(state, ok) == state,
{
}

/// Set-ups of the same plan differ at most in how far they have come.
pub proof fn law_same_plan(a: StreamingSetup, b: StreamingSetup)
    requires
        a.same_plan(b),
    ensures
        a.catalog_path == b.catalog_path,
        a.rotation == b.rotation,
        a.flush_interval_ms == b.flush_interval_ms,
        a.steps == b.steps,
        a.state() == b.state() ==> a == b,
{
}

} // verus!
