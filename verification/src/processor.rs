//! The background writer: buffers database commands and decides when they are sent.

use vstd::prelude::*;
use std::collections::VecDeque;
use std::ops::ControlFlow;
use std::sync::mpsc::SyncSender;
use redis::Cmd;
use vstd::utf8::encode_utf8;
use crate::command::{command_views, CommandView, DatabaseCommand, DatabaseOperation, OperationKind};
use crate::config::CacheConfig;
use crate::error::{CacheError, CacheFault};
use crate::pipeline::{cmd_args, new_cmd, RedisOp};
use crate::routing::{drain_buffer, drainable, law_drains_compose, route, routed, DrainedBatch};

verus! {

/// The Redis command that empties the database.
pub const REDIS_FLUSHDB: &'static str = "FLUSHDB";

/// Returns the command that empties the database.
pub fn flushdb_command() -> (command: Cmd)
    ensures
        cmd_args(command) == seq![encode_utf8("FLUSHDB"@)],
{
    new_cmd(REDIS_FLUSHDB)
}

/// What the writer has to do for one message, in the order of the fields.
pub struct CommandOutcome {
    /// The transaction to send, if there is one.
    pub batch: Option<DrainedBatch>,
    /// Where to answer once the database is emptied, if it is to be emptied.
    pub flush_reply: Option<SyncSender<()>>,
    /// Whether to go on receiving messages.
    pub flow: ControlFlow<()>,
}

/// The background writer's buffer and settings.
pub struct CommandProcessor {
    trader_key: String,
    buffer: VecDeque<DatabaseCommand>,
    buffer_interval_ms: u64,
}

/// Whether an operation changes stored data, as opposed to steering the writer.
pub open spec fn is_data_operation(op: OperationKind) -> bool {
    op is Insert || op is Update || op is Delete
}

impl CommandProcessor {
    /// The key under which the trader's data stands.
    pub closed spec fn trader_key(self) -> Seq<char> {
        self.trader_key@
    }

    /// The commands that wait to be sent, in the order of their arrival.
    pub closed spec fn pending(self) -> Seq<CommandView> {
        command_views(self.buffer@)
    }

    /// The buffer interval in milliseconds.
    pub closed spec fn interval(self) -> int {
        self.buffer_interval_ms as int
    }

    /// Only data commands that can be drained wait, and without an interval none does.
    pub closed spec fn wf(self) -> bool {
        &&& forall|i: int|
            0 <= i < self.buffer@.len() ==> drainable(self.trader_key@, #[trigger] self.buffer@[i]@)
                && is_data_operation(self.buffer@[i]@.op)
        &&& self.buffer_interval_ms == 0 ==> self.buffer@.len() == 0
    }

    /// Creates a writer with an empty buffer.
    ///
    /// # Errors
    ///
    /// Returns an error if the database configuration is missing in `config`.
    pub fn new(trader_key: String, config: &CacheConfig) -> (r: Result<Self, CacheError>)
        ensures
            match r {
                Ok(p) => {
                    &&& config.database is Some
                    &&& p.wf()
                    &&& p.trader_key() == trader_key@
                    &&& p.pending() == Seq::<CommandView>::empty()
                    &&& p.interval() == config.buffer_interval()
                    &&& config.buffer_interval_ms is None ==> p.interval() == 0
                    &&& config.buffer_interval_ms is Some ==> p.interval()
                        == config.buffer_interval_ms->0
                },
                Err(e) => config.database is None && e@ == CacheFault::<
                    Seq<char>,
                >::NoDatabaseConfig,
            },
    {
        match config.database {
            None => Err(CacheFault::NoDatabaseConfig),
            Some(_) => {
                let p = CommandProcessor {
                    trader_key,
                    buffer: VecDeque::new(),
                    buffer_interval_ms: config.buffer_interval_millis(),
                };
                assert(p.pending() =~= Seq::<CommandView>::empty());
                Ok(p)
            },
        }
    }

    /// Whether the flush timer runs; without a buffer interval it does not.
    pub fn timer_enabled(&self) -> (r: bool)
        ensures
            r == (self.interval() != 0),
    {
        self.buffer_interval_ms != 0
    }

    /// The buffer interval in milliseconds.
    pub fn buffer_interval_ms(&self) -> (r: u64)
        ensures
            r == self.interval(),
    {
        self.buffer_interval_ms
    }

    fn drain_pending(&mut self) -> (batch: Option<DrainedBatch>)
        requires
            old(self).wf(),
        ensures
            final(self).wf(),
            final(self).trader_key() == old(self).trader_key(),
            final(self).interval() == old(self).interval(),
            final(self).pending() == Seq::<CommandView>::empty(),
            match batch {
                Some(batch) => {
                    &&& old(self).pending().len() > 0
                    &&& batch.holds(old(self).trader_key(), old(self).pending())
                },
                None => old(self).pending().len() == 0,
            },
    {
        if self.buffer.len() == 0 {
            assert(self.pending() =~= Seq::<CommandView>::empty());
            None
        } else {
            let batch = drain_buffer(self.trader_key.as_str(), &mut self.buffer);
            assert(self.pending() =~= Seq::<CommandView>::empty());
            Some(batch)
        }
    }

    /// Handles one message from the command channel; `None` means that the channel is closed.
    ///
    /// `Close` sends what is pending and stops. `Flush` sends what is pending, then empties the
    /// database and answers. Any other command joins the buffer, which is sent at once when there
    /// is no buffer interval.
    pub fn handle_command(&mut self, maybe_cmd: Option<DatabaseCommand>) -> (outcome:
        CommandOutcome)
        requires
            old(self).wf(),
            maybe_cmd is Some && is_data_operation(maybe_cmd->0@.op) ==> drainable(
                old(self).trader_key(),
                maybe_cmd->0@,
            ),
        ensures
            final(self).wf(),
            final(self).trader_key() == old(self).trader_key(),
            final(self).interval() == old(self).interval(),
            final(self).pending() == pending_after(
                old(self).interval(),
                old(self).pending(),
                message_event(maybe_cmd),
            ),
            outcome.flow == (if message_event(maybe_cmd) is Close || message_event(
                maybe_cmd,
            ) is Hangup {
                ControlFlow::Break(())
            } else {
                ControlFlow::Continue(())
            }),
            outcome.flush_reply == (match maybe_cmd {
                Some(DatabaseCommand { op_type: DatabaseOperation::Flush(reply), .. }) => Some(
                    reply,
                ),
                _ => None,
            }),
            match sent_for(old(self).interval(), old(self).pending(), message_event(maybe_cmd)) {
                Some(commands) => outcome.batch is Some && outcome.batch->0.holds(
                    old(self).trader_key(),
                    commands,
                ),
                None => outcome.batch is None,
            },
    {
        let cmd = match maybe_cmd {
            Some(cmd) => cmd,
            None => {
                return CommandOutcome {
                    batch: None,
                    flush_reply: None,
                    flow: ControlFlow::Break(()),
                };
            },
        };
        match cmd.op_type {
            DatabaseOperation::Close => {
                let batch = self.drain_pending();
                return CommandOutcome { batch, flush_reply: None, flow: ControlFlow::Break(()) };
            },
            DatabaseOperation::Flush(reply) => {
                let batch = self.drain_pending();
                return CommandOutcome {
                    batch,
                    flush_reply: Some(reply),
                    flow: ControlFlow::Continue(()),
                };
            },
            _ => {},
        }
        let ghost before = *self;
        self.buffer.push_back(cmd);
        assert(command_views(self.buffer@) =~= before.pending().push(cmd@));
        if self.buffer_interval_ms == 0 {
            let batch = drain_buffer(self.trader_key.as_str(), &mut self.buffer);
            assert(self.pending() =~= Seq::<CommandView>::empty());
            CommandOutcome {
                batch: Some(batch),
                flush_reply: None,
                flow: ControlFlow::Continue(()),
            }
        } else {
            CommandOutcome { batch: None, flush_reply: None, flow: ControlFlow::Continue(()) }
        }
    }

    /// Sends what is pending, when the flush timer has fired.
    pub fn flush_buffer(&mut self) -> (batch: Option<DrainedBatch>)
        requires
            old(self).wf(),
        ensures
            final(self).wf(),
            final(self).trader_key() == old(self).trader_key(),
            final(self).interval() == old(self).interval(),
            final(self).pending() == pending_after(
                old(self).interval(),
                old(self).pending(),
                WriterEvent::Tick,
            ),
            match sent_for(old(self).interval(), old(self).pending(), WriterEvent::Tick) {
                Some(commands) => batch is Some && batch->0.holds(
                    old(self).trader_key(),
                    commands,
                ),
                None => batch is None,
            },
    {
        self.drain_pending()
    }

    /// Sends what is still pending, when no more messages are received.
    pub fn finish(&mut self) -> (batch: Option<DrainedBatch>)
        requires
            old(self).wf(),
        ensures
            final(self).wf(),
            final(self).trader_key() == old(self).trader_key(),
            final(self).interval() == old(self).interval(),
            final(self).pending() == Seq::<CommandView>::empty(),
            match sent_at_end(old(self).pending()) {
                Some(commands) => batch is Some && batch->0.holds(
                    old(self).trader_key(),
                    commands,
                ),
                None => batch is None,
            },
    {
        self.drain_pending()
    }
}

/// What the writer reacts to.
pub enum WriterEvent {
    /// A command that changes stored data.
    Data(CommandView),
    /// A command to empty the database.
    Flush,
    /// A command to stop.
    Close,
    /// The end of the command channel.
    Hangup,
    /// The flush timer.
    Tick,
}

/// The event that a message from the command channel is.
pub open spec fn message_event(maybe_cmd: Option<DatabaseCommand>) -> WriterEvent {
    match maybe_cmd {
        None => WriterEvent::Hangup,
        Some(cmd) => match cmd.op_type {
            DatabaseOperation::Close => WriterEvent::Close,
            DatabaseOperation::Flush(_) => WriterEvent::Flush,
            _ => WriterEvent::Data(cmd@),
        },
    }
}

/// The commands that wait after an event.
pub open spec fn pending_after(
    interval: int,
    pending: Seq<CommandView>,
    event: WriterEvent,
) -> Seq<CommandView> {
    match event {
        WriterEvent::Data(command) => if interval == 0 {
            Seq::empty()
        } else {
            pending.push(command)
        },
        WriterEvent::Hangup => pending,
        _ => Seq::empty(),
    }
}

/// The commands that are sent as one transaction for an event, if one is sent.
pub open spec fn sent_for(interval: int, pending: Seq<CommandView>, event: WriterEvent) -> Option<
    Seq<CommandView>,
> {
    match event {
        WriterEvent::Data(command) => if interval == 0 {
            Some(pending.push(command))
        } else {
            None
        },
        WriterEvent::Hangup => None,
        _ => if pending.len() > 0 {
            Some(pending)
        } else {
            None
        },
    }
}

/// The commands that are sent as one transaction when no more messages are received, if one is.
pub open spec fn sent_at_end(pending: Seq<CommandView>) -> Option<Seq<CommandView>> {
    if pending.len() > 0 {
        Some(pending)
    } else {
        None
    }
}

/// What reaches Redis from the writer.
pub enum Transmission {
    /// A write.
    Write(RedisOp),
    /// The command that empties the database.
    FlushDatabase,
}

/// The transmissions for several writes, in their order.
pub open spec fn transmissions(ops: Seq<RedisOp>) -> Seq<Transmission> {
    ops.map_values(|op: RedisOp| Transmission::Write(op))
}

/// What an event makes the writer transmit.
pub open spec fn transmitted_for(
    trader_key: Seq<char>,
    interval: int,
    pending: Seq<CommandView>,
    event: WriterEvent,
) -> Seq<Transmission> {
    let writes = match sent_for(interval, pending, event) {
        Some(commands) => transmissions(routed(trader_key, commands)),
        None => Seq::empty(),
    };
    if event is Flush {
        writes.push(Transmission::FlushDatabase)
    } else {
        writes
    }
}

/// The commands that wait after several events, from an empty buffer.
pub open spec fn run_pending(interval: int, events: Seq<WriterEvent>) -> Seq<CommandView>
    decreases events.len(),
{
    if events.len() == 0 {
        Seq::empty()
    } else {
        pending_after(interval, run_pending(interval, events.drop_last()), events.last())
    }
}

/// What several events make the writer transmit, from an empty buffer.
pub open spec fn run_transmitted(
    trader_key: Seq<char>,
    interval: int,
    events: Seq<WriterEvent>,
) -> Seq<Transmission>
    decreases events.len(),
{
    if events.len() == 0 {
        Seq::empty()
    } else {
        run_transmitted(trader_key, interval, events.drop_last()) + transmitted_for(
            trader_key,
            interval,
            run_pending(interval, events.drop_last()),
            events.last(),
        )
    }
}

/// What several events ask to be transmitted: each data command and each flush where it arrives.
pub open spec fn requested(trader_key: Seq<char>, events: Seq<WriterEvent>) -> Seq<Transmission>
    decreases events.len(),
{
    if events.len() == 0 {
        Seq::empty()
    } else {
        let before = requested(trader_key, events.drop_last());
        match events.last() {
            WriterEvent::Data(command) => before + transmissions(
                routed(trader_key, seq![command]),
            ),
            WriterEvent::Flush => before.push(Transmission::FlushDatabase),
            _ => before,
        }
    }
}

proof fn lemma_transmissions_compose(a: Seq<RedisOp>, b: Seq<RedisOp>)
    ensures
        transmissions(a + b) == transmissions(a) + transmissions(b),
{
    assert(transmissions(a + b) =~= transmissions(a) + transmissions(b));
}

/// Buffering changes when writes are sent, never which are sent or in what order: what has been
/// transmitted, followed by what is pending, is what the events ask for.
pub proof fn law_buffering_keeps_order(
    trader_key: Seq<char>,
    interval: int,
    events: Seq<WriterEvent>,
)
    ensures
        run_transmitted(trader_key, interval, events) + transmissions(
            routed(trader_key, run_pending(interval, events)),
        ) == requested(trader_key, events),
    decreases events.len(),
{
    let none = Seq::<CommandView>::empty();
    assert(transmissions(routed(trader_key, none)) =~= Seq::<Transmission>::empty());
    if events.len() == 0 {
        assert(Seq::<Transmission>::empty() + Seq::<Transmission>::empty() =~= Seq::<
            Transmission,
        >::empty());
    } else {
        let before = events.drop_last();
        law_buffering_keeps_order(trader_key, interval, before);
        let sent = run_transmitted(trader_key, interval, before);
        let pending = run_pending(interval, before);
        let ops = routed(trader_key, pending);
        match events.last() {
            WriterEvent::Data(command) => {
                assert(pending.push(command) =~= pending + seq![command]);
                law_drains_compose(trader_key, pending, seq![command]);
                lemma_transmissions_compose(ops, routed(trader_key, seq![command]));
                let tail = transmissions(routed(trader_key, pending.push(command)));
                assert(sent + tail =~= requested(trader_key, before) + transmissions(
                    routed(trader_key, seq![command]),
                ));
                if interval == 0 {
                    assert(sent + tail + Seq::<Transmission>::empty() =~= sent + tail);
                } else {
                    assert(sent + Seq::<Transmission>::empty() =~= sent);
                }
            },
            WriterEvent::Hangup => {
                assert(sent + Seq::<Transmission>::empty() =~= sent);
            },
            WriterEvent::Flush => {
                if pending.len() == 0 {
                    assert(pending =~= none);
                }
                let all = sent + transmissions(ops);
                assert(sent + transmissions(ops).push(Transmission::FlushDatabase) + Seq::<
                    Transmission,
                >::empty() =~= all.push(Transmission::FlushDatabase));
            },
            _ => {
                if pending.len() == 0 {
                    assert(pending =~= none);
                }
                assert(sent + transmissions(ops) + Seq::<Transmission>::empty() =~= sent
                    + transmissions(ops));
            },
        }
    }
}

/// Once the writer has closed, all that was asked for has been transmitted, in order, whatever the
/// buffer interval.
pub proof fn law_close_sends_everything(
    trader_key: Seq<char>,
    interval: int,
    events: Seq<WriterEvent>,
)
    requires
        events.len() > 0,
        events.last() is Close,
    ensures
        run_transmitted(trader_key, interval, events) == requested(trader_key, events),
        run_pending(interval, events) == Seq::<CommandView>::empty(),
{
    law_buffering_keeps_order(trader_key, interval, events);
    let none = Seq::<CommandView>::empty();
    assert(transmissions(routed(trader_key, none)) =~= Seq::<Transmission>::empty());
    assert(run_transmitted(trader_key, interval, events) + Seq::<Transmission>::empty()
        =~= run_transmitted(trader_key, interval, events));
}

/// What several events make the writer transmit, from an empty buffer, with what it sends once no
/// more messages are received.
pub open spec fn finished_transmitted(
    trader_key: Seq<char>,
    interval: int,
    events: Seq<WriterEvent>,
) -> Seq<Transmission> {
    run_transmitted(trader_key, interval, events) + (match sent_at_end(
        run_pending(interval, events),
    ) {
        Some(commands) => transmissions(routed(trader_key, commands)),
        None => Seq::empty(),
    })
}

/// Once the writer has ended, be it by a close or because the channel was hung up, all that was
/// asked for has been transmitted, in order, whatever the buffer interval.
pub proof fn law_end_sends_everything(
    trader_key: Seq<char>,
    interval: int,
    events: Seq<WriterEvent>,
)
    ensures
        finished_transmitted(trader_key, interval, events) == requested(trader_key, events),
{
    law_buffering_keeps_order(trader_key, interval, events);
    let pending = run_pending(interval, events);
    if pending.len() == 0 {
        assert(pending =~= Seq::<CommandView>::empty());
        assert(transmissions(routed(trader_key, pending)) =~= Seq::<Transmission>::empty());
    }
}

/// A flush empties the database behind all writes that were asked for before it, and leaves none of
/// them waiting, whatever the buffer interval.
pub proof fn law_flush_comes_behind_earlier_writes(
    trader_key: Seq<char>,
    interval: int,
    events: Seq<WriterEvent>,
)
    ensures
        run_transmitted(trader_key, interval, events.push(WriterEvent::Flush)) == requested(
            trader_key,
            events,
        ).push(Transmission::FlushDatabase),
        run_pending(interval, events.push(WriterEvent::Flush)) == Seq::<CommandView>::empty(),
{
    let all = events.push(WriterEvent::Flush);
    law_buffering_keeps_order(trader_key, interval, all);
    assert(all.drop_last() =~= events);
    let none = Seq::<CommandView>::empty();
    assert(transmissions(routed(trader_key, none)) =~= Seq::<Transmission>::empty());
    assert(run_transmitted(trader_key, interval, all) + Seq::<Transmission>::empty()
        =~= run_transmitted(trader_key, interval, all));
}

/// Without a buffer interval nothing ever waits.
pub proof fn law_zero_interval_never_buffers(events: Seq<WriterEvent>)
    ensures
        run_pending(0, events) == Seq::<CommandView>::empty(),
    decreases events.len(),
{
    if events.len() > 0 {
        law_zero_interval_never_buffers(events.drop_last());
    }
}

/// Once the flush timer has fired nothing is pending, and all that was asked for has been
/// transmitted, in order, whatever the buffer interval.
pub proof fn law_tick_sends_everything(
    trader_key: Seq<char>,
    interval: int,
    events: Seq<WriterEvent>,
)
    requires
        events.len() > 0,
        events.last() is Tick,
    ensures
        run_pending(interval, events).len() == 0,
        run_transmitted(trader_key, interval, events) == requested(trader_key, events),
{
    law_buffering_keeps_order(trader_key, interval, events);
    let none = Seq::<CommandView>::empty();
    assert(transmissions(routed(trader_key, none)) =~= Seq::<Transmission>::empty());
    assert(run_transmitted(trader_key, interval, events) + Seq::<Transmission>::empty()
        =~= run_transmitted(trader_key, interval, events));
}

/// Without a buffer interval all that was asked for has been transmitted after every event.
pub proof fn law_zero_interval_sends_at_once(trader_key: Seq<char>, events: Seq<WriterEvent>)
    ensures
        run_transmitted(trader_key, 0, events) == requested(trader_key, events),
{
    law_zero_interval_never_buffers(events);
    law_buffering_keeps_order(trader_key, 0, events);
    let none = Seq::<CommandView>::empty();
    assert(transmissions(routed(trader_key, none)) =~= Seq::<Transmission>::empty());
    assert(run_transmitted(trader_key, 0, events) + Seq::<Transmission>::empty()
        =~= run_transmitted(trader_key, 0, events));
}

/// With a buffer interval a data command by itself sends nothing, however many wait already: it
/// waits behind them. A hang-up sends nothing either.
pub proof fn law_interval_makes_commands_wait(
    trader_key: Seq<char>,
    interval: int,
    events: Seq<WriterEvent>,
    command: CommandView,
)
    requires
        interval != 0,
    ensures
        ({
            let with_data = events.push(WriterEvent::Data(command));
            let hung_up = events.push(WriterEvent::Hangup);
            &&& run_transmitted(trader_key, interval, with_data) == run_transmitted(
                trader_key,
                interval,
                events,
            )
            &&& sent_for(
                interval,
                run_pending(interval, events),
                WriterEvent::Data(command),
            ) is None
            &&& run_pending(interval, with_data) == run_pending(interval, events).push(command)
            &&& run_transmitted(trader_key, interval, hung_up) == run_transmitted(
                trader_key,
                interval,
                events,
            )
            &&& run_pending(interval, hung_up) == run_pending(interval, events)
        }),
{
    let with_data = events.push(WriterEvent::Data(command));
    let hung_up = events.push(WriterEvent::Hangup);
    assert(with_data.drop_last() =~= events);
    assert(hung_up.drop_last() =~= events);
    let sent = run_transmitted(trader_key, interval, events);
    assert(sent + Seq::<Transmission>::empty() =~= sent);
}

/// What is sent for an event is all that waited, with the command that the event brings, as one
/// transaction that is never empty, and nothing waits afterwards; what is not sent waits on.
pub proof fn law_transaction_holds_all_that_waits(
    interval: int,
    pending: Seq<CommandView>,
    event: WriterEvent,
)
    ensures
        ({
            let arrived = match event {
                WriterEvent::Data(command) => pending.push(command),
                _ => pending,
            };
            match sent_for(interval, pending, event) {
                Some(commands) => {
                    &&& commands == arrived
                    &&& commands.len() > 0
                    &&& pending_after(interval, pending, event).len() == 0
                },
                None => pending_after(interval, pending, event) == arrived,
            }
        }),
        match sent_at_end(pending) {
            Some(commands) => commands == pending && commands.len() > 0,
            None => pending.len() == 0,
        },
{
    if pending.len() == 0 {
        assert(pending =~= Seq::<CommandView>::empty());
    }
}

/// A message is what its operation says: every insert, update and delete is data, whatever its key
/// and payload, and only the end of the channel is a hang-up.
pub proof fn law_message_is_its_operation(maybe_cmd: Option<DatabaseCommand>)
    ensures
        maybe_cmd is None <==> message_event(maybe_cmd) is Hangup,
        maybe_cmd is Some && is_data_operation(maybe_cmd->0@.op) ==> message_event(maybe_cmd)
            == WriterEvent::Data(maybe_cmd->0@),
        maybe_cmd is Some && !is_data_operation(maybe_cmd->0@.op) ==> !(message_event(
            maybe_cmd,
        ) is Data),
        message_event(maybe_cmd) is Flush <==> maybe_cmd is Some && maybe_cmd->0.op_type is Flush,
        message_event(maybe_cmd) is Close <==> maybe_cmd is Some && maybe_cmd->0.op_type is Close,
        !(message_event(maybe_cmd) is Tick),
{
}

/// What several events ask for is asked for by each of them in turn: a command that is carried out
/// asks for its write, a flush for emptying the database, and nothing else asks for anything.
pub proof fn law_requests_add_up(
    trader_key: Seq<char>,
    first: Seq<WriterEvent>,
    second: Seq<WriterEvent>,
    command: CommandView,
)
    ensures
        requested(trader_key, first + second) == requested(trader_key, first) + requested(
            trader_key,
            second,
        ),
        requested(trader_key, seq![WriterEvent::Data(command)]) == (match route(
            trader_key,
            command,
        ) {
            Ok(op) => seq![Transmission::Write(op)],
            Err(_) => Seq::empty(),
        }),
        requested(trader_key, seq![WriterEvent::Flush]) == seq![Transmission::FlushDatabase],
        requested(trader_key, seq![WriterEvent::Close]).len() == 0,
        requested(trader_key, seq![WriterEvent::Hangup]).len() == 0,
        requested(trader_key, seq![WriterEvent::Tick]).len() == 0,
    decreases second.len(),
{
    let none = Seq::<Transmission>::empty();
    reveal_with_fuel(requested, 2);
    reveal_with_fuel(routed, 2);
    assert(seq![WriterEvent::Data(command)].drop_last() =~= Seq::<WriterEvent>::empty());
    assert(seq![WriterEvent::Flush].drop_last() =~= Seq::<WriterEvent>::empty());
    assert(seq![WriterEvent::Close].drop_last() =~= Seq::<WriterEvent>::empty());
    assert(seq![WriterEvent::Hangup].drop_last() =~= Seq::<WriterEvent>::empty());
    assert(seq![WriterEvent::Tick].drop_last() =~= Seq::<WriterEvent>::empty());
    assert(seq![command].drop_last() =~= Seq::<CommandView>::empty());
    let single = transmissions(routed(trader_key, seq![command]));
    assert(none + single =~= single);
    match route(trader_key, command) {
        Ok(op) => {
            assert(single =~= seq![Transmission::Write(op)]);
        },
        Err(_) => {
            assert(single =~= none);
        },
    }
    assert(none.push(Transmission::FlushDatabase) =~= seq![Transmission::FlushDatabase]);
    if second.len() == 0 {
        assert(first + second =~= first);
        assert(requested(trader_key, first) + none =~= requested(trader_key, first));
    } else {
        law_requests_add_up(trader_key, first, second.drop_last(), command);
        assert((first + second).drop_last() =~= first + second.drop_last());
        let a = requested(trader_key, first);
        let b = requested(trader_key, second.drop_last());
        match second.last() {
            WriterEvent::Data(c) => {
                let t = transmissions(routed(trader_key, seq![c]));
                assert(a + b + t =~= a + (b + t));
            },
            WriterEvent::Flush => {
                assert((a + b).push(Transmission::FlushDatabase) =~= a + b.push(
                    Transmission::FlushDatabase,
                ));
            },
            _ => {},
        }
    }
}

/// Inserts, updates and deletes change data, and nothing else does.
pub proof fn law_which_operations_change_data(op: OperationKind)
    ensures
        is_data_operation(op) <==> op == OperationKind::Insert || op == OperationKind::Update || op
            == OperationKind::Delete,
{
}

} // verus!
