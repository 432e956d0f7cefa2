//! The cache database of one trader instance.

use vstd::prelude::*;
use vstd::utf8::encode_utf8;
use std::sync::mpsc::SyncSender;
use bytes::Bytes;
use crate::command::{CommandView, DatabaseCommand, DatabaseOperation, OperationKind};
use crate::config::{CacheConfig, SerializationEncoding};
use crate::error::{CacheError, CacheFault};
use crate::keys::{
    get_trader_key, trader_key_of, INDEX_ORDERS, INDEX_ORDERS_CLOSED, INDEX_ORDERS_EMULATED,
    INDEX_ORDERS_INFLIGHT, INDEX_ORDERS_OPEN, INDEX_ORDER_CLIENT, INDEX_ORDER_IDS,
    INDEX_ORDER_POSITION, INDEX_POSITIONS, INDEX_POSITIONS_CLOSED, INDEX_POSITIONS_OPEN, ORDERS,
    POSITIONS,
};
use crate::payload::payload_contents;
use crate::plan::{step, PlannedView, PlannedWrite, WritePlan};
use crate::text::{join, joined};

verus! {

/// How a bulk read asks for its keys.
pub enum BulkRead {
    /// In batches of at most the given size.
    Batched { keys: Vec<String>, batch_size: usize },
    /// All at once.
    Whole { keys: Vec<String> },
}

/// The cache database of one trader instance.
pub struct RedisCacheDatabase {
    /// The trader whose data the database holds.
    pub trader_id: String,
    /// The key under which all data of the trader instance stands.
    pub trader_key: String,
    /// The payload encoding.
    pub encoding: SerializationEncoding,
    /// How many keys one bulk read asks for at a time.
    pub bulk_read_batch_size: Option<usize>,
    /// Whether the background writer still runs.
    pub writer_running: bool,
}

/// The steps that delete an order and clean all order indexes.
pub open spec fn delete_order_steps(client_order_id: Seq<char>) -> Seq<PlannedView> {
    let id = seq![encode_utf8(client_order_id)];
    let index = "Failed to send delete order index command"@;
    let hash_index = "Failed to send delete order hash index command"@;
    seq![
        step(
            CommandView::delete(joined(ORDERS@, client_order_id)),
            "Failed to send delete order command"@,
        ),
        step(CommandView::remove(INDEX_ORDER_IDS@, id), index),
        step(CommandView::remove(INDEX_ORDERS@, id), index),
        step(CommandView::remove(INDEX_ORDERS_OPEN@, id), index),
        step(CommandView::remove(INDEX_ORDERS_CLOSED@, id), index),
        step(CommandView::remove(INDEX_ORDERS_EMULATED@, id), index),
        step(CommandView::remove(INDEX_ORDERS_INFLIGHT@, id), index),
        step(CommandView::remove(INDEX_ORDER_POSITION@, id), hash_index),
        step(CommandView::remove(INDEX_ORDER_CLIENT@, id), hash_index),
    ]
}

/// The steps that delete a position and clean all position indexes.
pub open spec fn delete_position_steps(position_id: Seq<char>) -> Seq<PlannedView> {
    let id = seq![encode_utf8(position_id)];
    let index = "Failed to send delete position index command"@;
    seq![
        step(
            CommandView::delete(joined(POSITIONS@, position_id)),
            "Failed to send delete position command"@,
        ),
        step(CommandView::remove(INDEX_POSITIONS@, id), index),
        step(CommandView::remove(INDEX_POSITIONS_OPEN@, id), index),
        step(CommandView::remove(INDEX_POSITIONS_CLOSED@, id), index),
    ]
}

/// The step that empties the database.
pub open spec fn flush_steps(failure: Seq<char>) -> Seq<PlannedView> {
    seq![step(CommandView { op: OperationKind::Flush, key: None, payload: None }, failure)]
}

fn flush_plan(reply: SyncSender<()>, failure: &'static str) -> (plan: WritePlan)
    ensures
        plan.sends(flush_steps(failure@)),
        plan.writes@[0].command.op_type == DatabaseOperation::Flush(reply),
{
    let mut plan = WritePlan::new();
    plan.writes.push(PlannedWrite { command: DatabaseCommand::flush(reply), failure });
    assert(plan.steps() =~= flush_steps(failure@));
    plan
}

impl RedisCacheDatabase {
    /// Whether two databases differ at most in whether their writer runs.
    pub open spec fn same_settings(self, other: Self) -> bool {
        &&& self.trader_id == other.trader_id
        &&& self.trader_key == other.trader_key
        &&& self.encoding == other.encoding
        &&& self.bulk_read_batch_size == other.bulk_read_batch_size
    }

    /// Creates a new [`RedisCacheDatabase`] instance for the given `trader_id`, `instance_id`, and
    /// `config`.
    ///
    /// # Errors
    ///
    /// Returns an error if the database configuration is missing in `config`.
    pub fn new(trader_id: &str, instance_id: &str, config: &CacheConfig) -> (r: Result<
        Self,
        CacheError,
    >)
        ensures
            match r {
                Ok(db) => {
                    &&& config.database is Some
                    &&& db.writer_running
                    &&& db.trader_id@ == trader_id@
                    &&& db.trader_key@ == trader_key_of(
                        trader_id@,
                        instance_id@,
                        config.use_trader_prefix,
                        config.use_instance_id,
                    )
                    &&& db.encoding == config.encoding
                    &&& db.bulk_read_batch_size == config.bulk_read_batch_size
                },
                Err(e) => config.database is None && e@ == CacheFault::<
                    Seq<char>,
                >::NoDatabaseConfig,
            },
    {
        match config.database {
            None => Err(CacheFault::NoDatabaseConfig),
            Some(_) => Ok(
                RedisCacheDatabase {
                    trader_id: trader_id.to_owned(),
                    trader_key: get_trader_key(trader_id, instance_id, config),
                    encoding: config.encoding,
                    bulk_read_batch_size: config.bulk_read_batch_size,
                    writer_running: true,
                },
            ),
        }
    }

    /// Returns the payload encoding.
    #[must_use]
    pub fn get_encoding(&self) -> (r: SerializationEncoding)
        ensures
            r == self.encoding,
    {
        self.encoding
    }

    /// Returns the key under which all data of the trader instance stands.
    #[must_use]
    pub fn get_trader_key(&self) -> (r: &str)
        ensures
            r@ == self.trader_key@,
    {
        self.trader_key.as_str()
    }

    /// Closes the database.
    ///
    /// Returns the command that stops the background writer, to be sent and awaited, or `None` if
    /// the database is closed already.
    pub fn close(&mut self) -> (r: Option<DatabaseCommand>)
        ensures
            !final(self).writer_running,
            final(self).same_settings(*old(self)),
            match r {
                Some(command) => {
                    &&& old(self).writer_running
                    &&& command@ == (CommandView {
                        op: OperationKind::Close,
                        key: None,
                        payload: None,
                    })
                },
                None => !old(self).writer_running,
            },
    {
        if self.writer_running {
            self.writer_running = false;
            Some(DatabaseCommand::close())
        } else {
            None
        }
    }

    /// Plans to empty the database through the background writer, which answers on `reply`.
    ///
    /// Like every write the flush goes through the command channel, so that it comes behind all
    /// commands that were sent before it.
    pub fn flushdb(&self, reply: SyncSender<()>) -> (plan: WritePlan)
        ensures
            plan.sends(flush_steps("Failed to flush database"@)),
            plan.writes@[0].command.op_type == DatabaseOperation::Flush(reply),
    {
        flush_plan(reply, "Failed to flush database")
    }

    /// Plans to empty the database through the background writer, which answers on `reply`.
    ///
    /// The caller waits for the answer.
    pub fn flushdb_sync(&self, reply: SyncSender<()>) -> (plan: WritePlan)
        ensures
            plan.sends(flush_steps("Failed to send to channel"@)),
            plan.writes@[0].command.op_type == DatabaseOperation::Flush(reply),
    {
        flush_plan(reply, "Failed to send to channel")
    }

    /// Returns the result of a flush, given why no answer came, if none came.
    ///
    /// # Errors
    ///
    /// Returns an error if the answer was lost.
    pub fn flush_result(&self, lost: Option<String>) -> (r: Result<(), CacheError>)
        ensures
            match lost {
                Some(cause) => r is Err && r->Err_0@ == (CacheFault::FlushReplyLost {
                    cause: cause@,
                }),
                None => r is Ok,
            },
    {
        match lost {
            Some(cause) => Err(CacheFault::FlushReplyLost { cause }),
            None => Ok(()),
        }
    }

    /// Returns the pattern that matches the keys of this trader that match `pattern`.
    pub fn keys(&self, pattern: &str) -> (r: String)
        ensures
            r@ == joined(self.trader_key@, pattern@),
    {
        join(self.trader_key.as_str(), pattern)
    }

    /// Returns how the values of `keys` are read in bulk.
    pub fn read_bulk(&self, keys: Vec<String>) -> (r: BulkRead)
        ensures
            r == (match self.bulk_read_batch_size {
                Some(batch_size) => BulkRead::Batched { keys, batch_size },
                None => BulkRead::Whole { keys },
            }),
    {
        match self.bulk_read_batch_size {
            Some(batch_size) => BulkRead::Batched { keys, batch_size },
            None => BulkRead::Whole { keys },
        }
    }

    /// Plans an insert command for `key` with optional `payload`.
    pub fn insert(&self, key: String, payload: Option<Vec<Bytes>>) -> (plan: WritePlan)
        ensures
            plan.sends(
                seq![
                    step(
                        CommandView {
                            op: OperationKind::Insert,
                            key: Some(key@),
                            payload: payload_contents(payload),
                        },
                        "Failed to send to channel"@,
                    ),
                ],
            ),
    {
        let mut plan = WritePlan::new();
        plan.push(DatabaseOperation::Insert, key, payload, "Failed to send to channel");
        plan
    }

    /// Plans an update command for `key` with optional `payload`.
    pub fn update(&self, key: String, payload: Option<Vec<Bytes>>) -> (plan: WritePlan)
        ensures
            plan.sends(
                seq![
                    step(
                        CommandView {
                            op: OperationKind::Update,
                            key: Some(key@),
                            payload: payload_contents(payload),
                        },
                        "Failed to send to channel"@,
                    ),
                ],
            ),
    {
        let mut plan = WritePlan::new();
        plan.push(DatabaseOperation::Update, key, payload, "Failed to send to channel");
        plan
    }

    /// Plans a delete command for `key` with optional `payload`.
    pub fn delete(&self, key: String, payload: Option<Vec<Bytes>>) -> (plan: WritePlan)
        ensures
            plan.sends(
                seq![
                    step(
                        CommandView {
                            op: OperationKind::Delete,
                            key: Some(key@),
                            payload: payload_contents(payload),
                        },
                        "Failed to send to channel"@,
                    ),
                ],
            ),
    {
        let mut plan = WritePlan::new();
        plan.push(DatabaseOperation::Delete, key, payload, "Failed to send to channel");
        plan
    }

    /// Plans to delete the given order with comprehensive index cleanup.
    pub fn delete_order(&self, client_order_id: &str) -> (plan: WritePlan)
        ensures
            plan.sends(delete_order_steps(client_order_id@)),
    {
        let index = "Failed to send delete order index command";
        let hash_index = "Failed to send delete order hash index command";
        let mut plan = WritePlan::new();
        plan.push(
            DatabaseOperation::Delete,
            join(ORDERS, client_order_id),
            None,
            "Failed to send delete order command",
        );
        plan.remove_from_index(INDEX_ORDER_IDS, client_order_id, index);
        plan.remove_from_index(INDEX_ORDERS, client_order_id, index);
        plan.remove_from_index(INDEX_ORDERS_OPEN, client_order_id, index);
        plan.remove_from_index(INDEX_ORDERS_CLOSED, client_order_id, index);
        plan.remove_from_index(INDEX_ORDERS_EMULATED, client_order_id, index);
        plan.remove_from_index(INDEX_ORDERS_INFLIGHT, client_order_id, index);
        plan.remove_from_index(INDEX_ORDER_POSITION, client_order_id, hash_index);
        plan.remove_from_index(INDEX_ORDER_CLIENT, client_order_id, hash_index);
        assert(plan.steps() =~= delete_order_steps(client_order_id@));
        plan
    }

    /// Plans to delete the given position with comprehensive index cleanup.
    pub fn delete_position(&self, position_id: &str) -> (plan: WritePlan)
        ensures
            plan.sends(delete_position_steps(position_id@)),
    {
        let index = "Failed to send delete position index command";
        let mut plan = WritePlan::new();
        plan.push(
            DatabaseOperation::Delete,
            join(POSITIONS, position_id),
            None,
            "Failed to send delete position command",
        );
        plan.remove_from_index(INDEX_POSITIONS, position_id, index);
        plan.remove_from_index(INDEX_POSITIONS_OPEN, position_id, index);
        plan.remove_from_index(INDEX_POSITIONS_CLOSED, position_id, index);
        assert(plan.steps() =~= delete_position_steps(position_id@));
        plan
    }

    /// Plans to delete an account event, which currently sends nothing.
    pub fn delete_account_event(&self, account_id: &str, event_id: &str) -> (plan: WritePlan)
        ensures
            plan.sends(Seq::empty()),
    {
        WritePlan::new()
    }
}

/// Databases of the same settings differ at most in whether their writer runs.
pub proof fn law_same_settings(a: RedisCacheDatabase, b: RedisCacheDatabase)
    requires
        a.same_settings(b),
    ensures
        a.trader_id == b.trader_id,
        a.trader_key == b.trader_key,
        a.encoding == b.encoding,
        a.bulk_read_batch_size == b.bulk_read_batch_size,
        a.writer_running == b.writer_running ==> a == b,
{
}

} // verus!
