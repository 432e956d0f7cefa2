//! The cache database adapter: what each request of the cache writes.
//!
//! Orders, positions and accounts are stored as lists of events. A request that persists one takes
//! its last event, encoded for storage, or the error that encoding it gave.

use vstd::prelude::*;
use vstd::utf8::encode_utf8;
use std::sync::mpsc::SyncSender;
use bytes::Bytes;
use crate::command::{
    optional_text, CommandView, DatabaseCommand, DatabaseOperation, OperationKind,
};
use crate::config::SerializationEncoding;
use crate::database::{
    delete_order_steps, delete_position_steps, flush_steps, RedisCacheDatabase,
};
use crate::error::CacheFault;
use crate::keys::{
    ACCOUNTS, ACTORS, BARS, CURRENCIES, CUSTOM_DATA, FUNDING_RATES, GENERAL, HEALTH,
    INDEX_ORDERS, INDEX_ORDERS_CLOSED, INDEX_ORDERS_EMULATED, INDEX_ORDERS_INFLIGHT,
    INDEX_ORDERS_OPEN, INDEX_ORDER_CLIENT, INDEX_ORDER_IDS, INDEX_ORDER_POSITION, INDEX_POSITIONS,
    INDEX_POSITIONS_CLOSED, INDEX_POSITIONS_OPEN, INSTRUMENTS, ORDERS, POSITIONS, QUOTES, SIGNALS,
    SNAPSHOTS, STRATEGIES, SYNTHETICS, TRADES,
};
use crate::payload::{bytes_contents, bytes_from_string, bytes_from_vec, single};
use crate::plan::{step, PlannedView, WritePlan};
use crate::text::{decimal, join, joined, u64_to_string};

verus! {

/// Whether an order is emulated, and so on what trigger.
#[derive(Clone, Copy, Debug, PartialEq, Eq, Structural)]
pub enum TriggerType {
    /// The order is not emulated.
    NoTrigger,
    /// The order is emulated until its trigger fires.
    Active,
}

/// What the database needs to know of an order.
#[derive(Clone, Debug)]
pub struct Order {
    /// The client order ID.
    pub client_order_id: String,
    /// The order ID that the venue assigned, if it has.
    pub venue_order_id: Option<String>,
    /// The position that the order belongs to, if any.
    pub position_id: Option<String>,
    /// The emulation trigger, if one is set.
    pub emulation_trigger: Option<TriggerType>,
    /// Whether a request for the order waits for the venue's answer.
    pub is_inflight: bool,
    /// Whether the order is open at the venue.
    pub is_open: bool,
    /// Whether the order is closed.
    pub is_closed: bool,
}

/// What the database needs to know of a position.
#[derive(Clone, Debug)]
pub struct Position {
    /// The position ID.
    pub id: String,
    /// Whether the position is open.
    pub is_open: bool,
    /// Whether the position is closed.
    pub is_closed: bool,
}

impl Order {
    /// Whether the order is emulated.
    pub open spec fn is_emulated(self) -> bool {
        self.emulation_trigger is Some && self.emulation_trigger->0 != TriggerType::NoTrigger
    }
}

/// The adapter between the cache and its database.
pub struct RedisCacheDatabaseAdapter {
    /// The payload encoding.
    pub encoding: SerializationEncoding,
    /// The database.
    pub database: RedisCacheDatabase,
}

/// The step that persists one encoded value under a key.
pub open spec fn store_steps(
    collection: Seq<char>,
    id: Seq<char>,
    value: Seq<u8>,
    failure: Seq<char>,
) -> Seq<PlannedView> {
    seq![step(CommandView::insert(joined(collection, id), seq![value]), failure)]
}

/// The step that maps a client order ID to a venue order ID.
pub open spec fn venue_order_id_step(
    client_order_id: Seq<char>,
    venue_order_id: Seq<char>,
) -> PlannedView {
    step(
        CommandView::insert(
            INDEX_ORDER_IDS@,
            seq![encode_utf8(client_order_id), encode_utf8(venue_order_id)],
        ),
        "Failed to send index_venue_order_id command"@,
    )
}

/// The step that maps a client order ID to a position ID.
pub open spec fn order_position_step(
    client_order_id: Seq<char>,
    position_id: Seq<char>,
) -> PlannedView {
    step(
        CommandView::insert(
            INDEX_ORDER_POSITION@,
            seq![encode_utf8(client_order_id), encode_utf8(position_id)],
        ),
        "Failed to send index_order_position command"@,
    )
}

/// The steps that persist a new order and index it.
pub open spec fn add_order_steps(
    order: Order,
    client_id: Option<Seq<char>>,
    event: Seq<u8>,
) -> Seq<PlannedView> {
    let id = order.client_order_id@;
    seq![
        step(
            CommandView::insert(joined(ORDERS@, id), seq![event]),
            "Failed to send add_order command"@,
        ),
        step(
            CommandView::insert(INDEX_ORDERS@, seq![encode_utf8(id)]),
            "Failed to send order index command"@,
        ),
    ] + (if order.is_emulated() {
        seq![
            step(
                CommandView::insert(INDEX_ORDERS_EMULATED@, seq![encode_utf8(id)]),
                "Failed to send emulated index command"@,
            ),
        ]
    } else {
        Seq::empty()
    }) + (match optional_text(order.position_id) {
        Some(position_id) => seq![order_position_step(id, position_id)],
        None => Seq::empty(),
    }) + (match client_id {
        Some(client_id) => seq![
            step(
                CommandView::insert(
                    INDEX_ORDER_CLIENT@,
                    seq![encode_utf8(id), encode_utf8(client_id)],
                ),
                "Failed to send order-client index command"@,
            ),
        ],
        None => Seq::empty(),
    })
}

/// The steps that persist a new position and index it as open.
pub open spec fn add_position_steps(position_id: Seq<char>, event: Seq<u8>) -> Seq<PlannedView> {
    seq![
        step(
            CommandView::delete(joined(POSITIONS@, position_id)),
            "Failed to send delete position command"@,
        ),
        step(
            CommandView::insert(joined(POSITIONS@, position_id), seq![event]),
            "Failed to send add_position command"@,
        ),
        step(
            CommandView::insert(INDEX_POSITIONS@, seq![encode_utf8(position_id)]),
            "Failed to send position index command"@,
        ),
        step(
            CommandView::insert(INDEX_POSITIONS_OPEN@, seq![encode_utf8(position_id)]),
            "Failed to send position open index command"@,
        ),
    ]
}

/// The steps that keep the index of orders in flight.
pub open spec fn inflight_steps(order: Order) -> Seq<PlannedView> {
    let id = seq![encode_utf8(order.client_order_id@)];
    if order.is_inflight {
        seq![
            step(
                CommandView::insert(INDEX_ORDERS_INFLIGHT@, id),
                "Failed to send inflight index command"@,
            ),
        ]
    } else {
        seq![
            step(
                CommandView::remove(INDEX_ORDERS_INFLIGHT@, id),
                "Failed to send inflight index remove"@,
            ),
        ]
    }
}

/// The steps that keep the indexes of open and closed orders.
pub open spec fn open_closed_steps(order: Order) -> Seq<PlannedView> {
    let id = seq![encode_utf8(order.client_order_id@)];
    if order.is_open {
        seq![
            step(
                CommandView::remove(INDEX_ORDERS_CLOSED@, id),
                "Failed to send closed index remove"@,
            ),
            step(
                CommandView::insert(INDEX_ORDERS_OPEN@, id),
                "Failed to send open index command"@,
            ),
        ]
    } else if order.is_closed {
        seq![
            step(
                CommandView::remove(INDEX_ORDERS_OPEN@, id),
                "Failed to send open index remove"@,
            ),
            step(
                CommandView::insert(INDEX_ORDERS_CLOSED@, id),
                "Failed to send closed index command"@,
            ),
        ]
    } else {
        Seq::empty()
    }
}

/// The steps that keep the index of emulated orders.
pub open spec fn emulated_steps(order: Order) -> Seq<PlannedView> {
    let id = seq![encode_utf8(order.client_order_id@)];
    if order.emulation_trigger is None {
        Seq::empty()
    } else if order.is_emulated() && !order.is_closed {
        seq![
            step(
                CommandView::insert(INDEX_ORDERS_EMULATED@, id),
                "Failed to send emulated index"@,
            ),
        ]
    } else {
        seq![
            step(
                CommandView::remove(INDEX_ORDERS_EMULATED@, id),
                "Failed to send emulated index remove"@,
            ),
        ]
    }
}

/// The steps that append an order's latest event and bring its indexes up to date.
pub open spec fn update_order_steps(order: Order, event: Seq<u8>) -> Seq<PlannedView> {
    let id = order.client_order_id@;
    seq![
        step(
            CommandView::update(joined(ORDERS@, id), seq![event]),
            "Failed to send update_order command"@,
        ),
    ] + (match optional_text(order.venue_order_id) {
        Some(venue_order_id) => seq![venue_order_id_step(id, venue_order_id)],
        None => Seq::empty(),
    }) + inflight_steps(order) + open_closed_steps(order) + emulated_steps(order)
}

/// The steps that append a position's latest fill and bring its indexes up to date.
pub open spec fn update_position_steps(position: Position, event: Seq<u8>) -> Seq<PlannedView> {
    let id = seq![encode_utf8(position.id@)];
    seq![
        step(
            CommandView::update(joined(POSITIONS@, position.id@), seq![event]),
            "Failed to send update_position command"@,
        ),
    ] + (if position.is_open {
        seq![
            step(
                CommandView::insert(INDEX_POSITIONS_OPEN@, id),
                "Failed to send position open index command"@,
            ),
            step(
                CommandView::remove(INDEX_POSITIONS_CLOSED@, id),
                "Failed to send position closed index remove command"@,
            ),
        ]
    } else if position.is_closed {
        seq![
            step(
                CommandView::insert(INDEX_POSITIONS_CLOSED@, id),
                "Failed to send position closed index command"@,
            ),
            step(
                CommandView::remove(INDEX_POSITIONS_OPEN@, id),
                "Failed to send position open index remove command"@,
            ),
        ]
    } else {
        Seq::empty()
    })
}

/// Whether a plan persists one encoded value, or, where encoding it failed, sends nothing and
/// fails.
pub open spec fn stores(
    plan: WritePlan,
    collection: Seq<char>,
    id: Seq<char>,
    payload: Result<Vec<u8>, String>,
    failure: Seq<char>,
) -> bool {
    match payload {
        Ok(value) => plan.sends(store_steps(collection, id, value@, failure)),
        Err(cause) => plan.fails_after(
            Seq::empty(),
            CacheFault::Serialization { cause: cause@ },
        ),
    }
}

/// Plans to persist one encoded value under `collection:id`.
fn store(
    collection: &'static str,
    id: &str,
    payload: Result<Vec<u8>, String>,
    failure: &'static str,
) -> (plan: WritePlan)
    ensures
        stores(plan, collection@, id@, payload, failure@),
{
    match payload {
        Err(cause) => WritePlan::failed(CacheFault::Serialization { cause }),
        Ok(value) => {
            let mut plan = WritePlan::new();
            plan.push(
                DatabaseOperation::Insert,
                join(collection, id),
                Some(single(bytes_from_vec(value))),
                failure,
            );
            plan
        },
    }
}

impl RedisCacheDatabaseAdapter {
    /// Closes the database.
    ///
    /// Returns the command that stops the background writer, to be sent and awaited, or `None` if
    /// the database is closed already.
    pub fn close(&mut self) -> (r: Option<DatabaseCommand>)
        ensures
            !final(self).database.writer_running,
            final(self).database.same_settings(old(self).database),
            final(self).encoding == old(self).encoding,
            match r {
                Some(command) => {
                    &&& old(self).database.writer_running
                    &&& command@ == (CommandView {
                        op: OperationKind::Close,
                        key: None,
                        payload: None,
                    })
                },
                None => !old(self).database.writer_running,
            },
    {
        self.database.close()
    }

    /// Plans to empty the database through the background writer, which answers on `reply`.
    pub fn flush(&self, reply: SyncSender<()>) -> (plan: WritePlan)
        ensures
            plan.sends(flush_steps("Failed to send to channel"@)),
            plan.writes@[0].command.op_type == DatabaseOperation::Flush(reply),
    {
        self.database.flushdb_sync(reply)
    }

    /// Plans to delete the given order with comprehensive index cleanup.
    pub fn delete_order(&self, client_order_id: &str) -> (plan: WritePlan)
        ensures
            plan.sends(delete_order_steps(client_order_id@)),
    {
        self.database.delete_order(client_order_id)
    }

    /// Plans to delete the given position with comprehensive index cleanup.
    pub fn delete_position(&self, position_id: &str) -> (plan: WritePlan)
        ensures
            plan.sends(delete_position_steps(position_id@)),
    {
        self.database.delete_position(position_id)
    }

    /// Plans to delete an account event, which currently sends nothing.
    pub fn delete_account_event(&self, account_id: &str, event_id: &str) -> (plan: WritePlan)
        ensures
            plan.sends(Seq::empty()),
    {
        self.database.delete_account_event(account_id, event_id)
    }

    /// Plans to delete the state of an actor.
    pub fn delete_actor(&self, component_id: &str) -> (plan: WritePlan)
        ensures
            plan.sends(
                seq![
                    step(
                        CommandView::delete(joined(ACTORS@, joined(component_id@, "state"@))),
                        "Failed to send delete_actor command"@,
                    ),
                ],
            ),
    {
        let mut plan = WritePlan::new();
        plan.push(
            DatabaseOperation::Delete,
            join(ACTORS, &join(component_id, "state")),
            None,
            "Failed to send delete_actor command",
        );
        plan
    }

    /// Plans to delete the state of a strategy.
    pub fn delete_strategy(&self, strategy_id: &str) -> (plan: WritePlan)
        ensures
            plan.sends(
                seq![
                    step(
                        CommandView::delete(joined(STRATEGIES@, joined(strategy_id@, "state"@))),
                        "Failed to send delete_strategy command"@,
                    ),
                ],
            ),
    {
        let mut plan = WritePlan::new();
        plan.push(
            DatabaseOperation::Delete,
            join(STRATEGIES, &join(strategy_id, "state")),
            None,
            "Failed to send delete_strategy command",
        );
        plan
    }

    /// Plans to persist a generic key-value pair.
    ///
    /// Stores as a STRING value under key `general:{key}`.
    pub fn add(&self, key: &str, value: Bytes) -> (plan: WritePlan)
        ensures
            plan.sends(
                store_steps(
                    GENERAL@,
                    key@,
                    bytes_contents(value),
                    "Failed to send add command"@,
                ),
            ),
    {
        let mut plan = WritePlan::new();
        plan.push(
            DatabaseOperation::Insert,
            join(GENERAL, key),
            Some(single(value)),
            "Failed to send add command",
        );
        plan
    }

    /// Plans to persist a currency definition.
    ///
    /// Stores as a STRING value under key `currencies:{code}`.
    pub fn add_currency(&self, code: &str, payload: Result<Vec<u8>, String>) -> (plan: WritePlan)
        ensures
            stores(plan, CURRENCIES@, code@, payload, "Failed to send add_currency command"@),
    {
        store(CURRENCIES, code, payload, "Failed to send add_currency command")
    }

    /// Plans to persist an instrument definition.
    ///
    /// Stores as a STRING value under key `instruments:{instrument_id}`.
    pub fn add_instrument(&self, instrument_id: &str, payload: Result<Vec<u8>, String>) -> (plan:
        WritePlan)
        ensures
            stores(
                plan,
                INSTRUMENTS@,
                instrument_id@,
                payload,
                "Failed to send add_instrument command"@,
            ),
    {
        store(INSTRUMENTS, instrument_id, payload, "Failed to send add_instrument command")
    }

    /// Plans to persist a synthetic instrument definition.
    ///
    /// Stores as a STRING value under key `synthetics:{instrument_id}`.
    pub fn add_synthetic(&self, instrument_id: &str, payload: Result<Vec<u8>, String>) -> (plan:
        WritePlan)
        ensures
            stores(
                plan,
                SYNTHETICS@,
                instrument_id@,
                payload,
                "Failed to send add_synthetic command"@,
            ),
    {
        store(SYNTHETICS, instrument_id, payload, "Failed to send add_synthetic command")
    }

    /// Plans to persist the last event of an account.
    ///
    /// Appends to the LIST under key `accounts:{account_id}`.
    pub fn add_account(&self, account_id: &str, event: Option<Result<Vec<u8>, String>>) -> (plan:
        WritePlan)
        ensures
            match event {
                Some(payload) => stores(
                    plan,
                    ACCOUNTS@,
                    account_id@,
                    payload,
                    "Failed to send add_account command"@,
                ),
                None => plan.fails_after(
                    Seq::empty(),
                    CacheFault::AccountWithoutEvents { account_id: account_id@ },
                ),
            },
    {
        match event {
            None => WritePlan::failed(
                CacheFault::AccountWithoutEvents { account_id: account_id.to_owned() },
            ),
            Some(payload) => store(
                ACCOUNTS,
                account_id,
                payload,
                "Failed to send add_account command",
            ),
        }
    }

    /// Plans to persist an order's last event and to update all relevant indexes.
    ///
    /// Appends the event to the LIST under `orders:{client_order_id}` and updates these indexes:
    /// - `index:orders` (SET)
    /// - `index:orders_emulated` (SET), if the order is emulated
    /// - `index:order_position` (HASH), if the order has a position
    /// - `index:order_client` (HASH), if a client is given
    pub fn add_order(
        &self,
        order: &Order,
        client_id: Option<&str>,
        payload: Result<Vec<u8>, String>,
    ) -> (plan: WritePlan)
        ensures
            match payload {
                Ok(event) => plan.sends(
                    add_order_steps(
                        *order,
                        match client_id {
                            Some(client_id) => Some(client_id@),
                            None => None,
                        },
                        event@,
                    ),
                ),
                Err(cause) => plan.fails_after(
                    Seq::empty(),
                    CacheFault::Serialization { cause: cause@ },
                ),
            },
    {
        let client_order_id = order.client_order_id.as_str();
        let event = match payload {
            Ok(event) => event,
            Err(cause) => {
                return WritePlan::failed(CacheFault::Serialization { cause });
            },
        };
        let ghost client = match client_id {
            Some(client_id) => Some(client_id@),
            None => None,
        };
        let ghost steps = add_order_steps(*order, client, event@);
        let mut plan = WritePlan::new();

        plan.push(
            DatabaseOperation::Insert,
            join(ORDERS, client_order_id),
            Some(single(bytes_from_vec(event))),
            "Failed to send add_order command",
        );
        plan.add_to_index(INDEX_ORDERS, client_order_id, "Failed to send order index command");

        if let Some(trigger) = order.emulation_trigger {
            if trigger != TriggerType::NoTrigger {
                plan.add_to_index(
                    INDEX_ORDERS_EMULATED,
                    client_order_id,
                    "Failed to send emulated index command",
                );
            }
        }
        if let Some(position_id) = &order.position_id {
            plan.map_in_index(
                INDEX_ORDER_POSITION,
                client_order_id,
                position_id.as_str(),
                "Failed to send index_order_position command",
            );
        }
        if let Some(client_id) = client_id {
            plan.map_in_index(
                INDEX_ORDER_CLIENT,
                client_order_id,
                client_id,
                "Failed to send order-client index command",
            );
        }
        assert(plan.steps() =~= steps);
        plan
    }

    /// Plans to persist a pre-built order snapshot.
    ///
    /// Appends to the LIST at key `snapshots:orders:{client_order_id}`.
    pub fn add_order_snapshot(
        &self,
        client_order_id: &str,
        payload: Result<Vec<u8>, String>,
    ) -> (plan: WritePlan)
        ensures
            stores(
                plan,
                SNAPSHOTS@,
                joined(ORDERS@, client_order_id@),
                payload,
                "Failed to send add_order_snapshot command"@,
            ),
    {
        store(
            SNAPSHOTS,
            &join(ORDERS, client_order_id),
            payload,
            "Failed to send add_order_snapshot command",
        )
    }

    /// Plans to persist a position's initial fill event and to update position indexes.
    ///
    /// The existing key is deleted first: with netting the same position ID is reused when a
    /// position flips direction, and the events of the old position must not stay. An event that
    /// is missing or cannot be encoded is noticed only after that.
    pub fn add_position(&self, position_id: &str, event: Option<Result<Vec<u8>, String>>) -> (plan:
        WritePlan)
        ensures
            match event {
                Some(Ok(event)) => plan.sends(add_position_steps(position_id@, event@)),
                Some(Err(cause)) => plan.fails_after(
                    add_position_steps(position_id@, Seq::empty()).take(1),
                    CacheFault::Serialization { cause: cause@ },
                ),
                None => plan.fails_after(
                    add_position_steps(position_id@, Seq::empty()).take(1),
                    CacheFault::PositionWithoutEvents { position_id: position_id@ },
                ),
            },
    {
        let mut plan = WritePlan::new();
        plan.push(
            DatabaseOperation::Delete,
            join(POSITIONS, position_id),
            None,
            "Failed to send delete position command",
        );
        assert(plan.steps() =~= add_position_steps(position_id@, Seq::empty()).take(1));
        let event = match event {
            None => {
                plan.outcome = Err(
                    CacheFault::PositionWithoutEvents { position_id: position_id.to_owned() },
                );
                return plan;
            },
            Some(Err(cause)) => {
                plan.outcome = Err(CacheFault::Serialization { cause });
                return plan;
            },
            Some(Ok(event)) => event,
        };
        let ghost steps = add_position_steps(position_id@, event@);
        plan.push(
            DatabaseOperation::Insert,
            join(POSITIONS, position_id),
            Some(single(bytes_from_vec(event))),
            "Failed to send add_position command",
        );
        plan.add_to_index(INDEX_POSITIONS, position_id, "Failed to send position index command");
        plan.add_to_index(
            INDEX_POSITIONS_OPEN,
            position_id,
            "Failed to send position open index command",
        );
        assert(plan.steps() =~= steps);
        plan
    }

    /// Plans to persist a pre-built position snapshot.
    ///
    /// Appends to the LIST at key `snapshots:positions:{position_id}`.
    pub fn add_position_snapshot(
        &self,
        position_id: &str,
        payload: Result<Vec<u8>, String>,
    ) -> (plan: WritePlan)
        ensures
            stores(
                plan,
                SNAPSHOTS@,
                joined(POSITIONS@, position_id@),
                payload,
                "Failed to send add_position_snapshot command"@,
            ),
    {
        store(
            SNAPSHOTS,
            &join(POSITIONS, position_id),
            payload,
            "Failed to send add_position_snapshot command",
        )
    }

    /// Plans to persist an order book, which sends nothing: order books are rebuilt from deltas.
    pub fn add_order_book(&self, instrument_id: &str) -> (plan: WritePlan)
        ensures
            plan.sends(Seq::empty()),
    {
        WritePlan::new()
    }

    /// Plans to append a quote tick to the LIST at key `quotes:{instrument_id}`.
    pub fn add_quote(&self, instrument_id: &str, payload: Result<Vec<u8>, String>) -> (plan:
        WritePlan)
        ensures
            stores(plan, QUOTES@, instrument_id@, payload, "Failed to send add_quote command"@),
    {
        store(QUOTES, instrument_id, payload, "Failed to send add_quote command")
    }

    /// Plans to append a trade tick to the LIST at key `trades:{instrument_id}`.
    pub fn add_trade(&self, instrument_id: &str, payload: Result<Vec<u8>, String>) -> (plan:
        WritePlan)
        ensures
            stores(plan, TRADES@, instrument_id@, payload, "Failed to send add_trade command"@),
    {
        store(TRADES, instrument_id, payload, "Failed to send add_trade command")
    }

    /// Plans to append a funding rate update to the LIST at key `funding_rates:{instrument_id}`.
    pub fn add_funding_rate(&self, instrument_id: &str, payload: Result<Vec<u8>, String>) -> (plan:
        WritePlan)
        ensures
            stores(
                plan,
                FUNDING_RATES@,
                instrument_id@,
                payload,
                "Failed to send add_funding_rate command"@,
            ),
    {
        store(FUNDING_RATES, instrument_id, payload, "Failed to send add_funding_rate command")
    }

    /// Plans to append a bar to the LIST at key `bars:{bar_type}`.
    pub fn add_bar(&self, bar_type: &str, payload: Result<Vec<u8>, String>) -> (plan: WritePlan)
        ensures
            stores(plan, BARS@, bar_type@, payload, "Failed to send add_bar command"@),
    {
        store(BARS, bar_type, payload, "Failed to send add_bar command")
    }

    /// Plans to append a signal to the LIST at key `signals:{name}`.
    pub fn add_signal(&self, name: &str, payload: Result<Vec<u8>, String>) -> (plan: WritePlan)
        ensures
            stores(plan, SIGNALS@, name@, payload, "Failed to send add_signal command"@),
    {
        store(SIGNALS, name, payload, "Failed to send add_signal command")
    }

    /// Plans to append custom data to the LIST at key `custom_data:{data_type}`.
    pub fn add_custom_data(&self, data_type: &str, payload: Result<Vec<u8>, String>) -> (plan:
        WritePlan)
        ensures
            stores(
                plan,
                CUSTOM_DATA@,
                data_type@,
                payload,
                "Failed to send add_custom_data command"@,
            ),
    {
        store(CUSTOM_DATA, data_type, payload, "Failed to send add_custom_data command")
    }

    /// Plans to index a venue order ID against a client order ID.
    ///
    /// Stores in the HASH at key `index:order_ids`.
    pub fn index_venue_order_id(&self, client_order_id: &str, venue_order_id: &str) -> (plan:
        WritePlan)
        ensures
            plan.sends(seq![venue_order_id_step(client_order_id@, venue_order_id@)]),
    {
        let mut plan = WritePlan::new();
        plan.map_in_index(
            INDEX_ORDER_IDS,
            client_order_id,
            venue_order_id,
            "Failed to send index_venue_order_id command",
        );
        plan
    }

    /// Plans to index an order-to-position mapping.
    ///
    /// Stores in the HASH at key `index:order_position`.
    pub fn index_order_position(&self, client_order_id: &str, position_id: &str) -> (plan:
        WritePlan)
        ensures
            plan.sends(seq![order_position_step(client_order_id@, position_id@)]),
    {
        let mut plan = WritePlan::new();
        plan.map_in_index(
            INDEX_ORDER_POSITION,
            client_order_id,
            position_id,
            "Failed to send index_order_position command",
        );
        plan
    }

    /// Plans to update an actor, which sends nothing: there is no state to persist.
    pub fn update_actor(&self) -> (plan: WritePlan)
        ensures
            plan.sends(Seq::empty()),
    {
        WritePlan::new()
    }

    /// Plans to update a strategy, which sends nothing: there is no state to persist.
    pub fn update_strategy(&self) -> (plan: WritePlan)
        ensures
            plan.sends(Seq::empty()),
    {
        WritePlan::new()
    }

    /// Plans to append the last event of an account to its LIST, if there is one.
    pub fn update_account(&self, account_id: &str, event: Option<Result<Vec<u8>, String>>) -> (plan:
        WritePlan)
        ensures
            match event {
                Some(Ok(event)) => plan.sends(
                    seq![
                        step(
                            CommandView::update(joined(ACCOUNTS@, account_id@), seq![event@]),
                            "Failed to send update_account command"@,
                        ),
                    ],
                ),
                Some(Err(cause)) => plan.fails_after(
                    Seq::empty(),
                    CacheFault::Serialization { cause: cause@ },
                ),
                None => plan.fails_after(
                    Seq::empty(),
                    CacheFault::AccountWithoutEvents { account_id: account_id@ },
                ),
            },
    {
        match event {
            None => WritePlan::failed(
                CacheFault::AccountWithoutEvents { account_id: account_id.to_owned() },
            ),
            Some(Err(cause)) => WritePlan::failed(CacheFault::Serialization { cause }),
            Some(Ok(event)) => {
                let mut plan = WritePlan::new();
                plan.push(
                    DatabaseOperation::Update,
                    join(ACCOUNTS, account_id),
                    Some(single(bytes_from_vec(event))),
                    "Failed to send update_account command",
                );
                plan
            },
        }
    }

    /// Plans to append the latest order event and to update state-dependent indexes.
    ///
    /// 1. Appends the event to the order's LIST, if there is one.
    /// 2. Indexes the venue order ID, if assigned.
    /// 3. Keeps the inflight index.
    /// 4. Keeps the open and closed indexes, which exclude each other.
    /// 5. Keeps the emulated index.
    pub fn update_order(&self, order: &Order, payload: Result<Vec<u8>, String>) -> (plan: WritePlan)
        ensures
            match payload {
                Ok(event) => plan.sends(update_order_steps(*order, event@)),
                Err(cause) => plan.fails_after(
                    Seq::empty(),
                    CacheFault::Serialization { cause: cause@ },
                ),
            },
    {
        let client_order_id = order.client_order_id.as_str();
        let event = match payload {
            Ok(event) => event,
            Err(cause) => {
                return WritePlan::failed(CacheFault::Serialization { cause });
            },
        };
        let ghost steps = update_order_steps(*order, event@);
        let mut plan = WritePlan::new();

        plan.push(
            DatabaseOperation::Update,
            join(ORDERS, client_order_id),
            Some(single(bytes_from_vec(event))),
            "Failed to send update_order command",
        );
        if let Some(venue_order_id) = &order.venue_order_id {
            plan.map_in_index(
                INDEX_ORDER_IDS,
                client_order_id,
                venue_order_id.as_str(),
                "Failed to send index_venue_order_id command",
            );
        }
        if order.is_inflight {
            plan.add_to_index(
                INDEX_ORDERS_INFLIGHT,
                client_order_id,
                "Failed to send inflight index command",
            );
        } else {
            plan.remove_from_index(
                INDEX_ORDERS_INFLIGHT,
                client_order_id,
                "Failed to send inflight index remove",
            );
        }
        if order.is_open {
            plan.remove_from_index(
                INDEX_ORDERS_CLOSED,
                client_order_id,
                "Failed to send closed index remove",
            );
            plan.add_to_index(
                INDEX_ORDERS_OPEN,
                client_order_id,
                "Failed to send open index command",
            );
        } else if order.is_closed {
            plan.remove_from_index(
                INDEX_ORDERS_OPEN,
                client_order_id,
                "Failed to send open index remove",
            );
            plan.add_to_index(
                INDEX_ORDERS_CLOSED,
                client_order_id,
                "Failed to send closed index command",
            );
        }
        if let Some(trigger) = order.emulation_trigger {
            if trigger != TriggerType::NoTrigger && !order.is_closed {
                plan.add_to_index(
                    INDEX_ORDERS_EMULATED,
                    client_order_id,
                    "Failed to send emulated index",
                );
            } else {
                plan.remove_from_index(
                    INDEX_ORDERS_EMULATED,
                    client_order_id,
                    "Failed to send emulated index remove",
                );
            }
        }
        assert(plan.steps() =~= steps);
        plan
    }

    /// Plans to append a fill event to a position and to update the open and closed indexes.
    pub fn update_position(&self, position: &Position, event: Option<Result<Vec<u8>, String>>) -> (
    plan: WritePlan)
        ensures
            match event {
                Some(Ok(event)) => plan.sends(update_position_steps(*position, event@)),
                Some(Err(cause)) => plan.fails_after(
                    Seq::empty(),
                    CacheFault::Serialization { cause: cause@ },
                ),
                None => plan.fails_after(
                    Seq::empty(),
                    CacheFault::PositionWithoutEvents { position_id: position.id@ },
                ),
            },
    {
        let position_id = position.id.as_str();
        let event = match event {
            None => {
                return WritePlan::failed(
                    CacheFault::PositionWithoutEvents { position_id: position_id.to_owned() },
                );
            },
            Some(Err(cause)) => {
                return WritePlan::failed(CacheFault::Serialization { cause });
            },
            Some(Ok(event)) => event,
        };
        let ghost steps = update_position_steps(*position, event@);
        let mut plan = WritePlan::new();
        plan.push(
            DatabaseOperation::Update,
            join(POSITIONS, position_id),
            Some(single(bytes_from_vec(event))),
            "Failed to send update_position command",
        );
        if position.is_open {
            plan.add_to_index(
                INDEX_POSITIONS_OPEN,
                position_id,
                "Failed to send position open index command",
            );
            plan.remove_from_index(
                INDEX_POSITIONS_CLOSED,
                position_id,
                "Failed to send position closed index remove command",
            );
        } else if position.is_closed {
            plan.add_to_index(
                INDEX_POSITIONS_CLOSED,
                position_id,
                "Failed to send position closed index command",
            );
            plan.remove_from_index(
                INDEX_POSITIONS_OPEN,
                position_id,
                "Failed to send position open index remove command",
            );
        }
        assert(plan.steps() =~= steps);
        plan
    }

    /// Plans to persist a snapshot of an order's full state.
    pub fn snapshot_order_state(
        &self,
        client_order_id: &str,
        snapshot: Result<Vec<u8>, String>,
    ) -> (plan: WritePlan)
        ensures
            stores(
                plan,
                SNAPSHOTS@,
                joined(ORDERS@, client_order_id@),
                snapshot,
                "Failed to send add_order_snapshot command"@,
            ),
    {
        self.add_order_snapshot(client_order_id, snapshot)
    }

    /// Plans to persist a snapshot of a position's full state.
    pub fn snapshot_position_state(
        &self,
        position_id: &str,
        snapshot: Result<Vec<u8>, String>,
    ) -> (plan: WritePlan)
        ensures
            stores(
                plan,
                SNAPSHOTS@,
                joined(POSITIONS@, position_id@),
                snapshot,
                "Failed to send add_position_snapshot command"@,
            ),
    {
        self.add_position_snapshot(position_id, snapshot)
    }

    /// Plans to write a heartbeat.
    ///
    /// Stores the timestamp in nanoseconds as a STRING at key `health:heartbeat`.
    pub fn heartbeat(&self, timestamp: u64) -> (plan: WritePlan)
        ensures
            plan.sends(
                store_steps(
                    HEALTH@,
                    "heartbeat"@,
                    encode_utf8(decimal(timestamp as nat)),
                    "Failed to send heartbeat command"@,
                ),
            ),
    {
        let mut plan = WritePlan::new();
        plan.push(
            DatabaseOperation::Insert,
            join(HEALTH, "heartbeat"),
            Some(single(bytes_from_string(u64_to_string(timestamp)))),
            "Failed to send heartbeat command",
        );
        plan
    }
}

/// An order is emulated exactly if it has a trigger and that is one.
pub proof fn law_which_orders_are_emulated(order: Order)
    ensures
        order.is_emulated() <==> order.emulation_trigger is Some && order.emulation_trigger->0
            != TriggerType::NoTrigger,
        optional_text(order.venue_order_id) is Some <==> order.venue_order_id is Some,
        order.venue_order_id is Some ==> optional_text(order.venue_order_id)->0
            == order.venue_order_id->0@,
        optional_text(order.position_id) is Some <==> order.position_id is Some,
        order.position_id is Some ==> optional_text(order.position_id)->0 == order.position_id->0@,
{
}

} // verus!
