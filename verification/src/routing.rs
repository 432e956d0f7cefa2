//! Routing of database commands to Redis commands by collection and operation.
//!
//! | Collection | Insert  | Update   | Delete |
//! |------------|---------|----------|--------|
//! | string     | `SET`   |          | `DEL`  |
//! | list       | `RPUSH` | `RPUSHX` | `DEL`  |
//! | set index  | `SADD`  |          | `SREM` |
//! | hash index | `HSET`  |          | `HDEL` |

use vstd::prelude::*;
use std::collections::VecDeque;
use bytes::Bytes;
use redis::Pipeline;
use crate::command::{
    command_views, keyless_debug, keyless_text, CommandView, DatabaseCommand, DatabaseOperation,
    OperationKind,
};
use crate::error::{CacheError, CacheFault, DataOperation};
use crate::keys::{
    collection_of, get_collection_key, get_index_key, index_of, law_collection_of_joined_key,
    law_index_of_prefixed_key, marker_free, ACCOUNTS, ACTORS, BARS, CURRENCIES,
    CUSTOM_DATA, FUNDING_RATES, GENERAL, HEALTH, INDEX, INDEX_ORDERS, INDEX_ORDERS_CLOSED,
    INDEX_ORDERS_EMULATED, INDEX_ORDERS_INFLIGHT, INDEX_ORDERS_OPEN, INDEX_ORDER_CLIENT,
    INDEX_ORDER_IDS, INDEX_ORDER_POSITION, INDEX_POSITIONS, INDEX_POSITIONS_CLOSED,
    INDEX_POSITIONS_OPEN, INSTRUMENTS, ORDERS, POSITIONS, QUOTES, SIGNALS, SNAPSHOTS, STRATEGIES,
    SYNTHETICS, TRADES,
};
use crate::payload::{all_contents, bytes_as_slice, payload_contents};
use crate::pipeline::{
    appended, delete_string, insert_hset, insert_list, insert_set, insert_string, new_pipeline,
    ops_args, pipeline_atomic, pipeline_commands, remove_from_hash, remove_from_set, same_pipeline,
    set_atomic, update_list, RedisOp,
};
use crate::text::{join, joined, str_eq};

verus! {

/// The collections that store one string per key.
pub open spec fn is_string_collection(collection: Seq<char>) -> bool {
    ||| collection == GENERAL@
    ||| collection == CURRENCIES@
    ||| collection == INSTRUMENTS@
    ||| collection == SYNTHETICS@
    ||| collection == ACTORS@
    ||| collection == STRATEGIES@
    ||| collection == HEALTH@
}

/// The collections that store one list per key.
pub open spec fn is_list_collection(collection: Seq<char>) -> bool {
    ||| collection == ACCOUNTS@
    ||| collection == ORDERS@
    ||| collection == POSITIONS@
    ||| collection == QUOTES@
    ||| collection == TRADES@
    ||| collection == BARS@
    ||| collection == SIGNALS@
    ||| collection == CUSTOM_DATA@
    ||| collection == FUNDING_RATES@
    ||| collection == SNAPSHOTS@
}

/// The indexes that map one identifier to another.
pub open spec fn is_hash_index(index: Seq<char>) -> bool {
    ||| index == INDEX_ORDER_IDS@
    ||| index == INDEX_ORDER_POSITION@
    ||| index == INDEX_ORDER_CLIENT@
}

/// The indexes that are sets of identifiers.
pub open spec fn is_set_index(index: Seq<char>) -> bool {
    ||| index == INDEX_ORDERS@
    ||| index == INDEX_ORDERS_OPEN@
    ||| index == INDEX_ORDERS_CLOSED@
    ||| index == INDEX_ORDERS_EMULATED@
    ||| index == INDEX_ORDERS_INFLIGHT@
    ||| index == INDEX_POSITIONS@
    ||| index == INDEX_POSITIONS_OPEN@
    ||| index == INDEX_POSITIONS_CLOSED@
}

/// How an insert of `values` into the index that the full key `key` names is carried out.
pub open spec fn route_insert_index(key: Seq<char>, values: Seq<Seq<u8>>) -> Result<
    RedisOp,
    CacheFault<Seq<char>>,
> {
    match index_of(key) {
        None => Err(CacheFault::InvalidIndexKey { key }),
        Some(index) => if is_hash_index(index) {
            Ok(RedisOp::Hset { key, field: values[0], value: values[1] })
        } else if is_set_index(index) {
            Ok(RedisOp::Sadd { key, member: values[0] })
        } else {
            Err(CacheFault::UnknownIndex { index })
        },
    }
}

/// How an insert of `values` under the full key `key` is carried out.
pub open spec fn route_insert(
    collection: Seq<char>,
    key: Seq<char>,
    values: Seq<Seq<u8>>,
) -> Result<RedisOp, CacheFault<Seq<char>>> {
    if values.len() == 0 {
        Err(CacheFault::EmptyPayload)
    } else if collection == INDEX@ {
        route_insert_index(key, values)
    } else if is_string_collection(collection) {
        Ok(RedisOp::SetValue { key, value: values[0] })
    } else if is_list_collection(collection) {
        Ok(RedisOp::Rpush { key, value: values[0] })
    } else {
        Err(CacheFault::UnsupportedOperation { operation: DataOperation::Insert, collection })
    }
}

/// How an update of the full key `key` with `values` is carried out.
pub open spec fn route_update(
    collection: Seq<char>,
    key: Seq<char>,
    values: Seq<Seq<u8>>,
) -> Result<RedisOp, CacheFault<Seq<char>>> {
    if values.len() == 0 {
        Err(CacheFault::EmptyPayload)
    } else if is_list_collection(collection) {
        Ok(RedisOp::Rpushx { key, value: values[0] })
    } else {
        Err(CacheFault::UnsupportedOperation { operation: DataOperation::Update, collection })
    }
}

/// How a removal from the index that the full key `key` names is carried out.
pub open spec fn route_delete_index(key: Seq<char>, payload: Option<Seq<Seq<u8>>>) -> Result<
    RedisOp,
    CacheFault<Seq<char>>,
> {
    match payload {
        None => Err(CacheFault::MissingDeletePayload { key }),
        Some(values) => match index_of(key) {
            None => Err(CacheFault::InvalidIndexKey { key }),
            Some(index) => if is_hash_index(index) {
                Ok(RedisOp::Hdel { key, field: values[0] })
            } else if is_set_index(index) {
                Ok(RedisOp::Srem { key, member: values[0] })
            } else {
                Err(CacheFault::UnsupportedRemoval { index })
            },
        },
    }
}

/// How a removal under the full key `key` is carried out.
pub open spec fn route_delete(
    collection: Seq<char>,
    key: Seq<char>,
    payload: Option<Seq<Seq<u8>>>,
) -> Result<RedisOp, CacheFault<Seq<char>>> {
    if collection == INDEX@ {
        route_delete_index(key, payload)
    } else if is_string_collection(collection) || is_list_collection(collection) {
        Ok(RedisOp::Del { key })
    } else {
        Err(CacheFault::UnsupportedOperation { operation: DataOperation::Delete, collection })
    }
}

/// How one command is carried out for the trader whose data stands under `trader_key`.
pub open spec fn route(trader_key: Seq<char>, command: CommandView) -> Result<
    RedisOp,
    CacheFault<Seq<char>>,
>
    recommends
        drainable(trader_key, command),
{
    match command.key {
        None => Err(CacheFault::NullKey { message: keyless_text(command.op, command.payload) }),
        Some(key) => match collection_of(key) {
            None => Err(CacheFault::MissingDelimiter { key }),
            Some(collection) => {
                let full_key = joined(trader_key, key);
                match command.op {
                    OperationKind::Insert => match command.payload {
                        Some(values) => route_insert(collection, full_key, values),
                        None => Err(CacheFault::NullPayload { operation: DataOperation::Insert }),
                    },
                    OperationKind::Update => match command.payload {
                        Some(values) => route_update(collection, full_key, values),
                        None => Err(CacheFault::NullPayload { operation: DataOperation::Update }),
                    },
                    _ => route_delete(collection, full_key, command.payload),
                }
            },
        },
    }
}

/// Whether an insert into the index that the full key `key` names has all the values that the index
/// stores: one for a set and two for a hash.
pub open spec fn index_insert_complete(key: Seq<char>, values: Seq<Seq<u8>>) -> bool {
    index_of(key) is Some ==> {
        &&& is_set_index(index_of(key)->0) ==> values.len() >= 1
        &&& is_hash_index(index_of(key)->0) ==> values.len() >= 2
    }
}

/// Whether an insert into an index that has a value at all has all that the index stores.
pub open spec fn insert_complete(
    collection: Seq<char>,
    key: Seq<char>,
    values: Seq<Seq<u8>>,
) -> bool {
    collection == INDEX@ && values.len() > 0 && index_of(key) is Some && is_hash_index(
        index_of(key)->0,
    ) ==> values.len() >= 2
}

/// Whether a removal from an index says what to remove, if it has a payload at all.
pub open spec fn delete_complete(
    collection: Seq<char>,
    key: Seq<char>,
    payload: Option<Seq<Seq<u8>>>,
) -> bool {
    collection == INDEX@ && payload is Some && index_of(key) is Some && (is_hash_index(
        index_of(key)->0,
    ) || is_set_index(index_of(key)->0)) ==> payload->0.len() >= 1
}

/// Whether a command may stand in the write buffer.
///
/// A `Close` or `Flush` is handled when it arrives, and the values that an index needs are there.
pub open spec fn drainable(trader_key: Seq<char>, command: CommandView) -> bool {
    command.key is Some && collection_of(command.key->0) is Some ==> {
        let collection = collection_of(command.key->0)->0;
        let full_key = joined(trader_key, command.key->0);
        match command.op {
            OperationKind::Insert => command.payload is Some ==> insert_complete(
                collection,
                full_key,
                command.payload->0,
            ),
            OperationKind::Update => true,
            OperationKind::Delete => delete_complete(collection, full_key, command.payload),
            OperationKind::Flush => false,
            OperationKind::Close => false,
        }
    }
}

/// The Redis writes for several commands, in their order; a rejected command gives none.
pub open spec fn routed(trader_key: Seq<char>, commands: Seq<CommandView>) -> Seq<RedisOp>
    decreases commands.len(),
{
    if commands.len() == 0 {
        Seq::empty()
    } else {
        let before = routed(trader_key, commands.drop_last());
        match route(trader_key, commands.last()) {
            Ok(op) => before.push(op),
            Err(_) => before,
        }
    }
}

/// The errors of the rejected commands among several, in their order.
pub open spec fn rejected(trader_key: Seq<char>, commands: Seq<CommandView>) -> Seq<
    CacheFault<Seq<char>>,
>
    decreases commands.len(),
{
    if commands.len() == 0 {
        Seq::empty()
    } else {
        let before = rejected(trader_key, commands.drop_last());
        match route(trader_key, commands.last()) {
            Ok(_) => before,
            Err(e) => before.push(e),
        }
    }
}

/// What several errors say, in their order.
pub open spec fn error_views(errors: Seq<CacheError>) -> Seq<CacheFault<Seq<char>>> {
    errors.map_values(|e: CacheError| e@)
}

/// Whether `after` is `before` with what `outcome` asks for: one more command, or, on an error,
/// which is then `result`, nothing.
pub open spec fn carried_out(
    before: Pipeline,
    after: Pipeline,
    outcome: Result<RedisOp, CacheFault<Seq<char>>>,
    result: Result<(), CacheError>,
) -> bool {
    match outcome {
        Ok(op) => result is Ok && appended(before, after, op),
        Err(e) => result is Err && result->Err_0@ == e && same_pipeline(before, after),
    }
}

fn string_collection(collection: &str) -> (r: bool)
    ensures
        r == is_string_collection(collection@),
{
    str_eq(collection, GENERAL) || str_eq(collection, CURRENCIES) || str_eq(collection, INSTRUMENTS)
        || str_eq(collection, SYNTHETICS) || str_eq(collection, ACTORS) || str_eq(
        collection,
        STRATEGIES,
    ) || str_eq(collection, HEALTH)
}

fn list_collection(collection: &str) -> (r: bool)
    ensures
        r == is_list_collection(collection@),
{
    str_eq(collection, ACCOUNTS) || str_eq(collection, ORDERS) || str_eq(collection, POSITIONS)
        || str_eq(collection, QUOTES) || str_eq(collection, TRADES) || str_eq(collection, BARS)
        || str_eq(collection, SIGNALS) || str_eq(collection, CUSTOM_DATA) || str_eq(
        collection,
        FUNDING_RATES,
    ) || str_eq(collection, SNAPSHOTS)
}

fn hash_index(index: &str) -> (r: bool)
    ensures
        r == is_hash_index(index@),
{
    str_eq(index, INDEX_ORDER_IDS) || str_eq(index, INDEX_ORDER_POSITION) || str_eq(
        index,
        INDEX_ORDER_CLIENT,
    )
}

fn set_index(index: &str) -> (r: bool)
    ensures
        r == is_set_index(index@),
{
    str_eq(index, INDEX_ORDERS) || str_eq(index, INDEX_ORDERS_OPEN) || str_eq(
        index,
        INDEX_ORDERS_CLOSED,
    ) || str_eq(index, INDEX_ORDERS_EMULATED) || str_eq(index, INDEX_ORDERS_INFLIGHT) || str_eq(
        index,
        INDEX_POSITIONS,
    ) || str_eq(index, INDEX_POSITIONS_OPEN) || str_eq(index, INDEX_POSITIONS_CLOSED)
}

/// Adds the command for an insert of `value` under the full key `key` to the pipeline.
///
/// # Errors
///
/// Returns an error if `value` is empty, if inserts into the collection are not supported, or if
/// `key` belongs to no known index.
pub fn insert(pipe: &mut Pipeline, collection: &str, key: &str, value: Vec<Bytes>) -> (r: Result<
    (),
    CacheError,
>)
    requires
        insert_complete(collection@, key@, all_contents(value@)),
    ensures
        carried_out(
            *old(pipe),
            *final(pipe),
            route_insert(collection@, key@, all_contents(value@)),
            r,
        ),
{
    if value.len() == 0 {
        return Err(CacheFault::EmptyPayload);
    }
    if str_eq(collection, INDEX) {
        insert_index(pipe, key, &value)
    } else if string_collection(collection) {
        insert_string(pipe, key, bytes_as_slice(&value[0]));
        Ok(())
    } else if list_collection(collection) {
        insert_list(pipe, key, bytes_as_slice(&value[0]));
        Ok(())
    } else {
        Err(
            CacheFault::UnsupportedOperation {
                operation: DataOperation::Insert,
                collection: collection.to_owned(),
            },
        )
    }
}

/// Adds the command for an insert of `value` into the index that `key` names to the pipeline.
///
/// # Errors
///
/// Returns an error if `key` belongs to no known index.
pub fn insert_index(pipe: &mut Pipeline, key: &str, value: &Vec<Bytes>) -> (r: Result<
    (),
    CacheError,
>)
    requires
        index_insert_complete(key@, all_contents(value@)),
    ensures
        carried_out(*old(pipe), *final(pipe), route_insert_index(key@, all_contents(value@)), r),
{
    match get_index_key(key) {
        Err(e) => Err(e),
        Ok(index_key) => if hash_index(index_key) {
            insert_hset(pipe, key, bytes_as_slice(&value[0]), bytes_as_slice(&value[1]));
            Ok(())
        } else if set_index(index_key) {
            insert_set(pipe, key, bytes_as_slice(&value[0]));
            Ok(())
        } else {
            Err(CacheFault::UnknownIndex { index: index_key.to_owned() })
        },
    }
}

/// Adds the command for an update of the full key `key` with `value` to the pipeline.
///
/// # Errors
///
/// Returns an error if `value` is empty or if updates of the collection are not supported.
pub fn update(pipe: &mut Pipeline, collection: &str, key: &str, value: Vec<Bytes>) -> (r: Result<
    (),
    CacheError,
>)
    ensures
        carried_out(
            *old(pipe),
            *final(pipe),
            route_update(collection@, key@, all_contents(value@)),
            r,
        ),
{
    if value.len() == 0 {
        return Err(CacheFault::EmptyPayload);
    }
    if list_collection(collection) {
        update_list(pipe, key, bytes_as_slice(&value[0]));
        Ok(())
    } else {
        Err(
            CacheFault::UnsupportedOperation {
                operation: DataOperation::Update,
                collection: collection.to_owned(),
            },
        )
    }
}

/// Adds the command for a removal under the full key `key` to the pipeline.
///
/// # Errors
///
/// Returns an error if removals from the collection are not supported, or if `key` belongs to an
/// index and the index is unknown or `value` is `None`.
pub fn delete(pipe: &mut Pipeline, collection: &str, key: &str, value: Option<Vec<Bytes>>) -> (r:
    Result<(), CacheError>)
    requires
        delete_complete(collection@, key@, payload_contents(value)),
    ensures
        carried_out(
            *old(pipe),
            *final(pipe),
            route_delete(collection@, key@, payload_contents(value)),
            r,
        ),
{
    if str_eq(collection, INDEX) {
        delete_from_index(pipe, key, value)
    } else if string_collection(collection) || list_collection(collection) {
        delete_string(pipe, key);
        Ok(())
    } else {
        Err(
            CacheFault::UnsupportedOperation {
                operation: DataOperation::Delete,
                collection: collection.to_owned(),
            },
        )
    }
}

/// Adds the command for a removal from the index that `key` names to the pipeline.
///
/// # Errors
///
/// Returns an error if `value` is `None` or if `key` belongs to no known index.
pub fn delete_from_index(pipe: &mut Pipeline, key: &str, value: Option<Vec<Bytes>>) -> (r: Result<
    (),
    CacheError,
>)
    requires
        delete_complete(INDEX@, key@, payload_contents(value)),
    ensures
        carried_out(*old(pipe), *final(pipe), route_delete_index(key@, payload_contents(value)), r),
{
    match value {
        None => Err(CacheFault::MissingDeletePayload { key: key.to_owned() }),
        Some(value) => match get_index_key(key) {
            Err(e) => Err(e),
            Ok(index_key) => if hash_index(index_key) {
                remove_from_hash(pipe, key, bytes_as_slice(&value[0]));
                Ok(())
            } else if set_index(index_key) {
                remove_from_set(pipe, key, bytes_as_slice(&value[0]));
                Ok(())
            } else {
                Err(CacheFault::UnsupportedRemoval { index: index_key.to_owned() })
            },
        },
    }
}

/// Adds the command for one database command to the pipeline.
///
/// # Errors
///
/// Returns an error if the command has no key, no collection, no payload where it needs one, or
/// asks for something that its collection does not support.
fn route_command(pipe: &mut Pipeline, trader_key: &str, command: DatabaseCommand) -> (r: Result<
    (),
    CacheError,
>)
    requires
        drainable(trader_key@, command@),
    ensures
        carried_out(*old(pipe), *final(pipe), route(trader_key@, command@), r),
{
    let DatabaseCommand { op_type, key, payload } = command;
    let key: String = match key {
        Some(key) => key,
        None => {
            return Err(CacheFault::NullKey { message: keyless_debug(&op_type, &payload) });
        },
    };
    let collection = match get_collection_key(&key) {
        Ok(collection) => collection,
        Err(e) => {
            return Err(e);
        },
    };
    let full_key = join(trader_key, &key);
    match op_type {
        DatabaseOperation::Insert => match payload {
            Some(payload) => insert(pipe, collection, &full_key, payload),
            None => Err(CacheFault::NullPayload { operation: DataOperation::Insert }),
        },
        DatabaseOperation::Update => match payload {
            Some(payload) => update(pipe, collection, &full_key, payload),
            None => Err(CacheFault::NullPayload { operation: DataOperation::Update }),
        },
        _ => delete(pipe, collection, &full_key, payload),
    }
}

/// Returns whether a command may stand in the write buffer.
pub fn is_drainable(trader_key: &str, command: &DatabaseCommand) -> (r: bool)
    ensures
        r == drainable(trader_key@, command@),
{
    let key: &String = match &command.key {
        Some(key) => key,
        None => {
            return true;
        },
    };
    let collection = match get_collection_key(key) {
        Ok(collection) => collection,
        Err(_) => {
            return true;
        },
    };
    let full_key = join(trader_key, key);
    let in_index = str_eq(collection, INDEX);
    let (in_hash, in_set): (bool, bool) = match get_index_key(&full_key) {
        Ok(index_key) => (hash_index(index_key), set_index(index_key)),
        Err(_) => (false, false),
    };
    match &command.op_type {
        DatabaseOperation::Insert => match &command.payload {
            Some(values) => !(in_index && in_hash) || values.len() == 0 || values.len() >= 2,
            None => true,
        },
        DatabaseOperation::Update => true,
        DatabaseOperation::Delete => match &command.payload {
            Some(values) => !(in_index && (in_hash || in_set)) || values.len() >= 1,
            None => true,
        },
        _ => false,
    }
}

/// The buffered commands as one transaction, and the errors of those that it leaves out.
pub struct DrainedBatch {
    /// The transaction to send.
    pub pipeline: Pipeline,
    /// The errors of the rejected commands, in the order of the commands.
    pub errors: Vec<CacheError>,
}

impl DrainedBatch {
    /// Whether the batch holds what `commands` ask for.
    pub open spec fn holds(self, trader_key: Seq<char>, commands: Seq<CommandView>) -> bool {
        &&& pipeline_commands(self.pipeline) == ops_args(routed(trader_key, commands))
        &&& pipeline_atomic(self.pipeline)
        &&& error_views(self.errors@) == rejected(trader_key, commands)
    }
}

/// Empties the buffer into one transaction.
pub fn drain_buffer(trader_key: &str, buffer: &mut VecDeque<DatabaseCommand>) -> (batch:
    DrainedBatch)
    requires
        forall|i: int|
            0 <= i < old(buffer)@.len() ==> drainable(trader_key@, #[trigger] old(buffer)@[i]@),
    ensures
        batch.holds(trader_key@, command_views(old(buffer)@)),
        final(buffer)@.len() == 0,
{
    let ghost all = buffer@;
    let ghost mut done: int = 0;
    let mut pipeline = new_pipeline();
    set_atomic(&mut pipeline);
    let mut errors: Vec<CacheError> = Vec::new();
    proof {
        assert(command_views(all).take(0) =~= Seq::empty());
        assert(ops_args(routed(trader_key@, Seq::empty())) =~= Seq::empty());
        assert(error_views(errors@) =~= Seq::empty());
        assert(all.skip(0) =~= all);
    }
    while buffer.len() > 0
        invariant
            0 <= done <= all.len(),
            buffer@ == all.skip(done),
            forall|i: int| 0 <= i < all.len() ==> drainable(trader_key@, #[trigger] all[i]@),
            pipeline_commands(pipeline) == ops_args(
                routed(trader_key@, command_views(all).take(done)),
            ),
            pipeline_atomic(pipeline),
            error_views(errors@) == rejected(trader_key@, command_views(all).take(done)),
        decreases buffer@.len(),
    {
        let ghost pipeline_before = pipeline;
        let ghost errors_before = errors@;
        let ghost ops_before = routed(trader_key@, command_views(all).take(done));
        match buffer.pop_front() {
            Some(command) => {
                assert(command == all[done]);
                proof {
                    let next = command_views(all).take(done + 1);
                    assert(next.drop_last() =~= command_views(all).take(done));
                    assert(next.last() == command@);
                    if let Ok(op) = route(trader_key@, command@) {
                        assert(ops_args(ops_before.push(op)) =~= ops_args(ops_before).push(
                            op.args(),
                        ));
                    }
                    assert(all.skip(done).subrange(1, all.skip(done).len() as int) =~= all.skip(
                        done + 1,
                    ));
                }
                match route_command(&mut pipeline, trader_key, command) {
                    Ok(()) => {},
                    Err(e) => {
                        errors.push(e);
                        assert(error_views(errors@) =~= error_views(errors_before).push(e@));
                    },
                }
                proof {
                    done = done + 1;
                }
            },
            None => {},
        }
    }
    assert(command_views(all).take(done) =~= command_views(all));
    DrainedBatch { pipeline, errors }
}

/// Draining two runs of commands one after the other writes what draining them at once writes,
/// and rejects the same commands.
pub proof fn law_drains_compose(
    trader_key: Seq<char>,
    first: Seq<CommandView>,
    second: Seq<CommandView>,
)
    ensures
        routed(trader_key, first + second) == routed(trader_key, first) + routed(
            trader_key,
            second,
        ),
        rejected(trader_key, first + second) == rejected(trader_key, first) + rejected(
            trader_key,
            second,
        ),
    decreases second.len(),
{
    if second.len() == 0 {
        assert(first + second =~= first);
        assert(routed(trader_key, first) + Seq::<RedisOp>::empty() =~= routed(trader_key, first));
        assert(rejected(trader_key, first) + Seq::<CacheFault<Seq<char>>>::empty() =~= rejected(
            trader_key,
            first,
        ));
    } else {
        law_drains_compose(trader_key, first, second.drop_last());
        assert((first + second).drop_last() =~= first + second.drop_last());
        let a = routed(trader_key, first);
        let b = routed(trader_key, second.drop_last());
        let c = rejected(trader_key, first);
        let d = rejected(trader_key, second.drop_last());
        match route(trader_key, second.last()) {
            Ok(op) => {
                assert((a + b).push(op) =~= a + b.push(op));
            },
            Err(e) => {
                assert((c + d).push(e) =~= c + d.push(e));
            },
        }
    }
}

/// The collections and the indexes of each kind are these and no others.
pub proof fn law_names_of_each_kind(name: Seq<char>)
    ensures
        is_string_collection(name) <==> seq![
            "general"@,
            "currencies"@,
            "instruments"@,
            "synthetics"@,
            "actors"@,
            "strategies"@,
            "health"@,
        ].contains(name),
        is_list_collection(name) <==> seq![
            "accounts"@,
            "orders"@,
            "positions"@,
            "quotes"@,
            "trades"@,
            "bars"@,
            "signals"@,
            "custom_data"@,
            "funding_rates"@,
            "snapshots"@,
        ].contains(name),
        is_set_index(name) <==> seq![
            "index:orders"@,
            "index:orders_open"@,
            "index:orders_closed"@,
            "index:orders_emulated"@,
            "index:orders_inflight"@,
            "index:positions"@,
            "index:positions_open"@,
            "index:positions_closed"@,
        ].contains(name),
        is_hash_index(name) <==> seq![
            "index:order_ids"@,
            "index:order_position"@,
            "index:order_client"@,
        ].contains(name),
{
    let strings = seq![
        "general"@,
        "currencies"@,
        "instruments"@,
        "synthetics"@,
        "actors"@,
        "strategies"@,
        "health"@,
    ];
    if is_string_collection(name) {
        assert(strings[0] == "general"@);
        assert(strings[1] == "currencies"@);
        assert(strings[2] == "instruments"@);
        assert(strings[3] == "synthetics"@);
        assert(strings[4] == "actors"@);
        assert(strings[5] == "strategies"@);
        assert(strings[6] == "health"@);
    }
    let lists = seq![
        "accounts"@,
        "orders"@,
        "positions"@,
        "quotes"@,
        "trades"@,
        "bars"@,
        "signals"@,
        "custom_data"@,
        "funding_rates"@,
        "snapshots"@,
    ];
    if is_list_collection(name) {
        assert(lists[0] == "accounts"@);
        assert(lists[1] == "orders"@);
        assert(lists[2] == "positions"@);
        assert(lists[3] == "quotes"@);
        assert(lists[4] == "trades"@);
        assert(lists[5] == "bars"@);
        assert(lists[6] == "signals"@);
        assert(lists[7] == "custom_data"@);
        assert(lists[8] == "funding_rates"@);
        assert(lists[9] == "snapshots"@);
    }
    let sets = seq![
        "index:orders"@,
        "index:orders_open"@,
        "index:orders_closed"@,
        "index:orders_emulated"@,
        "index:orders_inflight"@,
        "index:positions"@,
        "index:positions_open"@,
        "index:positions_closed"@,
    ];
    if is_set_index(name) {
        assert(sets[0] == "index:orders"@);
        assert(sets[1] == "index:orders_open"@);
        assert(sets[2] == "index:orders_closed"@);
        assert(sets[3] == "index:orders_emulated"@);
        assert(sets[4] == "index:orders_inflight"@);
        assert(sets[5] == "index:positions"@);
        assert(sets[6] == "index:positions_open"@);
        assert(sets[7] == "index:positions_closed"@);
    }
    let hashes = seq![
        "index:order_ids"@,
        "index:order_position"@,
        "index:order_client"@,
    ];
    if is_hash_index(name) {
        assert(hashes[0] == "index:order_ids"@);
        assert(hashes[1] == "index:order_position"@);
        assert(hashes[2] == "index:order_client"@);
    }
}

/// A command is carried out by at most one write, and otherwise rejected with one error: no command
/// of a run is lost, and none is carried out twice.
pub proof fn law_every_command_is_answered(
    trader_key: Seq<char>,
    commands: Seq<CommandView>,
    command: CommandView,
)
    ensures
        routed(trader_key, commands).len() + rejected(trader_key, commands).len()
            == commands.len(),
        match route(trader_key, command) {
            Ok(op) => routed(trader_key, seq![command]) == seq![op],
            Err(e) => rejected(trader_key, seq![command]) == seq![e],
        },
    decreases commands.len(),
{
    reveal_with_fuel(routed, 2);
    reveal_with_fuel(rejected, 2);
    assert(seq![command].drop_last() =~= Seq::<CommandView>::empty());
    match route(trader_key, command) {
        Ok(op) => {
            assert(routed(trader_key, seq![command]) =~= seq![op]);
        },
        Err(e) => {
            assert(rejected(trader_key, seq![command]) =~= seq![e]);
        },
    }
    if commands.len() > 0 {
        law_every_command_is_answered(trader_key, commands.drop_last(), command);
    }
}

/// A command without a key or without a collection is rejected as such, whatever else it says.
pub proof fn law_malformed_commands_are_rejected(trader_key: Seq<char>, command: CommandView)
    ensures
        command.key is None <==> route(trader_key, command) is Err && route(
            trader_key,
            command,
        )->Err_0 is NullKey,
        command.key is Some && !command.key->0.contains(':') ==> route(trader_key, command) == Err::<
            RedisOp,
            CacheFault<Seq<char>>,
        >(CacheFault::MissingDelimiter { key: command.key->0 }),
{
    if command.key is Some {
        command.key->0.index_of_first_ensures(':');
    }
}

/// An insert into a collection of strings sets the string at its key, and one into a collection of
/// lists appends to the list at its key, each with the first value of its payload. Into any other
/// collection but that of the indexes there are no inserts, nor are there any without a value.
pub proof fn law_insert_goes_by_collection(
    trader_key: Seq<char>,
    collection: Seq<char>,
    rest: Seq<char>,
    payload: Option<Seq<Seq<u8>>>,
)
    requires
        !collection.contains(':'),
    ensures
        ({
            let command = CommandView {
                op: OperationKind::Insert,
                key: Some(joined(collection, rest)),
                payload,
            };
            let key = joined(trader_key, joined(collection, rest));
            let r = route(trader_key, command);
            match payload {
                None => r is Err && r->Err_0 == (CacheFault::<Seq<char>>::NullPayload {
                    operation: DataOperation::Insert,
                }),
                Some(values) => {
                    &&& values.len() == 0 ==> r is Err && r->Err_0 is EmptyPayload
                    &&& values.len() > 0 && is_string_collection(collection) ==> r is Ok && r->Ok_0
                        == (RedisOp::SetValue { key, value: values[0] })
                    &&& values.len() > 0 && is_list_collection(collection) ==> r is Ok && r->Ok_0
                        == (RedisOp::Rpush { key, value: values[0] })
                    &&& values.len() > 0 && !is_string_collection(collection)
                        && !is_list_collection(collection) && collection != INDEX@ ==> r is Err
                        && r->Err_0 == (CacheFault::UnsupportedOperation {
                        operation: DataOperation::Insert,
                        collection,
                    })
                },
            }
        }),
{
    law_collection_of_joined_key(collection, rest);
    lemma_collections_apart(collection);
}

/// An update appends the first value of its payload to the list at its key, if there is one, and is
/// refused for everything but collections of lists.
pub proof fn law_update_goes_by_collection(
    trader_key: Seq<char>,
    collection: Seq<char>,
    rest: Seq<char>,
    payload: Option<Seq<Seq<u8>>>,
)
    requires
        !collection.contains(':'),
    ensures
        ({
            let command = CommandView {
                op: OperationKind::Update,
                key: Some(joined(collection, rest)),
                payload,
            };
            let key = joined(trader_key, joined(collection, rest));
            let r = route(trader_key, command);
            match payload {
                None => r is Err && r->Err_0 == (CacheFault::<Seq<char>>::NullPayload {
                    operation: DataOperation::Update,
                }),
                Some(values) => {
                    &&& values.len() == 0 ==> r is Err && r->Err_0 is EmptyPayload
                    &&& values.len() > 0 && is_list_collection(collection) ==> r is Ok && r->Ok_0
                        == (RedisOp::Rpushx { key, value: values[0] })
                    &&& values.len() > 0 && !is_list_collection(collection) ==> r is Err && r->Err_0
                        == (CacheFault::UnsupportedOperation {
                        operation: DataOperation::Update,
                        collection,
                    })
                },
            }
        }),
{
    law_collection_of_joined_key(collection, rest);
}

/// A delete removes what stands at its key, whatever its payload, and is refused for an unknown
/// collection.
pub proof fn law_delete_goes_by_collection(
    trader_key: Seq<char>,
    collection: Seq<char>,
    rest: Seq<char>,
    payload: Option<Seq<Seq<u8>>>,
)
    requires
        !collection.contains(':'),
        collection != INDEX@,
    ensures
        ({
            let command = CommandView {
                op: OperationKind::Delete,
                key: Some(joined(collection, rest)),
                payload,
            };
            let r = route(trader_key, command);
            if is_string_collection(collection) || is_list_collection(collection) {
                r is Ok && r->Ok_0 == (RedisOp::Del {
                    key: joined(trader_key, joined(collection, rest)),
                })
            } else {
                r is Err && r->Err_0 == (CacheFault::UnsupportedOperation {
                    operation: DataOperation::Delete,
                    collection,
                })
            }
        }),
{
    law_collection_of_joined_key(collection, rest);
}

/// An insert into an index adds to its set or maps in its hash, a delete removes from it, and both
/// are refused for an unknown index; a delete also if it does not say what to remove.
pub proof fn law_index_commands_go_by_index(
    trader_key: Seq<char>,
    name: Seq<char>,
    values: Seq<Seq<u8>>,
)
    requires
        marker_free(trader_key),
        values.len() > 0,
    ensures
        ({
            let index = "index:"@ + name;
            let key = joined(trader_key, index);
            let inserted = route(trader_key, CommandView::insert(index, values));
            let removed = route(trader_key, CommandView::remove(index, values));
            let vague = route(trader_key, CommandView::delete(index));
            &&& is_set_index(index) ==> {
                &&& inserted is Ok && inserted->Ok_0 == (RedisOp::Sadd { key, member: values[0] })
                &&& removed is Ok && removed->Ok_0 == (RedisOp::Srem { key, member: values[0] })
            }
            &&& is_hash_index(index) ==> {
                &&& inserted is Ok && inserted->Ok_0 == (RedisOp::Hset {
                    key,
                    field: values[0],
                    value: values[1],
                })
                &&& removed is Ok && removed->Ok_0 == (RedisOp::Hdel { key, field: values[0] })
            }
            &&& !is_set_index(index) && !is_hash_index(index) ==> {
                &&& inserted is Err && inserted->Err_0 == (CacheFault::UnknownIndex { index })
                &&& removed is Err && removed->Err_0 == (CacheFault::UnsupportedRemoval { index })
            }
            &&& vague is Err && vague->Err_0 == (CacheFault::MissingDeletePayload { key })
        }),
{
    let index = "index:"@ + name;
    reveal_strlit("index");
    reveal_strlit("index:");
    assert(index =~= joined(INDEX@, name));
    assert(!INDEX@.contains(':'));
    law_collection_of_joined_key(INDEX@, name);
    law_index_of_prefixed_key(trader_key, name);
    if is_set_index(index) {
        lemma_sets_are_no_hashes(index);
    }
}

/// A data command may be buffered unless an insert into a hash index brings one value only, or a
/// removal from a known index brings a payload without a value.
pub proof fn law_what_may_be_buffered(trader_key: Seq<char>, name: Seq<char>, command: CommandView)
    requires
        marker_free(trader_key),
        command.op is Insert || command.op is Update || command.op is Delete,
    ensures
        ({
            let index = "index:"@ + name;
            &&& command.key == Some(index) ==> (!drainable(trader_key, command) <==> {
                ||| command.op is Insert && command.payload is Some && command.payload->0.len() == 1
                    && is_hash_index(index)
                ||| command.op is Delete && command.payload is Some && command.payload->0.len() == 0
                    && (is_hash_index(index) || is_set_index(index))
            })
            &&& command.key is None ==> drainable(trader_key, command)
            &&& command.key is Some && collection_of(command.key->0) != Some(INDEX@) ==> drainable(
                trader_key,
                command,
            )
        }),
{
    let index = "index:"@ + name;
    reveal_strlit("index");
    reveal_strlit("index:");
    assert(index =~= joined(INDEX@, name));
    assert(!INDEX@.contains(':'));
    law_collection_of_joined_key(INDEX@, name);
    law_index_of_prefixed_key(trader_key, name);
}

proof fn lemma_collections_apart(c: Seq<char>)
    ensures
        is_string_collection(c) ==> !is_list_collection(c),
        is_string_collection(c) || is_list_collection(c) ==> c != INDEX@,
{
    reveal_strlit("general");
    reveal_strlit("currencies");
    reveal_strlit("instruments");
    reveal_strlit("synthetics");
    reveal_strlit("actors");
    reveal_strlit("strategies");
    reveal_strlit("health");
    reveal_strlit("accounts");
    reveal_strlit("orders");
    reveal_strlit("positions");
    reveal_strlit("quotes");
    reveal_strlit("trades");
    reveal_strlit("bars");
    reveal_strlit("signals");
    reveal_strlit("custom_data");
    reveal_strlit("funding_rates");
    reveal_strlit("snapshots");
    reveal_strlit("index");
    assert("general"@.len() == 7 && "general"@[0] == 'g' && "general"@[1] == 'e');
    assert("currencies"@.len() == 10 && "currencies"@[0] == 'c' && "currencies"@[1] == 'u');
    assert("instruments"@.len() == 11 && "instruments"@[0] == 'i' && "instruments"@[1] == 'n');
    assert("synthetics"@.len() == 10 && "synthetics"@[0] == 's' && "synthetics"@[1] == 'y');
    assert("actors"@.len() == 6 && "actors"@[0] == 'a' && "actors"@[1] == 'c');
    assert("strategies"@.len() == 10 && "strategies"@[0] == 's' && "strategies"@[1] == 't');
    assert("health"@.len() == 6 && "health"@[0] == 'h' && "health"@[1] == 'e');
    assert("accounts"@.len() == 8 && "accounts"@[0] == 'a' && "accounts"@[1] == 'c');
    assert("orders"@.len() == 6 && "orders"@[0] == 'o' && "orders"@[1] == 'r');
    assert("positions"@.len() == 9 && "positions"@[0] == 'p' && "positions"@[1] == 'o');
    assert("quotes"@.len() == 6 && "quotes"@[0] == 'q' && "quotes"@[1] == 'u');
    assert("trades"@.len() == 6 && "trades"@[0] == 't' && "trades"@[1] == 'r');
    assert("bars"@.len() == 4 && "bars"@[0] == 'b' && "bars"@[1] == 'a');
    assert("signals"@.len() == 7 && "signals"@[0] == 's' && "signals"@[1] == 'i');
    assert("custom_data"@.len() == 11 && "custom_data"@[0] == 'c' && "custom_data"@[1] == 'u');
    assert("funding_rates"@.len() == 13 && "funding_rates"@[0] == 'f' && "funding_rates"@[1] == 'u');
    assert("snapshots"@.len() == 9 && "snapshots"@[0] == 's' && "snapshots"@[1] == 'n');
    assert("index"@.len() == 5 && "index"@[0] == 'i' && "index"@[1] == 'n');
}

proof fn lemma_sets_are_no_hashes(index: Seq<char>)
    requires
        is_set_index(index),
    ensures
        !is_hash_index(index),
{
    reveal_strlit("index:orders");
    reveal_strlit("index:orders_open");
    reveal_strlit("index:orders_closed");
    reveal_strlit("index:orders_emulated");
    reveal_strlit("index:orders_inflight");
    reveal_strlit("index:positions");
    reveal_strlit("index:positions_open");
    reveal_strlit("index:positions_closed");
    reveal_strlit("index:order_ids");
    reveal_strlit("index:order_position");
    reveal_strlit("index:order_client");
    assert("index:orders"@.len() == 12 && "index:orders"@[6] == 'o');
    assert("index:orders_open"@.len() == 17 && "index:orders_open"@[6] == 'o');
    assert("index:orders_closed"@.len() == 19 && "index:orders_closed"@[6] == 'o');
    assert("index:orders_emulated"@.len() == 21 && "index:orders_emulated"@[6] == 'o');
    assert("index:orders_inflight"@.len() == 21 && "index:orders_inflight"@[6] == 'o');
    assert("index:positions"@.len() == 15 && "index:positions"@[6] == 'p');
    assert("index:positions_open"@.len() == 20 && "index:positions_open"@[6] == 'p');
    assert("index:positions_closed"@.len() == 22 && "index:positions_closed"@[6] == 'p');
    assert("index:order_ids"@.len() == 15 && "index:order_ids"@[6] == 'o');
    assert("index:order_position"@.len() == 20 && "index:order_position"@[6] == 'o');
    assert("index:order_client"@.len() == 18 && "index:order_client"@[6] == 'o');
}

/// A drained batch is one transaction with exactly the writes of its commands, in order, and comes
/// with exactly the errors of the rejected ones, in order.
pub proof fn law_batch_is_one_transaction(
    batch: DrainedBatch,
    trader_key: Seq<char>,
    commands: Seq<CommandView>,
    i: int,
)
    requires
        batch.holds(trader_key, commands),
    ensures
        pipeline_atomic(batch.pipeline),
        pipeline_commands(batch.pipeline).len() == routed(trader_key, commands).len(),
        0 <= i < routed(trader_key, commands).len() ==> pipeline_commands(batch.pipeline)[i]
            == routed(trader_key, commands)[i].args(),
        batch.errors@.len() == rejected(trader_key, commands).len(),
        0 <= i < batch.errors@.len() ==> batch.errors@[i]@ == rejected(trader_key, commands)[i],
{
    assert(error_views(batch.errors@).len() == batch.errors@.len());
}

/// What is carried out adds its one command at the end of a pipeline, and what is refused leaves the
/// pipeline as it is.
pub proof fn law_refused_adds_nothing(
    before: Pipeline,
    after: Pipeline,
    outcome: Result<RedisOp, CacheFault<Seq<char>>>,
    result: Result<(), CacheError>,
)
    requires
        carried_out(before, after, outcome, result),
    ensures
        outcome is Ok <==> result is Ok,
        outcome is Ok ==> pipeline_commands(after) == pipeline_commands(before).push(
            outcome->Ok_0.args(),
        ),
        outcome is Err ==> pipeline_commands(after) == pipeline_commands(before)
            && result->Err_0@ == outcome->Err_0,
        pipeline_atomic(after) == pipeline_atomic(before),
{
}

/// An insert into an index may be asked for unless the index is known and there are too few values
/// for it.
pub proof fn law_index_inserts_that_may_be_asked_for(key: Seq<char>, values: Seq<Seq<u8>>)
    ensures
        index_of(key) is None ==> index_insert_complete(key, values),
        index_of(key) is Some && !is_set_index(index_of(key)->0) && !is_hash_index(
            index_of(key)->0,
        ) ==> index_insert_complete(key, values),
        values.len() >= 2 ==> index_insert_complete(key, values),
        values.len() == 1 && index_of(key) is Some && is_set_index(index_of(key)->0)
            ==> index_insert_complete(key, values),
        values.len() >= 2 ==> insert_complete(INDEX@, key, values) && delete_complete(
            INDEX@,
            key,
            Some(values),
        ),
        values.len() == 1 ==> delete_complete(INDEX@, key, Some(values)),
        delete_complete(INDEX@, key, None),
        values.len() == 0 ==> insert_complete(INDEX@, key, values),
        values.len() == 1 && index_of(key) is Some && is_set_index(index_of(key)->0)
            ==> insert_complete(INDEX@, key, values),
{
    if values.len() == 1 && index_of(key) is Some && is_set_index(index_of(key)->0) {
        lemma_sets_are_no_hashes(index_of(key)->0);
    }
}

/// Only the indexes ask for a number of values.
pub proof fn law_collections_take_any_payload(
    collection: Seq<char>,
    key: Seq<char>,
    payload: Option<Seq<Seq<u8>>>,
)
    requires
        collection != INDEX@,
    ensures
        payload is Some ==> insert_complete(collection, key, payload->0),
        delete_complete(collection, key, payload),
{
}

/// Whatever full key it is for, a request on a collection becomes the one write of its kind to that
/// key with its first value, and is otherwise refused with the error that says why.
pub proof fn law_requests_go_by_kind(
    collection: Seq<char>,
    key: Seq<char>,
    values: Seq<Seq<u8>>,
    payload: Option<Seq<Seq<u8>>>,
)
    requires
        collection != INDEX@,
    ensures
        ({
            let inserted = route_insert(collection, key, values);
            let updated = route_update(collection, key, values);
            let deleted = route_delete(collection, key, payload);
            let strings = is_string_collection(collection);
            let lists = is_list_collection(collection);
            &&& inserted is Ok <==> values.len() > 0 && (strings || lists)
            &&& updated is Ok <==> values.len() > 0 && lists
            &&& deleted is Ok <==> strings || lists
            &&& inserted is Ok && strings ==> inserted->Ok_0 == (RedisOp::SetValue {
                key,
                value: values[0],
            })
            &&& inserted is Ok && lists ==> inserted->Ok_0 == (RedisOp::Rpush {
                key,
                value: values[0],
            })
            &&& updated is Ok ==> updated->Ok_0 == (RedisOp::Rpushx { key, value: values[0] })
            &&& deleted is Ok ==> deleted->Ok_0 == (RedisOp::Del { key })
            &&& values.len() == 0 ==> inserted->Err_0 is EmptyPayload && updated->Err_0 is EmptyPayload
            &&& inserted is Err && values.len() > 0 ==> inserted->Err_0 == (
            CacheFault::UnsupportedOperation { operation: DataOperation::Insert, collection })
            &&& updated is Err && values.len() > 0 ==> updated->Err_0 == (
            CacheFault::UnsupportedOperation { operation: DataOperation::Update, collection })
            &&& deleted is Err ==> deleted->Err_0 == (CacheFault::UnsupportedOperation {
                operation: DataOperation::Delete,
                collection,
            })
        }),
{
    lemma_collections_apart(collection);
}

/// Whatever full key it is for, a request on an index becomes the one write of its kind for the
/// index that the key names, and is otherwise refused with the error that says why. An index is
/// never updated.
pub proof fn law_index_requests_go_by_kind(
    key: Seq<char>,
    values: Seq<Seq<u8>>,
    payload: Option<Seq<Seq<u8>>>,
)
    ensures
        ({
            let inserted = route_insert_index(key, values);
            let deleted = route_delete_index(key, payload);
            let updated = route_update(INDEX@, key, values);
            &&& values.len() > 0 ==> route_insert(INDEX@, key, values) == inserted
            &&& values.len() == 0 ==> route_insert(INDEX@, key, values) is Err && route_insert(
                INDEX@,
                key,
                values,
            )->Err_0 is EmptyPayload
            &&& route_delete(INDEX@, key, payload) == deleted
            &&& updated is Err
            &&& payload is None ==> deleted is Err && deleted->Err_0 == (
            CacheFault::MissingDeletePayload { key })
            &&& match index_of(key) {
                None => {
                    &&& inserted is Err && inserted->Err_0 == (CacheFault::InvalidIndexKey { key })
                    &&& payload is Some ==> deleted is Err && deleted->Err_0 == (
                    CacheFault::InvalidIndexKey { key })
                },
                Some(index) => {
                    &&& is_hash_index(index) ==> inserted is Ok && inserted->Ok_0 == (
                    RedisOp::Hset { key, field: values[0], value: values[1] })
                    &&& is_set_index(index) ==> inserted is Ok && inserted->Ok_0 == (
                    RedisOp::Sadd { key, member: values[0] })
                    &&& is_hash_index(index) && payload is Some ==> deleted is Ok && deleted->Ok_0
                        == (RedisOp::Hdel { key, field: payload->0[0] })
                    &&& is_set_index(index) && payload is Some ==> deleted is Ok && deleted->Ok_0
                        == (RedisOp::Srem { key, member: payload->0[0] })
                    &&& !is_hash_index(index) && !is_set_index(index) ==> {
                        &&& inserted is Err && inserted->Err_0 == (CacheFault::UnknownIndex {
                            index,
                        })
                        &&& payload is Some ==> deleted is Err && deleted->Err_0 == (
                        CacheFault::UnsupportedRemoval { index })
                    }
                },
            }
        }),
{
    lemma_collections_apart(INDEX@);
    if let Some(index) = index_of(key) {
        if is_set_index(index) {
            lemma_sets_are_no_hashes(index);
        }
    }
}

/// A command with a key is the request of its operation on the collection that its key names, under
/// the trader's key.
pub proof fn law_command_is_a_request(
    trader_key: Seq<char>,
    key: Seq<char>,
    values: Seq<Seq<u8>>,
    payload: Option<Seq<Seq<u8>>>,
)
    requires
        collection_of(key) is Some,
    ensures
        ({
            let collection = collection_of(key)->0;
            let full_key = trader_key + seq![':'] + key;
            &&& route(trader_key, CommandView::insert(key, values)) == route_insert(
                collection,
                full_key,
                values,
            )
            &&& route(trader_key, CommandView::update(key, values)) == route_update(
                collection,
                full_key,
                values,
            )
            &&& route(
                trader_key,
                CommandView { op: OperationKind::Delete, key: Some(key), payload },
            ) == route_delete(collection, full_key, payload)
        }),
{
}

} // verus!
