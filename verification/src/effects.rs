//! What the planned writes do to the stored data.
//!
//! A key holds a string, a list, a set or a hash. The functions here say what the Redis writes of a
//! plan leave at one key, given what stood there before.

use vstd::prelude::*;
use vstd::utf8::{encode_utf8, encode_utf8_decode_utf8};
use crate::adapter::{
    add_order_steps, add_position_steps, order_position_step, store_steps, stores,
    update_order_steps, update_position_steps, venue_order_id_step, Order, Position,
};
use crate::command::{optional_text, CommandView};
use crate::database::{delete_order_steps, delete_position_steps, flush_steps};
use crate::error::CacheFault;
use crate::keys::{
    collection_of, index_of, law_collection_of_joined_key, law_index_of_prefixed_key, marker_free,
    ACCOUNTS, ACTORS, BARS, CURRENCIES, CUSTOM_DATA, FUNDING_RATES, GENERAL, HEALTH, INDEX,
    INDEX_ORDERS, INDEX_ORDERS_CLOSED, INDEX_ORDERS_EMULATED, INDEX_ORDERS_INFLIGHT,
    INDEX_ORDERS_OPEN, INDEX_ORDER_CLIENT, INDEX_ORDER_IDS, INDEX_ORDER_POSITION, INDEX_POSITIONS,
    INDEX_POSITIONS_CLOSED, INDEX_POSITIONS_OPEN, INSTRUMENTS, ORDERS, POSITIONS, QUOTES, SIGNALS,
    SNAPSHOTS, STRATEGIES, SYNTHETICS, TRADES,
};
use crate::pipeline::RedisOp;
use crate::plan::{step, step_commands, PlannedView, WritePlan};
use crate::processor::{
    law_close_sends_everything, requested, run_transmitted, transmissions, Transmission,
    WriterEvent,
};
use crate::routing::{
    drainable, is_hash_index, is_list_collection, is_set_index, is_string_collection,
    law_drains_compose, rejected, route, routed,
};
use crate::text::{joined, lemma_joined_injective};

verus! {

/// The state after the first `n` writes, from `before`, where one write changes it by `change`.
pub open spec fn replay_upto<S>(
    ops: Seq<RedisOp>,
    n: int,
    change: spec_fn(S, RedisOp) -> S,
    before: S,
) -> S
    decreases n,
{
    if n <= 0 {
        before
    } else {
        change(replay_upto(ops, n - 1, change, before), ops[n - 1])
    }
}

/// The state after several writes, from `before`, where one write changes it by `change`.
pub open spec fn replay<S>(
    ops: Seq<RedisOp>,
    change: spec_fn(S, RedisOp) -> S,
    before: S,
) -> S {
    replay_upto(ops, ops.len() as int, change, before)
}

/// How a write changes whether `member` is in the set at `key`.
pub open spec fn member_change(key: Seq<char>, member: Seq<u8>) -> spec_fn(bool, RedisOp) -> bool {
    |has: bool, op: RedisOp|
        match op {
            RedisOp::Sadd { key: k, member: m } => has || (k == key && m == member),
            RedisOp::Srem { key: k, member: m } => has && !(k == key && m == member),
            RedisOp::SetValue { key: k, .. } => has && k != key,
            RedisOp::Del { key: k } => has && k != key,
            _ => has,
        }
}

/// How a write changes the value of `field` in the hash at `key`.
pub open spec fn field_change(key: Seq<char>, field: Seq<u8>) -> spec_fn(
    Option<Seq<u8>>,
    RedisOp,
) -> Option<Seq<u8>> {
    |held: Option<Seq<u8>>, op: RedisOp|
        match op {
            RedisOp::Hset { key: k, field: f, value } => if k == key && f == field {
                Some(value)
            } else {
                held
            },
            RedisOp::Hdel { key: k, field: f } => if k == key && f == field {
                None
            } else {
                held
            },
            RedisOp::SetValue { key: k, .. } => if k == key {
                None
            } else {
                held
            },
            RedisOp::Del { key: k } => if k == key {
                None
            } else {
                held
            },
            _ => held,
        }
}

/// How a write changes the list at `key`.
pub open spec fn list_change(key: Seq<char>) -> spec_fn(
    Option<Seq<Seq<u8>>>,
    RedisOp,
) -> Option<Seq<Seq<u8>>> {
    |held: Option<Seq<Seq<u8>>>, op: RedisOp|
        match op {
            RedisOp::Rpush { key: k, value } => if k == key {
                match held {
                    Some(items) => Some(items.push(value)),
                    None => Some(seq![value]),
                }
            } else {
                held
            },
            RedisOp::Rpushx { key: k, value } => if k == key {
                match held {
                    Some(items) => Some(items.push(value)),
                    None => None,
                }
            } else {
                held
            },
            RedisOp::SetValue { key: k, .. } => if k == key {
                None
            } else {
                held
            },
            RedisOp::Del { key: k } => if k == key {
                None
            } else {
                held
            },
            _ => held,
        }
}

/// How a write changes the string at `key`.
pub open spec fn string_change(key: Seq<char>) -> spec_fn(Option<Seq<u8>>, RedisOp) -> Option<
    Seq<u8>,
> {
    |held: Option<Seq<u8>>, op: RedisOp|
        match op {
            RedisOp::SetValue { key: k, value } => if k == key {
                Some(value)
            } else {
                held
            },
            RedisOp::Del { key: k } => if k == key {
                None
            } else {
                held
            },
            _ => held,
        }
}

/// The Redis writes that a plan's steps lead to.
pub open spec fn writes(trader_key: Seq<char>, steps: Seq<PlannedView>) -> Seq<RedisOp> {
    routed(trader_key, step_commands(steps))
}

/// Whether `member` is in the set at `key` after the writes of a plan's steps.
pub open spec fn member_after(
    trader_key: Seq<char>,
    steps: Seq<PlannedView>,
    key: Seq<char>,
    member: Seq<u8>,
    before: bool,
) -> bool {
    replay(writes(trader_key, steps), member_change(joined(trader_key, key), member), before)
}

/// The value of `field` in the hash at `key` after the writes of a plan's steps.
pub open spec fn field_after(
    trader_key: Seq<char>,
    steps: Seq<PlannedView>,
    key: Seq<char>,
    field: Seq<u8>,
    before: Option<Seq<u8>>,
) -> Option<Seq<u8>> {
    replay(writes(trader_key, steps), field_change(joined(trader_key, key), field), before)
}

/// The list at `key` after the writes of a plan's steps.
pub open spec fn list_after(
    trader_key: Seq<char>,
    steps: Seq<PlannedView>,
    key: Seq<char>,
    before: Option<Seq<Seq<u8>>>,
) -> Option<Seq<Seq<u8>>> {
    replay(writes(trader_key, steps), list_change(joined(trader_key, key)), before)
}

/// The string at `key` after the writes of a plan's steps.
pub open spec fn string_after(
    trader_key: Seq<char>,
    steps: Seq<PlannedView>,
    key: Seq<char>,
    before: Option<Seq<u8>>,
) -> Option<Seq<u8>> {
    replay(writes(trader_key, steps), string_change(joined(trader_key, key)), before)
}

/// Whether a command may be buffered and leads to the write `op`.
pub open spec fn routes_to(trader_key: Seq<char>, command: CommandView, op: RedisOp) -> bool {
    &&& drainable(trader_key, command)
    &&& route(trader_key, command) is Ok
    &&& route(trader_key, command)->Ok_0 == op
}

/// Whether every step may be buffered and leads to a Redis write.
pub open spec fn all_routed(trader_key: Seq<char>, steps: Seq<PlannedView>) -> bool {
    forall|i: int|
        #![trigger steps[i]]
        0 <= i < steps.len() ==> drainable(trader_key, steps[i].command) && route(
            trader_key,
            steps[i].command,
        ) is Ok
}

proof fn lemma_replay_upto_prefix<S>(
    a: Seq<RedisOp>,
    b: Seq<RedisOp>,
    n: int,
    change: spec_fn(S, RedisOp) -> S,
    before: S,
)
    requires
        n <= a.len(),
    ensures
        replay_upto(a + b, n, change, before) == replay_upto(a, n, change, before),
    decreases n,
{
    if n > 0 {
        lemma_replay_upto_prefix(a, b, n - 1, change, before);
    }
}

proof fn lemma_replay_upto_suffix<S>(
    a: Seq<RedisOp>,
    b: Seq<RedisOp>,
    n: int,
    change: spec_fn(S, RedisOp) -> S,
    before: S,
)
    requires
        0 <= n <= b.len(),
    ensures
        replay_upto(a + b, a.len() + n, change, before) == replay_upto(
            b,
            n,
            change,
            replay(a, change, before),
        ),
    decreases n,
{
    if n == 0 {
        lemma_replay_upto_prefix(a, b, a.len() as int, change, before);
    } else {
        lemma_replay_upto_suffix(a, b, n - 1, change, before);
        assert((a + b)[a.len() + n - 1] == b[n - 1]);
    }
}

/// Replaying two runs of writes one after the other is replaying them at once.
pub proof fn law_replay_composes<S>(
    a: Seq<RedisOp>,
    b: Seq<RedisOp>,
    change: spec_fn(S, RedisOp) -> S,
    before: S,
)
    ensures
        replay(a + b, change, before) == replay(b, change, replay(a, change, before)),
{
    lemma_replay_upto_suffix(a, b, b.len() as int, change, before);
}

/// The Redis write that a step leads to.
pub open spec fn step_write(trader_key: Seq<char>, s: PlannedView) -> RedisOp {
    route(trader_key, s.command)->Ok_0
}

/// When every step leads to a Redis write, the writes of a plan are those of its steps, one each
/// and in order.
pub proof fn law_one_write_per_step(trader_key: Seq<char>, steps: Seq<PlannedView>)
    requires
        all_routed(trader_key, steps),
    ensures
        writes(trader_key, steps) == steps.map_values(|s: PlannedView| step_write(trader_key, s)),
        rejected(trader_key, step_commands(steps)).len() == 0,
    decreases steps.len(),
{
    let f = |s: PlannedView| step_write(trader_key, s);
    if steps.len() == 0 {
        assert(writes(trader_key, steps) =~= steps.map_values(f));
    } else {
        let before = steps.drop_last();
        assert forall|i: int| #![trigger before[i]] 0 <= i < before.len() implies drainable(
            trader_key,
            before[i].command,
        ) && route(trader_key, before[i].command) is Ok by {
            assert(before[i] == steps[i]);
        }
        law_one_write_per_step(trader_key, before);
        assert(step_commands(steps).drop_last() =~= step_commands(before));
        let last = steps[steps.len() - 1];
        assert(route(trader_key, last.command) is Ok);
        assert(writes(trader_key, steps) =~= steps.map_values(f));
    }
}

/// What the writer sees of a plan's steps.
pub open spec fn step_events(steps: Seq<PlannedView>) -> Seq<WriterEvent> {
    steps.map_values(|s: PlannedView| WriterEvent::Data(s.command))
}

proof fn lemma_steps_requested(trader_key: Seq<char>, steps: Seq<PlannedView>)
    ensures
        requested(trader_key, step_events(steps)) == transmissions(writes(trader_key, steps)),
    decreases steps.len(),
{
    if steps.len() == 0 {
        assert(transmissions(writes(trader_key, steps)) =~= Seq::<Transmission>::empty());
    } else {
        let before = steps.drop_last();
        let last = steps[steps.len() - 1].command;
        lemma_steps_requested(trader_key, before);
        assert(step_events(steps).drop_last() =~= step_events(before));
        assert(step_commands(steps) =~= step_commands(before) + seq![last]);
        law_drains_compose(trader_key, step_commands(before), seq![last]);
        let a = writes(trader_key, before);
        let b = routed(trader_key, seq![last]);
        assert(transmissions(a + b) =~= transmissions(a) + transmissions(b));
    }
}

/// A plan that is sent to the writer, which is then closed, leads to the writes of the plan, in
/// order and to nothing else, whatever the buffer interval.
pub proof fn law_plan_reaches_redis(
    trader_key: Seq<char>,
    interval: int,
    steps: Seq<PlannedView>,
)
    ensures
        run_transmitted(trader_key, interval, step_events(steps).push(WriterEvent::Close))
            == transmissions(writes(trader_key, steps)),
{
    let events = step_events(steps).push(WriterEvent::Close);
    law_close_sends_everything(trader_key, interval, events);
    assert(events.drop_last() =~= step_events(steps));
    lemma_steps_requested(trader_key, steps);
}

/// The key that a write is for.
pub open spec fn op_key(op: RedisOp) -> Seq<char> {
    match op {
        RedisOp::SetValue { key, .. } => key,
        RedisOp::Sadd { key, .. } => key,
        RedisOp::Hset { key, .. } => key,
        RedisOp::Rpush { key, .. } => key,
        RedisOp::Rpushx { key, .. } => key,
        RedisOp::Srem { key, .. } => key,
        RedisOp::Hdel { key, .. } => key,
        RedisOp::Del { key } => key,
    }
}

proof fn lemma_writes_stay_on_their_keys(
    trader_key: Seq<char>,
    steps: Seq<PlannedView>,
    key: Seq<char>,
)
    requires
        forall|i: int| 0 <= i < steps.len() ==> (#[trigger] steps[i]).command.key != Some(key),
    ensures
        forall|i: int|
            0 <= i < writes(trader_key, steps).len() ==> op_key(
                #[trigger] writes(trader_key, steps)[i],
            ) != joined(trader_key, key),
    decreases steps.len(),
{
    if steps.len() > 0 {
        let before = steps.drop_last();
        assert forall|i: int| 0 <= i < before.len() implies (
        #[trigger] before[i]).command.key != Some(key) by {
            assert(before[i] == steps[i]);
        }
        lemma_writes_stay_on_their_keys(trader_key, before, key);
        assert(step_commands(steps).drop_last() =~= step_commands(before));
        let last = steps[steps.len() - 1].command;
        assert(step_commands(steps).last() == last);
        if let Some(other) = last.key {
            lemma_joined_injective(trader_key, other, key);
            if let Ok(op) = route(trader_key, last) {
                assert(op_key(op) == joined(trader_key, other));
            }
        }
        let all = writes(trader_key, steps);
        let earlier = writes(trader_key, before);
        assert forall|i: int| 0 <= i < all.len() implies op_key(#[trigger] all[i]) != joined(
            trader_key,
            key,
        ) by {
            if i < earlier.len() {
                assert(all[i] == earlier[i]);
            }
        }
    }
}

proof fn lemma_replay_unchanged<S>(
    ops: Seq<RedisOp>,
    n: int,
    change: spec_fn(S, RedisOp) -> S,
    before: S,
)
    requires
        n <= ops.len(),
        forall|i: int, s: S| 0 <= i < ops.len() ==> #[trigger] change(s, ops[i]) == s,
    ensures
        replay_upto(ops, n, change, before) == before,
    decreases n,
{
    if n > 0 {
        lemma_replay_unchanged(ops, n - 1, change, before);
    }
}

/// The writes of a plan change nothing at a key that none of its commands is for.
pub proof fn law_other_keys_unchanged(
    trader_key: Seq<char>,
    steps: Seq<PlannedView>,
    key: Seq<char>,
    item: Seq<u8>,
    is_member: bool,
    mapped: Option<Seq<u8>>,
    items: Option<Seq<Seq<u8>>>,
    value: Option<Seq<u8>>,
)
    requires
        forall|i: int| 0 <= i < steps.len() ==> (#[trigger] steps[i]).command.key != Some(key),
    ensures
        member_after(trader_key, steps, key, item, is_member) == is_member,
        field_after(trader_key, steps, key, item, mapped) == mapped,
        list_after(trader_key, steps, key, items) == items,
        string_after(trader_key, steps, key, value) == value,
{
    lemma_writes_stay_on_their_keys(trader_key, steps, key);
    let ops = writes(trader_key, steps);
    let n = ops.len() as int;
    let full_key = joined(trader_key, key);
    lemma_replay_unchanged(ops, n, member_change(full_key, item), is_member);
    lemma_replay_unchanged(ops, n, field_change(full_key, item), mapped);
    lemma_replay_unchanged(ops, n, list_change(full_key), items);
    lemma_replay_unchanged(ops, n, string_change(full_key), value);
}

/// The names of the indexes differ from each other.
proof fn lemma_index_names()
    ensures
        forall|index: Seq<char>| is_set_index(index) ==> !is_hash_index(index),
        forall|index: Seq<char>|
            is_set_index(index) || is_hash_index(index) ==> index == "index:"@ + index.skip(6),
        INDEX_ORDERS@ != INDEX_ORDERS_OPEN@,
        INDEX_ORDERS@ != INDEX_ORDERS_CLOSED@,
        INDEX_ORDERS@ != INDEX_ORDERS_EMULATED@,
        INDEX_ORDERS@ != INDEX_ORDERS_INFLIGHT@,
        INDEX_ORDERS_OPEN@ != INDEX_ORDERS_CLOSED@,
        INDEX_ORDERS_OPEN@ != INDEX_ORDERS_EMULATED@,
        INDEX_ORDERS_OPEN@ != INDEX_ORDERS_INFLIGHT@,
        INDEX_ORDERS_CLOSED@ != INDEX_ORDERS_EMULATED@,
        INDEX_ORDERS_CLOSED@ != INDEX_ORDERS_INFLIGHT@,
        INDEX_ORDERS_EMULATED@ != INDEX_ORDERS_INFLIGHT@,
        INDEX_ORDER_IDS@ != INDEX_ORDER_POSITION@,
        INDEX_ORDER_IDS@ != INDEX_ORDER_CLIENT@,
        INDEX_ORDER_POSITION@ != INDEX_ORDER_CLIENT@,
        INDEX_POSITIONS@ != INDEX_POSITIONS_OPEN@,
        INDEX_POSITIONS@ != INDEX_POSITIONS_CLOSED@,
        INDEX_POSITIONS_OPEN@ != INDEX_POSITIONS_CLOSED@,
{
    reveal_strlit("index:");
    reveal_strlit("index:order_ids");
    reveal_strlit("index:order_position");
    reveal_strlit("index:order_client");
    reveal_strlit("index:orders");
    reveal_strlit("index:orders_open");
    reveal_strlit("index:orders_closed");
    reveal_strlit("index:orders_emulated");
    reveal_strlit("index:orders_inflight");
    reveal_strlit("index:positions");
    reveal_strlit("index:positions_open");
    reveal_strlit("index:positions_closed");
    assert(INDEX_ORDER_IDS@.len() == 15);
    assert(INDEX_ORDER_POSITION@.len() == 20);
    assert(INDEX_ORDER_CLIENT@.len() == 18);
    assert(INDEX_ORDERS@.len() == 12);
    assert(INDEX_ORDERS_OPEN@.len() == 17);
    assert(INDEX_ORDERS_CLOSED@.len() == 19);
    assert(INDEX_ORDERS_EMULATED@.len() == 21);
    assert(INDEX_ORDERS_INFLIGHT@.len() == 21);
    assert(INDEX_POSITIONS@.len() == 15);
    assert(INDEX_POSITIONS_OPEN@.len() == 20);
    assert(INDEX_POSITIONS_CLOSED@.len() == 22);
    assert(INDEX_ORDER_IDS@[6] != INDEX_POSITIONS@[6]);
    assert(INDEX_ORDER_POSITION@[6] != INDEX_POSITIONS_OPEN@[6]);
    assert(INDEX_ORDERS_EMULATED@[13] != INDEX_ORDERS_INFLIGHT@[13]);
    assert forall|index: Seq<char>| is_set_index(index) || is_hash_index(index) implies index
        == "index:"@ + index.skip(6) by {
        assert(index =~= "index:"@ + index.skip(6));
    }
}

/// An index key belongs to the index collection and, behind a trader key in which no index marker
/// starts, names its index.
proof fn lemma_index_key(trader_key: Seq<char>, index: Seq<char>)
    requires
        marker_free(trader_key),
        is_set_index(index) || is_hash_index(index),
    ensures
        collection_of(index) == Some(INDEX@),
        index_of(joined(trader_key, index)) == Some(index),
{
    lemma_index_names();
    reveal_strlit("index:");
    reveal_strlit("index");
    assert(index =~= joined(INDEX@, index.skip(6)));
    law_collection_of_joined_key(INDEX@, index.skip(6));
    law_index_of_prefixed_key(trader_key, index.skip(6));
}

proof fn lemma_set_index_writes(trader_key: Seq<char>, index: Seq<char>, member: Seq<u8>)
    requires
        marker_free(trader_key),
        is_set_index(index),
    ensures
        routes_to(
            trader_key,
            CommandView::insert(index, seq![member]),
            RedisOp::Sadd { key: joined(trader_key, index), member },
        ),
        routes_to(
            trader_key,
            CommandView::remove(index, seq![member]),
            RedisOp::Srem { key: joined(trader_key, index), member },
        ),
{
    lemma_index_key(trader_key, index);
    lemma_index_names();
}

proof fn lemma_hash_index_writes(
    trader_key: Seq<char>,
    index: Seq<char>,
    field: Seq<u8>,
    value: Seq<u8>,
)
    requires
        marker_free(trader_key),
        is_hash_index(index),
    ensures
        routes_to(
            trader_key,
            CommandView::insert(index, seq![field, value]),
            RedisOp::Hset { key: joined(trader_key, index), field, value },
        ),
        routes_to(
            trader_key,
            CommandView::remove(index, seq![field]),
            RedisOp::Hdel { key: joined(trader_key, index), field },
        ),
{
    lemma_index_key(trader_key, index);
}

/// The names of the collections differ from each other and hold no delimiter.
proof fn lemma_collection_names()
    ensures
        forall|c: Seq<char>|
            is_string_collection(c) || is_list_collection(c) ==> !#[trigger] c.contains(':'),
        forall|c: Seq<char>| is_string_collection(c) || is_list_collection(c) ==> c != INDEX@,
        forall|c: Seq<char>| is_string_collection(c) ==> !is_list_collection(c),
{
    reveal_strlit("index");
    reveal_strlit("general");
    reveal_strlit("currencies");
    reveal_strlit("instruments");
    reveal_strlit("synthetics");
    reveal_strlit("accounts");
    reveal_strlit("orders");
    reveal_strlit("positions");
    reveal_strlit("actors");
    reveal_strlit("strategies");
    reveal_strlit("snapshots");
    reveal_strlit("health");
    reveal_strlit("quotes");
    reveal_strlit("trades");
    reveal_strlit("bars");
    reveal_strlit("signals");
    reveal_strlit("custom_data");
    reveal_strlit("funding_rates");
    assert(INDEX@.len() == 5);
    assert(GENERAL@.len() == 7 && GENERAL@[0] == 'g');
    assert(CURRENCIES@.len() == 10 && CURRENCIES@[0] == 'c');
    assert(INSTRUMENTS@.len() == 11 && INSTRUMENTS@[0] == 'i' && INSTRUMENTS@[2] == 's');
    assert(SYNTHETICS@.len() == 10 && SYNTHETICS@[0] == 's');
    assert(ACTORS@.len() == 6 && ACTORS@[0] == 'a');
    assert(STRATEGIES@.len() == 10 && STRATEGIES@[0] == 's');
    assert(HEALTH@.len() == 6 && HEALTH@[0] == 'h');
    assert(ACCOUNTS@.len() == 8 && ACCOUNTS@[0] == 'a');
    assert(ORDERS@.len() == 6 && ORDERS@[0] == 'o');
    assert(POSITIONS@.len() == 9 && POSITIONS@[0] == 'p');
    assert(QUOTES@.len() == 6 && QUOTES@[0] == 'q');
    assert(TRADES@.len() == 6 && TRADES@[0] == 't');
    assert(BARS@.len() == 4 && BARS@[0] == 'b');
    assert(SIGNALS@.len() == 7 && SIGNALS@[0] == 's');
    assert(CUSTOM_DATA@.len() == 11 && CUSTOM_DATA@[0] == 'c');
    assert(FUNDING_RATES@.len() == 13 && FUNDING_RATES@[0] == 'f');
    assert(SNAPSHOTS@.len() == 9 && SNAPSHOTS@[0] == 's');
}

proof fn lemma_list_collection_writes(
    trader_key: Seq<char>,
    collection: Seq<char>,
    id: Seq<char>,
    value: Seq<u8>,
)
    requires
        is_list_collection(collection),
    ensures
        routes_to(
            trader_key,
            CommandView::insert(joined(collection, id), seq![value]),
            RedisOp::Rpush { key: joined(trader_key, joined(collection, id)), value },
        ),
        routes_to(
            trader_key,
            CommandView::update(joined(collection, id), seq![value]),
            RedisOp::Rpushx { key: joined(trader_key, joined(collection, id)), value },
        ),
        routes_to(
            trader_key,
            CommandView::delete(joined(collection, id)),
            RedisOp::Del { key: joined(trader_key, joined(collection, id)) },
        ),
{
    lemma_collection_names();
    law_collection_of_joined_key(collection, id);
}

proof fn lemma_string_collection_writes(
    trader_key: Seq<char>,
    collection: Seq<char>,
    id: Seq<char>,
    value: Seq<u8>,
)
    requires
        is_string_collection(collection),
    ensures
        routes_to(
            trader_key,
            CommandView::insert(joined(collection, id), seq![value]),
            RedisOp::SetValue { key: joined(trader_key, joined(collection, id)), value },
        ),
        routes_to(
            trader_key,
            CommandView::delete(joined(collection, id)),
            RedisOp::Del { key: joined(trader_key, joined(collection, id)) },
        ),
{
    lemma_collection_names();
    law_collection_of_joined_key(collection, id);
}

/// A value stored in a string collection is what stands at its key, whatever stood there before.
pub proof fn law_store_string(
    trader_key: Seq<char>,
    collection: Seq<char>,
    id: Seq<char>,
    value: Seq<u8>,
    failure: Seq<char>,
    before: Option<Seq<u8>>,
)
    requires
        is_string_collection(collection),
    ensures
        ({
            let steps = store_steps(collection, id, value, failure);
            &&& all_routed(trader_key, steps)
            &&& string_after(trader_key, steps, joined(collection, id), before) == Some(value)
        }),
{
    let steps = store_steps(collection, id, value, failure);
    lemma_string_collection_writes(trader_key, collection, id, value);
    law_one_write_per_step(trader_key, steps);
    reveal_with_fuel(replay_upto, 2);
}

/// A value stored in a list collection is the last item of the list at its key, behind all items
/// that stood there before.
pub proof fn law_store_list(
    trader_key: Seq<char>,
    collection: Seq<char>,
    id: Seq<char>,
    value: Seq<u8>,
    failure: Seq<char>,
    before: Option<Seq<Seq<u8>>>,
)
    requires
        is_list_collection(collection),
    ensures
        ({
            let steps = store_steps(collection, id, value, failure);
            &&& all_routed(trader_key, steps)
            &&& list_after(trader_key, steps, joined(collection, id), before) == Some(
                match before {
                    Some(items) => items.push(value),
                    None => seq![value],
                },
            )
        }),
{
    let steps = store_steps(collection, id, value, failure);
    lemma_list_collection_writes(trader_key, collection, id, value);
    law_one_write_per_step(trader_key, steps);
    reveal_with_fuel(replay_upto, 2);
}

/// An update appends to the list at its key if there is one, and creates none.
pub proof fn law_update_never_creates(
    trader_key: Seq<char>,
    collection: Seq<char>,
    id: Seq<char>,
    value: Seq<u8>,
    failure: Seq<char>,
    before: Option<Seq<Seq<u8>>>,
)
    requires
        is_list_collection(collection),
    ensures
        ({
            let command = CommandView::update(joined(collection, id), seq![value]);
            let steps = seq![step(command, failure)];
            &&& all_routed(trader_key, steps)
            &&& list_after(trader_key, steps, joined(collection, id), before) == match before {
                Some(items) => Some(items.push(value)),
                None => None,
            }
        }),
{
    let steps = seq![step(CommandView::update(joined(collection, id), seq![value]), failure)];
    lemma_list_collection_writes(trader_key, collection, id, value);
    law_one_write_per_step(trader_key, steps);
    reveal_with_fuel(replay_upto, 2);
}

/// After a removal under a key of a collection nothing stands at that key, whatever stood there
/// before.
pub proof fn law_delete_leaves_nothing(
    trader_key: Seq<char>,
    collection: Seq<char>,
    id: Seq<char>,
    failure: Seq<char>,
    items: Option<Seq<Seq<u8>>>,
    value: Option<Seq<u8>>,
)
    requires
        is_string_collection(collection) || is_list_collection(collection),
    ensures
        ({
            let steps = seq![step(CommandView::delete(joined(collection, id)), failure)];
            &&& all_routed(trader_key, steps)
            &&& list_after(trader_key, steps, joined(collection, id), items) is None
            &&& string_after(trader_key, steps, joined(collection, id), value) is None
        }),
{
    let steps = seq![step(CommandView::delete(joined(collection, id)), failure)];
    if is_string_collection(collection) {
        lemma_string_collection_writes(trader_key, collection, id, Seq::empty());
    } else {
        lemma_list_collection_writes(trader_key, collection, id, Seq::empty());
    }
    law_one_write_per_step(trader_key, steps);
    reveal_with_fuel(replay_upto, 2);
}

/// The Redis writes that delete an order.
pub open spec fn delete_order_writes(trader_key: Seq<char>, id: Seq<char>) -> Seq<RedisOp> {
    let member = encode_utf8(id);
    seq![
        RedisOp::Del { key: joined(trader_key, joined(ORDERS@, id)) },
        RedisOp::Hdel { key: joined(trader_key, INDEX_ORDER_IDS@), field: member },
        RedisOp::Srem { key: joined(trader_key, INDEX_ORDERS@), member },
        RedisOp::Srem { key: joined(trader_key, INDEX_ORDERS_OPEN@), member },
        RedisOp::Srem { key: joined(trader_key, INDEX_ORDERS_CLOSED@), member },
        RedisOp::Srem { key: joined(trader_key, INDEX_ORDERS_EMULATED@), member },
        RedisOp::Srem { key: joined(trader_key, INDEX_ORDERS_INFLIGHT@), member },
        RedisOp::Hdel { key: joined(trader_key, INDEX_ORDER_POSITION@), field: member },
        RedisOp::Hdel { key: joined(trader_key, INDEX_ORDER_CLIENT@), field: member },
    ]
}

proof fn lemma_delete_order_writes(trader_key: Seq<char>, id: Seq<char>)
    requires
        marker_free(trader_key),
    ensures
        all_routed(trader_key, delete_order_steps(id)),
        writes(trader_key, delete_order_steps(id)) == delete_order_writes(trader_key, id),
{
    let m = encode_utf8(id);
    lemma_list_collection_writes(trader_key, ORDERS@, id, m);
    lemma_hash_index_writes(trader_key, INDEX_ORDER_IDS@, m, m);
    lemma_hash_index_writes(trader_key, INDEX_ORDER_POSITION@, m, m);
    lemma_hash_index_writes(trader_key, INDEX_ORDER_CLIENT@, m, m);
    lemma_set_index_writes(trader_key, INDEX_ORDERS@, m);
    lemma_set_index_writes(trader_key, INDEX_ORDERS_OPEN@, m);
    lemma_set_index_writes(trader_key, INDEX_ORDERS_CLOSED@, m);
    lemma_set_index_writes(trader_key, INDEX_ORDERS_EMULATED@, m);
    lemma_set_index_writes(trader_key, INDEX_ORDERS_INFLIGHT@, m);
    law_one_write_per_step(trader_key, delete_order_steps(id));
    assert(writes(trader_key, delete_order_steps(id)) =~= delete_order_writes(trader_key, id));
}

/// After an order is deleted its events are gone, and it is in no set index and no hash index of
/// orders, whatever stood there before.
pub proof fn law_delete_order_cleans_up(
    trader_key: Seq<char>,
    id: Seq<char>,
    events: Option<Seq<Seq<u8>>>,
    indexed: bool,
    mapped: Option<Seq<u8>>,
)
    requires
        marker_free(trader_key),
    ensures
        ({
            let steps = delete_order_steps(id);
            let m = encode_utf8(id);
            &&& all_routed(trader_key, steps)
            &&& list_after(trader_key, steps, joined(ORDERS@, id), events) is None
            &&& !member_after(trader_key, steps, INDEX_ORDERS@, m, indexed)
            &&& !member_after(trader_key, steps, INDEX_ORDERS_OPEN@, m, indexed)
            &&& !member_after(trader_key, steps, INDEX_ORDERS_CLOSED@, m, indexed)
            &&& !member_after(trader_key, steps, INDEX_ORDERS_EMULATED@, m, indexed)
            &&& !member_after(trader_key, steps, INDEX_ORDERS_INFLIGHT@, m, indexed)
            &&& field_after(trader_key, steps, INDEX_ORDER_IDS@, m, mapped) is None
            &&& field_after(trader_key, steps, INDEX_ORDER_POSITION@, m, mapped) is None
            &&& field_after(trader_key, steps, INDEX_ORDER_CLIENT@, m, mapped) is None
        }),
{
    lemma_delete_order_writes(trader_key, id);
    reveal_with_fuel(replay_upto, 10);
}

/// The Redis writes that delete a position.
pub open spec fn delete_position_writes(trader_key: Seq<char>, id: Seq<char>) -> Seq<RedisOp> {
    let member = encode_utf8(id);
    seq![
        RedisOp::Del { key: joined(trader_key, joined(POSITIONS@, id)) },
        RedisOp::Srem { key: joined(trader_key, INDEX_POSITIONS@), member },
        RedisOp::Srem { key: joined(trader_key, INDEX_POSITIONS_OPEN@), member },
        RedisOp::Srem { key: joined(trader_key, INDEX_POSITIONS_CLOSED@), member },
    ]
}

/// After a position is deleted its events are gone, and it is in no index of positions, whatever
/// stood there before.
pub proof fn law_delete_position_cleans_up(
    trader_key: Seq<char>,
    id: Seq<char>,
    events: Option<Seq<Seq<u8>>>,
    indexed: bool,
)
    requires
        marker_free(trader_key),
    ensures
        ({
            let steps = delete_position_steps(id);
            let m = encode_utf8(id);
            &&& all_routed(trader_key, steps)
            &&& writes(trader_key, steps) == delete_position_writes(trader_key, id)
            &&& list_after(trader_key, steps, joined(POSITIONS@, id), events) is None
            &&& !member_after(trader_key, steps, INDEX_POSITIONS@, m, indexed)
            &&& !member_after(trader_key, steps, INDEX_POSITIONS_OPEN@, m, indexed)
            &&& !member_after(trader_key, steps, INDEX_POSITIONS_CLOSED@, m, indexed)
        }),
{
    let m = encode_utf8(id);
    let steps = delete_position_steps(id);
    lemma_list_collection_writes(trader_key, POSITIONS@, id, m);
    lemma_set_index_writes(trader_key, INDEX_POSITIONS@, m);
    lemma_set_index_writes(trader_key, INDEX_POSITIONS_OPEN@, m);
    lemma_set_index_writes(trader_key, INDEX_POSITIONS_CLOSED@, m);
    law_one_write_per_step(trader_key, steps);
    assert(writes(trader_key, steps) =~= delete_position_writes(trader_key, id));
    reveal_with_fuel(replay_upto, 5);
}

/// The Redis writes that persist a new position.
pub open spec fn add_position_writes(
    trader_key: Seq<char>,
    id: Seq<char>,
    event: Seq<u8>,
) -> Seq<RedisOp> {
    let key = joined(trader_key, joined(POSITIONS@, id));
    seq![
        RedisOp::Del { key },
        RedisOp::Rpush { key, value: event },
        RedisOp::Sadd { key: joined(trader_key, INDEX_POSITIONS@), member: encode_utf8(id) },
        RedisOp::Sadd { key: joined(trader_key, INDEX_POSITIONS_OPEN@), member: encode_utf8(id) },
    ]
}

/// After a position is added its list holds its initial fill alone, whatever events an earlier
/// position of the same ID left, and the position is indexed as a position and as open.
pub proof fn law_add_position_starts_afresh(
    trader_key: Seq<char>,
    id: Seq<char>,
    event: Seq<u8>,
    events: Option<Seq<Seq<u8>>>,
    indexed: bool,
)
    requires
        marker_free(trader_key),
    ensures
        ({
            let steps = add_position_steps(id, event);
            let m = encode_utf8(id);
            &&& all_routed(trader_key, steps)
            &&& writes(trader_key, steps) == add_position_writes(trader_key, id, event)
            &&& list_after(trader_key, steps, joined(POSITIONS@, id), events) == Some(seq![event])
            &&& member_after(trader_key, steps, INDEX_POSITIONS@, m, indexed)
            &&& member_after(trader_key, steps, INDEX_POSITIONS_OPEN@, m, indexed)
        }),
{
    let m = encode_utf8(id);
    let steps = add_position_steps(id, event);
    lemma_list_collection_writes(trader_key, POSITIONS@, id, event);
    lemma_set_index_writes(trader_key, INDEX_POSITIONS@, m);
    lemma_set_index_writes(trader_key, INDEX_POSITIONS_OPEN@, m);
    law_one_write_per_step(trader_key, steps);
    assert(writes(trader_key, steps) =~= add_position_writes(trader_key, id, event));
    reveal_with_fuel(replay_upto, 5);
}

/// The Redis writes that bring a position up to date.
pub open spec fn update_position_writes(
    trader_key: Seq<char>,
    position: Position,
    event: Seq<u8>,
) -> Seq<RedisOp> {
    let member = encode_utf8(position.id@);
    let open = joined(trader_key, INDEX_POSITIONS_OPEN@);
    let closed = joined(trader_key, INDEX_POSITIONS_CLOSED@);
    seq![
        RedisOp::Rpushx {
            key: joined(trader_key, joined(POSITIONS@, position.id@)),
            value: event,
        },
    ] + (if position.is_open {
        seq![
            RedisOp::Sadd { key: open, member },
            RedisOp::Srem { key: closed, member },
        ]
    } else if position.is_closed {
        seq![
            RedisOp::Sadd { key: closed, member },
            RedisOp::Srem { key: open, member },
        ]
    } else {
        Seq::empty()
    })
}

/// After a position is updated its fill is appended to its list, if there is one, and exactly one
/// of the open and closed indexes holds it, according to its state; a position that is neither
/// stays where it is.
pub proof fn law_update_position_open_xor_closed(
    trader_key: Seq<char>,
    position: Position,
    event: Seq<u8>,
    events: Option<Seq<Seq<u8>>>,
    open: bool,
    closed: bool,
)
    requires
        marker_free(trader_key),
    ensures
        ({
            let steps = update_position_steps(position, event);
            let m = encode_utf8(position.id@);
            let open_after = member_after(trader_key, steps, INDEX_POSITIONS_OPEN@, m, open);
            let closed_after = member_after(trader_key, steps, INDEX_POSITIONS_CLOSED@, m, closed);
            &&& all_routed(trader_key, steps)
            &&& writes(trader_key, steps) == update_position_writes(trader_key, position, event)
            &&& list_after(trader_key, steps, joined(POSITIONS@, position.id@), events) == (
            match events {
                Some(items) => Some(items.push(event)),
                None => None,
            })
            &&& position.is_open ==> open_after && !closed_after
            &&& !position.is_open && position.is_closed ==> closed_after && !open_after
            &&& !position.is_open && !position.is_closed ==> open_after == open && closed_after
                == closed
        }),
{
    let m = encode_utf8(position.id@);
    let steps = update_position_steps(position, event);
    lemma_list_collection_writes(trader_key, POSITIONS@, position.id@, event);
    lemma_set_index_writes(trader_key, INDEX_POSITIONS_OPEN@, m);
    lemma_set_index_writes(trader_key, INDEX_POSITIONS_CLOSED@, m);
    law_one_write_per_step(trader_key, steps);
    assert(writes(trader_key, steps) =~= update_position_writes(trader_key, position, event));
    lemma_index_names();
    lemma_joined_injective(trader_key, INDEX_POSITIONS_OPEN@, INDEX_POSITIONS_CLOSED@);
    reveal_with_fuel(replay_upto, 4);
}

/// The Redis writes that persist a new order.
pub open spec fn add_order_writes(
    trader_key: Seq<char>,
    order: Order,
    client_id: Option<Seq<char>>,
    event: Seq<u8>,
) -> Seq<RedisOp> {
    let id = order.client_order_id@;
    let member = encode_utf8(id);
    seq![
        RedisOp::Rpush { key: joined(trader_key, joined(ORDERS@, id)), value: event },
        RedisOp::Sadd { key: joined(trader_key, INDEX_ORDERS@), member },
    ] + (if order.is_emulated() {
        seq![RedisOp::Sadd { key: joined(trader_key, INDEX_ORDERS_EMULATED@), member }]
    } else {
        Seq::empty()
    }) + (match optional_text(order.position_id) {
        Some(position_id) => seq![
            RedisOp::Hset {
                key: joined(trader_key, INDEX_ORDER_POSITION@),
                field: member,
                value: encode_utf8(position_id),
            },
        ],
        None => Seq::empty(),
    }) + (match client_id {
        Some(client_id) => seq![
            RedisOp::Hset {
                key: joined(trader_key, INDEX_ORDER_CLIENT@),
                field: member,
                value: encode_utf8(client_id),
            },
        ],
        None => Seq::empty(),
    })
}

proof fn lemma_add_order_writes(
    trader_key: Seq<char>,
    order: Order,
    client_id: Option<Seq<char>>,
    event: Seq<u8>,
)
    requires
        marker_free(trader_key),
    ensures
        all_routed(trader_key, add_order_steps(order, client_id, event)),
        writes(trader_key, add_order_steps(order, client_id, event)) == add_order_writes(
            trader_key,
            order,
            client_id,
            event,
        ),
{
    let id = order.client_order_id@;
    let m = encode_utf8(id);
    let steps = add_order_steps(order, client_id, event);
    lemma_list_collection_writes(trader_key, ORDERS@, id, event);
    lemma_set_index_writes(trader_key, INDEX_ORDERS@, m);
    lemma_set_index_writes(trader_key, INDEX_ORDERS_EMULATED@, m);
    if let Some(position_id) = optional_text(order.position_id) {
        lemma_hash_index_writes(trader_key, INDEX_ORDER_POSITION@, m, encode_utf8(position_id));
    }
    if let Some(client_id) = client_id {
        lemma_hash_index_writes(trader_key, INDEX_ORDER_CLIENT@, m, encode_utf8(client_id));
    }
    law_one_write_per_step(trader_key, steps);
    assert(writes(trader_key, steps) =~= add_order_writes(trader_key, order, client_id, event));
}

/// After an order is added its event is the last of its list, the order is indexed, it is in the
/// emulated index if it is emulated, and its position and its client are mapped if they are given;
/// what the request does not speak of stays as it was.
pub proof fn law_add_order_indexes(
    trader_key: Seq<char>,
    order: Order,
    client_id: Option<Seq<char>>,
    event: Seq<u8>,
    events: Option<Seq<Seq<u8>>>,
    indexed: bool,
    mapped: Option<Seq<u8>>,
)
    requires
        marker_free(trader_key),
    ensures
        ({
            let steps = add_order_steps(order, client_id, event);
            let id = order.client_order_id@;
            let m = encode_utf8(id);
            &&& all_routed(trader_key, steps)
            &&& writes(trader_key, steps) == add_order_writes(trader_key, order, client_id, event)
            &&& list_after(trader_key, steps, joined(ORDERS@, id), events) == Some(
                match events {
                    Some(items) => items.push(event),
                    None => seq![event],
                },
            )
            &&& member_after(trader_key, steps, INDEX_ORDERS@, m, indexed)
            &&& member_after(trader_key, steps, INDEX_ORDERS_EMULATED@, m, indexed) == (indexed
                || order.is_emulated())
            &&& field_after(trader_key, steps, INDEX_ORDER_POSITION@, m, mapped) == (
            match optional_text(order.position_id) {
                Some(position_id) => Some(encode_utf8(position_id)),
                None => mapped,
            })
            &&& field_after(trader_key, steps, INDEX_ORDER_CLIENT@, m, mapped) == (match client_id {
                Some(client_id) => Some(encode_utf8(client_id)),
                None => mapped,
            })
        }),
{
    lemma_add_order_writes(trader_key, order, client_id, event);
    lemma_index_names();
    lemma_joined_injective(trader_key, INDEX_ORDERS@, INDEX_ORDERS_EMULATED@);
    lemma_joined_injective(trader_key, INDEX_ORDER_POSITION@, INDEX_ORDER_CLIENT@);
    reveal_with_fuel(replay_upto, 6);
}

/// The Redis write that keeps the index of orders in flight.
pub open spec fn inflight_writes(trader_key: Seq<char>, order: Order) -> Seq<RedisOp> {
    let member = encode_utf8(order.client_order_id@);
    let key = joined(trader_key, INDEX_ORDERS_INFLIGHT@);
    if order.is_inflight {
        seq![RedisOp::Sadd { key, member }]
    } else {
        seq![RedisOp::Srem { key, member }]
    }
}

/// The Redis writes that keep the indexes of open and closed orders.
pub open spec fn open_closed_writes(trader_key: Seq<char>, order: Order) -> Seq<RedisOp> {
    let member = encode_utf8(order.client_order_id@);
    let open = joined(trader_key, INDEX_ORDERS_OPEN@);
    let closed = joined(trader_key, INDEX_ORDERS_CLOSED@);
    if order.is_open {
        seq![RedisOp::Srem { key: closed, member }, RedisOp::Sadd { key: open, member }]
    } else if order.is_closed {
        seq![RedisOp::Srem { key: open, member }, RedisOp::Sadd { key: closed, member }]
    } else {
        Seq::empty()
    }
}

/// The Redis write that keeps the index of emulated orders.
pub open spec fn emulated_writes(trader_key: Seq<char>, order: Order) -> Seq<RedisOp> {
    let member = encode_utf8(order.client_order_id@);
    let key = joined(trader_key, INDEX_ORDERS_EMULATED@);
    if order.emulation_trigger is None {
        Seq::empty()
    } else if order.is_emulated() && !order.is_closed {
        seq![RedisOp::Sadd { key, member }]
    } else {
        seq![RedisOp::Srem { key, member }]
    }
}

/// The Redis writes that append an order's event and map its venue order ID.
pub open spec fn order_event_writes(
    trader_key: Seq<char>,
    order: Order,
    event: Seq<u8>,
) -> Seq<RedisOp> {
    let id = order.client_order_id@;
    seq![RedisOp::Rpushx { key: joined(trader_key, joined(ORDERS@, id)), value: event }] + (
    match optional_text(order.venue_order_id) {
        Some(venue_order_id) => seq![
            RedisOp::Hset {
                key: joined(trader_key, INDEX_ORDER_IDS@),
                field: encode_utf8(id),
                value: encode_utf8(venue_order_id),
            },
        ],
        None => Seq::empty(),
    })
}

/// The Redis writes that bring an order up to date.
pub open spec fn update_order_writes(
    trader_key: Seq<char>,
    order: Order,
    event: Seq<u8>,
) -> Seq<RedisOp> {
    order_event_writes(trader_key, order, event) + inflight_writes(trader_key, order)
        + open_closed_writes(trader_key, order) + emulated_writes(trader_key, order)
}

proof fn lemma_update_order_writes(trader_key: Seq<char>, order: Order, event: Seq<u8>)
    requires
        marker_free(trader_key),
    ensures
        all_routed(trader_key, update_order_steps(order, event)),
        writes(trader_key, update_order_steps(order, event)) == update_order_writes(
            trader_key,
            order,
            event,
        ),
{
    let id = order.client_order_id@;
    let m = encode_utf8(id);
    let steps = update_order_steps(order, event);
    lemma_list_collection_writes(trader_key, ORDERS@, id, event);
    lemma_set_index_writes(trader_key, INDEX_ORDERS_INFLIGHT@, m);
    lemma_set_index_writes(trader_key, INDEX_ORDERS_OPEN@, m);
    lemma_set_index_writes(trader_key, INDEX_ORDERS_CLOSED@, m);
    lemma_set_index_writes(trader_key, INDEX_ORDERS_EMULATED@, m);
    if let Some(venue_order_id) = optional_text(order.venue_order_id) {
        lemma_hash_index_writes(trader_key, INDEX_ORDER_IDS@, m, encode_utf8(venue_order_id));
    }
    law_one_write_per_step(trader_key, steps);
    assert(writes(trader_key, steps) =~= update_order_writes(trader_key, order, event));
}

proof fn lemma_update_order_replay<S>(
    trader_key: Seq<char>,
    order: Order,
    event: Seq<u8>,
    change: spec_fn(S, RedisOp) -> S,
    before: S,
)
    ensures
        replay(update_order_writes(trader_key, order, event), change, before) == replay(
            emulated_writes(trader_key, order),
            change,
            replay(
                open_closed_writes(trader_key, order),
                change,
                replay(
                    inflight_writes(trader_key, order),
                    change,
                    replay(order_event_writes(trader_key, order, event), change, before),
                ),
            ),
        ),
{
    let a = order_event_writes(trader_key, order, event);
    let b = inflight_writes(trader_key, order);
    let c = open_closed_writes(trader_key, order);
    let d = emulated_writes(trader_key, order);
    law_replay_composes(a + b + c, d, change, before);
    law_replay_composes(a + b, c, change, before);
    law_replay_composes(a, b, change, before);
}

/// After an order is updated exactly one of the open and closed indexes holds it, according to its
/// state; an order that is neither stays where it is.
pub proof fn law_update_order_open_xor_closed(
    trader_key: Seq<char>,
    order: Order,
    event: Seq<u8>,
    open: bool,
    closed: bool,
)
    requires
        marker_free(trader_key),
    ensures
        ({
            let steps = update_order_steps(order, event);
            let m = encode_utf8(order.client_order_id@);
            let open_after = member_after(trader_key, steps, INDEX_ORDERS_OPEN@, m, open);
            let closed_after = member_after(trader_key, steps, INDEX_ORDERS_CLOSED@, m, closed);
            &&& order.is_open ==> open_after && !closed_after
            &&& !order.is_open && order.is_closed ==> closed_after && !open_after
            &&& !order.is_open && !order.is_closed ==> open_after == open && closed_after == closed
        }),
{
    let m = encode_utf8(order.client_order_id@);
    lemma_update_order_writes(trader_key, order, event);
    lemma_index_names();
    lemma_joined_injective(trader_key, INDEX_ORDERS_OPEN@, INDEX_ORDERS_CLOSED@);
    lemma_joined_injective(trader_key, INDEX_ORDERS_OPEN@, INDEX_ORDERS_EMULATED@);
    lemma_joined_injective(trader_key, INDEX_ORDERS_OPEN@, INDEX_ORDERS_INFLIGHT@);
    lemma_joined_injective(trader_key, INDEX_ORDERS_CLOSED@, INDEX_ORDERS_EMULATED@);
    lemma_joined_injective(trader_key, INDEX_ORDERS_CLOSED@, INDEX_ORDERS_INFLIGHT@);
    lemma_update_order_replay(
        trader_key,
        order,
        event,
        member_change(joined(trader_key, INDEX_ORDERS_OPEN@), m),
        open,
    );
    lemma_update_order_replay(
        trader_key,
        order,
        event,
        member_change(joined(trader_key, INDEX_ORDERS_CLOSED@), m),
        closed,
    );
    reveal_with_fuel(replay_upto, 3);
}

/// After an order is updated the inflight index holds it exactly if it is in flight, and the
/// emulated index holds it exactly if it is emulated and not closed; where no trigger is set the
/// emulated index stays as it was.
pub proof fn law_update_order_state_indexes(
    trader_key: Seq<char>,
    order: Order,
    event: Seq<u8>,
    inflight: bool,
    emulated: bool,
)
    requires
        marker_free(trader_key),
    ensures
        ({
            let steps = update_order_steps(order, event);
            let m = encode_utf8(order.client_order_id@);
            &&& member_after(trader_key, steps, INDEX_ORDERS_INFLIGHT@, m, inflight)
                == order.is_inflight
            &&& member_after(trader_key, steps, INDEX_ORDERS_EMULATED@, m, emulated) == (
            if order.emulation_trigger is None {
                emulated
            } else {
                order.is_emulated() && !order.is_closed
            })
        }),
{
    let m = encode_utf8(order.client_order_id@);
    lemma_update_order_writes(trader_key, order, event);
    lemma_index_names();
    lemma_joined_injective(trader_key, INDEX_ORDERS_OPEN@, INDEX_ORDERS_EMULATED@);
    lemma_joined_injective(trader_key, INDEX_ORDERS_OPEN@, INDEX_ORDERS_INFLIGHT@);
    lemma_joined_injective(trader_key, INDEX_ORDERS_CLOSED@, INDEX_ORDERS_EMULATED@);
    lemma_joined_injective(trader_key, INDEX_ORDERS_CLOSED@, INDEX_ORDERS_INFLIGHT@);
    lemma_joined_injective(trader_key, INDEX_ORDERS_EMULATED@, INDEX_ORDERS_INFLIGHT@);
    lemma_update_order_replay(
        trader_key,
        order,
        event,
        member_change(joined(trader_key, INDEX_ORDERS_INFLIGHT@), m),
        inflight,
    );
    lemma_update_order_replay(
        trader_key,
        order,
        event,
        member_change(joined(trader_key, INDEX_ORDERS_EMULATED@), m),
        emulated,
    );
    reveal_with_fuel(replay_upto, 3);
}

/// After an order is updated its event is appended to its list, if there is one: an update never
/// creates an order. The venue order ID is mapped if it is assigned.
pub proof fn law_update_order_appends(
    trader_key: Seq<char>,
    order: Order,
    event: Seq<u8>,
    events: Option<Seq<Seq<u8>>>,
    mapped: Option<Seq<u8>>,
)
    requires
        marker_free(trader_key),
    ensures
        ({
            let steps = update_order_steps(order, event);
            let id = order.client_order_id@;
            &&& all_routed(trader_key, steps)
            &&& writes(trader_key, steps) == update_order_writes(trader_key, order, event)
            &&& list_after(trader_key, steps, joined(ORDERS@, id), events) == (match events {
                Some(items) => Some(items.push(event)),
                None => None,
            })
            &&& field_after(trader_key, steps, INDEX_ORDER_IDS@, encode_utf8(id), mapped) == (
            match optional_text(order.venue_order_id) {
                Some(venue_order_id) => Some(encode_utf8(venue_order_id)),
                None => mapped,
            })
        }),
{
    let id = order.client_order_id@;
    lemma_update_order_writes(trader_key, order, event);
    lemma_update_order_replay(
        trader_key,
        order,
        event,
        list_change(joined(trader_key, joined(ORDERS@, id))),
        events,
    );
    lemma_update_order_replay(
        trader_key,
        order,
        event,
        field_change(joined(trader_key, INDEX_ORDER_IDS@), encode_utf8(id)),
        mapped,
    );
    reveal_with_fuel(replay_upto, 3);
}

proof fn lemma_add_order_leaves_open_and_closed(
    trader_key: Seq<char>,
    order: Order,
    client_id: Option<Seq<char>>,
    event: Seq<u8>,
    index: Seq<char>,
    indexed: bool,
)
    requires
        index == INDEX_ORDERS_OPEN@ || index == INDEX_ORDERS_CLOSED@,
    ensures
        member_after(
            trader_key,
            add_order_steps(order, client_id, event),
            index,
            encode_utf8(order.client_order_id@),
            indexed,
        ) == indexed,
{
    let steps = add_order_steps(order, client_id, event);
    let m = encode_utf8(order.client_order_id@);
    lemma_index_names();
    reveal_strlit("orders");
    reveal_strlit("index:orders_open");
    reveal_strlit("index:orders_closed");
    let key = joined(ORDERS@, order.client_order_id@);
    assert(key[0] == 'o' && index[0] == 'i');
    assert(!is_hash_index(index));
    law_other_keys_unchanged(trader_key, steps, index, m, indexed, None, None, None);
}

/// An order that is not in both the open and the closed index is not in both after it is added,
/// updated or deleted.
pub proof fn law_open_and_closed_orders_stay_apart(
    trader_key: Seq<char>,
    order: Order,
    client_id: Option<Seq<char>>,
    event: Seq<u8>,
    open: bool,
    closed: bool,
)
    requires
        marker_free(trader_key),
        !(open && closed),
    ensures
        ({
            let m = encode_utf8(order.client_order_id@);
            let in_both = |steps: Seq<PlannedView>|
                member_after(trader_key, steps, INDEX_ORDERS_OPEN@, m, open) && member_after(
                    trader_key,
                    steps,
                    INDEX_ORDERS_CLOSED@,
                    m,
                    closed,
                );
            &&& !in_both(add_order_steps(order, client_id, event))
            &&& !in_both(update_order_steps(order, event))
            &&& !in_both(delete_order_steps(order.client_order_id@))
        }),
{
    lemma_add_order_leaves_open_and_closed(
        trader_key,
        order,
        client_id,
        event,
        INDEX_ORDERS_OPEN@,
        open,
    );
    lemma_add_order_leaves_open_and_closed(
        trader_key,
        order,
        client_id,
        event,
        INDEX_ORDERS_CLOSED@,
        closed,
    );
    law_update_order_open_xor_closed(trader_key, order, event, open, closed);
    law_delete_order_cleans_up(trader_key, order.client_order_id@, None, open, None);
}

/// A position that is not in both the open and the closed index is not in both after it is updated
/// or deleted, nor after it is added, if it was not in the closed index.
pub proof fn law_open_and_closed_positions_stay_apart(
    trader_key: Seq<char>,
    position: Position,
    event: Seq<u8>,
    open: bool,
    closed: bool,
)
    requires
        marker_free(trader_key),
        !(open && closed),
    ensures
        ({
            let m = encode_utf8(position.id@);
            let in_both = |steps: Seq<PlannedView>|
                member_after(trader_key, steps, INDEX_POSITIONS_OPEN@, m, open) && member_after(
                    trader_key,
                    steps,
                    INDEX_POSITIONS_CLOSED@,
                    m,
                    closed,
                );
            &&& !closed ==> !in_both(add_position_steps(position.id@, event))
            &&& !in_both(update_position_steps(position, event))
            &&& !in_both(delete_position_steps(position.id@))
        }),
{
    let m = encode_utf8(position.id@);
    law_update_position_open_xor_closed(trader_key, position, event, None, open, closed);
    law_delete_position_cleans_up(trader_key, position.id@, None, open);
    let steps = add_position_steps(position.id@, event);
    lemma_index_names();
    reveal_strlit("positions");
    reveal_strlit("index:positions_closed");
    let key = joined(POSITIONS@, position.id@);
    assert(key[0] == 'p' && INDEX_POSITIONS_CLOSED@[0] == 'i');
    law_other_keys_unchanged(
        trader_key,
        steps,
        INDEX_POSITIONS_CLOSED@,
        m,
        closed,
        None,
        None,
        None,
    );
}

/// Whether a write is not about `item`, if it is for `key`.
pub open spec fn op_spares(op: RedisOp, key: Seq<char>, item: Seq<u8>) -> bool {
    op_key(op) == key ==> match op {
        RedisOp::Sadd { member, .. } => member != item,
        RedisOp::Srem { member, .. } => member != item,
        RedisOp::Hset { field, .. } => field != item,
        RedisOp::Hdel { field, .. } => field != item,
        _ => false,
    }
}

/// Whether the commands of a plan that are for the index say of which item they are, and are not of
/// `item`.
pub open spec fn steps_spare(steps: Seq<PlannedView>, index: Seq<char>, item: Seq<u8>) -> bool {
    forall|i: int|
        #![trigger steps[i]]
        0 <= i < steps.len() && steps[i].command.key == Some(index) ==> {
            &&& steps[i].command.payload is Some
            &&& steps[i].command.payload->0.len() > 0
            &&& steps[i].command.payload->0[0] != item
        }
}

proof fn lemma_index_collection(index: Seq<char>)
    requires
        is_set_index(index) || is_hash_index(index),
    ensures
        collection_of(index) == Some(INDEX@),
        forall|c: Seq<char>, id: Seq<char>|
            is_string_collection(c) || is_list_collection(c) ==> #[trigger] joined(c, id) != index,
{
    lemma_index_names();
    lemma_collection_names();
    reveal_strlit("index:");
    reveal_strlit("index");
    assert(!INDEX@.contains(':'));
    assert(index =~= joined(INDEX@, index.skip(6)));
    law_collection_of_joined_key(INDEX@, index.skip(6));
    assert forall|c: Seq<char>, id: Seq<char>|
        is_string_collection(c) || is_list_collection(c) implies #[trigger] joined(c, id) != index by {
        law_collection_of_joined_key(c, id);
    }
}

proof fn lemma_writes_spare(
    trader_key: Seq<char>,
    steps: Seq<PlannedView>,
    index: Seq<char>,
    item: Seq<u8>,
)
    requires
        is_set_index(index) || is_hash_index(index),
        steps_spare(steps, index, item),
    ensures
        forall|i: int|
            0 <= i < writes(trader_key, steps).len() ==> op_spares(
                #[trigger] writes(trader_key, steps)[i],
                joined(trader_key, index),
                item,
            ),
    decreases steps.len(),
{
    if steps.len() > 0 {
        let before = steps.drop_last();
        assert(forall|i: int| #![trigger before[i]] 0 <= i < before.len() ==> before[i] == steps[i]);
        lemma_writes_spare(trader_key, before, index, item);
        assert(step_commands(steps).drop_last() =~= step_commands(before));
        let last = steps[steps.len() - 1].command;
        assert(step_commands(steps).last() == last);
        lemma_index_collection(index);
        lemma_collection_names();
        if let Ok(op) = route(trader_key, last) {
            lemma_joined_injective(trader_key, last.key->0, index);
            assert(op_key(op) == joined(trader_key, last.key->0));
            assert(op_spares(op, joined(trader_key, index), item));
        }
        let all = writes(trader_key, steps);
        let earlier = writes(trader_key, before);
        assert forall|i: int| 0 <= i < all.len() implies op_spares(
            #[trigger] all[i],
            joined(trader_key, index),
            item,
        ) by {
            if i < earlier.len() {
                assert(all[i] == earlier[i]);
            }
        }
    }
}

/// The writes of a plan change nothing of an item of an index that none of its commands is about,
/// though they are for the same index.
pub proof fn law_other_items_unchanged(
    trader_key: Seq<char>,
    steps: Seq<PlannedView>,
    index: Seq<char>,
    item: Seq<u8>,
    is_member: bool,
    mapped: Option<Seq<u8>>,
)
    requires
        is_set_index(index) || is_hash_index(index),
        steps_spare(steps, index, item),
    ensures
        member_after(trader_key, steps, index, item, is_member) == is_member,
        field_after(trader_key, steps, index, item, mapped) == mapped,
{
    lemma_writes_spare(trader_key, steps, index, item);
    let ops = writes(trader_key, steps);
    let n = ops.len() as int;
    let key = joined(trader_key, index);
    lemma_replay_unchanged(ops, n, member_change(key, item), is_member);
    lemma_replay_unchanged(ops, n, field_change(key, item), mapped);
}

proof fn lemma_encoded_apart(a: Seq<char>, b: Seq<char>)
    requires
        a != b,
    ensures
        encode_utf8(a) != encode_utf8(b),
{
    encode_utf8_decode_utf8(a);
    encode_utf8_decode_utf8(b);
}

/// Whether the writes of a plan leave an order or a position as it was: its events, which stand in
/// `collection`, and what any index says of it.
pub open spec fn leaves(
    trader_key: Seq<char>,
    steps: Seq<PlannedView>,
    collection: Seq<char>,
    id: Seq<char>,
) -> bool {
    &&& forall|events: Option<Seq<Seq<u8>>>| #[trigger]
        list_after(trader_key, steps, joined(collection, id), events) == events
    &&& forall|index: Seq<char>, indexed: bool|
        is_set_index(index) ==> #[trigger] member_after(
            trader_key,
            steps,
            index,
            encode_utf8(id),
            indexed,
        ) == indexed
    &&& forall|index: Seq<char>, mapped: Option<Seq<u8>>|
        is_hash_index(index) ==> #[trigger] field_after(
            trader_key,
            steps,
            index,
            encode_utf8(id),
            mapped,
        ) == mapped
}

/// Whether every step is for the events of `id`, or is about `id` in some index.
pub open spec fn steps_about(
    steps: Seq<PlannedView>,
    collection: Seq<char>,
    id: Seq<char>,
) -> bool {
    forall|i: int|
        #![trigger steps[i]]
        0 <= i < steps.len() ==> {
            let command = steps[i].command;
            ||| command.key == Some(joined(collection, id))
            ||| {
                &&& command.key is Some
                &&& is_set_index(command.key->0) || is_hash_index(command.key->0)
                &&& command.payload is Some
                &&& command.payload->0.len() > 0
                &&& command.payload->0[0] == encode_utf8(id)
            }
        }
}

proof fn lemma_leaves_others(
    trader_key: Seq<char>,
    steps: Seq<PlannedView>,
    collection: Seq<char>,
    id: Seq<char>,
    other: Seq<char>,
)
    requires
        is_list_collection(collection),
        steps_about(steps, collection, id),
        other != id,
    ensures
        leaves(trader_key, steps, collection, other),
{
    let item = encode_utf8(other);
    lemma_encoded_apart(other, id);
    lemma_joined_injective(collection, id, other);
    let key = joined(collection, other);
    assert forall|i: int| 0 <= i < steps.len() implies (
    #[trigger] steps[i]).command.key != Some(key) by {
        let command = steps[i].command;
        if command.key != Some(joined(collection, id)) {
            lemma_index_collection(command.key->0);
        }
    }
    assert forall|events: Option<Seq<Seq<u8>>>| #[trigger]
        list_after(trader_key, steps, key, events) == events by {
        law_other_keys_unchanged(trader_key, steps, key, item, false, None, events, None);
    }
    assert forall|index: Seq<char>| is_set_index(index) || is_hash_index(index) implies
        #[trigger] steps_spare(steps, index, item) by {
        lemma_index_collection(index);
    }
    assert forall|index: Seq<char>, indexed: bool| is_set_index(index) implies
        #[trigger] member_after(trader_key, steps, index, item, indexed) == indexed by {
        assert(steps_spare(steps, index, item));
        law_other_items_unchanged(trader_key, steps, index, item, indexed, None);
    }
    assert forall|index: Seq<char>, mapped: Option<Seq<u8>>| is_hash_index(index) implies
        #[trigger] field_after(trader_key, steps, index, item, mapped) == mapped by {
        assert(steps_spare(steps, index, item));
        law_other_items_unchanged(trader_key, steps, index, item, false, mapped);
    }
}

/// Updating an order leaves every other order as it was: its events, and what every index says of
/// it.
pub proof fn law_update_order_leaves_others(
    trader_key: Seq<char>,
    order: Order,
    event: Seq<u8>,
    other: Seq<char>,
)
    requires
        other != order.client_order_id@,
    ensures
        leaves(trader_key, update_order_steps(order, event), ORDERS@, other),
{
    let steps = update_order_steps(order, event);
    assert(steps_about(steps, ORDERS@, order.client_order_id@));
    lemma_leaves_others(trader_key, steps, ORDERS@, order.client_order_id@, other);
}

/// Adding an order leaves every other order as it was: its events, and what every index says of it.
pub proof fn law_add_order_leaves_others(
    trader_key: Seq<char>,
    order: Order,
    client_id: Option<Seq<char>>,
    event: Seq<u8>,
    other: Seq<char>,
)
    requires
        other != order.client_order_id@,
    ensures
        leaves(trader_key, add_order_steps(order, client_id, event), ORDERS@, other),
{
    let steps = add_order_steps(order, client_id, event);
    assert(steps_about(steps, ORDERS@, order.client_order_id@));
    lemma_leaves_others(trader_key, steps, ORDERS@, order.client_order_id@, other);
}

/// Deleting an order leaves every other order as it was: its events, and what every index says of
/// it.
pub proof fn law_delete_order_leaves_others(
    trader_key: Seq<char>,
    id: Seq<char>,
    other: Seq<char>,
)
    requires
        other != id,
    ensures
        leaves(trader_key, delete_order_steps(id), ORDERS@, other),
{
    let steps = delete_order_steps(id);
    assert(steps_about(steps, ORDERS@, id));
    lemma_leaves_others(trader_key, steps, ORDERS@, id, other);
}

/// Adding a position leaves every other position as it was: its events, and what every index says
/// of it.
pub proof fn law_add_position_leaves_others(
    trader_key: Seq<char>,
    id: Seq<char>,
    event: Seq<u8>,
    other: Seq<char>,
)
    requires
        other != id,
    ensures
        leaves(trader_key, add_position_steps(id, event), POSITIONS@, other),
{
    let steps = add_position_steps(id, event);
    assert(steps_about(steps, POSITIONS@, id));
    lemma_leaves_others(trader_key, steps, POSITIONS@, id, other);
}

/// Updating a position leaves every other position as it was: its events, and what every index says
/// of it.
pub proof fn law_update_position_leaves_others(
    trader_key: Seq<char>,
    position: Position,
    event: Seq<u8>,
    other: Seq<char>,
)
    requires
        other != position.id@,
    ensures
        leaves(trader_key, update_position_steps(position, event), POSITIONS@, other),
{
    let steps = update_position_steps(position, event);
    assert(steps_about(steps, POSITIONS@, position.id@));
    lemma_leaves_others(trader_key, steps, POSITIONS@, position.id@, other);
}

/// Deleting a position leaves every other position as it was: its events, and what every index says
/// of it.
pub proof fn law_delete_position_leaves_others(
    trader_key: Seq<char>,
    id: Seq<char>,
    other: Seq<char>,
)
    requires
        other != id,
    ensures
        leaves(trader_key, delete_position_steps(id), POSITIONS@, other),
{
    let steps = delete_position_steps(id);
    assert(steps_about(steps, POSITIONS@, id));
    lemma_leaves_others(trader_key, steps, POSITIONS@, id, other);
}

/// Updating an order that is neither open nor closed sends no command for the open index and none
/// for the closed one.
pub proof fn law_update_order_names_neither_index(order: Order, event: Seq<u8>, i: int)
    requires
        !order.is_open,
        !order.is_closed,
        0 <= i < update_order_steps(order, event).len(),
    ensures
        update_order_steps(order, event)[i].command.key != Some(INDEX_ORDERS_OPEN@),
        update_order_steps(order, event)[i].command.key != Some(INDEX_ORDERS_CLOSED@),
{
    lemma_index_names();
    lemma_index_collection(INDEX_ORDERS_OPEN@);
    lemma_index_collection(INDEX_ORDERS_CLOSED@);
    let key = joined(ORDERS@, order.client_order_id@);
    assert(key != INDEX_ORDERS_OPEN@ && key != INDEX_ORDERS_CLOSED@);
    assert(!is_hash_index(INDEX_ORDERS_OPEN@) && !is_hash_index(INDEX_ORDERS_CLOSED@));
}

/// Whether the writes of a plan change nothing at a key, be it a set, a hash, a list or a string.
pub open spec fn untouched(trader_key: Seq<char>, steps: Seq<PlannedView>, key: Seq<char>) -> bool {
    &&& forall|item: Seq<u8>, has: bool| #[trigger]
        member_after(trader_key, steps, key, item, has) == has
    &&& forall|item: Seq<u8>, mapped: Option<Seq<u8>>| #[trigger]
        field_after(trader_key, steps, key, item, mapped) == mapped
    &&& forall|items: Option<Seq<Seq<u8>>>| #[trigger]
        list_after(trader_key, steps, key, items) == items
    &&& forall|value: Option<Seq<u8>>| #[trigger]
        string_after(trader_key, steps, key, value) == value
}

proof fn lemma_untouched(trader_key: Seq<char>, steps: Seq<PlannedView>, key: Seq<char>)
    requires
        forall|i: int| 0 <= i < steps.len() ==> (#[trigger] steps[i]).command.key != Some(key),
    ensures
        untouched(trader_key, steps, key),
{
    assert forall|item: Seq<u8>, has: bool| #[trigger]
        member_after(trader_key, steps, key, item, has) == has by {
        law_other_keys_unchanged(trader_key, steps, key, item, has, None, None, None);
    }
    assert forall|item: Seq<u8>, mapped: Option<Seq<u8>>| #[trigger]
        field_after(trader_key, steps, key, item, mapped) == mapped by {
        law_other_keys_unchanged(trader_key, steps, key, item, false, mapped, None, None);
    }
    assert forall|items: Option<Seq<Seq<u8>>>| #[trigger]
        list_after(trader_key, steps, key, items) == items by {
        law_other_keys_unchanged(trader_key, steps, key, Seq::empty(), false, None, items, None);
    }
    assert forall|value: Option<Seq<u8>>| #[trigger]
        string_after(trader_key, steps, key, value) == value by {
        law_other_keys_unchanged(trader_key, steps, key, Seq::empty(), false, None, None, value);
    }
}

/// Updating an order touches its events and the index of orders in flight, and besides these only
/// the venue ID index if a venue ID is assigned, the open and closed indexes if it is open or
/// closed, and the emulated index if a trigger is set.
pub proof fn law_update_order_touches_only(
    trader_key: Seq<char>,
    order: Order,
    event: Seq<u8>,
    key: Seq<char>,
)
    requires
        key != joined(ORDERS@, order.client_order_id@),
        key != INDEX_ORDERS_INFLIGHT@,
        order.venue_order_id is None || key != INDEX_ORDER_IDS@,
        !order.is_open && !order.is_closed || key != INDEX_ORDERS_OPEN@ && key
            != INDEX_ORDERS_CLOSED@,
        order.emulation_trigger is None || key != INDEX_ORDERS_EMULATED@,
    ensures
        untouched(trader_key, update_order_steps(order, event), key),
{
    lemma_untouched(trader_key, update_order_steps(order, event), key);
}

/// Updating an order leaves it in the index of all orders and keeps its mappings to its position and
/// its client.
pub proof fn law_update_order_keeps_registration(
    trader_key: Seq<char>,
    order: Order,
    event: Seq<u8>,
    indexed: bool,
    mapped: Option<Seq<u8>>,
)
    ensures
        ({
            let steps = update_order_steps(order, event);
            let m = encode_utf8(order.client_order_id@);
            &&& member_after(trader_key, steps, INDEX_ORDERS@, m, indexed) == indexed
            &&& field_after(trader_key, steps, INDEX_ORDER_POSITION@, m, mapped) == mapped
            &&& field_after(trader_key, steps, INDEX_ORDER_CLIENT@, m, mapped) == mapped
        }),
{
    lemma_index_names();
    lemma_index_collection(INDEX_ORDERS@);
    lemma_index_collection(INDEX_ORDER_POSITION@);
    lemma_index_collection(INDEX_ORDER_CLIENT@);
    let key = joined(ORDERS@, order.client_order_id@);
    assert(key != INDEX_ORDERS@ && key != INDEX_ORDER_POSITION@ && key != INDEX_ORDER_CLIENT@);
    assert(is_set_index(INDEX_ORDERS@) && is_set_index(INDEX_ORDERS_INFLIGHT@) && is_set_index(
        INDEX_ORDERS_OPEN@,
    ) && is_set_index(INDEX_ORDERS_CLOSED@) && is_set_index(INDEX_ORDERS_EMULATED@));
    assert(is_hash_index(INDEX_ORDER_IDS@) && is_hash_index(INDEX_ORDER_POSITION@) && is_hash_index(
        INDEX_ORDER_CLIENT@,
    ));
    law_update_order_touches_only(trader_key, order, event, INDEX_ORDERS@);
    law_update_order_touches_only(trader_key, order, event, INDEX_ORDER_POSITION@);
    law_update_order_touches_only(trader_key, order, event, INDEX_ORDER_CLIENT@);
}

/// Adding an order touches its events and the index of all orders, and besides these only the
/// emulated index if it is emulated, and the mappings that are given.
pub proof fn law_add_order_touches_only(
    trader_key: Seq<char>,
    order: Order,
    client_id: Option<Seq<char>>,
    event: Seq<u8>,
    key: Seq<char>,
)
    requires
        key != joined(ORDERS@, order.client_order_id@),
        key != INDEX_ORDERS@,
        order.emulation_trigger is None || order.emulation_trigger->0 is NoTrigger || key
            != INDEX_ORDERS_EMULATED@,
        order.position_id is None || key != INDEX_ORDER_POSITION@,
        client_id is None || key != INDEX_ORDER_CLIENT@,
    ensures
        untouched(trader_key, add_order_steps(order, client_id, event), key),
{
    lemma_untouched(trader_key, add_order_steps(order, client_id, event), key);
}

/// Deleting an order touches its events and the indexes of orders only.
pub proof fn law_delete_order_touches_only(trader_key: Seq<char>, id: Seq<char>, key: Seq<char>)
    requires
        key != joined(ORDERS@, id),
        key != INDEX_ORDERS@,
        key != INDEX_ORDERS_OPEN@,
        key != INDEX_ORDERS_CLOSED@,
        key != INDEX_ORDERS_EMULATED@,
        key != INDEX_ORDERS_INFLIGHT@,
        key != INDEX_ORDER_IDS@,
        key != INDEX_ORDER_POSITION@,
        key != INDEX_ORDER_CLIENT@,
    ensures
        untouched(trader_key, delete_order_steps(id), key),
{
    lemma_untouched(trader_key, delete_order_steps(id), key);
}

/// Adding a position touches its events, the index of all positions and the open index only.
pub proof fn law_add_position_touches_only(
    trader_key: Seq<char>,
    id: Seq<char>,
    event: Seq<u8>,
    key: Seq<char>,
)
    requires
        key != joined(POSITIONS@, id),
        key != INDEX_POSITIONS@,
        key != INDEX_POSITIONS_OPEN@,
    ensures
        untouched(trader_key, add_position_steps(id, event), key),
{
    lemma_untouched(trader_key, add_position_steps(id, event), key);
}

/// Updating a position touches its events and, if it is open or closed, the open and closed indexes
/// only.
pub proof fn law_update_position_touches_only(
    trader_key: Seq<char>,
    position: Position,
    event: Seq<u8>,
    key: Seq<char>,
)
    requires
        key != joined(POSITIONS@, position.id@),
        !position.is_open && !position.is_closed || key != INDEX_POSITIONS_OPEN@ && key
            != INDEX_POSITIONS_CLOSED@,
    ensures
        untouched(trader_key, update_position_steps(position, event), key),
{
    lemma_untouched(trader_key, update_position_steps(position, event), key);
}

/// Deleting a position touches its events and the indexes of positions only.
pub proof fn law_delete_position_touches_only(trader_key: Seq<char>, id: Seq<char>, key: Seq<char>)
    requires
        key != joined(POSITIONS@, id),
        key != INDEX_POSITIONS@,
        key != INDEX_POSITIONS_OPEN@,
        key != INDEX_POSITIONS_CLOSED@,
    ensures
        untouched(trader_key, delete_position_steps(id), key),
{
    lemma_untouched(trader_key, delete_position_steps(id), key);
}

/// Storing a value touches its own key only.
pub proof fn law_store_touches_only(
    trader_key: Seq<char>,
    collection: Seq<char>,
    id: Seq<char>,
    value: Seq<u8>,
    failure: Seq<char>,
    key: Seq<char>,
)
    requires
        key != joined(collection, id),
    ensures
        untouched(trader_key, store_steps(collection, id, value, failure), key),
        store_steps(collection, id, value, failure).len() == 1,
        store_steps(collection, id, value, failure)[0].failure == failure,
{
    lemma_untouched(trader_key, store_steps(collection, id, value, failure), key);
}

/// A plan that persists an encoded value, be it empty, stores it and succeeds; where encoding failed
/// it sends nothing and fails with the cause.
pub proof fn law_stored_or_failed(
    trader_key: Seq<char>,
    plan: WritePlan,
    collection: Seq<char>,
    id: Seq<char>,
    payload: Result<Vec<u8>, String>,
    failure: Seq<char>,
    string: Option<Seq<u8>>,
    list: Option<Seq<Seq<u8>>>,
)
    requires
        stores(plan, collection, id, payload, failure),
    ensures
        payload is Ok <==> plan.outcome is Ok,
        payload is Ok ==> plan.writes@.len() == 1,
        payload is Ok && is_string_collection(collection) ==> string_after(
            trader_key,
            plan.steps(),
            joined(collection, id),
            string,
        ) == Some(payload->Ok_0@),
        payload is Ok && is_list_collection(collection) ==> list_after(
            trader_key,
            plan.steps(),
            joined(collection, id),
            list,
        ) == Some((if list is Some { list->0 } else { Seq::empty() }).push(payload->Ok_0@)),
        payload is Err ==> plan.writes@.len() == 0 && plan.outcome->Err_0@
            == (CacheFault::Serialization { cause: payload->Err_0@ }),
{
    assert(plan.steps().len() == plan.writes@.len());
    if payload is Ok {
        let value = payload->Ok_0@;
        if is_string_collection(collection) {
            law_store_string(trader_key, collection, id, value, failure, string);
        }
        if is_list_collection(collection) {
            law_store_list(trader_key, collection, id, value, failure, list);
            assert(seq![value] =~= Seq::<Seq<u8>>::empty().push(value));
        }
    }
}

/// Indexing a venue order ID, or the position of an order, maps the client order ID to it, and
/// touches nothing else.
pub proof fn law_mapping_an_order(
    trader_key: Seq<char>,
    id: Seq<char>,
    target: Seq<char>,
    mapped: Option<Seq<u8>>,
    key: Seq<char>,
)
    requires
        marker_free(trader_key),
    ensures
        ({
            let venue = seq![venue_order_id_step(id, target)];
            let position = seq![order_position_step(id, target)];
            &&& field_after(trader_key, venue, INDEX_ORDER_IDS@, encode_utf8(id), mapped) == Some(
                encode_utf8(target),
            )
            &&& field_after(
                trader_key,
                position,
                INDEX_ORDER_POSITION@,
                encode_utf8(id),
                mapped,
            ) == Some(encode_utf8(target))
            &&& key != INDEX_ORDER_IDS@ ==> untouched(trader_key, venue, key)
            &&& key != INDEX_ORDER_POSITION@ ==> untouched(trader_key, position, key)
        }),
{
    let venue = seq![venue_order_id_step(id, target)];
    let position = seq![order_position_step(id, target)];
    let m = encode_utf8(id);
    lemma_hash_index_writes(trader_key, INDEX_ORDER_IDS@, m, encode_utf8(target));
    lemma_hash_index_writes(trader_key, INDEX_ORDER_POSITION@, m, encode_utf8(target));
    law_one_write_per_step(trader_key, venue);
    law_one_write_per_step(trader_key, position);
    reveal_with_fuel(replay_upto, 2);
    if key != INDEX_ORDER_IDS@ {
        lemma_untouched(trader_key, venue, key);
    }
    if key != INDEX_ORDER_POSITION@ {
        lemma_untouched(trader_key, position, key);
    }
}

/// The count of a condition.
pub open spec fn one_if(condition: bool) -> int {
    if condition {
        1
    } else {
        0
    }
}

/// A request on an order or a position sends one command for each thing that it changes, its events
/// first.
pub proof fn law_one_command_per_change(
    order: Order,
    position: Position,
    client_id: Option<Seq<char>>,
    event: Seq<u8>,
    id: Seq<char>,
)
    ensures
        ({
            let added = add_order_steps(order, client_id, event);
            let updated = update_order_steps(order, event);
            let moved = update_position_steps(position, event);
            let emulated = order.emulation_trigger is Some && !(
            order.emulation_trigger->0 is NoTrigger);
            &&& added.len() == 2 + one_if(emulated) + one_if(order.position_id is Some) + one_if(
                client_id is Some,
            )
            &&& added[0].command.key == Some(joined(ORDERS@, order.client_order_id@))
            &&& updated.len() == 2 + one_if(order.venue_order_id is Some) + 2 * one_if(
                order.is_open || order.is_closed,
            ) + one_if(order.emulation_trigger is Some)
            &&& updated[0].command.key == Some(joined(ORDERS@, order.client_order_id@))
            &&& moved.len() == 1 + 2 * one_if(position.is_open || position.is_closed)
            &&& moved[0].command.key == Some(joined(POSITIONS@, position.id@))
            &&& add_position_steps(id, event).len() == 4
            &&& delete_order_steps(id).len() == 9
            &&& delete_position_steps(id).len() == 4
        }),
{
}

/// The key of an order's events is the key of no index, and the indexes of orders differ.
proof fn lemma_order_keys_apart(id: Seq<char>)
    ensures
        !is_set_index(joined(ORDERS@, id)),
        !is_hash_index(joined(ORDERS@, id)),
        !is_hash_index(INDEX_ORDERS@),
        !is_hash_index(INDEX_ORDERS_OPEN@),
        !is_hash_index(INDEX_ORDERS_CLOSED@),
        !is_hash_index(INDEX_ORDERS_EMULATED@),
        !is_hash_index(INDEX_ORDERS_INFLIGHT@),
        INDEX_ORDERS@ != INDEX_ORDERS_EMULATED@,
        INDEX_ORDERS_OPEN@ != INDEX_ORDERS_CLOSED@,
        INDEX_ORDERS_OPEN@ != INDEX_ORDERS_EMULATED@,
        INDEX_ORDERS_OPEN@ != INDEX_ORDERS_INFLIGHT@,
        INDEX_ORDERS_CLOSED@ != INDEX_ORDERS_EMULATED@,
        INDEX_ORDERS_CLOSED@ != INDEX_ORDERS_INFLIGHT@,
        INDEX_ORDERS_EMULATED@ != INDEX_ORDERS_INFLIGHT@,
        INDEX_ORDER_IDS@ != INDEX_ORDER_POSITION@,
        INDEX_ORDER_IDS@ != INDEX_ORDER_CLIENT@,
        INDEX_ORDER_POSITION@ != INDEX_ORDER_CLIENT@,
{
    lemma_index_names();
    let key = joined(ORDERS@, id);
    if is_set_index(key) || is_hash_index(key) {
        lemma_index_collection(key);
        assert(joined(ORDERS@, id) != key);
    }
}

/// What is said when a command of an order's update cannot be sent goes by what the command does.
pub proof fn law_update_order_failures_name_the_command(order: Order, event: Seq<u8>, i: int)
    ensures
        ({
            let steps = update_order_steps(order, event);
            let s = steps[i];
            let key = s.command.key;
            let adds = s.command.op is Insert;
            0 <= i < steps.len() ==> {
                &&& i == 0 ==> s.failure == "Failed to send update_order command"@
                &&& key == Some(INDEX_ORDER_IDS@) ==> s.failure
                    == "Failed to send index_venue_order_id command"@
                &&& key == Some(INDEX_ORDERS_INFLIGHT@) ==> s.failure == (if adds {
                    "Failed to send inflight index command"@
                } else {
                    "Failed to send inflight index remove"@
                })
                &&& key == Some(INDEX_ORDERS_OPEN@) ==> s.failure == (if adds {
                    "Failed to send open index command"@
                } else {
                    "Failed to send open index remove"@
                })
                &&& key == Some(INDEX_ORDERS_CLOSED@) ==> s.failure == (if adds {
                    "Failed to send closed index command"@
                } else {
                    "Failed to send closed index remove"@
                })
                &&& key == Some(INDEX_ORDERS_EMULATED@) ==> s.failure == (if adds {
                    "Failed to send emulated index"@
                } else {
                    "Failed to send emulated index remove"@
                })
            }
        }),
{
    lemma_order_keys_apart(order.client_order_id@);
}

/// What is said when a command of an order's addition cannot be sent goes by what the command does.
pub proof fn law_add_order_failures_name_the_command(
    order: Order,
    client_id: Option<Seq<char>>,
    event: Seq<u8>,
    i: int,
)
    ensures
        ({
            let steps = add_order_steps(order, client_id, event);
            let s = steps[i];
            let key = s.command.key;
            0 <= i < steps.len() ==> {
                &&& i == 0 ==> s.failure == "Failed to send add_order command"@
                &&& key == Some(INDEX_ORDERS@) ==> s.failure == "Failed to send order index command"@
                &&& key == Some(INDEX_ORDERS_EMULATED@) ==> s.failure
                    == "Failed to send emulated index command"@
                &&& key == Some(INDEX_ORDER_POSITION@) ==> s.failure
                    == "Failed to send index_order_position command"@
                &&& key == Some(INDEX_ORDER_CLIENT@) ==> s.failure
                    == "Failed to send order-client index command"@
            }
        }),
{
    lemma_order_keys_apart(order.client_order_id@);
}

/// What is said when a command of an order's deletion cannot be sent goes by what the command does.
pub proof fn law_delete_order_failures_name_the_command(id: Seq<char>, i: int)
    ensures
        ({
            let s = delete_order_steps(id)[i];
            0 <= i < delete_order_steps(id).len() ==> s.failure == (if i == 0 {
                "Failed to send delete order command"@
            } else if s.command.key == Some(INDEX_ORDER_POSITION@) || s.command.key == Some(
                INDEX_ORDER_CLIENT@,
            ) {
                "Failed to send delete order hash index command"@
            } else {
                "Failed to send delete order index command"@
            })
        }),
{
    lemma_order_keys_apart(id);
}

/// What is said when a command of a position request cannot be sent goes by what the command does.
pub proof fn law_position_failures_name_the_command(position: Position, event: Seq<u8>, i: int)
    ensures
        ({
            let steps = update_position_steps(position, event);
            let s = steps[i];
            let key = s.command.key;
            let adds = s.command.op is Insert;
            0 <= i < steps.len() ==> {
                &&& i == 0 ==> s.failure == "Failed to send update_position command"@
                &&& key == Some(INDEX_POSITIONS_OPEN@) ==> s.failure == (if adds {
                    "Failed to send position open index command"@
                } else {
                    "Failed to send position open index remove command"@
                })
                &&& key == Some(INDEX_POSITIONS_CLOSED@) ==> s.failure == (if adds {
                    "Failed to send position closed index command"@
                } else {
                    "Failed to send position closed index remove command"@
                })
            }
        }),
        ({
            let steps = add_position_steps(position.id@, event);
            &&& steps[0].failure == "Failed to send delete position command"@
            &&& steps[1].failure == "Failed to send add_position command"@
            &&& steps[2].failure == "Failed to send position index command"@
            &&& steps[3].failure == "Failed to send position open index command"@
        }),
        ({
            let steps = delete_position_steps(position.id@);
            0 <= i < steps.len() ==> steps[i].failure == (if i == 0 {
                "Failed to send delete position command"@
            } else {
                "Failed to send delete position index command"@
            })
        }),
{
    lemma_index_names();
    lemma_index_collection(INDEX_POSITIONS_OPEN@);
    lemma_index_collection(INDEX_POSITIONS_CLOSED@);
    let key = joined(POSITIONS@, position.id@);
    assert(key != INDEX_POSITIONS_OPEN@ && key != INDEX_POSITIONS_CLOSED@);
}

/// Emptying the database is one command of that operation.
pub proof fn law_flush_is_one_command(failure: Seq<char>)
    ensures
        flush_steps(failure).len() == 1,
        flush_steps(failure)[0].command.op is Flush,
        flush_steps(failure)[0].failure == failure,
{
}

} // verus!
