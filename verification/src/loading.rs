//! The read side of the adapter: what each request reads, and what it makes of the replies.

use vstd::prelude::*;
use vstd::utf8::encode_utf8;
use ahash::AHashMap;
use bytes::Bytes;
use redis::Cmd;
use crate::adapter::{store_steps, RedisCacheDatabaseAdapter};
use crate::effects::{law_store_list, law_store_string, list_after, string_after};
use crate::error::{CacheError, CacheFault};
use crate::keys::{
    ACTORS, BARS, CUSTOM_DATA, FUNDING_RATES, GENERAL, INDEX_ORDER_CLIENT, ORDERS, POSITIONS,
    QUOTES, SIGNALS, SNAPSHOTS, STRATEGIES, TRADES,
};
use crate::payload::bytes_contents;
use crate::pipeline::{cmd_args, cmd_arg_int, cmd_arg_str, new_cmd, signed_decimal};
use crate::routing::is_list_collection;
use crate::text::{concat, join, joined, occurs_at, strip_prefix};

verus! {

/// A hash map.
#[verifier::external_type_specification]
#[verifier::external_body]
#[verifier::reject_recursive_types(K)]
#[verifier::reject_recursive_types(V)]
#[verifier::reject_recursive_types(S)]
pub struct ExAHashMap<K, V, S>(ahash::AHashMap<K, V, S>);

/// The hasher state of a hash map.
#[verifier::external_type_specification]
#[verifier::external_body]
pub struct ExRandomState(ahash::RandomState);

/// The values that a map from text to bytes holds.
pub uninterp spec fn byte_entries(map: AHashMap<String, Bytes>) -> Map<Seq<char>, Seq<u8>>;

/// The values that a map from text to text holds.
pub uninterp spec fn text_entries(map: AHashMap<String, String>) -> Map<Seq<char>, Seq<char>>;

/// `AHashMap::new`: a map without entries.
#[verifier::external_body]
fn new_byte_map() -> (entries: AHashMap<String, Bytes>)
    ensures
        byte_entries(entries).dom() == Set::<Seq<char>>::empty(),
{
    AHashMap::new()
}

/// `AHashMap::insert`: the key maps to the value, and all else stays.
#[verifier::external_body]
fn insert_bytes(map: &mut AHashMap<String, Bytes>, key: String, value: Bytes)
    ensures
        byte_entries(*final(map)) == byte_entries(*old(map)).insert(key@, bytes_contents(value)),
{
    map.insert(key, value);
}

/// `AHashMap::new`: a map without entries.
#[verifier::external_body]
fn new_text_map() -> (entries: AHashMap<String, String>)
    ensures
        text_entries(entries).dom() == Set::<Seq<char>>::empty(),
{
    AHashMap::new()
}

/// `AHashMap::insert`: the key maps to the value, and all else stays.
#[verifier::external_body]
fn insert_text(map: &mut AHashMap<String, String>, key: String, value: String)
    ensures
        text_entries(*final(map)) == text_entries(*old(map)).insert(key@, value@),
{
    map.insert(key, value);
}

/// The arguments of a command that reads the items of a list from `start` to `stop`.
pub open spec fn lrange_args(key: Seq<char>, start: Seq<char>, stop: Seq<char>) -> Seq<Seq<u8>> {
    seq![encode_utf8("LRANGE"@), encode_utf8(key), encode_utf8(start), encode_utf8(stop)]
}

/// The items of a list from `start` to `stop`, both counted from the end where they are negative;
/// what lies outside the list is left out.
pub open spec fn range_reply(held: Option<Seq<Seq<u8>>>, start: int, stop: int) -> Seq<Seq<u8>> {
    match held {
        None => Seq::empty(),
        Some(items) => {
            let n = items.len() as int;
            let first = if start < 0 {
                n + start
            } else {
                start
            };
            let last = if stop < 0 {
                n + stop
            } else {
                stop
            };
            let from = if first < 0 {
                0
            } else {
                first
            };
            let to = if last < n {
                last + 1
            } else {
                n
            };
            if from < to {
                items.subrange(from, to)
            } else {
                Seq::empty()
            }
        },
    }
}

/// A key without `prefix`, or as it is where it does not start with `prefix`.
pub open spec fn stripped(prefix: Seq<char>, key: Seq<char>) -> Seq<char> {
    if occurs_at(key, prefix, 0) {
        key.skip(prefix.len() as int)
    } else {
        key
    }
}

/// The entries that the first `n` keys and the values read for them give, the keys without
/// `prefix`; a key without a value gives none.
pub open spec fn general_upto(
    prefix: Seq<char>,
    keys: Seq<String>,
    values: Seq<Option<Bytes>>,
    n: int,
) -> Map<Seq<char>, Seq<u8>>
    decreases n,
{
    if n <= 0 {
        Map::empty()
    } else {
        let before = general_upto(prefix, keys, values, n - 1);
        match values[n - 1] {
            Some(value) => before.insert(stripped(prefix, keys[n - 1]@), bytes_contents(value)),
            None => before,
        }
    }
}

/// The entries that keys and the values read for them give, in pairs as far as both reach.
pub open spec fn general_entries(
    prefix: Seq<char>,
    keys: Seq<String>,
    values: Seq<Option<Bytes>>,
) -> Map<Seq<char>, Seq<u8>> {
    general_upto(
        prefix,
        keys,
        values,
        if keys.len() <= values.len() {
            keys.len() as int
        } else {
            values.len() as int
        },
    )
}

/// The mapping that the first `n` pairs give; where a key comes twice the later value counts.
pub open spec fn pairs_upto(pairs: Seq<(String, String)>, n: int) -> Map<Seq<char>, Seq<char>>
    decreases n,
{
    if n <= 0 {
        Map::empty()
    } else {
        pairs_upto(pairs, n - 1).insert(pairs[n - 1].0@, pairs[n - 1].1@)
    }
}

/// The bytes of several stored items.
pub open spec fn item_contents(items: Seq<Vec<u8>>) -> Seq<Seq<u8>> {
    items.map_values(|item: Vec<u8>| item@)
}

fn lrange(key: &str, start: i64, stop: i64) -> (command: Cmd)
    ensures
        cmd_args(command) == lrange_args(
            key@,
            signed_decimal(start as int),
            signed_decimal(stop as int),
        ),
{
    let mut command = new_cmd("LRANGE");
    cmd_arg_str(&mut command, key);
    cmd_arg_int(&mut command, start);
    cmd_arg_int(&mut command, stop);
    assert(cmd_args(command) =~= lrange_args(
        key@,
        signed_decimal(start as int),
        signed_decimal(stop as int),
    ));
    command
}

/// Returns the command that reads a whole list.
fn read_list(key: &str) -> (command: Cmd)
    ensures
        cmd_args(command) == lrange_args(key@, "0"@, "-1"@),
{
    proof {
        lemma_range_texts();
    }
    lrange(key, 0, -1)
}

/// Returns the command that reads the last item of a list.
fn read_last(key: &str) -> (command: Cmd)
    ensures
        cmd_args(command) == lrange_args(key@, "-1"@, "-1"@),
{
    proof {
        lemma_range_texts();
    }
    lrange(key, -1, -1)
}

/// Returns the command that reads a string.
fn read_string(key: &str) -> (command: Cmd)
    ensures
        cmd_args(command) == seq![encode_utf8("GET"@), encode_utf8(key@)],
{
    let mut command = new_cmd("GET");
    cmd_arg_str(&mut command, key);
    assert(cmd_args(command) =~= seq![encode_utf8("GET"@), encode_utf8(key@)]);
    command
}

proof fn lemma_range_texts()
    ensures
        signed_decimal(0) == "0"@,
        signed_decimal(-1) == "-1"@,
{
    reveal_strlit("0");
    reveal_strlit("-1");
    assert(signed_decimal(0) =~= "0"@);
    assert(signed_decimal(-1) =~= "-1"@);
}

impl RedisCacheDatabaseAdapter {
    /// Returns all cached data, given what the concurrent loads of its parts gave.
    ///
    /// # Errors
    ///
    /// Returns an error if any of the loads failed, with the cause of the first in the order of the
    /// parameters that did. Nothing is then returned of the others.
    pub fn load_all<C, I, S, A, O, P, G, Y>(
        &self,
        currencies: Result<C, String>,
        instruments: Result<I, String>,
        synthetics: Result<S, String>,
        accounts: Result<A, String>,
        orders: Result<O, String>,
        positions: Result<P, String>,
        greeks: Result<G, String>,
        yield_curves: Result<Y, String>,
    ) -> (r: Result<CacheMap<C, I, S, A, O, P, G, Y>, CacheError>)
        ensures
            r is Ok <==> {
                &&& currencies is Ok
                &&& instruments is Ok
                &&& synthetics is Ok
                &&& accounts is Ok
                &&& orders is Ok
                &&& positions is Ok
                &&& greeks is Ok
                &&& yield_curves is Ok
            },
            r is Ok ==> {
                &&& currencies == Ok::<C, String>(r->Ok_0.currencies)
                &&& instruments == Ok::<I, String>(r->Ok_0.instruments)
                &&& synthetics == Ok::<S, String>(r->Ok_0.synthetics)
                &&& accounts == Ok::<A, String>(r->Ok_0.accounts)
                &&& orders == Ok::<O, String>(r->Ok_0.orders)
                &&& positions == Ok::<P, String>(r->Ok_0.positions)
                &&& greeks == Ok::<G, String>(r->Ok_0.greeks)
                &&& yield_curves == Ok::<Y, String>(r->Ok_0.yield_curves)
            },
            r is Err ==> {
                let cause = first_failure(
                    seq![
                        load_failure(currencies),
                        load_failure(instruments),
                        load_failure(synthetics),
                        load_failure(accounts),
                        load_failure(orders),
                        load_failure(positions),
                        load_failure(greeks),
                        load_failure(yield_curves),
                    ],
                );
                &&& cause is Some
                &&& r->Err_0@ == (CacheFault::LoadAll { cause: cause->0 })
            },
    {
        proof {
            reveal_with_fuel(first_failure, 9);
        }
        let currencies = match currencies {
            Ok(loaded) => loaded,
            Err(cause) => {
                return Err(CacheFault::LoadAll { cause });
            },
        };
        let instruments = match instruments {
            Ok(loaded) => loaded,
            Err(cause) => {
                return Err(CacheFault::LoadAll { cause });
            },
        };
        let synthetics = match synthetics {
            Ok(loaded) => loaded,
            Err(cause) => {
                return Err(CacheFault::LoadAll { cause });
            },
        };
        let accounts = match accounts {
            Ok(loaded) => loaded,
            Err(cause) => {
                return Err(CacheFault::LoadAll { cause });
            },
        };
        let orders = match orders {
            Ok(loaded) => loaded,
            Err(cause) => {
                return Err(CacheFault::LoadAll { cause });
            },
        };
        let positions = match positions {
            Ok(loaded) => loaded,
            Err(cause) => {
                return Err(CacheFault::LoadAll { cause });
            },
        };
        let greeks = match greeks {
            Ok(loaded) => loaded,
            Err(cause) => {
                return Err(CacheFault::LoadAll { cause });
            },
        };
        let yield_curves = match yield_curves {
            Ok(loaded) => loaded,
            Err(cause) => {
                return Err(CacheFault::LoadAll { cause });
            },
        };
        Ok(
            CacheMap {
                currencies,
                instruments,
                synthetics,
                accounts,
                orders,
                positions,
                greeks,
                yield_curves,
            },
        )
    }

    /// Returns the pattern that matches the keys of all general state.
    pub fn general_pattern(&self) -> (pattern: String)
        ensures
            pattern@ == joined(self.database.trader_key@, joined(GENERAL@, "*"@)),
    {
        join(&self.database.trader_key, &join(GENERAL, "*"))
    }

    /// Makes the general key-value state of the keys that were found and the values read for them.
    ///
    /// The keys are those under which the state was added: the trader key and the collection are
    /// stripped.
    pub fn load(&self, keys: &Vec<String>, values: Vec<Option<Bytes>>) -> (map: AHashMap<
        String,
        Bytes,
    >)
        ensures
            byte_entries(map) == general_entries(
                joined(self.database.trader_key@, joined(GENERAL@, Seq::empty())),
                keys@,
                values@,
            ),
    {
        let prefix = join(&self.database.trader_key, &join(GENERAL, ""));
        let mut map = new_byte_map();
        proof {
            reveal_strlit("");
            assert(""@ =~= Seq::<char>::empty());
        }
        let n: usize = if keys.len() <= values.len() {
            keys.len()
        } else {
            values.len()
        };
        let mut i: usize = 0;
        while i < n
            invariant
                i <= n,
                n <= keys@.len(),
                n <= values@.len(),
                byte_entries(map) == general_upto(prefix@, keys@, values@, i as int),
            decreases n - i,
        {
            if let Some(value) = &values[i] {
                let key = keys[i].as_str();
                let clean_key = match strip_prefix(key, &prefix) {
                    Some(rest) => {
                        assert(occurs_at(key@, prefix@, 0)) by {
                            assert(key@.subrange(0, prefix@.len() as int) =~= prefix@);
                        }
                        assert(rest@ =~= key@.skip(prefix@.len() as int));
                        rest
                    },
                    None => key.to_owned(),
                };
                insert_bytes(&mut map, clean_key, value.clone());
            }
            i = i + 1;
        }
        map
    }

    /// Returns the command that reads the order-to-client index.
    pub fn load_index_order_client(&self) -> (command: Cmd)
        ensures
            cmd_args(command) == seq![
                encode_utf8("HGETALL"@),
                encode_utf8(joined(self.database.trader_key@, INDEX_ORDER_CLIENT@)),
            ],
    {
        let key = join(&self.database.trader_key, INDEX_ORDER_CLIENT);
        let mut command = new_cmd("HGETALL");
        cmd_arg_str(&mut command, &key);
        assert(cmd_args(command) =~= seq![encode_utf8("HGETALL"@), encode_utf8(key@)]);
        command
    }

    /// Makes the order-to-client index of the fields and values read for it.
    pub fn index_order_clients(&self, raw: Vec<(String, String)>) -> (map: AHashMap<String, String>)
        ensures
            text_entries(map) == pairs_upto(raw@, raw@.len() as int),
    {
        let mut map = new_text_map();
        let mut i: usize = 0;
        while i < raw.len()
            invariant
                i <= raw@.len(),
                text_entries(map) == pairs_upto(raw@, i as int),
            decreases raw@.len() - i,
        {
            insert_text(&mut map, raw[i].0.clone(), raw[i].1.clone());
            i = i + 1;
        }
        map
    }

    /// Returns the position of each order, of which there is none: the order-to-position index
    /// holds IDs only, and positions are rebuilt from their events.
    pub fn load_index_order_position(&self) -> (map: AHashMap<String, String>)
        ensures
            text_entries(map).dom() == Set::<Seq<char>>::empty(),
    {
        new_text_map()
    }

    /// Returns the command that reads the state of an actor.
    pub fn load_actor(&self, component_id: &str) -> (command: Cmd)
        ensures
            cmd_args(command) == seq![
                encode_utf8("GET"@),
                encode_utf8(
                    joined(
                        self.database.trader_key@,
                        joined(ACTORS@, joined(component_id@, "state"@)),
                    ),
                ),
            ],
    {
        read_string(
            &join(&self.database.trader_key, &join(ACTORS, &join(component_id, "state"))),
        )
    }

    /// Returns the command that reads the state of a strategy.
    pub fn load_strategy(&self, strategy_id: &str) -> (command: Cmd)
        ensures
            cmd_args(command) == seq![
                encode_utf8("GET"@),
                encode_utf8(
                    joined(
                        self.database.trader_key@,
                        joined(STRATEGIES@, joined(strategy_id@, "state"@)),
                    ),
                ),
            ],
    {
        read_string(
            &join(&self.database.trader_key, &join(STRATEGIES, &join(strategy_id, "state"))),
        )
    }

    /// Returns the stored state to deserialize, or `None` if no state was persisted, which stands
    /// for an empty state.
    pub fn stored_state(&self, raw: Vec<u8>) -> (r: Option<Vec<u8>>)
        ensures
            r == (if raw@.len() == 0 {
                None
            } else {
                Some(raw)
            }),
    {
        if raw.len() == 0 {
            None
        } else {
            Some(raw)
        }
    }

    /// Returns the command that reads all quote ticks of an instrument.
    pub fn load_quotes(&self, instrument_id: &str) -> (command: Cmd)
        ensures
            cmd_args(command) == lrange_args(
                joined(self.database.trader_key@, joined(QUOTES@, instrument_id@)),
                "0"@,
                "-1"@,
            ),
    {
        read_list(&join(&self.database.trader_key, &join(QUOTES, instrument_id)))
    }

    /// Returns the command that reads all trade ticks of an instrument.
    pub fn load_trades(&self, instrument_id: &str) -> (command: Cmd)
        ensures
            cmd_args(command) == lrange_args(
                joined(self.database.trader_key@, joined(TRADES@, instrument_id@)),
                "0"@,
                "-1"@,
            ),
    {
        read_list(&join(&self.database.trader_key, &join(TRADES, instrument_id)))
    }

    /// Returns the command that reads all funding rate updates of an instrument.
    pub fn load_funding_rates(&self, instrument_id: &str) -> (command: Cmd)
        ensures
            cmd_args(command) == lrange_args(
                joined(self.database.trader_key@, joined(FUNDING_RATES@, instrument_id@)),
                "0"@,
                "-1"@,
            ),
    {
        read_list(&join(&self.database.trader_key, &join(FUNDING_RATES, instrument_id)))
    }

    /// Returns the pattern that matches the keys of all bars of an instrument, of whatever bar
    /// type.
    pub fn load_bars(&self, instrument_id: &str) -> (pattern: String)
        ensures
            pattern@ == joined(self.database.trader_key@, joined(BARS@, instrument_id@ + "*"@)),
    {
        join(&self.database.trader_key, &join(BARS, &concat(instrument_id, "*")))
    }

    /// Returns the command that reads all signals of a name.
    pub fn load_signals(&self, name: &str) -> (command: Cmd)
        ensures
            cmd_args(command) == lrange_args(
                joined(self.database.trader_key@, joined(SIGNALS@, name@)),
                "0"@,
                "-1"@,
            ),
    {
        read_list(&join(&self.database.trader_key, &join(SIGNALS, name)))
    }

    /// Returns the command that reads all custom data of a data type.
    pub fn load_custom_data(&self, data_type: &str) -> (command: Cmd)
        ensures
            cmd_args(command) == lrange_args(
                joined(self.database.trader_key@, joined(CUSTOM_DATA@, data_type@)),
                "0"@,
                "-1"@,
            ),
    {
        read_list(&join(&self.database.trader_key, &join(CUSTOM_DATA, data_type)))
    }

    /// Returns the command that reads the most recent snapshot of an order.
    pub fn load_order_snapshot(&self, client_order_id: &str) -> (command: Cmd)
        ensures
            cmd_args(command) == lrange_args(
                joined(
                    self.database.trader_key@,
                    joined(SNAPSHOTS@, joined(ORDERS@, client_order_id@)),
                ),
                "-1"@,
                "-1"@,
            ),
    {
        read_last(
            &join(&self.database.trader_key, &join(SNAPSHOTS, &join(ORDERS, client_order_id))),
        )
    }

    /// Returns the command that reads the most recent snapshot of a position.
    pub fn load_position_snapshot(&self, position_id: &str) -> (command: Cmd)
        ensures
            cmd_args(command) == lrange_args(
                joined(
                    self.database.trader_key@,
                    joined(SNAPSHOTS@, joined(POSITIONS@, position_id@)),
                ),
                "-1"@,
                "-1"@,
            ),
    {
        read_last(
            &join(&self.database.trader_key, &join(SNAPSHOTS, &join(POSITIONS, position_id))),
        )
    }

    /// Returns the snapshot to deserialize of those that were read, if any was.
    pub fn stored_snapshot(&self, items: Vec<Vec<u8>>) -> (r: Option<Vec<u8>>)
        ensures
            match r {
                Some(raw) => items@.len() > 0 && raw == items@[0],
                None => items@.len() == 0,
            },
    {
        if items.len() == 0 {
            None
        } else {
            let mut items = items;
            Some(items.remove(0))
        }
    }
}

/// Returns the answer to a read.
///
/// # Errors
///
/// Returns an error if the database refused the read or its answer was lost.
pub fn read_reply<T>(reply: Result<Result<T, String>, String>) -> (r: Result<T, CacheError>)
    ensures
        match reply {
            Ok(Ok(value)) => r == Ok::<T, CacheError>(value),
            Ok(Err(cause)) => r is Err && r->Err_0@ == (CacheFault::Query { cause: cause@ }),
            Err(cause) => r is Err && r->Err_0@ == (CacheFault::ReadReplyLost { cause: cause@ }),
        },
{
    match reply {
        Ok(Ok(value)) => Ok(value),
        Ok(Err(cause)) => Err(CacheFault::Query { cause }),
        Err(cause) => Err(CacheFault::ReadReplyLost { cause }),
    }
}

/// Returns the general state that was loaded.
///
/// # Errors
///
/// Returns an error if the database refused a read or the answer was lost.
pub fn general_reply<T>(reply: Result<Result<T, String>, String>) -> (r: Result<T, CacheError>)
    ensures
        match reply {
            Ok(Ok(value)) => r == Ok::<T, CacheError>(value),
            Ok(Err(cause)) => r is Err && r->Err_0@ == (CacheFault::Query { cause: cause@ }),
            Err(cause) => r is Err && r->Err_0@ == (CacheFault::GeneralReplyLost {
                cause: cause@,
            }),
        },
{
    match reply {
        Ok(answer) => read_reply(Ok(answer)),
        Err(cause) => Err(CacheFault::GeneralReplyLost { cause }),
    }
}

/// All cached data.
pub struct CacheMap<C, I, S, A, O, P, G, Y> {
    pub currencies: C,
    pub instruments: I,
    pub synthetics: S,
    pub accounts: A,
    pub orders: O,
    pub positions: P,
    pub greeks: G,
    pub yield_curves: Y,
}

/// Why a load failed, if it did.
pub open spec fn load_failure<T>(load: Result<T, String>) -> Option<Seq<char>> {
    match load {
        Ok(_) => None,
        Err(cause) => Some(cause@),
    }
}

/// The first cause among several loads, if one of them failed.
pub open spec fn first_failure(failures: Seq<Option<Seq<char>>>) -> Option<Seq<char>>
    decreases failures.len(),
{
    if failures.len() == 0 {
        None
    } else if failures[0] is Some {
        failures[0]
    } else {
        first_failure(failures.drop_first())
    }
}

/// Whether `first` is the position of the first error.
pub open spec fn first_error<T>(results: Seq<Result<T, String>>, first: int) -> bool {
    &&& 0 <= first < results.len()
    &&& results[first] is Err
    &&& forall|i: int| 0 <= i < first ==> #[trigger] results[i] is Ok
}

/// Collects deserialized items in the order in which they were stored.
///
/// # Errors
///
/// Returns the first error if an item could not be deserialized.
pub fn collect_decoded<T>(results: Vec<Result<T, String>>) -> (r: Result<Vec<T>, CacheError>)
    ensures
        match r {
            Ok(items) => {
                &&& items@.len() == results@.len()
                &&& forall|i: int|
                    0 <= i < results@.len() ==> #[trigger] results@[i] == Ok::<T, String>(items@[i])
            },
            Err(e) => exists|first: int| #[trigger]
                first_error(results@, first) && e@ == (CacheFault::Deserialization {
                    cause: results@[first]->Err_0@,
                }),
        },
{
    let ghost all = results@;
    let mut items: Vec<T> = Vec::new();
    for result in it: results
        invariant
            it.seq() == all,
            items@.len() == it.index(),
            forall|i: int|
                0 <= i < it.index() ==> #[trigger] all[i] == Ok::<T, String>(items@[i]),
    {
        match result {
            Ok(item) => {
                items.push(item);
            },
            Err(cause) => {
                assert(first_error(all, it.index() as int));
                return Err(CacheFault::Deserialization { cause });
            },
        }
    }
    Ok(items)
}

/// How far the reading of several lists has come.
pub struct ScanState {
    /// How many lists are read.
    pub done: int,
    /// The items read so far.
    pub items: Seq<Seq<u8>>,
}

/// The state after one more list is read.
pub open spec fn scan_advance(state: ScanState, list: Seq<Seq<u8>>) -> ScanState {
    ScanState { done: state.done + 1, items: state.items + list }
}

/// The state after several lists are read, from the start.
pub open spec fn scan_run(lists: Seq<Seq<Seq<u8>>>) -> ScanState
    decreases lists.len(),
{
    if lists.len() == 0 {
        ScanState { done: 0, items: Seq::empty() }
    } else {
        scan_advance(scan_run(lists.drop_last()), lists.last())
    }
}

/// The reading of several lists of bars, one after the other.
pub struct BarScan {
    keys: Vec<String>,
    next: usize,
    items: Vec<Vec<u8>>,
}

impl BarScan {
    /// The keys of the lists, in the order in which they are read.
    pub closed spec fn keys(self) -> Seq<Seq<char>> {
        self.keys@.map_values(|k: String| k@)
    }

    /// How many lists are read.
    pub closed spec fn done(self) -> int {
        self.next as int
    }

    /// The items read so far.
    pub closed spec fn items(self) -> Seq<Seq<u8>> {
        item_contents(self.items@)
    }

    /// How far the scan has come.
    pub open spec fn state(self) -> ScanState {
        ScanState { done: self.done(), items: self.items() }
    }

    /// No more lists are read than there are.
    pub closed spec fn wf(self) -> bool {
        self.next <= self.keys@.len()
    }

    /// Starts to read the lists at `keys`.
    pub fn new(keys: Vec<String>) -> (r: Self)
        ensures
            r.wf(),
            r.keys() == keys@.map_values(|k: String| k@),
            r.state() == scan_run(Seq::empty()),
    {
        let r = BarScan { keys, next: 0, items: Vec::new() };
        assert(r.items() =~= Seq::<Seq<u8>>::empty());
        r
    }

    /// Returns the command that reads the next list, or `None` if all are read.
    pub fn next_command(&self) -> (r: Option<Cmd>)
        requires
            self.wf(),
        ensures
            match r {
                Some(command) => {
                    &&& self.done() < self.keys().len()
                    &&& cmd_args(command) == lrange_args(self.keys()[self.done()], "0"@, "-1"@)
                },
                None => self.done() == self.keys().len(),
            },
    {
        if self.next < self.keys.len() {
            Some(read_list(self.keys[self.next].as_str()))
        } else {
            None
        }
    }

    /// Takes the reply for the next list.
    ///
    /// # Errors
    ///
    /// Returns an error if the list could not be read, which ends the scan.
    pub fn record(&mut self, reply: Result<Vec<Vec<u8>>, String>) -> (r: Result<(), CacheError>)
        requires
            old(self).wf(),
            old(self).done() < old(self).keys().len(),
        ensures
            final(self).wf(),
            final(self).keys() == old(self).keys(),
            match reply {
                Ok(items) => {
                    &&& r is Ok
                    &&& final(self).state() == scan_advance(
                        old(self).state(),
                        item_contents(items@),
                    )
                },
                Err(cause) => {
                    &&& r is Err
                    &&& r->Err_0@ == (CacheFault::ListRead {
                        key: old(self).keys()[old(self).done()],
                        cause: cause@,
                    })
                    &&& *final(self) == *old(self)
                },
            },
    {
        match reply {
            Ok(items) => {
                let ghost before = self.items@;
                let ghost added = items@;
                let mut items = items;
                self.items.append(&mut items);
                assert(self.next < self.keys.len());
                self.next = self.next + 1;
                assert(self.items() =~= item_contents(before) + item_contents(added));
                Ok(())
            },
            Err(cause) => Err(
                CacheFault::ListRead { key: self.keys[self.next].clone(), cause },
            ),
        }
    }

    /// Returns the items of all lists, once all are read, in the order in which they were read.
    pub fn finish(self) -> (items: Vec<Vec<u8>>)
        requires
            self.done() == self.keys().len(),
        ensures
            item_contents(items@) == self.items(),
    {
        self.items
    }
}

/// Reading a list collection gives back the value stored last, behind all that was stored before.
pub proof fn law_list_read_back(
    trader_key: Seq<char>,
    collection: Seq<char>,
    id: Seq<char>,
    value: Seq<u8>,
    failure: Seq<char>,
    before: Option<Seq<Seq<u8>>>,
)
    requires
        is_list_collection(collection),
    ensures
        ({
            let steps = store_steps(collection, id, value, failure);
            let after = list_after(trader_key, steps, joined(collection, id), before);
            &&& range_reply(after, 0, -1) == range_reply(before, 0, -1).push(value)
            &&& range_reply(after, -1, -1) == seq![value]
        }),
{
    law_store_list(trader_key, collection, id, value, failure, before);
    let after = list_after(
        trader_key,
        store_steps(collection, id, value, failure),
        joined(collection, id),
        before,
    );
    assert(range_reply(after, 0, -1) =~= range_reply(before, 0, -1).push(value));
    assert(range_reply(after, -1, -1) =~= seq![value]);
}

/// General state is loaded under the key under which it was added, with the value that was added.
pub proof fn law_general_read_back(
    trader_key: Seq<char>,
    key: Seq<char>,
    value: Seq<u8>,
    failure: Seq<char>,
    before: Option<Seq<u8>>,
)
    ensures
        string_after(
            trader_key,
            store_steps(GENERAL@, key, value, failure),
            joined(GENERAL@, key),
            before,
        ) == Some(value),
        stripped(
            joined(trader_key, joined(GENERAL@, Seq::empty())),
            general_key(trader_key, key),
        ) == key,
{
    law_store_string(trader_key, GENERAL@, key, value, failure, before);
    lemma_general_stripped(trader_key, key);
}

/// The full key of general state that was added under a key.
pub open spec fn general_key(trader_key: Seq<char>, key: Seq<char>) -> Seq<char> {
    joined(trader_key, joined(GENERAL@, key))
}

/// Whether `keys` are the full keys of general state that was added under `added`, all different,
/// and a value was read for each.
pub open spec fn all_read(
    trader_key: Seq<char>,
    added: Seq<Seq<char>>,
    keys: Seq<String>,
    values: Seq<Option<Bytes>>,
) -> bool {
    &&& added.no_duplicates()
    &&& keys.len() == added.len()
    &&& values.len() == added.len()
    &&& forall|i: int|
        0 <= i < added.len() ==> (#[trigger] keys[i])@ == general_key(trader_key, added[i])
    &&& forall|i: int| 0 <= i < added.len() ==> #[trigger] values[i] is Some
}

proof fn lemma_general_stripped(trader_key: Seq<char>, key: Seq<char>)
    ensures
        stripped(
            joined(trader_key, joined(GENERAL@, Seq::empty())),
            general_key(trader_key, key),
        ) == key,
{
    let prefix = joined(trader_key, joined(GENERAL@, Seq::empty()));
    let full = general_key(trader_key, key);
    assert(full.subrange(0, prefix.len() as int) =~= prefix);
    assert(full.skip(prefix.len() as int) =~= key);
}

proof fn lemma_general_upto(
    trader_key: Seq<char>,
    added: Seq<Seq<char>>,
    keys: Seq<String>,
    values: Seq<Option<Bytes>>,
    n: int,
)
    requires
        all_read(trader_key, added, keys, values),
        0 <= n <= added.len(),
    ensures
        ({
            let prefix = joined(trader_key, joined(GENERAL@, Seq::empty()));
            let map = general_upto(prefix, keys, values, n);
            &&& forall|i: int|
                #![trigger added[i]]
                0 <= i < n ==> map.dom().contains(added[i]) && map[added[i]] == bytes_contents(
                    values[i]->0,
                )
            &&& forall|key: Seq<char>| #[trigger]
                map.dom().contains(key) ==> added.take(n).contains(key)
        }),
    decreases n,
{
    let prefix = joined(trader_key, joined(GENERAL@, Seq::empty()));
    if n > 0 {
        lemma_general_upto(trader_key, added, keys, values, n - 1);
        assert(keys[n - 1]@ == general_key(trader_key, added[n - 1]));
        assert(values[n - 1] is Some);
        lemma_general_stripped(trader_key, added[n - 1]);
        let before = general_upto(prefix, keys, values, n - 1);
        let map = general_upto(prefix, keys, values, n);
        assert(map == before.insert(added[n - 1], bytes_contents(values[n - 1]->0)));
        assert forall|key: Seq<char>| #[trigger] map.dom().contains(key) implies added.take(
            n,
        ).contains(key) by {
            if key == added[n - 1] {
                assert(added.take(n)[n - 1] == key);
            } else {
                assert(before.dom().contains(key));
                let seen = added.take(n - 1);
                let i: int = choose|i: int| 0 <= i < seen.len() && seen[i] == key;
                assert(added.take(n)[i] == key);
            }
        }
    }
}

/// When a value is read for each of several keys under which general state was added, what is
/// loaded maps each of these keys to its value, and has no other keys.
pub proof fn law_general_loads_all(
    trader_key: Seq<char>,
    added: Seq<Seq<char>>,
    keys: Seq<String>,
    values: Seq<Option<Bytes>>,
)
    requires
        all_read(trader_key, added, keys, values),
    ensures
        ({
            let prefix = joined(trader_key, joined(GENERAL@, Seq::empty()));
            let map = general_entries(prefix, keys, values);
            &&& forall|i: int|
                #![trigger added[i]]
                0 <= i < added.len() ==> map.dom().contains(added[i]) && map[added[i]]
                    == bytes_contents(values[i]->0)
            &&& forall|key: Seq<char>| #[trigger]
                map.dom().contains(key) ==> added.contains(key)
        }),
{
    lemma_general_upto(trader_key, added, keys, values, added.len() as int);
    assert(added.take(added.len() as int) =~= added);
}

/// A scan gives the items of all its lists, one list behind the other in the order of the keys,
/// and each list whole and in its own order.
pub proof fn law_scan_joins_lists(lists: Seq<Seq<Seq<u8>>>)
    ensures
        scan_run(lists).done == lists.len(),
        scan_run(lists).items == lists.flatten(),
    decreases lists.len(),
{
    if lists.len() > 0 {
        let before = lists.drop_last();
        law_scan_joins_lists(before);
        assert(before.push(lists.last()) =~= lists);
        before.lemma_flatten_and_flatten_alt_are_equivalent();
        lists.lemma_flatten_and_flatten_alt_are_equivalent();
    }
}

/// The cause that is given of several loads is the cause of one that failed.
pub proof fn law_first_failure_failed(failures: Seq<Option<Seq<char>>>)
    ensures
        first_failure(failures) is Some ==> failures.contains(first_failure(failures)),
        first_failure(failures) is None ==> forall|i: int|
            0 <= i < failures.len() ==> #[trigger] failures[i] is None,
    decreases failures.len(),
{
    if failures.len() > 0 && failures[0] is None {
        let rest = failures.drop_first();
        law_first_failure_failed(rest);
        if first_failure(rest) is Some {
            let i: int = choose|i: int| 0 <= i < rest.len() && rest[i] == first_failure(rest);
            assert(failures[i + 1] == first_failure(rest));
        }
        assert forall|i: int| first_failure(failures) is None && 0 <= i
            < failures.len() implies #[trigger] failures[i] is None by {
            if i > 0 {
                assert(failures[i] == rest[i - 1]);
            }
        }
    }
}

/// The bars of every bar type of an instrument stand under keys that the pattern which loads them
/// matches: the keys start with what stands before the pattern's final wildcard.
pub proof fn law_bars_found(trader_key: Seq<char>, instrument_id: Seq<char>, spec: Seq<char>)
    ensures
        ({
            let pattern = joined(trader_key, joined(BARS@, instrument_id + "*"@));
            &&& pattern.last() == '*'
            &&& occurs_at(
                joined(trader_key, joined(BARS@, instrument_id + spec)),
                pattern.drop_last(),
                0,
            )
        }),
{
    reveal_strlit("*");
    let pattern = joined(trader_key, joined(BARS@, instrument_id + "*"@));
    let key = joined(trader_key, joined(BARS@, instrument_id + spec));
    assert(key.subrange(0, pattern.drop_last().len() as int) =~= pattern.drop_last());
}

/// Whether the pair at `i` of keys and values gives an entry for `key`.
pub open spec fn gives(
    prefix: Seq<char>,
    keys: Seq<String>,
    values: Seq<Option<Bytes>>,
    key: Seq<char>,
    i: int,
) -> bool {
    &&& 0 <= i < keys.len()
    &&& i < values.len()
    &&& values[i] is Some
    &&& keys[i]@ == prefix + key || keys[i]@ == key && !occurs_at(key, prefix, 0)
}

proof fn lemma_stripped(prefix: Seq<char>, full: Seq<char>, key: Seq<char>)
    ensures
        stripped(prefix, full) == key <==> full == prefix + key || full == key && !occurs_at(
            key,
            prefix,
            0,
        ),
{
    if full == prefix + key {
        assert(full.subrange(0, prefix.len() as int) =~= prefix);
        assert(full.skip(prefix.len() as int) =~= key);
    }
    if occurs_at(full, prefix, 0) {
        assert(full =~= full.subrange(0, prefix.len() as int) + full.skip(prefix.len() as int));
    }
}

/// A key is loaded without the prefix if it has it, and as it is otherwise.
pub proof fn law_prefix_is_stripped(prefix: Seq<char>, key: Seq<char>)
    ensures
        stripped(prefix, prefix + key) == key,
        !occurs_at(key, prefix, 0) ==> stripped(prefix, key) == key,
{
    lemma_stripped(prefix, prefix + key, key);
}

proof fn lemma_general_pairs(
    prefix: Seq<char>,
    keys: Seq<String>,
    values: Seq<Option<Bytes>>,
    key: Seq<char>,
    n: int,
)
    requires
        0 <= n <= keys.len(),
        n <= values.len(),
    ensures
        ({
            let map = general_upto(prefix, keys, values, n);
            &&& map.dom().contains(key) <==> exists|i: int|
                i < n && #[trigger] gives(prefix, keys, values, key, i)
            &&& forall|i: int| #[trigger]
                gives(prefix, keys, values, key, i) && i < n && (forall|j: int|
                    i < j < n ==> !#[trigger] gives(prefix, keys, values, key, j)) ==> map[key]
                    == bytes_contents(values[i]->0)
        }),
    decreases n,
{
    if n > 0 {
        lemma_general_pairs(prefix, keys, values, key, n - 1);
        lemma_stripped(prefix, keys[n - 1]@, key);
        let before = general_upto(prefix, keys, values, n - 1);
        let last = gives(prefix, keys, values, key, n - 1);
        if before.dom().contains(key) {
            let i: int = choose|i: int| i < n - 1 && #[trigger] gives(prefix, keys, values, key, i);
            assert(gives(prefix, keys, values, key, i) && i < n);
        }
        assert forall|i: int| #[trigger]
            gives(prefix, keys, values, key, i) && i < n && (forall|j: int|
                i < j < n ==> !#[trigger] gives(
                    prefix,
                    keys,
                    values,
                    key,
                    j,
                )) implies general_upto(prefix, keys, values, n)[key] == bytes_contents(
            values[i]->0,
        ) by {
            if i < n - 1 {
                assert(!gives(prefix, keys, values, key, n - 1));
            }
        }
    }
}

/// A key is loaded exactly if it stands, with or without the prefix, in a pair that has a value, and
/// then with the value of the last such pair.
pub proof fn law_general_state_comes_from_pairs(
    prefix: Seq<char>,
    keys: Seq<String>,
    values: Seq<Option<Bytes>>,
    key: Seq<char>,
)
    ensures
        ({
            let map = general_entries(prefix, keys, values);
            &&& map.dom().contains(key) <==> exists|i: int| #[trigger]
                gives(prefix, keys, values, key, i)
            &&& forall|i: int| #[trigger]
                gives(prefix, keys, values, key, i) && (forall|j: int|
                    i < j ==> !#[trigger] gives(prefix, keys, values, key, j)) ==> map[key]
                    == bytes_contents(values[i]->0)
        }),
{
    let n = if keys.len() <= values.len() {
        keys.len() as int
    } else {
        values.len() as int
    };
    lemma_general_pairs(prefix, keys, values, key, n);
    if general_entries(prefix, keys, values).dom().contains(key) {
        let i: int = choose|i: int| i < n && #[trigger] gives(prefix, keys, values, key, i);
        assert(gives(prefix, keys, values, key, i));
    }
}

/// A mapping has a key exactly if one of its pairs has it, and maps it to what the last such pair
/// says.
pub proof fn law_mapping_comes_from_pairs(pairs: Seq<(String, String)>, key: Seq<char>, n: int)
    requires
        0 <= n <= pairs.len(),
    ensures
        ({
            let map = pairs_upto(pairs, n);
            &&& map.dom().contains(key) <==> exists|i: int|
                0 <= i < n && (#[trigger] pairs[i]).0@ == key
            &&& forall|i: int|
                #![trigger pairs[i]]
                0 <= i < n && pairs[i].0@ == key && (forall|j: int|
                    #![trigger pairs[j]]
                    i < j < n ==> pairs[j].0@ != key) ==> map[key] == pairs[i].1@
        }),
    decreases n,
{
    if n > 0 {
        law_mapping_comes_from_pairs(pairs, key, n - 1);
        let last = pairs[n - 1];
        assert forall|i: int|
            #![trigger pairs[i]]
            0 <= i < n && pairs[i].0@ == key && (forall|j: int|
                #![trigger pairs[j]]
                i < j < n ==> pairs[j].0@ != key) implies pairs_upto(pairs, n)[key]
            == pairs[i].1@ by {
            if i < n - 1 {
                assert(pairs[n - 1].0@ != key);
            }
        }
    }
}

/// The cause that is given of several loads is that of the first one that failed.
pub proof fn law_first_failure_is_first(failures: Seq<Option<Seq<char>>>, i: int)
    requires
        0 <= i < failures.len(),
        failures[i] is Some,
        forall|j: int| 0 <= j < i ==> #[trigger] failures[j] is None,
    ensures
        first_failure(failures) == failures[i],
    decreases i,
{
    if i > 0 {
        assert(failures[0] is None);
        let rest = failures.drop_first();
        assert forall|j: int| 0 <= j < i - 1 implies #[trigger] rest[j] is None by {
            assert(rest[j] == failures[j + 1]);
        }
        law_first_failure_is_first(rest, i - 1);
    }
}

/// A load has a cause of failure exactly if it failed.
pub proof fn law_load_failure_is_its_cause<T>(load: Result<T, String>)
    ensures
        load is Ok <==> load_failure(load) is None,
        load is Err ==> load_failure(load) == Some(load->Err_0@),
{
}

/// There is at most one first error, and there is one exactly if there is an error.
pub proof fn law_one_first_error<T>(results: Seq<Result<T, String>>, a: int, b: int)
    ensures
        first_error(results, a) && first_error(results, b) ==> a == b,
        first_error(results, a) ==> 0 <= a < results.len() && results[a] is Err,
        first_error(results, a) && 0 <= b < a ==> results[b] is Ok,
        0 <= a < results.len() && results[a] is Err && (forall|i: int|
            0 <= i < a ==> #[trigger] results[i] is Ok) ==> first_error(results, a),
{
}

/// A command that reads a list gives its name, the key and both ends, each as one argument.
pub proof fn law_list_command_arguments(key: Seq<char>, start: Seq<char>, stop: Seq<char>)
    ensures
        lrange_args(key, start, stop).len() == 4,
        lrange_args(key, start, stop)[0] == encode_utf8("LRANGE"@),
        lrange_args(key, start, stop)[1] == encode_utf8(key),
        lrange_args(key, start, stop)[2] == encode_utf8(start),
        lrange_args(key, start, stop)[3] == encode_utf8(stop),
{
}

/// Items stand for their bytes, one for one.
pub proof fn law_items_are_their_bytes(items: Seq<Vec<u8>>, i: int)
    requires
        0 <= i < items.len(),
    ensures
        item_contents(items).len() == items.len(),
        item_contents(items)[i] == items[i]@,
{
}

} // verus!
