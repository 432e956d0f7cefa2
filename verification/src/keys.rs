//! The key schema: collections, indexes, and the parts of a key.

use vstd::prelude::*;
use vstd::string::*;
use crate::config::CacheConfig;
use crate::error::{CacheError, CacheFault};
use crate::text::{concat, find_char, find_str, first_occurrence, join, joined, occurs_at};

verus! {

// Collections
pub const INDEX: &'static str = "index";

pub const GENERAL: &'static str = "general";

pub const CURRENCIES: &'static str = "currencies";

pub const INSTRUMENTS: &'static str = "instruments";

pub const SYNTHETICS: &'static str = "synthetics";

pub const ACCOUNTS: &'static str = "accounts";

pub const ORDERS: &'static str = "orders";

pub const POSITIONS: &'static str = "positions";

pub const ACTORS: &'static str = "actors";

pub const STRATEGIES: &'static str = "strategies";

pub const SNAPSHOTS: &'static str = "snapshots";

pub const HEALTH: &'static str = "health";

pub const QUOTES: &'static str = "quotes";

pub const TRADES: &'static str = "trades";

pub const BARS: &'static str = "bars";

pub const SIGNALS: &'static str = "signals";

pub const CUSTOM_DATA: &'static str = "custom_data";

pub const FUNDING_RATES: &'static str = "funding_rates";

// Indexes
pub const INDEX_ORDER_IDS: &'static str = "index:order_ids";

pub const INDEX_ORDER_POSITION: &'static str = "index:order_position";

pub const INDEX_ORDER_CLIENT: &'static str = "index:order_client";

pub const INDEX_ORDERS: &'static str = "index:orders";

pub const INDEX_ORDERS_OPEN: &'static str = "index:orders_open";

pub const INDEX_ORDERS_CLOSED: &'static str = "index:orders_closed";

pub const INDEX_ORDERS_EMULATED: &'static str = "index:orders_emulated";

pub const INDEX_ORDERS_INFLIGHT: &'static str = "index:orders_inflight";

pub const INDEX_POSITIONS: &'static str = "index:positions";

pub const INDEX_POSITIONS_OPEN: &'static str = "index:positions_open";

pub const INDEX_POSITIONS_CLOSED: &'static str = "index:positions_closed";

/// The segment that marks an index inside a full key.
pub const INDEX_MARKER: &'static str = ":index:";

/// The key under which everything of one trader instance is stored.
pub open spec fn trader_key_of(
    trader_id: Seq<char>,
    instance_id: Seq<char>,
    use_trader_prefix: bool,
    use_instance_id: bool,
) -> Seq<char> {
    let head = if use_trader_prefix {
        "trader-"@ + trader_id
    } else {
        trader_id
    };
    if use_instance_id {
        joined(head, instance_id)
    } else {
        head
    }
}

/// The collection that a key belongs to: what stands before its first delimiter.
pub open spec fn collection_of(key: Seq<char>) -> Option<Seq<char>> {
    match key.index_of_first(':') {
        Some(i) => Some(key.take(i)),
        None => None,
    }
}

/// The index that a full key names: what follows the delimiter at the first index marker.
pub open spec fn index_of(key: Seq<char>) -> Option<Seq<char>> {
    if exists|i: int| first_occurrence(key, INDEX_MARKER@, i) {
        let i = choose|i: int| first_occurrence(key, INDEX_MARKER@, i);
        Some(key.skip(i + 1))
    } else {
        None
    }
}

/// Whether no index marker starts inside `trader_key` when a delimiter follows it.
pub open spec fn marker_free(trader_key: Seq<char>) -> bool {
    forall|i: int| !occurs_at(trader_key + seq![':'], INDEX_MARKER@, i)
}

/// Returns the key under which everything of one trader instance is stored.
pub fn get_trader_key(trader_id: &str, instance_id: &str, config: &CacheConfig) -> (key: String)
    ensures
        key@ == trader_key_of(
            trader_id@,
            instance_id@,
            config.use_trader_prefix,
            config.use_instance_id,
        ),
{
    let head = if config.use_trader_prefix {
        concat("trader-", trader_id)
    } else {
        trader_id.to_owned()
    };
    if config.use_instance_id {
        join(&head, instance_id)
    } else {
        head
    }
}

/// Returns the collection that `key` belongs to.
///
/// # Errors
///
/// Returns an error if `key` holds no delimiter.
pub fn get_collection_key(key: &str) -> (r: Result<&str, CacheError>)
    ensures
        match collection_of(key@) {
            Some(collection) => r is Ok && r->Ok_0@ == collection,
            None => r is Err && r->Err_0@ == (CacheFault::MissingDelimiter { key: key@ }),
        },
{
    proof {
        key@.index_of_first_ensures(':');
    }
    match find_char(key, ':') {
        Some(i) => Ok(key.substring_char(0, i)),
        None => Err(CacheFault::MissingDelimiter { key: key.to_owned() }),
    }
}

/// Returns the index that the full key `key` names.
///
/// # Errors
///
/// Returns an error if no index segment stands in `key`.
pub fn get_index_key(key: &str) -> (r: Result<&str, CacheError>)
    ensures
        match index_of(key@) {
            Some(index) => r is Ok && r->Ok_0@ == index,
            None => r is Err && r->Err_0@ == (CacheFault::InvalidIndexKey { key: key@ }),
        },
{
    match find_str(key, INDEX_MARKER) {
        Some(i) => {
            proof {
                lemma_first_occurrence_unique(key@, INDEX_MARKER@, i as int);
                reveal_strlit(":index:");
            }
            let n: usize = key.unicode_len();
            Ok(key.substring_char(i + 1, n))
        },
        None => Err(CacheFault::InvalidIndexKey { key: key.to_owned() }),
    }
}

proof fn lemma_first_occurrence_unique(s: Seq<char>, pattern: Seq<char>, i: int)
    requires
        first_occurrence(s, pattern, i),
    ensures
        forall|j: int| first_occurrence(s, pattern, j) ==> j == i,
{
}

/// A key of an index, prefixed with a trader key in which no index marker starts, names that
/// index.
pub proof fn law_index_of_prefixed_key(trader_key: Seq<char>, name: Seq<char>)
    requires
        marker_free(trader_key),
    ensures
        index_of(joined(trader_key, "index:"@ + name)) == Some("index:"@ + name),
{
    let tail = "index:"@ + name;
    let key = joined(trader_key, tail);
    let n = trader_key.len() as int;
    reveal_strlit("index:");
    reveal_strlit(":index:");
    assert(key.subrange(n, n + 7) =~= INDEX_MARKER@);
    assert forall|j: int| 0 <= j < n implies !occurs_at(key, INDEX_MARKER@, j) by {
        if occurs_at(key, INDEX_MARKER@, j) {
            let window = key.subrange(j, j + 7);
            if j + 7 <= n + 1 {
                assert((trader_key + seq![':']).subrange(j, j + 7) =~= window);
                assert(occurs_at(trader_key + seq![':'], INDEX_MARKER@, j));
            } else {
                assert(window[n - j] == key[n]);
                assert(key[n] == ':');
                assert(INDEX_MARKER@[n - j] == ':');
            }
        }
    }
    assert(first_occurrence(key, INDEX_MARKER@, n));
    lemma_first_occurrence_unique(key, INDEX_MARKER@, n);
    assert(key.skip(n + 1) =~= tail);
}

/// The collection of a joined key is its head, when no delimiter stands in the head.
pub proof fn law_collection_of_joined_key(collection: Seq<char>, rest: Seq<char>)
    requires
        !collection.contains(':'),
    ensures
        collection_of(joined(collection, rest)) == Some(collection),
{
    let key = joined(collection, rest);
    let n = collection.len() as int;
    key.index_of_first_ensures(':');
    assert(key[n] == ':');
    assert(key.contains(':'));
    let i = key.index_of_first(':')->0;
    if i < n {
        assert(collection[i] == key[i]);
        assert(collection.contains(collection[i]));
    }
    assert(key.take(n) =~= collection);
}

/// The collection of a key is all that stands before its first delimiter, and a key has none exactly
/// if it has no delimiter.
pub proof fn law_collection_ends_at_first_delimiter(key: Seq<char>)
    ensures
        match collection_of(key) {
            Some(collection) => {
                &&& !collection.contains(':')
                &&& key == joined(collection, key.skip(collection.len() as int + 1))
            },
            None => !key.contains(':'),
        },
{
    key.index_of_first_ensures(':');
    if let Some(i) = key.index_of_first(':') {
        assert(key =~= joined(key.take(i), key.skip(i + 1)));
    }
}

/// The trader key is the trader ID, with `trader-` before it and the instance ID behind it exactly
/// where these are asked for.
pub proof fn law_trader_key_forms(trader_id: Seq<char>, instance_id: Seq<char>)
    ensures
        trader_key_of(trader_id, instance_id, false, false) == trader_id,
        trader_key_of(trader_id, instance_id, true, false) == "trader-"@ + trader_id,
        trader_key_of(trader_id, instance_id, false, true) == trader_id + seq![':'] + instance_id,
        trader_key_of(trader_id, instance_id, true, true) == "trader-"@ + trader_id + seq![':']
            + instance_id,
{
    assert(trader_key_of(trader_id, instance_id, true, true) =~= "trader-"@ + trader_id + seq![':']
        + instance_id);
}

proof fn lemma_first_occurrence_exists(s: Seq<char>, pattern: Seq<char>, i: int)
    requires
        occurs_at(s, pattern, i),
    ensures
        exists|j: int| first_occurrence(s, pattern, j),
    decreases i,
{
    if exists|j: int| 0 <= j < i && occurs_at(s, pattern, j) {
        let j: int = choose|j: int| 0 <= j < i && occurs_at(s, pattern, j);
        lemma_first_occurrence_exists(s, pattern, j);
    } else {
        assert(first_occurrence(s, pattern, i));
    }
}

/// The index that a key names is what stands behind the delimiter of the first index marker, marker
/// included, and a key names none exactly if there is no marker in it.
pub proof fn law_index_starts_at_first_marker(key: Seq<char>)
    ensures
        match index_of(key) {
            Some(index) => {
                let i = key.len() - index.len() - 1;
                &&& occurs_at(key, ":index:"@, i)
                &&& forall|j: int| 0 <= j < i ==> !occurs_at(key, ":index:"@, j)
                &&& key.skip(i + 1) == index
            },
            None => forall|j: int| !occurs_at(key, ":index:"@, j),
        },
{
    reveal_strlit(":index:");
    assert forall|j: int| index_of(key) is None implies !occurs_at(key, ":index:"@, j) by {
        if occurs_at(key, ":index:"@, j) {
            lemma_first_occurrence_exists(key, ":index:"@, j);
        }
    }
}

} // verus!
