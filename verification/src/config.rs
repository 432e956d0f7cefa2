//! Configuration of the cache database.

use vstd::prelude::*;

verus! {

/// How payloads are encoded for storage.
#[derive(Clone, Copy, Debug, PartialEq, Eq, Structural)]
pub enum SerializationEncoding {
    /// Compact binary.
    MsgPack,
    /// Human-readable text.
    Json,
}

/// Where the database is reached.
#[derive(Clone, Debug)]
pub struct DatabaseConfig {
    /// The connection URL.
    pub url: String,
}

/// Configuration of the cache and of the database behind it.
#[derive(Clone, Debug)]
pub struct CacheConfig {
    /// The backing database, if there is one.
    pub database: Option<DatabaseConfig>,
    /// The payload encoding.
    pub encoding: SerializationEncoding,
    /// How long writes are buffered before they are sent, in milliseconds.
    pub buffer_interval_ms: Option<usize>,
    /// How many keys one bulk read asks for at a time.
    pub bulk_read_batch_size: Option<usize>,
    /// Whether the trader key starts with `trader-`.
    pub use_trader_prefix: bool,
    /// Whether the trader key ends with the instance ID.
    pub use_instance_id: bool,
}

impl Default for CacheConfig {
    fn default() -> (r: Self)
        ensures
            r.is_default(),
            r.database is None,
            r.encoding == SerializationEncoding::MsgPack,
            r.buffer_interval_ms is None,
            r.bulk_read_batch_size is None,
            r.use_trader_prefix,
            !r.use_instance_id,
    {
        CacheConfig {
            database: None,
            encoding: SerializationEncoding::MsgPack,
            buffer_interval_ms: None,
            bulk_read_batch_size: None,
            use_trader_prefix: true,
            use_instance_id: false,
        }
    }
}

impl CacheConfig {
    /// Whether nothing is configured: no database, no buffering and no batches, and a trader key of
    /// the prefix and the trader ID.
    pub open spec fn is_default(self) -> bool {
        &&& self.database is None
        &&& self.encoding == SerializationEncoding::MsgPack
        &&& self.buffer_interval_ms is None
        &&& self.bulk_read_batch_size is None
        &&& self.use_trader_prefix
        &&& !self.use_instance_id
    }

    /// The buffer interval in milliseconds, zero when none is configured.
    pub open spec fn buffer_interval(self) -> int {
        match self.buffer_interval_ms {
            Some(ms) => ms as int,
            None => 0,
        }
    }

    /// The buffer interval in milliseconds.
    ///
    /// Zero means that every write is sent at once.
    pub fn buffer_interval_millis(&self) -> (r: u64)
        ensures
            r == self.buffer_interval(),
            self.buffer_interval_ms is None ==> r == 0,
            self.buffer_interval_ms is Some ==> r == self.buffer_interval_ms->0,
    {
        match self.buffer_interval_ms {
            Some(ms) => ms as u64,
            None => 0,
        }
    }
}

} // verus!
