use std::collections::{BTreeMap, BTreeSet, VecDeque};
use std::sync::mpsc::sync_channel;

use bytes::Bytes;
use nautilus_cache::adapter::{Order, Position, RedisCacheDatabaseAdapter, TriggerType};
use nautilus_cache::command::{DatabaseCommand, DatabaseOperation};
use nautilus_cache::config::{CacheConfig, DatabaseConfig, SerializationEncoding};
use nautilus_cache::database::{BulkRead, RedisCacheDatabase};
use nautilus_cache::error::CacheFault;
use nautilus_cache::plan::WritePlan;
use nautilus_cache::routing::drain_buffer;
use redis::{Arg, Pipeline};

/// The data that Redis holds.
#[derive(Default)]
struct Store {
    strings: BTreeMap<String, String>,
    lists: BTreeMap<String, Vec<String>>,
    sets: BTreeMap<String, BTreeSet<String>>,
    hashes: BTreeMap<String, BTreeMap<String, String>>,
}

fn pipe_args(pipe: &Pipeline) -> Vec<Vec<String>> {
    let mut commands: Vec<Vec<String>> = Vec::new();
    for cmd in pipe.cmd_iter() {
        let mut parts: Vec<String> = Vec::new();
        for arg in cmd.args_iter() {
            if let Arg::Simple(bytes) = arg {
                parts.push(String::from_utf8(bytes.to_vec()).unwrap());
            }
        }
        commands.push(parts);
    }
    commands
}

impl Store {
    fn apply(&mut self, args: &[String]) {
        let key = args[1].clone();
        match args[0].as_str() {
            "SET" => {
                self.strings.insert(key, args[2].clone());
            }
            "RPUSH" => self.lists.entry(key).or_default().push(args[2].clone()),
            "RPUSHX" => {
                if let Some(list) = self.lists.get_mut(&key) {
                    list.push(args[2].clone());
                }
            }
            "SADD" => {
                self.sets.entry(key).or_default().insert(args[2].clone());
            }
            "SREM" => {
                if let Some(set) = self.sets.get_mut(&key) {
                    set.remove(&args[2]);
                }
            }
            "HSET" => {
                self.hashes.entry(key).or_default().insert(args[2].clone(), args[3].clone());
            }
            "HDEL" => {
                if let Some(hash) = self.hashes.get_mut(&key) {
                    hash.remove(&args[2]);
                }
            }
            "DEL" => {
                self.strings.remove(&key);
                self.lists.remove(&key);
                self.sets.remove(&key);
                self.hashes.remove(&key);
            }
            other => panic!("unexpected command {other}"),
        }
    }

    fn carry_out(&mut self, plan: WritePlan) {
        let mut buffer: VecDeque<DatabaseCommand> = VecDeque::new();
        for write in plan.writes {
            buffer.push_back(write.command);
        }
        let batch = drain_buffer("trader-T-1", &mut buffer);
        assert!(batch.errors.is_empty());
        for args in pipe_args(&batch.pipeline) {
            self.apply(&args);
        }
    }

    fn has(&self, index: &str, id: &str) -> bool {
        self.sets.get(&format!("trader-T-1:{index}")).is_some_and(|set| set.contains(id))
    }

    fn mapped(&self, index: &str, id: &str) -> Option<&str> {
        let hash = self.hashes.get(&format!("trader-T-1:{index}"))?;
        hash.get(id).map(|value| value.as_str())
    }

    fn list(&self, key: &str) -> Option<&Vec<String>> {
        self.lists.get(&format!("trader-T-1:{key}"))
    }
}

fn config() -> CacheConfig {
    CacheConfig {
        database: Some(DatabaseConfig { url: "redis://localhost".to_string() }),
        ..Default::default()
    }
}

fn adapter() -> RedisCacheDatabaseAdapter {
    let database = RedisCacheDatabase::new("T-1", "abc", &config()).unwrap();
    RedisCacheDatabaseAdapter { encoding: SerializationEncoding::Json, database }
}

fn encoded(text: &str) -> Result<Vec<u8>, String> {
    Ok(text.as_bytes().to_vec())
}

fn order() -> Order {
    Order {
        client_order_id: "O-1".to_string(),
        venue_order_id: None,
        position_id: None,
        emulation_trigger: None,
        is_inflight: false,
        is_open: false,
        is_closed: false,
    }
}

fn lines(plan: &WritePlan) -> Vec<String> {
    let mut lines: Vec<String> = Vec::new();
    for write in &plan.writes {
        let op = match write.command.op_type {
            DatabaseOperation::Insert => "insert",
            DatabaseOperation::Update => "update",
            DatabaseOperation::Delete => "delete",
            DatabaseOperation::Flush(_) => "flush",
            DatabaseOperation::Close => "close",
        };
        let mut line = format!("{op} {}", write.command.key.clone().unwrap_or_default());
        for value in write.command.payload.clone().unwrap_or_default() {
            line = format!("{line} {}", String::from_utf8(value.to_vec()).unwrap());
        }
        lines.push(line);
    }
    lines
}

#[test]
fn a_database_takes_its_settings_from_the_configuration() {
    let mut config = config();
    config.use_instance_id = true;
    config.bulk_read_batch_size = Some(2);
    config.encoding = SerializationEncoding::Json;
    let database = RedisCacheDatabase::new("T-1", "abc", &config).unwrap();
    assert_eq!(database.get_trader_key(), "trader-T-1:abc");
    assert_eq!(database.get_encoding(), SerializationEncoding::Json);
    assert_eq!(database.trader_id, "T-1");
    assert_eq!(database.keys("orders:*"), "trader-T-1:abc:orders:*");
    let keys = vec!["a".to_string(), "b".to_string()];
    assert!(matches!(
        database.read_bulk(keys),
        BulkRead::Batched { keys, batch_size: 2 } if keys == vec!["a", "b"]
    ));
    let plain = RedisCacheDatabase::new("T-1", "abc", &self::config()).unwrap();
    assert!(matches!(plain.read_bulk(Vec::new()), BulkRead::Whole { keys } if keys.is_empty()));
    assert!(matches!(
        RedisCacheDatabase::new("T-1", "abc", &CacheConfig::default()),
        Err(CacheFault::NoDatabaseConfig)
    ));
}

#[test]
fn a_database_is_closed_once() {
    let mut adapter = adapter();
    let command = adapter.close().unwrap();
    assert!(matches!(command.op_type, DatabaseOperation::Close));
    assert!(command.key.is_none());
    assert!(adapter.close().is_none());
    assert!(adapter.database.close().is_none());
    assert_eq!(adapter.database.get_trader_key(), "trader-T-1");
}

#[test]
fn flush_waits_for_its_answer() {
    let adapter = adapter();
    let (reply, answer) = sync_channel(1);
    let plan = adapter.flush(reply);
    assert_eq!(lines(&plan), vec!["flush "]);
    for write in plan.writes {
        if let DatabaseOperation::Flush(reply) = write.command.op_type {
            reply.send(()).unwrap();
        }
    }
    assert!(answer.recv().is_ok());
    let (reply, answer) = sync_channel(1);
    let plan = adapter.database.flushdb(reply);
    assert_eq!(lines(&plan), vec!["flush "]);
    assert_eq!(
        plan.resolve(Some((0, "closed".to_string()))).unwrap_err().message(),
        "Failed to flush database: closed"
    );
    for write in plan.writes {
        if let DatabaseOperation::Flush(reply) = write.command.op_type {
            reply.send(()).unwrap();
        }
    }
    assert!(answer.recv().is_ok());
    assert!(adapter.database.flush_result(None).is_ok());
    assert_eq!(
        adapter.database.flush_result(Some("gone".to_string())).unwrap_err().message(),
        "Failed to flush database: gone"
    );
}

#[test]
fn plain_commands_are_planned_as_given() {
    let database = adapter().database;
    let payload = || Some(vec![Bytes::from("1")]);
    assert_eq!(lines(&database.insert("a:b".to_string(), payload())), vec!["insert a:b 1"]);
    assert_eq!(lines(&database.update("a:b".to_string(), payload())), vec!["update a:b 1"]);
    assert_eq!(lines(&database.delete("a:b".to_string(), None)), vec!["delete a:b"]);
    let plan = database.insert("a:b".to_string(), None);
    assert_eq!(
        plan.resolve(Some((0, "closed".to_string()))).unwrap_err().message(),
        "Failed to send to channel: closed"
    );
    assert!(plan.resolve(None).is_ok());
}

#[test]
fn values_are_stored_under_their_collections() {
    let a = adapter();
    assert_eq!(lines(&a.add("k", Bytes::from("v"))), vec!["insert general:k v"]);
    assert_eq!(lines(&a.add_currency("USD", encoded("v"))), vec!["insert currencies:USD v"]);
    assert_eq!(
        lines(&a.add_instrument("X.SIM", encoded("v"))),
        vec!["insert instruments:X.SIM v"]
    );
    assert_eq!(lines(&a.add_synthetic("Y.SYN", encoded("v"))), vec!["insert synthetics:Y.SYN v"]);
    assert_eq!(lines(&a.add_quote("X.SIM", encoded("v"))), vec!["insert quotes:X.SIM v"]);
    assert_eq!(lines(&a.add_trade("X.SIM", encoded("v"))), vec!["insert trades:X.SIM v"]);
    assert_eq!(
        lines(&a.add_funding_rate("X.SIM", encoded("v"))),
        vec!["insert funding_rates:X.SIM v"]
    );
    assert_eq!(
        lines(&a.add_bar("X.SIM-1-MINUTE", encoded("v"))),
        vec!["insert bars:X.SIM-1-MINUTE v"]
    );
    assert_eq!(lines(&a.add_signal("s", encoded("v"))), vec!["insert signals:s v"]);
    assert_eq!(lines(&a.add_custom_data("d", encoded("v"))), vec!["insert custom_data:d v"]);
    assert_eq!(
        lines(&a.add_order_snapshot("O-1", encoded("v"))),
        vec!["insert snapshots:orders:O-1 v"]
    );
    assert_eq!(
        lines(&a.add_position_snapshot("P-1", encoded("v"))),
        vec!["insert snapshots:positions:P-1 v"]
    );
    assert_eq!(
        lines(&a.snapshot_order_state("O-1", encoded("v"))),
        vec!["insert snapshots:orders:O-1 v"]
    );
    assert_eq!(
        lines(&a.snapshot_position_state("P-1", encoded("v"))),
        vec!["insert snapshots:positions:P-1 v"]
    );
    assert_eq!(
        lines(&a.add_account("A-1", Some(encoded("v")))),
        vec!["insert accounts:A-1 v"]
    );
    assert_eq!(
        lines(&a.update_account("A-1", Some(encoded("v")))),
        vec!["update accounts:A-1 v"]
    );
    assert_eq!(lines(&a.heartbeat(1_700_000_000_000_000_000)), vec![
        "insert health:heartbeat 1700000000000000000"
    ]);
    assert_eq!(
        lines(&a.index_venue_order_id("O-1", "V-1")),
        vec!["insert index:order_ids O-1 V-1"]
    );
    assert_eq!(
        lines(&a.index_order_position("O-1", "P-1")),
        vec!["insert index:order_position O-1 P-1"]
    );
    assert_eq!(lines(&a.delete_actor("A-1")), vec!["delete actors:A-1:state"]);
    assert_eq!(lines(&a.delete_strategy("S-1")), vec!["delete strategies:S-1:state"]);
}

#[test]
fn some_requests_send_nothing() {
    let a = adapter();
    for plan in [
        a.update_actor(),
        a.update_strategy(),
        a.add_order_book("X.SIM"),
        a.delete_account_event("A-1", "E-1"),
    ] {
        assert!(plan.writes.is_empty());
        assert!(plan.resolve(None).is_ok());
    }
}

#[test]
fn a_request_that_cannot_be_encoded_sends_nothing() {
    let a = adapter();
    let bad = || Err("bad".to_string());
    let plans = vec![
        a.add_currency("USD", bad()),
        a.add_quote("X.SIM", bad()),
        a.add_account("A-1", Some(bad())),
        a.update_account("A-1", Some(bad())),
        a.add_order(&order(), None, bad()),
        a.update_order(&order(), bad()),
        a.update_position(
            &Position { id: "P-1".to_string(), is_open: true, is_closed: false },
            Some(bad()),
        ),
    ];
    for plan in plans {
        assert!(plan.writes.is_empty());
        assert_eq!(
            plan.resolve(None).unwrap_err(),
            CacheFault::Serialization { cause: "bad".to_string() }
        );
    }
}

#[test]
fn accounts_and_positions_need_events() {
    let a = adapter();
    assert_eq!(
        a.add_account("A-1", None).resolve(None).unwrap_err().message(),
        "Account A-1 has no events"
    );
    assert_eq!(
        a.update_account("A-1", None).resolve(None).unwrap_err().message(),
        "Account A-1 has no events"
    );
    let position = Position { id: "P-1".to_string(), is_open: true, is_closed: false };
    assert_eq!(
        a.update_position(&position, None).resolve(None).unwrap_err().message(),
        "Position P-1 has no events"
    );
    let plan = a.add_position("P-1", None);
    assert_eq!(lines(&plan), vec!["delete positions:P-1"]);
    assert_eq!(plan.resolve(None).unwrap_err().message(), "Position P-1 has no events");
    let plan = a.add_position("P-1", Some(Err("bad".to_string())));
    assert_eq!(lines(&plan), vec!["delete positions:P-1"]);
    assert_eq!(plan.resolve(None).unwrap_err().message(), "bad");
}

#[test]
fn the_error_names_the_write_that_was_not_sent() {
    let a = adapter();
    let plan = a.delete_order("O-1");
    let said = |i: usize| plan.resolve(Some((i, "x".to_string()))).unwrap_err().message();
    assert_eq!(plan.writes.len(), 9);
    assert_eq!(said(0), "Failed to send delete order command: x");
    assert_eq!(said(1), "Failed to send delete order index command: x");
    assert_eq!(said(6), "Failed to send delete order index command: x");
    assert_eq!(said(7), "Failed to send delete order hash index command: x");
}

#[test]
fn a_new_order_is_indexed() {
    let a = adapter();
    let mut store = Store::default();
    let plain = order();
    store.carry_out(a.add_order(&plain, None, encoded("e1")));
    assert_eq!(store.list("orders:O-1").unwrap(), &vec!["e1"]);
    assert!(store.has("index:orders", "O-1"));
    assert!(!store.has("index:orders_emulated", "O-1"));
    assert!(store.mapped("index:order_position", "O-1").is_none());
    assert!(store.mapped("index:order_client", "O-1").is_none());

    let mut full = order();
    full.client_order_id = "O-2".to_string();
    full.emulation_trigger = Some(TriggerType::Active);
    full.position_id = Some("P-1".to_string());
    store.carry_out(a.add_order(&full, Some("SIM"), encoded("e2")));
    assert!(store.has("index:orders_emulated", "O-2"));
    assert_eq!(store.mapped("index:order_position", "O-2"), Some("P-1"));
    assert_eq!(store.mapped("index:order_client", "O-2"), Some("SIM"));

    let mut untriggered = order();
    untriggered.client_order_id = "O-3".to_string();
    untriggered.emulation_trigger = Some(TriggerType::NoTrigger);
    store.carry_out(a.add_order(&untriggered, None, encoded("e3")));
    assert!(!store.has("index:orders_emulated", "O-3"));
}

#[test]
fn an_order_update_follows_the_state_of_the_order() {
    let a = adapter();
    let mut store = Store::default();
    let mut o = order();
    store.carry_out(a.update_order(&o, encoded("early")));
    assert!(store.list("orders:O-1").is_none());

    o.emulation_trigger = Some(TriggerType::Active);
    store.carry_out(a.add_order(&o, None, encoded("e1")));
    o.is_inflight = true;
    store.carry_out(a.update_order(&o, encoded("e2")));
    assert!(store.has("index:orders_inflight", "O-1"));
    assert!(store.has("index:orders_emulated", "O-1"));

    o.is_inflight = false;
    o.is_open = true;
    o.venue_order_id = Some("V-1".to_string());
    store.carry_out(a.update_order(&o, encoded("e3")));
    assert!(!store.has("index:orders_inflight", "O-1"));
    assert!(store.has("index:orders_open", "O-1"));
    assert!(!store.has("index:orders_closed", "O-1"));
    assert_eq!(store.mapped("index:order_ids", "O-1"), Some("V-1"));

    o.is_open = false;
    o.is_closed = true;
    store.carry_out(a.update_order(&o, encoded("e4")));
    assert!(!store.has("index:orders_open", "O-1"));
    assert!(store.has("index:orders_closed", "O-1"));
    assert!(!store.has("index:orders_emulated", "O-1"));
    assert_eq!(store.list("orders:O-1").unwrap(), &vec!["e1", "e2", "e3", "e4"]);
}

#[test]
fn an_order_update_says_which_write_was_not_sent() {
    let a = adapter();
    let mut o = order();
    o.is_closed = true;
    o.emulation_trigger = Some(TriggerType::NoTrigger);
    let plan = a.update_order(&o, encoded("e"));
    assert_eq!(
        lines(&plan),
        vec![
            "update orders:O-1 e",
            "delete index:orders_inflight O-1",
            "delete index:orders_open O-1",
            "insert index:orders_closed O-1",
            "delete index:orders_emulated O-1",
        ]
    );
    let said: Vec<String> = (0..5)
        .map(|i| plan.resolve(Some((i, "x".to_string()))).unwrap_err().message())
        .collect();
    assert_eq!(
        said,
        vec![
            "Failed to send update_order command: x",
            "Failed to send inflight index remove: x",
            "Failed to send open index remove: x",
            "Failed to send closed index command: x",
            "Failed to send emulated index remove: x",
        ]
    );
}

#[test]
fn a_deleted_order_leaves_nothing_behind() {
    let a = adapter();
    let mut store = Store::default();
    let mut o = order();
    o.position_id = Some("P-1".to_string());
    o.venue_order_id = Some("V-1".to_string());
    o.emulation_trigger = Some(TriggerType::Active);
    o.is_inflight = true;
    o.is_open = true;
    store.carry_out(a.add_order(&o, Some("SIM"), encoded("e1")));
    store.carry_out(a.update_order(&o, encoded("e2")));
    let mut other = order();
    other.client_order_id = "O-2".to_string();
    store.carry_out(a.add_order(&other, None, encoded("f1")));
    store.carry_out(a.delete_order("O-1"));
    assert!(store.list("orders:O-1").is_none());
    for index in [
        "index:orders",
        "index:orders_open",
        "index:orders_closed",
        "index:orders_emulated",
        "index:orders_inflight",
    ] {
        assert!(!store.has(index, "O-1"));
    }
    for index in ["index:order_ids", "index:order_position", "index:order_client"] {
        assert!(store.mapped(index, "O-1").is_none());
    }
    assert_eq!(store.list("orders:O-2").unwrap(), &vec!["f1"]);
    assert!(store.has("index:orders", "O-2"));
}

#[test]
fn a_position_is_open_or_closed() {
    let a = adapter();
    let mut store = Store::default();
    let open = Position { id: "P-1".to_string(), is_open: true, is_closed: false };
    let closed = Position { id: "P-1".to_string(), is_open: false, is_closed: true };
    store.carry_out(a.add_position("P-1", Some(encoded("e1"))));
    assert!(store.has("index:positions", "P-1"));
    assert!(store.has("index:positions_open", "P-1"));
    store.carry_out(a.update_position(&closed, Some(encoded("e2"))));
    assert!(!store.has("index:positions_open", "P-1"));
    assert!(store.has("index:positions_closed", "P-1"));
    store.carry_out(a.update_position(&open, Some(encoded("e3"))));
    assert!(store.has("index:positions_open", "P-1"));
    assert!(!store.has("index:positions_closed", "P-1"));
    assert_eq!(store.list("positions:P-1").unwrap(), &vec!["e1", "e2", "e3"]);
    store.carry_out(a.add_position("P-1", Some(encoded("n1"))));
    assert_eq!(store.list("positions:P-1").unwrap(), &vec!["n1"]);
    store.carry_out(a.delete_position("P-1"));
    assert!(store.list("positions:P-1").is_none());
    for index in ["index:positions", "index:positions_open", "index:positions_closed"] {
        assert!(!store.has(index, "P-1"));
    }
}

#[test]
fn a_stored_value_replaces_or_follows_what_was_there() {
    let a = adapter();
    let mut store = Store::default();
    store.carry_out(a.heartbeat(1));
    store.carry_out(a.heartbeat(2));
    assert_eq!(store.strings.get("trader-T-1:health:heartbeat").unwrap(), "2");
    store.carry_out(a.add_quote("X.SIM", encoded("q1")));
    store.carry_out(a.add_quote("X.SIM", encoded("q2")));
    store.carry_out(a.add_quote("Y.SIM", encoded("q3")));
    assert_eq!(store.list("quotes:X.SIM").unwrap(), &vec!["q1", "q2"]);
    assert_eq!(store.list("quotes:Y.SIM").unwrap(), &vec!["q3"]);
    store.carry_out(a.update_account("A-1", Some(encoded("a0"))));
    assert!(store.list("accounts:A-1").is_none());
    store.carry_out(a.add_account("A-1", Some(encoded("a1"))));
    store.carry_out(a.update_account("A-1", Some(encoded("a2"))));
    assert_eq!(store.list("accounts:A-1").unwrap(), &vec!["a1", "a2"]);
}

#[test]
fn a_closed_position_that_is_added_again_stays_in_the_closed_index() {
    let a = adapter();
    let mut store = Store::default();
    let closed = Position { id: "P-1".to_string(), is_open: false, is_closed: true };
    store.carry_out(a.add_position("P-1", Some(encoded("e1"))));
    store.carry_out(a.update_position(&closed, Some(encoded("e2"))));
    store.carry_out(a.add_position("P-1", Some(encoded("n1"))));
    assert!(store.has("index:positions_open", "P-1"));
    assert!(store.has("index:positions_closed", "P-1"));
}

#[test]
fn an_order_is_never_open_and_closed() {
    let a = adapter();
    for flags in [(true, false), (false, true), (true, true), (false, false)] {
        let mut store = Store::default();
        let mut o = order();
        store.carry_out(a.add_order(&o, None, encoded("e1")));
        for (is_open, is_closed) in [(true, false), flags] {
            o.is_open = is_open;
            o.is_closed = is_closed;
            store.carry_out(a.update_order(&o, encoded("e")));
            let open = store.has("index:orders_open", "O-1");
            let closed = store.has("index:orders_closed", "O-1");
            assert!(!(open && closed));
        }
    }
}

#[test]
fn a_request_leaves_other_orders_and_positions_alone() {
    let a = adapter();
    let mut store = Store::default();
    let mut other = order();
    other.client_order_id = "O-2".to_string();
    other.position_id = Some("P-2".to_string());
    other.venue_order_id = Some("V-2".to_string());
    other.emulation_trigger = Some(TriggerType::Active);
    other.is_inflight = true;
    other.is_open = true;
    store.carry_out(a.add_order(&other, Some("SIM"), encoded("f1")));
    store.carry_out(a.update_order(&other, encoded("f2")));
    store.carry_out(a.add_position("P-2", Some(encoded("g1"))));

    let mut o = order();
    store.carry_out(a.add_order(&o, None, encoded("e1")));
    o.is_closed = true;
    o.emulation_trigger = Some(TriggerType::NoTrigger);
    store.carry_out(a.update_order(&o, encoded("e2")));
    store.carry_out(a.delete_order("O-1"));
    store.carry_out(a.add_position("P-1", Some(encoded("h1"))));
    let closed = Position { id: "P-1".to_string(), is_open: false, is_closed: true };
    store.carry_out(a.update_position(&closed, Some(encoded("h2"))));
    store.carry_out(a.delete_position("P-1"));

    assert_eq!(store.list("orders:O-2").unwrap(), &vec!["f1", "f2"]);
    for index in [
        "index:orders",
        "index:orders_open",
        "index:orders_emulated",
        "index:orders_inflight",
    ] {
        assert!(store.has(index, "O-2"));
    }
    assert!(!store.has("index:orders_closed", "O-2"));
    assert_eq!(store.mapped("index:order_ids", "O-2"), Some("V-2"));
    assert_eq!(store.mapped("index:order_position", "O-2"), Some("P-2"));
    assert_eq!(store.mapped("index:order_client", "O-2"), Some("SIM"));
    assert_eq!(store.list("positions:P-2").unwrap(), &vec!["g1"]);
    assert!(store.has("index:positions", "P-2"));
    assert!(store.has("index:positions_open", "P-2"));
    assert!(!store.has("index:positions_closed", "P-2"));
}
