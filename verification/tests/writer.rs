use std::collections::VecDeque;
use std::ops::ControlFlow;
use std::sync::mpsc::sync_channel;

use bytes::Bytes;
use nautilus_cache::command::{DatabaseCommand, DatabaseOperation};
use nautilus_cache::config::{CacheConfig, DatabaseConfig};
use nautilus_cache::error::{CacheFault, DataOperation};
use nautilus_cache::processor::{flushdb_command, CommandProcessor};
use nautilus_cache::routing::{
    delete, delete_from_index, drain_buffer, insert, insert_index, is_drainable, update,
};
use redis::{Arg, Cmd, Pipeline};

const STRINGS: [&str; 7] = [
    "general", "currencies", "instruments", "synthetics", "actors", "strategies", "health",
];

const LISTS: [&str; 10] = [
    "accounts", "orders", "positions", "quotes", "trades", "bars", "signals", "custom_data",
    "funding_rates", "snapshots",
];

const SETS: [&str; 8] = [
    "index:orders", "index:orders_open", "index:orders_closed", "index:orders_emulated",
    "index:orders_inflight", "index:positions", "index:positions_open", "index:positions_closed",
];

const HASHES: [&str; 3] = ["index:order_ids", "index:order_position", "index:order_client"];

fn cmd_text(cmd: &Cmd) -> String {
    let mut parts: Vec<String> = Vec::new();
    for arg in cmd.args_iter() {
        if let Arg::Simple(bytes) = arg {
            parts.push(String::from_utf8(bytes.to_vec()).unwrap());
        }
    }
    parts.join(" ")
}

fn pipe_text(pipe: &Pipeline) -> Vec<String> {
    pipe.cmd_iter().map(cmd_text).collect()
}

fn bytes(text: &str) -> Bytes {
    Bytes::from(text.to_string())
}

fn command(op: DatabaseOperation, key: &str, payload: Option<Vec<Bytes>>) -> DatabaseCommand {
    DatabaseCommand::new(op, key.to_string(), payload)
}

fn config(interval: Option<usize>) -> CacheConfig {
    CacheConfig {
        database: Some(DatabaseConfig { url: "redis://localhost".to_string() }),
        buffer_interval_ms: interval,
        ..Default::default()
    }
}

#[test]
fn inserts_are_routed_by_collection() {
    for collection in STRINGS {
        let mut pipe = Pipeline::new();
        insert(&mut pipe, collection, "t:k", vec![bytes("v")]).unwrap();
        assert_eq!(pipe_text(&pipe), vec!["SET t:k v"]);
    }
    for collection in LISTS {
        let mut pipe = Pipeline::new();
        insert(&mut pipe, collection, "t:k", vec![bytes("v"), bytes("ignored")]).unwrap();
        assert_eq!(pipe_text(&pipe), vec!["RPUSH t:k v"]);
    }
    for index in SETS {
        let mut pipe = Pipeline::new();
        let key = format!("t:{index}");
        insert(&mut pipe, "index", &key, vec![bytes("O-1")]).unwrap();
        assert_eq!(pipe_text(&pipe), vec![format!("SADD {key} O-1")]);
    }
    for index in HASHES {
        let mut pipe = Pipeline::new();
        let key = format!("t:{index}");
        insert(&mut pipe, "index", &key, vec![bytes("O-1"), bytes("V-1")]).unwrap();
        assert_eq!(pipe_text(&pipe), vec![format!("HSET {key} O-1 V-1")]);
    }
}

#[test]
fn updates_are_routed_by_collection() {
    for collection in LISTS {
        let mut pipe = Pipeline::new();
        update(&mut pipe, collection, "t:k", vec![bytes("v")]).unwrap();
        assert_eq!(pipe_text(&pipe), vec!["RPUSHX t:k v"]);
    }
    for collection in STRINGS {
        let mut pipe = Pipeline::new();
        let error = update(&mut pipe, collection, "t:k", vec![bytes("v")]).unwrap_err();
        assert_eq!(
            error.message(),
            format!("Unsupported operation: `update` for collection '{collection}'")
        );
        assert!(pipe.is_empty());
    }
    let mut pipe = Pipeline::new();
    assert_eq!(
        update(&mut pipe, "index", "t:index:orders", vec![bytes("v")]).unwrap_err(),
        CacheFault::UnsupportedOperation {
            operation: DataOperation::Update,
            collection: "index".to_string(),
        }
    );
}

#[test]
fn deletes_are_routed_by_collection() {
    for collection in STRINGS.iter().chain(LISTS.iter()) {
        let mut pipe = Pipeline::new();
        delete(&mut pipe, collection, "t:k", None).unwrap();
        assert_eq!(pipe_text(&pipe), vec!["DEL t:k"]);
    }
    for index in SETS {
        let mut pipe = Pipeline::new();
        let key = format!("t:{index}");
        delete(&mut pipe, "index", &key, Some(vec![bytes("O-1")])).unwrap();
        assert_eq!(pipe_text(&pipe), vec![format!("SREM {key} O-1")]);
    }
    for index in HASHES {
        let mut pipe = Pipeline::new();
        let key = format!("t:{index}");
        delete(&mut pipe, "index", &key, Some(vec![bytes("O-1")])).unwrap();
        assert_eq!(pipe_text(&pipe), vec![format!("HDEL {key} O-1")]);
    }
}

#[test]
fn what_cannot_be_routed_is_an_error() {
    let mut pipe = Pipeline::new();
    assert_eq!(
        insert(&mut pipe, "general", "t:general:k", Vec::new()).unwrap_err(),
        CacheFault::EmptyPayload
    );
    assert_eq!(
        update(&mut pipe, "orders", "t:orders:k", Vec::new()).unwrap_err(),
        CacheFault::EmptyPayload
    );
    assert_eq!(
        insert(&mut pipe, "unknown", "t:unknown:k", vec![bytes("v")]).unwrap_err(),
        CacheFault::UnsupportedOperation {
            operation: DataOperation::Insert,
            collection: "unknown".to_string(),
        }
    );
    assert_eq!(
        delete(&mut pipe, "unknown", "t:unknown:k", None).unwrap_err(),
        CacheFault::UnsupportedOperation {
            operation: DataOperation::Delete,
            collection: "unknown".to_string(),
        }
    );
    assert_eq!(
        insert_index(&mut pipe, "t:index:nothing", &vec![bytes("v")]).unwrap_err(),
        CacheFault::UnknownIndex { index: "index:nothing".to_string() }
    );
    assert_eq!(
        insert_index(&mut pipe, "index:orders", &vec![bytes("v")]).unwrap_err(),
        CacheFault::InvalidIndexKey { key: "index:orders".to_string() }
    );
    assert_eq!(
        delete_from_index(&mut pipe, "t:index:nothing", Some(vec![bytes("v")])).unwrap_err(),
        CacheFault::UnsupportedRemoval { index: "index:nothing".to_string() }
    );
    assert_eq!(
        delete_from_index(&mut pipe, "t:index:orders", None).unwrap_err(),
        CacheFault::MissingDeletePayload { key: "t:index:orders".to_string() }
    );
    assert!(pipe.is_empty());
}

#[test]
fn draining_makes_one_transaction_and_skips_rejected_commands() {
    let mut buffer: VecDeque<DatabaseCommand> = VecDeque::new();
    buffer.push_back(command(DatabaseOperation::Insert, "general:a", Some(vec![bytes("1")])));
    buffer.push_back(DatabaseCommand {
        op_type: DatabaseOperation::Insert,
        key: None,
        payload: Some(vec![bytes("1")]),
    });
    buffer.push_back(command(DatabaseOperation::Insert, "plain", Some(vec![bytes("1")])));
    buffer.push_back(command(DatabaseOperation::Insert, "general:b", None));
    buffer.push_back(command(DatabaseOperation::Update, "orders:O-1", None));
    buffer.push_back(command(DatabaseOperation::Update, "orders:O-1", Some(vec![bytes("2")])));
    buffer.push_back(command(DatabaseOperation::Delete, "orders:O-2", None));

    let batch = drain_buffer("trader-T-1", &mut buffer);

    assert!(buffer.is_empty());
    assert!(batch.pipeline.is_transaction());
    assert_eq!(
        pipe_text(&batch.pipeline),
        vec![
            "SET trader-T-1:general:a 1",
            "RPUSHX trader-T-1:orders:O-1 2",
            "DEL trader-T-1:orders:O-2",
        ]
    );
    assert_eq!(
        batch.errors,
        vec![
            CacheFault::NullKey {
                message: "DatabaseCommand { op_type: Insert, key: None, payload: Some([b\"1\"]) }"
                    .to_string(),
            },
            CacheFault::MissingDelimiter { key: "plain".to_string() },
            CacheFault::NullPayload { operation: DataOperation::Insert },
            CacheFault::NullPayload { operation: DataOperation::Update },
        ]
    );
}

#[test]
fn a_command_without_a_key_is_quoted() {
    let (reply, _answer) = sync_channel(1);
    let payloads = vec![
        None,
        Some(Vec::new()),
        Some(vec![Bytes::from((0..=255u8).collect::<Vec<u8>>())]),
        Some(vec![bytes("a"), bytes(""), bytes("größe")]),
    ];
    for payload in payloads {
        for op_type in [
            DatabaseOperation::Insert,
            DatabaseOperation::Update,
            DatabaseOperation::Delete,
            DatabaseOperation::Flush(reply.clone()),
            DatabaseOperation::Close,
        ] {
            let command = DatabaseCommand { op_type, key: None, payload: payload.clone() };
            let text = format!("Null key found for message: {command:?}");
            let mut buffer: VecDeque<DatabaseCommand> = VecDeque::new();
            buffer.push_back(command);
            let batch = drain_buffer("t", &mut buffer);
            assert!(batch.pipeline.is_empty());
            assert_eq!(batch.errors.len(), 1);
            assert_eq!(batch.errors[0].message(), text);
        }
    }
}

#[test]
fn an_index_insert_without_values_names_an_unknown_index() {
    let mut pipe = Pipeline::new();
    assert_eq!(
        insert_index(&mut pipe, "t:index:nothing", &Vec::new()).unwrap_err(),
        CacheFault::UnknownIndex { index: "index:nothing".to_string() }
    );
    assert_eq!(
        insert_index(&mut pipe, "t:orders:O-1", &Vec::new()).unwrap_err(),
        CacheFault::InvalidIndexKey { key: "t:orders:O-1".to_string() }
    );
}

#[test]
fn a_buffered_command_needs_its_values() {
    let t = "trader-T-1";
    let one = || Some(vec![bytes("O-1")]);
    assert!(is_drainable(t, &command(DatabaseOperation::Insert, "index:orders", one())));
    assert!(!is_drainable(t, &command(DatabaseOperation::Insert, "index:order_ids", one())));
    assert!(is_drainable(
        t,
        &command(DatabaseOperation::Insert, "index:order_ids", Some(vec![bytes("a"), bytes("b")]))
    ));
    assert!(!is_drainable(
        t,
        &command(DatabaseOperation::Delete, "index:orders", Some(Vec::new()))
    ));
    assert!(is_drainable(t, &command(DatabaseOperation::Delete, "index:orders", None)));
    assert!(is_drainable(t, &command(DatabaseOperation::Update, "plain", None)));
    assert!(is_drainable(t, &DatabaseCommand::close()));
    assert!(!is_drainable(t, &command(DatabaseOperation::Close, "orders:O-1", None)));
}

#[test]
fn without_an_interval_every_command_is_sent_at_once() {
    let mut writer = CommandProcessor::new("t".to_string(), &config(None)).unwrap();
    assert!(!writer.timer_enabled());
    for i in 0..3 {
        let text = format!("{i}");
        let outcome = writer.handle_command(Some(command(
            DatabaseOperation::Insert,
            "orders:O-1",
            Some(vec![bytes(&text)]),
        )));
        assert_eq!(outcome.flow, ControlFlow::Continue(()));
        assert!(outcome.flush_reply.is_none());
        assert_eq!(
            pipe_text(&outcome.batch.unwrap().pipeline),
            vec![format!("RPUSH t:orders:O-1 {i}")]
        );
    }
    assert!(writer.finish().is_none());
}

#[test]
fn with_an_interval_commands_wait_for_the_timer() {
    let mut writer = CommandProcessor::new("t".to_string(), &config(Some(100))).unwrap();
    assert!(writer.timer_enabled());
    assert_eq!(writer.buffer_interval_ms(), 100);
    assert!(writer.flush_buffer().is_none());
    for key in ["general:a", "general:b"] {
        let outcome = writer.handle_command(Some(command(
            DatabaseOperation::Insert,
            key,
            Some(vec![bytes("1")]),
        )));
        assert!(outcome.batch.is_none());
    }
    assert_eq!(
        pipe_text(&writer.flush_buffer().unwrap().pipeline),
        vec!["SET t:general:a 1", "SET t:general:b 1"]
    );
    assert!(writer.flush_buffer().is_none());
}

#[test]
fn close_sends_what_is_pending_and_stops() {
    let mut writer = CommandProcessor::new("t".to_string(), &config(Some(100))).unwrap();
    writer.handle_command(Some(command(DatabaseOperation::Delete, "orders:O-1", None)));
    let outcome = writer.handle_command(Some(DatabaseCommand::close()));
    assert_eq!(outcome.flow, ControlFlow::Break(()));
    assert_eq!(pipe_text(&outcome.batch.unwrap().pipeline), vec!["DEL t:orders:O-1"]);
    assert!(writer.finish().is_none());
}

#[test]
fn a_hangup_stops_and_leaves_what_is_pending_to_the_end() {
    let mut writer = CommandProcessor::new("t".to_string(), &config(Some(100))).unwrap();
    writer.handle_command(Some(command(DatabaseOperation::Delete, "orders:O-1", None)));
    let outcome = writer.handle_command(None);
    assert_eq!(outcome.flow, ControlFlow::Break(()));
    assert!(outcome.batch.is_none());
    assert_eq!(pipe_text(&writer.finish().unwrap().pipeline), vec!["DEL t:orders:O-1"]);
}

#[test]
fn flush_sends_what_is_pending_first_and_answers() {
    let mut writer = CommandProcessor::new("t".to_string(), &config(Some(100))).unwrap();
    writer.handle_command(Some(command(DatabaseOperation::Delete, "orders:O-1", None)));
    let (reply, answer) = sync_channel(1);
    let outcome = writer.handle_command(Some(DatabaseCommand::flush(reply)));
    assert_eq!(outcome.flow, ControlFlow::Continue(()));
    assert_eq!(pipe_text(&outcome.batch.unwrap().pipeline), vec!["DEL t:orders:O-1"]);
    outcome.flush_reply.unwrap().send(()).unwrap();
    assert!(answer.recv().is_ok());
    assert_eq!(cmd_text(&flushdb_command()), "FLUSHDB");
}

#[test]
fn a_flush_comes_behind_earlier_writes() {
    for interval in [None, Some(100)] {
        let mut writer = CommandProcessor::new("t".to_string(), &config(interval)).unwrap();
        let mut sent: Vec<String> = Vec::new();
        let (reply, _answer) = sync_channel(1);
        for cmd in [
            command(DatabaseOperation::Insert, "general:a", Some(vec![bytes("1")])),
            command(DatabaseOperation::Insert, "general:b", Some(vec![bytes("2")])),
            DatabaseCommand::flush(reply),
            command(DatabaseOperation::Insert, "general:c", Some(vec![bytes("3")])),
            DatabaseCommand::close(),
        ] {
            let outcome = writer.handle_command(Some(cmd));
            if let Some(batch) = outcome.batch {
                sent.extend(pipe_text(&batch.pipeline));
            }
            if outcome.flush_reply.is_some() {
                sent.push(cmd_text(&flushdb_command()));
            }
        }
        assert_eq!(
            sent,
            vec!["SET t:general:a 1", "SET t:general:b 2", "FLUSHDB", "SET t:general:c 3"]
        );
    }
}

#[test]
fn a_writer_needs_a_database() {
    let error = CommandProcessor::new("t".to_string(), &CacheConfig::default());
    assert!(matches!(error, Err(CacheFault::NoDatabaseConfig)));
}

#[test]
fn buffering_keeps_the_order_of_writes() {
    let commands = || {
        vec![
            command(DatabaseOperation::Insert, "orders:O-1", Some(vec![bytes("a")])),
            command(DatabaseOperation::Insert, "index:orders", Some(vec![bytes("O-1")])),
            command(DatabaseOperation::Update, "orders:O-1", Some(vec![bytes("b")])),
            command(DatabaseOperation::Delete, "index:orders", Some(vec![bytes("O-1")])),
        ]
    };
    let mut sent: Vec<Vec<String>> = Vec::new();
    for interval in [None, Some(50)] {
        let mut writer = CommandProcessor::new("t".to_string(), &config(interval)).unwrap();
        let mut lines: Vec<String> = Vec::new();
        for (i, cmd) in commands().into_iter().enumerate() {
            if let Some(batch) = writer.handle_command(Some(cmd)).batch {
                lines.extend(pipe_text(&batch.pipeline));
            }
            if i == 1 {
                if let Some(batch) = writer.flush_buffer() {
                    lines.extend(pipe_text(&batch.pipeline));
                }
            }
        }
        if let Some(batch) = writer.handle_command(Some(DatabaseCommand::close())).batch {
            lines.extend(pipe_text(&batch.pipeline));
        }
        sent.push(lines);
    }
    assert_eq!(sent[0], sent[1]);
    assert_eq!(
        sent[0],
        vec![
            "RPUSH t:orders:O-1 a",
            "SADD t:index:orders O-1",
            "RPUSHX t:orders:O-1 b",
            "SREM t:index:orders O-1",
        ]
    );
}

#[test]
fn a_hangup_loses_nothing() {
    for interval in [None, Some(50)] {
        let mut writer = CommandProcessor::new("t".to_string(), &config(interval)).unwrap();
        let mut lines: Vec<String> = Vec::new();
        for (i, key) in ["general:a", "general:b", "general:c"].into_iter().enumerate() {
            let cmd = command(DatabaseOperation::Insert, key, Some(vec![bytes("1")]));
            if let Some(batch) = writer.handle_command(Some(cmd)).batch {
                lines.extend(pipe_text(&batch.pipeline));
            }
            if i == 0 {
                if let Some(batch) = writer.flush_buffer() {
                    lines.extend(pipe_text(&batch.pipeline));
                }
            }
        }
        assert_eq!(writer.handle_command(None).flow, ControlFlow::Break(()));
        if let Some(batch) = writer.finish() {
            lines.extend(pipe_text(&batch.pipeline));
        }
        assert_eq!(lines, vec!["SET t:general:a 1", "SET t:general:b 1", "SET t:general:c 1"]);
    }
}
