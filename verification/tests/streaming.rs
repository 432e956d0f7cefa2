use nautilus_cache::streaming::{
    dispatch_write, forward, setup_streaming, write_failure, EventKind, Received, RotationConfig,
    SetupAction, SetupStep, StreamWriter, StreamingConfig, StreamingSetup, WriteCall,
    WriterRotation, ALL_TOPICS, RECEIVE_TIMEOUT_MS, WRITER_THREAD,
};

const STORED: [&str; 31] = [
    "QuoteTick", "TradeTick", "Bar", "OrderBookDelta", "OrderBookDepth10", "IndexPriceUpdate",
    "MarkPriceUpdate", "InstrumentClose", "InstrumentAny", "OrderFilled", "OrderAccepted",
    "OrderCanceled", "OrderRejected", "OrderInitialized", "OrderSubmitted", "OrderDenied",
    "OrderExpired", "OrderTriggered", "OrderUpdated", "OrderPendingCancel", "OrderPendingUpdate",
    "OrderCancelRejected", "OrderModifyRejected", "OrderEmulated", "OrderReleased",
    "PositionOpened", "PositionChanged", "PositionClosed", "PositionAdjusted", "AccountState",
    "FundingRateUpdate",
];

fn config(fs_protocol: &str, rotation_config: RotationConfig) -> StreamingConfig {
    StreamingConfig {
        catalog_path: "/data/catalog".to_string(),
        fs_protocol: fs_protocol.to_string(),
        flush_interval_ms: 1000,
        rotation_config,
    }
}

/// Runs a set-up; the step at `fails` fails. Returns what was done, and the error.
fn run_setup(mut setup: StreamingSetup, fails: Option<usize>) -> (Vec<String>, Option<String>) {
    let mut done: Vec<String> = Vec::new();
    let mut error: Option<String> = None;
    loop {
        let action = match setup.next_action() {
            None => break,
            Some(SetupAction::CreateDirectory { path }) => format!("create {path}"),
            Some(SetupAction::OpenStore { path }) => format!("open {path}"),
            Some(SetupAction::SpawnWriter { flush_interval_ms, .. }) => {
                format!("spawn {flush_interval_ms}")
            }
            Some(SetupAction::Subscribe { topics }) => format!("subscribe {topics}"),
        };
        let outcome = if fails == Some(done.len()) { Err("io".to_string()) } else { Ok(()) };
        done.push(action);
        if let Err(e) = setup.record(outcome) {
            error = Some(e.message());
        }
    }
    assert_eq!(setup.is_complete(), error.is_none());
    (done, error)
}

#[test]
fn setup_on_the_local_file_system_creates_a_directory() {
    let setup = setup_streaming(&config("file", RotationConfig::NoRotation), "live", "abc");
    assert_eq!(setup.catalog_path, "/data/catalog/live/abc");
    assert_eq!(setup.flush_interval_ms, 1000);
    assert_eq!(
        setup.steps,
        vec![
            SetupStep::CreateDirectory,
            SetupStep::OpenStore,
            SetupStep::SpawnWriter,
            SetupStep::Subscribe,
        ]
    );
    let remote = setup_streaming(&config("s3", RotationConfig::NoRotation), "live", "abc");
    assert_eq!(
        remote.steps,
        vec![SetupStep::OpenStore, SetupStep::SpawnWriter, SetupStep::Subscribe]
    );
}

#[test]
fn one_handler_is_subscribed_when_all_else_is_done() {
    let local = || setup_streaming(&config("file", RotationConfig::NoRotation), "live", "abc");
    let all = vec![
        "create /data/catalog/live/abc",
        "open /data/catalog/live/abc",
        "spawn 1000",
        "subscribe *",
    ];
    let (done, error) = run_setup(local(), None);
    assert_eq!(done, all);
    assert!(error.is_none());
    let remote = setup_streaming(&config("s3", RotationConfig::NoRotation), "live", "abc");
    assert_eq!(run_setup(remote, None).0, all[1..]);
    for fails in 0..3 {
        let (done, error) = run_setup(local(), Some(fails));
        assert_eq!(done, all[..fails + 1]);
        assert!(error.is_some());
    }
}

#[test]
fn rotations_are_taken_over() {
    let rotation = |r| setup_streaming(&config("file", r), "live", "abc").rotation;
    assert_eq!(
        rotation(RotationConfig::Size { max_size: 7 }),
        WriterRotation::Size { max_size: 7 }
    );
    assert_eq!(
        rotation(RotationConfig::Interval { interval_ns: 9 }),
        WriterRotation::Interval { interval_ns: 9 }
    );
    assert_eq!(rotation(RotationConfig::ScheduledDates), WriterRotation::NoRotation);
    assert_eq!(rotation(RotationConfig::NoRotation), WriterRotation::NoRotation);
}

#[test]
fn setup_failures_are_explained() {
    let local = || setup_streaming(&config("file", RotationConfig::NoRotation), "live", "abc");
    let said = |fails| run_setup(local(), Some(fails)).1.unwrap();
    assert_eq!(
        said(0),
        "failed to create streaming catalog directory '/data/catalog/live/abc': io"
    );
    assert_eq!(said(1), "io");
    assert_eq!(said(2), "failed to spawn streaming writer thread: io");
}

#[test]
fn every_stored_event_is_forwarded_and_written() {
    for name in STORED {
        let events = forward(name, vec![42]);
        assert_eq!(events.len(), 1);
        assert_eq!(events[0].data, 42);
        assert_eq!(events[0].kind.name(), name);
        let call = dispatch_write(name).unwrap();
        if name == "InstrumentAny" {
            assert_eq!(call, WriteCall::Instrument);
        } else {
            assert_eq!(call, WriteCall::Event(events[0].kind));
        }
        assert_eq!(EventKind::from_name(name), Some(events[0].kind));
    }
}

#[test]
fn deltas_are_forwarded_one_by_one() {
    let events = forward("OrderBookDeltas", vec![1, 2, 3]);
    let data: Vec<i32> = events.iter().map(|event| event.data).collect();
    assert_eq!(data, vec![1, 2, 3]);
    assert!(events.iter().all(|event| event.kind == EventKind::OrderBookDelta));
    assert!(forward("OrderBookDeltas", Vec::<i32>::new()).is_empty());
}

#[test]
fn other_messages_are_dropped() {
    assert!(forward("String", vec![1]).is_empty());
    assert!(forward("quotetick", vec![1]).is_empty());
    assert!(dispatch_write("String").is_none());
    assert!(dispatch_write("OrderBookDeltas").is_none());
    assert!(EventKind::from_name("").is_none());
}

#[test]
fn a_failed_write_names_the_type() {
    assert_eq!(write_failure(EventKind::Bar, "disk full"), "Failed to write Bar: disk full");
    assert_eq!(
        write_failure(EventKind::InstrumentAny, "x"),
        "Failed to write InstrumentAny: x"
    );
}

#[test]
fn the_writer_flushes_after_its_interval() {
    let mut writer = StreamWriter::new(2, 1_000);
    assert!(!writer.flush_due(1_000));
    assert!(!writer.flush_due(2_000_999));
    assert!(writer.flush_due(2_001_000));
    writer.flushed(5_000_000);
    assert!(!writer.flush_due(6_999_999));
    assert!(writer.flush_due(7_000_000));
    assert!(!writer.flush_due(0));
    assert!(StreamWriter::new(0, 10).flush_due(0));
}

#[test]
fn the_writer_stops_when_the_channel_is_disconnected() {
    let writer = StreamWriter::new(2, 0);
    let run = vec![
        Received::Timeout,
        Received::Event(1),
        Received::Timeout,
        Received::Event(2),
        Received::Disconnected,
        Received::Event(3),
    ];
    let mut written: Vec<i32> = Vec::new();
    for received in run {
        let turn = writer.receive(received);
        if let Some(event) = turn.write {
            written.push(event);
        }
        if turn.stop {
            break;
        }
    }
    assert_eq!(written, vec![1, 2]);
}

#[test]
fn settings_of_the_writer_thread() {
    assert_eq!(RECEIVE_TIMEOUT_MS, 100);
    assert_eq!(WRITER_THREAD, "streaming-writer");
    assert_eq!(ALL_TOPICS, "*");
}
