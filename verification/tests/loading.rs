use bytes::Bytes;
use nautilus_cache::adapter::RedisCacheDatabaseAdapter;
use nautilus_cache::config::{CacheConfig, DatabaseConfig, SerializationEncoding};
use nautilus_cache::database::RedisCacheDatabase;
use nautilus_cache::error::CacheFault;
use nautilus_cache::loading::{collect_decoded, general_reply, read_reply, BarScan};
use redis::{Arg, Cmd};

fn cmd_text(cmd: &Cmd) -> String {
    let mut parts: Vec<String> = Vec::new();
    for arg in cmd.args_iter() {
        if let Arg::Simple(bytes) = arg {
            parts.push(String::from_utf8(bytes.to_vec()).unwrap());
        }
    }
    parts.join(" ")
}

fn adapter() -> RedisCacheDatabaseAdapter {
    let config = CacheConfig {
        database: Some(DatabaseConfig { url: "redis://localhost".to_string() }),
        ..Default::default()
    };
    RedisCacheDatabaseAdapter {
        encoding: SerializationEncoding::MsgPack,
        database: RedisCacheDatabase::new("T-1", "abc", &config).unwrap(),
    }
}

#[test]
fn whole_lists_are_read() {
    let a = adapter();
    assert_eq!(cmd_text(&a.load_quotes("X.SIM")), "LRANGE trader-T-1:quotes:X.SIM 0 -1");
    assert_eq!(cmd_text(&a.load_trades("X.SIM")), "LRANGE trader-T-1:trades:X.SIM 0 -1");
    assert_eq!(
        cmd_text(&a.load_funding_rates("X.SIM")),
        "LRANGE trader-T-1:funding_rates:X.SIM 0 -1"
    );
    assert_eq!(cmd_text(&a.load_signals("s")), "LRANGE trader-T-1:signals:s 0 -1");
    assert_eq!(cmd_text(&a.load_custom_data("d")), "LRANGE trader-T-1:custom_data:d 0 -1");
}

#[test]
fn the_last_snapshot_is_read() {
    let a = adapter();
    assert_eq!(
        cmd_text(&a.load_order_snapshot("O-1")),
        "LRANGE trader-T-1:snapshots:orders:O-1 -1 -1"
    );
    assert_eq!(
        cmd_text(&a.load_position_snapshot("P-1")),
        "LRANGE trader-T-1:snapshots:positions:P-1 -1 -1"
    );
    assert_eq!(a.stored_snapshot(vec![vec![1], vec![2]]), Some(vec![1]));
    assert_eq!(a.stored_snapshot(Vec::new()), None);
}

#[test]
fn state_is_read_as_a_string() {
    let a = adapter();
    assert_eq!(cmd_text(&a.load_actor("A-1")), "GET trader-T-1:actors:A-1:state");
    assert_eq!(cmd_text(&a.load_strategy("S-1")), "GET trader-T-1:strategies:S-1:state");
    assert_eq!(a.stored_state(Vec::new()), None);
    assert_eq!(a.stored_state(vec![7]), Some(vec![7]));
}

#[test]
fn a_state_is_read_where_it_is_deleted() {
    let a = adapter();
    let plan = a.delete_actor("A-1");
    let key = plan.writes[0].command.key.clone().unwrap();
    assert_eq!(cmd_text(&a.load_actor("A-1")), format!("GET trader-T-1:{key}"));
}

#[test]
fn a_list_is_read_where_it_is_written() {
    let a = adapter();
    let plan = a.add_trade("X.SIM", Ok(vec![1]));
    let key = plan.writes[0].command.key.clone().unwrap();
    assert_eq!(cmd_text(&a.load_trades("X.SIM")), format!("LRANGE trader-T-1:{key} 0 -1"));
    let plan = a.add_order_snapshot("O-1", Ok(vec![1]));
    let key = plan.writes[0].command.key.clone().unwrap();
    assert_eq!(
        cmd_text(&a.load_order_snapshot("O-1")),
        format!("LRANGE trader-T-1:{key} -1 -1")
    );
}

#[test]
fn general_state_is_loaded_under_its_own_keys() {
    let a = adapter();
    assert_eq!(a.general_pattern(), "trader-T-1:general:*");
    let written = a.add("k:1", Bytes::from("v")).writes[0].command.key.clone().unwrap();
    let keys = vec![
        format!("trader-T-1:{written}"),
        "trader-T-1:general:gone".to_string(),
        "elsewhere".to_string(),
        "trader-T-1:general:k:1".to_string(),
        "trader-T-1:general:unread".to_string(),
    ];
    let values = vec![
        Some(Bytes::from("old")),
        None,
        Some(Bytes::from("w")),
        Some(Bytes::from("new")),
    ];
    let map = a.load(&keys, values);
    assert_eq!(map.len(), 2);
    assert_eq!(map.get("k:1").unwrap().as_ref(), b"new");
    assert_eq!(map.get("elsewhere").unwrap().as_ref(), b"w");
    assert!(a.load(&Vec::new(), Vec::new()).is_empty());
}

#[test]
fn the_order_client_index_is_loaded() {
    let a = adapter();
    assert_eq!(
        cmd_text(&a.load_index_order_client()),
        "HGETALL trader-T-1:index:order_client"
    );
    let raw = vec![
        ("O-1".to_string(), "SIM".to_string()),
        ("O-2".to_string(), "LIVE".to_string()),
    ];
    let map = a.index_order_clients(raw);
    assert_eq!(map.len(), 2);
    assert_eq!(map.get("O-1").unwrap(), "SIM");
    assert_eq!(map.get("O-2").unwrap(), "LIVE");
    assert!(a.load_index_order_position().is_empty());
}

#[test]
fn bars_of_all_types_are_read_one_list_after_the_other() {
    let a = adapter();
    assert_eq!(a.load_bars("X.SIM"), "trader-T-1:bars:X.SIM*");
    let keys = vec!["k1".to_string(), "k2".to_string()];
    let mut scan = BarScan::new(keys);
    assert_eq!(cmd_text(&scan.next_command().unwrap()), "LRANGE k1 0 -1");
    scan.record(Ok(vec![vec![1], vec![2]])).unwrap();
    assert_eq!(cmd_text(&scan.next_command().unwrap()), "LRANGE k2 0 -1");
    scan.record(Ok(vec![vec![3]])).unwrap();
    assert!(scan.next_command().is_none());
    assert_eq!(scan.finish(), vec![vec![1], vec![2], vec![3]]);
}

#[test]
fn a_list_of_bars_that_cannot_be_read_is_named() {
    let mut scan = BarScan::new(vec!["k1".to_string()]);
    let error = scan.record(Err("io".to_string())).unwrap_err();
    assert_eq!(error.message(), "LRANGE failed for k1: io");
}

#[test]
fn decoded_items_keep_their_order() {
    let good: Vec<Result<u8, String>> = vec![Ok(1), Ok(2), Ok(3)];
    assert_eq!(collect_decoded(good).unwrap(), vec![1, 2, 3]);
    let bad: Vec<Result<u8, String>> =
        vec![Ok(1), Err("first".to_string()), Err("second".to_string())];
    assert_eq!(
        collect_decoded(bad).unwrap_err(),
        CacheFault::Deserialization { cause: "first".to_string() }
    );
}

#[test]
fn replies_and_their_errors() {
    let lost = || Err::<Result<u8, String>, String>("gone".to_string());
    let refused = || Ok::<Result<u8, String>, String>(Err("no".to_string()));
    assert_eq!(read_reply(Ok::<Result<u8, String>, String>(Ok(1))).unwrap(), 1);
    assert_eq!(read_reply(refused()).unwrap_err().message(), "no");
    assert_eq!(read_reply(lost()).unwrap_err().message(), "Channel closed: gone");
    assert_eq!(general_reply(Ok::<Result<u8, String>, String>(Ok(1))).unwrap(), 1);
    assert_eq!(general_reply(refused()).unwrap_err().message(), "no");
    assert_eq!(
        general_reply(lost()).unwrap_err().message(),
        "Failed to receive load() result: gone"
    );
}

#[test]
fn all_loads_together_make_the_cached_data() {
    let a = adapter();
    let load = |failing: &[usize]| {
        let mut loads: Vec<Result<usize, String>> = (0..8).map(Ok).collect();
        for i in failing {
            loads[*i] = Err(format!("load {i}"));
        }
        let mut loads = loads.into_iter();
        let mut next = || loads.next().unwrap();
        a.load_all(next(), next(), next(), next(), next(), next(), next(), next())
    };
    let Ok(data) = load(&[]) else {
        panic!("every load is good");
    };
    assert_eq!(
        [
            data.currencies,
            data.instruments,
            data.synthetics,
            data.accounts,
            data.orders,
            data.positions,
            data.greeks,
            data.yield_curves,
        ],
        [0, 1, 2, 3, 4, 5, 6, 7]
    );
    for i in 0..8 {
        let Err(error) = load(&[i]) else {
            panic!("one load is bad");
        };
        assert_eq!(error.message(), format!("Error loading cache data: load {i}"));
    }
    let Err(error) = load(&[6, 2]) else {
        panic!("two loads are bad");
    };
    assert_eq!(error.message(), "Error loading cache data: load 2");
}
