use rustbridge::modbus::reader::RegisterValue;
use rustbridge::modbus::store::{Missing, RegisterStore};
use rustbridge::timestamp::Timestamp;

fn value(name: &str, raw: u16, engineering: f64, unit: &str, secs: i64) -> RegisterValue {
    RegisterValue {
        name: name.to_string(),
        raw: vec![raw],
        value: engineering.to_bits(),
        unit: Some(unit.to_string()),
        timestamp: Timestamp::from_unix(secs, 0).unwrap(),
    }
}

#[test]
fn empty_store_knows_nothing() {
    let store = RegisterStore::new();
    assert!(!store.contains_device("plc-001"));
    assert!(store.get_device("plc-001").is_none());
    assert_eq!(store.get_register("plc-001", "temperature").unwrap_err(), Missing::Device);
    assert!(store.list_devices().is_empty());
}

#[test]
fn commit_then_get_register_returns_the_value() {
    let mut store = RegisterStore::new();
    store.commit("plc-001", value("temperature", 250, 25.0, "°C", 100));

    let found = store.get_register("plc-001", "temperature").unwrap();
    assert_eq!(found.name, "temperature");
    assert_eq!(found.raw, vec![250]);
    assert_eq!(f64::from_bits(found.value), 25.0);
    assert_eq!(found.unit, Some("°C".to_string()));
    assert_eq!(found.timestamp.seconds(), 100);

    // Reading does not change what is stored.
    let again = store.get_register("plc-001", "temperature").unwrap();
    assert_eq!(again.raw, vec![250]);
}

#[test]
fn commit_replaces_the_value_of_the_same_register() {
    let mut store = RegisterStore::new();
    store.commit("plc-001", value("temperature", 250, 25.0, "°C", 100));
    store.commit("plc-001", value("humidity", 650, 65.0, "%", 100));
    store.commit("plc-001", value("temperature", 260, 26.0, "°C", 101));

    let found = store.get_register("plc-001", "temperature").unwrap();
    assert_eq!(found.raw, vec![260]);
    assert_eq!(f64::from_bits(found.value), 26.0);
    assert_eq!(found.timestamp.seconds(), 101);

    let other = store.get_register("plc-001", "humidity").unwrap();
    assert_eq!(other.raw, vec![650]);

    assert_eq!(store.get_device("plc-001").unwrap().len(), 2);
}

#[test]
fn commit_leaves_other_devices_alone() {
    let mut store = RegisterStore::new();
    store.commit("plc-001", value("temperature", 250, 25.0, "°C", 100));
    store.commit("sensor-001", value("temperature", 10, 1.0, "°C", 100));
    store.commit("plc-001", value("temperature", 300, 30.0, "°C", 105));

    assert_eq!(store.get_register("sensor-001", "temperature").unwrap().raw, vec![10]);
    assert_eq!(store.get_register("plc-001", "temperature").unwrap().raw, vec![300]);
}

#[test]
fn missing_register_of_known_device() {
    let mut store = RegisterStore::new();
    store.commit("plc-001", value("temperature", 250, 25.0, "°C", 100));
    assert_eq!(store.get_register("plc-001", "nonexistent").unwrap_err(), Missing::Register);
    assert_eq!(store.get_register("nope", "temperature").unwrap_err(), Missing::Device);
    assert!(store.contains_device("plc-001"));
    assert!(!store.contains_device("nope"));
}

#[test]
fn get_device_snapshot_holds_each_register_once() {
    let mut store = RegisterStore::new();
    store.commit("plc-001", value("temperature", 250, 25.0, "°C", 100));
    store.commit("plc-001", value("humidity", 650, 65.0, "%", 100));
    store.commit("plc-001", value("humidity", 651, 65.1, "%", 101));

    let snapshot = store.get_device("plc-001").unwrap();
    let mut names: Vec<String> = snapshot.iter().map(|r| r.name.clone()).collect();
    names.sort();
    assert_eq!(names, vec!["humidity".to_string(), "temperature".to_string()]);
}

#[test]
fn list_devices_counts_and_latest_timestamp() {
    let mut store = RegisterStore::new();
    store.commit("plc-001", value("temperature", 250, 25.0, "°C", 100));
    store.commit("plc-001", value("humidity", 650, 65.0, "%", 300));
    store.commit("plc-001", value("pressure", 1, 0.1, "bar", 200));
    store.commit("sensor-001", value("pressure", 1000, 10.0, "bar", 50));

    let listing = store.list_devices();
    assert_eq!(listing.len(), 2);
    for entry in &listing {
        match entry.id.as_str() {
            "plc-001" => {
                assert_eq!(entry.register_count, 3);
                assert_eq!(entry.last_update.unwrap().seconds(), 300);
            }
            "sensor-001" => {
                assert_eq!(entry.register_count, 1);
                assert_eq!(entry.last_update.unwrap().seconds(), 50);
            }
            other => panic!("Unexpected device: {}", other),
        }
    }
}

#[test]
fn latest_timestamp_compares_nanoseconds() {
    let mut store = RegisterStore::new();
    let mut early = value("a", 1, 1.0, "", 100);
    early.timestamp = Timestamp::from_unix(100, 999).unwrap();
    let mut late = value("b", 2, 2.0, "", 100);
    late.timestamp = Timestamp::from_unix(100, 1000).unwrap();
    store.commit("d", late);
    store.commit("d", early);
    let listing = store.list_devices();
    assert_eq!(listing[0].last_update.unwrap().nanoseconds(), 1000);
}
