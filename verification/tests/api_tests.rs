use rustbridge::api::{
    api_info, get_device, get_register, get_registers, health, list_devices, metrics_handler,
    plan_write, write_register, ApiError, RegisterUpdate, WriteOutcome, BROADCAST_CAPACITY,
    VERSION, WRITE_TIMEOUT_SECS,
};
use rustbridge::config::{
    ConnectionConfig, DataType, DeviceConfig, DeviceType, RegisterConfig, RegisterType,
    TcpConnection,
};
use rustbridge::modbus::reader::RegisterValue;
use rustbridge::modbus::store::RegisterStore;
use rustbridge::timestamp::Timestamp;

/// Helper to create an empty store
fn create_test_state() -> RegisterStore {
    RegisterStore::new()
}

/// Helper to populate test data
fn populate_test_data(store: &mut RegisterStore) {
    let now = Timestamp::from_unix(1_700_000_000, 0).unwrap();
    store.commit(
        "plc-001",
        RegisterValue {
            name: "temperature".to_string(),
            raw: vec![250],
            value: 25.0_f64.to_bits(),
            unit: Some("°C".to_string()),
            timestamp: now,
        },
    );
    store.commit(
        "plc-001",
        RegisterValue {
            name: "humidity".to_string(),
            raw: vec![650],
            value: 65.0_f64.to_bits(),
            unit: Some("%".to_string()),
            timestamp: now,
        },
    );
    store.commit(
        "sensor-001",
        RegisterValue {
            name: "pressure".to_string(),
            raw: vec![1000],
            value: 10.0_f64.to_bits(),
            unit: Some("bar".to_string()),
            timestamp: now,
        },
    );
}

fn register(name: &str, address: u16, register_type: RegisterType) -> RegisterConfig {
    RegisterConfig {
        name: name.to_string(),
        address,
        register_type,
        count: 1,
        data_type: DataType::U16,
        unit: None,
        scale: None,
        offset: None,
    }
}

fn devices() -> Vec<DeviceConfig> {
    vec![
        DeviceConfig {
            id: "plc-001".to_string(),
            name: "Test PLC".to_string(),
            device_type: DeviceType::Tcp,
            connection: ConnectionConfig::Tcp(TcpConnection {
                host: "192.168.1.100".to_string(),
                port: 502,
                unit_id: 1,
            }),
            poll_interval_ms: 1000,
            registers: vec![
                register("temperature", 40, RegisterType::Holding),
                register("humidity", 41, RegisterType::Input),
            ],
        },
        DeviceConfig {
            id: "sensor-001".to_string(),
            name: "Sensor".to_string(),
            device_type: DeviceType::Tcp,
            connection: ConnectionConfig::Tcp(TcpConnection {
                host: "192.168.1.101".to_string(),
                port: 502,
                unit_id: 1,
            }),
            poll_interval_ms: 500,
            registers: vec![],
        },
    ]
}

fn assert_error(error: &ApiError, code: u16, text: &str, details: Option<&str>) {
    assert_eq!(error.code, code);
    assert_eq!(error.error, text);
    assert_eq!(error.details.as_deref(), details);
}

#[test]
fn test_health_endpoint() {
    let response = health();

    assert_eq!(response.status, "ok");
    assert!(!response.version.is_empty());
}

#[test]
fn test_list_devices_empty() {
    let state = create_test_state();

    let response = list_devices(&state);

    assert_eq!(response.devices.len(), 0);
    assert_eq!(response.count, 0);
}

#[test]
fn test_list_devices_with_data() {
    let mut state = create_test_state();
    populate_test_data(&mut state);

    let response = list_devices(&state);

    assert_eq!(response.devices.len(), 2);
    assert_eq!(response.count, 2);

    // Check that both devices are present
    let device_ids: Vec<&str> = response.devices.iter().map(|d| d.id.as_str()).collect();
    assert!(device_ids.contains(&"plc-001"));
    assert!(device_ids.contains(&"sensor-001"));
}

#[test]
fn test_get_device_found() {
    let mut state = create_test_state();
    populate_test_data(&mut state);

    let response = get_device(&state, "plc-001").unwrap();

    assert_eq!(response.id, "plc-001");
    assert_eq!(response.registers.len(), 2);
    assert_eq!(response.register_count, 2);
}

#[test]
fn test_get_device_not_found() {
    let state = create_test_state();

    let error = get_device(&state, "nonexistent").unwrap_err();

    assert_eq!(error.code, 404);
}

#[test]
fn test_get_registers() {
    let mut state = create_test_state();
    populate_test_data(&mut state);

    let registers = get_registers(&state, "plc-001").unwrap();

    assert_eq!(registers.len(), 2);

    // Check register structure
    for reg in &registers {
        assert!(!reg.name.is_empty());
        assert!(f64::from_bits(reg.value).is_finite());
        assert_eq!(reg.raw.len(), 1);
        assert!(chrono::DateTime::parse_from_rfc3339(&reg.timestamp).is_ok());
    }
}

#[test]
fn test_get_single_register() {
    let mut state = create_test_state();
    populate_test_data(&mut state);

    let register = get_register(&state, "plc-001", "temperature").unwrap();

    assert_eq!(register.name, "temperature");
    assert_eq!(f64::from_bits(register.value), 25.0);
    assert_eq!(register.unit.as_deref(), Some("°C"));
}

#[test]
fn test_get_register_not_found() {
    let mut state = create_test_state();
    populate_test_data(&mut state);

    let error = get_register(&state, "plc-001", "nonexistent").unwrap_err();

    assert_eq!(error.code, 404);
}

#[test]
fn test_device_register_count() {
    let mut state = create_test_state();
    populate_test_data(&mut state);

    let response = list_devices(&state);

    for device in &response.devices {
        match device.id.as_str() {
            "plc-001" => assert_eq!(device.register_count, 2),
            "sensor-001" => assert_eq!(device.register_count, 1),
            id => panic!("Unexpected device: {}", id),
        }
    }
}

#[test]
fn test_device_has_last_update() {
    let mut state = create_test_state();
    populate_test_data(&mut state);

    let response = list_devices(&state);

    for device in &response.devices {
        // Verify it's a valid RFC3339 timestamp
        let timestamp = device.last_update.as_ref().unwrap();
        assert!(chrono::DateTime::parse_from_rfc3339(timestamp).is_ok());
    }
}

#[test]
fn test_register_raw_values() {
    let mut state = create_test_state();
    populate_test_data(&mut state);

    let register = get_register(&state, "plc-001", "temperature").unwrap();

    assert_eq!(register.raw.len(), 1);
    assert_eq!(register.raw[0], 250);
}

#[test]
fn test_health_version_format() {
    let response = health();

    // Version should be in semver format (e.g., "0.1.0")
    let version = response.version;
    let parts: Vec<&str> = version.split('.').collect();
    assert_eq!(
        parts.len(),
        3,
        "Version should have 3 parts (major.minor.patch)"
    );

    // Each part should be a number
    for part in parts {
        assert!(
            part.parse::<u32>().is_ok(),
            "Version part '{}' should be a number",
            part
        );
    }
}

#[test]
fn stored_register_is_shown_with_its_exact_fields() {
    let mut state = create_test_state();
    populate_test_data(&mut state);

    let register = get_register(&state, "plc-001", "temperature").unwrap();

    assert_eq!(register.name, "temperature");
    assert_eq!(register.raw, vec![250]);
    assert_eq!(f64::from_bits(register.value), 25.0);
    assert_eq!(register.unit.as_deref(), Some("°C"));
    assert_eq!(register.timestamp, "2023-11-14T22:13:20+00:00");
}

#[test]
fn not_found_shape() {
    let mut state = create_test_state();
    populate_test_data(&mut state);

    let error = get_device(&state, "nope").unwrap_err();
    assert_error(&error, 404, "Device not found", None);

    let error = get_registers(&state, "nope").unwrap_err();
    assert_error(&error, 404, "Device not found", None);

    let error = get_register(&state, "nope", "temperature").unwrap_err();
    assert_error(&error, 404, "Device not found", None);

    let error = get_register(&state, "plc-001", "nope").unwrap_err();
    assert_error(&error, 404, "Register not found", None);
}

#[test]
fn last_update_is_the_newest_timestamp() {
    let mut state = create_test_state();
    for (name, secs) in [("a", 1_700_000_000), ("b", 1_700_000_060), ("c", 1_700_000_030)] {
        state.commit(
            "plc-001",
            RegisterValue {
                name: name.to_string(),
                raw: vec![1],
                value: 1.0_f64.to_bits(),
                unit: None,
                timestamp: Timestamp::from_unix(secs, 0).unwrap(),
            },
        );
    }
    let response = list_devices(&state);
    assert_eq!(response.devices[0].last_update.as_deref(), Some("2023-11-14T22:14:20+00:00"));
    assert_eq!(response.devices[0].register_count, 3);
}

#[test]
fn api_info_lists_the_endpoints() {
    let info = api_info();
    assert_eq!(info.name, "RustBridge API");
    assert_eq!(info.version, VERSION);
    assert_eq!(
        info.description,
        "Industrial Protocol Bridge - Modbus TCP/RTU to JSON/MQTT Gateway"
    );
    let listed: Vec<(&str, &str, &str)> =
        info.endpoints.iter().map(|e| (e.method, e.path, e.description)).collect();
    assert_eq!(
        listed,
        vec![
            ("GET", "/health", "Health check"),
            ("GET", "/api/info", "API information"),
            ("GET", "/api/devices", "List all devices"),
            ("GET", "/api/devices/:device_id", "Get device details"),
            ("GET", "/api/devices/:device_id/registers", "List device registers"),
            ("GET", "/api/devices/:device_id/registers/:name", "Get register value"),
            ("POST", "/api/devices/:device_id/registers/:name", "Write register value"),
            ("GET", "/ws", "WebSocket for real-time updates"),
            ("GET", "/metrics", "Prometheus metrics endpoint"),
        ]
    );
}

#[test]
fn metrics_endpoint_enabled_and_disabled() {
    let enabled = metrics_handler(Some("# HELP x\n".to_string()));
    assert_eq!(enabled.status, 200);
    assert_eq!(enabled.content_type, "text/plain; version=0.0.4; charset=utf-8");
    assert_eq!(enabled.body, "# HELP x\n");

    let disabled = metrics_handler(None);
    assert_eq!(disabled.status, 503);
    assert_eq!(disabled.content_type, "text/plain; charset=utf-8");
    assert_eq!(disabled.body, "Metrics not enabled");
}

#[test]
fn write_plan_resolves_the_descriptor_address() {
    let mut state = create_test_state();
    populate_test_data(&mut state);

    let request = plan_write(&state, &devices(), "plc-001", "temperature", 100).unwrap();
    assert_eq!(request.device_id, "plc-001");
    assert_eq!(request.address, 40);
    assert_eq!(request.value, 100);
}

#[test]
fn write_plan_refusals() {
    let mut state = create_test_state();
    populate_test_data(&mut state);
    let configured = devices();

    let error = plan_write(&state, &configured, "nope", "temperature", 1).unwrap_err();
    assert_error(&error, 404, "Device not found", None);

    let error = plan_write(&state, &configured, "plc-001", "nope", 1).unwrap_err();
    assert_error(&error, 404, "Register not found", None);

    // Stored, but not a holding register.
    let error = plan_write(&state, &configured, "plc-001", "humidity", 1).unwrap_err();
    assert_error(
        &error,
        502,
        "Modbus write failed",
        Some("Register is not a holding register"),
    );

    // Stored, but the device has no descriptor for it.
    let error = plan_write(&state, &configured, "sensor-001", "pressure", 1).unwrap_err();
    assert_error(&error, 404, "Register not found", None);

    // Stored, but the device is not configured at all.
    let error = plan_write(&state, &Vec::new(), "plc-001", "temperature", 1).unwrap_err();
    assert_error(&error, 404, "Device not found", None);
}

#[test]
fn write_timeout_answer() {
    let error = write_register("plc-001", "temperature", 100, WriteOutcome::TimedOut).unwrap_err();
    assert_error(
        &error,
        504,
        "Write timeout",
        Some("The Modbus device did not respond in time"),
    );
    assert_eq!(WRITE_TIMEOUT_SECS, 5);
}

#[test]
fn write_failure_answers() {
    let error =
        write_register("plc-001", "temperature", 100, WriteOutcome::Unavailable).unwrap_err();
    assert_error(
        &error,
        503,
        "Write service unavailable",
        Some("The Modbus write handler is not running"),
    );

    let error = write_register("plc-001", "temperature", 100, WriteOutcome::ReplyLost).unwrap_err();
    assert_error(&error, 500, "Write failed", Some("Response channel closed unexpectedly"));

    let error = write_register(
        "plc-001",
        "temperature",
        100,
        WriteOutcome::Refused("Modbus exception: IllegalDataAddress".to_string()),
    )
    .unwrap_err();
    assert_error(
        &error,
        502,
        "Modbus write failed",
        Some("Modbus exception: IllegalDataAddress"),
    );
}

#[test]
fn write_success_answer() {
    let body = write_register("plc-001", "temperature", 100, WriteOutcome::Written).unwrap();
    assert!(body.success);
    assert_eq!(body.device_id, "plc-001");
    assert_eq!(body.register_name, "temperature");
    assert_eq!(body.value_written, 100);
    assert_eq!(body.message, "Register written successfully");
}

#[test]
fn api_error_constructors() {
    let plain = ApiError::new(404, "Device not found");
    assert_error(&plain, 404, "Device not found", None);
    let detailed = ApiError::with_details(502, "Modbus write failed", "why");
    assert_error(&detailed, 502, "Modbus write failed", Some("why"));
}

#[test]
fn update_announces_a_value() {
    let value = RegisterValue {
        name: "temperature".to_string(),
        raw: vec![250],
        value: 25.0_f64.to_bits(),
        unit: Some("°C".to_string()),
        timestamp: Timestamp::from_unix(1431648000, 0).unwrap(),
    };
    let update = RegisterUpdate::from_value("plc-001", &value);
    assert_eq!(update.device_id, "plc-001");
    assert_eq!(update.register_name, "temperature");
    assert_eq!(f64::from_bits(update.value), 25.0);
    assert_eq!(update.raw, vec![250]);
    assert_eq!(update.unit.as_deref(), Some("°C"));
    assert_eq!(update.timestamp, "2015-05-15T00:00:00+00:00");
    let copy = update.clone();
    assert_eq!(copy.timestamp, update.timestamp);
    assert_eq!(copy.device_id, update.device_id);
    assert_eq!(BROADCAST_CAPACITY, 1024);
}
