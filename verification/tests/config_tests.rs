use rustbridge::config::{
    find_device, Config, ConnectionConfig, DataType, DeviceConfig, DeviceType, RegisterConfig,
    RegisterType, TcpConnection,
};

fn register(name: &str, address: u16, register_type: RegisterType) -> RegisterConfig {
    RegisterConfig {
        name: name.to_string(),
        address,
        register_type,
        count: 1,
        data_type: DataType::U16,
        unit: None,
        scale: None,
        offset: None,
    }
}

fn device(id: &str, registers: Vec<RegisterConfig>) -> DeviceConfig {
    DeviceConfig {
        id: id.to_string(),
        name: "Test".to_string(),
        device_type: DeviceType::Tcp,
        connection: ConnectionConfig::Tcp(TcpConnection {
            host: "localhost".to_string(),
            port: 502,
            unit_id: 1,
        }),
        poll_interval_ms: 1000,
        registers,
    }
}

#[test]
fn test_default_config() {
    let config = Config::default();

    assert_eq!(config.server.host, "0.0.0.0");
    assert_eq!(config.server.port, 3000);
    assert!(config.server.metrics_enabled);
    assert_eq!(config.mqtt.host, "localhost");
    assert_eq!(config.mqtt.port, 1883);
    assert_eq!(config.mqtt.qos, 1);
    assert!(config.devices.is_empty());
}

#[test]
fn default_config_mqtt_and_auth() {
    let config = Config::default();

    assert!(config.mqtt.enabled);
    assert_eq!(config.mqtt.client_id, "rustbridge");
    assert_eq!(config.mqtt.topic_prefix, "rustbridge");
    assert_eq!(config.mqtt.username, None);
    assert_eq!(config.mqtt.password, None);
    assert!(!config.auth.enabled);
    assert!(config.auth.api_keys.is_empty());
    assert_eq!(config.auth.exclude_paths, vec!["/health".to_string(), "/metrics".to_string()]);
}

#[test]
fn find_device_gives_first_match() {
    let devices = vec![
        device("a", vec![]),
        device("b", vec![register("x", 1, RegisterType::Holding)]),
        device("b", vec![]),
    ];
    assert_eq!(find_device(&devices, "a"), Some(0));
    assert_eq!(find_device(&devices, "b"), Some(1));
    assert_eq!(find_device(&devices, "c"), None);
    assert_eq!(find_device(&Vec::new(), "a"), None);
}

#[test]
fn find_register_gives_first_match() {
    let dev = device(
        "a",
        vec![
            register("x", 1, RegisterType::Holding),
            register("y", 2, RegisterType::Input),
            register("x", 3, RegisterType::Coil),
        ],
    );
    assert_eq!(dev.find_register("x"), Some(0));
    assert_eq!(dev.find_register("y"), Some(1));
    assert_eq!(dev.find_register("z"), None);
}
