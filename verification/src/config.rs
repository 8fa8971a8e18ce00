//! Bridge configuration: the HTTP server, the MQTT broker, API-key
//! authentication and the Modbus devices with their register descriptors.

use crate::text::str_eq;
use vstd::prelude::*;

verus! {

broadcast use vstd::string::group_string_axioms;

/// HTTP API settings.
#[derive(Debug, Clone)]
pub struct ServerConfig {
    /// HTTP API host
    pub host: String,
    /// HTTP API port
    pub port: u16,
    /// Enable metrics endpoint
    pub metrics_enabled: bool,
}

pub struct ServerConfigView {
    pub host: Seq<char>,
    pub port: u16,
    pub metrics_enabled: bool,
}

impl DeepView for ServerConfig {
    type V = ServerConfigView;

    open spec fn deep_view(&self) -> ServerConfigView {
        ServerConfigView {
            host: self.host@,
            port: self.port,
            metrics_enabled: self.metrics_enabled,
        }
    }
}

/// MQTT broker settings.
#[derive(Debug, Clone)]
pub struct MqttConfig {
    /// Whether updates are published to the broker at all
    pub enabled: bool,
    /// MQTT broker host
    pub host: String,
    /// MQTT broker port
    pub port: u16,
    /// Client ID
    pub client_id: String,
    /// Topic prefix
    pub topic_prefix: String,
    /// QoS level (0, 1, or 2)
    pub qos: u8,
    /// Username (optional)
    pub username: Option<String>,
    /// Password (optional)
    pub password: Option<String>,
}

pub struct MqttConfigView {
    pub enabled: bool,
    pub host: Seq<char>,
    pub port: u16,
    pub client_id: Seq<char>,
    pub topic_prefix: Seq<char>,
    pub qos: u8,
    pub username: Option<Seq<char>>,
    pub password: Option<Seq<char>>,
}

impl DeepView for MqttConfig {
    type V = MqttConfigView;

    open spec fn deep_view(&self) -> MqttConfigView {
        MqttConfigView {
            enabled: self.enabled,
            host: self.host@,
            port: self.port,
            client_id: self.client_id@,
            topic_prefix: self.topic_prefix@,
            qos: self.qos,
            username: self.username.deep_view(),
            password: self.password.deep_view(),
        }
    }
}

/// API-key authentication settings.
#[derive(Debug, Clone)]
pub struct AuthConfig {
    /// Whether requests are checked at all
    pub enabled: bool,
    /// Accepted keys
    pub api_keys: Vec<String>,
    /// Paths served without a key; a trailing `*` matches any continuation
    pub exclude_paths: Vec<String>,
}

pub struct AuthConfigView {
    pub enabled: bool,
    pub api_keys: Seq<Seq<char>>,
    pub exclude_paths: Seq<Seq<char>>,
}

impl DeepView for AuthConfig {
    type V = AuthConfigView;

    open spec fn deep_view(&self) -> AuthConfigView {
        AuthConfigView {
            enabled: self.enabled,
            api_keys: self.api_keys.deep_view(),
            exclude_paths: self.exclude_paths.deep_view(),
        }
    }
}

/// Transport family of a device.
#[derive(Debug, Clone, Copy, PartialEq, Eq, Structural)]
pub enum DeviceType {
    Tcp,
    Rtu,
}

/// Modbus TCP endpoint.
#[derive(Debug, Clone)]
pub struct TcpConnection {
    /// Host address
    pub host: String,
    /// Port (default: 502)
    pub port: u16,
    /// Modbus unit ID
    pub unit_id: u8,
}

pub struct TcpConnectionView {
    pub host: Seq<char>,
    pub port: u16,
    pub unit_id: u8,
}

impl DeepView for TcpConnection {
    type V = TcpConnectionView;

    open spec fn deep_view(&self) -> TcpConnectionView {
        TcpConnectionView { host: self.host@, port: self.port, unit_id: self.unit_id }
    }
}

/// Modbus RTU serial line.
#[derive(Debug, Clone)]
pub struct RtuConnection {
    /// Serial port path (e.g., /dev/ttyUSB0)
    pub port: String,
    /// Baud rate
    pub baud_rate: u32,
    /// Data bits
    pub data_bits: u8,
    /// Stop bits
    pub stop_bits: u8,
    /// Parity: "none", "even", "odd"
    pub parity: String,
    /// Modbus unit ID
    pub unit_id: u8,
}

pub struct RtuConnectionView {
    pub port: Seq<char>,
    pub baud_rate: u32,
    pub data_bits: u8,
    pub stop_bits: u8,
    pub parity: Seq<char>,
    pub unit_id: u8,
}

impl DeepView for RtuConnection {
    type V = RtuConnectionView;

    open spec fn deep_view(&self) -> RtuConnectionView {
        RtuConnectionView {
            port: self.port@,
            baud_rate: self.baud_rate,
            data_bits: self.data_bits,
            stop_bits: self.stop_bits,
            parity: self.parity@,
            unit_id: self.unit_id,
        }
    }
}

/// Connection settings of a device.
#[derive(Debug, Clone)]
pub enum ConnectionConfig {
    Tcp(TcpConnection),
    Rtu(RtuConnection),
}

pub enum ConnectionConfigView {
    Tcp(TcpConnectionView),
    Rtu(RtuConnectionView),
}

impl DeepView for ConnectionConfig {
    type V = ConnectionConfigView;

    open spec fn deep_view(&self) -> ConnectionConfigView {
        match self {
            ConnectionConfig::Tcp(tcp) => ConnectionConfigView::Tcp(tcp.deep_view()),
            ConnectionConfig::Rtu(rtu) => ConnectionConfigView::Rtu(rtu.deep_view()),
        }
    }
}

/// Modbus table a register lives in.
#[derive(Debug, Clone, Copy, PartialEq, Eq, Structural)]
pub enum RegisterType {
    Holding,
    Input,
    Coil,
    Discrete,
}

/// How the raw words of a register are interpreted.
#[derive(Debug, Clone, Copy, PartialEq, Eq, Structural)]
pub enum DataType {
    U16,
    I16,
    U32,
    I32,
    F32,
    Bool,
}

impl DataType {
    /// Number of 16-bit words the interpretation needs.
    pub open spec fn words_needed(self) -> nat {
        match self {
            DataType::U16 | DataType::I16 | DataType::Bool => 1,
            DataType::U32 | DataType::I32 | DataType::F32 => 2,
        }
    }

    /// Number of 16-bit words the interpretation needs.
    pub fn required_words(self) -> (n: usize)
        ensures
            n == self.words_needed(),
    {
        match self {
            DataType::U16 | DataType::I16 | DataType::Bool => 1,
            DataType::U32 | DataType::I32 | DataType::F32 => 2,
        }
    }
}

/// One register of a device. `scale` and `offset` are calibration factors
/// held as IEEE-754 binary64 bit patterns; the library carries them and never
/// computes with them.
#[derive(Debug, Clone)]
pub struct RegisterConfig {
    /// Register name
    pub name: String,
    /// Register address
    pub address: u16,
    /// Register type: "holding", "input", "coil", "discrete"
    pub register_type: RegisterType,
    /// Number of registers to read
    pub count: u16,
    /// Data type for interpretation
    pub data_type: DataType,
    /// Unit of measurement (optional)
    pub unit: Option<String>,
    /// Scaling factor (optional), as binary64 bits
    pub scale: Option<u64>,
    /// Offset (optional), as binary64 bits
    pub offset: Option<u64>,
}

pub struct RegisterConfigView {
    pub name: Seq<char>,
    pub address: u16,
    pub register_type: RegisterType,
    pub count: u16,
    pub data_type: DataType,
    pub unit: Option<Seq<char>>,
    pub scale: Option<u64>,
    pub offset: Option<u64>,
}

impl DeepView for RegisterConfig {
    type V = RegisterConfigView;

    open spec fn deep_view(&self) -> RegisterConfigView {
        RegisterConfigView {
            name: self.name@,
            address: self.address,
            register_type: self.register_type,
            count: self.count,
            data_type: self.data_type,
            unit: self.unit.deep_view(),
            scale: self.scale,
            offset: self.offset,
        }
    }
}

/// One polled device.
#[derive(Debug, Clone)]
pub struct DeviceConfig {
    /// Unique device ID
    pub id: String,
    /// Human-readable name
    pub name: String,
    /// Device type: "tcp" or "rtu"
    pub device_type: DeviceType,
    /// Connection settings
    pub connection: ConnectionConfig,
    /// Polling interval in milliseconds
    pub poll_interval_ms: u64,
    /// Registers to read
    pub registers: Vec<RegisterConfig>,
}

pub struct DeviceConfigView {
    pub id: Seq<char>,
    pub name: Seq<char>,
    pub device_type: DeviceType,
    pub connection: ConnectionConfigView,
    pub poll_interval_ms: u64,
    pub registers: Seq<RegisterConfigView>,
}

impl DeepView for DeviceConfig {
    type V = DeviceConfigView;

    open spec fn deep_view(&self) -> DeviceConfigView {
        DeviceConfigView {
            id: self.id@,
            name: self.name@,
            device_type: self.device_type,
            connection: self.connection.deep_view(),
            poll_interval_ms: self.poll_interval_ms,
            registers: self.registers.deep_view(),
        }
    }
}

/// `i` is the position of the first register called `name`.
pub open spec fn is_first_register(registers: Seq<RegisterConfigView>, name: Seq<char>, i: int) -> bool {
    &&& 0 <= i < registers.len()
    &&& registers[i].name == name
    &&& forall|j: int| 0 <= j < i ==> (#[trigger] registers[j]).name != name
}

/// `i` is the position of the first device with the id.
pub open spec fn is_first_device(devices: Seq<DeviceConfigView>, id: Seq<char>, i: int) -> bool {
    &&& 0 <= i < devices.len()
    &&& devices[i].id == id
    &&& forall|j: int| 0 <= j < i ==> (#[trigger] devices[j]).id != id
}

/// The first register called `name`, if there is one.
pub open spec fn register_named(registers: Seq<RegisterConfigView>, name: Seq<char>) -> Option<
    RegisterConfigView,
> {
    if exists|i: int| is_first_register(registers, name, i) {
        Some(registers[choose|i: int| is_first_register(registers, name, i)])
    } else {
        None
    }
}

/// The first device with the id, if there is one.
pub open spec fn device_with_id(devices: Seq<DeviceConfigView>, id: Seq<char>) -> Option<
    DeviceConfigView,
> {
    if exists|i: int| is_first_device(devices, id, i) {
        Some(devices[choose|i: int| is_first_device(devices, id, i)])
    } else {
        None
    }
}

impl DeviceConfig {
    /// Position of the first register called `name`.
    pub fn find_register(&self, name: &str) -> (found: Option<usize>)
        ensures
            match found {
                Some(i) => is_first_register(self.deep_view().registers, name@, i as int)
                    && register_named(self.deep_view().registers, name@) == Some(
                    self.registers[i as int].deep_view(),
                ),
                None => register_named(self.deep_view().registers, name@) is None,
            },
    {
        let ghost shown = self.deep_view().registers;
        let mut i: usize = 0;
        while i < self.registers.len()
            invariant
                i <= self.registers.len(),
                shown == self.registers.deep_view(),
                forall|j: int| 0 <= j < i ==> (#[trigger] shown[j]).name != name@,
            decreases self.registers.len() - i,
        {
            if str_eq(self.registers[i].name.as_str(), name) {
                proof {
                    assert(is_first_register(shown, name@, i as int));
                    let chosen = choose|k: int| is_first_register(shown, name@, k);
                    assert(chosen == i) by {
                        if chosen < i {
                            assert(shown[chosen].name != name@);
                        }
                        if i < chosen {
                            assert(shown[i as int].name != name@);
                        }
                    }
                }
                return Some(i);
            }
            i += 1;
        }
        None
    }
}

/// Position of the first device with the id.
pub fn find_device(devices: &Vec<DeviceConfig>, id: &str) -> (found: Option<usize>)
    ensures
        match found {
            Some(i) => is_first_device(devices.deep_view(), id@, i as int) && device_with_id(
                devices.deep_view(),
                id@,
            ) == Some(devices[i as int].deep_view()),
            None => device_with_id(devices.deep_view(), id@) is None,
        },
{
    let ghost shown = devices.deep_view();
    let mut i: usize = 0;
    while i < devices.len()
        invariant
            i <= devices.len(),
            shown == devices.deep_view(),
            forall|j: int| 0 <= j < i ==> (#[trigger] shown[j]).id != id@,
        decreases devices.len() - i,
    {
        if str_eq(devices[i].id.as_str(), id) {
            proof {
                assert(is_first_device(shown, id@, i as int));
                let chosen = choose|k: int| is_first_device(shown, id@, k);
                assert(chosen == i) by {
                    if chosen < i {
                        assert(shown[chosen].id != id@);
                    }
                    if i < chosen {
                        assert(shown[i as int].id != id@);
                    }
                }
            }
            return Some(i);
        }
        i += 1;
    }
    None
}

/// Main configuration structure
#[derive(Debug, Clone)]
pub struct Config {
    /// Server configuration
    pub server: ServerConfig,
    /// MQTT broker configuration
    pub mqtt: MqttConfig,
    /// API-key authentication
    pub auth: AuthConfig,
    /// List of Modbus devices
    pub devices: Vec<DeviceConfig>,
}

pub struct ConfigView {
    pub server: ServerConfigView,
    pub mqtt: MqttConfigView,
    pub auth: AuthConfigView,
    pub devices: Seq<DeviceConfigView>,
}

impl DeepView for Config {
    type V = ConfigView;

    open spec fn deep_view(&self) -> ConfigView {
        ConfigView {
            server: self.server.deep_view(),
            mqtt: self.mqtt.deep_view(),
            auth: self.auth.deep_view(),
            devices: self.devices.deep_view(),
        }
    }
}

/// The configuration used when no file is given: the API on every interface
/// at port 3000 with metrics, a broker on localhost, authentication off with
/// the health and metrics paths excluded, and no devices.
pub open spec fn default_config() -> ConfigView {
    ConfigView {
        server: ServerConfigView { host: "0.0.0.0"@, port: 3000, metrics_enabled: true },
        mqtt: MqttConfigView {
            enabled: true,
            host: "localhost"@,
            port: 1883,
            client_id: "rustbridge"@,
            topic_prefix: "rustbridge"@,
            qos: 1,
            username: None,
            password: None,
        },
        auth: AuthConfigView {
            enabled: false,
            api_keys: Seq::empty(),
            exclude_paths: seq!["/health"@, "/metrics"@],
        },
        devices: Seq::empty(),
    }
}

impl Default for Config {
    fn default() -> (config: Self)
        ensures
            config.deep_view() == default_config(),
    {
        let mut exclude_paths: Vec<String> = Vec::new();
        exclude_paths.push("/health".to_string());
        exclude_paths.push("/metrics".to_string());
        let config = Self {
            server: ServerConfig {
                host: "0.0.0.0".to_string(),
                port: 3000,
                metrics_enabled: true,
            },
            mqtt: MqttConfig {
                enabled: true,
                host: "localhost".to_string(),
                port: 1883,
                client_id: "rustbridge".to_string(),
                topic_prefix: "rustbridge".to_string(),
                qos: 1,
                username: None,
                password: None,
            },
            auth: AuthConfig { enabled: false, api_keys: Vec::new(), exclude_paths },
            devices: Vec::new(),
        };
        assert(config.auth.api_keys.deep_view() =~= Seq::<Seq<char>>::empty());
        assert(config.auth.exclude_paths.deep_view() =~= seq!["/health"@, "/metrics"@]);
        assert(config.devices.deep_view() =~= Seq::<DeviceConfigView>::empty());
        config
    }
}

} // verus!
