//! MQTT publishing: topics, delivery guarantees and what is published for a
//! register value or a device status.
//!
//! The broker connection is the caller's. The functions here say what goes
//! out on it.

use crate::api::RegisterUpdate;
use crate::config::{MqttConfig, MqttConfigView};
use crate::modbus::reader::RegisterValue;
use crate::text::clone_optional;
use vstd::prelude::*;
use vstd::string::StringExecFns;

verus! {

broadcast use vstd::string::group_string_axioms;

/// Keep-alive interval of the broker connection, in seconds.
pub const KEEP_ALIVE_SECS: u64 = 30;

/// Capacity of the client's request queue.
pub const REQUEST_CAPACITY: usize = 100;

/// Pause after a connection error before the event loop polls again, in
/// seconds.
pub const RETRY_DELAY_SECS: u64 = 5;

/// MQTT delivery guarantee.
#[derive(Debug, Clone, Copy, PartialEq, Eq, Structural)]
pub enum QoS {
    AtMostOnce,
    AtLeastOnce,
    ExactlyOnce,
}

/// Whether a configured level names a delivery guarantee.
pub open spec fn is_qos_level(level: u8) -> bool {
    level <= 2
}

/// The delivery guarantee of a configured level; a level that names none
/// stands for at-least-once.
pub open spec fn qos_of(level: u8) -> QoS {
    if level == 0 {
        QoS::AtMostOnce
    } else if level == 2 {
        QoS::ExactlyOnce
    } else {
        QoS::AtLeastOnce
    }
}

/// Maps a configured level to a delivery guarantee, and says whether the
/// level was valid (an invalid one deserves a warning).
pub fn qos_from_level(level: u8) -> (mapped: (QoS, bool))
    ensures
        mapped.0 == qos_of(level),
        mapped.1 == is_qos_level(level),
{
    match level {
        0 => (QoS::AtMostOnce, true),
        1 => (QoS::AtLeastOnce, true),
        2 => (QoS::ExactlyOnce, true),
        _ => (QoS::AtLeastOnce, false),
    }
}

/// Credentials are used only where both a user name and a password are set.
pub open spec fn credentials_of(config: MqttConfigView) -> Option<(Seq<char>, Seq<char>)> {
    match (config.username, config.password) {
        (Some(user), Some(pass)) => Some((user, pass)),
        _ => None,
    }
}

/// The user name and password to connect with, if any.
pub fn credentials(config: &MqttConfig) -> (login: Option<(String, String)>)
    ensures
        match login {
            Some((user, pass)) => credentials_of(config.deep_view()) == Some((user@, pass@)),
            None => credentials_of(config.deep_view()) is None,
        },
{
    match (&config.username, &config.password) {
        (Some(user), Some(pass)) => Some((user.clone(), pass.clone())),
        _ => None,
    }
}

/// What a message carries.
#[derive(Debug)]
pub enum Payload {
    /// A register value, sent as a JSON object with the members `value`,
    /// `raw`, `unit` and `timestamp`. `value` is held as binary64 bits.
    Value { value: u64, raw: Vec<u16>, unit: Option<String>, timestamp: String },
    /// Plain text.
    Text(&'static str),
}

pub enum PayloadView {
    Value { value: u64, raw: Seq<u16>, unit: Option<Seq<char>>, timestamp: Seq<char> },
    Text(Seq<char>),
}

impl DeepView for Payload {
    type V = PayloadView;

    open spec fn deep_view(&self) -> PayloadView {
        match self {
            Payload::Value { value, raw, unit, timestamp } => PayloadView::Value {
                value: *value,
                raw: raw@,
                unit: unit.deep_view(),
                timestamp: timestamp@,
            },
            Payload::Text(text) => PayloadView::Text(text@),
        }
    }
}

/// One message for the broker.
#[derive(Debug)]
pub struct Publication {
    pub topic: String,
    pub qos: QoS,
    pub retain: bool,
    pub payload: Payload,
}

pub struct PublicationView {
    pub topic: Seq<char>,
    pub qos: QoS,
    pub retain: bool,
    pub payload: PayloadView,
}

impl DeepView for Publication {
    type V = PublicationView;

    open spec fn deep_view(&self) -> PublicationView {
        PublicationView {
            topic: self.topic@,
            qos: self.qos,
            retain: self.retain,
            payload: self.payload.deep_view(),
        }
    }
}

/// The topic of a register: `{prefix}/{device}/{register}`.
pub open spec fn register_topic(prefix: Seq<char>, device_id: Seq<char>, name: Seq<char>) -> Seq<char> {
    prefix + "/"@ + device_id + "/"@ + name
}

/// The topic of a device's status: `{prefix}/{device}/status`.
pub open spec fn status_topic(prefix: Seq<char>, device_id: Seq<char>) -> Seq<char> {
    prefix + "/"@ + device_id + "/status"@
}

/// The text that stands for a connectivity status.
pub open spec fn status_text(online: bool) -> Seq<char> {
    if online {
        "online"@
    } else {
        "offline"@
    }
}

/// MQTT Publisher for sending register values
#[derive(Debug)]
pub struct MqttPublisher {
    pub topic_prefix: String,
    pub qos: QoS,
}

impl MqttPublisher {
    /// Create a new MQTT publisher: it publishes under the configured
    /// prefix with the configured delivery guarantee.
    pub fn new(config: &MqttConfig) -> (publisher: Self)
        ensures
            publisher.topic_prefix@ == config.topic_prefix@,
            publisher.qos == qos_of(config.qos),
    {
        let (qos, _) = qos_from_level(config.qos);
        Self { topic_prefix: config.topic_prefix.clone(), qos }
    }

    /// Publish a register value: unretained, on the register's topic.
    pub fn publish(&self, device_id: &str, value: &RegisterValue) -> (message: Publication)
        ensures
            message.deep_view() == (PublicationView {
                topic: register_topic(self.topic_prefix@, device_id@, value.name@),
                qos: self.qos,
                retain: false,
                payload: PayloadView::Value {
                    value: value.value,
                    raw: value.raw@,
                    unit: value.unit.deep_view(),
                    timestamp: value.timestamp.text(),
                },
            }),
    {
        let topic = self.topic_prefix.clone().concat("/").concat(device_id).concat("/").concat(
            value.name.as_str(),
        );
        Publication {
            topic,
            qos: self.qos,
            retain: false,
            payload: Payload::Value {
                value: value.value,
                raw: value.raw.clone(),
                unit: clone_optional(&value.unit),
                timestamp: value.timestamp.to_rfc3339(),
            },
        }
    }

    /// Publish an update from the bus: unretained, on the topic of the
    /// update's register.
    pub fn publish_update(&self, update: &RegisterUpdate) -> (message: Publication)
        ensures
            message.deep_view() == (PublicationView {
                topic: register_topic(
                    self.topic_prefix@,
                    update.device_id@,
                    update.register_name@,
                ),
                qos: self.qos,
                retain: false,
                payload: PayloadView::Value {
                    value: update.value,
                    raw: update.raw@,
                    unit: update.unit.deep_view(),
                    timestamp: update.timestamp@,
                },
            }),
    {
        let topic = self.topic_prefix.clone().concat("/").concat(update.device_id.as_str()).concat(
            "/",
        ).concat(update.register_name.as_str());
        Publication {
            topic,
            qos: self.qos,
            retain: false,
            payload: Payload::Value {
                value: update.value,
                raw: update.raw.clone(),
                unit: clone_optional(&update.unit),
                timestamp: update.timestamp.clone(),
            },
        }
    }

    /// Publish device status: retained, on the device's status topic.
    pub fn publish_status(&self, device_id: &str, online: bool) -> (message: Publication)
        ensures
            message.deep_view() == (PublicationView {
                topic: status_topic(self.topic_prefix@, device_id@),
                qos: self.qos,
                retain: true,
                payload: PayloadView::Text(status_text(online)),
            }),
    {
        let topic = self.topic_prefix.clone().concat("/").concat(device_id).concat("/status");
        Publication {
            topic,
            qos: self.qos,
            retain: true,
            payload: Payload::Text(
                if online {
                    "online"
                } else {
                    "offline"
                },
            ),
        }
    }
}

} // verus!
