//! Verified core of an industrial protocol bridge: Modbus register decoding,
//! the register store, and the decisions behind the REST, WebSocket and MQTT
//! egress channels.

pub mod api;
pub mod assoc;
pub mod bridge;
pub mod bus;
pub mod config;
pub mod metrics;
pub mod modbus;
pub mod mqtt;
pub mod text;
pub mod timestamp;
