//! A protocol-aware proxy core for a MySensors home-automation network.
//!
//! The library contains the verified logic of the proxy: the wire codec for
//! MySensors ASCII frames and their binary firmware payloads, the firmware
//! store with its integrity invariants, the per-family message handlers
//! (node-id allocation, sensor registry, state relay, OTA block delivery),
//! the interceptor that routes inbound lines, and the pure decision parts of
//! the transport layer (MQTT topic mapping, link supervision, configuration).
//! The I/O that surrounds this logic lives outside the library.

pub mod config;
pub mod firmware;
pub mod handlers;
pub mod interceptor;
pub mod message;
pub mod proto;
pub mod store;
pub mod transport;
pub mod wire;
