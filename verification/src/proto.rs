//! The MySensors frame codec: typed messages for each command family,
//! parsing of `;`-separated ASCII lines and rendering back to them.

pub mod command;
pub mod error;
pub mod internal;
pub mod presentation;
pub mod set_msg;
pub mod stream;
