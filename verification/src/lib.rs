//! Telemetry of a Fronius solar inverter, decoded from its JSON API and
//! turned into labelled gauge observations.
//!
//! The crate performs no I/O. A caller fetches the bytes, hands them over and
//! carries out what the library decides.

pub mod cli;
pub mod decode;
pub mod fronius;
pub mod gauges;
pub mod json;
pub mod poll;
pub mod quantity;
pub mod string_map;
pub mod text;
