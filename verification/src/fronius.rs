//! The inverter's API: its response model, the client that reads replies, and
//! the locator that finds the device on the network.

pub mod client;
pub mod mdns;
pub mod model;
