//! Zigbee data structures.

pub mod security;
