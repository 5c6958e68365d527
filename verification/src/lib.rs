//! Common data structures shared across embedded firmware platforms: the
//! numeric status-code taxonomy and the fixed-layout little-endian codec for
//! Zigbee security-manager records.

pub use status::{Space, Status};

pub mod error;
pub mod render;
pub mod status;
pub mod wire;
pub mod zigbee;
