//! Security manager module: the record value types and their fixed-layout
//! little-endian codec.

pub use self::aps_key_metadata::ApsKeyMetadata;
pub use self::context::Context;
pub use self::derived_key_type::DerivedKeyType;
pub use self::eui64::Eui64;
pub use self::flags::Flags;
pub use self::key::Key;
pub use self::key_type::KeyType;
pub use self::network_key_info::NetworkKeyInfo;

pub mod aps_key_metadata;
pub mod context;
pub mod derived_key_type;
pub mod eui64;
pub mod flags;
pub mod key;
pub mod key_type;
pub mod network_key_info;
