//! Zigbee security management.

pub mod man;

use crate::error::CodecError;
use crate::wire::{byte_bool, bool_byte, get_bytes16, get_u16, get_u32, get_u64, spec_bool_byte,
    spec_byte_bool};
use core::time::Duration;
use man::Eui64;
use vstd::bytes::{
    spec_u16_from_le_bytes, spec_u16_to_le_bytes, spec_u32_from_le_bytes, spec_u32_to_le_bytes,
    spec_u64_from_le_bytes, spec_u64_to_le_bytes, u16_to_le_bytes, u32_to_le_bytes,
    u64_to_le_bytes,
};
use vstd::prelude::*;

verus! {

/// The key data passed into various security-manager functions: a fixed
/// 16-byte opaque blob, never interpreted here.
pub type ManKey = [u8; 16];

/// Context for Zigbee Security Manager operations, generic over the
/// representation of the device address so different concrete address types
/// can be carried without this library hard-coding one.
///
/// Unlike [`man::Context`], this form holds the full 16-byte key data
/// in line; its wire width is 16 + 1 + 1 + 8 + 1 + 1 + 4 = 32 bytes when the
/// address is the library's own eight-byte [`Eui64`].
#[derive(Clone, Debug, Eq, Hash, PartialEq)]
pub struct ManContext<Eui64> where Eui64: Copy {
    /// The key data being referenced.
    pub core_key_type: ManKey,
    /// The index of the referenced key.
    pub key_index: u8,
    /// The raw tag of the key derivation operation to perform.
    pub derived_type: u8,
    /// The device address associated with the key.
    pub eui64: Eui64,
    /// The multi-network index.
    pub multi_network_index: u8,
    /// The raw flag bitmask.
    pub flags: u8,
    /// The algorithm to use with this key (for PSA APIs).
    pub psa_key_alg_permission: u32,
}

impl<Eui64> ManContext<Eui64> where Eui64: Copy {
    /// Creates a new `ManContext`.
    pub fn new(
        core_key_type: ManKey,
        key_index: u8,
        derived_type: u8,
        eui64: Eui64,
        multi_network_index: u8,
        flags: u8,
        psa_key_alg_permission: u32,
    ) -> (r: ManContext<Eui64>)
        ensures
            r == (ManContext {
                core_key_type,
                key_index,
                derived_type,
                eui64,
                multi_network_index,
                flags,
                psa_key_alg_permission,
            }),
    {
        ManContext {
            core_key_type,
            key_index,
            derived_type,
            eui64,
            multi_network_index,
            flags,
            psa_key_alg_permission,
        }
    }

    /// Returns the key data being referenced.
    pub fn core_key_type(&self) -> (r: &ManKey)
        ensures
            *r == self.core_key_type,
    {
        &self.core_key_type
    }

    /// Returns the index of the referenced key.
    pub fn key_index(&self) -> (r: u8)
        ensures
            r == self.key_index,
    {
        self.key_index
    }

    /// Returns the raw tag of the key derivation operation to perform.
    pub fn derived_type(&self) -> (r: u8)
        ensures
            r == self.derived_type,
    {
        self.derived_type
    }

    /// Returns the device address associated with this key.
    pub fn eui64(&self) -> (r: Eui64)
        ensures
            r == self.eui64,
    {
        self.eui64
    }

    /// Returns the multi-network index.
    pub fn multi_network_index(&self) -> (r: u8)
        ensures
            r == self.multi_network_index,
    {
        self.multi_network_index
    }

    /// Returns the raw flag bitmask.
    pub fn flags(&self) -> (r: u8)
        ensures
            r == self.flags,
    {
        self.flags
    }

    /// Returns the algorithm to use with this key (for PSA APIs).
    pub fn psa_key_alg_permission(&self) -> (r: u32)
        ensures
            r == self.psa_key_alg_permission,
    {
        self.psa_key_alg_permission
    }
}

impl ManContext<Eui64> {
    /// The record's thirty-two wire bytes: fields in declaration order, the
    /// key bytes in buffer order, multi-byte integers little-endian.
    pub open spec fn spec_to_le_bytes(self) -> Seq<u8> {
        self.core_key_type@ + seq![self.key_index, self.derived_type]
            + spec_u64_to_le_bytes(self.eui64.0)
            + seq![self.multi_network_index, self.flags]
            + spec_u32_to_le_bytes(self.psa_key_alg_permission)
    }

    /// The record read back from a buffer: underruns are rejected; bytes
    /// beyond the fixed width are ignored. Tags and flags are stored raw, so
    /// underrun is the only failure. The key array is the unique sixteen-byte
    /// array whose view equals the leading bytes.
    pub open spec fn spec_from_le_bytes(bytes: Seq<u8>) -> Result<ManContext<Eui64>, CodecError> {
        if bytes.len() < 32 {
            Err(CodecError::BufferTooShort)
        } else {
            Ok(ManContext {
                core_key_type: choose|k: ManKey| k@ == bytes.subrange(0, 16),
                key_index: bytes[16],
                derived_type: bytes[17],
                eui64: Eui64(spec_u64_from_le_bytes(bytes.subrange(18, 26))),
                multi_network_index: bytes[26],
                flags: bytes[27],
                psa_key_alg_permission: spec_u32_from_le_bytes(bytes.subrange(28, 32)),
            })
        }
    }

    /// Encodes the record; always exactly thirty-two bytes, never fails.
    pub fn to_le_bytes(&self) -> (r: Vec<u8>)
        ensures
            r@ == self.spec_to_le_bytes(),
            r@.len() == 32,
    {
        let mut out: Vec<u8> = Vec::new();
        out.extend_from_slice(self.core_key_type.as_slice());
        out.push(self.key_index);
        out.push(self.derived_type);
        let mut eui = u64_to_le_bytes(self.eui64.0);
        out.append(&mut eui);
        out.push(self.multi_network_index);
        out.push(self.flags);
        let mut psa = u32_to_le_bytes(self.psa_key_alg_permission);
        out.append(&mut psa);
        proof {
            assert(out@ =~= self.spec_to_le_bytes());
        }
        out
    }

    /// Decodes a record from the first thirty-two bytes of the buffer. A
    /// shorter buffer yields `BufferTooShort`, never a panic or a partial
    /// value.
    pub fn from_le_bytes(bytes: &[u8]) -> (r: Result<ManContext<Eui64>, CodecError>)
        ensures
            r == ManContext::<Eui64>::spec_from_le_bytes(bytes@),
    {
        if bytes.len() < 32 {
            return Err(CodecError::BufferTooShort);
        }
        let r = ManContext {
            core_key_type: get_bytes16(bytes, 0),
            key_index: bytes[16],
            derived_type: bytes[17],
            eui64: Eui64(get_u64(bytes, 18)),
            multi_network_index: bytes[26],
            flags: bytes[27],
            psa_key_alg_permission: get_u32(bytes, 28),
        };
        proof {
            let chosen = choose|k: ManKey| k@ == bytes@.subrange(0, 16);
            assert(r.core_key_type@ == bytes@.subrange(0, 16));
            assert(chosen =~= r.core_key_type);
        }
        Ok(r)
    }

    /// Codec round trip: every record decodes back from its own encoding.
    pub proof fn lemma_le_round_trip(self)
        ensures
            ManContext::<Eui64>::spec_from_le_bytes(self.spec_to_le_bytes()) == Ok::<_, CodecError>(self),
    {
        vstd::bytes::lemma_auto_spec_u32_to_from_le_bytes();
        vstd::bytes::lemma_auto_spec_u64_to_from_le_bytes();
        let encoded = self.spec_to_le_bytes();
        assert(encoded.subrange(0, 16) =~= self.core_key_type@);
        assert(encoded.subrange(18, 26) =~= spec_u64_to_le_bytes(self.eui64.0));
        assert(encoded.subrange(28, 32) =~= spec_u32_to_le_bytes(self.psa_key_alg_permission));
        let chosen = choose|k: ManKey| k@ == encoded.subrange(0, 16);
        assert(chosen =~= self.core_key_type);
    }
}

/// Metadata pertaining to the network key. The flat security-manager form of
/// [`man::NetworkKeyInfo`], with the same eight-byte wire layout.
#[derive(Clone, Copy, Debug, Eq, Hash, PartialEq, Structural)]
pub struct ManNetworkKeyInfo {
    /// Whether the network key is set.
    pub network_key_set: bool,
    /// Whether the alternate network key is set.
    pub alternate_network_key_set: bool,
    /// The network key sequence number.
    pub network_key_sequence_number: u8,
    /// The alternate network key sequence number.
    pub alt_network_key_sequence_number: u8,
    /// The network key frame counter.
    pub network_key_frame_counter: u32,
}

impl ManNetworkKeyInfo {
    /// Creates a new `ManNetworkKeyInfo`.
    pub fn new(
        network_key_set: bool,
        alternate_network_key_set: bool,
        network_key_sequence_number: u8,
        alt_network_key_sequence_number: u8,
        network_key_frame_counter: u32,
    ) -> (r: ManNetworkKeyInfo)
        ensures
            r == (ManNetworkKeyInfo {
                network_key_set,
                alternate_network_key_set,
                network_key_sequence_number,
                alt_network_key_sequence_number,
                network_key_frame_counter,
            }),
    {
        ManNetworkKeyInfo {
            network_key_set,
            alternate_network_key_set,
            network_key_sequence_number,
            alt_network_key_sequence_number,
            network_key_frame_counter,
        }
    }

    /// Returns whether the network key is set.
    pub fn network_key_set(&self) -> (r: bool)
        ensures
            r == self.network_key_set,
    {
        self.network_key_set
    }

    /// Returns whether the alternate network key is set.
    pub fn alternate_network_key_set(&self) -> (r: bool)
        ensures
            r == self.alternate_network_key_set,
    {
        self.alternate_network_key_set
    }

    /// Returns the network key sequence number.
    pub fn network_key_sequence_number(&self) -> (r: u8)
        ensures
            r == self.network_key_sequence_number,
    {
        self.network_key_sequence_number
    }

    /// Returns the alternate network key sequence number.
    pub fn alt_network_key_sequence_number(&self) -> (r: u8)
        ensures
            r == self.alt_network_key_sequence_number,
    {
        self.alt_network_key_sequence_number
    }

    /// Returns the network key frame counter.
    pub fn network_key_frame_counter(&self) -> (r: u32)
        ensures
            r == self.network_key_frame_counter,
    {
        self.network_key_frame_counter
    }

    /// The record's eight wire bytes: the two canonical boolean bytes, the
    /// two sequence numbers, then the frame counter little-endian.
    pub open spec fn spec_to_le_bytes(self) -> Seq<u8> {
        seq![
            spec_bool_byte(self.network_key_set),
            spec_bool_byte(self.alternate_network_key_set),
            self.network_key_sequence_number,
            self.alt_network_key_sequence_number,
        ] + spec_u32_to_le_bytes(self.network_key_frame_counter)
    }

    /// The record read back from a buffer: underruns are rejected, as is a
    /// non-canonical boolean byte; bytes beyond the fixed width are ignored.
    pub open spec fn spec_from_le_bytes(bytes: Seq<u8>) -> Result<ManNetworkKeyInfo, CodecError> {
        if bytes.len() < 8 {
            Err(CodecError::BufferTooShort)
        } else {
            match (spec_byte_bool(bytes[0]), spec_byte_bool(bytes[1])) {
                (Ok(network_key_set), Ok(alternate_network_key_set)) => Ok(
                    ManNetworkKeyInfo {
                        network_key_set,
                        alternate_network_key_set,
                        network_key_sequence_number: bytes[2],
                        alt_network_key_sequence_number: bytes[3],
                        network_key_frame_counter: spec_u32_from_le_bytes(bytes.subrange(4, 8)),
                    },
                ),
                (Err(e), _) => Err(e),
                (_, Err(e)) => Err(e),
            }
        }
    }

    /// Encodes the record; always exactly eight bytes, never fails.
    pub fn to_le_bytes(&self) -> (r: Vec<u8>)
        ensures
            r@ == self.spec_to_le_bytes(),
            r@.len() == 8,
    {
        let mut out: Vec<u8> = Vec::new();
        out.push(bool_byte(self.network_key_set));
        out.push(bool_byte(self.alternate_network_key_set));
        out.push(self.network_key_sequence_number);
        out.push(self.alt_network_key_sequence_number);
        let mut counter = u32_to_le_bytes(self.network_key_frame_counter);
        out.append(&mut counter);
        proof {
            assert(out@ =~= self.spec_to_le_bytes());
        }
        out
    }

    /// Decodes a record from the first eight bytes of the buffer. A shorter
    /// buffer yields `BufferTooShort`, never a panic or a partial value; a
    /// boolean byte other than `0x00`/`0x01` yields `InvalidDiscriminant`
    /// carrying that byte, the first offender winning.
    pub fn from_le_bytes(bytes: &[u8]) -> (r: Result<ManNetworkKeyInfo, CodecError>)
        ensures
            r == ManNetworkKeyInfo::spec_from_le_bytes(bytes@),
    {
        if bytes.len() < 8 {
            return Err(CodecError::BufferTooShort);
        }
        let network_key_set = match byte_bool(bytes[0]) {
            Ok(b) => b,
            Err(e) => {
                return Err(e);
            },
        };
        let alternate_network_key_set = match byte_bool(bytes[1]) {
            Ok(b) => b,
            Err(e) => {
                return Err(e);
            },
        };
        Ok(ManNetworkKeyInfo {
            network_key_set,
            alternate_network_key_set,
            network_key_sequence_number: bytes[2],
            alt_network_key_sequence_number: bytes[3],
            network_key_frame_counter: get_u32(bytes, 4),
        })
    }

    /// Codec round trip: every record decodes back from its own encoding.
    pub proof fn lemma_le_round_trip(self)
        ensures
            ManNetworkKeyInfo::spec_from_le_bytes(self.spec_to_le_bytes()) == Ok::<_, CodecError>(self),
    {
        vstd::bytes::lemma_auto_spec_u32_to_from_le_bytes();
        assert(self.spec_to_le_bytes().subrange(4, 8) =~= spec_u32_to_le_bytes(
            self.network_key_frame_counter,
        ));
    }
}

/// Metadata pertaining to an APS key, generic over the representation of the
/// policy bitmask.
#[derive(Clone, Copy, Debug, Eq, Hash, PartialEq)]
pub struct ManApsKeyMetadata<Bitmask> where Bitmask: Copy {
    /// The policy bitmask.
    pub bitmask: Bitmask,
    /// The outgoing frame counter.
    pub outgoing_frame_counter: u32,
    /// The incoming frame counter.
    pub incoming_frame_counter: u32,
    /// The time-to-live in whole seconds.
    pub ttl_in_seconds: u16,
}

impl<Bitmask> ManApsKeyMetadata<Bitmask> where Bitmask: Copy {
    /// Creates a new `ManApsKeyMetadata`.
    pub fn new(
        bitmask: Bitmask,
        outgoing_frame_counter: u32,
        incoming_frame_counter: u32,
        ttl_in_seconds: u16,
    ) -> (r: ManApsKeyMetadata<Bitmask>)
        ensures
            r == (ManApsKeyMetadata {
                bitmask,
                outgoing_frame_counter,
                incoming_frame_counter,
                ttl_in_seconds,
            }),
    {
        ManApsKeyMetadata {
            bitmask,
            outgoing_frame_counter,
            incoming_frame_counter,
            ttl_in_seconds,
        }
    }

    /// Returns the bitmask.
    pub fn bitmask(&self) -> (r: Bitmask)
        ensures
            r == self.bitmask,
    {
        self.bitmask
    }

    /// Returns the outgoing frame counter.
    pub fn outgoing_frame_counter(&self) -> (r: u32)
        ensures
            r == self.outgoing_frame_counter,
    {
        self.outgoing_frame_counter
    }

    /// Returns the incoming frame counter.
    pub fn incoming_frame_counter(&self) -> (r: u32)
        ensures
            r == self.incoming_frame_counter,
    {
        self.incoming_frame_counter
    }

    /// Returns the time-to-live in seconds.
    pub fn ttl_in_seconds(&self) -> (r: u16)
        ensures
            r == self.ttl_in_seconds,
    {
        self.ttl_in_seconds
    }

    /// Returns the time-to-live as a `Duration` of exactly that many whole
    /// seconds; pure, no rounding, no fallible path.
    pub fn ttl(&self) -> (r: Duration)
        ensures
            r == man::aps_key_metadata::duration_of(self.ttl_in_seconds as u64),
    {
        Duration::from_secs(self.ttl_in_seconds as u64)
    }
}

impl ManApsKeyMetadata<u16> {
    /// The record's twelve wire bytes: fields in declaration order, each
    /// multi-byte integer least-significant-byte first.
    pub open spec fn spec_to_le_bytes(self) -> Seq<u8> {
        spec_u16_to_le_bytes(self.bitmask) + spec_u32_to_le_bytes(self.outgoing_frame_counter)
            + spec_u32_to_le_bytes(self.incoming_frame_counter) + spec_u16_to_le_bytes(
            self.ttl_in_seconds,
        )
    }

    /// The record read back from a buffer: underruns are rejected; bytes
    /// beyond the fixed width are ignored. Every field accepts any value of
    /// its type, so underrun is the only failure.
    pub open spec fn spec_from_le_bytes(bytes: Seq<u8>) -> Result<
        ManApsKeyMetadata<u16>,
        CodecError,
    > {
        if bytes.len() < 12 {
            Err(CodecError::BufferTooShort)
        } else {
            Ok(ManApsKeyMetadata {
                bitmask: spec_u16_from_le_bytes(bytes.subrange(0, 2)),
                outgoing_frame_counter: spec_u32_from_le_bytes(bytes.subrange(2, 6)),
                incoming_frame_counter: spec_u32_from_le_bytes(bytes.subrange(6, 10)),
                ttl_in_seconds: spec_u16_from_le_bytes(bytes.subrange(10, 12)),
            })
        }
    }

    /// Encodes the record; always exactly twelve bytes, never fails.
    pub fn to_le_bytes(&self) -> (r: Vec<u8>)
        ensures
            r@ == self.spec_to_le_bytes(),
            r@.len() == 12,
    {
        let mut out: Vec<u8> = u16_to_le_bytes(self.bitmask);
        let mut outgoing = u32_to_le_bytes(self.outgoing_frame_counter);
        let mut incoming = u32_to_le_bytes(self.incoming_frame_counter);
        let mut ttl_bytes = u16_to_le_bytes(self.ttl_in_seconds);
        out.append(&mut outgoing);
        out.append(&mut incoming);
        out.append(&mut ttl_bytes);
        proof {
            assert(out@ =~= self.spec_to_le_bytes());
        }
        out
    }

    /// Decodes a record from the first twelve bytes of the buffer. A shorter
    /// buffer yields `BufferTooShort`, never a panic or a partial value.
    pub fn from_le_bytes(bytes: &[u8]) -> (r: Result<ManApsKeyMetadata<u16>, CodecError>)
        ensures
            r == ManApsKeyMetadata::<u16>::spec_from_le_bytes(bytes@),
    {
        if bytes.len() < 12 {
            return Err(CodecError::BufferTooShort);
        }
        Ok(ManApsKeyMetadata {
            bitmask: get_u16(bytes, 0),
            outgoing_frame_counter: get_u32(bytes, 2),
            incoming_frame_counter: get_u32(bytes, 6),
            ttl_in_seconds: get_u16(bytes, 10),
        })
    }

    /// Codec round trip: every record decodes back from its own encoding.
    pub proof fn lemma_le_round_trip(self)
        ensures
            ManApsKeyMetadata::<u16>::spec_from_le_bytes(self.spec_to_le_bytes()) == Ok::<_, CodecError>(self),
    {
        vstd::bytes::lemma_auto_spec_u16_to_from_le_bytes();
        vstd::bytes::lemma_auto_spec_u32_to_from_le_bytes();
        let encoded = self.spec_to_le_bytes();
        assert(encoded.subrange(0, 2) =~= spec_u16_to_le_bytes(self.bitmask));
        assert(encoded.subrange(2, 6) =~= spec_u32_to_le_bytes(self.outgoing_frame_counter));
        assert(encoded.subrange(6, 10) =~= spec_u32_to_le_bytes(self.incoming_frame_counter));
        assert(encoded.subrange(10, 12) =~= spec_u16_to_le_bytes(self.ttl_in_seconds));
    }
}

/// Security Manager context flags, as a closed enumeration of the single
/// named bit values.
///
/// The combinable bitmask form lives in [`man::Flags`]; this enumeration
/// names the individual values as the flat security-manager interface lists
/// them.
#[derive(Clone, Copy, Debug, Eq, Hash, PartialEq, Ord, PartialOrd, Structural)]
pub enum ManFlags {
    /// No flags are set.
    NoFlags,
    /// For export APIs, the key-index field of the context is valid; set by
    /// the caller when intending to search for a key by index. No
    /// significance for import APIs.
    KeyIndexIsValid,
    /// For export APIs, the EUI64 field of the context is valid; set by the
    /// caller when intending to search for a key by EUI64, and when a search
    /// by index finds an entry. No significance for import APIs.
    EuiIsValid,
    /// Internal use only: the transient key being added is an unconfirmed,
    /// updated key, awaiting a Verify Key Confirm message.
    UnconfirmedTransientKey,
}

impl ManFlags {
    /// The fixed one-byte bit value of the variant.
    pub open spec fn spec_value(self) -> u8 {
        match self {
            ManFlags::NoFlags => 0x00,
            ManFlags::KeyIndexIsValid => 0x01,
            ManFlags::EuiIsValid => 0x02,
            ManFlags::UnconfirmedTransientKey => 0x04,
        }
    }

    /// The variant, if any, with the given bit value.
    pub open spec fn spec_from_value(value: u8) -> Option<ManFlags> {
        if value == 0x00 {
            Some(ManFlags::NoFlags)
        } else if value == 0x01 {
            Some(ManFlags::KeyIndexIsValid)
        } else if value == 0x02 {
            Some(ManFlags::EuiIsValid)
        } else if value == 0x04 {
            Some(ManFlags::UnconfirmedTransientKey)
        } else {
            None
        }
    }

    /// Returns the variant's one-byte bit value; total, never fails.
    pub fn to_u8(self) -> (value: u8)
        ensures
            value == self.spec_value(),
    {
        match self {
            ManFlags::NoFlags => 0x00,
            ManFlags::KeyIndexIsValid => 0x01,
            ManFlags::EuiIsValid => 0x02,
            ManFlags::UnconfirmedTransientKey => 0x04,
        }
    }

    /// Looks a raw byte up among the single named bit values; any other
    /// byte — combined masks included — yields `None`.
    pub fn from_u8(value: u8) -> (r: Option<ManFlags>)
        ensures
            r == ManFlags::spec_from_value(value),
    {
        match value {
            0x00 => Some(ManFlags::NoFlags),
            0x01 => Some(ManFlags::KeyIndexIsValid),
            0x02 => Some(ManFlags::EuiIsValid),
            0x04 => Some(ManFlags::UnconfirmedTransientKey),
            _ => None,
        }
    }

    /// Every defined flag decodes back from its own bit value.
    pub proof fn lemma_value_round_trip(self)
        ensures
            ManFlags::spec_from_value(self.spec_value()) == Some(self),
    {
    }
}

/// The list of supported key types used by the Zigbee Security Manager, as
/// the flat security-manager interface lists them.
#[derive(Clone, Copy, Debug, Eq, Hash, PartialEq, Ord, PartialOrd, Structural)]
pub enum ManKeyType {
    /// No key type.
    NoKey,
    /// The network key, used for encrypting and decrypting network payloads.
    /// There is only one of these keys in storage.
    Network,
    /// The Trust Center Link Key: on the joining device, the APS key used to
    /// communicate with the trust center; on the trust center, usable as a
    /// root key for APS encryption and decryption with joining devices.
    /// There is only one of these keys in storage.
    TcLink,
    /// A Trust Center Link Key that times out. Set on trust centers who wish
    /// to open joining with a temporary, transient APS key; joiners may set
    /// several before attempting to join. Indexed, bounded by available RAM.
    TcLinkWithTimeout,
    /// An Application link key, used by both sides in APS encryption and
    /// decryption when communicating with a joining device. An indexed key
    /// table, bounded by nonvolatile storage.
    AppLink,
    /// The ZLL encryption key for use by algorithms that require it.
    ZllEncryptionKey,
    /// For ZLL, the pre-configured link key used during classical
    /// commissioning.
    ZllPreconfiguredKey,
    /// A Green Power Device key used on a Proxy device.
    GreenPowerProxyTableKey,
    /// A Green Power Device key used on a Sink device.
    GreenPowerSinkTableKey,
    /// A generic key type intended to be loaded for one-time hashing or
    /// crypto operations; not persisted. Intended for use by the stack.
    Internal,
}

impl ManKeyType {
    /// The fixed one-byte discriminant of the variant.
    pub open spec fn spec_value(self) -> u8 {
        match self {
            ManKeyType::NoKey => 0x00,
            ManKeyType::Network => 0x01,
            ManKeyType::TcLink => 0x02,
            ManKeyType::TcLinkWithTimeout => 0x03,
            ManKeyType::AppLink => 0x04,
            ManKeyType::ZllEncryptionKey => 0x05,
            ManKeyType::ZllPreconfiguredKey => 0x06,
            ManKeyType::GreenPowerProxyTableKey => 0x07,
            ManKeyType::GreenPowerSinkTableKey => 0x08,
            ManKeyType::Internal => 0x09,
        }
    }

    /// The variant, if any, with the given discriminant.
    pub open spec fn spec_from_value(value: u8) -> Option<ManKeyType> {
        if value == 0x00 {
            Some(ManKeyType::NoKey)
        } else if value == 0x01 {
            Some(ManKeyType::Network)
        } else if value == 0x02 {
            Some(ManKeyType::TcLink)
        } else if value == 0x03 {
            Some(ManKeyType::TcLinkWithTimeout)
        } else if value == 0x04 {
            Some(ManKeyType::AppLink)
        } else if value == 0x05 {
            Some(ManKeyType::ZllEncryptionKey)
        } else if value == 0x06 {
            Some(ManKeyType::ZllPreconfiguredKey)
        } else if value == 0x07 {
            Some(ManKeyType::GreenPowerProxyTableKey)
        } else if value == 0x08 {
            Some(ManKeyType::GreenPowerSinkTableKey)
        } else if value == 0x09 {
            Some(ManKeyType::Internal)
        } else {
            None
        }
    }

    /// Returns the variant's one-byte discriminant; total, never fails.
    pub fn to_u8(self) -> (value: u8)
        ensures
            value == self.spec_value(),
    {
        match self {
            ManKeyType::NoKey => 0x00,
            ManKeyType::Network => 0x01,
            ManKeyType::TcLink => 0x02,
            ManKeyType::TcLinkWithTimeout => 0x03,
            ManKeyType::AppLink => 0x04,
            ManKeyType::ZllEncryptionKey => 0x05,
            ManKeyType::ZllPreconfiguredKey => 0x06,
            ManKeyType::GreenPowerProxyTableKey => 0x07,
            ManKeyType::GreenPowerSinkTableKey => 0x08,
            ManKeyType::Internal => 0x09,
        }
    }

    /// Looks a raw discriminant up in the defined set; any other value
    /// yields `None` rather than a guessed or clamped variant.
    pub fn from_u8(value: u8) -> (r: Option<ManKeyType>)
        ensures
            r == ManKeyType::spec_from_value(value),
    {
        match value {
            0x00 => Some(ManKeyType::NoKey),
            0x01 => Some(ManKeyType::Network),
            0x02 => Some(ManKeyType::TcLink),
            0x03 => Some(ManKeyType::TcLinkWithTimeout),
            0x04 => Some(ManKeyType::AppLink),
            0x05 => Some(ManKeyType::ZllEncryptionKey),
            0x06 => Some(ManKeyType::ZllPreconfiguredKey),
            0x07 => Some(ManKeyType::GreenPowerProxyTableKey),
            0x08 => Some(ManKeyType::GreenPowerSinkTableKey),
            0x09 => Some(ManKeyType::Internal),
            _ => None,
        }
    }

    /// Every defined key type decodes back from its own discriminant.
    pub proof fn lemma_value_round_trip(self)
        ensures
            ManKeyType::spec_from_value(self.spec_value()) == Some(self),
    {
    }
}

} // verus!
