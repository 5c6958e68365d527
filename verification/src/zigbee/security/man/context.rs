//! Context for Zigbee Security Manager operations.

use crate::error::CodecError;
use crate::wire::{get_u32, get_u64};
use crate::zigbee::security::man::{DerivedKeyType, Eui64, Flags, KeyType};
use vstd::bytes::{
    spec_u32_from_le_bytes, spec_u32_to_le_bytes, spec_u64_from_le_bytes, spec_u64_to_le_bytes,
    u32_to_le_bytes, u64_to_le_bytes,
};
use vstd::prelude::*;

verus! {

/// Context for Zigbee Security Manager operations: which key an operation
/// refers to, how it is to be derived, and the flags and PSA permission that
/// accompany it.
///
/// The key-type and derived-type tags are stored as their raw one-byte
/// discriminants, exactly as they travel on the wire; the accessors decode
/// them on demand and report an unrecognized tag with the raw value
/// preserved. On the wire the record is exactly seventeen bytes: the three
/// tag bytes, the EUI64, the multi-network index, the flag byte and the PSA
/// permission, in declaration order, multi-byte fields little-endian.
#[derive(Clone, Copy, Debug, Eq, Hash, PartialEq, Ord, PartialOrd, Structural)]
pub struct Context {
    /// The raw one-byte tag of the type of key being referenced.
    pub core_key_type: u8,
    /// The index of the referenced key.
    pub key_index: u8,
    /// The raw one-byte tag of the key derivation to perform.
    pub derived_type: u8,
    /// The EUI64 associated with the key.
    pub eui64: Eui64,
    /// The multi-network index.
    pub multi_network_index: u8,
    /// The flag bitmask.
    pub flags: Flags,
    /// The algorithm to use with this key (for PSA APIs).
    pub psa_key_alg_permission: u32,
}

impl Context {
    /// Creates a new `Context` from decoded tag values; the tags are stored
    /// as their raw discriminants.
    pub fn new(
        core_key_type: KeyType,
        key_index: u8,
        derived_type: DerivedKeyType,
        eui64: Eui64,
        multi_network_index: u8,
        flags: Flags,
        psa_key_alg_permission: u32,
    ) -> (r: Context)
        ensures
            r == (Context {
                core_key_type: core_key_type.spec_value(),
                key_index,
                derived_type: derived_type.spec_value() as u8,
                eui64,
                multi_network_index,
                flags,
                psa_key_alg_permission,
            }),
    {
        Context {
            core_key_type: core_key_type.to_u8(),
            key_index,
            derived_type: derived_type.to_u16() as u8,
            eui64,
            multi_network_index,
            flags,
            psa_key_alg_permission,
        }
    }

    /// Returns the type of key being referenced, or the raw tag byte if it
    /// is not a recognized key type.
    pub fn core_key_type(&self) -> (r: Result<KeyType, u8>)
        ensures
            match r {
                Ok(k) => KeyType::spec_from_value(self.core_key_type) == Some(k),
                Err(v) => KeyType::spec_from_value(self.core_key_type) is None && v
                    == self.core_key_type,
            },
    {
        match KeyType::from_u8(self.core_key_type) {
            Some(k) => Ok(k),
            None => Err(self.core_key_type),
        }
    }

    /// Returns the index of the referenced key.
    pub fn key_index(&self) -> (r: u8)
        ensures
            r == self.key_index,
    {
        self.key_index
    }

    /// Returns the key derivation to perform, or the raw tag byte if it is
    /// not a recognized derivation.
    pub fn derived_type(&self) -> (r: Result<DerivedKeyType, u8>)
        ensures
            match r {
                Ok(d) => DerivedKeyType::spec_from_value(self.derived_type as u16) == Some(d),
                Err(v) => DerivedKeyType::spec_from_value(self.derived_type as u16) is None && v
                    == self.derived_type,
            },
    {
        match DerivedKeyType::from_u8(self.derived_type) {
            Some(d) => Ok(d),
            None => Err(self.derived_type),
        }
    }

    /// Returns the EUI64 associated with this key.
    pub fn eui64(&self) -> (r: Eui64)
        ensures
            r == self.eui64,
    {
        self.eui64
    }

    /// Returns the multi-network index.
    pub fn multi_network_index(&self) -> (r: u8)
        ensures
            r == self.multi_network_index,
    {
        self.multi_network_index
    }

    /// Returns the flag bitmask.
    pub fn flags(&self) -> (r: Flags)
        ensures
            r == self.flags,
    {
        self.flags
    }

    /// Returns the algorithm to use with this key (for PSA APIs).
    pub fn psa_key_alg_permission(&self) -> (r: u32)
        ensures
            r == self.psa_key_alg_permission,
    {
        self.psa_key_alg_permission
    }

    /// The record's seventeen wire bytes: fields in declaration order,
    /// multi-byte integers least-significant-byte first, the flag byte raw.
    pub open spec fn spec_to_le_bytes(self) -> Seq<u8> {
        seq![self.core_key_type, self.key_index, self.derived_type]
            + spec_u64_to_le_bytes(self.eui64.0)
            + seq![self.multi_network_index, self.flags.0]
            + spec_u32_to_le_bytes(self.psa_key_alg_permission)
    }

    /// The record read back from a buffer: underruns are rejected; bytes
    /// beyond the fixed width are ignored. The tag bytes are stored raw —
    /// an unknown tag surfaces at the accessors, not here — so underrun is
    /// the only failure.
    pub open spec fn spec_from_le_bytes(bytes: Seq<u8>) -> Result<Context, CodecError> {
        if bytes.len() < 17 {
            Err(CodecError::BufferTooShort)
        } else {
            Ok(Context {
                core_key_type: bytes[0],
                key_index: bytes[1],
                derived_type: bytes[2],
                eui64: Eui64(spec_u64_from_le_bytes(bytes.subrange(3, 11))),
                multi_network_index: bytes[11],
                flags: Flags(bytes[12]),
                psa_key_alg_permission: spec_u32_from_le_bytes(bytes.subrange(13, 17)),
            })
        }
    }

    /// Encodes the record; always exactly seventeen bytes, never fails.
    pub fn to_le_bytes(&self) -> (r: Vec<u8>)
        ensures
            r@ == self.spec_to_le_bytes(),
            r@.len() == 17,
    {
        let mut out: Vec<u8> = Vec::new();
        out.push(self.core_key_type);
        out.push(self.key_index);
        out.push(self.derived_type);
        let mut eui = u64_to_le_bytes(self.eui64.0);
        out.append(&mut eui);
        out.push(self.multi_network_index);
        out.push(self.flags.0);
        let mut psa = u32_to_le_bytes(self.psa_key_alg_permission);
        out.append(&mut psa);
        proof {
            assert(out@ =~= self.spec_to_le_bytes());
        }
        out
    }

    /// Decodes a record from the first seventeen bytes of the buffer. A
    /// shorter buffer yields `BufferTooShort`, never a panic or a partial
    /// value.
    pub fn from_le_bytes(bytes: &[u8]) -> (r: Result<Context, CodecError>)
        ensures
            r == Context::spec_from_le_bytes(bytes@),
    {
        if bytes.len() < 17 {
            return Err(CodecError::BufferTooShort);
        }
        Ok(Context {
            core_key_type: bytes[0],
            key_index: bytes[1],
            derived_type: bytes[2],
            eui64: Eui64(get_u64(bytes, 3)),
            multi_network_index: bytes[11],
            flags: Flags(bytes[12]),
            psa_key_alg_permission: get_u32(bytes, 13),
        })
    }

    /// Codec round trip: every record decodes back from its own encoding.
    pub proof fn lemma_le_round_trip(self)
        ensures
            Context::spec_from_le_bytes(self.spec_to_le_bytes()) == Ok::<_, CodecError>(self),
    {
        vstd::bytes::lemma_auto_spec_u32_to_from_le_bytes();
        vstd::bytes::lemma_auto_spec_u64_to_from_le_bytes();
        let encoded = self.spec_to_le_bytes();
        assert(encoded.subrange(3, 11) =~= spec_u64_to_le_bytes(self.eui64.0));
        assert(encoded.subrange(13, 17) =~= spec_u32_to_le_bytes(self.psa_key_alg_permission));
    }
}

} // verus!
