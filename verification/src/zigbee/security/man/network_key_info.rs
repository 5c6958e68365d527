//! Metadata pertaining to a network key.

use crate::error::CodecError;
use crate::wire::{byte_bool, bool_byte, get_u32, spec_bool_byte, spec_byte_bool};
use vstd::bytes::{spec_u32_from_le_bytes, spec_u32_to_le_bytes, u32_to_le_bytes};
use vstd::prelude::*;

verus! {

/// Metadata pertaining to the network key: which of the two slots are set,
/// their sequence numbers, and the outgoing frame counter.
///
/// On the wire the record is exactly eight bytes: the two booleans one byte
/// each (`0x01`/`0x00`), the two sequence numbers one byte each, then the
/// frame counter in little-endian order — field order is wire order, with
/// no padding.
#[derive(Clone, Copy, Debug, Eq, Hash, PartialEq, Structural)]
pub struct NetworkKeyInfo {
    /// Whether the network key is set.
    pub network_key_set: bool,
    /// Whether the alternate network key is set.
    pub alternate_network_key_set: bool,
    /// The network key sequence number.
    pub network_key_sequence_number: u8,
    /// The alternate network key sequence number.
    pub alt_network_key_sequence_number: u8,
    /// The network key frame counter.
    pub network_key_frame_counter: u32,
}

impl NetworkKeyInfo {
    /// Creates a new `NetworkKeyInfo`.
    pub fn new(
        network_key_set: bool,
        alternate_network_key_set: bool,
        network_key_sequence_number: u8,
        alt_network_key_sequence_number: u8,
        network_key_frame_counter: u32,
    ) -> (r: NetworkKeyInfo)
        ensures
            r == (NetworkKeyInfo {
                network_key_set,
                alternate_network_key_set,
                network_key_sequence_number,
                alt_network_key_sequence_number,
                network_key_frame_counter,
            }),
    {
        NetworkKeyInfo {
            network_key_set,
            alternate_network_key_set,
            network_key_sequence_number,
            alt_network_key_sequence_number,
            network_key_frame_counter,
        }
    }

    /// Returns whether the network key is set.
    pub fn network_key_set(&self) -> (r: bool)
        ensures
            r == self.network_key_set,
    {
        self.network_key_set
    }

    /// Returns whether the alternate network key is set.
    pub fn alternate_network_key_set(&self) -> (r: bool)
        ensures
            r == self.alternate_network_key_set,
    {
        self.alternate_network_key_set
    }

    /// Returns the network key sequence number.
    pub fn network_key_sequence_number(&self) -> (r: u8)
        ensures
            r == self.network_key_sequence_number,
    {
        self.network_key_sequence_number
    }

    /// Returns the alternate network key sequence number.
    pub fn alt_network_key_sequence_number(&self) -> (r: u8)
        ensures
            r == self.alt_network_key_sequence_number,
    {
        self.alt_network_key_sequence_number
    }

    /// Returns the network key frame counter.
    pub fn network_key_frame_counter(&self) -> (r: u32)
        ensures
            r == self.network_key_frame_counter,
    {
        self.network_key_frame_counter
    }

    /// The record's eight wire bytes: fields in declaration order, multi-byte
    /// integers least-significant-byte first.
    pub open spec fn spec_to_le_bytes(self) -> Seq<u8> {
        seq![
            spec_bool_byte(self.network_key_set),
            spec_bool_byte(self.alternate_network_key_set),
            self.network_key_sequence_number,
            self.alt_network_key_sequence_number,
        ] + spec_u32_to_le_bytes(self.network_key_frame_counter)
    }

    /// The record read back from a buffer: underruns are rejected, as is a
    /// non-canonical boolean byte; bytes beyond the fixed width are ignored.
    pub open spec fn spec_from_le_bytes(bytes: Seq<u8>) -> Result<NetworkKeyInfo, CodecError> {
        if bytes.len() < 8 {
            Err(CodecError::BufferTooShort)
        } else {
            match (spec_byte_bool(bytes[0]), spec_byte_bool(bytes[1])) {
                (Ok(network_key_set), Ok(alternate_network_key_set)) => Ok(
                    NetworkKeyInfo {
                        network_key_set,
                        alternate_network_key_set,
                        network_key_sequence_number: bytes[2],
                        alt_network_key_sequence_number: bytes[3],
                        network_key_frame_counter: spec_u32_from_le_bytes(bytes.subrange(4, 8)),
                    },
                ),
                (Err(e), _) => Err(e),
                (_, Err(e)) => Err(e),
            }
        }
    }

    /// Encodes the record; always exactly eight bytes, never fails.
    pub fn to_le_bytes(&self) -> (r: Vec<u8>)
        ensures
            r@ == self.spec_to_le_bytes(),
            r@.len() == 8,
    {
        let mut out: Vec<u8> = Vec::new();
        out.push(bool_byte(self.network_key_set));
        out.push(bool_byte(self.alternate_network_key_set));
        out.push(self.network_key_sequence_number);
        out.push(self.alt_network_key_sequence_number);
        let mut counter = u32_to_le_bytes(self.network_key_frame_counter);
        out.append(&mut counter);
        proof {
            assert(out@ =~= self.spec_to_le_bytes());
        }
        out
    }

    /// Decodes a record from the first eight bytes of the buffer. A shorter
    /// buffer yields `BufferTooShort`, never a panic or a partial value; a
    /// boolean byte other than `0x00`/`0x01` yields `InvalidDiscriminant`
    /// carrying that byte, the first offender winning.
    pub fn from_le_bytes(bytes: &[u8]) -> (r: Result<NetworkKeyInfo, CodecError>)
        ensures
            r == NetworkKeyInfo::spec_from_le_bytes(bytes@),
    {
        if bytes.len() < 8 {
            return Err(CodecError::BufferTooShort);
        }
        let network_key_set = match byte_bool(bytes[0]) {
            Ok(b) => b,
            Err(e) => {
                return Err(e);
            },
        };
        let alternate_network_key_set = match byte_bool(bytes[1]) {
            Ok(b) => b,
            Err(e) => {
                return Err(e);
            },
        };
        Ok(NetworkKeyInfo {
            network_key_set,
            alternate_network_key_set,
            network_key_sequence_number: bytes[2],
            alt_network_key_sequence_number: bytes[3],
            network_key_frame_counter: get_u32(bytes, 4),
        })
    }

    /// Codec round trip: every record decodes back from its own encoding.
    pub proof fn lemma_le_round_trip(self)
        ensures
            NetworkKeyInfo::spec_from_le_bytes(self.spec_to_le_bytes()) == Ok::<_, CodecError>(self),
    {
        vstd::bytes::lemma_auto_spec_u32_to_from_le_bytes();
        assert(self.spec_to_le_bytes().subrange(4, 8) =~= spec_u32_to_le_bytes(
            self.network_key_frame_counter,
        ));
    }
}

} // verus!
