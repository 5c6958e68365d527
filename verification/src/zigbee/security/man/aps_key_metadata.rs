//! Metadata pertaining to an APS key.

use crate::error::CodecError;
use crate::wire::{get_u16, get_u32};
use core::time::Duration;
use vstd::bytes::{
    spec_u16_from_le_bytes, spec_u16_to_le_bytes, spec_u32_from_le_bytes, spec_u32_to_le_bytes,
    u16_to_le_bytes, u32_to_le_bytes,
};
use vstd::prelude::*;

verus! {

/// The duration of the given number of whole seconds, as
/// `core::time::Duration::from_secs` constructs it; the result depends on
/// the second count alone.
pub uninterp spec fn duration_of(secs: u64) -> Duration;

/// Relies on `core::time::Duration::from_secs` to wrap a whole-second count:
/// a plain constructor, a function of its argument alone.
pub assume_specification[ Duration::from_secs ](secs: u64) -> (r: Duration)
    ensures
        r == duration_of(secs),
;

/// Metadata pertaining to an APS key: a policy bitmask, the two frame
/// counters, and the key's remaining lifetime in whole seconds.
///
/// On the wire the record is exactly twelve bytes: the bitmask, both frame
/// counters and the TTL serialized in declaration order, each little-endian,
/// with no padding.
#[derive(Clone, Copy, Debug, Eq, Hash, PartialEq, Structural)]
pub struct ApsKeyMetadata {
    /// The policy bitmask; its own wire encoding, read and written raw.
    pub bitmask: u16,
    /// The outgoing frame counter.
    pub outgoing_frame_counter: u32,
    /// The incoming frame counter.
    pub incoming_frame_counter: u32,
    /// The time-to-live in whole seconds.
    pub ttl_in_seconds: u16,
}

impl ApsKeyMetadata {
    /// Creates a new `ApsKeyMetadata`.
    pub fn new(
        bitmask: u16,
        outgoing_frame_counter: u32,
        incoming_frame_counter: u32,
        ttl_in_seconds: u16,
    ) -> (r: ApsKeyMetadata)
        ensures
            r == (ApsKeyMetadata {
                bitmask,
                outgoing_frame_counter,
                incoming_frame_counter,
                ttl_in_seconds,
            }),
    {
        ApsKeyMetadata { bitmask, outgoing_frame_counter, incoming_frame_counter, ttl_in_seconds }
    }

    /// Returns the bitmask.
    pub fn bitmask(&self) -> (r: u16)
        ensures
            r == self.bitmask,
    {
        self.bitmask
    }

    /// Returns the outgoing frame counter.
    pub fn outgoing_frame_counter(&self) -> (r: u32)
        ensures
            r == self.outgoing_frame_counter,
    {
        self.outgoing_frame_counter
    }

    /// Returns the incoming frame counter.
    pub fn incoming_frame_counter(&self) -> (r: u32)
        ensures
            r == self.incoming_frame_counter,
    {
        self.incoming_frame_counter
    }

    /// Returns the time-to-live in seconds.
    pub fn ttl_in_seconds(&self) -> (r: u16)
        ensures
            r == self.ttl_in_seconds,
    {
        self.ttl_in_seconds
    }

    /// Returns the time-to-live as a `Duration` of exactly that many whole
    /// seconds; pure, no rounding, no fallible path.
    pub fn ttl(&self) -> (r: Duration)
        ensures
            r == duration_of(self.ttl_in_seconds as u64),
    {
        Duration::from_secs(self.ttl_in_seconds as u64)
    }

    /// The record's twelve wire bytes: fields in declaration order, each
    /// multi-byte integer least-significant-byte first.
    pub open spec fn spec_to_le_bytes(self) -> Seq<u8> {
        spec_u16_to_le_bytes(self.bitmask) + spec_u32_to_le_bytes(self.outgoing_frame_counter)
            + spec_u32_to_le_bytes(self.incoming_frame_counter) + spec_u16_to_le_bytes(
            self.ttl_in_seconds,
        )
    }

    /// The record read back from a buffer: underruns are rejected; bytes
    /// beyond the fixed width are ignored. Every field accepts any value of
    /// its type, so underrun is the only failure.
    pub open spec fn spec_from_le_bytes(bytes: Seq<u8>) -> Result<ApsKeyMetadata, CodecError> {
        if bytes.len() < 12 {
            Err(CodecError::BufferTooShort)
        } else {
            Ok(ApsKeyMetadata {
                bitmask: spec_u16_from_le_bytes(bytes.subrange(0, 2)),
                outgoing_frame_counter: spec_u32_from_le_bytes(bytes.subrange(2, 6)),
                incoming_frame_counter: spec_u32_from_le_bytes(bytes.subrange(6, 10)),
                ttl_in_seconds: spec_u16_from_le_bytes(bytes.subrange(10, 12)),
            })
        }
    }

    /// Encodes the record; always exactly twelve bytes, never fails.
    pub fn to_le_bytes(&self) -> (r: Vec<u8>)
        ensures
            r@ == self.spec_to_le_bytes(),
            r@.len() == 12,
    {
        let mut out: Vec<u8> = u16_to_le_bytes(self.bitmask);
        let mut outgoing = u32_to_le_bytes(self.outgoing_frame_counter);
        let mut incoming = u32_to_le_bytes(self.incoming_frame_counter);
        let mut ttl_bytes = u16_to_le_bytes(self.ttl_in_seconds);
        out.append(&mut outgoing);
        out.append(&mut incoming);
        out.append(&mut ttl_bytes);
        proof {
            assert(out@ =~= self.spec_to_le_bytes());
        }
        out
    }

    /// Decodes a record from the first twelve bytes of the buffer. A shorter
    /// buffer yields `BufferTooShort`, never a panic or a partial value.
    pub fn from_le_bytes(bytes: &[u8]) -> (r: Result<ApsKeyMetadata, CodecError>)
        ensures
            r == ApsKeyMetadata::spec_from_le_bytes(bytes@),
    {
        if bytes.len() < 12 {
            return Err(CodecError::BufferTooShort);
        }
        Ok(ApsKeyMetadata {
            bitmask: get_u16(bytes, 0),
            outgoing_frame_counter: get_u32(bytes, 2),
            incoming_frame_counter: get_u32(bytes, 6),
            ttl_in_seconds: get_u16(bytes, 10),
        })
    }

    /// Codec round trip: every record decodes back from its own encoding.
    pub proof fn lemma_le_round_trip(self)
        ensures
            ApsKeyMetadata::spec_from_le_bytes(self.spec_to_le_bytes()) == Ok::<_, CodecError>(self),
    {
        vstd::bytes::lemma_auto_spec_u16_to_from_le_bytes();
        vstd::bytes::lemma_auto_spec_u32_to_from_le_bytes();
        let encoded = self.spec_to_le_bytes();
        assert(encoded.subrange(0, 2) =~= spec_u16_to_le_bytes(self.bitmask));
        assert(encoded.subrange(2, 6) =~= spec_u32_to_le_bytes(self.outgoing_frame_counter));
        assert(encoded.subrange(6, 10) =~= spec_u32_to_le_bytes(self.incoming_frame_counter));
        assert(encoded.subrange(10, 12) =~= spec_u16_to_le_bytes(self.ttl_in_seconds));
    }
}

} // verus!
