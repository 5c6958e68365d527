//! Resource-allocation failures.

use crate::error::Error;
use vstd::prelude::*;

verus! {

/// Resource-allocation failures.
///
/// Each variant owns one fixed code inside the category's claimed range
/// `0x0019..=0x0020` of the status table.
#[derive(Clone, Copy, Debug, Eq, Hash, PartialEq, Ord, PartialOrd, Structural)]
pub enum Alloc {
    /// Generic allocation error.
    AllocationFailed,
    /// No more resource available to perform the operation.
    NoMoreResource,
    /// Item/list/queue is empty.
    StatusEmpty,
    /// Item/list/queue is full.
    StatusFull,
    /// Item would overflow.
    WouldOverflow,
    /// Item/list/queue has been overflowed.
    HasOverflowed,
    /// Generic ownership error.
    Ownership,
    /// Already/still owning resource.
    IsOwner,
}

impl Alloc {
    /// The fixed 32-bit code owned by the variant.
    pub open spec fn spec_code(self) -> u32 {
        match self {
            Alloc::AllocationFailed => 0x0019,
            Alloc::NoMoreResource => 0x001A,
            Alloc::StatusEmpty => 0x001B,
            Alloc::StatusFull => 0x001C,
            Alloc::WouldOverflow => 0x001D,
            Alloc::HasOverflowed => 0x001E,
            Alloc::Ownership => 0x001F,
            Alloc::IsOwner => 0x0020,
        }
    }

    /// The variant, if any, that owns the given code.
    pub open spec fn spec_decode(code: u32) -> Option<Alloc> {
        if code == 0x0019 {
            Some(Alloc::AllocationFailed)
        } else if code == 0x001A {
            Some(Alloc::NoMoreResource)
        } else if code == 0x001B {
            Some(Alloc::StatusEmpty)
        } else if code == 0x001C {
            Some(Alloc::StatusFull)
        } else if code == 0x001D {
            Some(Alloc::WouldOverflow)
        } else if code == 0x001E {
            Some(Alloc::HasOverflowed)
        } else if code == 0x001F {
            Some(Alloc::Ownership)
        } else if code == 0x0020 {
            Some(Alloc::IsOwner)
        } else {
            None
        }
    }

    /// Returns the variant's fixed numeric code; total, never fails.
    pub fn encode(self) -> (code: u32)
        ensures
            code == self.spec_code(),
    {
        match self {
            Alloc::AllocationFailed => 0x0019,
            Alloc::NoMoreResource => 0x001A,
            Alloc::StatusEmpty => 0x001B,
            Alloc::StatusFull => 0x001C,
            Alloc::WouldOverflow => 0x001D,
            Alloc::HasOverflowed => 0x001E,
            Alloc::Ownership => 0x001F,
            Alloc::IsOwner => 0x0020,
        }
    }

    /// Looks the code up in this category; codes the category does not
    /// define are rejected with the offending value preserved.
    pub fn decode(code: u32) -> (r: Result<Alloc, Error>)
        ensures
            match r {
                Ok(s) => Alloc::spec_decode(code) == Some(s),
                Err(e) => Alloc::spec_decode(code) is None && e == Error::InvalidStatus(code),
            },
    {
        match code {
            0x0019 => Ok(Alloc::AllocationFailed),
            0x001A => Ok(Alloc::NoMoreResource),
            0x001B => Ok(Alloc::StatusEmpty),
            0x001C => Ok(Alloc::StatusFull),
            0x001D => Ok(Alloc::WouldOverflow),
            0x001E => Ok(Alloc::HasOverflowed),
            0x001F => Ok(Alloc::Ownership),
            0x0020 => Ok(Alloc::IsOwner),
            _ => Err(Error::InvalidStatus(code)),
        }
    }

    /// Every defined variant decodes back from its own code.
    pub proof fn lemma_code_round_trip(self)
        ensures
            Alloc::spec_decode(self.spec_code()) == Some(self),
    {
    }

    /// Every code of this category lies inside its claimed range entry.
    pub proof fn lemma_code_in_range(self)
        ensures
            0x0019 <= self.spec_code() <= 0x0020,
    {
    }

    /// A code this category accepts decodes to the variant that owns it.
    pub proof fn lemma_decode_sound(code: u32)
        ensures
            Alloc::spec_decode(code) matches Some(s) ==> s.spec_code() == code,
    {
    }
    /// The diagnostic name of the variant's status value, the `Sl` tag
    /// prefixed, as the flat status listing spells it.
    pub open spec fn spec_name(self) -> Seq<char> {
        match self {
            Alloc::AllocationFailed => "SlAllocationFailed"@,
            Alloc::NoMoreResource => "SlNoMoreResource"@,
            Alloc::StatusEmpty => "SlStatusEmpty"@,
            Alloc::StatusFull => "SlStatusFull"@,
            Alloc::WouldOverflow => "SlWouldOverflow"@,
            Alloc::HasOverflowed => "SlHasOverflowed"@,
            Alloc::Ownership => "SlOwnership"@,
            Alloc::IsOwner => "SlIsOwner"@,
        }
    }

    /// Returns the diagnostic name of the variant's status value.
    pub fn name(&self) -> (s: &'static str)
        ensures
            s@ == self.spec_name(),
    {
        match self {
            Alloc::AllocationFailed => "SlAllocationFailed",
            Alloc::NoMoreResource => "SlNoMoreResource",
            Alloc::StatusEmpty => "SlStatusEmpty",
            Alloc::StatusFull => "SlStatusFull",
            Alloc::WouldOverflow => "SlWouldOverflow",
            Alloc::HasOverflowed => "SlHasOverflowed",
            Alloc::Ownership => "SlOwnership",
            Alloc::IsOwner => "SlIsOwner",
        }
    }
}

} // verus!
