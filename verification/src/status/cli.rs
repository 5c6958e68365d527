//! Command-line interface errors.

use crate::error::Error;
use vstd::prelude::*;

verus! {

/// Command-line interface errors.
///
/// Each variant owns one fixed code inside the category's claimed range
/// `0x0044..=0x0044` of the status table.
#[derive(Clone, Copy, Debug, Eq, Hash, PartialEq, Ord, PartialOrd, Structural)]
pub enum Cli {
    /// Error in open NVM.
    StorageNvmOpenError,
}

impl Cli {
    /// The fixed 32-bit code owned by the variant.
    pub open spec fn spec_code(self) -> u32 {
        match self {
            Cli::StorageNvmOpenError => 0x0044,
        }
    }

    /// The variant, if any, that owns the given code.
    pub open spec fn spec_decode(code: u32) -> Option<Cli> {
        if code == 0x0044 {
            Some(Cli::StorageNvmOpenError)
        } else {
            None
        }
    }

    /// Returns the variant's fixed numeric code; total, never fails.
    pub fn encode(self) -> (code: u32)
        ensures
            code == self.spec_code(),
    {
        match self {
            Cli::StorageNvmOpenError => 0x0044,
        }
    }

    /// Looks the code up in this category; codes the category does not
    /// define are rejected with the offending value preserved.
    pub fn decode(code: u32) -> (r: Result<Cli, Error>)
        ensures
            match r {
                Ok(s) => Cli::spec_decode(code) == Some(s),
                Err(e) => Cli::spec_decode(code) is None && e == Error::InvalidStatus(code),
            },
    {
        match code {
            0x0044 => Ok(Cli::StorageNvmOpenError),
            _ => Err(Error::InvalidStatus(code)),
        }
    }

    /// Every defined variant decodes back from its own code.
    pub proof fn lemma_code_round_trip(self)
        ensures
            Cli::spec_decode(self.spec_code()) == Some(self),
    {
    }

    /// Every code of this category lies inside its claimed range entry.
    pub proof fn lemma_code_in_range(self)
        ensures
            0x0044 <= self.spec_code() <= 0x0044,
    {
    }

    /// A code this category accepts decodes to the variant that owns it.
    pub proof fn lemma_decode_sound(code: u32)
        ensures
            Cli::spec_decode(code) matches Some(s) ==> s.spec_code() == code,
    {
    }
    /// The diagnostic name of the variant's status value, the `Sl` tag
    /// prefixed, as the flat status listing spells it.
    pub open spec fn spec_name(self) -> Seq<char> {
        match self {
            Cli::StorageNvmOpenError => "SlStorageNvmOpenError"@,
        }
    }

    /// Returns the diagnostic name of the variant's status value.
    pub fn name(&self) -> (s: &'static str)
        ensures
            s@ == self.spec_name(),
    {
        match self {
            Cli::StorageNvmOpenError => "SlStorageNvmOpenError",
        }
    }
}

} // verus!
