//! Security subsystem errors.

use crate::error::Error;
use vstd::prelude::*;

verus! {

/// Security subsystem errors.
///
/// Each variant owns one fixed code inside the category's claimed range
/// `0x0045..=0x0046` of the status table.
#[derive(Clone, Copy, Debug, Eq, Hash, PartialEq, Ord, PartialOrd, Structural)]
pub enum Security {
    /// Image checksum is not valid.
    ImageChecksumError,
    /// Decryption failed.
    DecryptError,
}

impl Security {
    /// The fixed 32-bit code owned by the variant.
    pub open spec fn spec_code(self) -> u32 {
        match self {
            Security::ImageChecksumError => 0x0045,
            Security::DecryptError => 0x0046,
        }
    }

    /// The variant, if any, that owns the given code.
    pub open spec fn spec_decode(code: u32) -> Option<Security> {
        if code == 0x0045 {
            Some(Security::ImageChecksumError)
        } else if code == 0x0046 {
            Some(Security::DecryptError)
        } else {
            None
        }
    }

    /// Returns the variant's fixed numeric code; total, never fails.
    pub fn encode(self) -> (code: u32)
        ensures
            code == self.spec_code(),
    {
        match self {
            Security::ImageChecksumError => 0x0045,
            Security::DecryptError => 0x0046,
        }
    }

    /// Looks the code up in this category; codes the category does not
    /// define are rejected with the offending value preserved.
    pub fn decode(code: u32) -> (r: Result<Security, Error>)
        ensures
            match r {
                Ok(s) => Security::spec_decode(code) == Some(s),
                Err(e) => Security::spec_decode(code) is None && e == Error::InvalidStatus(code),
            },
    {
        match code {
            0x0045 => Ok(Security::ImageChecksumError),
            0x0046 => Ok(Security::DecryptError),
            _ => Err(Error::InvalidStatus(code)),
        }
    }

    /// Every defined variant decodes back from its own code.
    pub proof fn lemma_code_round_trip(self)
        ensures
            Security::spec_decode(self.spec_code()) == Some(self),
    {
    }

    /// Every code of this category lies inside its claimed range entry.
    pub proof fn lemma_code_in_range(self)
        ensures
            0x0045 <= self.spec_code() <= 0x0046,
    {
    }

    /// A code this category accepts decodes to the variant that owns it.
    pub proof fn lemma_decode_sound(code: u32)
        ensures
            Security::spec_decode(code) matches Some(s) ==> s.spec_code() == code,
    {
    }
    /// The diagnostic name of the variant's status value, the `Sl` tag
    /// prefixed, as the flat status listing spells it.
    pub open spec fn spec_name(self) -> Seq<char> {
        match self {
            Security::ImageChecksumError => "SlImageChecksumError"@,
            Security::DecryptError => "SlDecryptError"@,
        }
    }

    /// Returns the diagnostic name of the variant's status value.
    pub fn name(&self) -> (s: &'static str)
        ensures
            s@ == self.spec_name(),
    {
        match self {
            Security::ImageChecksumError => "SlImageChecksumError",
            Security::DecryptError => "SlDecryptError",
        }
    }
}

} // verus!
