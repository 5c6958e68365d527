//! Invalid-state conditions: the module or construct is not in a state that allows the requested operation.

use crate::error::Error;
use vstd::prelude::*;

verus! {

/// Invalid-state conditions: the module or construct is not in a state that allows the requested operation.
///
/// Each variant owns one fixed code inside the category's claimed range
/// `0x0002..=0x0018` of the status table.
#[derive(Clone, Copy, Debug, Eq, Hash, PartialEq, Ord, PartialOrd, Structural)]
pub enum State {
    /// Generic invalid state error.
    Invalid,
    /// Module is not ready for requested operation.
    NotReady,
    /// Module is busy and cannot carry out requested operation.
    Busy,
    /// Operation is in progress and not yet complete (pass or fail).
    InProgress,
    /// Operation aborted.
    Abort,
    /// Operation timed out.
    Timeout,
    /// Operation not allowed per permissions.
    Permission,
    /// Non-blocking operation would block.
    WouldBlock,
    /// Operation/module is idle, cannot carry requested operation.
    Idle,
    /// Operation cannot be done while construct is waiting.
    IsWaiting,
    /// No task/construct waiting/pending for that action/event.
    NoneWaiting,
    /// Operation cannot be done while construct is suspended.
    Suspended,
    /// Feature not available due to software configuration.
    NotAvailable,
    /// Feature not supported.
    NotSupported,
    /// Initialization failed.
    Initialization,
    /// Module has not been initialized.
    NotInitialized,
    /// Module has already been initialized.
    AlreadyInitialized,
    /// Object/construct has been deleted.
    Deleted,
    /// Illegal call from ISR.
    Isr,
    /// Illegal call because network is up.
    NetworkUp,
    /// Illegal call because network is down.
    NetworkDown,
    /// Failure due to not being joined in a network.
    NotJoined,
    /// Invalid operation as there are no beacons.
    NoBeacons,
}

impl State {
    /// The fixed 32-bit code owned by the variant.
    pub open spec fn spec_code(self) -> u32 {
        match self {
            State::Invalid => 0x0002,
            State::NotReady => 0x0003,
            State::Busy => 0x0004,
            State::InProgress => 0x0005,
            State::Abort => 0x0006,
            State::Timeout => 0x0007,
            State::Permission => 0x0008,
            State::WouldBlock => 0x0009,
            State::Idle => 0x000A,
            State::IsWaiting => 0x000B,
            State::NoneWaiting => 0x000C,
            State::Suspended => 0x000D,
            State::NotAvailable => 0x000E,
            State::NotSupported => 0x000F,
            State::Initialization => 0x0010,
            State::NotInitialized => 0x0011,
            State::AlreadyInitialized => 0x0012,
            State::Deleted => 0x0013,
            State::Isr => 0x0014,
            State::NetworkUp => 0x0015,
            State::NetworkDown => 0x0016,
            State::NotJoined => 0x0017,
            State::NoBeacons => 0x0018,
        }
    }

    /// The variant, if any, that owns the given code.
    pub open spec fn spec_decode(code: u32) -> Option<State> {
        if code == 0x0002 {
            Some(State::Invalid)
        } else if code == 0x0003 {
            Some(State::NotReady)
        } else if code == 0x0004 {
            Some(State::Busy)
        } else if code == 0x0005 {
            Some(State::InProgress)
        } else if code == 0x0006 {
            Some(State::Abort)
        } else if code == 0x0007 {
            Some(State::Timeout)
        } else if code == 0x0008 {
            Some(State::Permission)
        } else if code == 0x0009 {
            Some(State::WouldBlock)
        } else if code == 0x000A {
            Some(State::Idle)
        } else if code == 0x000B {
            Some(State::IsWaiting)
        } else if code == 0x000C {
            Some(State::NoneWaiting)
        } else if code == 0x000D {
            Some(State::Suspended)
        } else if code == 0x000E {
            Some(State::NotAvailable)
        } else if code == 0x000F {
            Some(State::NotSupported)
        } else if code == 0x0010 {
            Some(State::Initialization)
        } else if code == 0x0011 {
            Some(State::NotInitialized)
        } else if code == 0x0012 {
            Some(State::AlreadyInitialized)
        } else if code == 0x0013 {
            Some(State::Deleted)
        } else if code == 0x0014 {
            Some(State::Isr)
        } else if code == 0x0015 {
            Some(State::NetworkUp)
        } else if code == 0x0016 {
            Some(State::NetworkDown)
        } else if code == 0x0017 {
            Some(State::NotJoined)
        } else if code == 0x0018 {
            Some(State::NoBeacons)
        } else {
            None
        }
    }

    /// Returns the variant's fixed numeric code; total, never fails.
    pub fn encode(self) -> (code: u32)
        ensures
            code == self.spec_code(),
    {
        match self {
            State::Invalid => 0x0002,
            State::NotReady => 0x0003,
            State::Busy => 0x0004,
            State::InProgress => 0x0005,
            State::Abort => 0x0006,
            State::Timeout => 0x0007,
            State::Permission => 0x0008,
            State::WouldBlock => 0x0009,
            State::Idle => 0x000A,
            State::IsWaiting => 0x000B,
            State::NoneWaiting => 0x000C,
            State::Suspended => 0x000D,
            State::NotAvailable => 0x000E,
            State::NotSupported => 0x000F,
            State::Initialization => 0x0010,
            State::NotInitialized => 0x0011,
            State::AlreadyInitialized => 0x0012,
            State::Deleted => 0x0013,
            State::Isr => 0x0014,
            State::NetworkUp => 0x0015,
            State::NetworkDown => 0x0016,
            State::NotJoined => 0x0017,
            State::NoBeacons => 0x0018,
        }
    }

    /// Looks the code up in this category; codes the category does not
    /// define are rejected with the offending value preserved.
    pub fn decode(code: u32) -> (r: Result<State, Error>)
        ensures
            match r {
                Ok(s) => State::spec_decode(code) == Some(s),
                Err(e) => State::spec_decode(code) is None && e == Error::InvalidStatus(code),
            },
    {
        match code {
            0x0002 => Ok(State::Invalid),
            0x0003 => Ok(State::NotReady),
            0x0004 => Ok(State::Busy),
            0x0005 => Ok(State::InProgress),
            0x0006 => Ok(State::Abort),
            0x0007 => Ok(State::Timeout),
            0x0008 => Ok(State::Permission),
            0x0009 => Ok(State::WouldBlock),
            0x000A => Ok(State::Idle),
            0x000B => Ok(State::IsWaiting),
            0x000C => Ok(State::NoneWaiting),
            0x000D => Ok(State::Suspended),
            0x000E => Ok(State::NotAvailable),
            0x000F => Ok(State::NotSupported),
            0x0010 => Ok(State::Initialization),
            0x0011 => Ok(State::NotInitialized),
            0x0012 => Ok(State::AlreadyInitialized),
            0x0013 => Ok(State::Deleted),
            0x0014 => Ok(State::Isr),
            0x0015 => Ok(State::NetworkUp),
            0x0016 => Ok(State::NetworkDown),
            0x0017 => Ok(State::NotJoined),
            0x0018 => Ok(State::NoBeacons),
            _ => Err(Error::InvalidStatus(code)),
        }
    }

    /// Every defined variant decodes back from its own code.
    pub proof fn lemma_code_round_trip(self)
        ensures
            State::spec_decode(self.spec_code()) == Some(self),
    {
    }

    /// Every code of this category lies inside its claimed range entry.
    pub proof fn lemma_code_in_range(self)
        ensures
            0x0002 <= self.spec_code() <= 0x0018,
    {
    }

    /// A code this category accepts decodes to the variant that owns it.
    pub proof fn lemma_decode_sound(code: u32)
        ensures
            State::spec_decode(code) matches Some(s) ==> s.spec_code() == code,
    {
    }
    /// The diagnostic name of the variant's status value, the `Sl` tag
    /// prefixed, as the flat status listing spells it.
    pub open spec fn spec_name(self) -> Seq<char> {
        match self {
            State::Invalid => "SlInvalidState"@,
            State::NotReady => "SlNotReady"@,
            State::Busy => "SlBusy"@,
            State::InProgress => "SlInProgress"@,
            State::Abort => "SlAbort"@,
            State::Timeout => "SlTimeout"@,
            State::Permission => "SlPermission"@,
            State::WouldBlock => "SlWouldBlock"@,
            State::Idle => "SlIdle"@,
            State::IsWaiting => "SlIsWaiting"@,
            State::NoneWaiting => "SlNoneWaiting"@,
            State::Suspended => "SlSuspended"@,
            State::NotAvailable => "SlNotAvailable"@,
            State::NotSupported => "SlNotSupported"@,
            State::Initialization => "SlInitialization"@,
            State::NotInitialized => "SlNotInitialized"@,
            State::AlreadyInitialized => "SlAlreadyInitialized"@,
            State::Deleted => "SlDeleted"@,
            State::Isr => "SlIsr"@,
            State::NetworkUp => "SlNetworkUp"@,
            State::NetworkDown => "SlNetworkDown"@,
            State::NotJoined => "SlNotJoined"@,
            State::NoBeacons => "SlNoBeacons"@,
        }
    }

    /// Returns the diagnostic name of the variant's status value.
    pub fn name(&self) -> (s: &'static str)
        ensures
            s@ == self.spec_name(),
    {
        match self {
            State::Invalid => "SlInvalidState",
            State::NotReady => "SlNotReady",
            State::Busy => "SlBusy",
            State::InProgress => "SlInProgress",
            State::Abort => "SlAbort",
            State::Timeout => "SlTimeout",
            State::Permission => "SlPermission",
            State::WouldBlock => "SlWouldBlock",
            State::Idle => "SlIdle",
            State::IsWaiting => "SlIsWaiting",
            State::NoneWaiting => "SlNoneWaiting",
            State::Suspended => "SlSuspended",
            State::NotAvailable => "SlNotAvailable",
            State::NotSupported => "SlNotSupported",
            State::Initialization => "SlInitialization",
            State::NotInitialized => "SlNotInitialized",
            State::AlreadyInitialized => "SlAlreadyInitialized",
            State::Deleted => "SlDeleted",
            State::Isr => "SlIsr",
            State::NetworkUp => "SlNetworkUp",
            State::NetworkDown => "SlNetworkDown",
            State::NotJoined => "SlNotJoined",
            State::NoBeacons => "SlNoBeacons",
        }
    }
}

} // verus!
