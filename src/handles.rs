use vstd::prelude::*;
use vstd::std_specs::convert::FromSpec;

verus! {

/// Logical characteristics of the peer, each bound to a fixed 16-bit
/// attribute handle.
#[derive(Debug, Clone, Copy, PartialEq, Eq, Hash, Structural)]
pub enum ATTHandles {
    Transparency,
    LoudSoundReduction,
    HearingAid,
}

/// The client characteristic configuration descriptor of each
/// characteristic in [`ATTHandles`].
#[derive(Debug, Clone, Copy, PartialEq, Eq, Hash, Structural)]
pub enum ATTCCCDHandles {
    Transparency,
    LoudSoundReduction,
    HearingAid,
}

pub const TRANSPARENCY_HANDLE: u16 = 0x18;
pub const LOUD_SOUND_REDUCTION_HANDLE: u16 = 0x1B;
pub const HEARING_AID_HANDLE: u16 = 0x2A;

/// The attribute handle of a characteristic value.
pub open spec fn handle_of(h: ATTHandles) -> u16 {
    match h {
        ATTHandles::Transparency => 0x18,
        ATTHandles::LoudSoundReduction => 0x1B,
        ATTHandles::HearingAid => 0x2A,
    }
}

/// The characteristic whose configuration descriptor `c` is.
pub open spec fn characteristic_of(c: ATTCCCDHandles) -> ATTHandles {
    match c {
        ATTCCCDHandles::Transparency => ATTHandles::Transparency,
        ATTCCCDHandles::LoudSoundReduction => ATTHandles::LoudSoundReduction,
        ATTCCCDHandles::HearingAid => ATTHandles::HearingAid,
    }
}

/// A configuration descriptor sits right after its characteristic value.
pub open spec fn cccd_handle_of(c: ATTCCCDHandles) -> u16 {
    (handle_of(characteristic_of(c)) + 1) as u16
}

impl ATTHandles {
    /// The 16-bit attribute handle of this characteristic.
    pub fn value(self) -> (r: u16)
        ensures
            r == handle_of(self),
    {
        match self {
            ATTHandles::Transparency => TRANSPARENCY_HANDLE,
            ATTHandles::LoudSoundReduction => LOUD_SOUND_REDUCTION_HANDLE,
            ATTHandles::HearingAid => HEARING_AID_HANDLE,
        }
    }

    /// The configuration descriptor handle of this characteristic.
    pub fn cccd(self) -> (r: ATTCCCDHandles)
        ensures
            characteristic_of(r) == self,
            cccd_handle_of(r) == handle_of(self) + 1,
    {
        match self {
            ATTHandles::Transparency => ATTCCCDHandles::Transparency,
            ATTHandles::LoudSoundReduction => ATTCCCDHandles::LoudSoundReduction,
            ATTHandles::HearingAid => ATTCCCDHandles::HearingAid,
        }
    }
}

impl ATTCCCDHandles {
    /// The 16-bit attribute handle of this configuration descriptor.
    pub fn value(self) -> (r: u16)
        ensures
            r == cccd_handle_of(self),
            r == handle_of(characteristic_of(self)) + 1,
    {
        characteristic_of_exec(self).value() + 1
    }
}

fn characteristic_of_exec(c: ATTCCCDHandles) -> (r: ATTHandles)
    ensures
        r == characteristic_of(c),
{
    match c {
        ATTCCCDHandles::Transparency => ATTHandles::Transparency,
        ATTCCCDHandles::LoudSoundReduction => ATTHandles::LoudSoundReduction,
        ATTCCCDHandles::HearingAid => ATTHandles::HearingAid,
    }
}

impl From<ATTHandles> for ATTCCCDHandles {
    fn from(handle: ATTHandles) -> (r: ATTCCCDHandles) {
        handle.cccd()
    }
}

impl vstd::std_specs::convert::FromSpecImpl<ATTHandles> for ATTCCCDHandles {
    open spec fn obeys_from_spec() -> bool {
        true
    }

    open spec fn from_spec(handle: ATTHandles) -> ATTCCCDHandles {
        match handle {
            ATTHandles::Transparency => ATTCCCDHandles::Transparency,
            ATTHandles::LoudSoundReduction => ATTCCCDHandles::LoudSoundReduction,
            ATTHandles::HearingAid => ATTCCCDHandles::HearingAid,
        }
    }
}

/// Every characteristic's configuration descriptor handle is its value
/// handle plus one, and converting a characteristic gives the descriptor
/// that belongs to it.
pub proof fn lemma_cccd_follows_value(h: ATTHandles)
    ensures
        cccd_handle_of(ATTCCCDHandles::from_spec(h)) == handle_of(h) + 1,
        characteristic_of(ATTCCCDHandles::from_spec(h)) == h,
{
}

} // verus!
