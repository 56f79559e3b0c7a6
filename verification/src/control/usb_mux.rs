//! Control messages between a host and a hub dongle.

use crate::roster::Uuid;
use vstd::prelude::*;

verus! {

/// Why a pairing did not complete.
#[derive(Clone, Copy, Debug, PartialEq, Eq, Structural)]
pub enum PairingError {
    Timeout,
    Cancelled,
}

/// Why the bonds could not be cleared.
#[derive(Clone, Copy, Debug, PartialEq, Eq, Structural)]
pub enum ClearBondsError {
    Failed,
}

/// Why a bond could not be stored.
#[derive(Clone, Copy, Debug, PartialEq, Eq, Structural)]
pub enum BondStoreError {
    Full,
}

/// A request to pair within `timeout_ms` milliseconds.
#[derive(Clone, Copy, Debug, PartialEq, Eq, Structural)]
pub struct StartPairing {
    pub timeout_ms: u32,
}

/// Protocol and firmware versions of a hub's control plane.
#[derive(Clone, Copy, Debug, PartialEq, Eq)]
pub struct UsbMuxVersion {
    pub protocol_semver: [u16; 3],
    pub firmware_semver: [u16; 3],
}

/// One control message.
#[derive(Clone, Copy, Debug, PartialEq, Eq)]
pub enum UsbMuxCtrlMsg {
    ReadVersion(),
    ReadVersionResponse(UsbMuxVersion),
    ClearBonds,
    ClearBondsResponse(Result<(), ClearBondsError>),
    BondStoreError(BondStoreError),
    StartPairing(StartPairing),
    StartPairingResponse,
    CancelPairing,
    PairingResult(Result<Uuid, PairingError>),
}

impl UsbMuxVersion {
    /// The version record of firmware `firmware_semver`, stamped with
    /// version 0.1.0 of the hub control protocol.
    pub fn new(firmware_semver: [u16; 3]) -> (r: UsbMuxVersion)
        ensures
            r.protocol_semver@ == seq![0u16, 1u16, 0u16],
            r.firmware_semver == firmware_semver,
    {
        let r = UsbMuxVersion { protocol_semver: [0, 1, 0], firmware_semver };
        assert(r.protocol_semver@ =~= seq![0u16, 1u16, 0u16]);
        r
    }
}

} // verus!
