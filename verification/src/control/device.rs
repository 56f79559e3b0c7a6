//! Control messages between a host and one device.

use crate::roster::Uuid;
use vstd::prelude::*;

verus! {

/// Why a pairing did not complete.
#[derive(Clone, Copy, Debug, PartialEq, Eq, Structural)]
pub enum PairingError {
    Timeout,
    Cancelled,
    NotBleMode,
}

/// The transport that a device speaks over.
#[derive(Clone, Copy, Debug, PartialEq, Eq, Structural)]
pub enum TransportMode {
    Usb,
    Ble,
}

/// Why the bond could not be cleared.
#[derive(Clone, Copy, Debug, PartialEq, Eq, Structural)]
pub enum ClearBondsError {
    Failed,
}

/// A request to pair within `timeout_ms` milliseconds.
#[derive(Clone, Copy, Debug, PartialEq, Eq, Structural)]
pub struct StartPairing {
    pub timeout_ms: u32,
}

/// Protocol and firmware versions of a device's control plane.
#[derive(Clone, Copy, Debug, PartialEq, Eq)]
pub struct Version {
    pub protocol_semver: [u16; 3],
    pub firmware_semver: [u16; 3],
}

/// One control message.
#[derive(Clone, Copy, Debug, PartialEq, Eq)]
pub enum DeviceMsg {
    ReadVersion(),
    ReadVersionResponse(Version),
    ClearBond,
    ClearBondResponse(Result<(), ClearBondsError>),
    GetTransportMode,
    SetTransportMode(TransportMode),
    TransportModeStatus(TransportMode),
    StartPairing(StartPairing),
    StartPairingResponse,
    CancelPairing,
    PairingResult(Result<Uuid, PairingError>),
}

/// The byte of a transport mode.
pub open spec fn transport_mode_byte(m: TransportMode) -> u8 {
    match m {
        TransportMode::Usb => 0,
        TransportMode::Ble => 1,
    }
}

impl TransportMode {
    /// The byte of this transport mode.
    pub fn into_byte(self) -> (r: u8)
        ensures
            r == transport_mode_byte(self),
    {
        match self {
            TransportMode::Usb => 0,
            TransportMode::Ble => 1,
        }
    }
}

impl Version {
    /// The version record of firmware `firmware_semver`, stamped with
    /// version 0.1.0 of the device control protocol.
    pub fn new(firmware_semver: [u16; 3]) -> (r: Version)
        ensures
            r.protocol_semver@ == seq![0u16, 1u16, 0u16],
            r.firmware_semver == firmware_semver,
    {
        let r = Version { protocol_semver: [0, 1, 0], firmware_semver };
        assert(r.protocol_semver@ =~= seq![0u16, 1u16, 0u16]);
        r
    }
}

} // verus!
