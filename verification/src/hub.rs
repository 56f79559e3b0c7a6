//! The messages between a hub with pairing and bond storage and its host.

use crate::packet::Packet;
use crate::roster::{roster_clone, roster_ids, Uuid, MAX_DEVICES};
use vstd::prelude::*;

verus! {

/// One message of the hub protocol.
#[derive(Debug)]
pub enum HubMsg {
    ClearBonds,
    ClearBondsResponse(ClearBondsResult),
    BondStoreError(BondStoreError),
    /// The devices attached at this moment, in the order of their attaching.
    DevicesSnapshot(heapless::Vec<Uuid, MAX_DEVICES>),
    /// A packet that came from a device.
    DevicePacket(DevicePacket),
    /// Asks for one snapshot.
    RequestDevices,
    /// A packet to be sent to a device.
    SendTo(SendTo),
    ReadVersion(),
    ReadVersionResponse(Version),
    StartPairing(StartPairing),
    PairingStarted,
    PairingTimeout,
    CancelPairing,
    PairingCancelled,
    PairingResult(Uuid),
}

/// A packet and the device that it came from.
#[derive(Clone, Copy, Debug, PartialEq, Eq)]
pub struct DevicePacket {
    pub dev: Uuid,
    pub pkt: Packet,
}

/// A packet and the device that it is meant for.
#[derive(Clone, Copy, Debug, PartialEq, Eq)]
pub struct SendTo {
    pub dev: Uuid,
    pub pkt: Packet,
}

/// Protocol and firmware versions of a hub.
#[derive(Clone, Copy, Debug, PartialEq, Eq)]
pub struct Version {
    pub protocol_semver: [u16; 3],
    pub firmware_semver: [u16; 3],
}

/// A request to accept a new device for `timeout_ms` milliseconds.
#[derive(Clone, Copy, Debug, PartialEq, Eq, Structural)]
pub struct StartPairing {
    pub timeout_ms: u32,
}

/// How clearing the bonds ended.
#[derive(Clone, Copy, Debug, PartialEq, Eq, Structural)]
pub enum ClearBondsResult {
    Success,
}

/// Why a bond could not be stored.
#[derive(Clone, Copy, Debug, PartialEq, Eq, Structural)]
pub enum BondStoreError {
    Full,
}

impl Version {
    /// The version record of firmware `firmware_semver`, stamped with the
    /// protocol version that this library implements.
    pub fn new(firmware_semver: [u16; 3]) -> (r: Version)
        ensures
            r.protocol_semver@ == seq![
                crate::payload::PROTOCOL_MAJOR,
                crate::payload::PROTOCOL_MINOR,
                crate::payload::PROTOCOL_PATCH,
            ],
            r.firmware_semver == firmware_semver,
    {
        let r = Version {
            protocol_semver: [
                crate::payload::PROTOCOL_MAJOR,
                crate::payload::PROTOCOL_MINOR,
                crate::payload::PROTOCOL_PATCH,
            ],
            firmware_semver,
        };
        assert(r.protocol_semver@ =~= seq![
            crate::payload::PROTOCOL_MAJOR,
            crate::payload::PROTOCOL_MINOR,
            crate::payload::PROTOCOL_PATCH,
        ]);
        r
    }
}

impl Clone for HubMsg {
    /// A message of the same kind with the same content; of a snapshot, one
    /// with the same devices in the same order.
    fn clone(&self) -> (r: Self)
        ensures
            match *self {
                HubMsg::DevicesSnapshot(devs) => r matches HubMsg::DevicesSnapshot(c)
                    && roster_ids(c) == roster_ids(devs),
                _ => r == *self,
            },
    {
        match self {
            HubMsg::ClearBonds => HubMsg::ClearBonds,
            HubMsg::ClearBondsResponse(x) => HubMsg::ClearBondsResponse(*x),
            HubMsg::BondStoreError(x) => HubMsg::BondStoreError(*x),
            HubMsg::DevicesSnapshot(devs) => HubMsg::DevicesSnapshot(roster_clone(devs)),
            HubMsg::DevicePacket(dp) => HubMsg::DevicePacket(*dp),
            HubMsg::RequestDevices => HubMsg::RequestDevices,
            HubMsg::SendTo(s) => HubMsg::SendTo(*s),
            HubMsg::ReadVersion() => HubMsg::ReadVersion(),
            HubMsg::ReadVersionResponse(v) => HubMsg::ReadVersionResponse(*v),
            HubMsg::StartPairing(x) => HubMsg::StartPairing(*x),
            HubMsg::PairingStarted => HubMsg::PairingStarted,
            HubMsg::PairingTimeout => HubMsg::PairingTimeout,
            HubMsg::CancelPairing => HubMsg::CancelPairing,
            HubMsg::PairingCancelled => HubMsg::PairingCancelled,
            HubMsg::PairingResult(id) => HubMsg::PairingResult(*id),
        }
    }
}

impl HubMsg {
    /// The device that this message is about, where it is about one: the
    /// source of a `DevicePacket`, the target of a `SendTo`.
    pub fn device_uuid(&self) -> (r: Option<[u8; 6]>)
        ensures
            r == match *self {
                HubMsg::DevicePacket(dp) => Some(dp.dev),
                HubMsg::SendTo(s) => Some(s.dev),
                _ => None,
            },
    {
        match self {
            HubMsg::DevicePacket(dp) => Some(dp.dev),
            HubMsg::SendTo(s) => Some(s.dev),
            _ => None,
        }
    }

    /// The device list that this message carries, where it is a snapshot.
    pub fn devices_snapshot(&self) -> (r: Option<&heapless::Vec<[u8; 6], MAX_DEVICES>>)
        ensures
            r == match self {
                HubMsg::DevicesSnapshot(devs) => Some(devs),
                _ => None,
            },
    {
        match self {
            HubMsg::DevicesSnapshot(devs) => Some(devs),
            _ => None,
        }
    }
}

} // verus!
