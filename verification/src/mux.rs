//! The messages between a hub and its one upstream session.

use crate::packet::Packet;
use crate::roster::{roster_clone, roster_ids, Uuid, MAX_DEVICES};
use vstd::prelude::*;

verus! {

/// One message of the multiplexing protocol.
#[derive(Debug)]
pub enum MuxMsg {
    /// The devices attached at this moment, in the order of their attaching.
    DevicesSnapshot(heapless::Vec<Uuid, MAX_DEVICES>),
    /// A packet that came from a device.
    DevicePacket(DevicePacket),
    /// Asks for one snapshot.
    RequestDevices,
    /// A packet to be sent to a device.
    SendTo(SendTo),
    ReadVersion(),
    ReadVersionResponse(Version),
    /// Asks for a snapshot now and after every change of the device list.
    SubscribeDeviceList,
    /// Ends what `SubscribeDeviceList` began.
    UnsubscribeDeviceList,
}

/// A packet and the device that it came from.
#[derive(Clone, Copy, Debug, PartialEq, Eq)]
pub struct DevicePacket {
    pub dev: Uuid,
    pub pkt: Packet,
}

/// A packet and the device that it is meant for.
#[derive(Clone, Copy, Debug, PartialEq, Eq)]
pub struct SendTo {
    pub dev: Uuid,
    pub pkt: Packet,
}

/// Protocol and firmware versions of a hub.
#[derive(Clone, Copy, Debug, PartialEq, Eq)]
pub struct Version {
    pub protocol_semver: [u16; 3],
    pub firmware_semver: [u16; 3],
}

impl Version {
    /// The version record of firmware `firmware_semver`, stamped with
    /// version 0.1.0 of the multiplexing protocol.
    pub fn new(firmware_semver: [u16; 3]) -> (r: Version)
        ensures
            r.protocol_semver@ == seq![0u16, 1u16, 0u16],
            r.firmware_semver == firmware_semver,
    {
        let r = Version { protocol_semver: [0, 1, 0], firmware_semver };
        assert(r.protocol_semver@ =~= seq![0u16, 1u16, 0u16]);
        r
    }
}

impl Clone for MuxMsg {
    /// A message of the same kind with the same content; of a snapshot, one
    /// with the same devices in the same order.
    fn clone(&self) -> (r: Self)
        ensures
            match *self {
                MuxMsg::DevicesSnapshot(devs) => r matches MuxMsg::DevicesSnapshot(c)
                    && roster_ids(c) == roster_ids(devs),
                _ => r == *self,
            },
    {
        match self {
            MuxMsg::DevicesSnapshot(devs) => MuxMsg::DevicesSnapshot(roster_clone(devs)),
            MuxMsg::DevicePacket(dp) => MuxMsg::DevicePacket(*dp),
            MuxMsg::RequestDevices => MuxMsg::RequestDevices,
            MuxMsg::SendTo(s) => MuxMsg::SendTo(*s),
            MuxMsg::ReadVersion() => MuxMsg::ReadVersion(),
            MuxMsg::ReadVersionResponse(v) => MuxMsg::ReadVersionResponse(*v),
            MuxMsg::SubscribeDeviceList => MuxMsg::SubscribeDeviceList,
            MuxMsg::UnsubscribeDeviceList => MuxMsg::UnsubscribeDeviceList,
        }
    }
}

impl MuxMsg {
    /// The device that this message is about, where it is about one: the
    /// source of a `DevicePacket`, the target of a `SendTo`.
    pub fn device_uuid(&self) -> (r: Option<[u8; 6]>)
        ensures
            r == match *self {
                MuxMsg::DevicePacket(dp) => Some(dp.dev),
                MuxMsg::SendTo(s) => Some(s.dev),
                _ => None,
            },
    {
        match self {
            MuxMsg::DevicePacket(dp) => Some(dp.dev),
            MuxMsg::SendTo(s) => Some(s.dev),
            _ => None,
        }
    }

    /// The device list that this message carries, where it is a snapshot.
    pub fn devices_snapshot(&self) -> (r: Option<&heapless::Vec<[u8; 6], MAX_DEVICES>>)
        ensures
            r == match self {
                MuxMsg::DevicesSnapshot(devs) => Some(devs),
                _ => None,
            },
    {
        match self {
            MuxMsg::DevicesSnapshot(devs) => Some(devs),
            _ => None,
        }
    }
}

} // verus!
