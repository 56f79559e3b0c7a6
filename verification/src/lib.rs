//! Wire-communication stack for optical/inertial tracking sensors: the binary
//! packet codec, SLIP framing and the device-hub multiplexing protocol.
//!
//! Received bytes go through [`slip::decode_slip_frame`], then through
//! [`Parse::parse`] of [`Packet`], then to the [`device_hub::DeviceHub`], which
//! routes by device; sending takes the way back. The contracts are stated
//! over the byte sequences and device lists themselves, and the laws that tie
//! the functions together (parsing inverts serialization, decoding inverts
//! encoding, one packet type per byte) are proved as lemmas beside them. The
//! one part taken on trust is the behaviour of `heapless::Vec`, which holds
//! the device list: see [`roster`].

pub mod codec;
pub mod control;
pub mod device_hub;
pub mod hub;
pub mod markers;
pub mod mot;
pub mod mux;
pub mod packet;
pub mod packet_type;
pub mod payload;
pub mod roster;
pub mod slip;
pub mod vendor;
pub mod wire;

pub use codec::{Parse, Serialize};
pub use markers::{CombinedMarkersReport, MarkerPoint, PocMarkersReport};
pub use mot::{MotData, ObjectReport};
pub use packet::{Packet, PacketData};
pub use packet_type::{Error, Mode, PacketType, Port, StreamUpdateAction};
pub use payload::{
    AccelReport, ImpactReport, Props, ReadRegisterResponse, Register, StreamUpdate, Version,
    WriteRegister,
};
pub use vendor::VendorData;
