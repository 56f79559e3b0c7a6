//! The short fixed-layout payloads: register access, properties, inertial and
//! impact reports, stream control, mode and version.

use crate::codec::{
    advance, bits_of_i16, i16_bits, i16_from_bits, i16_of_bits, lemma_u16_round_trip,
    lemma_u32_round_trip, push_bytes, push_u16, push_u32, read_bytes, read_u16, read_u32, u16_at,
    u16_wire, u32_at, u32_wire, Parse, Serialize,
};
use crate::packet_type::{
    action_byte, mode_byte, packet_type_of, port_byte, type_byte, Error, Mode, PacketType, Port,
    StreamUpdateAction,
};
use vstd::prelude::*;

verus! {

/// Major number of the protocol version that this library implements.
pub const PROTOCOL_MAJOR: u16 = 0;

/// Minor number of the protocol version that this library implements.
pub const PROTOCOL_MINOR: u16 = 1;

/// Patch number of the protocol version that this library implements.
pub const PROTOCOL_PATCH: u16 = 0;

/// The error of a payload of type `ty` that ends too early.
pub open spec fn eof(ty: PacketType) -> Error {
    Error::UnexpectedEof { packet_type: Some(ty) }
}

/// The address of a sensor register.
#[derive(Clone, Copy, Debug, PartialEq, Eq)]
pub struct Register {
    pub port: Port,
    pub bank: u8,
    pub address: u8,
}

/// A register address and the value to write there.
#[derive(Clone, Copy, Debug, PartialEq, Eq)]
pub struct WriteRegister {
    pub port: Port,
    pub bank: u8,
    pub address: u8,
    pub data: u8,
}

/// The value read from a register.
#[derive(Clone, Copy, Debug, PartialEq, Eq)]
pub struct ReadRegisterResponse {
    pub bank: u8,
    pub address: u8,
    pub data: u8,
}

/// A device property.
#[derive(Clone, Copy, Debug, PartialEq, Eq)]
pub enum Props {
    Uuid([u8; 6]),
    ProductId(u16),
}

/// One inertial sample in wire units: acceleration at 2048 counts per
/// standard gravity and angular rate at 16.4 counts per degree per second.
#[derive(Clone, Copy, Debug, Default, PartialEq, Eq)]
pub struct AccelReport {
    pub timestamp: u32,
    pub accel: [i16; 3],
    pub gyro: [i16; 3],
}

/// The time of a detected impact.
#[derive(Clone, Copy, Debug, PartialEq, Eq)]
pub struct ImpactReport {
    pub timestamp: u32,
}

/// A request to start or stop the stream of one packet type.
#[derive(Clone, Copy, Debug, PartialEq, Eq)]
pub struct StreamUpdate {
    pub packet_id: PacketType,
    pub action: StreamUpdateAction,
}

/// Protocol and firmware versions of a device.
#[derive(Clone, Copy, Debug, PartialEq, Eq)]
pub struct Version {
    pub protocol_semver: [u16; 3],
    pub firmware_semver: [u16; 3],
}

impl Version {
    /// The version record of firmware `firmware_semver`, stamped with the
    /// protocol version that this library implements.
    pub fn new(firmware_semver: [u16; 3]) -> (r: Version)
        ensures
            r.protocol_semver@ == seq![PROTOCOL_MAJOR, PROTOCOL_MINOR, PROTOCOL_PATCH],
            r.firmware_semver == firmware_semver,
    {
        let r = Version {
            protocol_semver: [PROTOCOL_MAJOR, PROTOCOL_MINOR, PROTOCOL_PATCH],
            firmware_semver,
        };
        assert(r.protocol_semver@ =~= seq![PROTOCOL_MAJOR, PROTOCOL_MINOR, PROTOCOL_PATCH]);
        r
    }
}

impl Serialize for WriteRegister {
    open spec fn wire(&self) -> Seq<u8> {
        seq![port_byte(self.port), self.bank, self.address, self.data]
    }

    fn serialize(&self, buf: &mut Vec<u8>) {
        buf.push(self.port.into_byte());
        buf.push(self.bank);
        buf.push(self.address);
        buf.push(self.data);
        assert(buf@ =~= old(buf)@ + self.wire());
    }
}

impl Parse for WriteRegister {
    open spec fn parse_failure(bytes: Seq<u8>) -> Option<Error> {
        if bytes.len() < 4 {
            Some(eof(PacketType::WriteRegister()))
        } else if bytes[0] > 1 {
            Some(Error::UnrecognizedPort)
        } else {
            None
        }
    }

    open spec fn parse_len(bytes: Seq<u8>) -> int {
        4
    }

    open spec fn is_parse_of(&self, bytes: Seq<u8>) -> bool {
        &&& port_byte(self.port) == bytes[0]
        &&& self.bank == bytes[1]
        &&& self.address == bytes[2]
        &&& self.data == bytes[3]
    }

    fn parse(bytes: &mut &[u8]) -> (r: Result<Self, Error>) {
        if bytes.len() < 4 {
            return Err(Error::UnexpectedEof { packet_type: Some(PacketType::WriteRegister()) });
        }
        let port = match Port::try_from(bytes[0]) {
            Ok(p) => p,
            Err(e) => {
                return Err(e);
            },
        };
        let v = WriteRegister { port, bank: bytes[1], address: bytes[2], data: bytes[3] };
        advance(bytes, 4);
        Ok(v)
    }
}

impl Serialize for Register {
    open spec fn wire(&self) -> Seq<u8> {
        seq![port_byte(self.port), self.bank, self.address, 0u8]
    }

    fn serialize(&self, buf: &mut Vec<u8>) {
        buf.push(self.port.into_byte());
        buf.push(self.bank);
        buf.push(self.address);
        buf.push(0);
        assert(buf@ =~= old(buf)@ + self.wire());
    }
}

impl Parse for Register {
    open spec fn parse_failure(bytes: Seq<u8>) -> Option<Error> {
        if bytes.len() < 4 {
            Some(eof(PacketType::ReadRegister()))
        } else if bytes[0] > 1 {
            Some(Error::UnrecognizedPort)
        } else {
            None
        }
    }

    open spec fn parse_len(bytes: Seq<u8>) -> int {
        4
    }

    open spec fn is_parse_of(&self, bytes: Seq<u8>) -> bool {
        &&& port_byte(self.port) == bytes[0]
        &&& self.bank == bytes[1]
        &&& self.address == bytes[2]
    }

    fn parse(bytes: &mut &[u8]) -> (r: Result<Self, Error>) {
        if bytes.len() < 4 {
            return Err(Error::UnexpectedEof { packet_type: Some(PacketType::ReadRegister()) });
        }
        let port = match Port::try_from(bytes[0]) {
            Ok(p) => p,
            Err(e) => {
                return Err(e);
            },
        };
        let v = Register { port, bank: bytes[1], address: bytes[2] };
        advance(bytes, 4);
        Ok(v)
    }
}

impl Serialize for ReadRegisterResponse {
    open spec fn wire(&self) -> Seq<u8> {
        seq![self.bank, self.address, self.data, 0u8]
    }

    fn serialize(&self, buf: &mut Vec<u8>) {
        buf.push(self.bank);
        buf.push(self.address);
        buf.push(self.data);
        buf.push(0);
        assert(buf@ =~= old(buf)@ + self.wire());
    }
}

impl Parse for ReadRegisterResponse {
    open spec fn parse_failure(bytes: Seq<u8>) -> Option<Error> {
        if bytes.len() < 4 {
            Some(eof(PacketType::ReadRegisterResponse()))
        } else {
            None
        }
    }

    open spec fn parse_len(bytes: Seq<u8>) -> int {
        4
    }

    open spec fn is_parse_of(&self, bytes: Seq<u8>) -> bool {
        &&& self.bank == bytes[0]
        &&& self.address == bytes[1]
        &&& self.data == bytes[2]
    }

    fn parse(bytes: &mut &[u8]) -> (r: Result<Self, Error>) {
        if bytes.len() < 4 {
            return Err(
                Error::UnexpectedEof { packet_type: Some(PacketType::ReadRegisterResponse()) },
            );
        }
        let v = ReadRegisterResponse { bank: bytes[0], address: bytes[1], data: bytes[2] };
        advance(bytes, 4);
        Ok(v)
    }
}

impl Serialize for Props {
    open spec fn wire(&self) -> Seq<u8> {
        match *self {
            Props::Uuid(id) => seq![0u8, 0u8] + id@,
            Props::ProductId(n) => seq![1u8, 0u8] + u16_wire(n),
        }
    }

    fn serialize(&self, buf: &mut Vec<u8>) {
        match self {
            Props::Uuid(id) => {
                buf.push(0);
                buf.push(0);
                push_bytes(buf, id);
            },
            Props::ProductId(n) => {
                buf.push(1);
                buf.push(0);
                push_u16(buf, *n);
            },
        }
        assert(buf@ =~= old(buf)@ + self.wire());
    }
}

impl Parse for Props {
    open spec fn parse_failure(bytes: Seq<u8>) -> Option<Error> {
        if bytes.len() < 2 {
            Some(eof(PacketType::ReadPropsResponse()))
        } else if bytes[0] > 1 {
            Some(Error::InvalidBitPattern)
        } else if bytes.len() < Self::parse_len(bytes) {
            Some(eof(PacketType::ReadPropsResponse()))
        } else {
            None
        }
    }

    open spec fn parse_len(bytes: Seq<u8>) -> int {
        if bytes[0] == 0 {
            8
        } else {
            4
        }
    }

    open spec fn is_parse_of(&self, bytes: Seq<u8>) -> bool {
        match *self {
            Props::Uuid(id) => bytes[0] == 0 && id@ == bytes.subrange(2, 8),
            Props::ProductId(n) => bytes[0] == 1 && n == u16_at(bytes, 2),
        }
    }

    fn parse(bytes: &mut &[u8]) -> (r: Result<Self, Error>) {
        if bytes.len() < 2 {
            return Err(Error::UnexpectedEof { packet_type: Some(PacketType::ReadPropsResponse()) });
        }
        let kind = bytes[0];
        if kind > 1 {
            return Err(Error::InvalidBitPattern);
        }
        if kind == 0 {
            if bytes.len() < 8 {
                return Err(
                    Error::UnexpectedEof { packet_type: Some(PacketType::ReadPropsResponse()) },
                );
            }
            let id: [u8; 6] = read_bytes(*bytes, 2, 6);
            assert(id@ =~= bytes@.subrange(2, 8));
            advance(bytes, 8);
            Ok(Props::Uuid(id))
        } else {
            if bytes.len() < 4 {
                return Err(
                    Error::UnexpectedEof { packet_type: Some(PacketType::ReadPropsResponse()) },
                );
            }
            let n = read_u16(*bytes, 2);
            advance(bytes, 4);
            Ok(Props::ProductId(n))
        }
    }
}

impl Serialize for AccelReport {
    open spec fn wire(&self) -> Seq<u8> {
        u32_wire(self.timestamp) + u16_wire(i16_bits(self.accel@[0])) + u16_wire(
            i16_bits(self.accel@[1]),
        ) + u16_wire(i16_bits(self.accel@[2])) + u16_wire(i16_bits(self.gyro@[0])) + u16_wire(
            i16_bits(self.gyro@[1]),
        ) + u16_wire(i16_bits(self.gyro@[2]))
    }

    fn serialize(&self, buf: &mut Vec<u8>) {
        push_u32(buf, self.timestamp);
        push_u16(buf, bits_of_i16(self.accel[0]));
        push_u16(buf, bits_of_i16(self.accel[1]));
        push_u16(buf, bits_of_i16(self.accel[2]));
        push_u16(buf, bits_of_i16(self.gyro[0]));
        push_u16(buf, bits_of_i16(self.gyro[1]));
        push_u16(buf, bits_of_i16(self.gyro[2]));
        assert(buf@ =~= old(buf)@ + self.wire());
    }
}

impl Parse for AccelReport {
    open spec fn parse_failure(bytes: Seq<u8>) -> Option<Error> {
        if bytes.len() < 16 {
            Some(eof(PacketType::AccelReport()))
        } else {
            None
        }
    }

    open spec fn parse_len(bytes: Seq<u8>) -> int {
        16
    }

    open spec fn is_parse_of(&self, bytes: Seq<u8>) -> bool {
        &&& self.timestamp == u32_at(bytes, 0)
        &&& self.accel@ == seq![
            i16_of_bits(u16_at(bytes, 4)),
            i16_of_bits(u16_at(bytes, 6)),
            i16_of_bits(u16_at(bytes, 8)),
        ]
        &&& self.gyro@ == seq![
            i16_of_bits(u16_at(bytes, 10)),
            i16_of_bits(u16_at(bytes, 12)),
            i16_of_bits(u16_at(bytes, 14)),
        ]
    }

    fn parse(bytes: &mut &[u8]) -> (r: Result<Self, Error>) {
        if bytes.len() < 16 {
            return Err(Error::UnexpectedEof { packet_type: Some(PacketType::AccelReport()) });
        }
        let v = AccelReport {
            timestamp: read_u32(*bytes, 0),
            accel: [
                i16_from_bits(read_u16(*bytes, 4)),
                i16_from_bits(read_u16(*bytes, 6)),
                i16_from_bits(read_u16(*bytes, 8)),
            ],
            gyro: [
                i16_from_bits(read_u16(*bytes, 10)),
                i16_from_bits(read_u16(*bytes, 12)),
                i16_from_bits(read_u16(*bytes, 14)),
            ],
        };
        assert(v.accel@ =~= seq![
            i16_of_bits(u16_at(bytes@, 4)),
            i16_of_bits(u16_at(bytes@, 6)),
            i16_of_bits(u16_at(bytes@, 8)),
        ]);
        assert(v.gyro@ =~= seq![
            i16_of_bits(u16_at(bytes@, 10)),
            i16_of_bits(u16_at(bytes@, 12)),
            i16_of_bits(u16_at(bytes@, 14)),
        ]);
        advance(bytes, 16);
        Ok(v)
    }
}

impl Serialize for ImpactReport {
    open spec fn wire(&self) -> Seq<u8> {
        u32_wire(self.timestamp)
    }

    fn serialize(&self, buf: &mut Vec<u8>) {
        push_u32(buf, self.timestamp);
    }
}

impl Parse for ImpactReport {
    open spec fn parse_failure(bytes: Seq<u8>) -> Option<Error> {
        if bytes.len() < 4 {
            Some(eof(PacketType::ImpactReport()))
        } else {
            None
        }
    }

    open spec fn parse_len(bytes: Seq<u8>) -> int {
        4
    }

    open spec fn is_parse_of(&self, bytes: Seq<u8>) -> bool {
        self.timestamp == u32_at(bytes, 0)
    }

    fn parse(bytes: &mut &[u8]) -> (r: Result<Self, Error>) {
        if bytes.len() < 4 {
            return Err(Error::UnexpectedEof { packet_type: Some(PacketType::ImpactReport()) });
        }
        let v = ImpactReport { timestamp: read_u32(*bytes, 0) };
        advance(bytes, 4);
        Ok(v)
    }
}

impl StreamUpdate {
    /// The packet type is well formed.
    pub open spec fn valid(&self) -> bool {
        self.packet_id.valid()
    }

    /// The error with which parsing the front of `bytes` fails, if it fails:
    /// too short an input, then an unknown packet type, then an unknown
    /// action.
    pub open spec fn parse_failure(bytes: Seq<u8>) -> Option<Error> {
        if bytes.len() < 2 {
            Some(eof(PacketType::StreamUpdate()))
        } else if packet_type_of(bytes[0]) is None {
            Some(Error::UnrecognizedPacketId(bytes[0]))
        } else if bytes[1] > 2 {
            Some(Error::UnrecognizedStreamUpdateAction(bytes[1]))
        } else {
            None
        }
    }

    /// Whether `self` is the stream update that the front of `bytes` holds.
    pub open spec fn is_parse_of(&self, bytes: Seq<u8>) -> bool {
        &&& packet_type_of(bytes[0]) == Some(self.packet_id)
        &&& action_byte(self.action) == bytes[1]
    }

    /// Parses a stream update from the front of `bytes` and moves `bytes`
    /// past it. On failure `bytes` is left where it was.
    pub fn parse(bytes: &mut &[u8]) -> (r: Result<StreamUpdate, Error>)
        ensures
            match r {
                Ok(v) => StreamUpdate::parse_failure(old(bytes)@) is None && v.is_parse_of(
                    old(bytes)@,
                ) && final(bytes)@ == old(bytes)@.skip(2),
                Err(e) => StreamUpdate::parse_failure(old(bytes)@) == Some(e) && final(bytes)@
                    == old(bytes)@,
            },
    {
        if bytes.len() < 2 {
            return Err(Error::UnexpectedEof { packet_type: Some(PacketType::StreamUpdate()) });
        }
        let packet_id = match PacketType::try_from(bytes[0]) {
            Ok(t) => t,
            Err(e) => {
                return Err(e);
            },
        };
        let action = match StreamUpdateAction::try_from(bytes[1]) {
            Ok(a) => a,
            Err(e) => {
                return Err(e);
            },
        };
        advance(bytes, 2);
        Ok(StreamUpdate { packet_id, action })
    }
}

impl Serialize for StreamUpdate {
    open spec fn wire(&self) -> Seq<u8> {
        seq![type_byte(self.packet_id), action_byte(self.action)]
    }

    fn serialize(&self, buf: &mut Vec<u8>) {
        buf.push(self.packet_id.into_byte());
        buf.push(self.action.into_byte());
        assert(buf@ =~= old(buf)@ + self.wire());
    }
}

impl Serialize for Mode {
    open spec fn wire(&self) -> Seq<u8> {
        seq![mode_byte(*self), 0u8]
    }

    fn serialize(&self, buf: &mut Vec<u8>) {
        buf.push(self.into_byte());
        buf.push(0);
        assert(buf@ =~= old(buf)@ + self.wire());
    }
}

impl Parse for Mode {
    open spec fn parse_failure(bytes: Seq<u8>) -> Option<Error> {
        if bytes.len() < 2 {
            Some(eof(PacketType::WriteMode()))
        } else if bytes[0] > 1 {
            Some(Error::InvalidBitPattern)
        } else {
            None
        }
    }

    open spec fn parse_len(bytes: Seq<u8>) -> int {
        2
    }

    open spec fn is_parse_of(&self, bytes: Seq<u8>) -> bool {
        mode_byte(*self) == bytes[0]
    }

    fn parse(bytes: &mut &[u8]) -> (r: Result<Self, Error>) {
        if bytes.len() < 2 {
            return Err(Error::UnexpectedEof { packet_type: Some(PacketType::WriteMode()) });
        }
        let m = match Mode::try_from(bytes[0]) {
            Ok(m) => m,
            Err(e) => {
                return Err(e);
            },
        };
        advance(bytes, 2);
        Ok(m)
    }
}

impl Serialize for Version {
    open spec fn wire(&self) -> Seq<u8> {
        u16_wire(self.protocol_semver@[0]) + u16_wire(self.protocol_semver@[1]) + u16_wire(
            self.protocol_semver@[2],
        ) + u16_wire(self.firmware_semver@[0]) + u16_wire(self.firmware_semver@[1]) + u16_wire(
            self.firmware_semver@[2],
        )
    }

    fn serialize(&self, buf: &mut Vec<u8>) {
        push_u16(buf, self.protocol_semver[0]);
        push_u16(buf, self.protocol_semver[1]);
        push_u16(buf, self.protocol_semver[2]);
        push_u16(buf, self.firmware_semver[0]);
        push_u16(buf, self.firmware_semver[1]);
        push_u16(buf, self.firmware_semver[2]);
        assert(buf@ =~= old(buf)@ + self.wire());
    }
}

impl Parse for Version {
    open spec fn parse_failure(bytes: Seq<u8>) -> Option<Error> {
        if bytes.len() < 12 {
            Some(eof(PacketType::ReadVersionResponse()))
        } else {
            None
        }
    }

    open spec fn parse_len(bytes: Seq<u8>) -> int {
        12
    }

    open spec fn is_parse_of(&self, bytes: Seq<u8>) -> bool {
        &&& self.protocol_semver@ == seq![u16_at(bytes, 0), u16_at(bytes, 2), u16_at(bytes, 4)]
        &&& self.firmware_semver@ == seq![u16_at(bytes, 6), u16_at(bytes, 8), u16_at(bytes, 10)]
    }

    fn parse(bytes: &mut &[u8]) -> (r: Result<Self, Error>) {
        if bytes.len() < 12 {
            return Err(
                Error::UnexpectedEof { packet_type: Some(PacketType::ReadVersionResponse()) },
            );
        }
        let v = Version {
            protocol_semver: [read_u16(*bytes, 0), read_u16(*bytes, 2), read_u16(*bytes, 4)],
            firmware_semver: [read_u16(*bytes, 6), read_u16(*bytes, 8), read_u16(*bytes, 10)],
        };
        assert(v.protocol_semver@ =~= seq![
            u16_at(bytes@, 0),
            u16_at(bytes@, 2),
            u16_at(bytes@, 4),
        ]);
        assert(v.firmware_semver@ =~= seq![
            u16_at(bytes@, 6),
            u16_at(bytes@, 8),
            u16_at(bytes@, 10),
        ]);
        advance(bytes, 12);
        Ok(v)
    }
}

/// An inertial sample is read back exactly from its wire bytes.
pub proof fn lemma_accel_report_round_trip(r: AccelReport)
    ensures
        r.wire().len() == 16,
        r.is_parse_of(r.wire()),
{
    let b = r.wire();
    lemma_u32_round_trip(r.timestamp);
    let a = r.accel@;
    let g = r.gyro@;
    lemma_u16_round_trip(i16_bits(a[0]));
    lemma_u16_round_trip(i16_bits(a[1]));
    lemma_u16_round_trip(i16_bits(a[2]));
    lemma_u16_round_trip(i16_bits(g[0]));
    lemma_u16_round_trip(i16_bits(g[1]));
    lemma_u16_round_trip(i16_bits(g[2]));
    assert(forall|j: int| 0 <= j < 4 ==> b[j] == u32_wire(r.timestamp)[j]);
    assert(forall|j: int| 0 <= j < 2 ==> b[4 + j] == u16_wire(i16_bits(a[0]))[j]);
    assert(forall|j: int| 0 <= j < 2 ==> b[6 + j] == u16_wire(i16_bits(a[1]))[j]);
    assert(forall|j: int| 0 <= j < 2 ==> b[8 + j] == u16_wire(i16_bits(a[2]))[j]);
    assert(forall|j: int| 0 <= j < 2 ==> b[10 + j] == u16_wire(i16_bits(g[0]))[j]);
    assert(forall|j: int| 0 <= j < 2 ==> b[12 + j] == u16_wire(i16_bits(g[1]))[j]);
    assert(forall|j: int| 0 <= j < 2 ==> b[14 + j] == u16_wire(i16_bits(g[2]))[j]);
    assert(a =~= seq![
        i16_of_bits(u16_at(b, 4)),
        i16_of_bits(u16_at(b, 6)),
        i16_of_bits(u16_at(b, 8)),
    ]);
    assert(g =~= seq![
        i16_of_bits(u16_at(b, 10)),
        i16_of_bits(u16_at(b, 12)),
        i16_of_bits(u16_at(b, 14)),
    ]);
}

/// A version record is read back exactly from its wire bytes.
pub proof fn lemma_version_round_trip(v: Version)
    ensures
        v.wire().len() == 12,
        v.is_parse_of(v.wire()),
{
    let b = v.wire();
    let p = v.protocol_semver@;
    let f = v.firmware_semver@;
    lemma_u16_round_trip(p[0]);
    lemma_u16_round_trip(p[1]);
    lemma_u16_round_trip(p[2]);
    lemma_u16_round_trip(f[0]);
    lemma_u16_round_trip(f[1]);
    lemma_u16_round_trip(f[2]);
    assert(forall|j: int| 0 <= j < 2 ==> b[j] == u16_wire(p[0])[j]);
    assert(forall|j: int| 0 <= j < 2 ==> b[2 + j] == u16_wire(p[1])[j]);
    assert(forall|j: int| 0 <= j < 2 ==> b[4 + j] == u16_wire(p[2])[j]);
    assert(forall|j: int| 0 <= j < 2 ==> b[6 + j] == u16_wire(f[0])[j]);
    assert(forall|j: int| 0 <= j < 2 ==> b[8 + j] == u16_wire(f[1])[j]);
    assert(forall|j: int| 0 <= j < 2 ==> b[10 + j] == u16_wire(f[2])[j]);
    assert(p =~= seq![u16_at(b, 0), u16_at(b, 2), u16_at(b, 4)]);
    assert(f =~= seq![u16_at(b, 6), u16_at(b, 8), u16_at(b, 10)]);
}

} // verus!
