//! The packet: a four-byte header (word count, type, correlation id) and a
//! payload whose layout the type decides.

use crate::codec::{
    advance, lemma_u16_round_trip, push_bytes, push_u16, read_u16, u16_at, u16_wire, Parse,
    Serialize,
};
use crate::markers::{
    lemma_combined_markers_round_trip, lemma_poc_markers_round_trip, points_wire,
    CombinedMarkersReport, PocMarkersReport,
};
use crate::mot::{lemma_object_report_round_trip, mots_wire, ObjectReport};
use crate::packet_type::{
    lemma_byte_names_one_type, packet_type_of, type_byte, Error, Mode, PacketType,
};
use crate::payload::{
    eof, AccelReport, ImpactReport, Props, ReadRegisterResponse, Register, StreamUpdate, Version,
    WriteRegister,
};
use crate::vendor::{lemma_vendor_round_trip, vendor_pad, VendorData};
use crate::wire::{lemma_config_round_trip, GeneralConfig};
use vstd::prelude::*;

verus! {

/// Number of header bytes of a packet.
pub const HEADER_SIZE: usize = 4;

/// Largest number of payload bytes that the word count of a header can
/// declare.
pub const MAX_PAYLOAD: usize = 0x1_fffa;

/// One application-level message.
#[derive(Clone, Copy, Debug, PartialEq, Eq)]
pub struct Packet {
    pub data: PacketData,
    /// Correlation tag chosen by the sender.
    pub id: u8,
}

/// The payload of a packet, by type.
#[derive(Clone, Copy, Debug, PartialEq, Eq)]
pub enum PacketData {
    WriteRegister(WriteRegister),
    ReadRegister(Register),
    ReadRegisterResponse(ReadRegisterResponse),
    WriteConfig(GeneralConfig),
    ReadConfig(),
    ReadConfigResponse(GeneralConfig),
    ReadProps(),
    ReadPropsResponse(Props),
    ObjectReportRequest(),
    ObjectReport(ObjectReport),
    CombinedMarkersReport(CombinedMarkersReport),
    PocMarkersReport(PocMarkersReport),
    AccelReport(AccelReport),
    ImpactReport(ImpactReport),
    StreamUpdate(StreamUpdate),
    FlashSettings(),
    Ack(),
    WriteMode(Mode),
    ReadVersion(),
    ReadVersionResponse(Version),
    Vendor(u8, VendorData),
}

/// The packet type of a payload.
pub open spec fn data_type(d: PacketData) -> PacketType {
    match d {
        PacketData::WriteRegister(_) => PacketType::WriteRegister(),
        PacketData::ReadRegister(_) => PacketType::ReadRegister(),
        PacketData::ReadRegisterResponse(_) => PacketType::ReadRegisterResponse(),
        PacketData::WriteConfig(_) => PacketType::WriteConfig(),
        PacketData::ReadConfig() => PacketType::ReadConfig(),
        PacketData::ReadConfigResponse(_) => PacketType::ReadConfigResponse(),
        PacketData::ReadProps() => PacketType::ReadProps(),
        PacketData::ReadPropsResponse(_) => PacketType::ReadPropsResponse(),
        PacketData::ObjectReportRequest() => PacketType::ObjectReportRequest(),
        PacketData::ObjectReport(_) => PacketType::ObjectReport(),
        PacketData::CombinedMarkersReport(_) => PacketType::CombinedMarkersReport(),
        PacketData::PocMarkersReport(_) => PacketType::PocMarkersReport(),
        PacketData::AccelReport(_) => PacketType::AccelReport(),
        PacketData::ImpactReport(_) => PacketType::ImpactReport(),
        PacketData::StreamUpdate(_) => PacketType::StreamUpdate(),
        PacketData::FlashSettings() => PacketType::FlashSettings(),
        PacketData::Ack() => PacketType::Ack(),
        PacketData::WriteMode(_) => PacketType::WriteMode(),
        PacketData::ReadVersion() => PacketType::ReadVersion(),
        PacketData::ReadVersionResponse(_) => PacketType::ReadVersionResponse(),
        PacketData::Vendor(n, _) => PacketType::Vendor(n),
    }
}

/// The word count that a header declares for `n` payload bytes.
pub open spec fn word_count(n: int) -> u16 {
    ((n + 4) / 2) as u16
}

/// The four header bytes of a packet with `n` payload bytes.
pub open spec fn header_wire(id: u8, ty: PacketType, n: int) -> Seq<u8> {
    u16_wire(word_count(n)) + seq![type_byte(ty), id]
}

/// An end-of-input error is reported under the type of the packet in which
/// it was met; any other error is reported as it is.
pub open spec fn retagged(e: Error, ty: PacketType) -> Error {
    match e {
        Error::UnexpectedEof { .. } => eof(ty),
        other => other,
    }
}

/// The error with which the payload of a packet of type `ty` fails to parse,
/// if it fails. The three sentinel types have no payload layout: a packet
/// cannot carry them.
pub open spec fn payload_failure(ty: PacketType, payload: Seq<u8>) -> Option<Error> {
    match ty {
        PacketType::WriteRegister() => WriteRegister::parse_failure(payload),
        PacketType::ReadRegister() => Register::parse_failure(payload),
        PacketType::ReadRegisterResponse() => ReadRegisterResponse::parse_failure(payload),
        PacketType::WriteConfig() => GeneralConfig::parse_failure(payload),
        PacketType::ReadConfigResponse() => GeneralConfig::parse_failure(payload),
        PacketType::ReadPropsResponse() => Props::parse_failure(payload),
        PacketType::ObjectReport() => ObjectReport::parse_failure(payload),
        PacketType::CombinedMarkersReport() => CombinedMarkersReport::parse_failure(payload),
        PacketType::PocMarkersReport() => PocMarkersReport::parse_failure(payload),
        PacketType::AccelReport() => AccelReport::parse_failure(payload),
        PacketType::ImpactReport() => ImpactReport::parse_failure(payload),
        PacketType::StreamUpdate() => StreamUpdate::parse_failure(payload),
        PacketType::WriteMode() => Mode::parse_failure(payload),
        PacketType::ReadVersionResponse() => Version::parse_failure(payload),
        PacketType::Vendor(_) => VendorData::parse_failure(payload),
        PacketType::End() | PacketType::VendorStart() | PacketType::VendorEnd() => Some(
            Error::UnrecognizedPacketId(type_byte(ty)),
        ),
        _ => None,
    }
}

impl PacketData {
    /// The payload is one that the wire format can carry without loss.
    pub open spec fn valid(&self) -> bool {
        match *self {
            PacketData::ObjectReport(r) => r.valid(),
            PacketData::CombinedMarkersReport(r) => r.valid(),
            PacketData::PocMarkersReport(r) => r.valid(),
            PacketData::StreamUpdate(s) => s.valid(),
            PacketData::Vendor(n, v) => 0x80 < n < 0xff && v.valid(),
            _ => true,
        }
    }

    /// Whether `self` is the payload that `payload` holds.
    pub open spec fn is_parse_of(&self, payload: Seq<u8>) -> bool {
        match *self {
            PacketData::WriteRegister(v) => v.is_parse_of(payload),
            PacketData::ReadRegister(v) => v.is_parse_of(payload),
            PacketData::ReadRegisterResponse(v) => v.is_parse_of(payload),
            PacketData::WriteConfig(v) => v.is_parse_of(payload),
            PacketData::ReadConfigResponse(v) => v.is_parse_of(payload),
            PacketData::ReadPropsResponse(v) => v.is_parse_of(payload),
            PacketData::ObjectReport(v) => v.is_parse_of(payload),
            PacketData::CombinedMarkersReport(v) => v.is_parse_of(payload),
            PacketData::PocMarkersReport(v) => v.is_parse_of(payload),
            PacketData::AccelReport(v) => v.is_parse_of(payload),
            PacketData::ImpactReport(v) => v.is_parse_of(payload),
            PacketData::StreamUpdate(v) => v.is_parse_of(payload),
            PacketData::WriteMode(v) => v.is_parse_of(payload),
            PacketData::ReadVersionResponse(v) => v.is_parse_of(payload),
            PacketData::Vendor(_, v) => v.is_parse_of(payload),
            _ => true,
        }
    }

    pub fn read_register_response(self) -> (r: Option<ReadRegisterResponse>)
        ensures
            r == match self {
                PacketData::ReadRegisterResponse(x) => Some(x),
                _ => None,
            },
    {
        match self {
            PacketData::ReadRegisterResponse(x) => Some(x),
            _ => None,
        }
    }

    pub fn read_config_response(self) -> (r: Option<GeneralConfig>)
        ensures
            r == match self {
                PacketData::ReadConfigResponse(x) => Some(x),
                _ => None,
            },
    {
        match self {
            PacketData::ReadConfigResponse(x) => Some(x),
            _ => None,
        }
    }

    pub fn read_props_response(self) -> (r: Option<Props>)
        ensures
            r == match self {
                PacketData::ReadPropsResponse(x) => Some(x),
                _ => None,
            },
    {
        match self {
            PacketData::ReadPropsResponse(x) => Some(x),
            _ => None,
        }
    }

    pub fn object_report(self) -> (r: Option<ObjectReport>)
        ensures
            r == match self {
                PacketData::ObjectReport(x) => Some(x),
                _ => None,
            },
    {
        match self {
            PacketData::ObjectReport(x) => Some(x),
            _ => None,
        }
    }

    pub fn combined_markers_report(self) -> (r: Option<CombinedMarkersReport>)
        ensures
            r == match self {
                PacketData::CombinedMarkersReport(x) => Some(x),
                _ => None,
            },
    {
        match self {
            PacketData::CombinedMarkersReport(x) => Some(x),
            _ => None,
        }
    }

    pub fn poc_markers_report(self) -> (r: Option<PocMarkersReport>)
        ensures
            r == match self {
                PacketData::PocMarkersReport(x) => Some(x),
                _ => None,
            },
    {
        match self {
            PacketData::PocMarkersReport(x) => Some(x),
            _ => None,
        }
    }

    pub fn accel_report(self) -> (r: Option<AccelReport>)
        ensures
            r == match self {
                PacketData::AccelReport(x) => Some(x),
                _ => None,
            },
    {
        match self {
            PacketData::AccelReport(x) => Some(x),
            _ => None,
        }
    }

    pub fn impact_report(self) -> (r: Option<ImpactReport>)
        ensures
            r == match self {
                PacketData::ImpactReport(x) => Some(x),
                _ => None,
            },
    {
        match self {
            PacketData::ImpactReport(x) => Some(x),
            _ => None,
        }
    }
}

impl Serialize for PacketData {
    open spec fn wire(&self) -> Seq<u8> {
        match *self {
            PacketData::WriteRegister(v) => v.wire(),
            PacketData::ReadRegister(v) => v.wire(),
            PacketData::ReadRegisterResponse(v) => v.wire(),
            PacketData::WriteConfig(v) => v.wire(),
            PacketData::ReadConfigResponse(v) => v.wire(),
            PacketData::ReadPropsResponse(v) => v.wire(),
            PacketData::ObjectReport(v) => v.wire(),
            PacketData::CombinedMarkersReport(v) => v.wire(),
            PacketData::PocMarkersReport(v) => v.wire(),
            PacketData::AccelReport(v) => v.wire(),
            PacketData::ImpactReport(v) => v.wire(),
            PacketData::StreamUpdate(v) => v.wire(),
            PacketData::WriteMode(v) => v.wire(),
            PacketData::ReadVersionResponse(v) => v.wire(),
            PacketData::Vendor(_, v) => v.wire(),
            _ => Seq::empty(),
        }
    }

    fn serialize(&self, buf: &mut Vec<u8>) {
        match self {
            PacketData::WriteRegister(v) => v.serialize(buf),
            PacketData::ReadRegister(v) => v.serialize(buf),
            PacketData::ReadRegisterResponse(v) => v.serialize(buf),
            PacketData::WriteConfig(v) => v.serialize(buf),
            PacketData::ReadConfigResponse(v) => v.serialize(buf),
            PacketData::ReadPropsResponse(v) => v.serialize(buf),
            PacketData::ObjectReport(v) => v.serialize(buf),
            PacketData::CombinedMarkersReport(v) => v.serialize(buf),
            PacketData::PocMarkersReport(v) => v.serialize(buf),
            PacketData::AccelReport(v) => v.serialize(buf),
            PacketData::ImpactReport(v) => v.serialize(buf),
            PacketData::StreamUpdate(v) => v.serialize(buf),
            PacketData::WriteMode(v) => v.serialize(buf),
            PacketData::ReadVersionResponse(v) => v.serialize(buf),
            PacketData::Vendor(_, v) => v.serialize(buf),
            _ => {
                assert(buf@ =~= old(buf)@ + self.wire());
            },
        }
    }
}

/// Every payload is an even number of bytes, at most 518 of them.
pub proof fn lemma_payload_len(d: PacketData)
    ensures
        d.wire().len() % 2 == 0,
        d.wire().len() <= 518,
{
    match d {
        PacketData::WriteRegister(v) => {
            assert(v.wire().len() == 4);
        },
        PacketData::ReadRegister(v) => {
            assert(v.wire().len() == 4);
        },
        PacketData::ReadRegisterResponse(v) => {
            assert(v.wire().len() == 4);
        },
        PacketData::WriteConfig(c) => {
            lemma_config_round_trip(c, Seq::empty());
        },
        PacketData::ReadConfigResponse(c) => {
            lemma_config_round_trip(c, Seq::empty());
        },
        PacketData::ReadPropsResponse(p) => {
            match p {
                Props::Uuid(id) => {
                    assert(p.wire().len() == 8);
                },
                Props::ProductId(n) => {
                    assert(p.wire().len() == 4);
                },
            }
        },
        PacketData::ObjectReport(r) => {
            assert(mots_wire(r.mot_data_nf@).len() == 256);
            assert(mots_wire(r.mot_data_wf@).len() == 256);
            assert(r.wire().len() == 518);
        },
        PacketData::CombinedMarkersReport(r) => {
            assert(points_wire(r.nf_points@).len() == 48);
            assert(points_wire(r.wf_points@).len() == 48);
        },
        PacketData::PocMarkersReport(r) => {
            assert(points_wire(r.points@).len() == 48);
        },
        PacketData::AccelReport(r) => {
            crate::payload::lemma_accel_report_round_trip(r);
        },
        PacketData::ImpactReport(r) => {
            assert(r.wire().len() == 4);
        },
        PacketData::StreamUpdate(v) => {
            assert(v.wire().len() == 2);
        },
        PacketData::WriteMode(v) => {
            assert(v.wire().len() == 2);
        },
        PacketData::ReadVersionResponse(v) => {
            crate::payload::lemma_version_round_trip(v);
        },
        PacketData::Vendor(_, v) => {
            let n = v.sent_len();
            assert(v.data@.take(n).len() == n);
            assert(v.wire().len() == 1 + n + vendor_pad(n).len());
        },
        _ => {
            assert(d.wire().len() == 0);
        },
    }
}

/// Replaces the packet type under which an end-of-input error is reported.
pub fn retag(e: Error, ty: PacketType) -> (r: Error)
    ensures
        r == retagged(e, ty),
{
    match e {
        Error::UnexpectedEof { .. } => Error::UnexpectedEof { packet_type: Some(ty) },
        other => other,
    }
}

/// Parses a whole payload as a `T`, for a packet of type `ty`.
fn parse_payload<T: Parse>(payload: &[u8], ty: PacketType) -> (r: Result<T, Error>)
    ensures
        match r {
            Ok(v) => T::parse_failure(payload@) is None && v.is_parse_of(payload@),
            Err(e) => T::parse_failure(payload@) matches Some(f) && e == retagged(f, ty),
        },
{
    let mut rest = payload;
    match T::parse(&mut rest) {
        Ok(v) => Ok(v),
        Err(e) => Err(retag(e, ty)),
    }
}

impl Packet {
    /// The packet is one that the wire format can carry without loss.
    pub open spec fn valid(&self) -> bool {
        self.data.valid()
    }

    /// The type of this packet.
    pub fn ty(&self) -> (r: PacketType)
        ensures
            r == data_type(self.data),
    {
        match self.data {
            PacketData::WriteRegister(_) => PacketType::WriteRegister(),
            PacketData::ReadRegister(_) => PacketType::ReadRegister(),
            PacketData::ReadRegisterResponse(_) => PacketType::ReadRegisterResponse(),
            PacketData::WriteConfig(_) => PacketType::WriteConfig(),
            PacketData::ReadConfig() => PacketType::ReadConfig(),
            PacketData::ReadConfigResponse(_) => PacketType::ReadConfigResponse(),
            PacketData::ReadProps() => PacketType::ReadProps(),
            PacketData::ReadPropsResponse(_) => PacketType::ReadPropsResponse(),
            PacketData::ObjectReportRequest() => PacketType::ObjectReportRequest(),
            PacketData::ObjectReport(_) => PacketType::ObjectReport(),
            PacketData::CombinedMarkersReport(_) => PacketType::CombinedMarkersReport(),
            PacketData::PocMarkersReport(_) => PacketType::PocMarkersReport(),
            PacketData::AccelReport(_) => PacketType::AccelReport(),
            PacketData::ImpactReport(_) => PacketType::ImpactReport(),
            PacketData::StreamUpdate(_) => PacketType::StreamUpdate(),
            PacketData::FlashSettings() => PacketType::FlashSettings(),
            PacketData::Ack() => PacketType::Ack(),
            PacketData::WriteMode(_) => PacketType::WriteMode(),
            PacketData::ReadVersion() => PacketType::ReadVersion(),
            PacketData::ReadVersionResponse(_) => PacketType::ReadVersionResponse(),
            PacketData::Vendor(n, _) => PacketType::Vendor(n),
        }
    }

    /// Appends a whole packet made of its parts: the header for `id`, `ty`
    /// and the size of `data`, then the bytes of `data`. Returns the number
    /// of bytes appended.
    pub fn serialize_parts<D: Serialize>(id: u8, ty: PacketType, data: &D, buf: &mut Vec<u8>) -> (n:
        usize)
        requires
            data.wire().len() <= MAX_PAYLOAD,
        ensures
            final(buf)@ == old(buf)@ + header_wire(id, ty, data.wire().len() as int)
                + data.wire(),
            n == HEADER_SIZE + data.wire().len(),
    {
        let mut body: Vec<u8> = Vec::new();
        data.serialize(&mut body);
        assert(body@ =~= data.wire());
        let len = body.len();
        let words = ((len + 4) / 2) as u16;
        push_u16(buf, words);
        buf.push(ty.into_byte());
        buf.push(id);
        push_bytes(buf, body.as_slice());
        assert(buf@ =~= old(buf)@ + header_wire(id, ty, data.wire().len() as int) + data.wire());
        len + 4
    }
}

impl Serialize for Packet {
    open spec fn wire(&self) -> Seq<u8> {
        header_wire(self.id, data_type(self.data), self.data.wire().len() as int)
            + self.data.wire()
    }

    fn serialize(&self, buf: &mut Vec<u8>) {
        proof {
            lemma_payload_len(self.data);
        }
        let ty = self.ty();
        let _ = Packet::serialize_parts(self.id, ty, &self.data, buf);
    }
}

impl Parse for Packet {
    open spec fn parse_failure(bytes: Seq<u8>) -> Option<Error> {
        if bytes.len() < HEADER_SIZE {
            Some(Error::UnexpectedEof { packet_type: None })
        } else {
            match packet_type_of(bytes[2]) {
                None => Some(Error::UnrecognizedPacketId(bytes[2])),
                Some(ty) => {
                    let total = Self::parse_len(bytes);
                    if total < HEADER_SIZE || bytes.len() < total {
                        Some(eof(ty))
                    } else {
                        match payload_failure(ty, bytes.subrange(HEADER_SIZE as int, total)) {
                            Some(e) => Some(retagged(e, ty)),
                            None => None,
                        }
                    }
                },
            }
        }
    }

    open spec fn parse_len(bytes: Seq<u8>) -> int {
        2 * u16_at(bytes, 0)
    }

    open spec fn is_parse_of(&self, bytes: Seq<u8>) -> bool {
        &&& self.id == bytes[3]
        &&& packet_type_of(bytes[2]) == Some(data_type(self.data))
        &&& self.data.is_parse_of(bytes.subrange(HEADER_SIZE as int, Self::parse_len(bytes)))
    }

    fn parse(bytes: &mut &[u8]) -> (r: Result<Self, Error>) {
        if bytes.len() < HEADER_SIZE {
            return Err(Error::UnexpectedEof { packet_type: None });
        }
        let b = *bytes;
        let words = read_u16(b, 0);
        let id = b[3];
        let ty = match PacketType::try_from(b[2]) {
            Ok(ty) => ty,
            Err(e) => {
                return Err(e);
            },
        };
        let total = (words as usize) * 2;
        if total < HEADER_SIZE || b.len() < total {
            return Err(Error::UnexpectedEof { packet_type: Some(ty) });
        }
        let payload = vstd::slice::slice_subrange(b, HEADER_SIZE, total);
        let data = match ty {
            PacketType::WriteRegister() => match parse_payload::<WriteRegister>(payload, ty) {
                Ok(v) => PacketData::WriteRegister(v),
                Err(e) => {
                    return Err(e);
                },
            },
            PacketType::ReadRegister() => match parse_payload::<Register>(payload, ty) {
                Ok(v) => PacketData::ReadRegister(v),
                Err(e) => {
                    return Err(e);
                },
            },
            PacketType::ReadRegisterResponse() => match parse_payload::<ReadRegisterResponse>(
                payload,
                ty,
            ) {
                Ok(v) => PacketData::ReadRegisterResponse(v),
                Err(e) => {
                    return Err(e);
                },
            },
            PacketType::WriteConfig() => match parse_payload::<GeneralConfig>(payload, ty) {
                Ok(v) => PacketData::WriteConfig(v),
                Err(e) => {
                    return Err(e);
                },
            },
            PacketType::ReadConfig() => PacketData::ReadConfig(),
            PacketType::ReadConfigResponse() => match parse_payload::<GeneralConfig>(payload, ty) {
                Ok(v) => PacketData::ReadConfigResponse(v),
                Err(e) => {
                    return Err(e);
                },
            },
            PacketType::ReadProps() => PacketData::ReadProps(),
            PacketType::ReadPropsResponse() => match parse_payload::<Props>(payload, ty) {
                Ok(v) => PacketData::ReadPropsResponse(v),
                Err(e) => {
                    return Err(e);
                },
            },
            PacketType::ObjectReportRequest() => PacketData::ObjectReportRequest(),
            PacketType::ObjectReport() => match parse_payload::<ObjectReport>(payload, ty) {
                Ok(v) => PacketData::ObjectReport(v),
                Err(e) => {
                    return Err(e);
                },
            },
            PacketType::CombinedMarkersReport() => match parse_payload::<CombinedMarkersReport>(
                payload,
                ty,
            ) {
                Ok(v) => PacketData::CombinedMarkersReport(v),
                Err(e) => {
                    return Err(e);
                },
            },
            PacketType::AccelReport() => match parse_payload::<AccelReport>(payload, ty) {
                Ok(v) => PacketData::AccelReport(v),
                Err(e) => {
                    return Err(e);
                },
            },
            PacketType::ImpactReport() => match parse_payload::<ImpactReport>(payload, ty) {
                Ok(v) => PacketData::ImpactReport(v),
                Err(e) => {
                    return Err(e);
                },
            },
            PacketType::StreamUpdate() => {
                let mut rest = payload;
                match StreamUpdate::parse(&mut rest) {
                    Ok(v) => PacketData::StreamUpdate(v),
                    Err(e) => {
                        return Err(retag(e, ty));
                    },
                }
            },
            PacketType::FlashSettings() => PacketData::FlashSettings(),
            PacketType::Ack() => PacketData::Ack(),
            PacketType::PocMarkersReport() => match parse_payload::<PocMarkersReport>(
                payload,
                ty,
            ) {
                Ok(v) => PacketData::PocMarkersReport(v),
                Err(e) => {
                    return Err(e);
                },
            },
            PacketType::WriteMode() => match parse_payload::<Mode>(payload, ty) {
                Ok(v) => PacketData::WriteMode(v),
                Err(e) => {
                    return Err(e);
                },
            },
            PacketType::ReadVersion() => PacketData::ReadVersion(),
            PacketType::ReadVersionResponse() => match parse_payload::<Version>(payload, ty) {
                Ok(v) => PacketData::ReadVersionResponse(v),
                Err(e) => {
                    return Err(e);
                },
            },
            PacketType::Vendor(n) => match parse_payload::<VendorData>(payload, ty) {
                Ok(v) => PacketData::Vendor(n, v),
                Err(e) => {
                    return Err(e);
                },
            },
            PacketType::End() | PacketType::VendorStart() | PacketType::VendorEnd() => {
                return Err(Error::UnrecognizedPacketId(b[2]));
            },
        };
        proof {
            lemma_byte_names_one_type(b@[2]);
        }
        advance(bytes, total);
        Ok(Packet { data, id })
    }
}

/// A well-formed payload is read back exactly from its wire bytes.
pub proof fn lemma_payload_round_trip(d: PacketData)
    requires
        d.valid(),
    ensures
        payload_failure(data_type(d), d.wire()) is None,
        d.is_parse_of(d.wire()),
{
    let none = Seq::<u8>::empty();
    assert(d.wire() + none =~= d.wire());
    match d {
        PacketData::WriteConfig(c) => {
            lemma_config_round_trip(c, none);
        },
        PacketData::ReadConfigResponse(c) => {
            lemma_config_round_trip(c, none);
        },
        PacketData::ReadPropsResponse(p) => {
            match p {
                Props::Uuid(id) => {
                    assert(p.wire().subrange(2, 8) =~= id@);
                },
                Props::ProductId(n) => {
                    lemma_u16_round_trip(n);
                },
            }
        },
        PacketData::ObjectReport(r) => {
            lemma_object_report_round_trip(r, none);
        },
        PacketData::CombinedMarkersReport(r) => {
            lemma_combined_markers_round_trip(r, none);
        },
        PacketData::PocMarkersReport(r) => {
            lemma_poc_markers_round_trip(r, none);
        },
        PacketData::AccelReport(r) => {
            crate::payload::lemma_accel_report_round_trip(r);
        },
        PacketData::ImpactReport(r) => {
            crate::codec::lemma_u32_round_trip(r.timestamp);
        },
        PacketData::StreamUpdate(s) => {
            lemma_byte_names_one_type(type_byte(s.packet_id));
        },
        PacketData::ReadVersionResponse(v) => {
            crate::payload::lemma_version_round_trip(v);
        },
        PacketData::Vendor(_, v) => {
            lemma_vendor_round_trip(v, none);
        },
        _ => {},
    }
}

/// Parsing inverts serialization: the bytes of a well-formed packet, whatever
/// follows them, parse without error to that packet, and the parse takes
/// exactly the bytes of the packet.
pub proof fn lemma_parse_inverts_serialize(p: Packet, rest: Seq<u8>)
    requires
        p.valid(),
    ensures
        Packet::parse_failure(p.wire() + rest) is None,
        Packet::parse_len(p.wire() + rest) == p.wire().len(),
        p.is_parse_of(p.wire() + rest),
{
    let bytes = p.wire() + rest;
    let ty = data_type(p.data);
    let n = p.data.wire().len() as int;
    lemma_payload_len(p.data);
    lemma_payload_round_trip(p.data);
    lemma_byte_names_one_type(type_byte(ty));
    let words = word_count(n);
    lemma_u16_round_trip(words);
    assert(bytes[0] == u16_wire(words)[0] && bytes[1] == u16_wire(words)[1]);
    assert(bytes[2] == type_byte(ty) && bytes[3] == p.id);
    assert(2 * words == n + 4);
    assert(bytes.subrange(HEADER_SIZE as int, n + 4) =~= p.data.wire());
}

/// At most one payload is the parse of given bytes under a given type.
pub proof fn lemma_payload_parse_is_unique(a: PacketData, b: PacketData, payload: Seq<u8>)
    requires
        data_type(a) == data_type(b),
        a.is_parse_of(payload),
        b.is_parse_of(payload),
    ensures
        a == b,
{
    match (a, b) {
        (PacketData::WriteRegister(x), PacketData::WriteRegister(y)) => {
            assert(x.port == y.port);
        },
        (PacketData::ReadRegister(x), PacketData::ReadRegister(y)) => {
            assert(x.port == y.port);
        },
        (PacketData::WriteConfig(x), PacketData::WriteConfig(y)) => {
            lemma_config_parse_is_unique(x, y, payload);
        },
        (PacketData::ReadConfigResponse(x), PacketData::ReadConfigResponse(y)) => {
            lemma_config_parse_is_unique(x, y, payload);
        },
        (PacketData::ReadPropsResponse(x), PacketData::ReadPropsResponse(y)) => {
            match (x, y) {
                (Props::Uuid(i), Props::Uuid(j)) => {
                    assert(i =~= j);
                },
                _ => {},
            }
        },
        (PacketData::ObjectReport(x), PacketData::ObjectReport(y)) => {
            assert(x.mot_data_nf =~= y.mot_data_nf);
            assert(x.mot_data_wf =~= y.mot_data_wf);
        },
        (PacketData::CombinedMarkersReport(x), PacketData::CombinedMarkersReport(y)) => {
            assert(x.nf_points =~= y.nf_points);
            assert(x.wf_points =~= y.wf_points);
        },
        (PacketData::PocMarkersReport(x), PacketData::PocMarkersReport(y)) => {
            assert(x.points =~= y.points);
        },
        (PacketData::AccelReport(x), PacketData::AccelReport(y)) => {
            assert(x.accel =~= y.accel);
            assert(x.gyro =~= y.gyro);
        },
        (PacketData::StreamUpdate(x), PacketData::StreamUpdate(y)) => {
            assert(x.action == y.action);
        },
        (PacketData::WriteMode(x), PacketData::WriteMode(y)) => {},
        (PacketData::ReadVersionResponse(x), PacketData::ReadVersionResponse(y)) => {
            assert(x.protocol_semver =~= y.protocol_semver);
            assert(x.firmware_semver =~= y.firmware_semver);
        },
        (PacketData::Vendor(_, x), PacketData::Vendor(_, y)) => {
            assert(x.data =~= y.data);
        },
        _ => {},
    }
}

/// At most one configuration record is the parse of given bytes.
proof fn lemma_config_parse_is_unique(a: GeneralConfig, b: GeneralConfig, payload: Seq<u8>)
    requires
        a.is_parse_of(payload),
        b.is_parse_of(payload),
    ensures
        a == b,
{
    match (a, b) {
        (GeneralConfig::CameraModelNf(x), GeneralConfig::CameraModelNf(y)) => {
            assert(x.camera_matrix =~= y.camera_matrix);
            assert(x.dist_coeffs =~= y.dist_coeffs);
        },
        (GeneralConfig::CameraModelWf(x), GeneralConfig::CameraModelWf(y)) => {
            assert(x.camera_matrix =~= y.camera_matrix);
            assert(x.dist_coeffs =~= y.dist_coeffs);
        },
        (GeneralConfig::StereoIso(x), GeneralConfig::StereoIso(y)) => {
            assert(x.r =~= y.r);
            assert(x.t =~= y.t);
        },
        _ => {},
    }
}

/// At most one packet is the parse of given bytes: what `parse` returns on
/// success is decided by the bytes alone.
pub proof fn lemma_parse_is_unique(a: Packet, b: Packet, bytes: Seq<u8>)
    requires
        a.is_parse_of(bytes),
        b.is_parse_of(bytes),
    ensures
        a == b,
{
    lemma_payload_parse_is_unique(
        a.data,
        b.data,
        bytes.subrange(HEADER_SIZE as int, Packet::parse_len(bytes)),
    );
}

/// Parsing the bytes of a well-formed packet gives that packet and no other.
pub proof fn lemma_round_trip_is_exact(p: Packet, q: Packet, rest: Seq<u8>)
    requires
        p.valid(),
        q.is_parse_of(p.wire() + rest),
    ensures
        q == p,
{
    lemma_parse_inverts_serialize(p, rest);
    lemma_parse_is_unique(p, q, p.wire() + rest);
}

} // verus!
