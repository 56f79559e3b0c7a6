//! The packet-type registry, the small closed enumerations of the protocol
//! and the parse errors.

use vstd::prelude::*;

verus! {

/// The kind of a packet, as carried in the third header byte.
#[derive(Clone, Copy, Debug, PartialEq, Eq)]
pub enum PacketType {
    WriteRegister(),
    ReadRegister(),
    ReadRegisterResponse(),
    WriteConfig(),
    ReadConfig(),
    ReadConfigResponse(),
    ReadProps(),
    ReadPropsResponse(),
    ObjectReportRequest(),
    ObjectReport(),
    CombinedMarkersReport(),
    AccelReport(),
    ImpactReport(),
    StreamUpdate(),
    FlashSettings(),
    Ack(),
    PocMarkersReport(),
    WriteMode(),
    ReadVersion(),
    ReadVersionResponse(),
    /// Reserved sentinel that closes the fixed catalog.
    End(),
    /// First byte of the vendor range.
    VendorStart(),
    /// A vendor extension, with its own type byte.
    Vendor(u8),
    /// Reserved sentinel that closes the vendor range.
    VendorEnd(),
}

/// Why a frame could not be parsed.
#[derive(Clone, Copy, Debug, PartialEq, Eq)]
pub enum Error {
    /// The input ended before the packet did.
    UnexpectedEof { packet_type: Option<PacketType> },
    /// The type byte is in neither the catalog nor the vendor range.
    UnrecognizedPacketId(u8),
    UnrecognizedPort,
    UnrecognizedStreamUpdateAction(u8),
    InvalidBitPattern,
}

/// Which of the two sensors a register access addresses.
#[derive(Clone, Copy, Debug, PartialEq, Eq, Structural)]
pub enum Port {
    Nf,
    Wf,
}

/// What a stream update asks for.
#[derive(Clone, Copy, Debug, PartialEq, Eq, Structural)]
pub enum StreamUpdateAction {
    Enable,
    Disable,
    DisableAll,
}

/// Operating mode of the sensor.
#[derive(Clone, Copy, Debug, PartialEq, Eq, Structural)]
pub enum Mode {
    Object,
    Image,
}

/// The type byte of `ty`.
pub open spec fn type_byte(ty: PacketType) -> u8 {
    match ty {
        PacketType::WriteRegister() => 0x00,
        PacketType::ReadRegister() => 0x01,
        PacketType::ReadRegisterResponse() => 0x02,
        PacketType::WriteConfig() => 0x03,
        PacketType::ReadConfig() => 0x04,
        PacketType::ReadConfigResponse() => 0x05,
        PacketType::ReadProps() => 0x06,
        PacketType::ReadPropsResponse() => 0x07,
        PacketType::ObjectReportRequest() => 0x08,
        PacketType::ObjectReport() => 0x09,
        PacketType::CombinedMarkersReport() => 0x0a,
        PacketType::AccelReport() => 0x0b,
        PacketType::ImpactReport() => 0x0c,
        PacketType::StreamUpdate() => 0x0d,
        PacketType::FlashSettings() => 0x0e,
        PacketType::Ack() => 0x0f,
        PacketType::PocMarkersReport() => 0x10,
        PacketType::WriteMode() => 0x11,
        PacketType::ReadVersion() => 0x12,
        PacketType::ReadVersionResponse() => 0x13,
        PacketType::End() => 0x14,
        PacketType::VendorStart() => 0x80,
        PacketType::VendorEnd() => 0xff,
        PacketType::Vendor(n) => n,
    }
}

/// The packet type that the byte `n` stands for, if any.
pub open spec fn packet_type_of(n: u8) -> Option<PacketType> {
    if n == 0x00 {
        Some(PacketType::WriteRegister())
    } else if n == 0x01 {
        Some(PacketType::ReadRegister())
    } else if n == 0x02 {
        Some(PacketType::ReadRegisterResponse())
    } else if n == 0x03 {
        Some(PacketType::WriteConfig())
    } else if n == 0x04 {
        Some(PacketType::ReadConfig())
    } else if n == 0x05 {
        Some(PacketType::ReadConfigResponse())
    } else if n == 0x06 {
        Some(PacketType::ReadProps())
    } else if n == 0x07 {
        Some(PacketType::ReadPropsResponse())
    } else if n == 0x08 {
        Some(PacketType::ObjectReportRequest())
    } else if n == 0x09 {
        Some(PacketType::ObjectReport())
    } else if n == 0x0a {
        Some(PacketType::CombinedMarkersReport())
    } else if n == 0x0b {
        Some(PacketType::AccelReport())
    } else if n == 0x0c {
        Some(PacketType::ImpactReport())
    } else if n == 0x0d {
        Some(PacketType::StreamUpdate())
    } else if n == 0x0e {
        Some(PacketType::FlashSettings())
    } else if n == 0x0f {
        Some(PacketType::Ack())
    } else if n == 0x10 {
        Some(PacketType::PocMarkersReport())
    } else if n == 0x11 {
        Some(PacketType::WriteMode())
    } else if n == 0x12 {
        Some(PacketType::ReadVersion())
    } else if n == 0x13 {
        Some(PacketType::ReadVersionResponse())
    } else if n == 0x14 {
        Some(PacketType::End())
    } else if n == 0x80 {
        Some(PacketType::VendorStart())
    } else if n == 0xff {
        Some(PacketType::VendorEnd())
    } else if 0x80 < n {
        Some(PacketType::Vendor(n))
    } else {
        None
    }
}

/// What the type byte `n` converts to: its packet type, or the error that
/// names the byte.
pub open spec fn packet_type_parsed(n: u8) -> Result<PacketType, Error> {
    match packet_type_of(n) {
        Some(ty) => Ok(ty),
        None => Err(Error::UnrecognizedPacketId(n)),
    }
}

impl TryFrom<u8> for PacketType {
    type Error = Error;

    /// The type that the byte `n` stands for.
    fn try_from(n: u8) -> (r: Result<Self, Error>)
    {
        match n {
            0x00 => Ok(PacketType::WriteRegister()),
            0x01 => Ok(PacketType::ReadRegister()),
            0x02 => Ok(PacketType::ReadRegisterResponse()),
            0x03 => Ok(PacketType::WriteConfig()),
            0x04 => Ok(PacketType::ReadConfig()),
            0x05 => Ok(PacketType::ReadConfigResponse()),
            0x06 => Ok(PacketType::ReadProps()),
            0x07 => Ok(PacketType::ReadPropsResponse()),
            0x08 => Ok(PacketType::ObjectReportRequest()),
            0x09 => Ok(PacketType::ObjectReport()),
            0x0a => Ok(PacketType::CombinedMarkersReport()),
            0x0b => Ok(PacketType::AccelReport()),
            0x0c => Ok(PacketType::ImpactReport()),
            0x0d => Ok(PacketType::StreamUpdate()),
            0x0e => Ok(PacketType::FlashSettings()),
            0x0f => Ok(PacketType::Ack()),
            0x10 => Ok(PacketType::PocMarkersReport()),
            0x11 => Ok(PacketType::WriteMode()),
            0x12 => Ok(PacketType::ReadVersion()),
            0x13 => Ok(PacketType::ReadVersionResponse()),
            0x14 => Ok(PacketType::End()),
            0x80 => Ok(PacketType::VendorStart()),
            0xff => Ok(PacketType::VendorEnd()),
            _ => if 0x80 < n {
                Ok(PacketType::Vendor(n))
            } else {
                Err(Error::UnrecognizedPacketId(n))
            },
        }
    }
}

impl vstd::std_specs::convert::TryFromSpecImpl<u8> for PacketType {
    open spec fn obeys_try_from_spec() -> bool {
        true
    }

    open spec fn try_from_spec(n: u8) -> Result<Self, Error> {
        packet_type_parsed(n)
    }
}

impl From<PacketType> for u8 {
    fn from(ty: PacketType) -> (r: u8) {
        ty.into_byte()
    }
}

impl vstd::std_specs::convert::FromSpecImpl<PacketType> for u8 {
    open spec fn obeys_from_spec() -> bool {
        true
    }

    open spec fn from_spec(ty: PacketType) -> u8 {
        type_byte(ty)
    }
}

impl PacketType {
    /// A vendor type carries a byte strictly inside the vendor range; every
    /// other type is always well formed.
    pub open spec fn valid(self) -> bool {
        self matches PacketType::Vendor(n) ==> 0x80 < n < 0xff
    }

    /// The type byte of this packet type.
    pub fn into_byte(self) -> (r: u8)
        ensures
            r == type_byte(self),
    {
        match self {
            PacketType::WriteRegister() => 0x00,
            PacketType::ReadRegister() => 0x01,
            PacketType::ReadRegisterResponse() => 0x02,
            PacketType::WriteConfig() => 0x03,
            PacketType::ReadConfig() => 0x04,
            PacketType::ReadConfigResponse() => 0x05,
            PacketType::ReadProps() => 0x06,
            PacketType::ReadPropsResponse() => 0x07,
            PacketType::ObjectReportRequest() => 0x08,
            PacketType::ObjectReport() => 0x09,
            PacketType::CombinedMarkersReport() => 0x0a,
            PacketType::AccelReport() => 0x0b,
            PacketType::ImpactReport() => 0x0c,
            PacketType::StreamUpdate() => 0x0d,
            PacketType::FlashSettings() => 0x0e,
            PacketType::Ack() => 0x0f,
            PacketType::PocMarkersReport() => 0x10,
            PacketType::WriteMode() => 0x11,
            PacketType::ReadVersion() => 0x12,
            PacketType::ReadVersionResponse() => 0x13,
            PacketType::End() => 0x14,
            PacketType::VendorStart() => 0x80,
            PacketType::VendorEnd() => 0xff,
            PacketType::Vendor(n) => n,
        }
    }
}

/// The byte of a port.
pub open spec fn port_byte(p: Port) -> u8 {
    match p {
        Port::Nf => 0,
        Port::Wf => 1,
    }
}

/// The byte of a stream update action.
pub open spec fn action_byte(a: StreamUpdateAction) -> u8 {
    match a {
        StreamUpdateAction::Enable => 0,
        StreamUpdateAction::Disable => 1,
        StreamUpdateAction::DisableAll => 2,
    }
}

/// The byte of a mode.
pub open spec fn mode_byte(m: Mode) -> u8 {
    match m {
        Mode::Object => 0,
        Mode::Image => 1,
    }
}

/// What the byte `n` converts to as a port.
pub open spec fn port_parsed(n: u8) -> Result<Port, Error> {
    if n == 0 {
        Ok(Port::Nf)
    } else if n == 1 {
        Ok(Port::Wf)
    } else {
        Err(Error::UnrecognizedPort)
    }
}

impl Port {
    /// The port that the byte `n` stands for.
    pub fn try_from(n: u8) -> (r: Result<Port, Error>)
        ensures
            r == port_parsed(n),
    {
        match n {
            0 => Ok(Port::Nf),
            1 => Ok(Port::Wf),
            _ => Err(Error::UnrecognizedPort),
        }
    }

    /// The byte of this port.
    pub fn into_byte(self) -> (r: u8)
        ensures
            r == port_byte(self),
    {
        match self {
            Port::Nf => 0,
            Port::Wf => 1,
        }
    }
}

/// What the byte `n` converts to as a stream update action.
pub open spec fn action_parsed(n: u8) -> Result<StreamUpdateAction, Error> {
    if n == 0 {
        Ok(StreamUpdateAction::Enable)
    } else if n == 1 {
        Ok(StreamUpdateAction::Disable)
    } else if n == 2 {
        Ok(StreamUpdateAction::DisableAll)
    } else {
        Err(Error::UnrecognizedStreamUpdateAction(n))
    }
}

impl TryFrom<u8> for StreamUpdateAction {
    type Error = Error;

    /// The action that the byte `n` stands for.
    fn try_from(n: u8) -> (r: Result<Self, Error>) {
        match n {
            0 => Ok(StreamUpdateAction::Enable),
            1 => Ok(StreamUpdateAction::Disable),
            2 => Ok(StreamUpdateAction::DisableAll),
            _ => Err(Error::UnrecognizedStreamUpdateAction(n)),
        }
    }
}

impl vstd::std_specs::convert::TryFromSpecImpl<u8> for StreamUpdateAction {
    open spec fn obeys_try_from_spec() -> bool {
        true
    }

    open spec fn try_from_spec(n: u8) -> Result<Self, Error> {
        action_parsed(n)
    }
}

impl StreamUpdateAction {
    /// The byte of this action.
    pub fn into_byte(self) -> (r: u8)
        ensures
            r == action_byte(self),
    {
        match self {
            StreamUpdateAction::Enable => 0,
            StreamUpdateAction::Disable => 1,
            StreamUpdateAction::DisableAll => 2,
        }
    }
}

/// What the byte `n` converts to as a mode; a byte that names none is an
/// invalid bit pattern.
pub open spec fn mode_parsed(n: u8) -> Result<Mode, Error> {
    if n == 0 {
        Ok(Mode::Object)
    } else if n == 1 {
        Ok(Mode::Image)
    } else {
        Err(Error::InvalidBitPattern)
    }
}

impl Mode {
    /// The mode that the byte `n` stands for.
    pub fn try_from(n: u8) -> (r: Result<Mode, Error>)
        ensures
            r == mode_parsed(n),
    {
        match n {
            0 => Ok(Mode::Object),
            1 => Ok(Mode::Image),
            _ => Err(Error::InvalidBitPattern),
        }
    }

    /// The byte of this mode.
    pub fn into_byte(self) -> (r: u8)
        ensures
            r == mode_byte(self),
    {
        match self {
            Mode::Object => 0,
            Mode::Image => 1,
        }
    }
}

/// Every byte stands for exactly one well-formed packet type, whose byte it
/// is, or for none; the bytes that stand for none are those strictly between
/// the end of the catalog and the start of the vendor range.
pub proof fn lemma_byte_names_one_type(n: u8)
    ensures
        packet_type_of(n) is None <==> 0x14 < n < 0x80,
        forall|ty: PacketType|
            ty.valid() && type_byte(ty) == n ==> packet_type_of(n) == Some(ty),
        packet_type_of(n) matches Some(ty) ==> ty.valid() && type_byte(ty) == n,
{
}

/// Two well-formed packet types with the same byte are the same type.
pub proof fn lemma_type_byte_is_injective(a: PacketType, b: PacketType)
    requires
        a.valid(),
        b.valid(),
        type_byte(a) == type_byte(b),
    ensures
        a == b,
{
}

} // verus!
