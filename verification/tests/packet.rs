use ats_wire::wire::{
    default_accel_odr, AccelConfig, CameraCalibrationParams, GeneralConfig, GyroConfig,
    StereoCalibrationParams,
};
use ats_wire::{
    AccelReport, CombinedMarkersReport, Error, ImpactReport, MarkerPoint, Mode, MotData,
    ObjectReport, Packet, PacketData, PacketType, Parse, PocMarkersReport, Port, Props,
    ReadRegisterResponse, Register, Serialize, StreamUpdate, StreamUpdateAction, VendorData,
    Version, WriteRegister,
};

fn bytes_of(p: &Packet) -> Vec<u8> {
    let mut buf = Vec::new();
    p.serialize(&mut buf);
    buf
}

fn parse_all(bytes: &[u8]) -> Result<Packet, Error> {
    let mut rest = bytes;
    let r = Packet::parse(&mut rest);
    match r {
        Ok(_) => assert!(rest.is_empty()),
        Err(_) => assert_eq!(rest, bytes),
    }
    r
}

fn round_trip(data: PacketData, id: u8) {
    let p = Packet { data, id };
    let bytes = bytes_of(&p);
    assert_eq!(bytes.len() % 2, 0);
    let words = u16::from_le_bytes([bytes[0], bytes[1]]) as usize;
    assert_eq!(words * 2, bytes.len());
    assert_eq!(bytes[2], p.ty().into_byte());
    assert_eq!(bytes[3], id);
    assert_eq!(parse_all(&bytes), Ok(p));
    let mut longer = bytes.clone();
    longer.extend_from_slice(&[0xde, 0xad, 0xbe]);
    let mut rest = &longer[..];
    assert_eq!(Packet::parse(&mut rest), Ok(p));
    assert_eq!(rest, &[0xde, 0xad, 0xbe]);
}

fn sample_mot(k: u8) -> MotData {
    MotData {
        area: 0x1234 + k as u16,
        cx: 3004,
        cy: 291 + k as u16,
        avg_brightness: 200,
        max_brightness: 255,
        range: 10,
        radius: 5,
        boundary_left: 0,
        boundary_right: 127,
        boundary_up: k,
        boundary_down: 127 - k,
        aspect_ratio: 9,
        vx: 0x80,
        vy: 0xff,
    }
}

fn sample_points(base: u16) -> [MarkerPoint; 16] {
    let mut pts = [MarkerPoint { x: 0, y: 0 }; 16];
    for (i, p) in pts.iter_mut().enumerate() {
        p.x = (base + 255 * i as u16) % 4096;
        p.y = 4095 - p.x;
    }
    pts
}

#[test]
fn every_byte_names_at_most_one_packet_type() {
    let mut seen = Vec::new();
    for n in 0..=255u8 {
        match PacketType::try_from(n) {
            Ok(ty) => {
                assert_eq!(ty.into_byte(), n);
                assert!(!seen.contains(&ty));
                seen.push(ty);
            }
            Err(e) => {
                assert!(n > 0x14 && n < 0x80);
                assert_eq!(e, Error::UnrecognizedPacketId(n));
            }
        }
    }
    assert_eq!(seen.len(), 21 + 128);
}

#[test]
fn catalog_bytes_are_fixed() {
    assert_eq!(PacketType::try_from(0x00), Ok(PacketType::WriteRegister()));
    assert_eq!(PacketType::try_from(0x09), Ok(PacketType::ObjectReport()));
    assert_eq!(PacketType::try_from(0x0a), Ok(PacketType::CombinedMarkersReport()));
    assert_eq!(PacketType::try_from(0x0b), Ok(PacketType::AccelReport()));
    assert_eq!(PacketType::try_from(0x10), Ok(PacketType::PocMarkersReport()));
    assert_eq!(PacketType::try_from(0x13), Ok(PacketType::ReadVersionResponse()));
    assert_eq!(PacketType::try_from(0x14), Ok(PacketType::End()));
    assert_eq!(PacketType::try_from(0x15), Err(Error::UnrecognizedPacketId(0x15)));
    assert_eq!(PacketType::try_from(0x7f), Err(Error::UnrecognizedPacketId(0x7f)));
    assert_eq!(PacketType::try_from(0x80), Ok(PacketType::VendorStart()));
    assert_eq!(PacketType::try_from(0x81), Ok(PacketType::Vendor(0x81)));
    assert_eq!(PacketType::try_from(0xfe), Ok(PacketType::Vendor(0xfe)));
    assert_eq!(PacketType::try_from(0xff), Ok(PacketType::VendorEnd()));
    assert_eq!(PacketType::StreamUpdate().into_byte(), 0x0d);
    assert_eq!(u8::from(PacketType::WriteMode()), 0x11);
    assert_eq!(u8::from(PacketType::VendorEnd()), 0xff);
    let ty: Result<PacketType, Error> = 0x0cu8.try_into();
    assert_eq!(ty, Ok(PacketType::ImpactReport()));
    assert_eq!(PacketType::Vendor(0x90).into_byte(), 0x90);
}

#[test]
fn small_enumerations_map_to_their_bytes() {
    assert_eq!(Port::try_from(0), Ok(Port::Nf));
    assert_eq!(Port::try_from(1), Ok(Port::Wf));
    assert_eq!(Port::try_from(2), Err(Error::UnrecognizedPort));
    assert_eq!(Port::Wf.into_byte(), 1);
    assert_eq!(StreamUpdateAction::try_from(0), Ok(StreamUpdateAction::Enable));
    assert_eq!(StreamUpdateAction::try_from(1), Ok(StreamUpdateAction::Disable));
    assert_eq!(StreamUpdateAction::try_from(2), Ok(StreamUpdateAction::DisableAll));
    assert_eq!(
        StreamUpdateAction::try_from(3),
        Err(Error::UnrecognizedStreamUpdateAction(3))
    );
    assert_eq!(StreamUpdateAction::DisableAll.into_byte(), 2);
    assert_eq!(Mode::try_from(0), Ok(Mode::Object));
    assert_eq!(Mode::try_from(1), Ok(Mode::Image));
    assert_eq!(Mode::try_from(2), Err(Error::InvalidBitPattern));
    assert_eq!(Mode::Image.into_byte(), 1);
    assert_eq!(ats_wire::control::device::TransportMode::Ble.into_byte(), 1);
    assert_eq!(ats_wire::control::device::TransportMode::Usb.into_byte(), 0);
}

#[test]
fn mot_data_packs_its_nibbles() {
    let m = sample_mot(0);
    let mut buf = Vec::new();
    m.serialize(&mut buf);
    assert_eq!(
        buf,
        vec![0x34, 0x12, 0xbc, 0x0b, 0x23, 0x01, 200, 255, 0xa5, 0, 127, 0, 127, 9, 0x80, 0xff]
    );
    let mut rest = &buf[..];
    assert_eq!(MotData::parse(&mut rest), Ok(m));
    assert!(rest.is_empty());
    assert_eq!(MotData::decode(&buf), m);
}

#[test]
fn mot_data_ignores_the_unused_bits_on_decode() {
    let bytes = [0x34, 0x12, 0xbc, 0xfb, 0x23, 0xf1, 1, 2, 0xa5, 0x80, 0xff, 0x81, 0xfe, 9, 8, 7];
    let m = MotData::decode(&bytes);
    assert_eq!(m.cx, 3004);
    assert_eq!(m.cy, 291);
    assert_eq!(m.radius, 5);
    assert_eq!(m.range, 10);
    assert_eq!(m.boundary_left, 0);
    assert_eq!(m.boundary_right, 127);
    assert_eq!(m.boundary_up, 1);
    assert_eq!(m.boundary_down, 126);
}

#[test]
fn mot_data_forces_the_top_boundary_bit_to_zero_on_encode() {
    let mut m = sample_mot(0);
    m.boundary_left = 0xff;
    let mut buf = Vec::new();
    m.serialize(&mut buf);
    assert_eq!(buf[9], 0x7f);
}

#[test]
fn mot_data_needs_sixteen_bytes() {
    let bytes = [0u8; 15];
    let mut rest = &bytes[..];
    assert_eq!(
        MotData::parse(&mut rest),
        Err(Error::UnexpectedEof { packet_type: Some(PacketType::ObjectReport()) })
    );
    assert_eq!(rest.len(), 15);
}

#[test]
fn marker_points_pack_into_three_bytes() {
    for (x, y, bytes) in [
        (0u16, 0u16, [0x00u8, 0x00, 0x00]),
        (4095, 4095, [0xff, 0xff, 0xff]),
        (2048, 17, [0x00, 0x18, 0x01]),
        (0x0abc, 0x0def, [0xbc, 0xfa, 0xde]),
    ] {
        let p = MarkerPoint { x, y };
        let mut buf = Vec::new();
        p.pack(&mut buf);
        assert_eq!(buf, bytes);
        assert_eq!(MarkerPoint::unpack(bytes[0], bytes[1], bytes[2]), p);
    }
}

#[test]
fn combined_markers_round_trip() {
    let mut nf = sample_points(0);
    nf[0] = MarkerPoint { x: 0, y: 0 };
    nf[1] = MarkerPoint { x: 4095, y: 4095 };
    nf[2] = MarkerPoint { x: 2048, y: 17 };
    let r = CombinedMarkersReport { nf_points: nf, wf_points: sample_points(100) };
    let mut buf = Vec::new();
    r.serialize(&mut buf);
    assert_eq!(buf.len(), 96);
    assert_eq!(&buf[..9], &[0, 0, 0, 0xff, 0xff, 0xff, 0x00, 0x18, 0x01]);
    let mut rest = &buf[..];
    assert_eq!(CombinedMarkersReport::parse(&mut rest), Ok(r));
    assert!(rest.is_empty());
    round_trip(PacketData::CombinedMarkersReport(r), 3);
}

#[test]
fn combined_report_of_a_single_sensor_report() {
    let poc = PocMarkersReport { points: sample_points(7) };
    let c = CombinedMarkersReport::from(poc);
    assert_eq!(c.nf_points, poc.points);
    assert_eq!(c.wf_points, [MarkerPoint { x: 0, y: 0 }; 16]);
}

#[test]
fn header_carries_word_count_type_and_id() {
    assert_eq!(bytes_of(&Packet { data: PacketData::Ack(), id: 5 }), vec![2, 0, 0x0f, 5]);
    let w = WriteRegister { port: Port::Wf, bank: 1, address: 2, data: 3 };
    assert_eq!(
        bytes_of(&Packet { data: PacketData::WriteRegister(w), id: 9 }),
        vec![4, 0, 0x00, 9, 1, 1, 2, 3]
    );
    let r = ObjectReport::default();
    let bytes = bytes_of(&Packet { data: PacketData::ObjectReport(r), id: 0xee });
    assert_eq!(bytes.len(), 522);
    assert_eq!(&bytes[..4], &[0x05, 0x01, 0x09, 0xee]);
    assert_eq!(&bytes[520..], &[1, 0]);
}

#[test]
fn serialize_parts_writes_the_same_packet() {
    let w = WriteRegister { port: Port::Nf, bank: 4, address: 5, data: 6 };
    let mut buf = vec![0xaa];
    let n = Packet::serialize_parts(7, PacketType::WriteRegister(), &w, &mut buf);
    assert_eq!(n, 8);
    assert_eq!(buf, vec![0xaa, 4, 0, 0x00, 7, 0, 4, 5, 6]);
}

#[test]
fn every_kind_of_packet_round_trips() {
    round_trip(
        PacketData::WriteRegister(WriteRegister { port: Port::Nf, bank: 1, address: 2, data: 3 }),
        0,
    );
    round_trip(PacketData::ReadRegister(Register { port: Port::Wf, bank: 0xff, address: 0 }), 1);
    round_trip(
        PacketData::ReadRegisterResponse(ReadRegisterResponse { bank: 9, address: 8, data: 7 }),
        2,
    );
    round_trip(PacketData::WriteConfig(GeneralConfig::ImpactThreshold(12)), 3);
    round_trip(PacketData::WriteConfig(GeneralConfig::SuppressMs(200)), 3);
    round_trip(PacketData::ReadConfig(), 4);
    round_trip(PacketData::ReadConfigResponse(GeneralConfig::AccelConfig(AccelConfig::default())), 5);
    round_trip(
        PacketData::ReadConfigResponse(GeneralConfig::GyroConfig(GyroConfig {
            b_x: 0x3f80_0000,
            b_y: 0xbf80_0000,
            b_z: 0x7fc0_0000,
        })),
        5,
    );
    let cam = CameraCalibrationParams {
        camera_matrix: [1, 2, 3, 4, 5, 6, 7, 8, 0x4500_0000],
        dist_coeffs: [0xffff_ffff, 0, 0x8000_0000, 4, 5],
    };
    round_trip(PacketData::ReadConfigResponse(GeneralConfig::CameraModelNf(cam)), 5);
    round_trip(PacketData::WriteConfig(GeneralConfig::CameraModelWf(cam)), 5);
    round_trip(
        PacketData::WriteConfig(GeneralConfig::StereoIso(StereoCalibrationParams::default())),
        5,
    );
    round_trip(PacketData::ReadProps(), 6);
    round_trip(PacketData::ReadPropsResponse(Props::Uuid([1, 2, 3, 4, 5, 6])), 7);
    round_trip(PacketData::ReadPropsResponse(Props::ProductId(0xbeef)), 7);
    round_trip(PacketData::ObjectReportRequest(), 8);
    let mut report = ObjectReport::default();
    report.timestamp = 0xdead_beef;
    for k in 0..16 {
        report.mot_data_nf[k] = sample_mot(k as u8);
        report.mot_data_wf[k] = sample_mot(100 + k as u8);
    }
    round_trip(PacketData::ObjectReport(report), 9);
    round_trip(PacketData::PocMarkersReport(PocMarkersReport { points: sample_points(33) }), 10);
    round_trip(
        PacketData::AccelReport(AccelReport {
            timestamp: 0x0102_0304,
            accel: [2048, -2048, i16::MIN],
            gyro: [i16::MAX, -1, 0],
        }),
        11,
    );
    round_trip(PacketData::ImpactReport(ImpactReport { timestamp: u32::MAX }), 12);
    round_trip(
        PacketData::StreamUpdate(StreamUpdate {
            packet_id: PacketType::Vendor(0x90),
            action: StreamUpdateAction::DisableAll,
        }),
        13,
    );
    round_trip(PacketData::FlashSettings(), 14);
    round_trip(PacketData::Ack(), 15);
    round_trip(PacketData::WriteMode(Mode::Image), 16);
    round_trip(PacketData::ReadVersion(), 17);
    round_trip(PacketData::ReadVersionResponse(Version::new([1, 2, 0xffff])), 18);
    for len in [0u8, 1, 2, 97, 98] {
        let mut data = [0u8; 98];
        for k in 0..len as usize {
            data[k] = 0xc0 ^ k as u8;
        }
        round_trip(PacketData::Vendor(0x81, VendorData { len, data }), 19);
        round_trip(PacketData::Vendor(0xfe, VendorData { len, data }), 19);
    }
}

#[test]
fn payload_layouts_are_exact() {
    let accel = AccelReport { timestamp: 0x0403_0201, accel: [1, -1, 0x0102], gyro: [-2, 0, 2] };
    assert_eq!(
        bytes_of(&Packet { data: PacketData::AccelReport(accel), id: 1 }),
        vec![
            10, 0, 0x0b, 1, 1, 2, 3, 4, 1, 0, 0xff, 0xff, 0x02, 0x01, 0xfe, 0xff, 0, 0, 2, 0
        ]
    );
    let v = VendorData { len: 2, data: { let mut d = [0u8; 98]; d[0] = 7; d[1] = 8; d[2] = 9; d } };
    assert_eq!(
        bytes_of(&Packet { data: PacketData::Vendor(0x85, v), id: 2 }),
        vec![4, 0, 0x85, 2, 2, 7, 8, 0]
    );
    let v = VendorData { len: 1, data: { let mut d = [0u8; 98]; d[0] = 7; d } };
    assert_eq!(
        bytes_of(&Packet { data: PacketData::Vendor(0x85, v), id: 2 }),
        vec![3, 0, 0x85, 2, 1, 7]
    );
    assert_eq!(
        bytes_of(&Packet { data: PacketData::ReadPropsResponse(Props::ProductId(0x1234)), id: 0 }),
        vec![4, 0, 0x07, 0, 1, 0, 0x34, 0x12]
    );
    assert_eq!(
        bytes_of(&Packet {
            data: PacketData::ReadConfigResponse(GeneralConfig::GyroConfig(GyroConfig {
                b_x: 0x0403_0201,
                b_y: 0,
                b_z: 0xffff_ffff,
            })),
            id: 0
        }),
        vec![9, 0, 0x05, 0, 3, 0, 1, 2, 3, 4, 0, 0, 0, 0, 0xff, 0xff, 0xff, 0xff]
    );
    assert_eq!(
        bytes_of(&Packet {
            data: PacketData::StreamUpdate(StreamUpdate {
                packet_id: PacketType::AccelReport(),
                action: StreamUpdateAction::Disable,
            }),
            id: 0
        }),
        vec![3, 0, 0x0d, 0, 0x0b, 1]
    );
    assert_eq!(
        bytes_of(&Packet { data: PacketData::ReadVersionResponse(Version::new([1, 2, 3])), id: 0 }),
        vec![8, 0, 0x13, 0, 0, 0, 1, 0, 0, 0, 1, 0, 2, 0, 3, 0]
    );
}

#[test]
fn vendor_padding_is_zero_after_parsing() {
    let bytes = [4, 0, 0x85, 2, 2, 7, 8, 0x55];
    let p = parse_all(&bytes).unwrap();
    let mut data = [0u8; 98];
    data[0] = 7;
    data[1] = 8;
    assert_eq!(p, Packet { data: PacketData::Vendor(0x85, VendorData { len: 2, data }), id: 2 });
}

#[test]
fn short_input_is_an_unexpected_eof() {
    assert_eq!(parse_all(&[]), Err(Error::UnexpectedEof { packet_type: None }));
    assert_eq!(parse_all(&[2, 0, 0x0f]), Err(Error::UnexpectedEof { packet_type: None }));
    assert_eq!(
        parse_all(&[4, 0, 0x00, 9, 1, 1, 2]),
        Err(Error::UnexpectedEof { packet_type: Some(PacketType::WriteRegister()) })
    );
    assert_eq!(
        parse_all(&[3, 0, 0x00, 9, 1, 1]),
        Err(Error::UnexpectedEof { packet_type: Some(PacketType::WriteRegister()) })
    );
    assert_eq!(
        parse_all(&[1, 0, 0x0f, 9]),
        Err(Error::UnexpectedEof { packet_type: Some(PacketType::Ack()) })
    );
    assert_eq!(
        parse_all(&[3, 0, 0x85, 2, 2, 7]),
        Err(Error::UnexpectedEof { packet_type: Some(PacketType::Vendor(0x85)) })
    );
    assert_eq!(
        parse_all(&[3, 0, 0x03, 2, 2, 0]),
        Err(Error::UnexpectedEof { packet_type: Some(PacketType::WriteConfig()) })
    );
}

#[test]
fn unknown_type_bytes_are_rejected() {
    assert_eq!(parse_all(&[2, 0, 0x15, 0]), Err(Error::UnrecognizedPacketId(0x15)));
    assert_eq!(parse_all(&[2, 0, 0x7f, 0]), Err(Error::UnrecognizedPacketId(0x7f)));
    assert_eq!(parse_all(&[2, 0, 0x14, 0]), Err(Error::UnrecognizedPacketId(0x14)));
    assert_eq!(parse_all(&[2, 0, 0x80, 0]), Err(Error::UnrecognizedPacketId(0x80)));
    assert_eq!(parse_all(&[2, 0, 0xff, 0]), Err(Error::UnrecognizedPacketId(0xff)));
}

#[test]
fn bad_payload_bytes_are_rejected() {
    assert_eq!(parse_all(&[4, 0, 0x00, 9, 2, 1, 2, 3]), Err(Error::UnrecognizedPort));
    assert_eq!(parse_all(&[4, 0, 0x01, 9, 2, 1, 2, 0]), Err(Error::UnrecognizedPort));
    assert_eq!(
        parse_all(&[3, 0, 0x0d, 0, 0x0b, 3]),
        Err(Error::UnrecognizedStreamUpdateAction(3))
    );
    assert_eq!(parse_all(&[3, 0, 0x0d, 0, 0x20, 3]), Err(Error::UnrecognizedPacketId(0x20)));
    assert_eq!(parse_all(&[3, 0, 0x11, 0, 2, 0]), Err(Error::InvalidBitPattern));
    assert_eq!(parse_all(&[3, 0, 0x03, 0, 7, 0]), Err(Error::InvalidBitPattern));
    assert_eq!(parse_all(&[3, 0, 0x07, 0, 2, 0]), Err(Error::InvalidBitPattern));
    let mut vendor = vec![52, 0, 0x85, 0, 99];
    vendor.resize(104, 0);
    assert_eq!(parse_all(&vendor), Err(Error::InvalidBitPattern));
}

#[test]
fn stream_update_parses_two_bytes() {
    let bytes = [0x09, 0x00, 0x77];
    let mut rest = &bytes[..];
    assert_eq!(
        StreamUpdate::parse(&mut rest),
        Ok(StreamUpdate {
            packet_id: PacketType::ObjectReport(),
            action: StreamUpdateAction::Enable
        })
    );
    assert_eq!(rest, &[0x77]);
    let mut rest = &bytes[..1];
    assert_eq!(
        StreamUpdate::parse(&mut rest),
        Err(Error::UnexpectedEof { packet_type: Some(PacketType::StreamUpdate()) })
    );
}

#[test]
fn payload_accessors_pick_their_variant() {
    let impact = ImpactReport { timestamp: 5 };
    assert_eq!(PacketData::ImpactReport(impact).impact_report(), Some(impact));
    assert_eq!(PacketData::Ack().impact_report(), None);
    let rr = ReadRegisterResponse { bank: 1, address: 2, data: 3 };
    assert_eq!(PacketData::ReadRegisterResponse(rr).read_register_response(), Some(rr));
    assert_eq!(PacketData::Ack().read_register_response(), None);
    let cfg = GeneralConfig::SuppressMs(4);
    assert_eq!(PacketData::ReadConfigResponse(cfg).read_config_response(), Some(cfg));
    assert_eq!(PacketData::WriteConfig(cfg).read_config_response(), None);
    let props = Props::ProductId(3);
    assert_eq!(PacketData::ReadPropsResponse(props).read_props_response(), Some(props));
    assert_eq!(PacketData::ReadProps().read_props_response(), None);
    let obj = ObjectReport::default();
    assert_eq!(PacketData::ObjectReport(obj).object_report(), Some(obj));
    assert_eq!(PacketData::ObjectReportRequest().object_report(), None);
    let comb = CombinedMarkersReport::default();
    assert_eq!(PacketData::CombinedMarkersReport(comb).combined_markers_report(), Some(comb));
    assert_eq!(PacketData::Ack().combined_markers_report(), None);
    let poc = PocMarkersReport { points: sample_points(1) };
    assert_eq!(PacketData::PocMarkersReport(poc).poc_markers_report(), Some(poc));
    assert_eq!(PacketData::CombinedMarkersReport(comb).poc_markers_report(), None);
    let acc = AccelReport::default();
    assert_eq!(PacketData::AccelReport(acc).accel_report(), Some(acc));
    assert_eq!(PacketData::ImpactReport(impact).accel_report(), None);
}

#[test]
fn packet_type_follows_the_payload() {
    assert_eq!(Packet { data: PacketData::Ack(), id: 0 }.ty(), PacketType::Ack());
    assert_eq!(
        Packet { data: PacketData::PocMarkersReport(PocMarkersReport { points: sample_points(1) }), id: 0 }
            .ty(),
        PacketType::PocMarkersReport()
    );
    let v = VendorData { len: 0, data: [0; 98] };
    assert_eq!(Packet { data: PacketData::Vendor(0x99, v), id: 0 }.ty(), PacketType::Vendor(0x99));
}

#[test]
fn configuration_defaults() {
    let a = AccelConfig::default();
    assert_eq!(a.accel_odr, 200);
    assert_eq!((a.b_x, a.b_y, a.b_z), (0, 0, 0));
    assert_eq!(f32::from_bits(a.s_x), 1.0);
    assert_eq!(f32::from_bits(a.s_y), 1.0);
    assert_eq!(f32::from_bits(a.s_z), 1.0);
    assert_eq!(default_accel_odr(), 100);
    let s = StereoCalibrationParams::default();
    let r: Vec<f32> = s.r.iter().map(|b| f32::from_bits(*b)).collect();
    assert_eq!(r, vec![1.0, 0.0, 0.0, 0.0, 1.0, 0.0, 0.0, 0.0, 1.0]);
    assert_eq!(s.t, [0, 0, 0]);
}
