use ats_wire::{Packet, PacketData, Parse, Serialize, VendorData};
use ats_wire::slip::{
    decode_slip_frame, encode_slip_frame, SlipDecodeError, SlipEncodeError, SLIP_FRAME_END,
};

#[test]
fn encode_escapes_delimiter_and_escape() {
    let data = [0x01, 0xc0, 0x02, 0xdb, 0x03];
    let mut out = [0u8; 16];
    let frame = encode_slip_frame(&data, &mut out).unwrap();
    assert_eq!(frame, &[0x01, 0xdb, 0xdc, 0x02, 0xdb, 0xdd, 0x03, 0xc0]);
}

#[test]
fn encode_appends_one_trailing_delimiter_and_no_leading_one() {
    let mut out = [0xaau8; 4];
    let frame = encode_slip_frame(&[0x41], &mut out).unwrap();
    assert_eq!(frame, &[0x41, SLIP_FRAME_END]);
    assert_eq!(out, [0x41, 0xc0, 0xaa, 0xaa]);
}

#[test]
fn encode_of_nothing_is_a_lone_delimiter() {
    let mut out = [0u8; 1];
    let frame = encode_slip_frame(&[], &mut out).unwrap();
    assert_eq!(frame, &[0xc0]);
}

#[test]
fn encode_fails_when_the_buffer_is_too_short() {
    let mut out = [0u8; 2];
    assert_eq!(
        encode_slip_frame(&[0xc0], &mut out),
        Err(SlipEncodeError::NotEnoughCapacity)
    );
    let mut out = [0u8; 3];
    assert_eq!(encode_slip_frame(&[0xc0], &mut out).unwrap().len(), 3);
    let mut none: [u8; 0] = [];
    assert_eq!(
        encode_slip_frame(&[], &mut none),
        Err(SlipEncodeError::NotEnoughCapacity)
    );
    let mut out = [0u8; 3];
    assert_eq!(
        encode_slip_frame(&[1, 2, 3], &mut out),
        Err(SlipEncodeError::NotEnoughCapacity)
    );
}

#[test]
fn decode_unescapes_in_place() {
    let mut buf = [0x01, 0xdb, 0xdc, 0x02, 0xdb, 0xdd, 0x03];
    let n = decode_slip_frame(&mut buf).unwrap();
    assert_eq!(n, 5);
    assert_eq!(&buf[..n], &[0x01, 0xc0, 0x02, 0xdb, 0x03]);
    assert_eq!(&buf[n..], &[0xdd, 0x03]);
}

#[test]
fn decode_inverts_encode() {
    let mut data = Vec::new();
    for i in 0..=255u8 {
        data.push(i);
        data.push(0xc0);
        data.push(0xdb);
        data.push(0xdb);
        data.push(0xdc);
        data.push(0xdd);
    }
    let mut out = vec![0u8; 2 * data.len() + 1];
    let len = encode_slip_frame(&data, &mut out).unwrap().len();
    assert_eq!(out[len - 1], 0xc0);
    assert!(!out[..len - 1].contains(&0xc0));
    let body = &mut out[..len - 1];
    let n = decode_slip_frame(body).unwrap();
    assert_eq!(&body[..n], &data[..]);
}

#[test]
fn decode_of_a_trailing_escape_fails() {
    let mut buf = [0x41, 0xdb];
    assert_eq!(decode_slip_frame(&mut buf), Err(SlipDecodeError::TrailingEsc));
    let mut buf = [0xdb];
    assert_eq!(decode_slip_frame(&mut buf), Err(SlipDecodeError::TrailingEsc));
}

#[test]
fn decode_of_a_double_escape_fails() {
    let mut buf = [0xdb, 0xdb];
    assert_eq!(decode_slip_frame(&mut buf), Err(SlipDecodeError::DoubleEsc));
}

#[test]
fn decode_of_an_invalid_escape_fails() {
    let mut buf = [0xdb, 0x41];
    assert_eq!(decode_slip_frame(&mut buf), Err(SlipDecodeError::InvalidEsc));
    let mut buf = [0xdb, 0xc0];
    assert_eq!(decode_slip_frame(&mut buf), Err(SlipDecodeError::InvalidEsc));
}

#[test]
fn decode_reports_the_first_error() {
    let mut buf = [0xdb, 0x41, 0xdb, 0xdb];
    assert_eq!(decode_slip_frame(&mut buf), Err(SlipDecodeError::InvalidEsc));
    let mut buf = [0xdb, 0xdb, 0xdb, 0x41];
    assert_eq!(decode_slip_frame(&mut buf), Err(SlipDecodeError::DoubleEsc));
}

#[test]
fn decode_of_nothing_is_nothing() {
    let mut buf: [u8; 0] = [];
    assert_eq!(decode_slip_frame(&mut buf), Ok(0));
}

#[test]
fn decode_passes_escape_codes_that_follow_no_escape() {
    let mut buf = [0xdc, 0xdd, 0xc0];
    assert_eq!(decode_slip_frame(&mut buf), Ok(3));
    assert_eq!(buf, [0xdc, 0xdd, 0xc0]);
}

#[test]
fn a_framed_packet_survives_the_link() {
    let mut data = [0u8; 98];
    data[0] = 0xc0;
    data[1] = 0xdb;
    data[2] = 0xdc;
    let p = Packet { data: PacketData::Vendor(0xc0, VendorData { len: 3, data }), id: 0xdb };
    let mut bytes = Vec::new();
    p.serialize(&mut bytes);
    assert_eq!(bytes, vec![4, 0, 0xc0, 0xdb, 3, 0xc0, 0xdb, 0xdc]);
    let mut out = [0u8; 32];
    let frame = encode_slip_frame(&bytes, &mut out).unwrap();
    assert_eq!(
        frame,
        &[4, 0, 0xdb, 0xdc, 0xdb, 0xdd, 3, 0xdb, 0xdc, 0xdb, 0xdd, 0xdc, 0xc0]
    );
    let mut body = frame[..frame.len() - 1].to_vec();
    let n = decode_slip_frame(&mut body).unwrap();
    let mut rest = &body[..n];
    assert_eq!(Packet::parse(&mut rest), Ok(p));
    assert!(rest.is_empty());
}
