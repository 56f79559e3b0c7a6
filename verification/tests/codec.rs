use ats_wire::codec::{
    advance, bits_of_i16, hi8, i16_from_bits, join16, lo8, push_bytes, push_u16, push_u32,
    push_u32s, read_bytes, read_u16, read_u32, read_u32s,
};
use ats_wire::packet::retag;
use ats_wire::roster::{find_uuid, same_uuid};
use ats_wire::{Error, PacketType};

#[test]
fn integers_are_little_endian() {
    let mut buf = vec![9];
    push_u16(&mut buf, 0x1234);
    push_u32(&mut buf, 0xdead_beef);
    push_u32s(&mut buf, &[1, 0x0403_0201]);
    push_bytes(&mut buf, &[7, 8]);
    assert_eq!(
        buf,
        vec![9, 0x34, 0x12, 0xef, 0xbe, 0xad, 0xde, 1, 0, 0, 0, 1, 2, 3, 4, 7, 8]
    );
    assert_eq!(read_u16(&buf, 1), 0x1234);
    assert_eq!(read_u32(&buf, 3), 0xdead_beef);
    let words: [u32; 2] = read_u32s(&buf, 7);
    assert_eq!(words, [1, 0x0403_0201]);
    assert_eq!(lo8(0xabcd), 0xcd);
    assert_eq!(hi8(0xabcd), 0xab);
    assert_eq!(join16(0xcd, 0xab), 0xabcd);
}

#[test]
fn signed_values_pass_through_their_bit_patterns() {
    assert_eq!(bits_of_i16(0), 0);
    assert_eq!(bits_of_i16(-1), 0xffff);
    assert_eq!(bits_of_i16(i16::MIN), 0x8000);
    assert_eq!(bits_of_i16(i16::MAX), 0x7fff);
    assert_eq!(i16_from_bits(0xffff), -1);
    assert_eq!(i16_from_bits(0x8000), i16::MIN);
    assert_eq!(i16_from_bits(0x7fff), i16::MAX);
    for x in [i16::MIN, -2048, -1, 0, 1, 2048, i16::MAX] {
        assert_eq!(i16_from_bits(bits_of_i16(x)), x);
        assert_eq!(bits_of_i16(x), x as u16);
    }
}

#[test]
fn bytes_are_read_into_the_front_of_a_zeroed_array() {
    let src = [1u8, 2, 3, 4, 5];
    let a: [u8; 4] = read_bytes(&src, 1, 3);
    assert_eq!(a, [2, 3, 4, 0]);
    let b: [u8; 2] = read_bytes(&src, 5, 0);
    assert_eq!(b, [0, 0]);
}

#[test]
fn advancing_drops_the_front() {
    let src = [1u8, 2, 3];
    let mut rest = &src[..];
    advance(&mut rest, 2);
    assert_eq!(rest, &[3]);
    advance(&mut rest, 1);
    assert!(rest.is_empty());
}

#[test]
fn only_an_eof_is_retagged() {
    let ty = PacketType::Ack();
    assert_eq!(
        retag(Error::UnexpectedEof { packet_type: None }, ty),
        Error::UnexpectedEof { packet_type: Some(ty) }
    );
    assert_eq!(
        retag(Error::UnexpectedEof { packet_type: Some(PacketType::End()) }, ty),
        Error::UnexpectedEof { packet_type: Some(ty) }
    );
    assert_eq!(retag(Error::UnrecognizedPort, ty), Error::UnrecognizedPort);
    assert_eq!(retag(Error::InvalidBitPattern, ty), Error::InvalidBitPattern);
}

#[test]
fn identifiers_are_found_by_value() {
    let a = [1, 2, 3, 4, 5, 6];
    let b = [1, 2, 3, 4, 5, 7];
    assert!(same_uuid(&a, &a));
    assert!(!same_uuid(&a, &b));
    assert_eq!(find_uuid(&[a, b], &b), Some(1));
    assert_eq!(find_uuid(&[a, b], &a), Some(0));
    assert_eq!(find_uuid(&[a], &b), None);
    assert_eq!(find_uuid(&[], &b), None);
}
