//! The configuration records in their wire form. Every real number is held
//! as the bit pattern of an IEEE-754 single, which is what travels.
//!
//! A record is a tag byte, one more byte, and the fields. For the two
//! one-byte records the second byte is the value; for the others it is zero
//! and the fields follow, little-endian, in the order of their declaration.

use crate::codec::{
    advance, lemma_u16_round_trip, lemma_u32_round_trip, lemma_u32s_round_trip, push_u16,
    push_u32, push_u32s, read_u16, read_u32, read_u32s, u16_at, u16_wire, u32_at, u32_wire,
    u32s_wire, Parse, Serialize,
};
use crate::packet_type::Error;
use vstd::prelude::*;

verus! {

/// Bit pattern of the single 1.0.
pub const ONE_BITS: u32 = 0x3f80_0000;

/// Accelerometer output data rate, bias and scale.
#[derive(Clone, Copy, Debug, PartialEq, Eq)]
pub struct AccelConfig {
    pub accel_odr: u16,
    pub b_x: u32,
    pub b_y: u32,
    pub b_z: u32,
    pub s_x: u32,
    pub s_y: u32,
    pub s_z: u32,
}

/// Gyroscope bias.
#[derive(Clone, Copy, Debug, Default, PartialEq, Eq)]
pub struct GyroConfig {
    pub b_x: u32,
    pub b_y: u32,
    pub b_z: u32,
}

/// Camera intrinsics: a row-major 3x3 matrix and five distortion
/// coefficients.
#[derive(Clone, Copy, Debug, PartialEq, Eq)]
pub struct CameraCalibrationParams {
    pub camera_matrix: [u32; 9],
    pub dist_coeffs: [u32; 5],
}

/// Stereo extrinsics: a row-major 3x3 rotation and a translation.
#[derive(Clone, Copy, Debug, PartialEq, Eq)]
pub struct StereoCalibrationParams {
    pub r: [u32; 9],
    pub t: [u32; 3],
}

/// One configuration record.
#[derive(Clone, Copy, Debug, PartialEq, Eq)]
pub enum GeneralConfig {
    ImpactThreshold(u8),
    SuppressMs(u8),
    AccelConfig(AccelConfig),
    GyroConfig(GyroConfig),
    CameraModelNf(CameraCalibrationParams),
    CameraModelWf(CameraCalibrationParams),
    StereoIso(StereoCalibrationParams),
}

/// The output data rate assumed where a stored record names none.
pub fn default_accel_odr() -> (r: u16)
    ensures
        r == 100,
{
    100
}

impl Default for AccelConfig {
    /// No bias, unit scale, 200 samples per second.
    fn default() -> (r: Self)
        ensures
            r == (AccelConfig {
                accel_odr: 200,
                b_x: 0,
                b_y: 0,
                b_z: 0,
                s_x: ONE_BITS,
                s_y: ONE_BITS,
                s_z: ONE_BITS,
            }),
    {
        AccelConfig {
            accel_odr: 200,
            b_x: 0,
            b_y: 0,
            b_z: 0,
            s_x: ONE_BITS,
            s_y: ONE_BITS,
            s_z: ONE_BITS,
        }
    }
}

impl Default for StereoCalibrationParams {
    /// The identity rotation and no translation.
    fn default() -> (r: Self)
        ensures
            r.r@ == seq![ONE_BITS, 0, 0, 0, ONE_BITS, 0, 0, 0, ONE_BITS],
            r.t@ == seq![0u32, 0u32, 0u32],
    {
        let r = StereoCalibrationParams {
            r: [ONE_BITS, 0, 0, 0, ONE_BITS, 0, 0, 0, ONE_BITS],
            t: [0, 0, 0],
        };
        assert(r.r@ =~= seq![ONE_BITS, 0, 0, 0, ONE_BITS, 0, 0, 0, ONE_BITS]);
        assert(r.t@ =~= seq![0u32, 0u32, 0u32]);
        r
    }
}

/// The tag byte of a configuration record.
pub open spec fn config_kind(c: GeneralConfig) -> u8 {
    match c {
        GeneralConfig::ImpactThreshold(_) => 0,
        GeneralConfig::SuppressMs(_) => 1,
        GeneralConfig::AccelConfig(_) => 2,
        GeneralConfig::GyroConfig(_) => 3,
        GeneralConfig::CameraModelNf(_) => 4,
        GeneralConfig::CameraModelWf(_) => 5,
        GeneralConfig::StereoIso(_) => 6,
    }
}

/// The number of bytes of a record with tag `kind`, tag included.
pub open spec fn config_len(kind: u8) -> int {
    if kind <= 1 {
        2
    } else if kind == 2 {
        28
    } else if kind == 3 {
        14
    } else if kind <= 5 {
        58
    } else {
        50
    }
}

/// The bytes of an accelerometer record after the tag.
pub open spec fn accel_config_wire(a: AccelConfig) -> Seq<u8> {
    u16_wire(a.accel_odr) + u32_wire(a.b_x) + u32_wire(a.b_y) + u32_wire(a.b_z) + u32_wire(a.s_x)
        + u32_wire(a.s_y) + u32_wire(a.s_z)
}

/// The accelerometer record held at offset 2 of `b`.
pub open spec fn accel_config_at(b: Seq<u8>) -> AccelConfig {
    AccelConfig {
        accel_odr: u16_at(b, 2),
        b_x: u32_at(b, 4),
        b_y: u32_at(b, 8),
        b_z: u32_at(b, 12),
        s_x: u32_at(b, 16),
        s_y: u32_at(b, 20),
        s_z: u32_at(b, 24),
    }
}

/// Whether the words of `s` stand at offset `at` of `b`.
pub open spec fn words_at(s: Seq<u32>, b: Seq<u8>, at: int) -> bool {
    forall|k: int| 0 <= k < s.len() ==> #[trigger] s[k] == u32_at(b, at + 4 * k)
}

impl Serialize for GeneralConfig {
    open spec fn wire(&self) -> Seq<u8> {
        match *self {
            GeneralConfig::ImpactThreshold(x) => seq![0u8, x],
            GeneralConfig::SuppressMs(x) => seq![1u8, x],
            GeneralConfig::AccelConfig(a) => seq![2u8, 0u8] + accel_config_wire(a),
            GeneralConfig::GyroConfig(g) => seq![3u8, 0u8] + u32_wire(g.b_x) + u32_wire(g.b_y)
                + u32_wire(g.b_z),
            GeneralConfig::CameraModelNf(c) => seq![4u8, 0u8] + u32s_wire(c.camera_matrix@)
                + u32s_wire(c.dist_coeffs@),
            GeneralConfig::CameraModelWf(c) => seq![5u8, 0u8] + u32s_wire(c.camera_matrix@)
                + u32s_wire(c.dist_coeffs@),
            GeneralConfig::StereoIso(s) => seq![6u8, 0u8] + u32s_wire(s.r@) + u32s_wire(s.t@),
        }
    }

    fn serialize(&self, buf: &mut Vec<u8>) {
        match self {
            GeneralConfig::ImpactThreshold(x) => {
                buf.push(0);
                buf.push(*x);
            },
            GeneralConfig::SuppressMs(x) => {
                buf.push(1);
                buf.push(*x);
            },
            GeneralConfig::AccelConfig(a) => {
                buf.push(2);
                buf.push(0);
                push_u16(buf, a.accel_odr);
                push_u32(buf, a.b_x);
                push_u32(buf, a.b_y);
                push_u32(buf, a.b_z);
                push_u32(buf, a.s_x);
                push_u32(buf, a.s_y);
                push_u32(buf, a.s_z);
            },
            GeneralConfig::GyroConfig(g) => {
                buf.push(3);
                buf.push(0);
                push_u32(buf, g.b_x);
                push_u32(buf, g.b_y);
                push_u32(buf, g.b_z);
            },
            GeneralConfig::CameraModelNf(c) => {
                buf.push(4);
                buf.push(0);
                push_u32s(buf, &c.camera_matrix);
                push_u32s(buf, &c.dist_coeffs);
            },
            GeneralConfig::CameraModelWf(c) => {
                buf.push(5);
                buf.push(0);
                push_u32s(buf, &c.camera_matrix);
                push_u32s(buf, &c.dist_coeffs);
            },
            GeneralConfig::StereoIso(s) => {
                buf.push(6);
                buf.push(0);
                push_u32s(buf, &s.r);
                push_u32s(buf, &s.t);
            },
        }
        assert(buf@ =~= old(buf)@ + self.wire());
    }
}

impl Parse for GeneralConfig {
    open spec fn parse_failure(bytes: Seq<u8>) -> Option<Error> {
        if bytes.len() < 2 {
            Some(Error::UnexpectedEof { packet_type: None })
        } else if bytes[0] > 6 {
            Some(Error::InvalidBitPattern)
        } else if bytes.len() < config_len(bytes[0]) {
            Some(Error::UnexpectedEof { packet_type: None })
        } else {
            None
        }
    }

    open spec fn parse_len(bytes: Seq<u8>) -> int {
        config_len(bytes[0])
    }

    open spec fn is_parse_of(&self, bytes: Seq<u8>) -> bool {
        &&& config_kind(*self) == bytes[0]
        &&& match *self {
            GeneralConfig::ImpactThreshold(x) => x == bytes[1],
            GeneralConfig::SuppressMs(x) => x == bytes[1],
            GeneralConfig::AccelConfig(a) => a == accel_config_at(bytes),
            GeneralConfig::GyroConfig(g) => g == (GyroConfig {
                b_x: u32_at(bytes, 2),
                b_y: u32_at(bytes, 6),
                b_z: u32_at(bytes, 10),
            }),
            GeneralConfig::CameraModelNf(c) => words_at(c.camera_matrix@, bytes, 2) && words_at(
                c.dist_coeffs@,
                bytes,
                38,
            ),
            GeneralConfig::CameraModelWf(c) => words_at(c.camera_matrix@, bytes, 2) && words_at(
                c.dist_coeffs@,
                bytes,
                38,
            ),
            GeneralConfig::StereoIso(s) => words_at(s.r@, bytes, 2) && words_at(s.t@, bytes, 38),
        }
    }

    fn parse(bytes: &mut &[u8]) -> (r: Result<Self, Error>) {
        if bytes.len() < 2 {
            return Err(Error::UnexpectedEof { packet_type: None });
        }
        let kind = bytes[0];
        if kind > 6 {
            return Err(Error::InvalidBitPattern);
        }
        let need: usize = if kind <= 1 {
            2
        } else if kind == 2 {
            28
        } else if kind == 3 {
            14
        } else if kind <= 5 {
            58
        } else {
            50
        };
        if bytes.len() < need {
            return Err(Error::UnexpectedEof { packet_type: None });
        }
        let b = *bytes;
        let v = if kind == 0 {
            GeneralConfig::ImpactThreshold(b[1])
        } else if kind == 1 {
            GeneralConfig::SuppressMs(b[1])
        } else if kind == 2 {
            GeneralConfig::AccelConfig(
                AccelConfig {
                    accel_odr: read_u16(b, 2),
                    b_x: read_u32(b, 4),
                    b_y: read_u32(b, 8),
                    b_z: read_u32(b, 12),
                    s_x: read_u32(b, 16),
                    s_y: read_u32(b, 20),
                    s_z: read_u32(b, 24),
                },
            )
        } else if kind == 3 {
            GeneralConfig::GyroConfig(
                GyroConfig { b_x: read_u32(b, 2), b_y: read_u32(b, 6), b_z: read_u32(b, 10) },
            )
        } else if kind == 4 {
            GeneralConfig::CameraModelNf(
                CameraCalibrationParams {
                    camera_matrix: read_u32s(b, 2),
                    dist_coeffs: read_u32s(b, 38),
                },
            )
        } else if kind == 5 {
            GeneralConfig::CameraModelWf(
                CameraCalibrationParams {
                    camera_matrix: read_u32s(b, 2),
                    dist_coeffs: read_u32s(b, 38),
                },
            )
        } else {
            GeneralConfig::StereoIso(
                StereoCalibrationParams { r: read_u32s(b, 2), t: read_u32s(b, 38) },
            )
        };
        advance(bytes, need);
        Ok(v)
    }
}

/// A configuration record is read back exactly from its wire bytes, whatever
/// follows them.
pub proof fn lemma_config_round_trip(c: GeneralConfig, rest: Seq<u8>)
    ensures
        c.wire().len() == config_len(config_kind(c)),
        GeneralConfig::parse_failure(c.wire() + rest) is None,
        GeneralConfig::parse_len(c.wire() + rest) == c.wire().len(),
        c.is_parse_of(c.wire() + rest),
{
    let b = c.wire() + rest;
    let tag = seq![config_kind(c), 0u8];
    match c {
        GeneralConfig::ImpactThreshold(x) => {
            assert(b[0] == 0 && b[1] == x);
        },
        GeneralConfig::SuppressMs(x) => {
            assert(b[0] == 1 && b[1] == x);
        },
        GeneralConfig::AccelConfig(a) => {
            lemma_u16_round_trip(a.accel_odr);
            lemma_u32_round_trip(a.b_x);
            lemma_u32_round_trip(a.b_y);
            lemma_u32_round_trip(a.b_z);
            lemma_u32_round_trip(a.s_x);
            lemma_u32_round_trip(a.s_y);
            lemma_u32_round_trip(a.s_z);
            assert(b[0] == 2);
            assert(b[2] == u16_wire(a.accel_odr)[0] && b[3] == u16_wire(a.accel_odr)[1]);
            assert(forall|j: int| 0 <= j < 4 ==> b[4 + j] == u32_wire(a.b_x)[j]);
            assert(forall|j: int| 0 <= j < 4 ==> b[8 + j] == u32_wire(a.b_y)[j]);
            assert(forall|j: int| 0 <= j < 4 ==> b[12 + j] == u32_wire(a.b_z)[j]);
            assert(forall|j: int| 0 <= j < 4 ==> b[16 + j] == u32_wire(a.s_x)[j]);
            assert(forall|j: int| 0 <= j < 4 ==> b[20 + j] == u32_wire(a.s_y)[j]);
            assert(forall|j: int| 0 <= j < 4 ==> b[24 + j] == u32_wire(a.s_z)[j]);
        },
        GeneralConfig::GyroConfig(g) => {
            lemma_u32_round_trip(g.b_x);
            lemma_u32_round_trip(g.b_y);
            lemma_u32_round_trip(g.b_z);
            assert(b[0] == 3);
            assert(forall|j: int| 0 <= j < 4 ==> b[2 + j] == u32_wire(g.b_x)[j]);
            assert(forall|j: int| 0 <= j < 4 ==> b[6 + j] == u32_wire(g.b_y)[j]);
            assert(forall|j: int| 0 <= j < 4 ==> b[10 + j] == u32_wire(g.b_z)[j]);
        },
        GeneralConfig::CameraModelNf(p) => {
            lemma_camera_round_trip(tag, p, rest);
            assert(b[0] == 4);
        },
        GeneralConfig::CameraModelWf(p) => {
            lemma_camera_round_trip(tag, p, rest);
            assert(b[0] == 5);
        },
        GeneralConfig::StereoIso(s) => {
            assert(b[0] == 6);
            assert forall|k: int| 0 <= k < 9 implies #[trigger] s.r@[k] == u32_at(b, 2 + 4 * k) by {
                assert(b =~= tag + u32s_wire(s.r@) + (u32s_wire(s.t@) + rest));
                lemma_u32s_round_trip(tag, s.r@, u32s_wire(s.t@) + rest, k);
            }
            assert forall|k: int| 0 <= k < 3 implies #[trigger] s.t@[k] == u32_at(b, 38 + 4 * k) by {
                assert(b =~= (tag + u32s_wire(s.r@)) + u32s_wire(s.t@) + rest);
                lemma_u32s_round_trip(tag + u32s_wire(s.r@), s.t@, rest, k);
            }
        },
    }
}

/// The two word runs of a camera record are read back exactly from behind
/// its tag.
proof fn lemma_camera_round_trip(tag: Seq<u8>, p: CameraCalibrationParams, rest: Seq<u8>)
    requires
        tag.len() == 2,
    ensures
        words_at(
            p.camera_matrix@,
            tag + u32s_wire(p.camera_matrix@) + u32s_wire(p.dist_coeffs@) + rest,
            2,
        ),
        words_at(
            p.dist_coeffs@,
            tag + u32s_wire(p.camera_matrix@) + u32s_wire(p.dist_coeffs@) + rest,
            38,
        ),
{
    let b = tag + u32s_wire(p.camera_matrix@) + u32s_wire(p.dist_coeffs@) + rest;
    assert forall|k: int| 0 <= k < 9 implies #[trigger] p.camera_matrix@[k] == u32_at(
        b,
        2 + 4 * k,
    ) by {
        assert(b =~= tag + u32s_wire(p.camera_matrix@) + (u32s_wire(p.dist_coeffs@) + rest));
        lemma_u32s_round_trip(tag, p.camera_matrix@, u32s_wire(p.dist_coeffs@) + rest, k);
    }
    assert forall|k: int| 0 <= k < 5 implies #[trigger] p.dist_coeffs@[k] == u32_at(
        b,
        38 + 4 * k,
    ) by {
        lemma_u32s_round_trip(tag + u32s_wire(p.camera_matrix@), p.dist_coeffs@, rest, k);
    }
}

} // verus!
