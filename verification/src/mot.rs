//! The packed record of one detected infrared blob, and the object report
//! that carries thirty-two of them.

use crate::codec::{
    advance, hi8, join16, lemma_u16_round_trip, lemma_u32_round_trip, lo8, push_u32, read_u32,
    u16_of, u32_at, u32_wire, Parse, Serialize,
};
use crate::packet_type::{Error, PacketType};
use vstd::prelude::*;

verus! {

/// Telemetry of one detected infrared blob.
#[derive(Clone, Copy, Debug, Default, PartialEq, Eq)]
pub struct MotData {
    pub area: u16,
    /// 12 bits.
    pub cx: u16,
    /// 12 bits.
    pub cy: u16,
    pub avg_brightness: u8,
    pub max_brightness: u8,
    /// 4 bits.
    pub range: u8,
    /// 4 bits.
    pub radius: u8,
    /// 7 bits.
    pub boundary_left: u8,
    /// 7 bits.
    pub boundary_right: u8,
    /// 7 bits.
    pub boundary_up: u8,
    /// 7 bits.
    pub boundary_down: u8,
    pub aspect_ratio: u8,
    pub vx: u8,
    pub vy: u8,
}

/// Number of bytes of one packed blob record.
pub const MOT_DATA_SIZE: usize = 16;

/// Number of blob records per field of view in an object report.
pub const MOT_DATA_COUNT: usize = 16;

/// Number of payload bytes of an object report.
pub const OBJECT_REPORT_SIZE: usize = 518;

/// The blob record that the first sixteen bytes of `b` hold. The high nibble
/// of the bytes that carry the top bits of `cx` and `cy`, and the top bit of
/// each boundary byte, are ignored.
pub open spec fn mot_decoded(b: Seq<u8>) -> MotData {
    MotData {
        area: u16_of(b[0], b[1]),
        cx: u16_of(b[2], b[3] & 0x0f),
        cy: u16_of(b[4], b[5] & 0x0f),
        avg_brightness: b[6],
        max_brightness: b[7],
        radius: b[8] & 0x0f,
        range: b[8] >> 4,
        boundary_left: b[9] & 0x7f,
        boundary_right: b[10] & 0x7f,
        boundary_up: b[11] & 0x7f,
        boundary_down: b[12] & 0x7f,
        aspect_ratio: b[13],
        vx: b[14],
        vy: b[15],
    }
}

impl MotData {
    /// Every field fits the bits that the packed record has for it.
    pub open spec fn valid(&self) -> bool {
        &&& self.cx < 4096
        &&& self.cy < 4096
        &&& self.range < 16
        &&& self.radius < 16
        &&& self.boundary_left < 128
        &&& self.boundary_right < 128
        &&& self.boundary_up < 128
        &&& self.boundary_down < 128
    }

    /// Reads the record that the first sixteen bytes of `b` hold.
    pub fn decode(b: &[u8]) -> (r: MotData)
        requires
            b@.len() >= 16,
        ensures
            r == mot_decoded(b@),
            r.valid(),
    {
        let r = MotData {
            area: join16(b[0], b[1]),
            cx: join16(b[2], b[3] & 0x0f),
            cy: join16(b[4], b[5] & 0x0f),
            avg_brightness: b[6],
            max_brightness: b[7],
            radius: b[8] & 0x0f,
            range: b[8] >> 4,
            boundary_left: b[9] & 0x7f,
            boundary_right: b[10] & 0x7f,
            boundary_up: b[11] & 0x7f,
            boundary_down: b[12] & 0x7f,
            aspect_ratio: b[13],
            vx: b[14],
            vy: b[15],
        };
        proof {
            lemma_decoded_is_valid(b@);
        }
        r
    }
}

/// Whatever the bytes, the record read from them is well formed.
pub proof fn lemma_decoded_is_valid(b: Seq<u8>)
    ensures
        mot_decoded(b).valid(),
{
    let (b3, b5, b8, b9, b10, b11, b12) = (b[3], b[5], b[8], b[9], b[10], b[11], b[12]);
    let (b2, b4) = (b[2], b[4]);
    assert(((b2 as u16) | (((b3 & 0x0f) as u16) << 8)) < 4096 && ((b4 as u16) | (((b5 & 0x0f) as u16)
        << 8)) < 4096 && (b8 & 0x0f) < 16 && (b8 >> 4) < 16 && (b9 & 0x7f) < 128 && (b10 & 0x7f)
        < 128 && (b11 & 0x7f) < 128 && (b12 & 0x7f) < 128) by (bit_vector);
}

impl Serialize for MotData {
    open spec fn wire(&self) -> Seq<u8> {
        seq![
            (self.area & 0xff) as u8,
            (self.area >> 8) as u8,
            (self.cx & 0xff) as u8,
            ((self.cx >> 8) & 0x0f) as u8,
            (self.cy & 0xff) as u8,
            ((self.cy >> 8) & 0x0f) as u8,
            self.avg_brightness,
            self.max_brightness,
            (self.radius & 0x0f) | (self.range << 4),
            self.boundary_left & 0x7f,
            self.boundary_right & 0x7f,
            self.boundary_up & 0x7f,
            self.boundary_down & 0x7f,
            self.aspect_ratio,
            self.vx,
            self.vy,
        ]
    }

    fn serialize(&self, buf: &mut Vec<u8>) {
        let (cx, cy) = (self.cx, self.cy);
        assert((cx >> 8) & 0x0f <= 0xff && (cy >> 8) & 0x0f <= 0xff) by (bit_vector);
        buf.push(lo8(self.area));
        buf.push(hi8(self.area));
        buf.push(lo8(self.cx));
        buf.push(((self.cx >> 8) & 0x0f) as u8);
        buf.push(lo8(self.cy));
        buf.push(((self.cy >> 8) & 0x0f) as u8);
        buf.push(self.avg_brightness);
        buf.push(self.max_brightness);
        buf.push((self.radius & 0x0f) | (self.range << 4));
        buf.push(self.boundary_left & 0x7f);
        buf.push(self.boundary_right & 0x7f);
        buf.push(self.boundary_up & 0x7f);
        buf.push(self.boundary_down & 0x7f);
        buf.push(self.aspect_ratio);
        buf.push(self.vx);
        buf.push(self.vy);
        assert(buf@ =~= old(buf)@ + self.wire());
    }
}

impl Parse for MotData {
    open spec fn parse_failure(bytes: Seq<u8>) -> Option<Error> {
        if bytes.len() < MOT_DATA_SIZE {
            Some(Error::UnexpectedEof { packet_type: Some(PacketType::ObjectReport()) })
        } else {
            None
        }
    }

    open spec fn parse_len(bytes: Seq<u8>) -> int {
        MOT_DATA_SIZE as int
    }

    open spec fn is_parse_of(&self, bytes: Seq<u8>) -> bool {
        *self == mot_decoded(bytes)
    }

    fn parse(bytes: &mut &[u8]) -> (r: Result<Self, Error>) {
        if bytes.len() < MOT_DATA_SIZE {
            return Err(Error::UnexpectedEof { packet_type: Some(PacketType::ObjectReport()) });
        }
        let m = MotData::decode(*bytes);
        advance(bytes, MOT_DATA_SIZE);
        Ok(m)
    }
}

/// A well-formed blob record is read back exactly from its wire bytes,
/// whatever follows them.
pub proof fn lemma_mot_round_trip(m: MotData, rest: Seq<u8>)
    requires
        m.valid(),
    ensures
        m.wire().len() == MOT_DATA_SIZE,
        mot_decoded(m.wire() + rest) == m,
{
    let b = m.wire() + rest;
    lemma_u16_round_trip(m.area);
    let (cx, cy, ra, rg) = (m.cx, m.cy, m.radius, m.range);
    let (bl, br, bu, bd) = (
        m.boundary_left,
        m.boundary_right,
        m.boundary_up,
        m.boundary_down,
    );
    assert(cx < 4096 ==> (((cx & 0xff) as u8 as u16) | ((((((cx >> 8) & 0x0f) as u8) & 0x0f) as u16)
        << 8)) == cx) by (bit_vector);
    assert(cy < 4096 ==> (((cy & 0xff) as u8 as u16) | ((((((cy >> 8) & 0x0f) as u8) & 0x0f) as u16)
        << 8)) == cy) by (bit_vector);
    assert(ra < 16 && rg < 16 ==> (((ra & 0x0f) | (rg << 4)) & 0x0f) == ra && (((ra & 0x0f) | (rg
        << 4)) >> 4) == rg) by (bit_vector);
    assert(bl < 128 && br < 128 && bu < 128 && bd < 128 ==> ((bl & 0x7f) & 0x7f) == bl && ((br
        & 0x7f) & 0x7f) == br && ((bu & 0x7f) & 0x7f) == bu && ((bd & 0x7f) & 0x7f) == bd)
        by (bit_vector);
    assert(b[0] == (m.area & 0xff) as u8);
    assert(b[3] == ((m.cx >> 8) & 0x0f) as u8);
    assert(b[8] == (m.radius & 0x0f) | (m.range << 4));
    assert(b[15] == m.vy);
}

/// One object report: a timestamp and the blobs of the near-field and of the
/// wide-field sensor.
#[derive(Clone, Copy, Debug, Default, PartialEq, Eq)]
pub struct ObjectReport {
    pub timestamp: u32,
    pub mot_data_nf: [MotData; 16],
    pub mot_data_wf: [MotData; 16],
}

/// Blob records laid out one after the other.
pub open spec fn mots_wire(s: Seq<MotData>) -> Seq<u8> {
    Seq::new(16 * s.len(), |i: int| s[i / 16].wire()[i % 16])
}

/// The sixteen bytes of record `k` of a run of records that starts at `at`.
pub open spec fn mot_slot(b: Seq<u8>, at: int, k: int) -> Seq<u8> {
    b.subrange(at + 16 * k, at + 16 * k + 16)
}

/// Appends the records of `mots`, one after the other.
pub fn push_mots(buf: &mut Vec<u8>, mots: &[MotData])
    ensures
        final(buf)@ == old(buf)@ + mots_wire(mots@),
{
    let mut k: usize = 0;
    while k < mots.len()
        invariant
            k <= mots@.len(),
            buf@ == old(buf)@ + mots_wire(mots@.take(k as int)),
        decreases mots@.len() - k,
    {
        let ghost before = buf@;
        mots[k].serialize(buf);
        assert(buf@ =~= old(buf)@ + mots_wire(mots@.take(k + 1))) by {
            let a = before + mots@[k as int].wire();
            let b = old(buf)@ + mots_wire(mots@.take(k + 1));
            assert(a.len() == b.len());
            assert forall|i: int| 0 <= i < a.len() implies a[i] == b[i] by {
                let base = old(buf)@.len();
                if i >= base + 16 * k {
                    let j = i - base;
                    assert(j / 16 == k && j % 16 == j - 16 * k);
                } else if i >= base {
                    let j = i - base;
                    assert(j / 16 < k);
                    assert(mots_wire(mots@.take(k as int))[j] == mots_wire(mots@.take(k + 1))[j]);
                }
            }
        }
        k += 1;
    }
    assert(mots@.take(k as int) =~= mots@);
}

/// Reads sixteen consecutive records, the first of which starts at `at`.
pub fn read_mots(bytes: &[u8], at: usize) -> (r: [MotData; 16])
    requires
        at + 256 <= bytes@.len(),
    ensures
        forall|k: int| 0 <= k < 16 ==> r@[k] == mot_decoded(mot_slot(bytes@, at as int, k)),
{
    let zero = MotData {
        area: 0,
        cx: 0,
        cy: 0,
        avg_brightness: 0,
        max_brightness: 0,
        range: 0,
        radius: 0,
        boundary_left: 0,
        boundary_right: 0,
        boundary_up: 0,
        boundary_down: 0,
        aspect_ratio: 0,
        vx: 0,
        vy: 0,
    };
    let mut out = [zero;16];
    let len = bytes.len();
    let mut k: usize = 0;
    while k < 16
        invariant
            k <= 16,
            at + 256 <= len == bytes@.len(),
            forall|m: int| 0 <= m < k ==> out@[m] == mot_decoded(mot_slot(bytes@, at as int, m)),
        decreases 16 - k,
    {
        let slot = vstd::slice::slice_subrange(bytes, at + 16 * k, at + 16 * k + 16);
        out[k] = MotData::decode(slot);
        k += 1;
    }
    out
}

/// Record `k` of a run of well-formed records is read back exactly from the
/// run's wire bytes, wherever the run stands in a longer sequence.
pub proof fn lemma_mots_round_trip(pre: Seq<u8>, s: Seq<MotData>, post: Seq<u8>, k: int)
    requires
        0 <= k < s.len(),
        s[k].valid(),
    ensures
        mot_decoded(mot_slot(pre + mots_wire(s) + post, pre.len() as int, k)) == s[k],
{
    let slot = mot_slot(pre + mots_wire(s) + post, pre.len() as int, k);
    assert(slot =~= s[k].wire()) by {
        assert forall|j: int| 0 <= j < 16 implies slot[j] == s[k].wire()[j] by {
            let i = 16 * k + j;
            assert(i / 16 == k && i % 16 == j);
            assert(slot[j] == mots_wire(s)[i]);
        }
    }
    lemma_mot_round_trip(s[k], Seq::empty());
    assert(s[k].wire() + Seq::<u8>::empty() =~= s[k].wire());
}

impl ObjectReport {
    /// Every blob record is well formed.
    pub open spec fn valid(&self) -> bool {
        &&& forall|k: int| 0 <= k < 16 ==> (#[trigger] self.mot_data_nf@[k]).valid()
        &&& forall|k: int| 0 <= k < 16 ==> (#[trigger] self.mot_data_wf@[k]).valid()
    }
}

impl Serialize for ObjectReport {
    open spec fn wire(&self) -> Seq<u8> {
        u32_wire(self.timestamp) + mots_wire(self.mot_data_nf@) + mots_wire(self.mot_data_wf@)
            + seq![1u8, 0u8]
    }

    fn serialize(&self, buf: &mut Vec<u8>) {
        push_u32(buf, self.timestamp);
        push_mots(buf, &self.mot_data_nf);
        push_mots(buf, &self.mot_data_wf);
        buf.push(1);
        buf.push(0);
        assert(buf@ =~= old(buf)@ + self.wire());
    }
}

impl Parse for ObjectReport {
    open spec fn parse_failure(bytes: Seq<u8>) -> Option<Error> {
        if bytes.len() < OBJECT_REPORT_SIZE {
            Some(Error::UnexpectedEof { packet_type: Some(PacketType::ObjectReport()) })
        } else {
            None
        }
    }

    open spec fn parse_len(bytes: Seq<u8>) -> int {
        OBJECT_REPORT_SIZE as int
    }

    open spec fn is_parse_of(&self, bytes: Seq<u8>) -> bool {
        &&& self.timestamp == u32_at(bytes, 0)
        &&& forall|k: int|
            0 <= k < 16 ==> #[trigger] self.mot_data_nf@[k] == mot_decoded(mot_slot(bytes, 4, k))
        &&& forall|k: int|
            0 <= k < 16 ==> #[trigger] self.mot_data_wf@[k] == mot_decoded(
                mot_slot(bytes, 260, k),
            )
    }

    fn parse(bytes: &mut &[u8]) -> (r: Result<Self, Error>) {
        if bytes.len() < OBJECT_REPORT_SIZE {
            return Err(Error::UnexpectedEof { packet_type: Some(PacketType::ObjectReport()) });
        }
        let report = ObjectReport {
            timestamp: read_u32(*bytes, 0),
            mot_data_nf: read_mots(*bytes, 4),
            mot_data_wf: read_mots(*bytes, 260),
        };
        advance(bytes, OBJECT_REPORT_SIZE);
        Ok(report)
    }
}

/// A well-formed object report is read back exactly from its wire bytes,
/// whatever follows them.
pub proof fn lemma_object_report_round_trip(r: ObjectReport, rest: Seq<u8>)
    requires
        r.valid(),
    ensures
        r.wire().len() == OBJECT_REPORT_SIZE,
        ObjectReport::parse_failure(r.wire() + rest) is None,
        r.is_parse_of(r.wire() + rest),
{
    let b = r.wire() + rest;
    let ts = u32_wire(r.timestamp);
    lemma_u32_round_trip(r.timestamp);
    assert(b[0] == ts[0] && b[1] == ts[1] && b[2] == ts[2] && b[3] == ts[3]);
    let tail = seq![1u8, 0u8] + rest;
    assert forall|k: int| 0 <= k < 16 implies #[trigger] r.mot_data_nf@[k] == mot_decoded(
        mot_slot(b, 4, k),
    ) by {
        let post = mots_wire(r.mot_data_wf@) + tail;
        assert(b =~= ts + mots_wire(r.mot_data_nf@) + post);
        lemma_mots_round_trip(ts, r.mot_data_nf@, post, k);
    }
    assert forall|k: int| 0 <= k < 16 implies #[trigger] r.mot_data_wf@[k] == mot_decoded(
        mot_slot(b, 260, k),
    ) by {
        let pre = ts + mots_wire(r.mot_data_nf@);
        assert(b =~= pre + mots_wire(r.mot_data_wf@) + tail);
        lemma_mots_round_trip(pre, r.mot_data_wf@, tail, k);
    }
}

} // verus!
