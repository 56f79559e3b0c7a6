//! Marker reports: lists of 12-bit image coordinates, three bytes per point.

use crate::codec::{advance, Parse, Serialize};
use crate::packet_type::{Error, PacketType};
use vstd::prelude::*;

verus! {

/// Image coordinates of one marker, 12 bits each.
#[derive(Clone, Copy, Debug, Default, PartialEq, Eq)]
pub struct MarkerPoint {
    pub x: u16,
    pub y: u16,
}

/// Number of payload bytes of a combined markers report.
pub const COMBINED_MARKERS_SIZE: usize = 96;

/// Number of payload bytes of a single-sensor markers report.
pub const POC_MARKERS_SIZE: usize = 48;

/// The three bytes of one point: the low byte of `x`; the top nibble of `x`
/// below the low nibble of `y`; the top eight bits of `y`.
pub open spec fn point_wire(p: MarkerPoint) -> Seq<u8> {
    seq![
        (p.x & 0xff) as u8,
        (((p.x >> 8) & 0x0f) | ((p.y & 0x0f) << 4)) as u8,
        ((p.y >> 4) & 0xff) as u8,
    ]
}

/// The point that three bytes hold.
pub open spec fn point_of(b0: u8, b1: u8, b2: u8) -> MarkerPoint {
    MarkerPoint {
        x: (b0 as u16) | (((b1 & 0x0f) as u16) << 8),
        y: ((b1 >> 4) as u16) | ((b2 as u16) << 4),
    }
}

/// The point held at offset `at` of `b`.
pub open spec fn point_at(b: Seq<u8>, at: int) -> MarkerPoint {
    point_of(b[at], b[at + 1], b[at + 2])
}

/// Points laid out one after the other.
pub open spec fn points_wire(s: Seq<MarkerPoint>) -> Seq<u8> {
    Seq::new(3 * s.len(), |i: int| point_wire(s[i / 3])[i % 3])
}

impl MarkerPoint {
    /// Both coordinates fit twelve bits.
    pub open spec fn valid(&self) -> bool {
        self.x < 4096 && self.y < 4096
    }

    /// Appends the three bytes of this point.
    pub fn pack(&self, buf: &mut Vec<u8>)
        ensures
            final(buf)@ == old(buf)@ + point_wire(*self),
    {
        let (x, y) = (self.x, self.y);
        assert(x & 0xff <= 0xff && ((x >> 8) & 0x0f) | ((y & 0x0f) << 4) <= 0xff && (y >> 4) & 0xff
            <= 0xff) by (bit_vector);
        buf.push((x & 0xff) as u8);
        buf.push((((x >> 8) & 0x0f) | ((y & 0x0f) << 4)) as u8);
        buf.push(((y >> 4) & 0xff) as u8);
        assert(buf@ =~= old(buf)@ + point_wire(*self));
    }

    /// The point that three bytes hold.
    pub fn unpack(b0: u8, b1: u8, b2: u8) -> (p: MarkerPoint)
        ensures
            p == point_of(b0, b1, b2),
            p.valid(),
    {
        assert(((b0 as u16) | (((b1 & 0x0f) as u16) << 8)) < 4096 && (((b1 >> 4) as u16) | ((
        b2 as u16) << 4)) < 4096) by (bit_vector);
        MarkerPoint {
            x: (b0 as u16) | (((b1 & 0x0f) as u16) << 8),
            y: ((b1 >> 4) as u16) | ((b2 as u16) << 4),
        }
    }
}

/// A point with 12-bit coordinates is read back exactly from its three bytes.
pub proof fn lemma_point_round_trip(p: MarkerPoint)
    requires
        p.valid(),
    ensures
        point_at(point_wire(p), 0) == p,
{
    let (x, y) = (p.x, p.y);
    assert(x < 4096 && y < 4096 ==> (((x & 0xff) as u8 as u16) | (((((((x >> 8) & 0x0f) | ((y
        & 0x0f) << 4)) as u8) & 0x0f) as u16) << 8)) == x && (((((((x >> 8) & 0x0f) | ((y & 0x0f)
        << 4)) as u8) >> 4) as u16) | ((((y >> 4) & 0xff) as u8 as u16) << 4)) == y)
        by (bit_vector);
}

/// Point `k` of a run of 12-bit points is read back exactly from the run's
/// wire bytes, wherever the run stands in a longer sequence.
pub proof fn lemma_points_round_trip(pre: Seq<u8>, s: Seq<MarkerPoint>, post: Seq<u8>, k: int)
    requires
        0 <= k < s.len(),
        s[k].valid(),
    ensures
        point_at(pre + points_wire(s) + post, pre.len() + 3 * k) == s[k],
{
    let all = pre + points_wire(s) + post;
    let at = pre.len() + 3 * k;
    assert forall|j: int| 0 <= j < 3 implies all[at + j] == point_wire(s[k])[j] by {
        let i = 3 * k + j;
        assert(i / 3 == k && i % 3 == j);
        assert(all[at + j] == points_wire(s)[i]);
    }
    lemma_point_round_trip(s[k]);
}

/// Appends the points of `points`, one after the other.
pub fn push_points(buf: &mut Vec<u8>, points: &[MarkerPoint])
    ensures
        final(buf)@ == old(buf)@ + points_wire(points@),
{
    let mut k: usize = 0;
    while k < points.len()
        invariant
            k <= points@.len(),
            buf@ == old(buf)@ + points_wire(points@.take(k as int)),
        decreases points@.len() - k,
    {
        let ghost before = buf@;
        points[k].pack(buf);
        assert(buf@ =~= old(buf)@ + points_wire(points@.take(k + 1))) by {
            let a = before + point_wire(points@[k as int]);
            let b = old(buf)@ + points_wire(points@.take(k + 1));
            assert(a.len() == b.len());
            assert forall|i: int| 0 <= i < a.len() implies a[i] == b[i] by {
                let base = old(buf)@.len();
                if i >= base + 3 * k {
                    let j = i - base;
                    assert(j / 3 == k && j % 3 == j - 3 * k);
                } else if i >= base {
                    let j = i - base;
                    assert(j / 3 < k);
                    assert(points_wire(points@.take(k as int))[j] == points_wire(
                        points@.take(k + 1),
                    )[j]);
                }
            }
        }
        k += 1;
    }
    assert(points@.take(k as int) =~= points@);
}

/// Reads sixteen consecutive points, the first of which starts at `at`.
pub fn read_points(bytes: &[u8], at: usize) -> (r: [MarkerPoint; 16])
    requires
        at + 48 <= bytes@.len(),
    ensures
        forall|k: int| 0 <= k < 16 ==> r@[k] == point_at(bytes@, at + 3 * k),
        forall|k: int| 0 <= k < 16 ==> (#[trigger] r@[k]).valid(),
{
    let mut out = [MarkerPoint { x: 0, y: 0 };16];
    let len = bytes.len();
    let mut k: usize = 0;
    while k < 16
        invariant
            k <= 16,
            at + 48 <= len == bytes@.len(),
            forall|m: int| 0 <= m < k ==> out@[m] == point_at(bytes@, at + 3 * m),
            forall|m: int| 0 <= m < k ==> (#[trigger] out@[m]).valid(),
        decreases 16 - k,
    {
        let i = at + 3 * k;
        out[k] = MarkerPoint::unpack(bytes[i], bytes[i + 1], bytes[i + 2]);
        k += 1;
    }
    out
}

/// Markers of both sensors.
#[derive(Clone, Copy, Debug, Default, PartialEq, Eq)]
pub struct CombinedMarkersReport {
    pub nf_points: [MarkerPoint; 16],
    pub wf_points: [MarkerPoint; 16],
}

/// Markers of a single sensor.
#[derive(Clone, Copy, Debug, PartialEq, Eq)]
pub struct PocMarkersReport {
    pub points: [MarkerPoint; 16],
}

impl CombinedMarkersReport {
    /// Every coordinate fits twelve bits.
    pub open spec fn valid(&self) -> bool {
        &&& forall|k: int| 0 <= k < 16 ==> (#[trigger] self.nf_points@[k]).valid()
        &&& forall|k: int| 0 <= k < 16 ==> (#[trigger] self.wf_points@[k]).valid()
    }

    /// The combined report of a single-sensor report: its points as the
    /// near-field points, and the origin for every wide-field point.
    pub fn from(t: PocMarkersReport) -> (r: CombinedMarkersReport)
        ensures
            r.nf_points == t.points,
            forall|k: int| 0 <= k < 16 ==> r.wf_points@[k] == (MarkerPoint { x: 0, y: 0 }),
    {
        let origin = MarkerPoint { x: 0, y: 0 };
        let mut wf_points = [origin;16];
        let mut k: usize = 0;
        while k < 16
            invariant
                k <= 16,
                origin == (MarkerPoint { x: 0, y: 0 }),
                forall|m: int| 0 <= m < k ==> wf_points@[m] == origin,
            decreases 16 - k,
        {
            wf_points[k] = origin;
            k += 1;
        }
        CombinedMarkersReport { nf_points: t.points, wf_points }
    }
}

impl PocMarkersReport {
    /// Every coordinate fits twelve bits.
    pub open spec fn valid(&self) -> bool {
        forall|k: int| 0 <= k < 16 ==> (#[trigger] self.points@[k]).valid()
    }
}

impl Serialize for CombinedMarkersReport {
    open spec fn wire(&self) -> Seq<u8> {
        points_wire(self.nf_points@) + points_wire(self.wf_points@)
    }

    fn serialize(&self, buf: &mut Vec<u8>) {
        push_points(buf, &self.nf_points);
        push_points(buf, &self.wf_points);
        assert(buf@ =~= old(buf)@ + self.wire());
    }
}

impl Parse for CombinedMarkersReport {
    open spec fn parse_failure(bytes: Seq<u8>) -> Option<Error> {
        if bytes.len() < COMBINED_MARKERS_SIZE {
            Some(Error::UnexpectedEof { packet_type: Some(PacketType::CombinedMarkersReport()) })
        } else {
            None
        }
    }

    open spec fn parse_len(bytes: Seq<u8>) -> int {
        COMBINED_MARKERS_SIZE as int
    }

    open spec fn is_parse_of(&self, bytes: Seq<u8>) -> bool {
        &&& forall|k: int|
            0 <= k < 16 ==> #[trigger] self.nf_points@[k] == point_at(bytes, 3 * k)
        &&& forall|k: int|
            0 <= k < 16 ==> #[trigger] self.wf_points@[k] == point_at(bytes, 48 + 3 * k)
    }

    fn parse(bytes: &mut &[u8]) -> (r: Result<Self, Error>) {
        if bytes.len() < COMBINED_MARKERS_SIZE {
            return Err(
                Error::UnexpectedEof { packet_type: Some(PacketType::CombinedMarkersReport()) },
            );
        }
        let report = CombinedMarkersReport {
            nf_points: read_points(*bytes, 0),
            wf_points: read_points(*bytes, 48),
        };
        advance(bytes, COMBINED_MARKERS_SIZE);
        Ok(report)
    }
}

impl Serialize for PocMarkersReport {
    open spec fn wire(&self) -> Seq<u8> {
        points_wire(self.points@)
    }

    fn serialize(&self, buf: &mut Vec<u8>) {
        push_points(buf, &self.points);
    }
}

impl Parse for PocMarkersReport {
    open spec fn parse_failure(bytes: Seq<u8>) -> Option<Error> {
        if bytes.len() < POC_MARKERS_SIZE {
            Some(Error::UnexpectedEof { packet_type: Some(PacketType::PocMarkersReport()) })
        } else {
            None
        }
    }

    open spec fn parse_len(bytes: Seq<u8>) -> int {
        POC_MARKERS_SIZE as int
    }

    open spec fn is_parse_of(&self, bytes: Seq<u8>) -> bool {
        forall|k: int| 0 <= k < 16 ==> #[trigger] self.points@[k] == point_at(bytes, 3 * k)
    }

    fn parse(bytes: &mut &[u8]) -> (r: Result<Self, Error>) {
        if bytes.len() < POC_MARKERS_SIZE {
            return Err(Error::UnexpectedEof { packet_type: Some(PacketType::PocMarkersReport()) });
        }
        let report = PocMarkersReport { points: read_points(*bytes, 0) };
        advance(bytes, POC_MARKERS_SIZE);
        Ok(report)
    }
}

/// A combined report with 12-bit coordinates is read back exactly from its
/// wire bytes, whatever follows them.
pub proof fn lemma_combined_markers_round_trip(r: CombinedMarkersReport, rest: Seq<u8>)
    requires
        r.valid(),
    ensures
        r.wire().len() == COMBINED_MARKERS_SIZE,
        CombinedMarkersReport::parse_failure(r.wire() + rest) is None,
        r.is_parse_of(r.wire() + rest),
{
    let b = r.wire() + rest;
    let none = Seq::<u8>::empty();
    assert forall|k: int| 0 <= k < 16 implies #[trigger] r.nf_points@[k] == point_at(b, 3 * k) by {
        let post = points_wire(r.wf_points@) + rest;
        assert(b =~= none + points_wire(r.nf_points@) + post);
        lemma_points_round_trip(none, r.nf_points@, post, k);
    }
    assert forall|k: int| 0 <= k < 16 implies #[trigger] r.wf_points@[k] == point_at(
        b,
        48 + 3 * k,
    ) by {
        let pre = points_wire(r.nf_points@);
        assert(b =~= pre + points_wire(r.wf_points@) + rest);
        lemma_points_round_trip(pre, r.wf_points@, rest, k);
    }
}

/// A single-sensor report with 12-bit coordinates is read back exactly from
/// its wire bytes, whatever follows them.
pub proof fn lemma_poc_markers_round_trip(r: PocMarkersReport, rest: Seq<u8>)
    requires
        r.valid(),
    ensures
        r.wire().len() == POC_MARKERS_SIZE,
        PocMarkersReport::parse_failure(r.wire() + rest) is None,
        r.is_parse_of(r.wire() + rest),
{
    let b = r.wire() + rest;
    let none = Seq::<u8>::empty();
    assert forall|k: int| 0 <= k < 16 implies #[trigger] r.points@[k] == point_at(b, 3 * k) by {
        assert(b =~= none + points_wire(r.points@) + rest);
        lemma_points_round_trip(none, r.points@, rest, k);
    }
}

} // verus!
