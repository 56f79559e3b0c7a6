//! Little-endian integer layouts, and the two traits through which a payload
//! is written and read.

use crate::packet_type::Error;
use vstd::prelude::*;

verus! {

/// The two bytes of `x`, low byte first.
pub open spec fn u16_wire(x: u16) -> Seq<u8> {
    seq![(x & 0xff) as u8, (x >> 8) as u8]
}

/// The 16-bit value whose low byte is `lo` and whose high byte is `hi`.
pub open spec fn u16_of(lo: u8, hi: u8) -> u16 {
    (lo as u16) | ((hi as u16) << 8)
}

/// The 16-bit little-endian value at offset `at` of `b`.
pub open spec fn u16_at(b: Seq<u8>, at: int) -> u16 {
    u16_of(b[at], b[at + 1])
}

/// Byte `j` (0 is the lowest) of `x`.
pub open spec fn u32_byte(x: u32, j: int) -> u8 {
    if j == 0 {
        (x & 0xff) as u8
    } else if j == 1 {
        ((x >> 8) & 0xff) as u8
    } else if j == 2 {
        ((x >> 16) & 0xff) as u8
    } else {
        (x >> 24) as u8
    }
}

/// The four bytes of `x`, low byte first.
pub open spec fn u32_wire(x: u32) -> Seq<u8> {
    seq![u32_byte(x, 0), u32_byte(x, 1), u32_byte(x, 2), u32_byte(x, 3)]
}

/// The 32-bit value made of four bytes, lowest first.
pub open spec fn u32_of(b0: u8, b1: u8, b2: u8, b3: u8) -> u32 {
    (b0 as u32) | ((b1 as u32) << 8) | ((b2 as u32) << 16) | ((b3 as u32) << 24)
}

/// The 32-bit little-endian value at offset `at` of `b`.
pub open spec fn u32_at(b: Seq<u8>, at: int) -> u32 {
    u32_of(b[at], b[at + 1], b[at + 2], b[at + 3])
}

/// The two's-complement bit pattern of `x`.
pub open spec fn i16_bits(x: i16) -> u16 {
    if x >= 0 {
        x as u16
    } else {
        (x + 0x1_0000) as u16
    }
}

/// The signed value of the two's-complement bit pattern `u`.
pub open spec fn i16_of_bits(u: u16) -> i16 {
    if u < 0x8000 {
        u as i16
    } else {
        (u - 0x1_0000) as i16
    }
}

/// A sequence of 32-bit words laid out one after the other, each low byte
/// first.
pub open spec fn u32s_wire(s: Seq<u32>) -> Seq<u8> {
    Seq::new(4 * s.len(), |i: int| u32_byte(s[i / 4], i % 4))
}

/// Splitting a 16-bit value into bytes and joining them gives it back.
pub proof fn lemma_u16_round_trip(x: u16)
    ensures
        u16_of((x & 0xff) as u8, (x >> 8) as u8) == x,
        u16_at(u16_wire(x), 0) == x,
{
    assert(((x & 0xff) as u8 as u16) | (((x >> 8) as u8 as u16) << 8) == x) by (bit_vector);
}

/// Splitting a 32-bit value into bytes and joining them gives it back.
pub proof fn lemma_u32_round_trip(x: u32)
    ensures
        u32_of(u32_byte(x, 0), u32_byte(x, 1), u32_byte(x, 2), u32_byte(x, 3)) == x,
        u32_at(u32_wire(x), 0) == x,
{
    assert((((x & 0xff) as u8 as u32) | ((((x >> 8) & 0xff) as u8 as u32) << 8) | ((((x >> 16)
        & 0xff) as u8 as u32) << 16) | (((x >> 24) as u8 as u32) << 24)) == x) by (bit_vector);
}

/// A signed 16-bit value survives the passage through its bit pattern.
pub proof fn lemma_i16_round_trip(x: i16)
    ensures
        i16_of_bits(i16_bits(x)) == x,
{
}

/// Low byte of a 16-bit value.
pub fn lo8(x: u16) -> (r: u8)
    ensures
        r == (x & 0xff) as u8,
{
    assert(x & 0xff <= 0xff) by (bit_vector);
    (x & 0xff) as u8
}

/// High byte of a 16-bit value.
pub fn hi8(x: u16) -> (r: u8)
    ensures
        r == (x >> 8) as u8,
{
    assert(x >> 8 <= 0xff) by (bit_vector);
    (x >> 8) as u8
}

/// Joins two bytes, low byte first.
pub fn join16(lo: u8, hi: u8) -> (r: u16)
    ensures
        r == u16_of(lo, hi),
{
    (lo as u16) | ((hi as u16) << 8)
}

/// Appends `x`, low byte first.
pub fn push_u16(buf: &mut Vec<u8>, x: u16)
    ensures
        final(buf)@ == old(buf)@ + u16_wire(x),
{
    buf.push(lo8(x));
    buf.push(hi8(x));
    assert(buf@ =~= old(buf)@ + u16_wire(x));
}

/// Appends `x`, low byte first.
pub fn push_u32(buf: &mut Vec<u8>, x: u32)
    ensures
        final(buf)@ == old(buf)@ + u32_wire(x),
{
    assert(x & 0xff <= 0xff && (x >> 8) & 0xff <= 0xff && (x >> 16) & 0xff <= 0xff && (x >> 24)
        <= 0xff) by (bit_vector);
    buf.push((x & 0xff) as u8);
    buf.push(((x >> 8) & 0xff) as u8);
    buf.push(((x >> 16) & 0xff) as u8);
    buf.push((x >> 24) as u8);
    assert(buf@ =~= old(buf)@ + u32_wire(x));
}

/// Reads the 16-bit little-endian value at `at`.
pub fn read_u16(bytes: &[u8], at: usize) -> (r: u16)
    requires
        at + 2 <= bytes@.len(),
    ensures
        r == u16_at(bytes@, at as int),
{
    join16(bytes[at], bytes[at + 1])
}

/// Reads the 32-bit little-endian value at `at`.
pub fn read_u32(bytes: &[u8], at: usize) -> (r: u32)
    requires
        at + 4 <= bytes@.len(),
    ensures
        r == u32_at(bytes@, at as int),
{
    (bytes[at] as u32) | ((bytes[at + 1] as u32) << 8) | ((bytes[at + 2] as u32) << 16) | ((
    bytes[at + 3] as u32) << 24)
}

/// The bit pattern of a signed 16-bit value.
pub fn bits_of_i16(x: i16) -> (r: u16)
    ensures
        r == i16_bits(x),
{
    if x >= 0 {
        x as u16
    } else {
        ((x as i32) + 0x1_0000) as u16
    }
}

/// The signed 16-bit value of a bit pattern.
pub fn i16_from_bits(u: u16) -> (r: i16)
    ensures
        r == i16_of_bits(u),
{
    if u < 0x8000 {
        u as i16
    } else {
        ((u as i32) - 0x1_0000) as i16
    }
}

/// Appends the words of `words`, each low byte first.
pub fn push_u32s(buf: &mut Vec<u8>, words: &[u32])
    ensures
        final(buf)@ == old(buf)@ + u32s_wire(words@),
{
    let mut k: usize = 0;
    while k < words.len()
        invariant
            k <= words@.len(),
            buf@ == old(buf)@ + u32s_wire(words@.take(k as int)),
        decreases words@.len() - k,
    {
        let ghost before = buf@;
        push_u32(buf, words[k]);
        assert(buf@ =~= old(buf)@ + u32s_wire(words@.take(k + 1))) by {
            let a = before + u32_wire(words@[k as int]);
            let b = old(buf)@ + u32s_wire(words@.take(k + 1));
            assert(a.len() == b.len());
            assert forall|i: int| 0 <= i < a.len() implies a[i] == b[i] by {
                let base = old(buf)@.len();
                if i >= base + 4 * k {
                    let j = i - base;
                    assert(j / 4 == k && j % 4 == j - 4 * k);
                } else if i >= base {
                    let j = i - base;
                    assert(j / 4 < k);
                    assert(u32s_wire(words@.take(k as int))[j] == u32s_wire(
                        words@.take(k + 1),
                    )[j]);
                }
            }
        }
        k += 1;
    }
    assert(words@.take(k as int) =~= words@);
}

/// Reads `N` consecutive 32-bit little-endian words starting at `at`.
pub fn read_u32s<const N: usize>(bytes: &[u8], at: usize) -> (r: [u32; N])
    requires
        at + 4 * N <= bytes@.len(),
    ensures
        forall|k: int| 0 <= k < N ==> r@[k] == u32_at(bytes@, at + 4 * k),
{
    let mut out = [0u32;N];
    let len = bytes.len();
    let mut k: usize = 0;
    while k < N
        invariant
            k <= N,
            at + 4 * N <= len == bytes@.len(),
            forall|m: int| 0 <= m < k ==> out@[m] == u32_at(bytes@, at + 4 * m),
        decreases N - k,
    {
        out[k] = read_u32(bytes, at + 4 * k);
        k += 1;
    }
    out
}

/// Reading the words back out of their layout, wherever it stands in a longer
/// sequence, gives the words.
pub proof fn lemma_u32s_round_trip(pre: Seq<u8>, s: Seq<u32>, post: Seq<u8>, k: int)
    requires
        0 <= k < s.len(),
    ensures
        u32_at(pre + u32s_wire(s) + post, pre.len() + 4 * k) == s[k],
{
    let all = pre + u32s_wire(s) + post;
    let at = pre.len() + 4 * k;
    assert forall|j: int| 0 <= j < 4 implies all[at + j] == u32_byte(s[k], j) by {
        let i = 4 * k + j;
        assert(i / 4 == k && i % 4 == j);
        assert(all[at + j] == u32s_wire(s)[i]);
    }
    lemma_u32_round_trip(s[k]);
}

/// Serialization of a payload into its exact wire bytes.
pub trait Serialize {
    /// The wire bytes of this value.
    spec fn wire(&self) -> Seq<u8>;

    /// Appends the wire bytes of this value to `buf`.
    fn serialize(&self, buf: &mut Vec<u8>)
        ensures
            final(buf)@ == old(buf)@ + self.wire(),
    ;
}

/// Parsing of a payload from the front of a byte sequence.
pub trait Parse: Sized {
    /// The error with which parsing the front of `bytes` fails, if it fails.
    spec fn parse_failure(bytes: Seq<u8>) -> Option<Error>;

    /// How many bytes a successful parse of the front of `bytes` takes.
    spec fn parse_len(bytes: Seq<u8>) -> int;

    /// Whether `self` is the value that the front of `bytes` holds.
    spec fn is_parse_of(&self, bytes: Seq<u8>) -> bool;

    /// Parses one value from the front of `bytes` and moves `bytes` past it.
    /// On failure `bytes` is left where it was.
    fn parse(bytes: &mut &[u8]) -> (r: Result<Self, Error>)
        ensures
            match r {
                Ok(v) => Self::parse_failure(old(bytes)@) is None && v.is_parse_of(old(bytes)@)
                    && 0 <= Self::parse_len(old(bytes)@) <= old(bytes)@.len() && final(bytes)@
                    == old(bytes)@.skip(Self::parse_len(old(bytes)@)),
                Err(e) => Self::parse_failure(old(bytes)@) == Some(e) && final(bytes)@ == old(
                    bytes,
                )@,
            },
    ;
}

/// Appends the bytes of `data`.
pub fn push_bytes(buf: &mut Vec<u8>, data: &[u8])
    ensures
        final(buf)@ == old(buf)@ + data@,
{
    let mut k: usize = 0;
    while k < data.len()
        invariant
            k <= data@.len(),
            buf@ =~= old(buf)@ + data@.take(k as int),
        decreases data@.len() - k,
    {
        buf.push(data[k]);
        k += 1;
    }
    assert(data@.take(k as int) =~= data@);
}

/// Reads the first `n` bytes at `at` into the front of an array and leaves
/// the rest of the array zero.
pub fn read_bytes<const N: usize>(bytes: &[u8], at: usize, n: usize) -> (r: [u8; N])
    requires
        n <= N,
        at + n <= bytes@.len(),
    ensures
        forall|k: int| 0 <= k < n ==> r@[k] == bytes@[at + k],
        forall|k: int| n <= k < N ==> r@[k] == 0,
{
    let mut out = [0u8;N];
    let len = bytes.len();
    let mut k: usize = 0;
    while k < n
        invariant
            k <= n <= N,
            at + n <= len == bytes@.len(),
            forall|m: int| 0 <= m < k ==> out@[m] == bytes@[at + m],
        decreases n - k,
    {
        out[k] = bytes[at + k];
        k += 1;
    }
    while k < N
        invariant
            n <= k <= N,
            forall|m: int| 0 <= m < n ==> out@[m] == bytes@[at + m],
            forall|m: int| n <= m < k ==> out@[m] == 0,
        decreases N - k,
    {
        out[k] = 0;
        k += 1;
    }
    out
}

/// Moves `bytes` forward by `n`.
pub fn advance(bytes: &mut &[u8], n: usize)
    requires
        n <= old(bytes)@.len(),
    ensures
        final(bytes)@ == old(bytes)@.skip(n as int),
{
    let len = bytes.len();
    *bytes = vstd::slice::slice_subrange(*bytes, n, len);
}

} // verus!
