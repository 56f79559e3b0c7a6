//! SLIP framing: escaping of the frame delimiter inside a frame body.

use vstd::prelude::*;

verus! {

/// Frame delimiter.
pub const SLIP_FRAME_END: u8 = 0xc0;

/// Escape introducer.
pub const SLIP_FRAME_ESC: u8 = 0xdb;

/// Second byte of an escaped delimiter.
pub const SLIP_FRAME_ESC_END: u8 = 0xdc;

/// Second byte of an escaped escape introducer.
pub const SLIP_FRAME_ESC_ESC: u8 = 0xdd;

#[derive(Clone, Copy, Debug, PartialEq, Eq, Structural)]
pub enum SlipDecodeError {
    /// Two escape introducers in a row.
    DoubleEsc,
    /// An escape introducer followed by a byte that completes no escape.
    InvalidEsc,
    /// The frame body ends right after an escape introducer.
    TrailingEsc,
}

#[derive(Clone, Copy, Debug, PartialEq, Eq, Structural)]
pub enum SlipEncodeError {
    /// The output buffer is shorter than the encoded frame.
    NotEnoughCapacity,
}

/// The bytes that stand for one data byte inside a frame body.
pub open spec fn escape_byte(b: u8) -> Seq<u8> {
    if b == SLIP_FRAME_END {
        seq![SLIP_FRAME_ESC, SLIP_FRAME_ESC_END]
    } else if b == SLIP_FRAME_ESC {
        seq![SLIP_FRAME_ESC, SLIP_FRAME_ESC_ESC]
    } else {
        seq![b]
    }
}

/// The escaped form of `data`: each byte replaced by `escape_byte` of it.
pub open spec fn escaped(data: Seq<u8>) -> Seq<u8>
    decreases data.len(),
{
    if data.len() == 0 {
        Seq::empty()
    } else {
        escaped(data.drop_last()) + escape_byte(data.last())
    }
}

/// A whole encoded frame: the escaped data and one trailing delimiter.
pub open spec fn slip_frame(data: Seq<u8>) -> Seq<u8> {
    escaped(data).push(SLIP_FRAME_END)
}

/// One step of the unescaping automaton. The state is the output so far and
/// whether an escape introducer is pending; an error, once met, stays.
pub open spec fn unescape_step(
    st: Result<(Seq<u8>, bool), SlipDecodeError>,
    b: u8,
) -> Result<(Seq<u8>, bool), SlipDecodeError> {
    match st {
        Err(e) => Err(e),
        Ok((out, esc)) => {
            if b == SLIP_FRAME_ESC {
                if esc {
                    Err(SlipDecodeError::DoubleEsc)
                } else {
                    Ok((out, true))
                }
            } else if esc {
                if b == SLIP_FRAME_ESC_END {
                    Ok((out.push(SLIP_FRAME_END), false))
                } else if b == SLIP_FRAME_ESC_ESC {
                    Ok((out.push(SLIP_FRAME_ESC), false))
                } else {
                    Err(SlipDecodeError::InvalidEsc)
                }
            } else {
                Ok((out.push(b), false))
            }
        },
    }
}

/// The automaton's state after it has read all of `body`, left to right.
pub open spec fn unescape_scan(body: Seq<u8>) -> Result<(Seq<u8>, bool), SlipDecodeError>
    decreases body.len(),
{
    if body.len() == 0 {
        Ok((Seq::empty(), false))
    } else {
        unescape_step(unescape_scan(body.drop_last()), body.last())
    }
}

/// What a frame body decodes to: the first error met, or the unescaped bytes.
pub open spec fn unescaped(body: Seq<u8>) -> Result<Seq<u8>, SlipDecodeError> {
    match unescape_scan(body) {
        Err(e) => Err(e),
        Ok((out, esc)) => if esc {
            Err(SlipDecodeError::TrailingEsc)
        } else {
            Ok(out)
        },
    }
}

/// An error met in a prefix of the body is the error of the whole body.
proof fn lemma_scan_error_sticks(body: Seq<u8>, n: int, e: SlipDecodeError)
    requires
        0 <= n <= body.len(),
        unescape_scan(body.take(n)) == Err::<(Seq<u8>, bool), SlipDecodeError>(e),
    ensures
        unescape_scan(body) == Err::<(Seq<u8>, bool), SlipDecodeError>(e),
    decreases body.len() - n,
{
    if n == body.len() {
        assert(body.take(n) =~= body);
    } else {
        assert(body.take(n + 1).drop_last() =~= body.take(n));
        lemma_scan_error_sticks(body, n + 1, e);
    }
}

/// Unescapes one frame body in place (the delimiters already stripped) and
/// returns the length of the decoded data, which then stands at the front of
/// `buf`.
pub fn decode_slip_frame(buf: &mut [u8]) -> (res: Result<usize, SlipDecodeError>)
    ensures
        final(buf)@.len() == old(buf)@.len(),
        match res {
            Ok(n) => n <= old(buf)@.len()
                && unescaped(old(buf)@) == Ok::<Seq<u8>, SlipDecodeError>(final(buf)@.take(n as int))
                && final(buf)@.skip(n as int) == old(buf)@.skip(n as int),
            Err(e) => unescaped(old(buf)@) == Err::<Seq<u8>, SlipDecodeError>(e),
        },
{
    let ghost orig = buf@;
    let len = buf.len();
    let mut j: usize = 0;
    let mut esc = false;
    let mut i: usize = 0;
    while i < len
        invariant
            len == orig.len(),
            buf@.len() == orig.len(),
            j <= i <= len,
            orig == old(buf)@,
            unescape_scan(orig.take(i as int)) matches Ok((o, e)) && e == esc && o =~= buf@.take(
                j as int,
            ),
            forall|k: int| j <= k < len ==> buf@[k] == orig[k],
        decreases len - i,
    {
        let b = buf[i];
        proof {
            assert(orig.take(i + 1).drop_last() =~= orig.take(i as int));
            assert(orig.take(i + 1).last() == b);
        }
        let ghost before = buf@;
        if b == SLIP_FRAME_ESC {
            if esc {
                proof {
                    lemma_scan_error_sticks(orig, i + 1, SlipDecodeError::DoubleEsc);
                }
                return Err(SlipDecodeError::DoubleEsc);
            }
            esc = true;
        } else if esc {
            if b == SLIP_FRAME_ESC_END {
                buf[j] = SLIP_FRAME_END;
            } else if b == SLIP_FRAME_ESC_ESC {
                buf[j] = SLIP_FRAME_ESC;
            } else {
                proof {
                    lemma_scan_error_sticks(orig, i + 1, SlipDecodeError::InvalidEsc);
                }
                return Err(SlipDecodeError::InvalidEsc);
            }
            assert(buf@.take(j + 1) =~= before.take(j as int).push(buf@[j as int]));
            j += 1;
            esc = false;
        } else {
            buf[j] = b;
            assert(buf@.take(j + 1) =~= before.take(j as int).push(b));
            j += 1;
        }
        i += 1;
    }
    proof {
        assert(orig.take(len as int) =~= orig);
        assert(buf@.skip(j as int) =~= orig.skip(j as int));
    }
    if esc {
        return Err(SlipDecodeError::TrailingEsc);
    }
    Ok(j)
}

/// The escaped form of a prefix is no longer than that of the whole.
proof fn lemma_escaped_prefix_len(data: Seq<u8>, n: int)
    requires
        0 <= n <= data.len(),
    ensures
        escaped(data.take(n)).len() <= escaped(data).len(),
    decreases data.len() - n,
{
    if n == data.len() {
        assert(data.take(n) =~= data);
    } else {
        assert(data.take(n + 1).drop_last() =~= data.take(n));
        lemma_escaped_prefix_len(data, n + 1);
    }
}

/// Writes the frame of `data` to the front of `out`: the escaped bytes and one
/// trailing delimiter, no leading one. Returns the written part of `out`.
pub fn encode_slip_frame<'a>(data: &[u8], out: &'a mut [u8]) -> (res: Result<
    &'a [u8],
    SlipEncodeError,
>)
    ensures
        final(out)@.len() == old(out)@.len(),
        res is Ok <==> slip_frame(data@).len() <= old(out)@.len(),
        match res {
            Ok(frame) => frame@ == slip_frame(data@) && final(out)@.take(frame@.len() as int)
                == frame@ && final(out)@.skip(frame@.len() as int) == old(out)@.skip(
                frame@.len() as int,
            ),
            Err(e) => e == SlipEncodeError::NotEnoughCapacity,
        },
{
    let cap = out.len();
    let mut i: usize = 0;
    let mut k: usize = 0;
    while k < data.len()
        invariant
            cap == old(out)@.len(),
            out@.len() == cap,
            k <= data@.len(),
            i <= cap,
            out@.take(i as int) =~= escaped(data@.take(k as int)),
            forall|m: int| i <= m < cap ==> out@[m] == old(out)@[m],
        decreases data@.len() - k,
    {
        let b = data[k];
        let ghost before = out@;
        proof {
            assert(data@.take(k + 1).drop_last() =~= data@.take(k as int));
            lemma_escaped_prefix_len(data@, k + 1);
        }
        if b == SLIP_FRAME_END || b == SLIP_FRAME_ESC {
            if cap - i < 2 {
                return Err(SlipEncodeError::NotEnoughCapacity);
            }
            out[i] = SLIP_FRAME_ESC;
            out[i + 1] = if b == SLIP_FRAME_END {
                SLIP_FRAME_ESC_END
            } else {
                SLIP_FRAME_ESC_ESC
            };
            assert(out@.take(i + 2) =~= before.take(i as int) + escape_byte(b));
            i += 2;
        } else {
            if cap - i < 1 {
                return Err(SlipEncodeError::NotEnoughCapacity);
            }
            out[i] = b;
            assert(out@.take(i + 1) =~= before.take(i as int) + escape_byte(b));
            i += 1;
        }
        k += 1;
    }
    proof {
        assert(data@.take(k as int) =~= data@);
    }
    if cap - i < 1 {
        return Err(SlipEncodeError::NotEnoughCapacity);
    }
    let ghost before = out@;
    out[i] = SLIP_FRAME_END;
    proof {
        assert(out@.take(i + 1) =~= slip_frame(data@));
        assert(out@.skip(i + 1) =~= old(out)@.skip(i + 1));
    }
    Ok(vstd::slice::slice_subrange(out, 0, i + 1))
}

/// Reading the escaped form of one byte takes the automaton from a clean
/// state to the clean state with that byte appended.
proof fn lemma_scan_escape_byte(body: Seq<u8>, out: Seq<u8>, b: u8)
    requires
        unescape_scan(body) == Ok::<(Seq<u8>, bool), SlipDecodeError>((out, false)),
    ensures
        unescape_scan(body + escape_byte(b)) == Ok::<(Seq<u8>, bool), SlipDecodeError>(
            (out.push(b), false),
        ),
{
    let e = escape_byte(b);
    let whole = body + e;
    if b == SLIP_FRAME_END || b == SLIP_FRAME_ESC {
        let mid = body.push(SLIP_FRAME_ESC);
        assert(whole.drop_last() =~= mid);
        assert(mid.drop_last() =~= body);
        assert(unescape_scan(mid) == unescape_step(unescape_scan(body), SLIP_FRAME_ESC));
        assert(unescape_scan(whole) == unescape_step(unescape_scan(mid), e[1]));
    } else {
        assert(whole.drop_last() =~= body);
        assert(unescape_scan(whole) == unescape_step(unescape_scan(body), b));
    }
}

/// Decoding inverts encoding: the escaped form of any data, delimiter and
/// escape bytes included, unescapes to exactly that data.
pub proof fn lemma_unescape_inverts_escape(data: Seq<u8>)
    ensures
        unescape_scan(escaped(data)) == Ok::<(Seq<u8>, bool), SlipDecodeError>((data, false)),
        unescaped(escaped(data)) == Ok::<Seq<u8>, SlipDecodeError>(data),
        unescaped(slip_frame(data).drop_last()) == Ok::<Seq<u8>, SlipDecodeError>(data),
    decreases data.len(),
{
    if data.len() == 0 {
        assert(data =~= Seq::<u8>::empty());
    } else {
        lemma_unescape_inverts_escape(data.drop_last());
        lemma_scan_escape_byte(escaped(data.drop_last()), data.drop_last(), data.last());
        assert(data.drop_last().push(data.last()) =~= data);
    }
    assert(slip_frame(data).drop_last() =~= escaped(data));
}

/// The delimiter never occurs inside an escaped body, so the first delimiter
/// of a frame is its last byte.
pub proof fn lemma_escaped_has_no_delimiter(data: Seq<u8>)
    ensures
        forall|i: int| 0 <= i < escaped(data).len() ==> escaped(data)[i] != SLIP_FRAME_END,
        data.len() <= escaped(data).len() <= 2 * data.len(),
    decreases data.len(),
{
    if data.len() > 0 {
        lemma_escaped_has_no_delimiter(data.drop_last());
    }
}

/// Escaping loses nothing: two sequences with the same escaped form are the
/// same sequence.
pub proof fn lemma_escape_is_injective(a: Seq<u8>, b: Seq<u8>)
    requires
        escaped(a) == escaped(b),
    ensures
        a == b,
{
    lemma_unescape_inverts_escape(a);
    lemma_unescape_inverts_escape(b);
}

/// The three ways in which a body fails to decode. After a prefix that
/// leaves no escape pending: an escape introducer at the very end is a
/// trailing escape; two introducers in a row are a double escape; an
/// introducer before a byte that completes no escape is an invalid escape.
/// In the last two cases it does not matter what follows.
pub proof fn lemma_decode_failures(clean: Seq<u8>, out: Seq<u8>, next: u8, rest: Seq<u8>)
    requires
        unescape_scan(clean) == Ok::<(Seq<u8>, bool), SlipDecodeError>((out, false)),
    ensures
        unescaped(clean.push(SLIP_FRAME_ESC)) == Err::<Seq<u8>, SlipDecodeError>(
            SlipDecodeError::TrailingEsc,
        ),
        unescaped(clean.push(SLIP_FRAME_ESC).push(SLIP_FRAME_ESC) + rest) == Err::<
            Seq<u8>,
            SlipDecodeError,
        >(SlipDecodeError::DoubleEsc),
        next != SLIP_FRAME_ESC && next != SLIP_FRAME_ESC_END && next != SLIP_FRAME_ESC_ESC
            ==> unescaped(clean.push(SLIP_FRAME_ESC).push(next) + rest) == Err::<
            Seq<u8>,
            SlipDecodeError,
        >(SlipDecodeError::InvalidEsc),
{
    let pending = clean.push(SLIP_FRAME_ESC);
    assert(pending.drop_last() =~= clean);
    assert(unescape_scan(pending) == Ok::<(Seq<u8>, bool), SlipDecodeError>((out, true)));
    let double = pending.push(SLIP_FRAME_ESC);
    assert(double.drop_last() =~= pending);
    assert((double + rest).take(double.len() as int) =~= double);
    lemma_scan_error_sticks(double + rest, double.len() as int, SlipDecodeError::DoubleEsc);
    if next != SLIP_FRAME_ESC && next != SLIP_FRAME_ESC_END && next != SLIP_FRAME_ESC_ESC {
        let invalid = pending.push(next);
        assert(invalid.drop_last() =~= pending);
        assert((invalid + rest).take(invalid.len() as int) =~= invalid);
        lemma_scan_error_sticks(
            invalid + rest,
            invalid.len() as int,
            SlipDecodeError::InvalidEsc,
        );
    }
}

} // verus!
