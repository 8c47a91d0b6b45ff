//! Line framing: adapts a push-based raw-byte feed into discrete,
//! decoded line events.
//!
//! Bytes arrive in arbitrary chunks. Every newline-terminated segment is
//! taken in order, a trailing carriage return is stripped, and the
//! segment is decoded as UTF-8; a segment that fails to decode is
//! silently dropped. Bytes after the last newline stay buffered until a
//! newline arrives.

use vstd::prelude::*;
use vstd::utf8::{decode_utf8, valid_utf8};

use crate::mailbox::mailbox_send;

verus! {

/// The newline-terminated segments (without their terminators) found when
/// the bytes of `s` are appended one by one to the pending buffer `p`.
pub open spec fn frame_from(p: Seq<u8>, s: Seq<u8>) -> Seq<Seq<u8>>
    decreases s.len(),
{
    if s.len() == 0 {
        Seq::<Seq<u8>>::empty()
    } else if s[0] == 10u8 {
        seq![p] + frame_from(Seq::<u8>::empty(), s.skip(1))
    } else {
        frame_from(p.push(s[0]), s.skip(1))
    }
}

/// The pending (not yet newline-terminated) bytes left after the bytes of
/// `s` are appended to the pending buffer `p`.
pub open spec fn rest_from(p: Seq<u8>, s: Seq<u8>) -> Seq<u8>
    decreases s.len(),
{
    if s.len() == 0 {
        p
    } else if s[0] == 10u8 {
        rest_from(Seq::<u8>::empty(), s.skip(1))
    } else {
        rest_from(p.push(s[0]), s.skip(1))
    }
}

/// A segment with one trailing carriage return removed, if present.
pub open spec fn strip_cr(seg: Seq<u8>) -> Seq<u8> {
    if seg.len() > 0 && seg.last() == 13u8 {
        seg.drop_last()
    } else {
        seg
    }
}

/// The line events emitted for the given segments, in order: each
/// segment's decoding after carriage-return stripping, with the segments
/// that fail to decode silently dropped.
pub open spec fn decoded_lines(segs: Seq<Seq<u8>>) -> Seq<Seq<char>>
    decreases segs.len(),
{
    if segs.len() == 0 {
        Seq::<Seq<char>>::empty()
    } else if valid_utf8(strip_cr(segs[0])) {
        seq![decode_utf8(strip_cr(segs[0]))] + decoded_lines(segs.skip(1))
    } else {
        decoded_lines(segs.skip(1))
    }
}

/// The line events emitted when the bytes of `s` arrive on a framer whose
/// pending buffer holds `p`.
pub open spec fn lines_from(p: Seq<u8>, s: Seq<u8>) -> Seq<Seq<char>> {
    decoded_lines(frame_from(p, s))
}

/// Extending the arriving bytes by one byte either closes the pending
/// segment (on a newline) or grows it.
proof fn lemma_frame_from_snoc(p: Seq<u8>, s: Seq<u8>, b: u8)
    ensures
        frame_from(p, s.push(b)) == if b == 10u8 {
            frame_from(p, s).push(rest_from(p, s))
        } else {
            frame_from(p, s)
        },
        rest_from(p, s.push(b)) == if b == 10u8 {
            Seq::<u8>::empty()
        } else {
            rest_from(p, s).push(b)
        },
    decreases s.len(),
{
    reveal_with_fuel(frame_from, 2);
    reveal_with_fuel(rest_from, 2);
    if s.len() == 0 {
        assert(s.push(b).skip(1) =~= Seq::<u8>::empty());
        if b == 10u8 {
            assert(seq![p] + frame_from(Seq::<u8>::empty(), s.push(b).skip(1))
                =~= frame_from(p, s).push(p));
        }
    } else {
        assert(s.push(b).skip(1) =~= s.skip(1).push(b));
        if s[0] == 10u8 {
            lemma_frame_from_snoc(Seq::<u8>::empty(), s.skip(1), b);
            if b == 10u8 {
                assert(seq![p] + frame_from(Seq::<u8>::empty(), s.skip(1)).push(
                    rest_from(Seq::<u8>::empty(), s.skip(1)),
                ) =~= frame_from(p, s).push(rest_from(p, s)));
            }
        } else {
            lemma_frame_from_snoc(p.push(s[0]), s.skip(1), b);
        }
    }
}

/// One more segment at the end contributes its own decoding, or nothing
/// when it fails to decode.
proof fn lemma_decoded_lines_snoc(segs: Seq<Seq<u8>>, seg: Seq<u8>)
    ensures
        decoded_lines(segs.push(seg)) == if valid_utf8(strip_cr(seg)) {
            decoded_lines(segs).push(decode_utf8(strip_cr(seg)))
        } else {
            decoded_lines(segs)
        },
    decreases segs.len(),
{
    reveal_with_fuel(decoded_lines, 2);
    if segs.len() == 0 {
        assert(segs.push(seg).skip(1) =~= Seq::<Seq<u8>>::empty());
        if valid_utf8(strip_cr(seg)) {
            assert(seq![decode_utf8(strip_cr(seg))] + decoded_lines(Seq::<Seq<u8>>::empty())
                =~= decoded_lines(segs).push(decode_utf8(strip_cr(seg))));
        }
    } else {
        assert(segs.push(seg).skip(1) =~= segs.skip(1).push(seg));
        lemma_decoded_lines_snoc(segs.skip(1), seg);
        if valid_utf8(strip_cr(segs[0])) && valid_utf8(strip_cr(seg)) {
            let c0 = decode_utf8(strip_cr(segs[0]));
            let cs = decode_utf8(strip_cr(seg));
            assert(seq![c0] + decoded_lines(segs.skip(1)).push(cs)
                =~= decoded_lines(segs).push(cs));
        }
    }
}

/// Framing is independent of chunk boundaries: feeding `a` then `b`
/// frames the same segments as feeding `a + b` at once, and leaves the
/// same pending bytes.
pub proof fn lemma_frame_from_concat(p: Seq<u8>, a: Seq<u8>, b: Seq<u8>)
    ensures
        frame_from(p, a + b) == frame_from(p, a) + frame_from(rest_from(p, a), b),
        rest_from(p, a + b) == rest_from(rest_from(p, a), b),
    decreases a.len(),
{
    if a.len() == 0 {
        assert(a + b =~= b);
        assert(frame_from(p, a) + frame_from(rest_from(p, a), b)
            =~= frame_from(p, b));
    } else {
        assert((a + b).skip(1) =~= a.skip(1) + b);
        if a[0] == 10u8 {
            lemma_frame_from_concat(Seq::<u8>::empty(), a.skip(1), b);
            assert(seq![p] + (frame_from(Seq::<u8>::empty(), a.skip(1))
                + frame_from(rest_from(Seq::<u8>::empty(), a.skip(1)), b))
                =~= frame_from(p, a) + frame_from(rest_from(p, a), b));
        } else {
            lemma_frame_from_concat(p.push(a[0]), a.skip(1), b);
        }
    }
}

/// The events for segments `a` followed by segments `b` are the events
/// for `a` followed by the events for `b`.
pub proof fn lemma_decoded_lines_concat(a: Seq<Seq<u8>>, b: Seq<Seq<u8>>)
    ensures
        decoded_lines(a + b) == decoded_lines(a) + decoded_lines(b),
    decreases a.len(),
{
    if a.len() == 0 {
        assert(a + b =~= b);
        assert(decoded_lines(a) + decoded_lines(b) =~= decoded_lines(b));
    } else {
        assert((a + b).skip(1) =~= a.skip(1) + b);
        lemma_decoded_lines_concat(a.skip(1), b);
        if valid_utf8(strip_cr(a[0])) {
            let cs = decode_utf8(strip_cr(a[0]));
            assert(seq![cs] + (decoded_lines(a.skip(1)) + decoded_lines(b))
                =~= decoded_lines(a) + decoded_lines(b));
        }
    }
}

/// Chunking is irrelevant to the emitted events: feeding `a` then `b`
/// emits the events of `a` and then those of `b` over the carried-over
/// pending bytes, exactly as feeding `a + b` at once would.
pub proof fn lemma_chunking_irrelevant(p: Seq<u8>, a: Seq<u8>, b: Seq<u8>)
    ensures
        lines_from(p, a + b) == lines_from(p, a) + lines_from(rest_from(p, a), b),
        rest_from(p, a + b) == rest_from(rest_from(p, a), b),
{
    lemma_frame_from_concat(p, a, b);
    lemma_decoded_lines_concat(frame_from(p, a), frame_from(rest_from(p, a), b));
}

/// When every segment decodes, exactly one event is emitted per segment,
/// in order, each the decoding of its segment with the carriage return
/// stripped.
pub proof fn lemma_all_valid_segments_emit(segs: Seq<Seq<u8>>)
    requires
        forall|j: int| 0 <= j < segs.len() ==> #[trigger] valid_utf8(strip_cr(segs[j])),
    ensures
        decoded_lines(segs).len() == segs.len(),
        forall|j: int| 0 <= j < segs.len()
            ==> #[trigger] decoded_lines(segs)[j] == decode_utf8(strip_cr(segs[j])),
    decreases segs.len(),
{
    if segs.len() > 0 {
        assert(valid_utf8(strip_cr(segs[0])));
        lemma_all_valid_segments_emit(segs.skip(1));
        let cs = decode_utf8(strip_cr(segs[0]));
        assert(decoded_lines(segs) == seq![cs] + decoded_lines(segs.skip(1)));
        assert forall|j: int| 0 <= j < segs.len()
            implies #[trigger] decoded_lines(segs)[j] == decode_utf8(strip_cr(segs[j])) by {
            if j > 0 {
                assert(decoded_lines(segs)[j] == decoded_lines(segs.skip(1))[j - 1]);
                assert(segs.skip(1)[j - 1] == segs[j]);
            }
        }
    }
}

/// A segment that fails UTF-8 decoding yields no event, and the segments
/// after it still emit their events.
pub proof fn lemma_invalid_segment_dropped(a: Seq<Seq<u8>>, seg: Seq<u8>, b: Seq<Seq<u8>>)
    requires
        !valid_utf8(strip_cr(seg)),
    ensures
        decoded_lines(a + seq![seg] + b) == decoded_lines(a) + decoded_lines(b),
{
    reveal_with_fuel(decoded_lines, 2);
    lemma_decoded_lines_concat(a + seq![seg], b);
    lemma_decoded_lines_concat(a, seq![seg]);
    assert(seq![seg].skip(1) =~= Seq::<Seq<u8>>::empty());
    assert(decoded_lines(seq![seg]) =~= Seq::<Seq<char>>::empty());
    assert(decoded_lines(a) + decoded_lines(seq![seg]) =~= decoded_lines(a));
}

/// The concatenation of a run of chunks.
pub open spec fn concat_chunks(chunks: Seq<Seq<u8>>) -> Seq<u8>
    decreases chunks.len(),
{
    if chunks.len() == 0 {
        Seq::<u8>::empty()
    } else {
        chunks[0] + concat_chunks(chunks.skip(1))
    }
}

/// The line events emitted when the chunks arrive one call at a time on a
/// framer whose pending buffer holds `p`.
pub open spec fn emitted_over_chunks(p: Seq<u8>, chunks: Seq<Seq<u8>>) -> Seq<Seq<char>>
    decreases chunks.len(),
{
    if chunks.len() == 0 {
        Seq::<Seq<char>>::empty()
    } else {
        lines_from(p, chunks[0]) + emitted_over_chunks(rest_from(p, chunks[0]), chunks.skip(1))
    }
}

/// The pending bytes left after the chunks arrive one call at a time.
pub open spec fn rest_over_chunks(p: Seq<u8>, chunks: Seq<Seq<u8>>) -> Seq<u8>
    decreases chunks.len(),
{
    if chunks.len() == 0 {
        p
    } else {
        rest_over_chunks(rest_from(p, chunks[0]), chunks.skip(1))
    }
}

/// Feeding a byte stream chunk by chunk emits exactly the events of
/// feeding its whole concatenation at once, and leaves the same pending
/// bytes.
pub proof fn lemma_chunked_feed_equals_whole(p: Seq<u8>, chunks: Seq<Seq<u8>>)
    ensures
        emitted_over_chunks(p, chunks) == lines_from(p, concat_chunks(chunks)),
        rest_over_chunks(p, chunks) == rest_from(p, concat_chunks(chunks)),
    decreases chunks.len(),
{
    if chunks.len() == 0 {
        assert(frame_from(p, Seq::<u8>::empty()) =~= Seq::<Seq<u8>>::empty());
        assert(lines_from(p, concat_chunks(chunks)) =~= Seq::<Seq<char>>::empty());
    } else {
        lemma_chunked_feed_equals_whole(rest_from(p, chunks[0]), chunks.skip(1));
        lemma_chunking_irrelevant(p, chunks[0], concat_chunks(chunks.skip(1)));
    }
}

/// When every segment framed from the whole stream decodes as UTF-8,
/// feeding it in any chunking emits exactly one event per segment, in
/// order, each the decoding of its segment with the carriage return
/// stripped.
pub proof fn lemma_valid_stream_emits_all(chunks: Seq<Seq<u8>>)
    requires
        forall|j: int|
            0 <= j < frame_from(Seq::<u8>::empty(), concat_chunks(chunks)).len()
                ==> #[trigger] valid_utf8(
                strip_cr(frame_from(Seq::<u8>::empty(), concat_chunks(chunks))[j]),
            ),
    ensures
        emitted_over_chunks(Seq::<u8>::empty(), chunks).len() == frame_from(
            Seq::<u8>::empty(),
            concat_chunks(chunks),
        ).len(),
        forall|j: int|
            0 <= j < frame_from(Seq::<u8>::empty(), concat_chunks(chunks)).len()
                ==> #[trigger] emitted_over_chunks(Seq::<u8>::empty(), chunks)[j] == decode_utf8(
                strip_cr(frame_from(Seq::<u8>::empty(), concat_chunks(chunks))[j]),
            ),
{
    lemma_chunked_feed_equals_whole(Seq::<u8>::empty(), chunks);
    lemma_all_valid_segments_emit(frame_from(Seq::<u8>::empty(), concat_chunks(chunks)));
}

/// Relies on `String::from_utf8`: it returns the bytes decoded as UTF-8
/// text exactly when they are valid UTF-8, stated over vstd's UTF-8
/// specification — the same one vstd states `str::from_utf8_unchecked`
/// over.
#[verifier::external_body]
fn decode_segment(bytes: Vec<u8>) -> (r: Option<String>)
    ensures
        (r is Some) == valid_utf8(bytes@),
        r is Some ==> r->Some_0@ == decode_utf8(bytes@),
{
    match String::from_utf8(bytes) {
        Ok(text) => Some(text),
        Err(_) => None,
    }
}

/// The framer failed because the mailbox consumer has gone away; the
/// connection feeding it bytes must be torn down.
#[derive(Debug, PartialEq, Eq, Structural)]
pub enum FramerError {
    ConsumerGone,
}

/// Adapts push-based raw bytes into line events. The view is the pending
/// bytes: everything received after the last newline.
pub struct LineFramer {
    buf: Vec<u8>,
}

impl View for LineFramer {
    type V = Seq<u8>;

    closed spec fn view(&self) -> Seq<u8> {
        self.buf@
    }
}

impl LineFramer {
    /// A fresh framer holds no pending bytes.
    pub fn new() -> (r: LineFramer)
        ensures
            r@ == Seq::<u8>::empty(),
    {
        LineFramer { buf: Vec::new() }
    }

    /// Frames `chunk`: every newline-terminated segment completed by it is
    /// decoded (carriage return stripped, invalid UTF-8 dropped) and
    /// returned in order; the bytes after the last newline stay pending.
    pub fn take_lines(&mut self, chunk: &[u8]) -> (lines: Vec<String>)
        ensures
            final(self)@ == rest_from(old(self)@, chunk@),
            lines@.map_values(|l: String| l@) == lines_from(old(self)@, chunk@),
    {
        let ghost start = self.buf@;
        let mut lines: Vec<String> = Vec::new();
        proof {
            assert(chunk@.take(0) =~= Seq::<u8>::empty());
            assert(frame_from(start, Seq::<u8>::empty()) =~= Seq::<Seq<u8>>::empty());
            assert(lines@.map_values(|l: String| l@)
                =~= decoded_lines(frame_from(start, chunk@.take(0))));
        }
        let mut i: usize = 0;
        while i < chunk.len()
            invariant
                i <= chunk.len(),
                self.buf@ == rest_from(start, chunk@.take(i as int)),
                lines@.map_values(|l: String| l@) == lines_from(start, chunk@.take(i as int)),
            decreases chunk.len() - i,
        {
            let b: u8 = chunk[i];
            proof {
                assert(chunk@.take(i + 1) =~= chunk@.take(i as int).push(chunk@[i as int]));
                lemma_frame_from_snoc(start, chunk@.take(i as int), b);
            }
            if b == 10u8 {
                let mut seg: Vec<u8> = Vec::new();
                core::mem::swap(&mut seg, &mut self.buf);
                proof {
                    lemma_decoded_lines_snoc(frame_from(start, chunk@.take(i as int)), seg@);
                }
                if seg.len() > 0 && seg[seg.len() - 1] == 13u8 {
                    seg.pop();
                    proof {
                        assert(seg@ =~= strip_cr(rest_from(start, chunk@.take(i as int))));
                    }
                }
                match decode_segment(seg) {
                    Some(text) => {
                        let ghost before = lines@;
                        lines.push(text);
                        proof {
                            assert(lines@.map_values(|l: String| l@)
                                =~= before.map_values(|l: String| l@).push(text@));
                        }
                    },
                    None => {},
                }
            } else {
                self.buf.push(b);
            }
            i = i + 1;
        }
        proof {
            assert(chunk@.take(chunk@.len() as int) =~= chunk@);
        }
        lines
    }

    /// Frames `chunk`, then forwards each emitted line to the mailbox in
    /// order, returning how many were delivered. When the mailbox reports
    /// its consumer gone, delivery stops and the connection-closed error
    /// is returned; the pending bytes advance either way.
    pub fn accept(&mut self, chunk: &[u8], tx: &std::sync::mpsc::Sender<String>) -> (r: Result<
        usize,
        FramerError,
    >)
        ensures
            final(self)@ == rest_from(old(self)@, chunk@),
            r is Ok ==> r->Ok_0 == lines_from(old(self)@, chunk@).len(),
            r is Err ==> r->Err_0 == FramerError::ConsumerGone,
            lines_from(old(self)@, chunk@).len() == 0 ==> r is Ok,
    {
        let mut rest: Vec<String> = self.take_lines(chunk);
        let ghost total = lines_from(old(self)@, chunk@).len();
        proof {
            assert(rest@.map_values(|l: String| l@).len() == rest@.len());
        }
        let count: usize = rest.len();
        let mut sent: usize = 0;
        while rest.len() > 0
            invariant
                sent + rest@.len() == count,
                count == total,
                total == lines_from(old(self)@, chunk@).len(),
                self@ == rest_from(old(self)@, chunk@),
            decreases rest.len(),
        {
            let line: String = rest.remove(0);
            if !mailbox_send(tx, line) {
                return Err(FramerError::ConsumerGone);
            }
            sent = sent + 1;
        }
        Ok(sent)
    }

    /// Lines are delivered eagerly as soon as each newline is seen, so
    /// there is nothing to flush.
    pub fn flush(&self) -> (r: Result<(), FramerError>)
        ensures
            r is Ok,
    {
        Ok(())
    }
}

} // verus!
