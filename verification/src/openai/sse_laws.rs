//! What holds of framing whatever the bytes and however they are chunked.

use crate::openai::sse::{
    after_first, crlf_delim_at, crlf_pair, delim_at, delim_len, first_delim, frame_blocks,
    frame_rest, is_first_delim, lemma_first_delim_cases, lemma_first_delim_is,
    lemma_first_delim_none, lf_delim_at, lf_pair, no_delim,
};
use vstd::prelude::*;

verus! {

/// The chunks joined in order of arrival.
pub open spec fn concat_chunks(chunks: Seq<Seq<u8>>) -> Seq<u8>
    decreases chunks.len(),
{
    if chunks.len() == 0 {
        Seq::empty()
    } else {
        chunks[0] + concat_chunks(chunks.drop_first())
    }
}

/// The blocks delivered when the chunks are fed one by one into a buffer
/// that holds `buf`.
pub open spec fn fed_blocks(buf: Seq<u8>, chunks: Seq<Seq<u8>>) -> Seq<Seq<u8>>
    decreases chunks.len(),
{
    if chunks.len() == 0 {
        Seq::empty()
    } else {
        frame_blocks(buf + chunks[0]) + fed_blocks(
            frame_rest(buf + chunks[0]),
            chunks.drop_first(),
        )
    }
}

/// What the buffer holds after the chunks were fed one by one.
pub open spec fn fed_rest(buf: Seq<u8>, chunks: Seq<Seq<u8>>) -> Seq<u8>
    decreases chunks.len(),
{
    if chunks.len() == 0 {
        buf
    } else {
        fed_rest(frame_rest(buf + chunks[0]), chunks.drop_first())
    }
}

/// Bytes that arrive later never move the first delimiter of what is
/// already there, nor change its form.
pub proof fn lemma_first_delim_stable(a: Seq<u8>, b: Seq<u8>, p: int)
    requires
        first_delim(a) == Some(p),
    ensures
        first_delim(a + b) == Some(p),
        delim_len(a + b, p) == delim_len(a, p),
        (a + b).subrange(0, p) == a.subrange(0, p),
        after_first(a + b, p) == after_first(a, p) + b,
{
    lemma_first_delim_cases(a);
    let ab = a + b;
    assert(forall|i: int| 0 <= i < a.len() ==> ab[i] == a[i]);
    assert(delim_at(ab, p));
    assert forall|j: int| 0 <= j < p implies !delim_at(ab, j) by {
        assert(!delim_at(a, j));
        if delim_at(ab, j) {
            if lf_delim_at(ab, j) {
                assert(lf_delim_at(a, j));
            } else {
                assert(crlf_delim_at(ab, j));
                if j + 4 <= a.len() {
                    assert(crlf_delim_at(a, j));
                } else {
                    assert(j == p - 1);
                    assert(ab[p] == 10);
                    assert(ab[p + 1] == 13);
                }
            }
        }
    }
    assert(is_first_delim(ab, p));
    lemma_first_delim_is(ab, p);
    assert(ab.subrange(0, p) =~= a.subrange(0, p));
    assert(after_first(ab, p) =~= after_first(a, p) + b);
}

/// Framing a buffer and then what is left of it with more bytes gives the
/// same blocks, and leaves the same partial block, as framing all the bytes
/// at once.
pub proof fn lemma_frame_split(a: Seq<u8>, b: Seq<u8>)
    ensures
        frame_blocks(a + b) == frame_blocks(a) + frame_blocks(frame_rest(a) + b),
        frame_rest(a + b) == frame_rest(frame_rest(a) + b),
    decreases a.len(),
{
    lemma_first_delim_cases(a);
    match first_delim(a) {
        Some(p) => {
            lemma_first_delim_stable(a, b, p);
            let tail = after_first(a, p);
            lemma_frame_split(tail, b);
            assert(frame_blocks(a + b) =~= frame_blocks(a) + frame_blocks(frame_rest(a) + b));
        },
        None => {
            assert(frame_blocks(a + b) =~= frame_blocks(a) + frame_blocks(frame_rest(a) + b));
        },
    }
}

/// Feeding chunks one by one into a buffer delivers, together with the
/// blocks the buffer already held, the blocks of all the bytes framed at
/// once.
pub proof fn lemma_fed_from(buf: Seq<u8>, chunks: Seq<Seq<u8>>)
    ensures
        frame_blocks(buf) + fed_blocks(frame_rest(buf), chunks) == frame_blocks(
            buf + concat_chunks(chunks),
        ),
        fed_rest(frame_rest(buf), chunks) == frame_rest(buf + concat_chunks(chunks)),
    decreases chunks.len(),
{
    if chunks.len() == 0 {
        assert(buf + concat_chunks(chunks) =~= buf);
        lemma_frame_rest_idempotent(buf);
        assert(frame_blocks(buf) + fed_blocks(frame_rest(buf), chunks) =~= frame_blocks(buf));
    } else {
        let c = chunks[0];
        let more = chunks.drop_first();
        lemma_frame_split(buf, c);
        lemma_fed_from(buf + c, more);
        assert(buf + c + concat_chunks(more) =~= buf + concat_chunks(chunks));
        assert(frame_blocks(buf) + fed_blocks(frame_rest(buf), chunks) =~= frame_blocks(buf + c)
            + fed_blocks(frame_rest(buf + c), more));
    }
}

/// What framing leaves holds no complete block.
pub proof fn lemma_frame_rest_idempotent(s: Seq<u8>)
    ensures
        no_delim(frame_rest(s)),
        frame_rest(frame_rest(s)) == frame_rest(s),
        frame_blocks(frame_rest(s)) == Seq::<Seq<u8>>::empty(),
    decreases s.len(),
{
    lemma_first_delim_cases(s);
    match first_delim(s) {
        Some(p) => {
            lemma_frame_rest_idempotent(after_first(s, p));
        },
        None => {},
    }
}

/// Framing does not depend on how the bytes are chunked: fed one chunk at
/// a time into an empty buffer, in any split, the chunks deliver exactly the
/// blocks of their concatenation framed at once, in the same order, and
/// leave the same partial block.
pub proof fn lemma_chunking_irrelevant(chunks: Seq<Seq<u8>>)
    ensures
        fed_blocks(Seq::empty(), chunks) == frame_blocks(concat_chunks(chunks)),
        fed_rest(Seq::empty(), chunks) == frame_rest(concat_chunks(chunks)),
{
    let e = Seq::<u8>::empty();
    lemma_first_delim_none(e);
    lemma_fed_from(e, chunks);
    assert(e + concat_chunks(chunks) =~= concat_chunks(chunks));
    assert(frame_blocks(e) + fed_blocks(e, chunks) =~= fed_blocks(e, chunks));
}

/// The delimiters that ended the blocks of `s`, in order.
pub open spec fn frame_delims(s: Seq<u8>) -> Seq<Seq<u8>>
    decreases s.len(),
{
    match first_delim(s) {
        Some(p) => if 0 <= p && p + delim_len(s, p) <= s.len() {
            seq![s.subrange(p, p + delim_len(s, p))] + frame_delims(after_first(s, p))
        } else {
            Seq::empty()
        },
        None => Seq::empty(),
    }
}

/// Blocks and delimiters put back in turn: block, delimiter, block, ...
pub open spec fn interleave(blocks: Seq<Seq<u8>>, delims: Seq<Seq<u8>>) -> Seq<u8>
    decreases blocks.len(),
{
    if blocks.len() == 0 || delims.len() == 0 {
        Seq::empty()
    } else {
        blocks[0] + delims[0] + interleave(blocks.drop_first(), delims.drop_first())
    }
}

/// Framing loses nothing and repeats nothing: every byte of the input lies
/// in exactly one block, in the delimiter that ended a block, or in the
/// partial block that is left, in the order of the input. Each delimiter is
/// a blank line of one of the two forms, and no block holds a blank line.
pub proof fn lemma_frame_partitions(s: Seq<u8>)
    ensures
        frame_delims(s).len() == frame_blocks(s).len(),
        interleave(frame_blocks(s), frame_delims(s)) + frame_rest(s) == s,
        forall|i: int|
            0 <= i < frame_delims(s).len() ==> #[trigger] frame_delims(s)[i] == crlf_pair()
                || frame_delims(s)[i] == lf_pair(),
        forall|i: int| 0 <= i < frame_blocks(s).len() ==> no_delim(#[trigger] frame_blocks(s)[i]),
        no_delim(frame_rest(s)),
    decreases s.len(),
{
    lemma_first_delim_cases(s);
    match first_delim(s) {
        Some(p) => {
            let tail = after_first(s, p);
            let d = s.subrange(p, p + delim_len(s, p));
            let b = s.subrange(0, p);
            lemma_frame_partitions(tail);
            assert(frame_blocks(s).drop_first() =~= frame_blocks(tail));
            assert(frame_delims(s).drop_first() =~= frame_delims(tail));
            assert(b + d + tail =~= s);
            assert(interleave(frame_blocks(s), frame_delims(s)) + frame_rest(s) =~= b + d + (
            interleave(frame_blocks(tail), frame_delims(tail)) + frame_rest(tail)));
            if crlf_delim_at(s, p) {
                assert(d =~= crlf_pair());
            } else {
                assert(d =~= lf_pair());
            }
            assert forall|j: int| !delim_at(b, j) by {
                if delim_at(b, j) {
                    assert(delim_at(s, j));
                }
            }
            assert forall|i: int| 0 <= i < frame_delims(s).len() implies #[trigger] frame_delims(
                s,
            )[i] == crlf_pair() || frame_delims(s)[i] == lf_pair() by {
                if i > 0 {
                    assert(frame_delims(s)[i] == frame_delims(tail)[i - 1]);
                }
            }
            assert forall|i: int| 0 <= i < frame_blocks(s).len() implies no_delim(
                #[trigger] frame_blocks(s)[i],
            ) by {
                if i > 0 {
                    assert(frame_blocks(s)[i] == frame_blocks(tail)[i - 1]);
                }
            }
        },
        None => {
            assert(interleave(frame_blocks(s), frame_delims(s)) + frame_rest(s) =~= s);
        },
    }
}

} // verus!
