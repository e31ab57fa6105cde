//! Incremental framing of a server-sent-event byte stream into event blocks.
//!
//! A block ends at a blank line, written either as CR LF CR LF or as LF LF.
//! The earliest delimiter in the buffer ends the first block. The two forms
//! cannot start at the same byte, and where a CR LF CR LF starts, it is taken
//! whole.

use crate::find::{find_bytes, occurs_at};
use vstd::prelude::*;

verus! {

/// `bytes::BytesMut`, the growable byte buffer, carried as it is.
#[verifier::external_type_specification]
#[verifier::external_body]
pub struct ExBytesMut(bytes::BytesMut);

/// The bytes that a buffer holds, front first.
pub uninterp spec fn buffered(b: bytes::BytesMut) -> Seq<u8>;

/// The four bytes CR LF CR LF.
pub open spec fn crlf_pair() -> Seq<u8> {
    seq![13u8, 10u8, 13u8, 10u8]
}

/// The two bytes LF LF.
pub open spec fn lf_pair() -> Seq<u8> {
    seq![10u8, 10u8]
}

/// A CR LF CR LF delimiter starts at `i`.
pub open spec fn crlf_delim_at(s: Seq<u8>, i: int) -> bool {
    0 <= i && i + 4 <= s.len() && s[i] == 13 && s[i + 1] == 10 && s[i + 2] == 13 && s[i + 3]
        == 10
}

/// An LF LF delimiter starts at `i`.
pub open spec fn lf_delim_at(s: Seq<u8>, i: int) -> bool {
    0 <= i && i + 2 <= s.len() && s[i] == 10 && s[i + 1] == 10
}

/// A delimiter of either form starts at `i`.
pub open spec fn delim_at(s: Seq<u8>, i: int) -> bool {
    crlf_delim_at(s, i) || lf_delim_at(s, i)
}

/// Length of the delimiter that starts at `i`, the four-byte form first.
pub open spec fn delim_len(s: Seq<u8>, i: int) -> int {
    if crlf_delim_at(s, i) {
        4
    } else {
        2
    }
}

/// `p` is where the earliest delimiter of `s` starts.
pub open spec fn is_first_delim(s: Seq<u8>, p: int) -> bool {
    delim_at(s, p) && forall|j: int| 0 <= j < p ==> !delim_at(s, j)
}

/// No delimiter starts anywhere in `s`.
pub open spec fn no_delim(s: Seq<u8>) -> bool {
    forall|j: int| !delim_at(s, j)
}

/// Where the earliest delimiter of `s` starts, if there is one.
pub open spec fn first_delim(s: Seq<u8>) -> Option<int> {
    if exists|p: int| is_first_delim(s, p) {
        Some(choose|p: int| is_first_delim(s, p))
    } else {
        None
    }
}

/// What is left of `s` once its first block and that block's delimiter are
/// taken away.
pub open spec fn after_first(s: Seq<u8>, p: int) -> Seq<u8> {
    s.subrange(p + delim_len(s, p), s.len() as int)
}

/// The complete blocks of `s`, in order, without their delimiters.
pub open spec fn frame_blocks(s: Seq<u8>) -> Seq<Seq<u8>>
    decreases s.len(),
{
    match first_delim(s) {
        Some(p) => if 0 <= p && p + delim_len(s, p) <= s.len() {
            seq![s.subrange(0, p)] + frame_blocks(after_first(s, p))
        } else {
            Seq::empty()
        },
        None => Seq::empty(),
    }
}

/// The trailing partial block of `s`: what follows its last delimiter.
pub open spec fn frame_rest(s: Seq<u8>) -> Seq<u8>
    decreases s.len(),
{
    match first_delim(s) {
        Some(p) => if 0 <= p && p + delim_len(s, p) <= s.len() {
            frame_rest(after_first(s, p))
        } else {
            s
        },
        None => s,
    }
}

/// The earliest delimiter is unique, so `first_delim` names it.
pub proof fn lemma_first_delim_is(s: Seq<u8>, p: int)
    requires
        is_first_delim(s, p),
    ensures
        first_delim(s) == Some(p),
        0 <= p,
        p + delim_len(s, p) <= s.len(),
{
    let q = choose|q: int| is_first_delim(s, q);
    assert(is_first_delim(s, q));
    if q < p {
        assert(!delim_at(s, q));
    }
    if p < q {
        assert(!delim_at(s, p));
    }
}

/// Without any delimiter there is no first one.
pub proof fn lemma_first_delim_none(s: Seq<u8>)
    requires
        no_delim(s),
    ensures
        first_delim(s) is None,
{
    if exists|p: int| is_first_delim(s, p) {
        let p = choose|p: int| is_first_delim(s, p);
        assert(delim_at(s, p));
    }
}

/// `first_delim` answers `Some` with the earliest delimiter and `None` only
/// where none exists.
pub proof fn lemma_first_delim_cases(s: Seq<u8>)
    ensures
        match first_delim(s) {
            Some(p) => is_first_delim(s, p) && 0 <= p && p + delim_len(s, p) <= s.len(),
            None => no_delim(s),
        },
{
    if exists|p: int| is_first_delim(s, p) {
        let p = choose|p: int| is_first_delim(s, p);
        lemma_first_delim_is(s, p);
    } else {
        assert forall|j: int| !delim_at(s, j) by {
            if delim_at(s, j) {
                lemma_least_delim(s, j);
            }
        }
    }
}

/// Below any delimiter there is an earliest one.
proof fn lemma_least_delim(s: Seq<u8>, j: int)
    requires
        delim_at(s, j),
    ensures
        exists|p: int| is_first_delim(s, p),
    decreases j,
{
    if exists|k: int| 0 <= k < j && delim_at(s, k) {
        let k = choose|k: int| 0 <= k < j && delim_at(s, k);
        lemma_least_delim(s, k);
    } else {
        assert(is_first_delim(s, j));
    }
}

/// Calls `BytesMut::new`, which makes a buffer that holds no bytes.
#[verifier::external_body]
pub(crate) fn buf_new() -> (b: bytes::BytesMut)
    ensures
        buffered(b) == Seq::<u8>::empty(),
{
    bytes::BytesMut::new()
}

/// Calls `BytesMut::extend_from_slice`, which appends the chunk to the
/// buffer. The length of the result must fit a `usize`; beyond that the call
/// does not return.
#[verifier::external_body]
pub(crate) fn buf_extend(b: &mut bytes::BytesMut, chunk: &[u8])
    requires
        buffered(*old(b)).len() + chunk@.len() <= usize::MAX,
    ensures
        buffered(*final(b)) == buffered(*old(b)) + chunk@,
{
    b.extend_from_slice(chunk)
}

/// Borrows the buffer as a slice (`AsRef<[u8]>` of `BytesMut`): the bytes it
/// holds, front first.
#[verifier::external_body]
pub(crate) fn buf_bytes(b: &bytes::BytesMut) -> (r: &[u8])
    ensures
        r@ == buffered(*b),
{
    b.as_ref()
}

/// Calls `BytesMut::split_to`, which takes the first `at` bytes off the
/// buffer and returns them; they are handed out as a `Vec`. The call
/// requires `at` to be within the buffer.
#[verifier::external_body]
pub(crate) fn buf_split_to(b: &mut bytes::BytesMut, at: usize) -> (head: Vec<u8>)
    requires
        at <= buffered(*old(b)).len(),
    ensures
        head@ == buffered(*old(b)).subrange(0, at as int),
        buffered(*final(b)) == buffered(*old(b)).subrange(
            at as int,
            buffered(*old(b)).len() as int,
        ),
{
    b.split_to(at).to_vec()
}

/// Calls `Buf::advance` of `BytesMut`, which drops the first `cnt` bytes of
/// the buffer. The call requires `cnt` to be within the buffer.
#[verifier::external_body]
pub(crate) fn buf_advance(b: &mut bytes::BytesMut, cnt: usize)
    requires
        cnt <= buffered(*old(b)).len(),
    ensures
        buffered(*final(b)) == buffered(*old(b)).subrange(
            cnt as int,
            buffered(*old(b)).len() as int,
        ),
{
    bytes::Buf::advance(b, cnt)
}

proof fn lemma_crlf_occurs(s: Seq<u8>, i: int)
    ensures
        occurs_at(s, crlf_pair(), i) <==> crlf_delim_at(s, i),
{
    let pat = crlf_pair();
    if occurs_at(s, pat, i) {
        let sub = s.subrange(i, i + 4);
        assert(sub[0] == pat[0] && sub[1] == pat[1] && sub[2] == pat[2] && sub[3] == pat[3]);
    }
    if crlf_delim_at(s, i) {
        assert(s.subrange(i, i + 4) =~= pat);
    }
}

proof fn lemma_lf_occurs(s: Seq<u8>, i: int)
    ensures
        occurs_at(s, lf_pair(), i) <==> lf_delim_at(s, i),
{
    let pat = lf_pair();
    if occurs_at(s, pat, i) {
        let sub = s.subrange(i, i + 2);
        assert(sub[0] == pat[0] && sub[1] == pat[1]);
    }
    if lf_delim_at(s, i) {
        assert(s.subrange(i, i + 2) =~= pat);
    }
}

/// Finds where the first event block of `buf` ends: the start of the
/// earliest blank-line delimiter, of either form.
pub fn find_event_boundary(buf: &[u8]) -> (r: Option<usize>)
    ensures
        r is Some <==> first_delim(buf@) is Some,
        r is Some ==> first_delim(buf@) == Some(r.unwrap() as int),
        r is None ==> no_delim(buf@),
{
    let crlf: [u8; 4] = [13, 10, 13, 10];
    let lf: [u8; 2] = [10, 10];
    let a = find_bytes(buf, crlf.as_slice());
    let b = find_bytes(buf, lf.as_slice());
    proof {
        assert(crlf@ =~= crlf_pair());
        assert(lf@ =~= lf_pair());
        assert forall|j: int| occurs_at(buf@, crlf_pair(), j) == crlf_delim_at(buf@, j) by {
            lemma_crlf_occurs(buf@, j);
        }
        assert forall|j: int| occurs_at(buf@, lf_pair(), j) == lf_delim_at(buf@, j) by {
            lemma_lf_occurs(buf@, j);
        }
    }
    let r = match (a, b) {
        (Some(x), Some(y)) => if x < y {
            Some(x)
        } else {
            Some(y)
        },
        (Some(x), None) => Some(x),
        (None, Some(y)) => Some(y),
        (None, None) => None,
    };
    proof {
        match r {
            Some(p) => {
                assert(is_first_delim(buf@, p as int));
                lemma_first_delim_is(buf@, p as int);
            },
            None => {
                assert(no_delim(buf@));
                lemma_first_delim_none(buf@);
            },
        }
    }
    r
}

/// The views of a list of byte blocks.
pub open spec fn block_views(blocks: Seq<Vec<u8>>) -> Seq<Seq<u8>> {
    blocks.map_values(|b: Vec<u8>| b@)
}

/// Takes the first complete event block off the buffer, together with its
/// delimiter, and returns the block. Without a complete block the buffer is
/// left as it is.
pub fn next_event(buf: &mut bytes::BytesMut) -> (r: Option<Vec<u8>>)
    ensures
        match first_delim(buffered(*old(buf))) {
            Some(p) => r is Some && r.unwrap()@ == buffered(*old(buf)).subrange(0, p)
                && buffered(*final(buf)) == after_first(buffered(*old(buf)), p),
            None => r is None && buffered(*final(buf)) == buffered(*old(buf)),
        },
{
    let ghost s0 = buffered(*buf);
    let found = find_event_boundary(buf_bytes(buf));
    match found {
        None => None,
        Some(pos) => {
            proof {
                lemma_first_delim_cases(s0);
            }
            let block = buf_split_to(buf, pos);
            let tail = buf_bytes(buf);
            let crlf = tail.len() >= 4 && tail[0] == 13 && tail[1] == 10 && tail[2] == 13
                && tail[3] == 10;
            assert(crlf == crlf_delim_at(s0, pos as int));
            let adv: usize = if crlf {
                4
            } else {
                2
            };
            buf_advance(buf, adv);
            assert(buffered(*buf) =~= after_first(s0, pos as int));
            Some(block)
        },
    }
}

/// Takes every complete event block off the buffer, in order, leaving the
/// trailing partial block for the bytes to come.
pub fn drain_events(buf: &mut bytes::BytesMut) -> (blocks: Vec<Vec<u8>>)
    ensures
        block_views(blocks@) == frame_blocks(buffered(*old(buf))),
        buffered(*final(buf)) == frame_rest(buffered(*old(buf))),
{
    let ghost s0 = buffered(*buf);
    let mut blocks: Vec<Vec<u8>> = Vec::new();
    assert(block_views(blocks@) =~= Seq::<Seq<u8>>::empty());
    loop
        invariant
            frame_blocks(s0) == block_views(blocks@) + frame_blocks(buffered(*buf)),
            frame_rest(s0) == frame_rest(buffered(*buf)),
        ensures
            block_views(blocks@) == frame_blocks(s0),
            buffered(*buf) == frame_rest(s0),
        decreases buffered(*buf).len(),
    {
        let ghost cur = buffered(*buf);
        let ghost before = blocks@;
        proof {
            lemma_first_delim_cases(cur);
        }
        match next_event(buf) {
            None => {
                break ;
            },
            Some(block) => {
                blocks.push(block);
                assert(block_views(blocks@) =~= block_views(before) + seq![block@]);
            },
        }
    }
    blocks
}

/// Appends a chunk of bytes to the buffer and takes off every event block
/// that is now complete.
pub fn feed(buf: &mut bytes::BytesMut, chunk: &[u8]) -> (blocks: Vec<Vec<u8>>)
    requires
        buffered(*old(buf)).len() + chunk@.len() <= usize::MAX,
    ensures
        block_views(blocks@) == frame_blocks(buffered(*old(buf)) + chunk@),
        buffered(*final(buf)) == frame_rest(buffered(*old(buf)) + chunk@),
{
    buf_extend(buf, chunk);
    drain_events(buf)
}

} // verus!
