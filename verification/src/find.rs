//! Searching bytes for a pattern.

use vstd::prelude::*;

verus! {

/// `pat` stands in `text` at index `i`.
pub open spec fn occurs_at(text: Seq<u8>, pat: Seq<u8>, i: int) -> bool {
    0 <= i && i + pat.len() <= text.len() && text.subrange(i, i + pat.len()) == pat
}

/// `p` is where `pat` first stands in `text`.
pub open spec fn is_first_occurrence(text: Seq<u8>, pat: Seq<u8>, p: int) -> bool {
    occurs_at(text, pat, p) && forall|j: int| 0 <= j < p ==> !occurs_at(text, pat, j)
}

/// Where `pat` first stands in `text`, if it does.
pub open spec fn first_occurrence(text: Seq<u8>, pat: Seq<u8>) -> Option<int> {
    if exists|p: int| is_first_occurrence(text, pat, p) {
        Some(choose|p: int| is_first_occurrence(text, pat, p))
    } else {
        None
    }
}

/// The first occurrence is unique, so `first_occurrence` names it.
pub proof fn lemma_first_occurrence_is(text: Seq<u8>, pat: Seq<u8>, p: int)
    requires
        is_first_occurrence(text, pat, p),
    ensures
        first_occurrence(text, pat) == Some(p),
{
    let q = choose|q: int| is_first_occurrence(text, pat, q);
    assert(is_first_occurrence(text, pat, q));
    if q < p {
        assert(!occurs_at(text, pat, q));
    }
    if p < q {
        assert(!occurs_at(text, pat, p));
    }
}

/// Where the text does not hold the pattern there is no first occurrence.
pub proof fn lemma_first_occurrence_none(text: Seq<u8>, pat: Seq<u8>)
    requires
        forall|j: int| !occurs_at(text, pat, j),
    ensures
        first_occurrence(text, pat) is None,
{
    if exists|p: int| is_first_occurrence(text, pat, p) {
        let p = choose|p: int| is_first_occurrence(text, pat, p);
        assert(occurs_at(text, pat, p));
    }
}

/// Finds where `pattern` first stands in `text`.
pub fn find_first(text: &[u8], pattern: &[u8]) -> (r: Option<usize>)
    ensures
        match r {
            Some(p) => first_occurrence(text@, pattern@) == Some(p as int) && p + pattern@.len()
                <= text@.len(),
            None => first_occurrence(text@, pattern@) is None,
        },
{
    let r = find_bytes(text, pattern);
    proof {
        match r {
            Some(p) => lemma_first_occurrence_is(text@, pattern@, p as int),
            None => lemma_first_occurrence_none(text@, pattern@),
        }
    }
    r
}

/// Calls `twoway::find_bytes`, which searches `text` for `pattern` and
/// returns the index of its first occurrence, or `None` where it does not
/// occur.
#[verifier::external_body]
pub(crate) fn find_bytes(text: &[u8], pattern: &[u8]) -> (r: Option<usize>)
    ensures
        match r {
            Some(p) => is_first_occurrence(text@, pattern@, p as int),
            None => forall|j: int| !occurs_at(text@, pattern@, j),
        },
{
    twoway::find_bytes(text, pattern)
}

} // verus!
