//! Text as a sequence of characters: whitespace, trimming, prefixes, lines.

use vstd::prelude::*;
use vstd::string::StringExecFns;

verus! {

/// A character with the Unicode property White_Space.
pub open spec fn is_space(c: char) -> bool {
    let n = c as u32;
    (0x09 <= n <= 0x0D) || n == 0x20 || n == 0x85 || n == 0xA0 || n == 0x1680 || (0x2000 <= n
        <= 0x200A) || n == 0x2028 || n == 0x2029 || n == 0x202F || n == 0x205F || n == 0x3000
}

/// `s` without its leading whitespace.
pub open spec fn trim_start(s: Seq<char>) -> Seq<char>
    decreases s.len(),
{
    if s.len() > 0 && is_space(s[0]) {
        trim_start(s.drop_first())
    } else {
        s
    }
}

/// `s` without its trailing whitespace.
pub open spec fn trim_end(s: Seq<char>) -> Seq<char>
    decreases s.len(),
{
    if s.len() > 0 && is_space(s.last()) {
        trim_end(s.drop_last())
    } else {
        s
    }
}

/// `s` without leading and trailing whitespace.
pub open spec fn trim(s: Seq<char>) -> Seq<char> {
    trim_end(trim_start(s))
}

/// `s` begins with `p`.
pub open spec fn starts_with(s: Seq<char>, p: Seq<char>) -> bool {
    p.len() <= s.len() && s.subrange(0, p.len() as int) == p
}

/// What follows the prefix `p` in `s`, where `s` begins with it.
pub open spec fn strip_prefix(s: Seq<char>, p: Seq<char>) -> Option<Seq<char>> {
    if starts_with(s, p) {
        Some(s.subrange(p.len() as int, s.len() as int))
    } else {
        None
    }
}

/// Index of the first line feed of `s`, or its length where it has none.
pub open spec fn line_end(s: Seq<char>) -> int
    decreases s.len(),
{
    if s.len() == 0 || s[0] == '\n' {
        0
    } else {
        1 + line_end(s.drop_first())
    }
}

/// A line without the carriage return that stood before its line feed.
pub open spec fn strip_cr(line: Seq<char>) -> Seq<char> {
    if line.len() > 0 && line.last() == '\r' {
        line.drop_last()
    } else {
        line
    }
}

/// The lines of `s`. A line ends at a line feed, or at a carriage return
/// followed by one; the ending is not part of the line. The last line needs
/// no ending, and is then kept as it stands.
pub open spec fn lines(s: Seq<char>) -> Seq<Seq<char>>
    decreases s.len(),
{
    if s.len() == 0 {
        Seq::empty()
    } else {
        let e = line_end(s);
        if 0 <= e < s.len() {
            seq![strip_cr(s.subrange(0, e))] + lines(s.subrange(e + 1, s.len() as int))
        } else {
            seq![s]
        }
    }
}

/// The lines joined again, with one line feed between neighbours.
pub open spec fn join_lines(parts: Seq<Seq<char>>) -> Seq<char>
    decreases parts.len(),
{
    if parts.len() == 0 {
        Seq::empty()
    } else if parts.len() == 1 {
        parts[0]
    } else {
        join_lines(parts.drop_last()) + seq!['\n'] + parts.last()
    }
}

/// The views of a list of character vectors.
pub open spec fn line_views(v: Seq<Vec<char>>) -> Seq<Seq<char>> {
    v.map_values(|l: Vec<char>| l@)
}

/// Tells whether a character is whitespace.
pub fn is_space_char(c: char) -> (r: bool)
    ensures
        r == is_space(c),
{
    let n = c as u32;
    (0x09 <= n && n <= 0x0D) || n == 0x20 || n == 0x85 || n == 0xA0 || n == 0x1680 || (0x2000
        <= n && n <= 0x200A) || n == 0x2028 || n == 0x2029 || n == 0x202F || n == 0x205F || n
        == 0x3000
}

proof fn lemma_line_end_bounds(s: Seq<char>)
    ensures
        0 <= line_end(s) <= s.len(),
        line_end(s) < s.len() ==> s[line_end(s)] == '\n',
        forall|j: int| 0 <= j < line_end(s) ==> s[j] != '\n',
    decreases s.len(),
{
    if s.len() == 0 || s[0] == '\n' {
    } else {
        let t = s.drop_first();
        lemma_line_end_bounds(t);
        assert forall|j: int| 0 <= j < line_end(s) implies s[j] != '\n' by {
            if j > 0 {
                assert(s[j] == t[j - 1]);
            }
        }
    }
}

proof fn lemma_line_end_is(s: Seq<char>, e: int)
    requires
        0 <= e <= s.len(),
        e < s.len() ==> s[e] == '\n',
        forall|j: int| 0 <= j < e ==> s[j] != '\n',
    ensures
        line_end(s) == e,
{
    lemma_line_end_bounds(s);
    let k = line_end(s);
    if k < e {
        assert(s[k] == '\n');
    }
    if e < k {
        assert(s[e] != '\n');
    }
}

/// Calls `String::push`, which appends one character to the string.
#[verifier::external_body]
pub(crate) fn push_char(s: &mut String, c: char)
    ensures
        final(s)@ == old(s)@.push(c),
{
    s.push(c)
}

/// The characters of a string, in order.
pub fn to_chars(s: &str) -> (v: Vec<char>)
    ensures
        v@ == s@,
{
    let mut v: Vec<char> = Vec::new();
    for c in it: s.chars()
        invariant
            it.seq() == s@,
            v@ == s@.subrange(0, it.index() as int),
    {
        v.push(c);
        assert(v@ =~= s@.subrange(0, it.index() + 1));
    }
    assert(v@ =~= s@);
    v
}

/// The string made of the characters `chars[from..to]`.
pub fn string_of(chars: &Vec<char>, from: usize, to: usize) -> (s: String)
    requires
        from <= to <= chars@.len(),
    ensures
        s@ == chars@.subrange(from as int, to as int),
{
    let mut s = String::new();
    let mut i: usize = from;
    while i < to
        invariant
            from <= i <= to <= chars@.len(),
            s@ == chars@.subrange(from as int, i as int),
        decreases to - i,
    {
        push_char(&mut s, chars[i]);
        assert(s@ =~= chars@.subrange(from as int, i + 1));
        i = i + 1;
    }
    s
}

/// Tells whether `line` begins with `prefix`.
pub fn has_prefix(line: &Vec<char>, prefix: &[char]) -> (r: bool)
    ensures
        r == starts_with(line@, prefix@),
{
    if prefix.len() > line.len() {
        return false;
    }
    let mut i: usize = 0;
    while i < prefix.len()
        invariant
            i <= prefix@.len() <= line@.len(),
            forall|j: int| 0 <= j < i ==> line@[j] == prefix@[j],
        decreases prefix@.len() - i,
    {
        if line[i] != prefix[i] {
            assert(line@.subrange(0, prefix@.len() as int)[i as int] != prefix@[i as int]);
            return false;
        }
        i = i + 1;
    }
    assert(line@.subrange(0, prefix@.len() as int) =~= prefix@);
    true
}

/// Where `chars[from..to]` begins once its leading whitespace is skipped.
pub fn trim_start_at(chars: &Vec<char>, from: usize, to: usize) -> (i: usize)
    requires
        from <= to <= chars@.len(),
    ensures
        from <= i <= to,
        chars@.subrange(i as int, to as int) == trim_start(
            chars@.subrange(from as int, to as int),
        ),
{
    let mut i: usize = from;
    while i < to && is_space_char(chars[i])
        invariant
            from <= i <= to <= chars@.len(),
            trim_start(chars@.subrange(i as int, to as int)) == trim_start(
                chars@.subrange(from as int, to as int),
            ),
        decreases to - i,
    {
        assert(chars@.subrange(i as int, to as int).drop_first() =~= chars@.subrange(
            i + 1,
            to as int,
        ));
        i = i + 1;
    }
    i
}

/// Where `chars[from..to]` ends once its trailing whitespace is dropped.
pub fn trim_end_at(chars: &Vec<char>, from: usize, to: usize) -> (e: usize)
    requires
        from <= to <= chars@.len(),
    ensures
        from <= e <= to,
        chars@.subrange(from as int, e as int) == trim_end(
            chars@.subrange(from as int, to as int),
        ),
{
    let mut e: usize = to;
    while e > from && is_space_char(chars[e - 1])
        invariant
            from <= e <= to <= chars@.len(),
            trim_end(chars@.subrange(from as int, e as int)) == trim_end(
                chars@.subrange(from as int, to as int),
            ),
        decreases e - from,
    {
        assert(chars@.subrange(from as int, e as int).drop_last() =~= chars@.subrange(
            from as int,
            e - 1,
        ));
        e = e - 1;
    }
    e
}

/// A copy of `chars[from..to]`.
pub fn copy_range(chars: &Vec<char>, from: usize, to: usize) -> (v: Vec<char>)
    requires
        from <= to <= chars@.len(),
    ensures
        v@ == chars@.subrange(from as int, to as int),
{
    let mut v: Vec<char> = Vec::new();
    let mut i: usize = from;
    while i < to
        invariant
            from <= i <= to <= chars@.len(),
            v@ == chars@.subrange(from as int, i as int),
        decreases to - i,
    {
        v.push(chars[i]);
        assert(v@ =~= chars@.subrange(from as int, i + 1));
        i = i + 1;
    }
    v
}

/// Splits a text into its lines.
pub fn split_lines(text: &Vec<char>) -> (out: Vec<Vec<char>>)
    ensures
        line_views(out@) == lines(text@),
{
    let n = text.len();
    let mut out: Vec<Vec<char>> = Vec::new();
    let mut start: usize = 0;
    assert(line_views(out@) =~= Seq::<Seq<char>>::empty());
    assert(text@.subrange(0, n as int) =~= text@);
    while start < n
        invariant
            start <= n == text@.len(),
            lines(text@) == line_views(out@) + lines(text@.subrange(start as int, n as int)),
        decreases n - start,
    {
        let ghost rest = text@.subrange(start as int, n as int);
        let ghost before = out@;
        let mut e: usize = start;
        while e < n && text[e] != '\n'
            invariant
                start <= e <= n == text@.len(),
                forall|j: int| start <= j < e ==> text@[j] != '\n',
            decreases n - e,
        {
            e = e + 1;
        }
        proof {
            lemma_line_end_is(rest, e - start);
        }
        if e < n {
            let stop: usize = if e > start && text[e - 1] == '\r' {
                (e - 1) as usize
            } else {
                e
            };
            let line = copy_range(text, start, stop);
            assert(line@ =~= strip_cr(rest.subrange(0, e - start)));
            out.push(line);
            assert(rest.subrange(e - start + 1, rest.len() as int) =~= text@.subrange(
                e + 1,
                n as int,
            ));
            assert(line_views(out@) =~= line_views(before) + seq![line@]);
            start = e + 1;
        } else {
            let line = copy_range(text, start, n);
            out.push(line);
            assert(line_views(out@) =~= line_views(before) + seq![rest]);
            start = n;
            assert(text@.subrange(n as int, n as int) =~= Seq::<char>::empty());
        }
    }
    assert(text@.subrange(n as int, n as int) =~= Seq::<char>::empty());
    out
}

/// Joins lines with one line feed between neighbours.
pub fn join(parts: &Vec<Vec<char>>) -> (out: Vec<char>)
    ensures
        out@ == join_lines(line_views(parts@)),
{
    let mut out: Vec<char> = Vec::new();
    let mut i: usize = 0;
    while i < parts.len()
        invariant
            i <= parts@.len(),
            out@ == join_lines(line_views(parts@).subrange(0, i as int)),
        decreases parts@.len() - i,
    {
        let ghost sofar = line_views(parts@).subrange(0, i as int);
        let ghost next = line_views(parts@).subrange(0, i + 1);
        if i > 0 {
            out.push('\n');
        }
        let part = &parts[i];
        let mut j: usize = 0;
        let ghost base = out@;
        while j < part.len()
            invariant
                j <= part@.len(),
                out@ == base + part@.subrange(0, j as int),
            decreases part@.len() - j,
        {
            out.push(part[j]);
            assert(out@ =~= base + part@.subrange(0, j + 1));
            j = j + 1;
        }
        proof {
            assert(part@.subrange(0, part@.len() as int) =~= part@);
            assert(next.drop_last() =~= sofar);
            assert(next.last() == part@);
            if i == 0 {
                assert(out@ =~= part@);
            }
        }
        i = i + 1;
    }
    assert(line_views(parts@).subrange(0, parts@.len() as int) =~= line_views(parts@));
    out
}

/// `needle` stands in `hay` at index `i`.
pub open spec fn text_at(hay: Seq<char>, needle: Seq<char>, i: int) -> bool {
    0 <= i && i + needle.len() <= hay.len() && hay.subrange(i, i + needle.len()) == needle
}

/// `needle` stands somewhere in `hay`.
pub open spec fn contains_text(hay: Seq<char>, needle: Seq<char>) -> bool {
    exists|i: int| text_at(hay, needle, i)
}

/// Tells whether `needle` stands in `hay` at index `at`.
fn matches_at(hay: &Vec<char>, needle: &Vec<char>, at: usize) -> (r: bool)
    requires
        at + needle@.len() <= hay@.len(),
    ensures
        r == text_at(hay@, needle@, at as int),
{
    let total = hay.len();
    let mut j: usize = 0;
    while j < needle.len()
        invariant
            j <= needle@.len(),
            at + needle@.len() <= hay@.len() == total,
            forall|k: int| 0 <= k < j ==> hay@[at + k] == needle@[k],
        decreases needle@.len() - j,
    {
        if hay[at + j] != needle[j] {
            assert(hay@.subrange(at as int, at + needle@.len())[j as int] != needle@[j as int]);
            return false;
        }
        j = j + 1;
    }
    assert(hay@.subrange(at as int, at + needle@.len()) =~= needle@);
    true
}

/// Tells whether `needle` stands somewhere in `hay`.
pub fn contains(hay: &str, needle: &str) -> (r: bool)
    ensures
        r == contains_text(hay@, needle@),
{
    let h = to_chars(hay);
    let n = to_chars(needle);
    if n.len() > h.len() {
        return false;
    }
    let last = h.len() - n.len();
    let mut i: usize = 0;
    loop
        invariant
            i <= last,
            last == h@.len() - n@.len(),
            h@ == hay@,
            n@ == needle@,
            forall|k: int| 0 <= k < i ==> !text_at(h@, n@, k),
        decreases last - i,
    {
        if matches_at(&h, &n, i) {
            return true;
        }
        if i == last {
            return false;
        }
        i = i + 1;
    }
}

/// The ten decimal digits.
pub open spec fn digits() -> Seq<char> {
    seq!['0', '1', '2', '3', '4', '5', '6', '7', '8', '9']
}

/// A number written in decimal, without leading zeros.
pub open spec fn decimal_of(n: nat) -> Seq<char>
    decreases n,
{
    if n < 10 {
        seq![digits()[n as int]]
    } else {
        decimal_of(n / 10).push(digits()[(n % 10) as int])
    }
}

/// Appends to `s` the number `n` written in decimal.
pub fn push_decimal(s: &mut String, n: u64)
    ensures
        final(s)@ == old(s)@ + decimal_of(n as nat),
    decreases n,
{
    let table: [char; 10] = ['0', '1', '2', '3', '4', '5', '6', '7', '8', '9'];
    assert(table@ =~= digits());
    if n >= 10 {
        push_decimal(s, n / 10);
    }
    let d = (n % 10) as usize;
    push_char(s, table[d]);
    assert(s@ =~= old(s)@ + decimal_of(n as nat));
}

/// Appends the text `t` to `s`.
pub fn push_text(s: &mut String, t: &str)
    ensures
        final(s)@ == old(s)@ + t@,
{
    s.append(t);
}

/// Tells whether two texts hold the same characters.
pub fn same_text(a: &str, b: &str) -> (r: bool)
    ensures
        r == (a@ == b@),
{
    a.to_owned() == b.to_owned()
}

/// The characters of `s` without leading and trailing whitespace.
pub fn trimmed(s: &str) -> (t: String)
    ensures
        t@ == trim(s@),
{
    let chars = to_chars(s);
    let from = trim_start_at(&chars, 0, chars.len());
    let to = trim_end_at(&chars, from, chars.len());
    assert(chars@.subrange(0, chars@.len() as int) =~= chars@);
    string_of(&chars, from, to)
}

/// Tells whether a text is empty once trimmed.
pub fn is_blank(s: &str) -> (r: bool)
    ensures
        r == (trim(s@).len() == 0),
{
    let chars = to_chars(s);
    let from = trim_start_at(&chars, 0, chars.len());
    let to = trim_end_at(&chars, from, chars.len());
    assert(chars@.subrange(0, chars@.len() as int) =~= chars@);
    from == to
}

} // verus!
