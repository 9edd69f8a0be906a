//! Verified character-sequence utilities: substring search, slicing,
//! whitespace trimming, and line splitting. The listing parser is built on
//! these.

use vstd::prelude::*;

verus! {

/// The views of a sequence of character vectors.
pub open spec fn view_lines(lines: Seq<Vec<char>>) -> Seq<Seq<char>> {
    Seq::new(lines.len(), |i: int| lines[i]@)
}

/// `pat` occurs in `hay` at position `i`.
pub open spec fn match_at(hay: Seq<char>, pat: Seq<char>, i: int) -> bool {
    0 <= i && i + pat.len() <= hay.len() && hay.subrange(i, i + pat.len() as int) == pat
}

/// `pat` occurs somewhere in `hay`.
pub open spec fn contains_seq(hay: Seq<char>, pat: Seq<char>) -> bool {
    exists|i: int| match_at(hay, pat, i)
}

/// `i` is the first position at which `pat` occurs in `hay`.
pub open spec fn first_match_at(hay: Seq<char>, pat: Seq<char>, i: int) -> bool {
    match_at(hay, pat, i) && (forall|j: int| 0 <= j < i ==> !match_at(hay, pat, j))
}

/// The first position at which `pat` occurs in `hay`; meaningful only when
/// `contains_seq(hay, pat)` holds.
pub open spec fn first_match(hay: Seq<char>, pat: Seq<char>) -> int {
    choose|i: int| first_match_at(hay, pat, i)
}

/// A witness for a first match pins down `first_match`.
pub proof fn lemma_first_match(hay: Seq<char>, pat: Seq<char>, i: int)
    requires
        first_match_at(hay, pat, i),
    ensures
        contains_seq(hay, pat),
        first_match(hay, pat) == i,
{
    assert(match_at(hay, pat, i));
    assert(exists|k: int| first_match_at(hay, pat, k)) by {
        assert(first_match_at(hay, pat, i));
    }
    let k = first_match(hay, pat);
    assert(first_match_at(hay, pat, k));
    if k < i {
        assert(match_at(hay, pat, k));
        assert(false);
    }
    if i < k {
        assert(match_at(hay, pat, i));
        assert(false);
    }
}

/// Find the first occurrence of `pat` in `hay`, scanning left to right.
pub fn find_sub(hay: &Vec<char>, pat: &Vec<char>) -> (r: Option<usize>)
    ensures
        match r {
            Some(i) => first_match_at(hay@, pat@, i as int) && i as int == first_match(
                hay@,
                pat@,
            ) && contains_seq(hay@, pat@),
            None => !contains_seq(hay@, pat@),
        },
{
    if pat.len() > hay.len() {
        assert(forall|i: int| !match_at(hay@, pat@, i));
        return None;
    }
    if pat.len() == 0 {
        proof {
            assert(hay@.subrange(0, 0) =~= pat@);
            assert(first_match_at(hay@, pat@, 0));
            lemma_first_match(hay@, pat@, 0);
        }
        return Some(0);
    }
    let end: usize = hay.len() - pat.len();
    let mut i: usize = 0;
    while i <= end
        invariant
            1 <= pat@.len() <= hay@.len(),
            hay@.len() <= usize::MAX,
            end == hay@.len() - pat@.len(),
            i <= end + 1,
            forall|j: int| 0 <= j < i ==> !match_at(hay@, pat@, j),
        decreases end + 1 - i,
    {
        let mut k: usize = 0;
        let mut ok: bool = true;
        while ok && k < pat.len()
            invariant
                i + pat@.len() <= hay@.len(),
                hay@.len() <= usize::MAX,
                k <= pat@.len(),
                ok ==> (forall|t: int| 0 <= t < k ==> hay@[i + t] == pat@[t]),
                !ok ==> !match_at(hay@, pat@, i as int),
            decreases pat@.len() - k + (if ok {
                1int
            } else {
                0int
            }),
        {
            if hay[i + k] != pat[k] {
                proof {
                    if match_at(hay@, pat@, i as int) {
                        assert(hay@.subrange(i as int, i + pat@.len() as int)[k as int] == pat@[k as int]);
                        assert(false);
                    }
                }
                ok = false;
            } else {
                k = k + 1;
            }
        }
        if ok {
            proof {
                assert(hay@.subrange(i as int, i + pat@.len() as int) =~= pat@) by {
                    assert(forall|t: int|
                        0 <= t < pat@.len() ==> #[trigger] hay@.subrange(
                            i as int,
                            i + pat@.len() as int,
                        )[t] == hay@[i + t]);
                }
                assert(first_match_at(hay@, pat@, i as int));
                lemma_first_match(hay@, pat@, i as int);
            }
            return Some(i);
        }
        i = i + 1;
    }
    proof {
        assert(forall|j: int| match_at(hay@, pat@, j) ==> 0 <= j <= end);
        assert(forall|j: int| 0 <= j <= end ==> !match_at(hay@, pat@, j));
    }
    None
}

/// True when `pat` occurs somewhere in `hay`.
pub fn contains_sub(hay: &Vec<char>, pat: &Vec<char>) -> (r: bool)
    ensures
        r == contains_seq(hay@, pat@),
{
    match find_sub(hay, pat) {
        Some(_) => true,
        None => false,
    }
}

/// Copy out the range `[a, b)` of `v`.
pub fn subrange_vec(v: &Vec<char>, a: usize, b: usize) -> (r: Vec<char>)
    requires
        a <= b <= v@.len(),
    ensures
        r@ == v@.subrange(a as int, b as int),
{
    let mut r: Vec<char> = Vec::new();
    let mut i: usize = a;
    while i < b
        invariant
            a <= i <= b <= v@.len(),
            r@ == v@.subrange(a as int, i as int),
        decreases b - i,
    {
        r.push(v[i]);
        proof {
            assert(v@.subrange(a as int, i as int).push(v@[i as int]) =~= v@.subrange(
                a as int,
                i + 1,
            ));
        }
        i = i + 1;
    }
    r
}

/// Copy a character vector.
pub fn copy_chars(v: &Vec<char>) -> (r: Vec<char>)
    ensures
        r@ == v@,
{
    let r = subrange_vec(v, 0, v.len());
    proof {
        assert(v@.subrange(0, v@.len() as int) =~= v@);
    }
    r
}

/// Append the characters of `src` to `dst`.
pub fn append_chars(dst: &mut Vec<char>, src: &Vec<char>)
    ensures
        final(dst)@ == old(dst)@ + src@,
{
    let mut i: usize = 0;
    while i < src.len()
        invariant
            i <= src@.len(),
            dst@ == old(dst)@ + src@.subrange(0, i as int),
        decreases src@.len() - i,
    {
        dst.push(src[i]);
        proof {
            assert((old(dst)@ + src@.subrange(0, i as int)).push(src@[i as int]) =~= old(dst)@
                + src@.subrange(0, i + 1));
        }
        i = i + 1;
    }
    proof {
        assert(src@.subrange(0, src@.len() as int) =~= src@);
    }
}

/// Characters the parser treats as padding before an entry name.
pub open spec fn is_space(c: char) -> bool {
    c == ' ' || c == '\t'
}

/// `s` with its leading padding removed.
pub open spec fn trim_start_spec(s: Seq<char>) -> Seq<char>
    decreases s.len(),
{
    if s.len() > 0 && is_space(s[0]) {
        trim_start_spec(s.drop_first())
    } else {
        s
    }
}

/// Leading padding runs up to `i`, so the trim keeps exactly `s[i..]`.
pub proof fn lemma_trim_start(s: Seq<char>, i: int)
    requires
        0 <= i <= s.len(),
        forall|j: int| 0 <= j < i ==> is_space(s[j]),
        i < s.len() ==> !is_space(s[i]),
    ensures
        trim_start_spec(s) == s.subrange(i, s.len() as int),
    decreases i,
{
    if i == 0 {
        if s.len() == 0 {
            assert(s.subrange(0, 0) =~= s);
        } else {
            assert(!is_space(s[0]));
            assert(s.subrange(0, s.len() as int) =~= s);
        }
    } else {
        assert(is_space(s[0]));
        let t = s.drop_first();
        assert(forall|j: int| 0 <= j < i - 1 ==> is_space(#[trigger] t[j]));
        lemma_trim_start(t, i - 1);
        assert(t.subrange(i - 1, t.len() as int) =~= s.subrange(i, s.len() as int));
    }
}

/// Remove leading padding from `v`.
pub fn trim_start_chars(v: &Vec<char>) -> (r: Vec<char>)
    ensures
        r@ == trim_start_spec(v@),
{
    let mut i: usize = 0;
    while i < v.len() && (v[i] == ' ' || v[i] == '\t')
        invariant
            i <= v@.len(),
            forall|j: int| 0 <= j < i ==> is_space(v@[j]),
        decreases v@.len() - i,
    {
        i = i + 1;
    }
    proof {
        lemma_trim_start(v@, i as int);
    }
    subrange_vec(v, i, v.len())
}

/// `s` with one trailing carriage return removed, if present.
pub open spec fn strip_cr(s: Seq<char>) -> Seq<char> {
    if s.len() > 0 && s[s.len() - 1] == '\r' {
        s.drop_last()
    } else {
        s
    }
}

/// The index of the first newline in `s`, or `s.len()` when there is none.
pub open spec fn first_nl(s: Seq<char>) -> nat
    decreases s.len(),
{
    if s.len() == 0 {
        0
    } else if s[0] == '\n' {
        0
    } else {
        1 + first_nl(s.drop_first())
    }
}

/// A scan that stops at `i` pins down `first_nl`.
pub proof fn lemma_first_nl(s: Seq<char>, i: int)
    requires
        0 <= i <= s.len(),
        forall|j: int| 0 <= j < i ==> s[j] != '\n',
        i < s.len() ==> s[i] == '\n',
    ensures
        first_nl(s) == i,
    decreases i,
{
    if i == 0 {
    } else {
        assert(s[0] != '\n');
        let t = s.drop_first();
        assert(forall|j: int| 0 <= j < i - 1 ==> #[trigger] t[j] != '\n');
        lemma_first_nl(t, i - 1);
    }
}

/// The lines of `s`, split at newlines, each with a trailing carriage return
/// removed; a final newline does not open an empty last line.
pub open spec fn split_lines_spec(s: Seq<char>) -> Seq<Seq<char>>
    decreases s.len(),
{
    if s.len() == 0 {
        Seq::empty()
    } else {
        let i = first_nl(s) as int;
        if i >= s.len() {
            seq![strip_cr(s)]
        } else {
            seq![strip_cr(s.subrange(0, i))] + split_lines_spec(
                s.subrange(i + 1, s.len() as int),
            )
        }
    }
}

/// Remove one trailing carriage return from `v`, if present.
fn strip_cr_vec(v: Vec<char>) -> (r: Vec<char>)
    ensures
        r@ == strip_cr(v@),
{
    let mut v = v;
    if v.len() > 0 {
        let last = v[v.len() - 1];
        if last == '\r' {
            v.pop();
            return v;
        }
    }
    v
}

/// Split `text` into lines at newline characters, removing a trailing
/// carriage return from each line.
pub fn split_lines(text: &Vec<char>) -> (r: Vec<Vec<char>>)
    ensures
        view_lines(r@) == split_lines_spec(text@),
{
    let mut out: Vec<Vec<char>> = Vec::new();
    let mut start: usize = 0;
    let mut i: usize = 0;
    proof {
        assert(text@.subrange(0, text@.len() as int) =~= text@);
        assert(view_lines(out@) + split_lines_spec(text@) =~= split_lines_spec(text@));
    }
    while i < text.len()
        invariant
            start <= i <= text@.len(),
            forall|j: int| start <= j < i ==> text@[j] != '\n',
            view_lines(out@) + split_lines_spec(text@.subrange(start as int, text@.len() as int))
                =~= split_lines_spec(text@),
        decreases text@.len() - i,
    {
        if text[i] == '\n' {
            let line = subrange_vec(text, start, i);
            let line = strip_cr_vec(line);
            proof {
                let s = text@.subrange(start as int, text@.len() as int);
                assert(forall|j: int|
                    0 <= j < i - start ==> #[trigger] s[j] == text@[start + j] && s[j] != '\n');
                assert(s[i - start] == '\n');
                lemma_first_nl(s, i - start);
                assert(s.len() > 0);
                assert(s.subrange(0, i - start) =~= text@.subrange(start as int, i as int));
                assert(s.subrange(i - start + 1, s.len() as int) =~= text@.subrange(
                    i + 1,
                    text@.len() as int,
                ));
                assert(split_lines_spec(s) == seq![strip_cr(text@.subrange(start as int, i as int))]
                    + split_lines_spec(text@.subrange(i + 1, text@.len() as int)));
                assert(view_lines(out@.push(line)) =~= view_lines(out@) + seq![line@]);
            }
            out.push(line);
            start = i + 1;
        }
        i = i + 1;
    }
    if start < text.len() {
        let line = subrange_vec(text, start, text.len());
        let line = strip_cr_vec(line);
        proof {
            let s = text@.subrange(start as int, text@.len() as int);
            assert(forall|j: int|
                0 <= j < s.len() ==> #[trigger] s[j] == text@[start + j] && s[j] != '\n');
            lemma_first_nl(s, s.len() as int);
            assert(split_lines_spec(s) == seq![strip_cr(s)]);
            assert(view_lines(out@.push(line)) =~= view_lines(out@) + seq![line@]);
        }
        out.push(line);
    } else {
        proof {
            assert(text@.subrange(start as int, text@.len() as int).len() == 0);
        }
    }
    proof {
        assert(view_lines(out@) =~= split_lines_spec(text@));
    }
    out
}

} // verus!
