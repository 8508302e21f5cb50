use vstd::prelude::*;
use crate::text::{chars_of, string_of};

verus! {

/// The pieces of `s` between its slashes, as `str::split('/')` yields them:
/// one more piece than there are slashes, empty pieces included.
pub open spec fn pieces(s: Seq<char>) -> Seq<Seq<char>>
    decreases s.len(),
{
    if s.len() == 0 {
        seq![Seq::<char>::empty()]
    } else {
        let p = pieces(s.drop_last());
        if s.last() == '/' {
            p.push(Seq::<char>::empty())
        } else {
            p.update(p.len() - 1, p.last().push(s.last()))
        }
    }
}

/// The part of a request path that is matched segment by segment: the path
/// without its leading slash.
pub open spec fn unmatched_path(path: Seq<char>) -> Seq<char> {
    if path.len() > 0 && path[0] == '/' {
        path.drop_first()
    } else {
        path
    }
}

/// The segments that path filters consume from `rest`, one after another.
/// Each step takes the text up to the next slash and the slash after it, so a
/// single trailing slash adds no segment and an empty `rest` has none.
pub open spec fn segments_of(rest: Seq<char>) -> Seq<Seq<char>> {
    if rest.len() == 0 {
        Seq::empty()
    } else if rest.last() == '/' {
        pieces(rest).drop_last()
    } else {
        pieces(rest)
    }
}

/// The segments of a request path.
pub open spec fn path_segments(path: Seq<char>) -> Seq<Seq<char>> {
    segments_of(unmatched_path(path))
}

/// The segment at position `i`, or the empty text once the path is used up.
pub open spec fn segment_at(segs: Seq<Seq<char>>, i: int) -> Seq<char> {
    if 0 <= i < segs.len() {
        segs[i]
    } else {
        Seq::empty()
    }
}

/// Whether the path ends after its first `n` segments.
pub open spec fn ends_after(segs: Seq<Seq<char>>, n: int) -> bool {
    segs.len() <= n
}

/// Splits a request path into its segments.
pub fn segments(path: &str) -> (segs: Vec<Vec<char>>)
    ensures
        segs.deep_view() == path_segments(path@),
{
    let chars = chars_of(path);
    let start: usize = if chars.len() > 0 && chars[0] == '/' { 1 } else { 0 };
    let ghost rest = unmatched_path(path@);
    assert(rest == chars@.subrange(start as int, chars@.len() as int));
    let mut done: Vec<Vec<char>> = Vec::new();
    let mut cur: Vec<char> = Vec::new();
    let mut i: usize = start;
    assert(rest.take(0) =~= Seq::<char>::empty());
    assert(done.deep_view().push(cur@) =~= pieces(rest.take(0)));
    while i < chars.len()
        invariant
            chars@ == path@,
            start <= i <= chars.len(),
            rest == chars@.subrange(start as int, chars@.len() as int),
            done.deep_view().push(cur@) == pieces(rest.take(i - start)),
            i > start ==> (cur@.len() == 0 <==> chars@[i - 1] == '/'),
        decreases chars.len() - i,
    {
        let c = chars[i];
        let ghost before = done.deep_view();
        let ghost cur_before = cur@;
        let ghost k = i - start;
        assert(rest.take(k + 1).drop_last() =~= rest.take(k));
        assert(rest.take(k + 1).last() == c);
        if c == '/' {
            let finished = cur;
            assert(finished.deep_view() =~= finished@);
            done.push(finished);
            cur = Vec::new();
            assert(done.deep_view() =~= before.push(cur_before));
            assert(done.deep_view().push(cur@) =~= pieces(rest.take(k + 1)));
        } else {
            cur.push(c);
            assert(done.deep_view() =~= before);
            assert(done.deep_view().push(cur@) =~= pieces(rest.take(k + 1)));
        }
        i = i + 1;
    }
    assert(rest.take(rest.len() as int) =~= rest);
    if i == start {
        assert(rest.len() == 0);
        let empty: Vec<Vec<char>> = Vec::new();
        assert(empty.deep_view() =~= path_segments(path@));
        return empty;
    }
    if chars[chars.len() - 1] == '/' {
        assert(rest.last() == '/');
        assert(done.deep_view() =~= pieces(rest).drop_last());
        done
    } else {
        let ghost before = done.deep_view();
        assert(cur.deep_view() =~= cur@);
        done.push(cur);
        assert(done.deep_view() =~= before.push(cur@));
        done
    }
}

/// Whether the segment at position `i` is exactly `text`.
pub fn segment_is(segs: &Vec<Vec<char>>, i: usize, text: &str) -> (r: bool)
    ensures
        r == (segment_at(segs.deep_view(), i as int) == text@),
{
    let t = chars_of(text);
    if i >= segs.len() {
        assert(segment_at(segs.deep_view(), i as int) =~= Seq::<char>::empty());
        if t.len() == 0 {
            assert(t@ =~= Seq::<char>::empty());
        }
        return t.len() == 0;
    }
    let s = &segs[i];
    assert(s.deep_view() =~= s@);
    assert(segment_at(segs.deep_view(), i as int) == s@);
    if s.len() != t.len() {
        return false;
    }
    let mut j: usize = 0;
    while j < s.len()
        invariant
            s.len() == t.len(),
            t@ == text@,
            segment_at(segs.deep_view(), i as int) == s@,
            j <= s.len(),
            forall|k: int| 0 <= k < j ==> s@[k] == t@[k],
        decreases s.len() - j,
    {
        if s[j] != t[j] {
            return false;
        }
        j = j + 1;
    }
    assert(s@ =~= t@);
    true
}

/// Whether the segment at position `i` holds at least one character.
pub fn segment_nonempty(segs: &Vec<Vec<char>>, i: usize) -> (r: bool)
    ensures
        r == (segment_at(segs.deep_view(), i as int).len() > 0),
{
    i < segs.len() && segs[i].len() > 0
}

/// The segment at position `i` as a string.
pub fn segment_string(segs: &Vec<Vec<char>>, i: usize) -> (s: String)
    ensures
        s@ == segment_at(segs.deep_view(), i as int),
{
    if i < segs.len() {
        string_of(segs[i].as_slice())
    } else {
        String::new()
    }
}

} // verus!
