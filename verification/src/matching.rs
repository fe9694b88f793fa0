//! Route-key matching.
//!
//! A route key is `"<methodCode>:<pathPattern>"`. Matching separates the
//! method part from the path part at the first `':'`, then compares the
//! paths segment by segment: a pattern segment that begins with `':'` is a
//! parameter and matches any non-empty segment, every other segment must be
//! equal character for character.

use vstd::prelude::*;
use vstd::slice::slice_subrange;
use vstd::string::StrSliceExecFns;

verus! {

/// Splits `s` at every occurrence of `sep`, the way `str::split` does:
/// the result always has one more element than `s` has separators, and
/// separators at the ends or side by side produce empty segments.
pub open spec fn split_on(s: Seq<char>, sep: char) -> Seq<Seq<char>>
    decreases s.len(),
{
    if s.len() == 0 {
        seq![Seq::<char>::empty()]
    } else if s[0] == sep {
        seq![Seq::<char>::empty()] + split_on(s.skip(1), sep)
    } else {
        let rest = split_on(s.skip(1), sep);
        seq![seq![s[0]] + rest[0]] + rest.skip(1)
    }
}

/// A split always yields at least one segment.
pub proof fn lemma_split_on_nonempty(s: Seq<char>, sep: char)
    ensures
        split_on(s, sep).len() >= 1,
    decreases s.len(),
{
    if s.len() == 0 {
    } else {
        lemma_split_on_nonempty(s.skip(1), sep);
    }
}

/// The index of the first occurrence of `c` in `s`, or `s.len()` when `c`
/// does not occur.
pub open spec fn find_char(s: Seq<char>, c: char) -> int
    decreases s.len(),
{
    if s.len() == 0 {
        0
    } else if s[0] == c {
        0
    } else {
        1 + find_char(s.skip(1), c)
    }
}

pub proof fn lemma_find_char(s: Seq<char>, c: char)
    ensures
        0 <= find_char(s, c) <= s.len(),
        find_char(s, c) < s.len() ==> s[find_char(s, c)] == c,
        forall|j: int| 0 <= j < find_char(s, c) ==> s[j] != c,
    decreases s.len(),
{
    if s.len() == 0 {
    } else if s[0] == c {
    } else {
        lemma_find_char(s.skip(1), c);
        assert forall|j: int| 0 <= j < find_char(s, c) implies s[j] != c by {
            if j >= 1 {
                assert(s.skip(1)[j - 1] != c);
                assert(s[j] == s.skip(1)[j - 1]);
            }
        }
    }
}

/// One pattern segment against one actual segment: a parameter segment
/// (leading `':'`) matches any non-empty segment, anything else must be
/// equal.
pub open spec fn seg_matches(p: Seq<char>, a: Seq<char>) -> bool {
    if p.len() > 0 && p[0] == ':' {
        a.len() > 0
    } else {
        p == a
    }
}

/// Pattern segments against actual segments: same count, and each pair
/// matches.
pub open spec fn segments_match(ps: Seq<Seq<char>>, aseg: Seq<Seq<char>>) -> bool {
    &&& ps.len() == aseg.len()
    &&& forall|i: int| 0 <= i < ps.len() ==> seg_matches(#[trigger] ps[i], aseg[i])
}

/// A path pattern against an actual path, both without their method prefix.
pub open spec fn path_matches(pp: Seq<char>, ap: Seq<char>) -> bool {
    segments_match(split_on(pp, '/'), split_on(ap, '/'))
}

/// A full route key against a full actual key. Both are split at their
/// first `':'` only, so parameter markers inside the path are untouched;
/// the method parts must be equal and the path parts must match.
pub open spec fn spec_route_matches(pk: Seq<char>, ak: Seq<char>) -> bool {
    let pi = find_char(pk, ':');
    let ai = find_char(ak, ':');
    &&& pi < pk.len()
    &&& ai < ak.len()
    &&& pi == ai
    &&& pk.subrange(0, pi) == ak.subrange(0, ai)
    &&& path_matches(pk.subrange(pi + 1, pk.len() as int), ak.subrange(ai + 1, ak.len() as int))
}

/// The characters of `s` as a vector.
pub fn to_chars(s: &str) -> (r: Vec<char>)
    ensures
        r@ == s@,
{
    let n = s.unicode_len();
    let mut r: Vec<char> = Vec::new();
    let mut i: usize = 0;
    while i < n
        invariant
            i <= n,
            n == s@.len(),
            r@ == s@.subrange(0, i as int),
        decreases n - i,
    {
        let c = s.get_char(i);
        r.push(c);
        assert(s@.subrange(0, (i + 1) as int) =~= s@.subrange(0, i as int).push(s@[i as int]));
        i = i + 1;
    }
    assert(s@.subrange(0, n as int) =~= s@);
    r
}

/// The index of the first occurrence of `c` in `s`, or `s.len()` when `c`
/// does not occur.
fn find_in_chars(s: &[char], c: char) -> (r: usize)
    ensures
        r == find_char(s@, c),
{
    proof {
        lemma_find_char(s@, c);
    }
    let n = s.len();
    let mut i: usize = 0;
    while i < n
        invariant
            i <= n,
            n == s@.len(),
            forall|j: int| 0 <= j < i ==> s@[j] != c,
        decreases n - i,
    {
        if s[i] == c {
            proof {
                lemma_find_char(s@, c);
            }
            return i;
        }
        i = i + 1;
    }
    i
}

/// Character-for-character equality of two segments.
fn chars_eq(a: &[char], b: &[char]) -> (r: bool)
    ensures
        r == (a@ == b@),
{
    let n = a.len();
    if n != b.len() {
        return false;
    }
    let mut i: usize = 0;
    while i < n
        invariant
            i <= n,
            n == a@.len(),
            n == b@.len(),
            forall|j: int| 0 <= j < i ==> a@[j] == b@[j],
        decreases n - i,
    {
        if a[i] != b[i] {
            return false;
        }
        i = i + 1;
    }
    proof {
        assert(a@ =~= b@);
    }
    true
}

/// Character-for-character equality of two strings.
pub fn str_eq(a: &str, b: &str) -> (r: bool)
    ensures
        r == (a@ == b@),
{
    let n = a.unicode_len();
    if n != b.unicode_len() {
        return false;
    }
    let mut i: usize = 0;
    while i < n
        invariant
            i <= n,
            n == a@.len(),
            n == b@.len(),
            forall|j: int| 0 <= j < i ==> a@[j] == b@[j],
        decreases n - i,
    {
        if a.get_char(i) != b.get_char(i) {
            return false;
        }
        i = i + 1;
    }
    proof {
        assert(a@ =~= b@);
    }
    true
}

/// Whether `s` begins with `prefix`, character for character.
pub open spec fn spec_starts_with(s: Seq<char>, prefix: Seq<char>) -> bool {
    s.len() >= prefix.len() && s.subrange(0, prefix.len() as int) == prefix
}

/// Whether `s` begins with `prefix`.
pub fn str_starts_with(s: &str, prefix: &str) -> (r: bool)
    ensures
        r == spec_starts_with(s@, prefix@),
{
    let n = prefix.unicode_len();
    if s.unicode_len() < n {
        return false;
    }
    let mut i: usize = 0;
    while i < n
        invariant
            i <= n,
            n == prefix@.len(),
            n <= s@.len(),
            forall|j: int| 0 <= j < i ==> s@[j] == prefix@[j],
        decreases n - i,
    {
        if s.get_char(i) != prefix.get_char(i) {
            assert(s@.subrange(0, n as int)[i as int] != prefix@[i as int]);
            return false;
        }
        i = i + 1;
    }
    proof {
        assert(s@.subrange(0, n as int) =~= prefix@);
    }
    true
}

/// The views of a sequence of character vectors.
pub open spec fn views_of(vs: Seq<Vec<char>>) -> Seq<Seq<char>> {
    vs.map_values(|v: Vec<char>| v@)
}

/// Splits `s` at every occurrence of `sep`.
fn split_slice(s: &[char], sep: char) -> (r: Vec<Vec<char>>)
    ensures
        views_of(r@) == split_on(s@, sep),
    decreases s@.len(),
{
    if s.len() == 0 {
        let mut r: Vec<Vec<char>> = Vec::new();
        r.push(Vec::new());
        assert(views_of(r@) =~~= split_on(s@, sep));
        r
    } else {
        let head: char = s[0];
        let tail = slice_subrange(s, 1, s.len());
        assert(tail@ == s@.skip(1));
        let mut rest = split_slice(tail, sep);
        proof {
            lemma_split_on_nonempty(s@.skip(1), sep);
        }
        if head == sep {
            rest.insert(0, Vec::new());
            assert(views_of(rest@) =~~= split_on(s@, sep));
            rest
        } else {
            let ghost old_rest = rest@;
            let mut first = rest.remove(0);
            first.insert(0, head);
            assert(first@ =~= seq![s@[0]] + old_rest[0]@);
            rest.insert(0, first);
            assert(views_of(rest@) =~~= split_on(s@, sep)) by {
                assert(rest@.len() == old_rest.len());
                assert(forall|i: int|
                    1 <= i < rest@.len() ==> #[trigger] rest@[i]@ == old_rest[i]@);
            }
            rest
        }
    }
}

/// Each pattern segment against the actual segment in the same position.
fn segments_match_exec(ps: &Vec<Vec<char>>, aseg: &Vec<Vec<char>>) -> (r: bool)
    ensures
        r == segments_match(views_of(ps@), views_of(aseg@)),
{
    let n = ps.len();
    if n != aseg.len() {
        return false;
    }
    let mut i: usize = 0;
    while i < n
        invariant
            i <= n,
            n == ps@.len(),
            n == aseg@.len(),
            forall|j: int|
                0 <= j < i ==> seg_matches(
                    #[trigger] views_of(ps@)[j],
                    views_of(aseg@)[j],
                ),
        decreases n - i,
    {
        let p = &ps[i];
        let a = &aseg[i];
        proof {
            assert(views_of(ps@)[i as int] == ps@[i as int]@);
            assert(views_of(aseg@)[i as int] == aseg@[i as int]@);
        }
        let is_param = p.len() > 0 && p[0] == ':';
        if is_param {
            if a.len() == 0 {
                assert(!seg_matches(views_of(ps@)[i as int], views_of(aseg@)[i as int]));
                return false;
            }
        } else {
            if !chars_eq(p.as_slice(), a.as_slice()) {
                assert(!seg_matches(views_of(ps@)[i as int], views_of(aseg@)[i as int]));
                return false;
            }
        }
        i = i + 1;
    }
    true
}

/// Whether the registered key `route_pattern` matches the actual key
/// `actual_route`. Both keys carry their method code before the first
/// `':'`; the method parts must be equal and the paths must match segment
/// by segment, a `:name` pattern segment standing for any one non-empty
/// segment.
pub fn route_matches(route_pattern: &str, actual_route: &str) -> (r: bool)
    ensures
        r == spec_route_matches(route_pattern@, actual_route@),
{
    let pc = to_chars(route_pattern);
    let ac = to_chars(actual_route);
    let pi = find_in_chars(pc.as_slice(), ':');
    let ai = find_in_chars(ac.as_slice(), ':');
    proof {
        lemma_find_char(pc@, ':');
        lemma_find_char(ac@, ':');
    }
    if pi >= pc.len() || ai >= ac.len() {
        return false;
    }
    if pi != ai {
        return false;
    }
    let pm = slice_subrange(pc.as_slice(), 0, pi);
    let am = slice_subrange(ac.as_slice(), 0, ai);
    if !chars_eq(pm, am) {
        return false;
    }
    let pp = slice_subrange(pc.as_slice(), pi + 1, pc.len());
    let ap = slice_subrange(ac.as_slice(), ai + 1, ac.len());
    let ps = split_slice(pp, '/');
    let aseg = split_slice(ap, '/');
    segments_match_exec(&ps, &aseg)
}

/// A key that has a method separator always matches itself: literal
/// segments are equal to themselves, and a parameter segment is non-empty
/// because it holds at least its `':'`.
pub proof fn lemma_route_matches_refl(k: Seq<char>)
    requires
        find_char(k, ':') < k.len(),
    ensures
        spec_route_matches(k, k),
{
    lemma_find_char(k, ':');
    lemma_path_matches_refl(k.subrange(find_char(k, ':') + 1, k.len() as int));
}

/// Every path matches itself.
pub proof fn lemma_path_matches_refl(pp: Seq<char>)
    ensures
        path_matches(pp, pp),
{
    let segs = split_on(pp, '/');
    assert forall|i: int| 0 <= i < segs.len() implies seg_matches(#[trigger] segs[i], segs[i]) by {
        if segs[i].len() > 0 && segs[i][0] == ':' {
            assert(segs[i].len() > 0);
        }
    }
}

/// A match never relates paths with different segment counts: if the keys
/// match, their path parts split into the same number of `/`-segments.
pub proof fn lemma_match_preserves_segment_count(pk: Seq<char>, ak: Seq<char>)
    requires
        spec_route_matches(pk, ak),
    ensures
        ({
            let pi = find_char(pk, ':');
            split_on(pk.subrange(pi + 1, pk.len() as int), '/').len() == split_on(
                ak.subrange(pi + 1, ak.len() as int),
                '/',
            ).len()
        }),
{
}

/// An empty actual segment never satisfies a parameter segment: a path
/// whose segment `i` is empty cannot match a pattern whose segment `i` is a
/// parameter.
pub proof fn lemma_empty_segment_never_matches_param(pp: Seq<char>, ap: Seq<char>, i: int)
    requires
        0 <= i < split_on(pp, '/').len(),
        0 <= i < split_on(ap, '/').len(),
        split_on(pp, '/')[i].len() > 0,
        split_on(pp, '/')[i][0] == ':',
        split_on(ap, '/')[i].len() == 0,
    ensures
        !path_matches(pp, ap),
{
}

} // verus!
