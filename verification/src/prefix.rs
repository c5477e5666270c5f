//! The file-name prefix of saved screenshots and recordings.
//!
//! A prefix must stay one plain file name inside the save folder: path
//! separators, the characters Windows rejects and control characters are
//! dropped, whitespace and dots go from both ends (so `..` cannot climb out
//! and nothing becomes a hidden file), and an empty result falls back to the
//! default.
use vstd::prelude::*;
use crate::text::{chars_of, drop_back, drop_front, is_ctrl, is_control, is_dot, is_ws, string_of, trim_bounds, trim_by, TrimSet};

verus! {

pub const DEFAULT_PREFIX: &'static str = "Socorin";

/// Leaves room for the time stamp and extension on every file system.
pub const MAX_PREFIX_LEN: usize = 64;

/// Path separators and the characters Windows rejects in file names.
pub open spec fn is_reserved(c: char) -> bool {
    c == '/' || c == '\\' || c == ':' || c == '*' || c == '?' || c == '"' || c == '<' || c == '>'
        || c == '|'
}

/// A character that may stand in a prefix.
pub open spec fn allowed_in_prefix(c: char) -> bool {
    !is_ctrl(c) && !is_reserved(c)
}

pub open spec fn prefix_filter() -> spec_fn(char) -> bool {
    |c: char| allowed_in_prefix(c)
}

/// The allowed characters of `raw`, at most `MAX_PREFIX_LEN` of them.
pub open spec fn kept_chars(raw: Seq<char>) -> Seq<char> {
    let f = raw.filter(prefix_filter());
    if f.len() <= MAX_PREFIX_LEN {
        f
    } else {
        f.take(MAX_PREFIX_LEN as int)
    }
}

/// What `sanitise_prefix` returns for `raw`: the kept characters without the
/// whitespace and dots at either end; the default prefix if nothing is left.
pub open spec fn sanitised(raw: Seq<char>) -> Seq<char> {
    let t = trim_by(kept_chars(raw), TrimSet::WhitespaceOrDot);
    if t.len() == 0 {
        DEFAULT_PREFIX@
    } else {
        t
    }
}

/// A prefix that is one plain file name: not empty, bounded, only allowed
/// characters, and no whitespace or dot at either end.
pub open spec fn is_plain_prefix(s: Seq<char>) -> bool {
    &&& 0 < s.len() <= MAX_PREFIX_LEN
    &&& forall|i: int| 0 <= i < s.len() ==> allowed_in_prefix(#[trigger] s[i])
    &&& !is_ws(s[0]) && !is_dot(s[0])
    &&& !is_ws(s.last()) && !is_dot(s.last())
}

fn allowed_char(c: char) -> (r: bool)
    ensures
        r == allowed_in_prefix(c),
{
    !is_control(c) && !(c == '/' || c == '\\' || c == ':' || c == '*' || c == '?' || c == '"' || c
        == '<' || c == '>' || c == '|')
}

proof fn lemma_take_push(s: Seq<char>, i: int)
    requires
        0 <= i < s.len(),
    ensures
        s.take(i + 1) == s.take(i).push(s[i]),
{
    assert(s.take(i + 1) =~= s.take(i).push(s[i]));
}

/// Once `MAX_PREFIX_LEN` characters of a front part are kept, the rest of the
/// string does not matter.
proof fn lemma_kept_from_front(s: Seq<char>, i: int)
    requires
        0 <= i <= s.len(),
        s.take(i).filter(prefix_filter()).len() == MAX_PREFIX_LEN,
    ensures
        kept_chars(s) == s.take(i).filter(prefix_filter()),
{
    let p = prefix_filter();
    assert(s =~= s.take(i) + s.skip(i));
    Seq::filter_distributes_over_add(s.take(i), s.skip(i), p);
    let a = s.take(i).filter(p);
    let b = s.skip(i).filter(p);
    assert((a + b).take(MAX_PREFIX_LEN as int) =~= a);
}

/// Drops the characters that cannot stand in a file name, keeps at most
/// `MAX_PREFIX_LEN` of the others, trims whitespace and dots from both ends,
/// and falls back to `DEFAULT_PREFIX` when nothing is left.
pub fn sanitise_prefix(raw: &str) -> (r: String)
    ensures
        r@ == sanitised(raw@),
{
    let v = chars_of(raw);
    let ghost p = prefix_filter();
    let mut kept: Vec<char> = Vec::new();
    let mut i: usize = 0;
    assert(v@.take(0) =~= Seq::<char>::empty());
    assert(Seq::<char>::empty().filter(p) =~= Seq::<char>::empty()) by {
        reveal(Seq::filter);
    }
    while i < v.len() && kept.len() < MAX_PREFIX_LEN
        invariant
            v@ == raw@,
            p == prefix_filter(),
            i <= v.len(),
            kept.len() <= MAX_PREFIX_LEN,
            kept@ == v@.take(i as int).filter(p),
        decreases v.len() - i,
    {
        let c = v[i];
        if allowed_char(c) {
            kept.push(c);
        }
        proof {
            lemma_take_push(v@, i as int);
            v@.take(i as int).lemma_filter_push(c, p);
        }
        i = i + 1;
    }
    proof {
        if kept.len() == MAX_PREFIX_LEN {
            lemma_kept_from_front(v@, i as int);
        } else {
            assert(v@.take(i as int) =~= v@);
        }
        assert(kept@.subrange(0, kept@.len() as int) =~= kept@);
    }
    let (e, f) = trim_bounds(&kept, 0, kept.len(), TrimSet::WhitespaceOrDot);
    if e == f {
        DEFAULT_PREFIX.to_owned()
    } else {
        string_of(&kept, e, f)
    }
}

// ---------------------------------------------------------------------------
// Laws
// ---------------------------------------------------------------------------

/// `drop_front` leaves a suffix of its argument.
proof fn lemma_drop_front_suffix(s: Seq<char>, set: TrimSet) -> (k: int)
    ensures
        0 <= k <= s.len(),
        drop_front(s, set) == s.subrange(k, s.len() as int),
        drop_front(s, set).len() > 0 ==> !set.holds(drop_front(s, set)[0]),
    decreases s.len(),
{
    if s.len() > 0 && set.holds(s[0]) {
        let k1 = lemma_drop_front_suffix(s.drop_first(), set);
        assert(s.drop_first().subrange(k1, s.drop_first().len() as int) =~= s.subrange(
            k1 + 1,
            s.len() as int,
        ));
        k1 + 1
    } else {
        assert(s.subrange(0, s.len() as int) =~= s);
        0
    }
}

/// `drop_back` leaves a prefix of its argument.
proof fn lemma_drop_back_prefix(s: Seq<char>, set: TrimSet) -> (k: int)
    ensures
        0 <= k <= s.len(),
        drop_back(s, set) == s.subrange(0, k),
        drop_back(s, set).len() > 0 ==> !set.holds(drop_back(s, set).last()),
    decreases s.len(),
{
    if s.len() > 0 && set.holds(s.last()) {
        let k1 = lemma_drop_back_prefix(s.drop_last(), set);
        assert(s.drop_last().subrange(0, k1) =~= s.subrange(0, k1));
        k1
    } else {
        assert(s.subrange(0, s.len() as int) =~= s);
        s.len() as int
    }
}

/// `trim_by` leaves a contiguous part of its argument, which neither begins
/// nor ends with a character of the set.
pub proof fn lemma_trim_by_part(s: Seq<char>, set: TrimSet) -> (r: (int, int))
    ensures
        0 <= r.0 <= r.1 <= s.len(),
        trim_by(s, set) == s.subrange(r.0, r.1),
        trim_by(s, set).len() > 0 ==> !set.holds(trim_by(s, set)[0]) && !set.holds(
            trim_by(s, set).last(),
        ),
{
    let k = lemma_drop_front_suffix(s, set);
    let u = drop_front(s, set);
    let j = lemma_drop_back_prefix(u, set);
    assert(u.subrange(0, j) =~= s.subrange(k, k + j));
    if trim_by(s, set).len() > 0 {
        assert(trim_by(s, set)[0] == u[0]);
    }
    (k, k + j)
}

/// A trimmed string with no character of the set at either end is unchanged.
proof fn lemma_trim_by_noop(s: Seq<char>, set: TrimSet)
    requires
        s.len() > 0,
        !set.holds(s[0]),
        !set.holds(s.last()),
    ensures
        trim_by(s, set) == s,
{
}

proof fn lemma_filter_keeps_all(s: Seq<char>)
    requires
        forall|i: int| 0 <= i < s.len() ==> allowed_in_prefix(#[trigger] s[i]),
    ensures
        s.filter(prefix_filter()) == s,
    decreases s.len(),
{
    reveal(Seq::filter);
    if s.len() > 0 {
        let t = s.drop_last();
        assert forall|i: int| 0 <= i < t.len() implies allowed_in_prefix(#[trigger] t[i]) by {
            assert(t[i] == s[i]);
        }
        lemma_filter_keeps_all(t);
        assert(t.push(s.last()) =~= s);
    }
}

/// Whatever the input, the sanitised prefix is one plain file name: not
/// empty, at most `MAX_PREFIX_LEN` characters, no path separator, no
/// character that Windows rejects and no control character, and no
/// whitespace or dot at either end (so it is neither `..` nor hidden).
pub proof fn lemma_sanitised_is_plain(raw: Seq<char>)
    ensures
        is_plain_prefix(sanitised(raw)),
{
    reveal_strlit("Socorin");
    let p = prefix_filter();
    let kept = kept_chars(raw);
    assert forall|i: int| 0 <= i < kept.len() implies allowed_in_prefix(#[trigger] kept[i]) by {
        raw.lemma_filter_pred(p, i);
    }
    let t = trim_by(kept, TrimSet::WhitespaceOrDot);
    let (a, b) = lemma_trim_by_part(kept, TrimSet::WhitespaceOrDot);
    assert forall|i: int| 0 <= i < t.len() implies allowed_in_prefix(#[trigger] t[i]) by {
        assert(t[i] == kept[a + i]);
    }
    if t.len() == 0 {
        let d = DEFAULT_PREFIX@;
        assert forall|i: int| 0 <= i < d.len() implies allowed_in_prefix(#[trigger] d[i]) by {}
    }
}

/// A prefix that is already one plain file name is kept as it is.
pub proof fn lemma_plain_prefix_is_kept(s: Seq<char>)
    requires
        is_plain_prefix(s),
    ensures
        sanitised(s) == s,
{
    lemma_filter_keeps_all(s);
    assert(kept_chars(s) == s);
    lemma_trim_by_noop(s, TrimSet::WhitespaceOrDot);
}

/// Sanitising twice gives what sanitising once gave: a stored prefix is a
/// fixed point of the sanitising that every load and update applies.
pub proof fn lemma_sanitise_idempotent(raw: Seq<char>)
    ensures
        sanitised(sanitised(raw)) == sanitised(raw),
{
    lemma_sanitised_is_plain(raw);
    lemma_plain_prefix_is_kept(sanitised(raw));
}

/// `idx` picks out `sub` from `s`: increasing positions of `s` that hold the
/// characters of `sub`, in order.
pub open spec fn picks(idx: Seq<int>, sub: Seq<char>, s: Seq<char>) -> bool {
    &&& idx.len() == sub.len()
    &&& forall|i: int| 0 <= i < idx.len() ==> 0 <= #[trigger] idx[i] < s.len() && s[idx[i]] == sub[i]
    &&& forall|i: int, j: int| 0 <= i < j < idx.len() ==> #[trigger] idx[i] < #[trigger] idx[j]
}

/// `sub` is `s` with some characters left out and the others kept in order.
pub open spec fn is_subsequence(sub: Seq<char>, s: Seq<char>) -> bool {
    exists|idx: Seq<int>| picks(idx, sub, s)
}

/// The positions that `filter` keeps.
proof fn lemma_filter_picks(s: Seq<char>, p: spec_fn(char) -> bool) -> (idx: Seq<int>)
    ensures
        picks(idx, s.filter(p), s),
    decreases s.len(),
{
    reveal(Seq::filter);
    if s.len() == 0 {
        Seq::empty()
    } else {
        let t = s.drop_last();
        let rest = lemma_filter_picks(t, p);
        assert forall|i: int| 0 <= i < rest.len() implies 0 <= #[trigger] rest[i] < s.len()
            && s[rest[i]] == t.filter(p)[i] by {
            assert(s[rest[i]] == t[rest[i]]);
        }
        if p(s.last()) {
            let idx = rest.push(s.len() - 1);
            assert(forall|i: int| 0 <= i < rest.len() ==> idx[i] == rest[i]);
            idx
        } else {
            rest
        }
    }
}

/// A part `sub[a..b]` of what `idx` picks is picked by `idx[a..b]`.
proof fn lemma_picks_subrange(idx: Seq<int>, sub: Seq<char>, s: Seq<char>, a: int, b: int)
    requires
        picks(idx, sub, s),
        0 <= a <= b <= sub.len(),
    ensures
        picks(idx.subrange(a, b), sub.subrange(a, b), s),
{
    let j = idx.subrange(a, b);
    assert forall|x: int, y: int| 0 <= x < y < j.len() implies #[trigger] j[x] < #[trigger] j[y] by {
        assert(idx[a + x] < idx[a + y]);
    }
    assert forall|x: int| 0 <= x < j.len() implies 0 <= #[trigger] j[x] < s.len() && s[j[x]]
        == sub.subrange(a, b)[x] by {
        assert(j[x] == idx[a + x]);
    }
}

/// The sanitised prefix is the default prefix or is made of characters of
/// the input, kept in their order: sanitising only leaves characters out.
pub proof fn lemma_sanitised_is_default_or_subsequence(raw: Seq<char>)
    ensures
        sanitised(raw) == DEFAULT_PREFIX@ || is_subsequence(sanitised(raw), raw),
{
    let p = prefix_filter();
    let f = raw.filter(p);
    let i0 = lemma_filter_picks(raw, p);
    let kept = kept_chars(raw);
    let i1 = if f.len() <= MAX_PREFIX_LEN {
        i0
    } else {
        lemma_picks_subrange(i0, f, raw, 0, MAX_PREFIX_LEN as int);
        assert(f.subrange(0, MAX_PREFIX_LEN as int) =~= f.take(MAX_PREFIX_LEN as int));
        i0.subrange(0, MAX_PREFIX_LEN as int)
    };
    assert(picks(i1, kept, raw));
    let t = trim_by(kept, TrimSet::WhitespaceOrDot);
    let (a, b) = lemma_trim_by_part(kept, TrimSet::WhitespaceOrDot);
    lemma_picks_subrange(i1, kept, raw, a, b);
    if t.len() > 0 {
        assert(picks(i1.subrange(a, b), sanitised(raw), raw));
    }
}

} // verus!
