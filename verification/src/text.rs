//! Character classes and small text operations over `Seq<char>`, with
//! executable counterparts on `&str`, `String` and `Vec<char>`.
use vstd::prelude::*;

verus! {

broadcast use vstd::string::group_string_axioms;

// ---------------------------------------------------------------------------
// Character classes
// ---------------------------------------------------------------------------

/// Unicode `White_Space` (what `char::is_whitespace` and `str::trim` use).
pub open spec fn is_ws(c: char) -> bool {
    let v = c as u32;
    ||| 0x09 <= v <= 0x0d
    ||| v == 0x20
    ||| v == 0x85
    ||| v == 0xa0
    ||| v == 0x1680
    ||| 0x2000 <= v <= 0x200a
    ||| v == 0x2028
    ||| v == 0x2029
    ||| v == 0x202f
    ||| v == 0x205f
    ||| v == 0x3000
}

/// Unicode general category `Cc` (what `char::is_control` tests).
pub open spec fn is_ctrl(c: char) -> bool {
    let v = c as u32;
    v < 0x20 || (0x7f <= v && v < 0xa0)
}

pub open spec fn is_dot(c: char) -> bool {
    c == '.'
}

pub open spec fn is_ascii_upper(c: char) -> bool {
    'A' <= c && c <= 'Z'
}

/// `char::to_ascii_lowercase`.
pub open spec fn ascii_lower(c: char) -> char {
    if is_ascii_upper(c) {
        ((c as u32) + 32) as char
    } else {
        c
    }
}

/// `str::to_ascii_lowercase`, char by char.
pub open spec fn lower_seq(s: Seq<char>) -> Seq<char> {
    Seq::new(s.len(), |i: int| ascii_lower(s[i]))
}

/// `char::is_ascii_hexdigit`.
pub open spec fn is_hex(c: char) -> bool {
    ('0' <= c && c <= '9') || ('a' <= c && c <= 'f') || ('A' <= c && c <= 'F')
}

/// ASCII case-insensitive equality (`eq_ignore_ascii_case`).
pub open spec fn eq_ignore_case(a: Seq<char>, b: Seq<char>) -> bool {
    a.len() == b.len() && forall|i: int| 0 <= i < a.len() ==> ascii_lower(#[trigger] a[i]) == ascii_lower(b[i])
}

pub fn is_whitespace(c: char) -> (r: bool)
    ensures
        r == is_ws(c),
{
    let v = c as u32;
    (0x09 <= v && v <= 0x0d) || v == 0x20 || v == 0x85 || v == 0xa0 || v == 0x1680 || (0x2000 <= v
        && v <= 0x200a) || v == 0x2028 || v == 0x2029 || v == 0x202f || v == 0x205f || v == 0x3000
}

pub fn is_control(c: char) -> (r: bool)
    ensures
        r == is_ctrl(c),
{
    let v = c as u32;
    v < 0x20 || (0x7f <= v && v < 0xa0)
}

pub fn is_hex_digit(c: char) -> (r: bool)
    ensures
        r == is_hex(c),
{
    ('0' <= c && c <= '9') || ('a' <= c && c <= 'f') || ('A' <= c && c <= 'F')
}

pub fn to_ascii_lower(c: char) -> (r: char)
    ensures
        r == ascii_lower(c),
{
    if 'A' <= c && c <= 'Z' {
        let v = (c as u32) + 32;
        assert(v < 0xd800);
        char_from_ascii(v)
    } else {
        c
    }
}

/// The character with the given (ASCII) code point.
fn char_from_ascii(v: u32) -> (c: char)
    requires
        v < 0x80,
    ensures
        c == v as char,
{
    let b = v as u8;
    let c = b as char;
    assert(c == v as char);
    c
}

// ---------------------------------------------------------------------------
// Trimming
// ---------------------------------------------------------------------------

/// The two sets of characters that are trimmed in this crate.
#[derive(Clone, Copy, PartialEq, Eq, Debug)]
pub enum TrimSet {
    /// Unicode whitespace.
    Whitespace,
    /// Unicode whitespace and `.`.
    WhitespaceOrDot,
}

impl TrimSet {
    pub open spec fn holds(self, c: char) -> bool {
        match self {
            TrimSet::Whitespace => is_ws(c),
            TrimSet::WhitespaceOrDot => is_ws(c) || is_dot(c),
        }
    }

    pub fn test(self, c: char) -> (r: bool)
        ensures
            r == self.holds(c),
    {
        match self {
            TrimSet::Whitespace => is_whitespace(c),
            TrimSet::WhitespaceOrDot => is_whitespace(c) || c == '.',
        }
    }
}

/// `s` without its leading characters of `set`.
pub open spec fn drop_front(s: Seq<char>, set: TrimSet) -> Seq<char>
    decreases s.len(),
{
    if s.len() > 0 && set.holds(s[0]) {
        drop_front(s.drop_first(), set)
    } else {
        s
    }
}

/// `s` without its trailing characters of `set`.
pub open spec fn drop_back(s: Seq<char>, set: TrimSet) -> Seq<char>
    decreases s.len(),
{
    if s.len() > 0 && set.holds(s.last()) {
        drop_back(s.drop_last(), set)
    } else {
        s
    }
}

/// `str::trim_matches` with the characters of `set` (`str::trim` for whitespace).
pub open spec fn trim_by(s: Seq<char>, set: TrimSet) -> Seq<char> {
    drop_back(drop_front(s, set), set)
}

/// `str::trim`.
pub open spec fn trim(s: Seq<char>) -> Seq<char> {
    trim_by(s, TrimSet::Whitespace)
}

proof fn lemma_drop_front_step(s: Seq<char>, lo: int, set: TrimSet)
    requires
        0 <= lo < s.len(),
        set.holds(s[lo]),
    ensures
        drop_front(s.subrange(lo, s.len() as int), set) == drop_front(
            s.subrange(lo + 1, s.len() as int),
            set,
        ),
{
    let t = s.subrange(lo, s.len() as int);
    assert(t.drop_first() =~= s.subrange(lo + 1, s.len() as int));
}

proof fn lemma_drop_back_step(s: Seq<char>, lo: int, hi: int, set: TrimSet)
    requires
        0 <= lo < hi <= s.len(),
        set.holds(s[hi - 1]),
    ensures
        drop_back(s.subrange(lo, hi), set) == drop_back(s.subrange(lo, hi - 1), set),
{
    let t = s.subrange(lo, hi);
    assert(t.drop_last() =~= s.subrange(lo, hi - 1));
}

/// Bounds `lo..hi` of `trim_by(v[from..to], set)` inside `v`.
pub fn trim_bounds(v: &Vec<char>, from: usize, to: usize, set: TrimSet) -> (r: (usize, usize))
    requires
        from <= to <= v.len(),
    ensures
        from <= r.0 <= r.1 <= to,
        v@.subrange(r.0 as int, r.1 as int) == trim_by(v@.subrange(from as int, to as int), set),
{
    let ghost s = v@.subrange(from as int, to as int);
    let mut lo = from;
    while lo < to && set.test(v[lo])
        invariant
            from <= lo <= to <= v.len(),
            s == v@.subrange(from as int, to as int),
            drop_front(s, set) == drop_front(v@.subrange(lo as int, to as int), set),
        decreases to - lo,
    {
        proof {
            let w = v@.subrange(0, to as int);
            lemma_drop_front_step(w, lo as int, set);
            assert(w.subrange(lo as int, to as int) =~= v@.subrange(lo as int, to as int));
            assert(w.subrange(lo + 1, to as int) =~= v@.subrange(lo + 1, to as int));
        }
        lo = lo + 1;
    }
    assert(drop_front(v@.subrange(lo as int, to as int), set) == v@.subrange(lo as int, to as int));
    let mut hi = to;
    while hi > lo && set.test(v[hi - 1])
        invariant
            from <= lo <= hi <= to <= v.len(),
            drop_front(s, set) == v@.subrange(lo as int, to as int),
            trim_by(s, set) == drop_back(v@.subrange(lo as int, hi as int), set),
        decreases hi - lo,
    {
        proof {
            lemma_drop_back_step(v@, lo as int, hi as int, set);
        }
        hi = hi - 1;
    }
    (lo, hi)
}

// ---------------------------------------------------------------------------
// Conversions and comparisons
// ---------------------------------------------------------------------------

/// The characters of `s`, in order.
pub fn chars_of(s: &str) -> (v: Vec<char>)
    ensures
        v@ == s@,
{
    let mut v: Vec<char> = Vec::new();
    for c in it: s.chars()
        invariant
            v@ == it.seq().take(it.index() as int),
    {
        v.push(c);
    }
    v
}

/// Appends `c` to `s` by `String::push`, which its documentation describes as
/// appending the given character to the end of the string.
#[verifier::external_body]
pub fn push_char(s: &mut String, c: char)
    ensures
        final(s)@ == old(s)@.push(c),
{
    s.push(c);
}

/// The string made of `v[from..to]`.
pub fn string_of(v: &Vec<char>, from: usize, to: usize) -> (s: String)
    requires
        from <= to <= v.len(),
    ensures
        s@ == v@.subrange(from as int, to as int),
{
    let mut s = String::new();
    let mut i = from;
    while i < to
        invariant
            from <= i <= to <= v.len(),
            s@ == v@.subrange(from as int, i as int),
        decreases to - i,
    {
        push_char(&mut s, v[i]);
        proof {
            assert(v@.subrange(from as int, i + 1) =~= v@.subrange(from as int, i as int).push(v@[i as int]));
        }
        i = i + 1;
    }
    s
}

/// Whether `a` and `b` hold the same characters.
pub fn str_eq(a: &str, b: &str) -> (r: bool)
    ensures
        r == (a@ == b@),
{
    let x = chars_of(a);
    let y = chars_of(b);
    chars_eq(&x, &y)
}

pub fn chars_eq(x: &Vec<char>, y: &Vec<char>) -> (r: bool)
    ensures
        r == (x@ == y@),
{
    if x.len() != y.len() {
        return false;
    }
    let mut i: usize = 0;
    while i < x.len()
        invariant
            x.len() == y.len(),
            i <= x.len(),
            forall|j: int| 0 <= j < i ==> x@[j] == y@[j],
        decreases x.len() - i,
    {
        if x[i] != y[i] {
            return false;
        }
        i = i + 1;
    }
    assert(x@ =~= y@);
    true
}

/// Whether `s` begins with `prefix`.
pub open spec fn starts_with(s: Seq<char>, prefix: Seq<char>) -> bool {
    prefix.len() <= s.len() && s.subrange(0, prefix.len() as int) == prefix
}

/// Whether `needle` occurs in `s` at `at`.
pub open spec fn occurs_at(s: Seq<char>, needle: Seq<char>, at: int) -> bool {
    0 <= at && at + needle.len() <= s.len() && s.subrange(at, at + needle.len()) == needle
}

/// Whether `needle` occurs somewhere in `s`.
pub open spec fn contains_seq(s: Seq<char>, needle: Seq<char>) -> bool {
    exists|at: int| occurs_at(s, needle, at)
}

/// Whether `x[at..at + y.len()] == y`.
fn matches_at(x: &Vec<char>, y: &Vec<char>, at: usize) -> (r: bool)
    requires
        at + y.len() <= x.len(),
    ensures
        r == occurs_at(x@, y@, at as int),
{
    let mut i: usize = 0;
    while i < y.len()
        invariant
            at + y.len() <= x.len(),
            i <= y.len(),
            forall|j: int| 0 <= j < i ==> x@[at + j] == y@[j],
        decreases y.len() - i,
    {
        if x[at + i] != y[i] {
            assert(x@.subrange(at as int, at + y@.len())[i as int] != y@[i as int]);
            return false;
        }
        i = i + 1;
    }
    assert(x@.subrange(at as int, at + y@.len()) =~= y@);
    true
}

pub fn seq_starts_with(s: &str, prefix: &str) -> (r: bool)
    ensures
        r == starts_with(s@, prefix@),
{
    let x = chars_of(s);
    let y = chars_of(prefix);
    if y.len() > x.len() {
        false
    } else {
        matches_at(&x, &y, 0)
    }
}

pub fn seq_contains(s: &str, needle: &str) -> (r: bool)
    ensures
        r == contains_seq(s@, needle@),
{
    let x = chars_of(s);
    let y = chars_of(needle);
    if y.len() > x.len() {
        assert forall|at: int| !occurs_at(x@, y@, at) by {}
        return false;
    }
    let last = x.len() - y.len();
    let mut at: usize = 0;
    loop
        invariant
            x@ == s@,
            y@ == needle@,
            last == x.len() - y.len(),
            at <= last,
            forall|k: int| 0 <= k < at ==> !occurs_at(x@, y@, k),
        ensures
            forall|k: int| 0 <= k <= last ==> !occurs_at(x@, y@, k),
        decreases last - at,
    {
        if matches_at(&x, &y, at) {
            assert(occurs_at(x@, y@, at as int));
            return true;
        }
        if at == last {
            break;
        }
        at = at + 1;
    }
    assert forall|k: int| !occurs_at(x@, y@, k) by {
        if 0 <= k && k + y@.len() <= x@.len() {
            assert(k <= last);
        }
    }
    false
}

/// Whether `v[from..to]`, compared ASCII case-insensitively, equals the text `lit`.
pub fn eq_ignore_case_range(v: &Vec<char>, from: usize, to: usize, lit: &str) -> (r: bool)
    requires
        from <= to <= v.len(),
    ensures
        r == eq_ignore_case(v@.subrange(from as int, to as int), lit@),
{
    let w = chars_of(lit);
    if to - from != w.len() {
        return false;
    }
    let mut i: usize = 0;
    while i < w.len()
        invariant
            from <= to <= v.len(),
            to - from == w.len(),
            w@ == lit@,
            i <= w.len(),
            forall|j: int|
                0 <= j < i ==> ascii_lower(#[trigger] v@.subrange(from as int, to as int)[j])
                    == ascii_lower(w@[j]),
        decreases w.len() - i,
    {
        if to_ascii_lower(v[from + i]) != to_ascii_lower(w[i]) {
            assert(ascii_lower(v@.subrange(from as int, to as int)[i as int]) != ascii_lower(
                w@[i as int],
            ));
            return false;
        }
        i = i + 1;
    }
    true
}

/// An ASCII hex digit by its code point: `0`-`9`, `A`-`F` or `a`-`f`.
pub open spec fn hex_code(c: char) -> bool {
    let n = c as u32;
    (48 <= n && n <= 57) || (65 <= n && n <= 70) || (97 <= n && n <= 102)
}

/// `is_hex` accepts exactly the sixteen digits in either case, and lowering
/// the ASCII case neither makes nor unmakes a hex digit.
pub proof fn lemma_hex_digits(c: char)
    ensures
        is_hex(c) <==> hex_code(c),
        hex_code(ascii_lower(c)) <==> hex_code(c),
        hex_code(c) ==> (ascii_lower(c) as u32 <= 57 || 97 <= ascii_lower(c) as u32),
{
}

} // verus!
