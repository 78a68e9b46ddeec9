//! String helpers shared by the classifier, the manifest reader and the
//! diff engine: equality, prefix tests, trimming, and simple scanning over
//! `&str`, each against an exact character-sequence specification.

use vstd::prelude::*;

verus! {

/// Relies on str's `PartialEq`: two string slices are equal exactly when
/// their character contents are equal.
#[verifier::external_body]
pub fn str_eq(a: &str, b: &str) -> (r: bool)
    ensures
        r == (a@ == b@),
{
    a == b
}

/// Equality between an owned string and a slice, through `str_eq`.
pub fn string_eq_str(a: &String, b: &str) -> (r: bool)
    ensures
        r == (a@ == b@),
{
    str_eq(a.as_str(), b)
}

// ---------------------------------------------------------------------------
// Prefix tests.
// ---------------------------------------------------------------------------

pub open spec fn spec_starts_with(s: Seq<char>, p: Seq<char>) -> bool {
    s.len() >= p.len() && s.subrange(0, p.len() as int) == p
}

pub fn starts_with(s: &str, p: &str) -> (r: bool)
    ensures
        r == spec_starts_with(s@, p@),
{
    let n = s.unicode_len();
    let m = p.unicode_len();
    if n < m {
        return false;
    }
    let head = s.substring_char(0, m);
    str_eq(head, p)
}

// ---------------------------------------------------------------------------
// Scanning for a character.
// ---------------------------------------------------------------------------

/// The index of the first occurrence of `c` at or after `from`, or the
/// length of `s` when there is none.
pub open spec fn spec_find_char(s: Seq<char>, from: int, c: char) -> int
    decreases s.len() - from,
{
    if from < 0 || from >= s.len() {
        s.len() as int
    } else if s[from] == c {
        from
    } else {
        spec_find_char(s, from + 1, c)
    }
}

pub proof fn lemma_find_char_props(s: Seq<char>, from: int, c: char)
    requires
        0 <= from <= s.len(),
    ensures
        from <= spec_find_char(s, from, c) <= s.len(),
        spec_find_char(s, from, c) < s.len() ==> s[spec_find_char(s, from, c)] == c,
        forall|j: int| from <= j < spec_find_char(s, from, c) ==> s[j] != c,
    decreases s.len() - from,
{
    if from < s.len() && s[from] != c {
        lemma_find_char_props(s, from + 1, c);
    }
}

pub fn find_char(s: &str, from: usize, c: char) -> (r: usize)
    requires
        from <= s@.len(),
    ensures
        r == spec_find_char(s@, from as int, c),
        from <= r <= s@.len(),
{
    let n = s.unicode_len();
    let mut i = from;
    while i < n
        invariant
            from <= i <= n,
            n == s@.len(),
            spec_find_char(s@, from as int, c) == spec_find_char(s@, i as int, c),
        decreases n - i,
    {
        if s.get_char(i) == c {
            return i;
        }
        i = i + 1;
    }
    n
}

// ---------------------------------------------------------------------------
// Trimming.
// ---------------------------------------------------------------------------

/// The characters Rust's `str::trim` removes: Unicode white space.
pub open spec fn spec_is_whitespace(c: char) -> bool {
    ||| c == ' '
    ||| c == '\t'
    ||| c == '\n'
    ||| c == '\u{0B}'
    ||| c == '\u{0C}'
    ||| c == '\r'
    ||| c == '\u{85}'
    ||| c == '\u{A0}'
    ||| c == '\u{1680}'
    ||| c == '\u{2000}'
    ||| c == '\u{2001}'
    ||| c == '\u{2002}'
    ||| c == '\u{2003}'
    ||| c == '\u{2004}'
    ||| c == '\u{2005}'
    ||| c == '\u{2006}'
    ||| c == '\u{2007}'
    ||| c == '\u{2008}'
    ||| c == '\u{2009}'
    ||| c == '\u{200A}'
    ||| c == '\u{2028}'
    ||| c == '\u{2029}'
    ||| c == '\u{202F}'
    ||| c == '\u{205F}'
    ||| c == '\u{3000}'
}

pub fn is_whitespace_char(c: char) -> (r: bool)
    ensures
        r == spec_is_whitespace(c),
{
    c == ' ' || c == '\t' || c == '\n' || c == '\u{0B}' || c == '\u{0C}' || c == '\r' || c
        == '\u{85}' || c == '\u{A0}' || c == '\u{1680}' || c == '\u{2000}' || c == '\u{2001}' || c
        == '\u{2002}' || c == '\u{2003}' || c == '\u{2004}' || c == '\u{2005}' || c == '\u{2006}'
        || c == '\u{2007}' || c == '\u{2008}' || c == '\u{2009}' || c == '\u{200A}' || c
        == '\u{2028}' || c == '\u{2029}' || c == '\u{202F}' || c == '\u{205F}' || c == '\u{3000}'
}

/// `s` without its leading characters satisfying `pred`.
pub open spec fn strip_front(s: Seq<char>, pred: spec_fn(char) -> bool) -> Seq<char>
    decreases s.len(),
{
    if s.len() > 0 && pred(s[0]) {
        strip_front(s.drop_first(), pred)
    } else {
        s
    }
}

/// `s` without its trailing characters satisfying `pred`.
pub open spec fn strip_back(s: Seq<char>, pred: spec_fn(char) -> bool) -> Seq<char>
    decreases s.len(),
{
    if s.len() > 0 && pred(s.last()) {
        strip_back(s.drop_last(), pred)
    } else {
        s
    }
}

pub open spec fn spec_trim_pred(s: Seq<char>, pred: spec_fn(char) -> bool) -> Seq<char> {
    strip_back(strip_front(s, pred), pred)
}

/// What `str::trim` returns.
pub open spec fn spec_trim(s: Seq<char>) -> Seq<char> {
    spec_trim_pred(s, |c: char| spec_is_whitespace(c))
}

proof fn lemma_strip_front_subrange(s: Seq<char>, pred: spec_fn(char) -> bool, a: int)
    requires
        0 <= a <= s.len(),
        forall|j: int| 0 <= j < a ==> pred(s[j]),
        a == s.len() || !pred(s[a]),
    ensures
        strip_front(s, pred) == s.subrange(a, s.len() as int),
    decreases a,
{
    if a == 0 {
        assert(s.subrange(0, s.len() as int) =~= s);
    } else {
        let t = s.drop_first();
        lemma_strip_front_subrange(t, pred, a - 1);
        assert(t.subrange(a - 1, t.len() as int) =~= s.subrange(a, s.len() as int));
    }
}

proof fn lemma_strip_back_subrange(s: Seq<char>, pred: spec_fn(char) -> bool, b: int)
    requires
        0 <= b <= s.len(),
        forall|j: int| b <= j < s.len() ==> pred(s[j]),
        b == 0 || !pred(s[b - 1]),
    ensures
        strip_back(s, pred) == s.subrange(0, b),
    decreases s.len() - b,
{
    if b == s.len() {
        assert(s.subrange(0, b) =~= s);
    } else {
        let t = s.drop_last();
        lemma_strip_back_subrange(t, pred, b);
        assert(t.subrange(0, b) =~= s.subrange(0, b));
    }
}

/// `str::trim`: the slice with leading and trailing white space removed.
#[verifier::loop_isolation(false)]
pub fn trim<'a>(s: &'a str) -> (r: &'a str)
    ensures
        r@ == spec_trim(s@),
{
    let ghost pred = |c: char| spec_is_whitespace(c);
    let n = s.unicode_len();
    let mut a: usize = 0;
    while a < n && is_whitespace_char(s.get_char(a))
        invariant
            0 <= a <= n,
            n == s@.len(),
            forall|j: int| 0 <= j < a ==> pred(s@[j]),
        decreases n - a,
    {
        a = a + 1;
    }
    proof {
        lemma_strip_front_subrange(s@, pred, a as int);
    }
    let mut b: usize = n;
    while b > a && is_whitespace_char(s.get_char(b - 1))
        invariant
            a <= b <= n,
            n == s@.len(),
            forall|j: int| b <= j < n ==> pred(s@[j]),
        decreases b,
    {
        b = b - 1;
    }
    let ghost mid = s@.subrange(a as int, n as int);
    proof {
        if b == a {
            assert(mid.len() == n - a);
            lemma_strip_back_subrange(mid, pred, 0);
        } else {
            assert(mid[b - a - 1] == s@[b as int - 1]);
            lemma_strip_back_subrange(mid, pred, b as int - a as int);
        }
        assert(mid.subrange(0, b as int - a as int) =~= s@.subrange(a as int, b as int));
    }
    s.substring_char(a, b)
}

/// The predicate "is this character `c`", as one shared term.
pub open spec fn is_char_pred(c: char) -> spec_fn(char) -> bool {
    |x: char| x == c
}

/// `s` with every leading and trailing occurrence of `c` removed.
pub open spec fn spec_trim_char(s: Seq<char>, c: char) -> Seq<char> {
    spec_trim_pred(s, is_char_pred(c))
}

/// `str::trim_matches` with a single character pattern: the slice with every
/// leading and trailing occurrence of `c` removed.
#[verifier::loop_isolation(false)]
pub fn trim_matches<'a>(s: &'a str, c: char) -> (r: &'a str)
    ensures
        r@ == spec_trim_char(s@, c),
{
    let ghost pred = is_char_pred(c);
    let n = s.unicode_len();
    let mut a: usize = 0;
    while a < n && s.get_char(a) == c
        invariant
            0 <= a <= n,
            n == s@.len(),
            forall|j: int| 0 <= j < a ==> pred(s@[j]),
        decreases n - a,
    {
        a = a + 1;
    }
    proof {
        lemma_strip_front_subrange(s@, pred, a as int);
    }
    let mut b: usize = n;
    while b > a && s.get_char(b - 1) == c
        invariant
            a <= b <= n,
            n == s@.len(),
            forall|j: int| b <= j < n ==> pred(s@[j]),
        decreases b,
    {
        b = b - 1;
    }
    let ghost mid = s@.subrange(a as int, n as int);
    proof {
        if b == a {
            lemma_strip_back_subrange(mid, pred, 0);
        } else {
            assert(mid[b - a - 1] == s@[b as int - 1]);
            lemma_strip_back_subrange(mid, pred, b as int - a as int);
        }
        assert(mid.subrange(0, b as int - a as int) =~= s@.subrange(a as int, b as int));
    }
    s.substring_char(a, b)
}

// ---------------------------------------------------------------------------
// File-name extensions.
// ---------------------------------------------------------------------------

/// The index just past the last `.` of `s`, or `0` when there is none.
pub open spec fn spec_after_last_dot(s: Seq<char>) -> int
    decreases s.len(),
{
    if s.len() == 0 {
        0
    } else if s.last() == '.' {
        s.len() as int
    } else {
        spec_after_last_dot(s.drop_last())
    }
}

/// What `Path::extension` answers for a plain file name: the part after the
/// last dot, unless the name has no dot or only a leading one.
pub open spec fn spec_extension(name: Seq<char>) -> Option<Seq<char>> {
    let e = spec_after_last_dot(name);
    if e <= 1 {
        None
    } else {
        Some(name.subrange(e, name.len() as int))
    }
}

proof fn lemma_after_last_dot_at(s: Seq<char>, e: int)
    requires
        0 <= e <= s.len(),
        e > 0 ==> s[e - 1] == '.',
        e == 0 ==> forall|j: int| 0 <= j < s.len() ==> s[j] != '.',
        forall|j: int| e <= j < s.len() ==> s[j] != '.',
    ensures
        spec_after_last_dot(s) == e,
    decreases s.len(),
{
    if s.len() > 0 && s.last() != '.' {
        lemma_after_last_dot_at(s.drop_last(), e);
    }
}

/// The extension of a file name, as `Path::extension` sees it.
pub fn extension_of<'a>(name: &'a str) -> (r: Option<&'a str>)
    ensures
        match r {
            Some(e) => spec_extension(name@) == Some(e@),
            None => spec_extension(name@) is None,
        },
{
    let n = name.unicode_len();
    let mut i: usize = n;
    while i > 0
        invariant
            0 <= i <= n,
            n == name@.len(),
            forall|j: int| i <= j < n ==> name@[j] != '.',
        decreases i,
    {
        if name.get_char(i - 1) == '.' {
            proof {
                lemma_after_last_dot_at(name@, i as int);
            }
            if i <= 1 {
                return None;
            }
            return Some(name.substring_char(i, n));
        }
        i = i - 1;
    }
    proof {
        lemma_after_last_dot_at(name@, 0);
    }
    None
}

} // verus!
