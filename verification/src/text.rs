use vstd::prelude::*;

verus! {

// Small verified text utilities shared by the token reader and the tree
// reader: whitespace, stripping characters off both ends, finding a
// separator, and character-wise string equality.

/// Whether `c` has the White_Space property, the set `str::trim` removes.
pub open spec fn is_space(c: char) -> bool {
    ||| c == '\u{0009}'
    ||| c == '\u{000A}'
    ||| c == '\u{000B}'
    ||| c == '\u{000C}'
    ||| c == '\u{000D}'
    ||| c == ' '
    ||| c == '\u{0085}'
    ||| c == '\u{00A0}'
    ||| c == '\u{1680}'
    ||| c == '\u{2000}'
    ||| c == '\u{2001}'
    ||| c == '\u{2002}'
    ||| c == '\u{2003}'
    ||| c == '\u{2004}'
    ||| c == '\u{2005}'
    ||| c == '\u{2006}'
    ||| c == '\u{2007}'
    ||| c == '\u{2008}'
    ||| c == '\u{2009}'
    ||| c == '\u{200A}'
    ||| c == '\u{2028}'
    ||| c == '\u{2029}'
    ||| c == '\u{202F}'
    ||| c == '\u{205F}'
    ||| c == '\u{3000}'
}

/// Whether `c` has the White_Space property (see `is_space`).
pub fn is_space_char(c: char) -> (r: bool)
    ensures
        r == is_space(c),
{
    c == '\u{0009}' || c == '\u{000A}' || c == '\u{000B}' || c == '\u{000C}' || c == '\u{000D}'
        || c == ' ' || c == '\u{0085}' || c == '\u{00A0}' || c == '\u{1680}' || c == '\u{2000}'
        || c == '\u{2001}' || c == '\u{2002}' || c == '\u{2003}' || c == '\u{2004}' || c
        == '\u{2005}' || c == '\u{2006}' || c == '\u{2007}' || c == '\u{2008}' || c == '\u{2009}'
        || c == '\u{200A}' || c == '\u{2028}' || c == '\u{2029}' || c == '\u{202F}' || c
        == '\u{205F}' || c == '\u{3000}'
}

/// `s` with its longest prefix of characters satisfying `p` removed.
pub open spec fn sp_drop_leading(s: Seq<char>, p: spec_fn(char) -> bool) -> Seq<char>
    decreases s.len(),
{
    if s.len() > 0 && p(s[0]) {
        sp_drop_leading(s.subrange(1, s.len() as int), p)
    } else {
        s
    }
}

/// `s` with its longest suffix of characters satisfying `p` removed.
pub open spec fn sp_drop_trailing(s: Seq<char>, p: spec_fn(char) -> bool) -> Seq<char>
    decreases s.len(),
{
    if s.len() > 0 && p(s.last()) {
        sp_drop_trailing(s.drop_last(), p)
    } else {
        s
    }
}

/// `s` with all leading and trailing characters satisfying `p` removed.
pub open spec fn sp_strip(s: Seq<char>, p: spec_fn(char) -> bool) -> Seq<char> {
    sp_drop_trailing(sp_drop_leading(s, p), p)
}

/// The predicate holding of the one character `c0`.
pub open spec fn eq_char(c0: char) -> spec_fn(char) -> bool {
    |c: char| c == c0
}

/// The White_Space predicate as a value (see `is_space`).
pub open spec fn space_pred() -> spec_fn(char) -> bool {
    |c: char| is_space(c)
}

/// What `str::trim` leaves of `s`.
pub open spec fn sp_trim(s: Seq<char>) -> Seq<char> {
    sp_strip(s, space_pred())
}

/// What `str::trim_matches(c0)` leaves of `s`.
pub open spec fn sp_trim_char(s: Seq<char>, c0: char) -> Seq<char> {
    sp_strip(s, eq_char(c0))
}

/// Dropping a leading run is taking the subrange after it.
pub proof fn lemma_drop_leading(s: Seq<char>, p: spec_fn(char) -> bool, k: int)
    requires
        0 <= k <= s.len(),
        forall|j: int| 0 <= j < k ==> p(#[trigger] s[j]),
        k == s.len() || !p(s[k]),
    ensures
        sp_drop_leading(s, p) == s.subrange(k, s.len() as int),
    decreases s.len(),
{
    if k == 0 {
        assert(s.subrange(0, s.len() as int) =~= s);
    } else {
        let s1 = s.subrange(1, s.len() as int);
        assert(forall|j: int| 0 <= j < k - 1 ==> p(#[trigger] s1[j]));
        lemma_drop_leading(s1, p, k - 1);
        assert(s1.subrange(k - 1, s1.len() as int) =~= s.subrange(k, s.len() as int));
    }
}

/// Dropping a trailing run is taking the subrange before it.
pub proof fn lemma_drop_trailing(s: Seq<char>, p: spec_fn(char) -> bool, k: int)
    requires
        0 <= k <= s.len(),
        forall|j: int| k <= j < s.len() ==> p(#[trigger] s[j]),
        k == 0 || !p(s[k - 1]),
    ensures
        sp_drop_trailing(s, p) == s.subrange(0, k),
    decreases s.len(),
{
    if k == s.len() {
        assert(s.subrange(0, k) =~= s);
    } else {
        let s1 = s.drop_last();
        assert(forall|j: int| k <= j < s1.len() ==> p(#[trigger] s1[j]));
        lemma_drop_trailing(s1, p, k);
        assert(s1.subrange(0, k) =~= s.subrange(0, k));
    }
}

/// The position of the first occurrence of `c` in `s` at or after `from`,
/// or the length of `s` if there is none.
pub open spec fn sp_find_from(s: Seq<char>, c: char, from: int) -> int
    decreases s.len() - from,
{
    if from >= s.len() {
        s.len() as int
    } else if s[from] == c {
        from
    } else {
        sp_find_from(s, c, from + 1)
    }
}

/// Finds the first occurrence of `c` in `line` at or after `from` (see
/// `sp_find_from`).
pub fn find_char_from(line: &str, from: usize, c: char) -> (r: usize)
    requires
        from <= line@.len(),
    ensures
        r == sp_find_from(line@, c, from as int),
        from <= r <= line@.len(),
        r < line@.len() ==> line@[r as int] == c,
        forall|j: int| from <= j < r ==> line@[j] != c,
{
    let n = line.unicode_len();
    let mut i: usize = from;
    while i < n
        invariant
            from <= i <= n,
            n == line@.len(),
            sp_find_from(line@, c, from as int) == sp_find_from(line@, c, i as int),
            forall|j: int| from <= j < i ==> line@[j] != c,
        decreases n - i,
    {
        if line.get_char(i) == c {
            return i;
        }
        i = i + 1;
    }
    n
}

/// The bounds of what `str::trim` leaves of `line@.subrange(lo, hi)`: the
/// trimmed text is `line@.subrange(r.0, r.1)`.
pub fn trim_bounds(line: &str, lo: usize, hi: usize) -> (r: (usize, usize))
    requires
        lo <= hi <= line@.len(),
    ensures
        lo <= r.0 <= r.1 <= hi,
        sp_trim(line@.subrange(lo as int, hi as int)) == line@.subrange(r.0 as int, r.1 as int),
{
    let ghost s = line@.subrange(lo as int, hi as int);
    let ghost p = space_pred();
    let mut a: usize = lo;
    while a < hi && is_space_char(line.get_char(a))
        invariant
            lo <= a <= hi <= line@.len(),
            forall|j: int| lo <= j < a ==> is_space(#[trigger] line@[j]),
        decreases hi - a,
    {
        a = a + 1;
    }
    let mut b: usize = hi;
    while b > a && is_space_char(line.get_char(b - 1))
        invariant
            a <= b <= hi <= line@.len(),
            forall|j: int| b <= j < hi ==> is_space(#[trigger] line@[j]),
        decreases b,
    {
        b = b - 1;
    }
    proof {
        assert(forall|j: int| 0 <= j < a - lo ==> p(#[trigger] s[j]));
        assert(a - lo == s.len() || !p(s[a - lo]));
        lemma_drop_leading(s, p, a - lo);
        let s1 = s.subrange(a - lo, s.len() as int);
        assert(forall|j: int| b - a <= j < s1.len() ==> p(#[trigger] s1[j]));
        assert(b - a == 0 || !p(s1[b - a - 1]));
        lemma_drop_trailing(s1, p, b - a);
        assert(s1.subrange(0, b - a) =~= line@.subrange(a as int, b as int));
    }
    (a, b)
}

/// The bounds of what `str::trim_matches(c0)` leaves of
/// `line@.subrange(lo, hi)`: the stripped text is `line@.subrange(r.0, r.1)`.
pub fn trim_char_bounds(line: &str, lo: usize, hi: usize, c0: char) -> (r: (usize, usize))
    requires
        lo <= hi <= line@.len(),
    ensures
        lo <= r.0 <= r.1 <= hi,
        sp_trim_char(line@.subrange(lo as int, hi as int), c0) == line@.subrange(
            r.0 as int,
            r.1 as int,
        ),
{
    let ghost s = line@.subrange(lo as int, hi as int);
    let ghost p = eq_char(c0);
    let mut a: usize = lo;
    while a < hi && line.get_char(a) == c0
        invariant
            lo <= a <= hi <= line@.len(),
            forall|j: int| lo <= j < a ==> #[trigger] line@[j] == c0,
        decreases hi - a,
    {
        a = a + 1;
    }
    let mut b: usize = hi;
    while b > a && line.get_char(b - 1) == c0
        invariant
            a <= b <= hi <= line@.len(),
            forall|j: int| b <= j < hi ==> #[trigger] line@[j] == c0,
        decreases b,
    {
        b = b - 1;
    }
    proof {
        assert(forall|j: int| 0 <= j < a - lo ==> p(#[trigger] s[j]));
        assert(a - lo == s.len() || !p(s[a - lo]));
        lemma_drop_leading(s, p, a - lo);
        let s1 = s.subrange(a - lo, s.len() as int);
        assert(forall|j: int| b - a <= j < s1.len() ==> p(#[trigger] s1[j]));
        assert(b - a == 0 || !p(s1[b - a - 1]));
        lemma_drop_trailing(s1, p, b - a);
        assert(s1.subrange(0, b - a) =~= line@.subrange(a as int, b as int));
    }
    (a, b)
}

/// Character-wise string equality.
pub fn str_eq(a: &str, b: &str) -> (r: bool)
    ensures
        r == (a@ == b@),
{
    let na = a.unicode_len();
    let nb = b.unicode_len();
    if na != nb {
        return false;
    }
    let mut i: usize = 0;
    while i < na
        invariant
            0 <= i <= na,
            na == a@.len(),
            na == b@.len(),
            forall|j: int| 0 <= j < i ==> a@[j] == b@[j],
        decreases na - i,
    {
        if a.get_char(i) != b.get_char(i) {
            return false;
        }
        i = i + 1;
    }
    proof {
        assert(a@ =~= b@);
    }
    true
}

} // verus!
