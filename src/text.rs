//! Tokenising a typed command: whitespace, the first token and its arguments.
use vstd::prelude::*;
use vstd::string::*;

verus! {

/// The whitespace characters that separate tokens: those with the Unicode
/// `White_Space` property, as `char::is_whitespace` has them.
pub open spec fn is_space(c: char) -> bool {
    ||| ('\u{9}' <= c <= '\u{D}')
    ||| c == ' '
    ||| c == '\u{85}'
    ||| c == '\u{A0}'
    ||| c == '\u{1680}'
    ||| ('\u{2000}' <= c <= '\u{200A}')
    ||| c == '\u{2028}'
    ||| c == '\u{2029}'
    ||| c == '\u{202F}'
    ||| c == '\u{205F}'
    ||| c == '\u{3000}'
}

/// The first index at or after `i` that does not hold whitespace.
pub open spec fn skip_space(s: Seq<char>, i: int) -> int
    decreases s.len() - i,
{
    if i < 0 || i >= s.len() || !is_space(s[i]) {
        i
    } else {
        skip_space(s, i + 1)
    }
}

/// The first index at or after `i` that holds whitespace (or the end).
pub open spec fn skip_token(s: Seq<char>, i: int) -> int
    decreases s.len() - i,
{
    if i < 0 || i >= s.len() || is_space(s[i]) {
        i
    } else {
        skip_token(s, i + 1)
    }
}

/// Going back from `j`, the first index whose predecessor is not whitespace,
/// stopping at `lo`.
pub open spec fn skip_space_back(s: Seq<char>, lo: int, j: int) -> int
    decreases j - lo,
{
    if j <= lo || j > s.len() || !is_space(s[j - 1]) {
        j
    } else {
        skip_space_back(s, lo, j - 1)
    }
}

/// `s` without its leading and trailing whitespace.
pub open spec fn trimmed(s: Seq<char>) -> Seq<char> {
    let a = skip_space(s, 0);
    s.subrange(a, skip_space_back(s, a, s.len() as int))
}

/// Where the first token of `s` starts.
pub open spec fn token_start(s: Seq<char>) -> int {
    skip_space(s, 0)
}

/// Where the first token of `s` ends.
pub open spec fn token_end(s: Seq<char>) -> int {
    skip_token(s, token_start(s))
}

/// The first whitespace-delimited token of `s` (empty when `s` holds none).
pub open spec fn first_token(s: Seq<char>) -> Seq<char> {
    s.subrange(token_start(s), token_end(s))
}

/// What follows the first token of `s`, trimmed.
pub open spec fn command_args(s: Seq<char>) -> Seq<char> {
    trimmed(s.subrange(token_end(s), s.len() as int))
}

/// Skipping whitespace stays in bounds and passes only whitespace.
pub proof fn lemma_skip_space_bounds(s: Seq<char>, i: int)
    requires
        0 <= i <= s.len(),
    ensures
        i <= skip_space(s, i) <= s.len(),
        forall|k: int| i <= k < skip_space(s, i) ==> is_space(#[trigger] s[k]),
    decreases s.len() - i,
{
    if i < s.len() && is_space(s[i]) {
        lemma_skip_space_bounds(s, i + 1);
    }
}

/// Skipping a token stays in bounds.
pub proof fn lemma_skip_token_bounds(s: Seq<char>, i: int)
    requires
        0 <= i <= s.len(),
    ensures
        i <= skip_token(s, i) <= s.len(),
    decreases s.len() - i,
{
    if i < s.len() && !is_space(s[i]) {
        lemma_skip_token_bounds(s, i + 1);
    }
}

/// Skipping whitespace backwards stays between `lo` and `j`.
pub proof fn lemma_skip_space_back_bounds(s: Seq<char>, lo: int, j: int)
    requires
        0 <= lo <= j <= s.len(),
    ensures
        lo <= skip_space_back(s, lo, j) <= j,
    decreases j - lo,
{
    if j > lo && is_space(s[j - 1]) {
        lemma_skip_space_back_bounds(s, lo, j - 1);
    }
}

/// The characters of `s`, in order.
pub fn char_vec(s: &str) -> (v: Vec<char>)
    ensures
        v@ == s@,
{
    let n = s.unicode_len();
    let mut v: Vec<char> = Vec::new();
    let mut i: usize = 0;
    while i < n
        invariant
            n == s@.len(),
            i <= n,
            v@ == s@.subrange(0, i as int),
        decreases n - i,
    {
        v.push(s.get_char(i));
        i = i + 1;
    }
    v
}

fn is_space_char(c: char) -> (r: bool)
    ensures
        r == is_space(c),
{
    ('\u{9}' <= c && c <= '\u{D}') || c == ' ' || c == '\u{85}' || c == '\u{A0}' || c == '\u{1680}'
        || ('\u{2000}' <= c && c <= '\u{200A}') || c == '\u{2028}' || c == '\u{2029}'
        || c == '\u{202F}' || c == '\u{205F}' || c == '\u{3000}'
}

fn exec_skip_space(v: &Vec<char>, start: usize) -> (r: usize)
    requires
        start <= v@.len(),
    ensures
        r as int == skip_space(v@, start as int),
{
    let mut i = start;
    while i < v.len() && is_space_char(v[i])
        invariant
            start <= i <= v@.len(),
            skip_space(v@, i as int) == skip_space(v@, start as int),
        decreases v@.len() - i,
    {
        i = i + 1;
    }
    i
}

fn exec_skip_token(v: &Vec<char>, start: usize) -> (r: usize)
    requires
        start <= v@.len(),
    ensures
        r as int == skip_token(v@, start as int),
{
    let mut i = start;
    while i < v.len() && !is_space_char(v[i])
        invariant
            start <= i <= v@.len(),
            skip_token(v@, i as int) == skip_token(v@, start as int),
        decreases v@.len() - i,
    {
        i = i + 1;
    }
    i
}

fn exec_skip_space_back(v: &Vec<char>, lo: usize, end: usize) -> (r: usize)
    requires
        lo <= end <= v@.len(),
    ensures
        r as int == skip_space_back(v@, lo as int, end as int),
{
    let mut j = end;
    while j > lo && is_space_char(v[j - 1])
        invariant
            lo <= j <= end,
            end <= v@.len(),
            skip_space_back(v@, lo as int, j as int) == skip_space_back(v@, lo as int, end as int),
        decreases j,
    {
        j = j - 1;
    }
    j
}

/// The first whitespace-delimited token of a typed command.
pub fn get_command_from_query_string(query: &str) -> (r: &str)
    ensures
        r@ == first_token(query@),
{
    let v = char_vec(query);
    let a = exec_skip_space(&v, 0);
    proof {
        lemma_skip_space_bounds(v@, 0);
    }
    let b = exec_skip_token(&v, a);
    proof {
        lemma_skip_token_bounds(v@, a as int);
    }
    query.substring_char(a, b)
}

/// The arguments of a typed command: what follows its first token, trimmed.
pub fn get_command_args(args: &str) -> (r: &str)
    ensures
        r@ == command_args(args@),
{
    let v = char_vec(args);
    let a = exec_skip_space(&v, 0);
    proof {
        lemma_skip_space_bounds(v@, 0);
    }
    let b = exec_skip_token(&v, a);
    proof {
        lemma_skip_token_bounds(v@, a as int);
    }
    let rest = args.substring_char(b, v.len());
    let w = char_vec(rest);
    let c = exec_skip_space(&w, 0);
    proof {
        lemma_skip_space_bounds(w@, 0);
    }
    let d = exec_skip_space_back(&w, c, w.len());
    proof {
        lemma_skip_space_back_bounds(w@, c as int, w@.len() as int);
    }
    rest.substring_char(c, d)
}

/// Whether `p` is a prefix of `s`.
pub fn starts_with(s: &str, p: &str) -> (r: bool)
    ensures
        r == (p@.len() <= s@.len() && s@.subrange(0, p@.len() as int) == p@),
{
    let n = s.unicode_len();
    let m = p.unicode_len();
    if m > n {
        return false;
    }
    let mut i: usize = 0;
    while i < m
        invariant
            n == s@.len(),
            m == p@.len(),
            m <= n,
            i <= m,
            s@.subrange(0, i as int) == p@.subrange(0, i as int),
        decreases m - i,
    {
        if s.get_char(i) != p.get_char(i) {
            assert(s@.subrange(0, m as int)[i as int] != p@[i as int]);
            return false;
        }
        assert(s@.subrange(0, i + 1) == s@.subrange(0, i as int).push(s@[i as int]));
        assert(p@.subrange(0, i + 1) == p@.subrange(0, i as int).push(p@[i as int]));
        i = i + 1;
    }
    assert(p@.subrange(0, m as int) == p@);
    true
}

/// Whether `a` and `b` hold the same characters.
pub fn str_eq(a: &str, b: &str) -> (r: bool)
    ensures
        r == (a@ == b@),
{
    let n = a.unicode_len();
    let m = b.unicode_len();
    if n != m {
        return false;
    }
    let r = starts_with(a, b);
    assert(a@.subrange(0, n as int) == a@);
    r
}

} // verus!
