//! Comparisons and searches on text, stated over the characters of a string.

use vstd::prelude::*;
use vstd::string::*;

verus! {

/// `prefix` is the beginning of `s`.
pub open spec fn is_prefix(prefix: Seq<char>, s: Seq<char>) -> bool {
    prefix.len() <= s.len() && s.subrange(0, prefix.len() as int) == prefix
}

/// `suffix` is the end of `s`.
pub open spec fn is_suffix(suffix: Seq<char>, s: Seq<char>) -> bool {
    suffix.len() <= s.len() && s.subrange(s.len() - suffix.len(), s.len() as int) == suffix
}

/// `pattern` occurs in `s` starting at position `i`.
pub open spec fn occurs_at(s: Seq<char>, pattern: Seq<char>, i: int) -> bool {
    0 <= i && i + pattern.len() <= s.len() && s.subrange(i, i + pattern.len()) == pattern
}

/// `pattern` occurs somewhere in `s` (the empty pattern occurs in every string).
pub open spec fn contains_seq(s: Seq<char>, pattern: Seq<char>) -> bool {
    exists|i: int| occurs_at(s, pattern, i)
}

/// The characters of `s`, one by one.
pub fn chars_of(s: &str) -> (chars: Vec<char>)
    ensures
        chars@ == s@,
{
    let n = s.unicode_len();
    let mut chars: Vec<char> = Vec::new();
    let mut i: usize = 0;
    while i < n
        invariant
            n == s@.len(),
            i <= n,
            chars@ == s@.subrange(0, i as int),
        decreases n - i,
    {
        let c = s.get_char(i);
        chars.push(c);
        i = i + 1;
    }
    chars
}

/// Whether `pattern` occurs in `s` starting at position `i`.
pub fn chars_occur_at(s: &Vec<char>, pattern: &Vec<char>, i: usize) -> (b: bool)
    ensures
        b == occurs_at(s@, pattern@, i as int),
{
    if i > s.len() || pattern.len() > s.len() - i {
        return false;
    }
    let mut j: usize = 0;
    while j < pattern.len()
        invariant
            i + pattern.len() <= s.len(),
            j <= pattern.len(),
            forall|k: int| 0 <= k < j ==> s@[i + k] == pattern@[k],
        decreases pattern.len() - j,
    {
        if s[i + j] != pattern[j] {
            assert(s@.subrange(i as int, i + pattern.len())[j as int] != pattern@[j as int]);
            return false;
        }
        j = j + 1;
    }
    assert(s@.subrange(i as int, i + pattern.len()) =~= pattern@);
    true
}

/// Whether the two strings hold the same characters.
pub fn str_eq(a: &str, b: &str) -> (eq: bool)
    ensures
        eq == (a@ == b@),
{
    let a_chars = chars_of(a);
    let b_chars = chars_of(b);
    if a_chars.len() != b_chars.len() {
        return false;
    }
    let eq = chars_occur_at(&a_chars, &b_chars, 0);
    if eq {
        assert(a@.subrange(0, a@.len() as int) =~= a@);
    } else {
        assert(a@.subrange(0, b@.len() as int) =~= a@);
    }
    eq
}

/// Whether `s` begins with `prefix`.
pub fn str_starts_with(s: &str, prefix: &str) -> (b: bool)
    ensures
        b == is_prefix(prefix@, s@),
{
    let s_chars = chars_of(s);
    let p_chars = chars_of(prefix);
    chars_occur_at(&s_chars, &p_chars, 0)
}

/// Whether `s` ends with `suffix`.
pub fn str_ends_with(s: &str, suffix: &str) -> (b: bool)
    ensures
        b == is_suffix(suffix@, s@),
{
    let s_chars = chars_of(s);
    let p_chars = chars_of(suffix);
    if p_chars.len() > s_chars.len() {
        return false;
    }
    chars_occur_at(&s_chars, &p_chars, s_chars.len() - p_chars.len())
}

/// Whether `pattern` occurs in `s`.
pub fn str_contains(s: &str, pattern: &str) -> (b: bool)
    ensures
        b == contains_seq(s@, pattern@),
{
    let s_chars = chars_of(s);
    let p_chars = chars_of(pattern);
    if p_chars.len() > s_chars.len() {
        assert forall|i: int| !occurs_at(s@, pattern@, i) by {}
        return false;
    }
    let last = s_chars.len() - p_chars.len();
    let mut i: usize = 0;
    loop
        invariant
            last == s@.len() - pattern@.len(),
            s_chars@ == s@,
            p_chars@ == pattern@,
            i <= last,
            forall|k: int| 0 <= k < i ==> !occurs_at(s@, pattern@, k),
        decreases last - i,
    {
        if chars_occur_at(&s_chars, &p_chars, i) {
            return true;
        }
        if i == last {
            assert forall|k: int| !occurs_at(s@, pattern@, k) by {
                if 0 <= k && k + pattern@.len() <= s@.len() {
                    assert(k <= last);
                }
            }
            return false;
        }
        i = i + 1;
    }
}

/// Whether `c` is white space in Unicode's sense (the `White_Space`
/// property, as `char::is_whitespace` and `str::trim` use it).
pub open spec fn is_white_space(c: char) -> bool {
    let u = c as u32;
    ||| '\u{9}' as u32 <= u <= '\u{d}' as u32
    ||| u == 0x20
    ||| u == 0x85
    ||| u == 0xa0
    ||| u == 0x1680
    ||| 0x2000 <= u <= 0x200a
    ||| u == 0x2028
    ||| u == 0x2029
    ||| u == 0x202f
    ||| u == 0x205f
    ||| u == 0x3000
}

/// Whether `s` holds nothing but white space (it is empty once trimmed).
pub open spec fn is_blank(s: Seq<char>) -> bool {
    forall|i: int| 0 <= i < s.len() ==> is_white_space(#[trigger] s[i])
}

/// Whether `c` is white space (see `is_white_space`).
pub fn char_is_white_space(c: char) -> (b: bool)
    ensures
        b == is_white_space(c),
{
    let u = c as u32;
    (9 <= u && u <= 13) || u == 0x20 || u == 0x85 || u == 0xa0 || u == 0x1680 || (0x2000 <= u
        && u <= 0x200a) || u == 0x2028 || u == 0x2029 || u == 0x202f || u == 0x205f || u == 0x3000
}

/// Whether `s` holds nothing but white space.
pub fn str_is_blank(s: &str) -> (b: bool)
    ensures
        b == is_blank(s@),
{
    let n = s.unicode_len();
    let mut i: usize = 0;
    while i < n
        invariant
            n == s@.len(),
            i <= n,
            forall|j: int| 0 <= j < i ==> is_white_space(#[trigger] s@[j]),
        decreases n - i,
    {
        if !char_is_white_space(s.get_char(i)) {
            return false;
        }
        i = i + 1;
    }
    true
}

} // verus!
