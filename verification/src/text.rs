//! Text utilities the probes' output runs through: whitespace
//! trimming and whitespace-separated field extraction, each pinned to
//! an index-level specification.

use vstd::prelude::*;
use vstd::string::*;

verus! {

/// The Unicode white-space characters, the set `str::trim` removes:
/// probe output is trimmed of these and fields are separated by them.
pub open spec fn is_space(c: char) -> bool {
    c == '\u{0009}' || c == '\u{000a}' || c == '\u{000b}' || c == '\u{000c}' || c == '\u{000d}'
        || c == '\u{0020}' || c == '\u{0085}' || c == '\u{00a0}' || c == '\u{1680}'
        || c == '\u{2000}' || c == '\u{2001}' || c == '\u{2002}' || c == '\u{2003}'
        || c == '\u{2004}' || c == '\u{2005}' || c == '\u{2006}' || c == '\u{2007}'
        || c == '\u{2008}' || c == '\u{2009}' || c == '\u{200a}' || c == '\u{2028}'
        || c == '\u{2029}' || c == '\u{202f}' || c == '\u{205f}' || c == '\u{3000}'
}

/// First index at or after `i` whose character is whitespace (when
/// `want_space`) or non-whitespace (when `!want_space`); the length of `s`
/// if no such character follows.
pub open spec fn seek(s: Seq<char>, i: int, want_space: bool) -> int
    decreases s.len() - i,
{
    if i < 0 || i >= s.len() {
        s.len() as int
    } else if is_space(s[i]) == want_space {
        i
    } else {
        seek(s, i + 1, want_space)
    }
}

/// One past the last non-whitespace character at an index below `j`;
/// 0 if every character below `j` is whitespace.
pub open spec fn rseek(s: Seq<char>, j: int) -> int
    decreases j,
{
    if j <= 0 {
        0
    } else if !is_space(s[j - 1]) {
        j
    } else {
        rseek(s, j - 1)
    }
}

/// `s` with its leading and trailing white space removed.
pub open spec fn trim_spec(s: Seq<char>) -> Seq<char> {
    let i = seek(s, 0, false);
    let j = rseek(s, s.len() as int);
    if i < j {
        s.subrange(i, j)
    } else {
        Seq::empty()
    }
}

/// The first whitespace-separated field of `s`, if `s` has one.
pub open spec fn first_field_spec(s: Seq<char>) -> Option<Seq<char>> {
    let a = seek(s, 0, false);
    let b = seek(s, a, true);
    if a < s.len() {
        Some(s.subrange(a, b))
    } else {
        None
    }
}

/// The second whitespace-separated field of `s`, if `s` has at least two.
pub open spec fn second_field_spec(s: Seq<char>) -> Option<Seq<char>> {
    let a = seek(s, 0, false);
    let b = seek(s, a, true);
    let c = seek(s, b, false);
    let d = seek(s, c, true);
    if c < s.len() {
        Some(s.subrange(c, d))
    } else {
        None
    }
}

fn is_space_exec(c: char) -> (b: bool)
    ensures
        b == is_space(c),
{
    c == '\u{0009}' || c == '\u{000a}' || c == '\u{000b}' || c == '\u{000c}' || c == '\u{000d}'
        || c == '\u{0020}' || c == '\u{0085}' || c == '\u{00a0}' || c == '\u{1680}'
        || c == '\u{2000}' || c == '\u{2001}' || c == '\u{2002}' || c == '\u{2003}'
        || c == '\u{2004}' || c == '\u{2005}' || c == '\u{2006}' || c == '\u{2007}'
        || c == '\u{2008}' || c == '\u{2009}' || c == '\u{200a}' || c == '\u{2028}'
        || c == '\u{2029}' || c == '\u{202f}' || c == '\u{205f}' || c == '\u{3000}'
}

fn seek_exec(s: &str, from: usize, want_space: bool) -> (r: usize)
    requires
        from as int <= s@.len(),
    ensures
        r as int == seek(s@, from as int, want_space),
        from <= r <= s@.len(),
{
    let len = s.unicode_len();
    let mut i = from;
    while i < len
        invariant
            from <= i <= len,
            len == s@.len(),
            seek(s@, from as int, want_space) == seek(s@, i as int, want_space),
        decreases len - i,
    {
        if is_space_exec(s.get_char(i)) == want_space {
            return i;
        }
        i = i + 1;
    }
    i
}

fn rseek_exec(s: &str, from: usize) -> (r: usize)
    requires
        from as int <= s@.len(),
    ensures
        r as int == rseek(s@, from as int),
        r <= from,
{
    let mut j = from;
    while j > 0
        invariant
            j <= from,
            from as int <= s@.len(),
            rseek(s@, from as int) == rseek(s@, j as int),
        decreases j,
    {
        if !is_space_exec(s.get_char(j - 1)) {
            return j;
        }
        j = j - 1;
    }
    j
}

/// `s` without its surrounding white space, as a fresh string.
pub fn trim(s: &str) -> (r: String)
    ensures
        r@ == trim_spec(s@),
{
    let len = s.unicode_len();
    let i = seek_exec(s, 0, false);
    let j = rseek_exec(s, len);
    if i < j {
        String::from_str(s.substring_char(i, j))
    } else {
        String::new()
    }
}

/// The first whitespace-separated field of `s`, if any.
pub fn first_field(s: &str) -> (r: Option<String>)
    ensures
        r matches Some(t) ==> first_field_spec(s@) == Some(t@),
        r is None ==> first_field_spec(s@) is None,
{
    let a = seek_exec(s, 0, false);
    let b = seek_exec(s, a, true);
    if a < s.unicode_len() {
        Some(String::from_str(s.substring_char(a, b)))
    } else {
        None
    }
}

/// The second whitespace-separated field of `s`, if any.
pub fn second_field(s: &str) -> (r: Option<String>)
    ensures
        r matches Some(t) ==> second_field_spec(s@) == Some(t@),
        r is None ==> second_field_spec(s@) is None,
{
    let a = seek_exec(s, 0, false);
    let b = seek_exec(s, a, true);
    let c = seek_exec(s, b, false);
    let d = seek_exec(s, c, true);
    if c < s.unicode_len() {
        Some(String::from_str(s.substring_char(c, d)))
    } else {
        None
    }
}

} // verus!
