//! Character classes and low-level text scanning shared by the parser and
//! the variable expander: whitespace runs, variable-name runs, trimming,
//! and small string-building helpers.

use vstd::prelude::*;

verus! {

/// Characters that may begin a variable name: ASCII letters and `_`.
pub open spec fn is_name_start_char(c: char) -> bool {
    (('A' as u32) <= (c as u32) && (c as u32) <= ('Z' as u32)) || (('a' as u32) <= (c as u32)
        && (c as u32) <= ('z' as u32)) || c == '_'
}

/// Characters that may continue a variable name: letters, digits and `_`.
pub open spec fn is_name_char(c: char) -> bool {
    is_name_start_char(c) || (('0' as u32) <= (c as u32) && (c as u32) <= ('9' as u32))
}

/// ASCII whitespace: space, tab, line feed, vertical tab, form feed,
/// carriage return.
pub open spec fn is_space_char(c: char) -> bool {
    c == ' ' || c == '\t' || c == '\n' || (c as u32) == 11 || (c as u32) == 12 || c == '\r'
}

pub fn name_start_char(c: char) -> (r: bool)
    ensures
        r == is_name_start_char(c),
{
    let u = c as u32;
    (('A' as u32) <= u && u <= ('Z' as u32)) || (('a' as u32) <= u && u <= ('z' as u32)) || c == '_'
}

pub fn name_char(c: char) -> (r: bool)
    ensures
        r == is_name_char(c),
{
    let u = c as u32;
    name_start_char(c) || (('0' as u32) <= u && u <= ('9' as u32))
}

pub fn space_char(c: char) -> (r: bool)
    ensures
        r == is_space_char(c),
{
    let u = c as u32;
    c == ' ' || c == '\t' || c == '\n' || u == 11 || u == 12 || c == '\r'
}

/// Index just past the run of whitespace characters that starts at `i`.
pub open spec fn space_run_end(s: Seq<char>, i: int) -> int
    decreases s.len() - i,
{
    if 0 <= i < s.len() && is_space_char(s[i]) {
        space_run_end(s, i + 1)
    } else {
        i
    }
}

/// Index just past the run of variable-name characters that starts at `i`.
pub open spec fn name_run_end(s: Seq<char>, i: int) -> int
    decreases s.len() - i,
{
    if 0 <= i < s.len() && is_name_char(s[i]) {
        name_run_end(s, i + 1)
    } else {
        i
    }
}

/// Index just past the run of non-whitespace characters that starts at `i`.
pub open spec fn nonspace_run_end(s: Seq<char>, i: int) -> int
    decreases s.len() - i,
{
    if 0 <= i < s.len() && !is_space_char(s[i]) {
        nonspace_run_end(s, i + 1)
    } else {
        i
    }
}

/// Index just past the run of characters that are neither whitespace nor
/// `=`, starting at `i`. Such runs form the name part of ENV and ARG lines.
pub open spec fn key_run_end(s: Seq<char>, i: int) -> int
    decreases s.len() - i,
{
    if 0 <= i < s.len() && !is_space_char(s[i]) && s[i] != '=' {
        key_run_end(s, i + 1)
    } else {
        i
    }
}

/// Start of the run of whitespace characters that ends just before `j`
/// (scanning backwards from `j`).
pub open spec fn space_run_start(s: Seq<char>, j: int) -> int
    decreases j,
{
    if 0 < j <= s.len() && is_space_char(s[j - 1]) {
        space_run_start(s, j - 1)
    } else {
        j
    }
}

pub proof fn lemma_name_run_end_bounds(s: Seq<char>, i: int)
    requires
        0 <= i <= s.len(),
    ensures
        i <= name_run_end(s, i) <= s.len(),
    decreases s.len() - i,
{
    if i < s.len() && is_name_char(s[i]) {
        lemma_name_run_end_bounds(s, i + 1);
    }
}

/// A name run ends exactly at the first index in the given range whose
/// character is not a name character (or at the end of the range).
pub proof fn lemma_name_run_end_exact(s: Seq<char>, i: int, e: int)
    requires
        0 <= i <= e <= s.len(),
        forall|m: int| i <= m < e ==> is_name_char(s[m]),
        e == s.len() || !is_name_char(s[e]),
    ensures
        name_run_end(s, i) == e,
    decreases e - i,
{
    if i < e {
        lemma_name_run_end_exact(s, i + 1, e);
    }
}

pub proof fn lemma_key_run_end_exact(s: Seq<char>, i: int, e: int)
    requires
        0 <= i <= e <= s.len(),
        forall|m: int| i <= m < e ==> !is_space_char(s[m]) && s[m] != '=',
        e == s.len() || is_space_char(s[e]) || s[e] == '=',
    ensures
        key_run_end(s, i) == e,
    decreases e - i,
{
    if i < e {
        lemma_key_run_end_exact(s, i + 1, e);
    }
}

pub fn space_run_end_at(s: &str, i: usize) -> (r: usize)
    requires
        i <= s@.len(),
    ensures
        i <= r <= s@.len(),
        r as int == space_run_end(s@, i as int),
    decreases s@.len() - i,
{
    let n = s.unicode_len();
    if i < n && space_char(s.get_char(i)) {
        space_run_end_at(s, i + 1)
    } else {
        i
    }
}

pub fn name_run_end_at(s: &str, i: usize) -> (r: usize)
    requires
        i <= s@.len(),
    ensures
        i <= r <= s@.len(),
        r as int == name_run_end(s@, i as int),
    decreases s@.len() - i,
{
    let n = s.unicode_len();
    if i < n && name_char(s.get_char(i)) {
        name_run_end_at(s, i + 1)
    } else {
        i
    }
}

pub fn nonspace_run_end_at(s: &str, i: usize) -> (r: usize)
    requires
        i <= s@.len(),
    ensures
        i <= r <= s@.len(),
        r as int == nonspace_run_end(s@, i as int),
    decreases s@.len() - i,
{
    let n = s.unicode_len();
    if i < n && !space_char(s.get_char(i)) {
        nonspace_run_end_at(s, i + 1)
    } else {
        i
    }
}

pub fn key_run_end_at(s: &str, i: usize) -> (r: usize)
    requires
        i <= s@.len(),
    ensures
        i <= r <= s@.len(),
        r as int == key_run_end(s@, i as int),
    decreases s@.len() - i,
{
    let n = s.unicode_len();
    if i < n && !space_char(s.get_char(i)) && s.get_char(i) != '=' {
        key_run_end_at(s, i + 1)
    } else {
        i
    }
}

pub fn space_run_start_at(s: &str, j: usize) -> (r: usize)
    requires
        j <= s@.len(),
    ensures
        r <= j,
        r as int == space_run_start(s@, j as int),
    decreases j,
{
    if 0 < j && space_char(s.get_char(j - 1)) {
        space_run_start_at(s, j - 1)
    } else {
        j
    }
}

/// The string with its leading and trailing whitespace runs removed.
pub open spec fn spec_trim(s: Seq<char>) -> Seq<char> {
    let lo = space_run_end(s, 0);
    let hi = space_run_start(s, s.len() as int);
    if lo <= hi {
        s.subrange(lo, hi)
    } else {
        Seq::empty()
    }
}

/// A string that trimming would leave unchanged.
pub open spec fn is_trimmed(s: Seq<char>) -> bool {
    spec_trim(s) == s
}

/// The trimmed copy of `s`.
pub fn trim(s: &str) -> (r: String)
    ensures
        r@ == spec_trim(s@),
{
    let n = s.unicode_len();
    let lo = space_run_end_at(s, 0);
    let hi = space_run_start_at(s, n);
    if lo <= hi {
        substr(s, lo, hi)
    } else {
        String::new()
    }
}

/// A string is unchanged by trimming when it is empty or neither starts nor
/// ends with whitespace.
pub proof fn lemma_trim_of_trimmed(s: Seq<char>)
    requires
        s.len() == 0 || (!is_space_char(s[0]) && !is_space_char(s[s.len() - 1])),
    ensures
        is_trimmed(s),
{
    assert(space_run_end(s, 0) == 0);
    assert(space_run_start(s, s.len() as int) == s.len());
    assert(s.subrange(0, s.len() as int) =~= s);
}

/// The copy of the characters of `s` from `from` (inclusive) to `to`
/// (exclusive).
pub fn substr(s: &str, from: usize, to: usize) -> (r: String)
    requires
        from <= to <= s@.len(),
    ensures
        r@ == s@.subrange(from as int, to as int),
{
    let sub: &str = s.substring_char(from, to);
    sub.to_owned()
}

/// Relies on `String::push` from std: appends exactly the given character to
/// the end of the string.
#[verifier::external_body]
pub(crate) fn push_char(s: &mut String, c: char)
    ensures
        final(s)@ == old(s)@.push(c),
{
    s.push(c)
}

/// Whether the two string slices hold the same characters.
pub fn str_eq(a: &str, b: &str) -> (r: bool)
    ensures
        r == (a@ == b@),
{
    let na = a.unicode_len();
    let nb = b.unicode_len();
    if na != nb {
        assert(a@ != b@);
        return false;
    }
    let mut i: usize = 0;
    while i < na
        invariant
            i <= na,
            na == a@.len(),
            na == b@.len(),
            forall|m: int| 0 <= m < i ==> a@[m] == b@[m],
        decreases na - i,
    {
        if a.get_char(i) != b.get_char(i) {
            assert(a@ != b@);
            return false;
        }
        i = i + 1;
    }
    assert(a@ =~= b@);
    true
}

/// A variable-name character is neither whitespace nor `=`, so a variable
/// name is also a well-formed ENV/ARG key.
pub proof fn lemma_name_char_not_space_eq(c: char)
    requires
        is_name_char(c),
    ensures
        !is_space_char(c),
        c != '=',
{
}

/// Whether the last character of `s` is a backslash: the marker that a RUN
/// command continues on the next line.
pub open spec fn ends_with_backslash(s: Seq<char>) -> bool {
    s.len() > 0 && s[s.len() - 1] == '\\'
}

pub fn has_continuation_marker(s: &str) -> (r: bool)
    ensures
        r == ends_with_backslash(s@),
{
    let n = s.unicode_len();
    n > 0 && s.get_char(n - 1) == '\\'
}

} // verus!
