//! Character-level helpers on strings, stated over the `Seq<char>` view.
use vstd::prelude::*;
use vstd::string::*;

verus! {

/// `suffix` ends `s`.
pub open spec fn seq_ends_with(s: Seq<char>, suffix: Seq<char>) -> bool {
    suffix.len() <= s.len() && s.subrange(s.len() - suffix.len(), s.len() as int) == suffix
}

/// `prefix` starts `s`.
pub open spec fn seq_starts_with(s: Seq<char>, prefix: Seq<char>) -> bool {
    prefix.len() <= s.len() && s.subrange(0, prefix.len() as int) == prefix
}

/// `sub` occurs somewhere in `s`.
pub open spec fn seq_contains(s: Seq<char>, sub: Seq<char>) -> bool {
    exists|i: int| 0 <= i && i + sub.len() <= s.len() && #[trigger] s.subrange(i, i + sub.len()) == sub
}

/// `sub` occurs in `s` at position `at`.
pub open spec fn occurs_at(s: Seq<char>, sub: Seq<char>, at: int) -> bool {
    0 <= at && at + sub.len() <= s.len() && s.subrange(at, at + sub.len()) == sub
}

/// Whether `s` holds `sub` at char position `at`.
pub fn matches_at(s: &str, sub: &str, at: usize) -> (r: bool)
    ensures
        r == occurs_at(s@, sub@, at as int),
{
    let n = s.unicode_len();
    let m = sub.unicode_len();
    if at > n || m > n - at {
        return false;
    }
    let mut i: usize = 0;
    while i < m
        invariant
            n == s@.len(),
            m == sub@.len(),
            at + m <= n,
            i <= m,
            forall|j: int| 0 <= j < i ==> s@[at + j] == sub@[j],
        decreases m - i,
    {
        if s.get_char(at + i) != sub.get_char(i) {
            assert(s@.subrange(at as int, at + m)[i as int] != sub@[i as int]);
            return false;
        }
        i = i + 1;
    }
    assert(s@.subrange(at as int, at + m) =~= sub@);
    true
}

/// Whether `s` ends with `suffix`.
pub fn ends_with(s: &str, suffix: &str) -> (r: bool)
    ensures
        r == seq_ends_with(s@, suffix@),
{
    let n = s.unicode_len();
    let m = suffix.unicode_len();
    if m > n {
        return false;
    }
    matches_at(s, suffix, n - m)
}

/// Whether `s` starts with `prefix`.
pub fn starts_with(s: &str, prefix: &str) -> (r: bool)
    ensures
        r == seq_starts_with(s@, prefix@),
{
    matches_at(s, prefix, 0)
}

/// Whether `sub` occurs in `s`.
pub fn contains(s: &str, sub: &str) -> (r: bool)
    ensures
        r == seq_contains(s@, sub@),
{
    let n = s.unicode_len();
    let m = sub.unicode_len();
    if m > n {
        return false;
    }
    let mut i: usize = 0;
    while i < n - m
        invariant
            n == s@.len(),
            m == sub@.len(),
            m <= n,
            i <= n - m,
            forall|j: int| 0 <= j < i ==> !occurs_at(s@, sub@, j),
        decreases n - m - i,
    {
        if matches_at(s, sub, i) {
            assert(occurs_at(s@, sub@, i as int));
            return true;
        }
        i = i + 1;
    }
    if matches_at(s, sub, i) {
        assert(occurs_at(s@, sub@, i as int));
        return true;
    }
    assert forall|j: int| 0 <= j && j + sub@.len() <= s@.len() implies #[trigger] s@.subrange(j, j + sub@.len())
        != sub@ by {
        assert(!occurs_at(s@, sub@, j));
    }
    false
}

/// Whether two strings hold the same characters.
pub fn str_eq(a: &str, b: &str) -> (r: bool)
    ensures
        r == (a@ == b@),
{
    let n = a.unicode_len();
    let m = b.unicode_len();
    if n != m {
        return false;
    }
    let r = matches_at(a, b, 0);
    assert(a@ =~= a@.subrange(0, n as int));
    r
}

/// The uppercase property of a character, as Unicode defines it.
pub uninterp spec fn char_is_uppercase(c: char) -> bool;

/// The lowercase property of a character, as Unicode defines it.
pub uninterp spec fn char_is_lowercase(c: char) -> bool;

/// The characters of the lowercase mapping of a character, as Unicode defines it.
pub uninterp spec fn char_lowercase(c: char) -> Seq<char>;

/// ASCII upper-case letter.
pub open spec fn ascii_upper(c: char) -> bool {
    'A' <= c && c <= 'Z'
}

/// ASCII lower-case letter.
pub open spec fn ascii_lower(c: char) -> bool {
    'a' <= c && c <= 'z'
}

/// Calls `char::is_uppercase`, which tests the Unicode `Uppercase` property.
/// The contract names the result and states it on ASCII letters only.
#[verifier::external_body]
pub fn is_uppercase(c: char) -> (r: bool)
    ensures
        r == char_is_uppercase(c),
        ascii_upper(c) ==> r,
        ascii_lower(c) ==> !r,
{
    c.is_uppercase()
}

/// Calls `char::is_lowercase`, which tests the Unicode `Lowercase` property.
/// The contract names the result and states it on ASCII letters only.
#[verifier::external_body]
pub fn is_lowercase(c: char) -> (r: bool)
    ensures
        r == char_is_lowercase(c),
        ascii_lower(c) ==> r,
        ascii_upper(c) ==> !r,
{
    c.is_lowercase()
}

/// Calls `char::to_lowercase` and collects the characters it yields.
/// The contract names the result; on ASCII it states the documented mapping
/// (upper-case letters move to lower case, every other ASCII character stays).
#[verifier::external_body]
pub fn to_lowercase(c: char) -> (r: String)
    ensures
        r@ == char_lowercase(c),
        ascii_upper(c) ==> r@ == seq![((c as u32) + 32) as char],
        (c as u32) < 128 && !ascii_upper(c) ==> r@ == seq![c],
{
    c.to_lowercase().to_string()
}

/// Calls `String::push`, which appends one character.
#[verifier::external_body]
pub fn push_char(s: &mut String, c: char)
    ensures
        final(s)@ == old(s)@.push(c),
{
    s.push(c)
}

/// Copies a string slice into a new `String`.
pub fn owned(s: &str) -> (r: String)
    ensures
        r@ == s@,
{
    String::from_str(s)
}

} // verus!
