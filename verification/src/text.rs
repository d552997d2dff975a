//! Text helpers shared by the handlers.

use vstd::prelude::*;
use vstd::string::*;
use vstd::utf8::*;

verus! {

/// `String::push` appends one character.
pub assume_specification[ String::push ](s: &mut String, c: char)
    ensures
        final(s)@ == old(s)@.push(c),
;

/// Whether `c` has the Unicode property `White_Space`, as `char::is_whitespace`
/// reports it.
pub uninterp spec fn is_white_space(c: char) -> bool;

/// Number of leading whitespace characters of `s`.
pub open spec fn leading_white_space(s: Seq<char>) -> nat
    decreases s.len(),
{
    if s.len() > 0 && is_white_space(s[0]) {
        1 + leading_white_space(s.drop_first())
    } else {
        0
    }
}

/// `s` without its trailing whitespace.
pub open spec fn without_trailing_white_space(s: Seq<char>) -> Seq<char>
    decreases s.len(),
{
    if s.len() > 0 && is_white_space(s.last()) {
        without_trailing_white_space(s.drop_last())
    } else {
        s
    }
}

/// `s` with leading and trailing whitespace removed.
pub open spec fn trimmed(s: Seq<char>) -> Seq<char> {
    without_trailing_white_space(s.skip(leading_white_space(s) as int))
}

/// `str::trim` returns the slice without leading and trailing whitespace,
/// where whitespace is the Unicode property `White_Space`: what is left
/// neither begins nor ends with a whitespace character.
pub assume_specification[ str::trim ](s: &str) -> (t: &str)
    ensures
        t@ == trimmed(s@),
        t@.len() > 0 ==> !is_white_space(t@.first()) && !is_white_space(t@.last()),
;

/// Whether `c` occurs in `s`.
pub fn contains_char(s: &str, c: char) -> (found: bool)
    ensures
        found == s@.contains(c),
{
    let mut found = false;
    for x in it: s.chars()
        invariant
            it.seq() == s@,
            found == (exists|j: int| 0 <= j < it.index() && s@[j] == c),
    {
        if x == c {
            found = true;
        }
    }
    found
}

/// Whether `s` begins with `prefix`.
pub fn has_prefix(s: &str, prefix: &str) -> (yes: bool)
    ensures
        yes == prefix@.is_prefix_of(s@),
{
    let n = prefix.unicode_len();
    if s.unicode_len() < n {
        return false;
    }
    let mut i: usize = 0;
    while i < n
        invariant
            i <= n,
            n == prefix@.len(),
            n <= s@.len(),
            forall|j: int| 0 <= j < i ==> s@[j] == prefix@[j],
        decreases n - i,
    {
        if s.get_char(i) != prefix.get_char(i) {
            assert(s@.subrange(0, n as int)[i as int] != prefix@[i as int]);
            return false;
        }
        i += 1;
    }
    assert(s@.subrange(0, n as int) =~= prefix@);
    true
}

/// Whether two texts are the same.
pub fn same_text(a: &str, b: &str) -> (yes: bool)
    ensures
        yes == (a@ == b@),
{
    a.to_owned() == b.to_owned()
}

/// `String::from_utf8` accepts exactly the well-formed UTF-8 byte strings and
/// returns the text that they encode.
#[verifier::external_body]
pub(crate) fn text_from_utf8(bytes: Vec<u8>) -> (text: Option<String>)
    ensures
        valid_utf8(bytes@) ==> text.is_some() && text.unwrap()@ == decode_utf8(bytes@),
        !valid_utf8(bytes@) ==> text.is_none(),
{
    String::from_utf8(bytes).ok()
}

} // verus!
