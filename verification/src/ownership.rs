//! Ownership, borrowing, and slices: values given away and taken back, a
//! borrowed length, an in-place change, and the first word of a string.

use vstd::prelude::*;
use vstd::string::StrSliceExecFns;
use vstd::string::StringExecFns;
use vstd::string::StringSliceAdditionalSpecFns;

verus! {

/// Makes a string and moves it out to the caller.
pub fn gives_ownership() -> (r: String)
    ensures
        r@ == "Reply: Hello!"@,
{
    String::from_str("Reply: Hello!")
}

/// Takes ownership of a string and hands the same string back.
pub fn takes_and_gives_back(a_string: String) -> (r: String)
    ensures
        r == a_string,
{
    a_string
}

/// The string's length in bytes, read through a borrow.
pub fn calculate_length(s: &String) -> (r: usize)
    requires
        vstd::utf8::encode_utf8(s@).len() <= usize::MAX,
    ensures
        r == vstd::utf8::encode_utf8(s@).len(),
{
    let inner = s.as_str();
    let n = inner.len();
    proof {
        assert(inner.spec_bytes() == vstd::utf8::encode_utf8(s@));
    }
    n
}

/// Appends to the string through a mutable borrow.
pub fn change(some_string: &mut String)
    ensures
        final(some_string)@ == old(some_string)@ + ", world"@,
{
    some_string.append(", world");
}

/// `i` ends the first word: everything before it is no space, and either the
/// string ends there or a space stands there.
pub open spec fn is_word_end(s: Seq<char>, i: int) -> bool {
    &&& 0 <= i <= s.len()
    &&& (forall|j: int| 0 <= j < i ==> s[j] != ' ')
    &&& (i < s.len() ==> s[i] == ' ')
}

/// The first word: everything before the first space, or the whole string if
/// it has no space.
pub fn first_word(s: &str) -> (r: &str)
    ensures
        is_word_end(s@, r@.len() as int),
        r@ == s@.subrange(0, r@.len() as int),
{
    let n = s.unicode_len();
    let mut i: usize = 0;
    while i < n
        invariant
            n == s@.len(),
            i <= n,
            forall|j: int| 0 <= j < i ==> s@[j] != ' ',
        decreases n - i,
    {
        if s.get_char(i) == ' ' {
            let r = s.substring_char(0, i);
            return r;
        }
        i = i + 1;
    }
    let r = s.substring_char(0, n);
    r
}

} // verus!
