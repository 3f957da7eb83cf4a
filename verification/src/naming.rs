//! Conversion of Rust identifiers into names used in the database.
use vstd::prelude::*;

verus! {

/// The ASCII lower case of `c`: 'A' to 'Z' become 'a' to 'z', all other characters stay.
pub open spec fn ascii_lower(c: char) -> char {
    if 'A' <= c && c <= 'Z' {
        ((c as u32) + 32) as char
    } else {
        c
    }
}

/// The ASCII lower case of every character of `s`.
pub open spec fn ascii_lowercase(s: Seq<char>) -> Seq<char> {
    s.map_values(|c: char| ascii_lower(c))
}

/// Calls `String::make_ascii_lowercase`, which maps 'A' to 'Z' onto 'a' to 'z'
/// in place and leaves every other character unchanged.
#[verifier::external_body]
pub(crate) fn make_ascii_lowercase(s: &mut String)
    ensures
        final(s)@ == ascii_lowercase(old(s)@),
{
    s.make_ascii_lowercase()
}

/// Converts an identifier into the name of a table or column.
pub fn to_db_name(name: String) -> (r: String)
    ensures
        r@ == ascii_lowercase(name@),
{
    let mut name = name;
    make_ascii_lowercase(&mut name);
    name
}

/// Lower-casing twice is the same as lower-casing once.
pub proof fn lemma_to_db_name_idempotent(s: Seq<char>)
    ensures
        ascii_lowercase(ascii_lowercase(s)) == ascii_lowercase(s),
{
    assert(ascii_lowercase(ascii_lowercase(s)) =~= ascii_lowercase(s));
}

/// Lower-casing keeps the number of characters.
pub proof fn lemma_to_db_name_len(s: Seq<char>)
    ensures
        ascii_lowercase(s).len() == s.len(),
{
}

/// Whether `a` and `b` hold the same characters.
pub(crate) fn str_equals(a: &str, b: &str) -> (r: bool)
    ensures
        r == (a@ == b@),
{
    let n = a.unicode_len();
    if n != b.unicode_len() {
        return false;
    }
    let mut i: usize = 0;
    while i < n
        invariant
            i <= n,
            n == a@.len(),
            n == b@.len(),
            forall|j: int| 0 <= j < i ==> a@[j] == b@[j],
        decreases n - i,
    {
        if a.get_char(i) != b.get_char(i) {
            return false;
        }
        i = i + 1;
    }
    assert(a@ =~= b@);
    true
}

} // verus!
