//! Case-insensitive comparison of names and identifiers.
use vstd::prelude::*;

verus! {

/// The character with `A` to `Z` turned into `a` to `z`.
pub open spec fn ascii_lower_char(c: char) -> char {
    if 'A' <= c <= 'Z' {
        (c as u32 + 32) as char
    } else {
        c
    }
}

/// Whether every character is ASCII.
pub open spec fn ascii_only(s: Seq<char>) -> bool {
    forall|i: int| 0 <= i < s.len() ==> (#[trigger] s[i] as u32) < 128
}

/// The lower case of a text that is not all ASCII, as Unicode defines it.
pub uninterp spec fn unicode_lower(s: Seq<char>) -> Seq<char>;

/// The lower case of a text. Two texts are alike when these are equal.
pub open spec fn lower(s: Seq<char>) -> Seq<char> {
    if ascii_only(s) {
        s.map_values(|c: char| ascii_lower_char(c))
    } else {
        unicode_lower(s)
    }
}

/// Whether two texts are equal up to case.
pub open spec fn alike(a: Seq<char>, b: Seq<char>) -> bool {
    lower(a) == lower(b)
}

/// [`str::to_lowercase`]. On ASCII text it turns `A` to `Z` into `a` to `z` and
/// keeps the rest; on other text the result is only named.
#[verifier::external_body]
fn to_lowercase(s: &str) -> (r: String)
    ensures
        ascii_only(s@) ==> r@ == s@.map_values(|c: char| ascii_lower_char(c)),
        !ascii_only(s@) ==> r@ == unicode_lower(s@),
{
    s.to_lowercase()
}

/// The lower case of `s`.
pub fn lowered(s: &str) -> (r: String)
    ensures
        r@ == lower(s@),
{
    to_lowercase(s)
}

/// Whether `a` and `b` are equal up to case.
pub fn same_ignoring_case(a: &str, b: &str) -> (r: bool)
    ensures
        r == alike(a@, b@),
{
    lowered(a) == lowered(b)
}

} // verus!
