use vstd::prelude::*;

verus! {

/// What `str::trim` returns for a string with these characters.
pub uninterp spec fn trim_of(s: Seq<char>) -> Seq<char>;

/// What `str::to_lowercase` returns for a string with these characters.
pub uninterp spec fn lower_of(s: Seq<char>) -> Seq<char>;

/// The canonical form of a keyword: surrounding whitespace removed, then
/// lower-cased.
pub open spec fn normalized(s: Seq<char>) -> Seq<char> {
    lower_of(trim_of(s))
}

/// Relies on `str::trim`: the slice without leading and trailing whitespace,
/// which depends on the characters alone; a slice of the empty string is
/// empty.
#[verifier::external_body]
fn trim_whitespace(s: &str) -> (r: &str)
    ensures
        r@ == trim_of(s@),
        s@.len() == 0 ==> r@.len() == 0,
{
    s.trim()
}

/// Relies on `str::to_lowercase`: the lower-case mapping of each character,
/// which depends on the characters alone; no characters map to none.
#[verifier::external_body]
fn lowercase(s: &str) -> (r: String)
    ensures
        r@ == lower_of(s@),
        s@.len() == 0 ==> r@.len() == 0,
{
    s.to_lowercase()
}

/// The canonical form of a keyword: trimmed, then lower-cased.
pub fn normalize_keyword(s: &str) -> (r: String)
    ensures
        r@ == normalized(s@),
        s@.len() == 0 ==> r@.len() == 0,
{
    lowercase(trim_whitespace(s))
}

} // verus!
