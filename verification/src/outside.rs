//! What this library takes from elsewhere without proof: digests from `sha1`
//! and `sha2`, the replacement of matches from `regex`, and two functions of
//! std on strings. Each item here states what the library believes of the
//! function behind it.

use vstd::prelude::*;

verus! {

/// `String::push` of std. Believed without proof, from its documentation: it
/// appends the character to the end of the string.
pub assume_specification[ std::string::String::push ](s: &mut std::string::String, c: char)
    ensures
        final(s)@ == old(s)@.push(c),
;

/// `==` on `str` of std. Believed without proof, from its documentation: two
/// string slices are equal where they hold the same characters.
pub assume_specification[ <str as PartialEq>::eq ](a: &str, b: &str) -> (r: bool)
    ensures
        r == (a@ == b@),
;

/// The SHA-1 digest of `data`.
pub uninterp spec fn sha1_of(data: Seq<u8>) -> Seq<u8>;

/// The SHA-256 digest of `data`.
pub uninterp spec fn sha256_of(data: Seq<u8>) -> Seq<u8>;

/// What is left of `text` once every match of `pattern` in it has given way to
/// `replacement`; `None` where the engine does not take `pattern`.
pub uninterp spec fn regex_replaced(
    pattern: Seq<char>,
    text: Seq<char>,
    replacement: Seq<char>,
) -> Option<Seq<char>>;

/// Calls `sha1::Sha1::digest` (the `digest` function of the `Digest` trait).
/// Believed without proof: the bytes that come back are the SHA-1 digest of
/// `data`, the same for the same bytes.
#[verifier::external_body]
pub(crate) fn sha1_digest(data: &[u8]) -> (r: Vec<u8>)
    ensures
        r@ == sha1_of(data@),
{
    <sha1::Sha1 as sha1::Digest>::digest(data).to_vec()
}

/// Calls `sha2::Sha256::digest` (the `digest` function of the `Digest` trait).
/// Believed without proof: the bytes that come back are the SHA-256 digest of
/// `data`, the same for the same bytes.
#[verifier::external_body]
pub(crate) fn sha256_digest(data: &[u8]) -> (r: Vec<u8>)
    ensures
        r@ == sha256_of(data@),
{
    <sha2::Sha256 as sha2::Digest>::digest(data).to_vec()
}

/// Calls `regex::Regex::new` on `pattern` and, where that gives a regex,
/// `regex::Regex::replace_all` on `text` with `replacement`. Believed without
/// proof: what comes back depends on the three texts alone.
#[verifier::external_body]
pub(crate) fn replace_all(pattern: &str, text: &str, replacement: &str) -> (r: Option<String>)
    ensures
        r.deep_view() == regex_replaced(pattern@, text@, replacement@),
{
    match regex::Regex::new(pattern) {
        Ok(re) => Some(re.replace_all(text, replacement).into_owned()),
        Err(_) => None,
    }
}

} // verus!
