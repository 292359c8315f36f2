//! Parsing of the engine endpoint locator through the `url` crate.
use vstd::prelude::*;

verus! {

/// Whether a locator string parses as a URL.
pub uninterp spec fn url_parse_ok(s: Seq<char>) -> bool;

/// The scheme of a parsed locator.
pub uninterp spec fn url_scheme_of(s: Seq<char>) -> Seq<char>;

/// The path component of a parsed locator.
pub uninterp spec fn url_path_of(s: Seq<char>) -> Seq<char>;

/// The normalized text of a parsed locator.
pub uninterp spec fn url_text_of(s: Seq<char>) -> Seq<char>;

/// Relies on `url::Url::parse` and the accessors `Url::scheme`,
/// `Url::path` and `Url::as_str`: whether a locator parses, and its
/// scheme, its path and its normalized text, are functions of the
/// locator string alone.
#[verifier::external_body]
pub(crate) fn parse_url(s: &str) -> (r: Option<(String, String, String)>)
    ensures
        r is Some <==> url_parse_ok(s@),
        r matches Some(t) ==> t.0@ == url_scheme_of(s@) && t.1@ == url_path_of(s@) && t.2@
            == url_text_of(s@),
{
    match url::Url::parse(s) {
        Ok(u) => Some((u.scheme().to_string(), u.path().to_string(), u.as_str().to_string())),
        Err(_) => None,
    }
}

} // verus!
