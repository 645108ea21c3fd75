//! Addresses of the service's resources: absolute URLs, and references
//! resolved against them.

use vstd::prelude::*;

verus! {

/// The text of the absolute URL that `text` parses to, in the normal form in
/// which the `url` crate writes a URL; `None` where `text` is no absolute URL.
/// Left uninterpreted: the library relies on the `url` crate for it.
pub uninterp spec fn url_parsed(text: Seq<char>) -> Option<Seq<char>>;

/// The text of the URL that `reference` resolves to against the absolute URL
/// that `base` parses to; `None` where `base` is no absolute URL or the
/// reference cannot be resolved. Left uninterpreted, as [`url_parsed`] is.
pub uninterp spec fn url_joined(base: Seq<char>, reference: Seq<char>) -> Option<Seq<char>>;

/// Calls `reqwest::Url::parse` and hands back the text of the URL it gives.
/// Trusted: success, and the text, are those that [`url_parsed`] names.
#[verifier::external_body]
pub(crate) fn parse_url(text: &str) -> (url: Option<String>)
    ensures
        match url {
            Some(parsed) => url_parsed(text@) == Some(parsed@),
            None => url_parsed(text@) is None,
        },
{
    reqwest::Url::parse(text).ok().map(String::from)
}

/// Calls `reqwest::Url::join` on the URL that `reqwest::Url::parse` makes of
/// `base`, and hands back the text of the URL it gives. Trusted: success, and
/// the text, are those that [`url_joined`] names.
#[verifier::external_body]
pub(crate) fn join_url(base: &str, reference: &str) -> (url: Option<String>)
    ensures
        match url {
            Some(joined) => url_joined(base@, reference@) == Some(joined@),
            None => url_joined(base@, reference@) is None,
        },
{
    reqwest::Url::parse(base).ok()?.join(reference).ok().map(String::from)
}

} // verus!
