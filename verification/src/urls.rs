use vstd::prelude::*;

verus! {

/// Whether the URL parser of the request layer accepts the string as an
/// absolute URL. Acceptance is decided by the parser of the `url` crate,
/// which depends on the input string alone.
pub uninterp spec fn url_accepted(s: Seq<char>) -> bool;

/// Relies on `reqwest::Url::parse` (a re-export of `url::Url::parse`):
/// whether a string parses as an absolute URL is a function of the string
/// alone, here named `url_accepted`.
#[verifier::external_body]
pub(crate) fn parse_accepts(url: &str) -> (r: bool)
    ensures
        r == url_accepted(url@),
{
    reqwest::Url::parse(url).is_ok()
}

} // verus!
