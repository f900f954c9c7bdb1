//! URLs, as far as the library reads them.
//!
//! Both functions in this file are trusted: each parses its argument with the
//! `url` crate and gives back one part of what was parsed.

use crate::json::opt_text;
use vstd::prelude::*;

verus! {

/// The text that `url::Url::parse` followed by `to_string` gives for an
/// input; `None` where the input is refused.
pub uninterp spec fn url_serialization(input: Seq<char>) -> Option<Seq<char>>;

/// The text that `url::Url::parse` followed by `url::Url::path` gives for an
/// input; `None` where the input is refused.
pub uninterp spec fn url_path(input: Seq<char>) -> Option<Seq<char>>;

/// `url::Url::parse`, then `to_string`: the URL in the form in which the
/// `url` crate writes it. The result is a function of the input; it is
/// `None` exactly when the input is not an absolute URL.
#[verifier::external_body]
pub(crate) fn serialize_url(input: &str) -> (r: Option<String>)
    ensures
        opt_text(r) == url_serialization(input@),
{
    url::Url::parse(input).ok().map(|u| u.to_string())
}

/// `url::Url::parse`, then `url::Url::path`: the path of the URL. The result
/// is a function of the input; it is `None` exactly when the input is not an
/// absolute URL.
#[verifier::external_body]
pub(crate) fn path_of_url(input: &str) -> (r: Option<String>)
    ensures
        opt_text(r) == url_path(input@),
{
    url::Url::parse(input).ok().map(|u| u.path().to_string())
}

} // verus!
