//! Title resolution: derive a page title from a URL's host component,
//! with the sentinel title as fallback.

use vstd::prelude::*;
use crate::tab::new_tab_title;

verus! {

/// The host component of a URL string, when the string parses as a URL
/// that has one. Which characters it holds for a given string is left
/// unspecified; it depends on the string alone.
pub uninterp spec fn url_host(s: Seq<char>) -> Option<Seq<char>>;

/// Relies on url::Url::parse and url::Url::host_str: parsing is a pure
/// function of the input string, and host_str returns the parsed URL's
/// host component, or None when it has none.
#[verifier::external_body]
fn parse_host(url: &str) -> (r: Option<String>)
    ensures
        r.deep_view() == url_host(url@),
{
    url::Url::parse(url).ok().and_then(|u| u.host_str().map(|h| h.to_string()))
}

/// The title a navigation resolves for a URL: its host, or the sentinel
/// title when the URL does not parse or has no host.
pub open spec fn spec_title_from_url(u: Seq<char>) -> Seq<char> {
    match url_host(u) {
        Some(h) => h,
        None => new_tab_title(),
    }
}

/// Derive a page title from a URL: the URL's host component, falling
/// back to the sentinel title for any unresolvable URL.
pub fn extract_title_from_url(url: &str) -> (title: String)
    ensures
        title@ == spec_title_from_url(url@),
{
    match parse_host(url) {
        Some(h) => h,
        None => String::from_str("New Tab"),
    }
}

} // verus!
