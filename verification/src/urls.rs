//! Reading URLs.

use url::Url;

use vstd::prelude::*;
use vstd::string::*;

verus! {

/// What `url::Url::parse` makes of `text`: the URL as it is written out again,
/// or the text of the error.
pub uninterp spec fn url_reading(text: Seq<char>) -> Result<Seq<char>, Seq<char>>;

/// The last path segment that `url::Url::path_segments` yields for the URL read
/// from `text`: `None` where the URL has no path segments.
pub uninterp spec fn url_last_segment(text: Seq<char>) -> Option<Option<Seq<char>>>;

/// Reads `text` with `url::Url::parse` and writes the URL out again with its
/// `Display`. Nothing more is claimed than that the answer is a function of
/// `text`.
#[verifier::external_body]
pub(crate) fn parse_url(text: &str) -> (r: Result<String, String>)
    ensures
        crate::text::result_view(r) == url_reading(text@),
{
    match Url::parse(text) {
        Ok(url) => Ok(url.to_string()),
        Err(err) => Err(err.to_string()),
    }
}

/// The last item of `url::Url::path_segments` of the URL read from `text`.
/// Where a URL has path segments, there is at least one.
#[verifier::external_body]
pub(crate) fn last_segment(text: &str) -> (r: Option<Option<String>>)
    requires
        url_reading(text@) is Ok,
    ensures
        r.deep_view() == url_last_segment(text@),
        r matches Some(segment) ==> segment is Some,
{
    let url = Url::parse(text).unwrap();
    match url.path_segments() {
        Some(mut segments) => Some(segments.next_back().map(str::to_string)),
        None => None,
    }
}

} // verus!
