//! Absolute URLs, as far as the library reads them.

use vstd::prelude::*;

use crate::error::ParseError;

verus! {

/// What the library reads from an absolute URL.
#[derive(Debug, PartialEq, Eq)]
pub struct FeedUrl {
    /// The URL written out in its normal form.
    pub text: String,
    /// The host, where the URL has one.
    pub host: Option<String>,
    /// The path cut at each `/`; `None` where the URL cannot be a base.
    pub path_segments: Option<Vec<String>>,
}

/// The mathematical model of a [`FeedUrl`].
pub struct FeedUrlView {
    pub text: Seq<char>,
    pub host: Option<Seq<char>>,
    pub path_segments: Option<Seq<Seq<char>>>,
}

impl View for FeedUrl {
    type V = FeedUrlView;

    open spec fn view(&self) -> FeedUrlView {
        FeedUrlView {
            text: self.text@,
            host: self.host.deep_view(),
            path_segments: self.path_segments.deep_view(),
        }
    }
}

/// What `url::Url::parse` makes of a text, where it accepts it: the URL's
/// serialization, its `host_str` and its `path_segments`.
pub uninterp spec fn parsed_url(input: Seq<char>) -> Option<FeedUrlView>;

/// Calls `url::Url::parse` and reads the result through `as_str`, `host_str`
/// and `path_segments`. The contract claims that the call succeeds exactly on
/// the texts that `parsed_url` accepts and hands back what it names; on
/// failure the parser's message is handed back.
#[verifier::external_body]
fn url_from_text(input: &str) -> (res: Result<FeedUrl, String>)
    ensures
        res is Ok <==> parsed_url(input@) is Some,
        res matches Ok(url) ==> Some(url@) == parsed_url(input@),
{
    match url::Url::parse(input) {
        Ok(url) => Ok(
            FeedUrl {
                text: url.as_str().to_string(),
                host: url.host_str().map(String::from),
                path_segments: url.path_segments().map(|parts| parts.map(String::from).collect()),
            },
        ),
        Err(error) => Err(error.to_string()),
    }
}

impl FeedUrl {
    /// Reads an absolute URL from a text.
    pub fn parse(input: &str) -> (res: Result<FeedUrl, ParseError>)
        ensures
            match parsed_url(input@) {
                Some(url) => res matches Ok(found) && found@ == url,
                None => res matches Err(ParseError::URL(_)),
            },
    {
        match url_from_text(input) {
            Ok(url) => Ok(url),
            Err(message) => Err(ParseError::URL(message)),
        }
    }
}

} // verus!
