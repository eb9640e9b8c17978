//! From an address to the plan that resolves it.

use vstd::prelude::*;

use crate::error::{ParseError, ParseErrorKind};
use crate::feed::address::{parsed_url, FeedUrl, FeedUrlView};
use crate::feed::strategy::{
    OperationView, PodcastOperation, Strategy, StrategyView, UrlOperation, UrlOperationView,
};
use crate::text::same_text;

verus! {

/// The last segment of a path that is not empty.
pub open spec fn last_nonempty(segments: Seq<Seq<char>>) -> Option<Seq<char>>
    decreases segments.len(),
{
    if segments.len() == 0 {
        None
    } else if segments.last().len() > 0 {
        Some(segments.last())
    } else {
        last_nonempty(segments.drop_last())
    }
}

/// The last part of the URL's path that is not empty, where the URL has a
/// path of segments and one of them is not empty.
pub open spec fn spec_last_path_part(url: FeedUrlView) -> Option<Seq<char>> {
    match url.path_segments {
        Some(segments) => last_nonempty(segments),
        None => None,
    }
}

/// Where rss.com keeps the feed of the podcast with this id.
pub open spec fn rss_dot_com_feed(id: Seq<char>) -> Seq<char> {
    "https://media.rss.com/"@ + id + "/feed.xml"@
}

/// Where iTunes answers a lookup of the podcast with this id.
pub open spec fn itunes_lookup(id: Seq<char>) -> Seq<char> {
    "https://itunes.apple.com/lookup?id="@ + id
}

/// The keys that lead to the feed's address in the answer to an iTunes lookup.
pub open spec fn itunes_feed_path() -> Seq<Seq<char>> {
    seq!["results"@, "feedUrl"@]
}

/// The plan that runs the operations from the URL that `address` holds, or
/// the failure to read a URL from it.
pub open spec fn plan_from(address: Seq<char>, operations: Seq<OperationView>) -> Result<
    StrategyView,
    ParseErrorKind,
> {
    match parsed_url(address) {
        Some(start) => Ok(StrategyView { url: start.text, operations }),
        None => Err(ParseErrorKind::URL),
    }
}

/// The plan for a podcast page of rss.com: its last path part is the
/// podcast's id, and the feed is read from where rss.com keeps it.
pub open spec fn spec_rss_dot_com(url: FeedUrlView) -> Result<StrategyView, ParseErrorKind> {
    match spec_last_path_part(url) {
        Some(id) => plan_from(
            rss_dot_com_feed(id),
            seq![OperationView::Podcast(PodcastOperation::RSS)],
        ),
        None => Err(ParseErrorKind::MissingElement),
    }
}

/// The plan for a podcast page of Apple's catalog: its last path part is the
/// podcast's id behind two characters; the feed's address is looked up in
/// the answer of iTunes, and the feed read from there.
pub open spec fn spec_itunes(url: FeedUrlView) -> Result<StrategyView, ParseErrorKind> {
    match spec_last_path_part(url) {
        Some(part) => if part.len() < 2 {
            Err(ParseErrorKind::MissingElement)
        } else {
            plan_from(
                itunes_lookup(part.skip(2)),
                seq![
                    OperationView::Url(UrlOperationView::Json(itunes_feed_path())),
                    OperationView::Podcast(PodcastOperation::RSS),
                ],
            )
        },
        None => Err(ParseErrorKind::MissingElement),
    }
}

/// The plan for any other address: look for a feed that the page links to,
/// and read the feed from there, or from the address itself where the page
/// links to none.
pub open spec fn spec_fallback(url: FeedUrlView) -> StrategyView {
    StrategyView {
        url: url.text,
        operations: seq![
            OperationView::Try(UrlOperationView::RssLink),
            OperationView::Podcast(PodcastOperation::RSS),
        ],
    }
}

/// The plan that resolves a URL, by its host.
pub open spec fn spec_strategy_for(url: FeedUrlView) -> Result<StrategyView, ParseErrorKind> {
    if url.host == Some("rss.com"@) {
        spec_rss_dot_com(url)
    } else if url.host == Some("podcasts.apple.com"@) {
        spec_itunes(url)
    } else {
        Ok(spec_fallback(url))
    }
}

/// The plan that resolves an address given as text.
pub open spec fn spec_create_strategy(input: Seq<char>) -> Result<StrategyView, ParseErrorKind> {
    match parsed_url(input) {
        Some(url) => spec_strategy_for(url),
        None => Err(ParseErrorKind::URL),
    }
}

/// Whether a result is the one that a model gives: the same plan, or a
/// failure of the same kind.
pub open spec fn is_outcome(
    res: Result<Strategy, ParseError>,
    model: Result<StrategyView, ParseErrorKind>,
) -> bool {
    match model {
        Ok(plan) => res matches Ok(strategy) && strategy@ == plan,
        Err(kind) => res matches Err(error) && error.kind() == kind,
    }
}

/// Resolving is a function of the address: two results for the same address
/// hold the same plan, or are failures of the same kind.
pub proof fn lemma_create_strategy_is_pure(
    input: Seq<char>,
    first: Result<Strategy, ParseError>,
    second: Result<Strategy, ParseError>,
)
    requires
        is_outcome(first, spec_create_strategy(input)),
        is_outcome(second, spec_create_strategy(input)),
    ensures
        match (first, second) {
            (Ok(a), Ok(b)) => a@ == b@,
            (Err(a), Err(b)) => a.kind() == b.kind(),
            _ => false,
        },
{
}

/// Every plan ends with the one operation that reads the feed: whatever the
/// URL and its host, the plan for it is complete.
pub proof fn lemma_plans_are_complete(url: FeedUrlView)
    ensures
        spec_strategy_for(url) matches Ok(plan) ==> plan.is_complete(),
        spec_rss_dot_com(url) matches Ok(plan) ==> plan.is_complete(),
        spec_itunes(url) matches Ok(plan) ==> plan.is_complete(),
{
}

/// Resolves an address: the plan that leads from it to its feed.
///
/// Fails with `URL` where the address is no absolute URL, and with
/// `MissingElement` where a page of rss.com or of Apple's catalog has no id in
/// its path.
pub fn create_strategy(input: &str) -> (res: Result<Strategy, ParseError>)
    ensures
        is_outcome(res, spec_create_strategy(input@)),
        res matches Ok(strategy) ==> strategy@.is_complete(),
{
    match FeedUrl::parse(input) {
        Ok(url) => strategy_for(url),
        Err(error) => Err(error),
    }
}

/// The plan that resolves a URL, by its host.
pub fn strategy_for(url: FeedUrl) -> (res: Result<Strategy, ParseError>)
    ensures
        is_outcome(res, spec_strategy_for(url@)),
        res matches Ok(strategy) ==> strategy@.is_complete(),
{
    if host_is(&url, "rss.com") {
        rss_dot_com(&url)
    } else if host_is(&url, "podcasts.apple.com") {
        itunes(&url)
    } else {
        let ghost model = url@;
        let strategy = Strategy::from_url(url).try_op(UrlOperation::RssLink).rss();
        assert(strategy@.operations =~= spec_fallback(model).operations);
        Ok(strategy)
    }
}

/// Whether the URL has this host.
fn host_is(url: &FeedUrl, host: &str) -> (res: bool)
    ensures
        res == (url@.host == Some(host@)),
{
    match &url.host {
        Some(found) => same_text(found.as_str(), host),
        None => false,
    }
}

/// The last part of the URL's path that is not empty.
pub fn last_path_part(url: &FeedUrl) -> (res: Option<&str>)
    ensures
        res.deep_view() == spec_last_path_part(url@),
{
    match &url.path_segments {
        Some(segments) => {
            let ghost parts = segments.deep_view();
            let mut i: usize = segments.len();
            assert(parts.subrange(0, i as int) == parts);
            while i > 0
                invariant
                    0 <= i <= segments.len(),
                    parts == segments.deep_view(),
                    spec_last_path_part(url@) == last_nonempty(parts),
                    last_nonempty(parts) == last_nonempty(parts.subrange(0, i as int)),
                decreases i,
            {
                let ghost head = parts.subrange(0, i as int);
                assert(head.drop_last() == parts.subrange(0, i - 1));
                if segments[i - 1].as_str().unicode_len() > 0 {
                    return Some(segments[i - 1].as_str());
                }
                i -= 1;
            }
            None
        },
        None => None,
    }
}

/// The plan for a podcast page of Apple's catalog.
fn itunes(url: &FeedUrl) -> (res: Result<Strategy, ParseError>)
    ensures
        is_outcome(res, spec_itunes(url@)),
        res matches Ok(strategy) ==> strategy@.is_complete(),
{
    match last_path_part(url) {
        Some(part) => {
            let len = part.unicode_len();
            if len < 2 {
                return Err(ParseError::MissingElement);
            }
            let itunes_id = part.substring_char(2, len);
            let mut address = String::from_str("https://itunes.apple.com/lookup?id=");
            address.append(itunes_id);
            match Strategy::from_str(address.as_str()) {
                Ok(start) => {
                    let lookup: Vec<&'static str> = vec!["results", "feedUrl"];
                    assert(lookup.deep_view() =~= itunes_feed_path());
                    let strategy = start.json(lookup).rss();
                    assert(strategy@.operations =~= seq![
                        OperationView::Url(UrlOperationView::Json(itunes_feed_path())),
                        OperationView::Podcast(PodcastOperation::RSS),
                    ]);
                    Ok(strategy)
                },
                Err(error) => Err(error),
            }
        },
        None => Err(ParseError::MissingElement),
    }
}

/// The plan for a podcast page of rss.com.
fn rss_dot_com(url: &FeedUrl) -> (res: Result<Strategy, ParseError>)
    ensures
        is_outcome(res, spec_rss_dot_com(url@)),
        res matches Ok(strategy) ==> strategy@.is_complete(),
{
    match last_path_part(url) {
        Some(id) => {
            let mut address = String::from_str("https://media.rss.com/");
            address.append(id);
            address.append("/feed.xml");
            match Strategy::from_str(address.as_str()) {
                Ok(start) => Ok(start.rss()),
                Err(error) => Err(error),
            }
        },
        None => Err(ParseError::MissingElement),
    }
}

} // verus!
