//! Running a plan, one response at a time.
//!
//! The library does not fetch anything. A run is a state, [`Execution`], that
//! says which address to fetch next and which operation awaits the response;
//! [`execute_step`] takes the state and the response to the next state, to the
//! podcast, or to the failure that ends the run.

use vstd::prelude::*;
use vstd::utf8::{decode_utf8, valid_utf8};

use crate::error::{ParseError, ParseErrorKind};
use crate::feed::address::{parsed_url, FeedUrl, FeedUrlView};
use crate::feed::parse::rss::{parse_rss_feed, spec_parse_rss_feed};
use crate::feed::strategy::{
    Operation, OperationView, PodcastOperation, Strategy, UrlOperation, UrlOperationView,
};
use crate::feed::{Podcast, PodcastView};
use crate::html::{rss_link, spec_rss_link};
use crate::json::{json_document, json_lookup, JsonValue};
use crate::text::utf8_text;

verus! {

/// Where a run stands: the address to fetch, and the place in the plan of the
/// operation that awaits the response.
#[derive(Debug, PartialEq, Eq)]
pub struct Execution {
    pub url: String,
    pub position: usize,
}

/// The mathematical model of an [`Execution`].
pub struct ExecutionView {
    pub url: Seq<char>,
    pub position: usize,
}

impl View for Execution {
    type V = ExecutionView;

    open spec fn view(&self) -> ExecutionView {
        ExecutionView { url: self.url@, position: self.position }
    }
}

/// What one operation leads to.
#[derive(Debug, PartialEq, Eq)]
pub enum Step {
    /// The run goes on: fetch the state's address next.
    Continue(Execution),
    /// The run has ended with this podcast.
    Finished(Podcast),
}

/// The mathematical model of a [`Step`].
pub enum StepView {
    Continue(ExecutionView),
    Finished(PodcastView),
}

impl View for Step {
    type V = StepView;

    open spec fn view(&self) -> StepView {
        match self {
            Step::Continue(state) => StepView::Continue(state@),
            Step::Finished(podcast) => StepView::Finished(podcast@),
        }
    }
}

/// The text that a path of keys leads to in a JSON response.
pub open spec fn spec_url_json(content: Seq<u8>, lookup: Seq<Seq<char>>) -> Result<
    Seq<char>,
    ParseErrorKind,
> {
    if !valid_utf8(content) {
        Err(ParseErrorKind::UTF8)
    } else {
        match json_document(decode_utf8(content)) {
            Some(document) => match json_lookup(document, lookup) {
                Some(found) => Ok(found),
                None => Err(ParseErrorKind::MissingElement),
            },
            None => Err(ParseErrorKind::Json),
        }
    }
}

/// The address of the first RSS feed that an HTML response announces.
pub open spec fn spec_url_rsslink(content: Seq<u8>) -> Result<Seq<char>, ParseErrorKind> {
    if !valid_utf8(content) {
        Err(ParseErrorKind::UTF8)
    } else {
        match spec_rss_link(decode_utf8(content)) {
            Some(found) => Ok(found),
            None => Err(ParseErrorKind::MissingElement),
        }
    }
}

/// The URL that an operation takes from a response.
pub open spec fn spec_url_operation(op: UrlOperationView, content: Seq<u8>) -> Result<
    FeedUrlView,
    ParseErrorKind,
> {
    let extracted = match op {
        UrlOperationView::Json(lookup) => spec_url_json(content, lookup),
        UrlOperationView::RssLink => spec_url_rsslink(content),
    };
    match extracted {
        Ok(text) => match parsed_url(text) {
            Some(url) => Ok(url),
            None => Err(ParseErrorKind::URL),
        },
        Err(kind) => Err(kind),
    }
}

/// The state after an operation that looked for the next address.
///
/// Where it found one, the run goes on from there. Where it did not, the run
/// fails, unless the operation is one that is tolerated: then the run goes on
/// from the address it had.
pub open spec fn spec_advance(
    state: ExecutionView,
    extracted: Result<FeedUrlView, ParseErrorKind>,
    tolerant: bool,
) -> Result<ExecutionView, ParseErrorKind> {
    match extracted {
        Ok(url) => Ok(ExecutionView { url: url.text, position: (state.position + 1) as usize }),
        Err(kind) => if tolerant {
            Ok(ExecutionView { url: state.url, position: (state.position + 1) as usize })
        } else {
            Err(kind)
        },
    }
}

/// What an operation leads to, from a state and the response to the fetch of
/// the state's address.
pub open spec fn spec_step(op: OperationView, state: ExecutionView, content: Seq<u8>) -> Result<
    StepView,
    ParseErrorKind,
> {
    match op {
        OperationView::Podcast(_) => match spec_parse_rss_feed(content) {
            Ok(podcast) => Ok(StepView::Finished(podcast)),
            Err(kind) => Err(kind),
        },
        OperationView::Url(op) => match spec_advance(
            state,
            spec_url_operation(op, content),
            false,
        ) {
            Ok(next) => Ok(StepView::Continue(next)),
            Err(kind) => Err(kind),
        },
        OperationView::Try(op) => match spec_advance(state, spec_url_operation(op, content), true) {
            Ok(next) => Ok(StepView::Continue(next)),
            Err(kind) => Err(kind),
        },
    }
}

/// The podcast that a run of the operations leads to from a state, where
/// `web` says what each address answers. A state that points at no operation
/// leads to none.
pub open spec fn spec_run(
    operations: Seq<OperationView>,
    state: ExecutionView,
    web: spec_fn(Seq<char>) -> Seq<u8>,
) -> Result<PodcastView, ParseErrorKind>
    decreases operations.len() - state.position,
{
    if state.position >= operations.len() || state.position >= usize::MAX {
        Err(ParseErrorKind::MissingElement)
    } else {
        match spec_step(operations[state.position as int], state, web(state.url)) {
            Ok(StepView::Finished(podcast)) => Ok(podcast),
            Ok(StepView::Continue(next)) => spec_run(operations, next, web),
            Err(kind) => Err(kind),
        }
    }
}

/// A tolerated operation never ends the run, whatever the response. Where it
/// finds no address, the run goes on to the next operation from the address
/// that it had.
pub proof fn lemma_try_never_aborts(op: UrlOperationView, state: ExecutionView, content: Seq<u8>)
    ensures
        spec_step(OperationView::Try(op), state, content) is Ok,
        spec_url_operation(op, content) is Err ==> spec_step(
            OperationView::Try(op),
            state,
            content,
        ) == Ok::<StepView, ParseErrorKind>(
            StepView::Continue(
                ExecutionView { url: state.url, position: (state.position + 1) as usize },
            ),
        ),
{
}

/// An address that answers with something in which no feed is announced is
/// read as the feed itself: a run of the plan `[Try(RssLink), Podcast(RSS)]`
/// from such an address gives what reading its answer as a feed gives.
pub proof fn lemma_plain_feed_is_read_from_its_address(
    url: Seq<char>,
    web: spec_fn(Seq<char>) -> Seq<u8>,
)
    requires
        spec_url_operation(UrlOperationView::RssLink, web(url)) is Err,
    ensures
        spec_run(
            seq![
                OperationView::Try(UrlOperationView::RssLink),
                OperationView::Podcast(PodcastOperation::RSS),
            ],
            ExecutionView { url, position: 0 },
            web,
        ) == spec_parse_rss_feed(web(url)),
{
    let operations = seq![
        OperationView::Try(UrlOperationView::RssLink),
        OperationView::Podcast(PodcastOperation::RSS),
    ];
    let start = ExecutionView { url, position: 0 };
    let next = ExecutionView { url, position: 1 };
    assert(spec_run(operations, start, web) == spec_run(operations, next, web));
}

/// The state in which a run of the plan begins.
pub fn begin(strategy: &Strategy) -> (res: Execution)
    ensures
        res@.url == strategy@.url,
        res@.position == 0,
{
    Execution { url: strategy.url().to_owned(), position: 0 }
}

/// Runs the operation that awaits the response.
///
/// The result is the next state, while operations remain; the podcast, from
/// the operation that reads the feed; or the failure that ends the run. A
/// plan that is complete never runs out of operations: the state that comes
/// back points at one.
pub fn execute_step(strategy: &Strategy, state: Execution, content: &[u8]) -> (res: Result<
    Step,
    ParseError,
>)
    requires
        strategy@.is_complete(),
        state.position < strategy@.operations.len(),
    ensures
        match spec_step(strategy@.operations[state.position as int], state@, content@) {
            Ok(step) => res matches Ok(found) && found@ == step,
            Err(kind) => res matches Err(error) && error.kind() == kind,
        },
        res matches Ok(Step::Continue(next)) ==> next.position == state.position + 1
            && next.position < strategy@.operations.len(),
{
    let operations = strategy.operations();
    assert(state.position < operations.len());
    match &operations[state.position] {
        Operation::Podcast(op) => {
            match execute_podcast_operation(op, content) {
                Ok(podcast) => Ok(Step::Finished(podcast)),
                Err(error) => Err(error),
            }
        },
        Operation::Url(op) => {
            match advance(state, execute_url_operation(op, content), false) {
                Ok(next) => Ok(Step::Continue(next)),
                Err(error) => Err(error),
            }
        },
        Operation::Try(op) => {
            match advance(state, execute_url_operation(op, content), true) {
                Ok(next) => Ok(Step::Continue(next)),
                Err(error) => Err(error),
            }
        },
    }
}

/// The state after an operation that looked for the next address.
pub fn advance(
    state: Execution,
    extracted: Result<FeedUrl, ParseError>,
    tolerant: bool,
) -> (res: Result<Execution, ParseError>)
    requires
        state.position < usize::MAX,
    ensures
        match extracted {
            Ok(url) => res matches Ok(next) && next@.url == url@.text && next.position
                == state.position + 1,
            Err(error) => if tolerant {
                res matches Ok(next) && next@.url == state@.url && next.position == state.position
                    + 1
            } else {
                res == Err::<Execution, ParseError>(error)
            },
        },
{
    match extracted {
        Ok(url) => Ok(Execution { url: url.text, position: state.position + 1 }),
        Err(error) => {
            if tolerant {
                Ok(Execution { url: state.url, position: state.position + 1 })
            } else {
                Err(error)
            }
        },
    }
}

/// Reads the response as the feed.
pub fn execute_podcast_operation(op: &PodcastOperation, content: &[u8]) -> (res: Result<
    Podcast,
    ParseError,
>)
    ensures
        crate::feed::parse::rss::is_outcome(res, spec_parse_rss_feed(content@)),
{
    match op {
        PodcastOperation::RSS => parse_rss_feed(content),
    }
}

/// Takes the next address from the response, and reads it as a URL.
pub fn execute_url_operation(op: &UrlOperation, content: &[u8]) -> (res: Result<
    FeedUrl,
    ParseError,
>)
    ensures
        match spec_url_operation(op@, content@) {
            Ok(url) => res matches Ok(found) && found@ == url,
            Err(kind) => res matches Err(error) && error.kind() == kind,
        },
{
    let extracted = match op {
        UrlOperation::Json(lookup) => execute_url_json(content, lookup),
        UrlOperation::RssLink => execute_url_rsslink(content),
    };
    match extracted {
        Ok(text) => FeedUrl::parse(text.as_str()),
        Err(error) => Err(error),
    }
}

/// The text that a path of keys leads to in a JSON response.
pub fn execute_url_json(content: &[u8], lookup: &Vec<&str>) -> (res: Result<String, ParseError>)
    ensures
        match spec_url_json(content@, lookup.deep_view()) {
            Ok(text) => res matches Ok(found) && found@ == text,
            Err(kind) => res matches Err(error) && error.kind() == kind,
        },
{
    let text = match utf8_text(content) {
        Ok(text) => text,
        Err(error) => {
            return Err(error);
        },
    };
    let json = match JsonValue::parse(text) {
        Ok(json) => json,
        Err(error) => {
            return Err(error);
        },
    };
    match json.lookup(lookup) {
        Some(found) => Ok(found),
        None => Err(ParseError::MissingElement),
    }
}

/// The address of the first RSS feed that an HTML response announces.
pub fn execute_url_rsslink(content: &[u8]) -> (res: Result<String, ParseError>)
    ensures
        match spec_url_rsslink(content@) {
            Ok(text) => res matches Ok(found) && found@ == text,
            Err(kind) => res matches Err(error) && error.kind() == kind,
        },
{
    let text = match utf8_text(content) {
        Ok(text) => text,
        Err(error) => {
            return Err(error);
        },
    };
    match rss_link(text) {
        Some(found) => Ok(found),
        None => Err(ParseError::MissingElement),
    }
}

} // verus!
