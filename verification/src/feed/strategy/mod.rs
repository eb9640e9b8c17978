//! Plans that lead from an address to a feed document.

use vstd::prelude::*;

use crate::error::ParseError;
use crate::feed::address::{parsed_url, FeedUrl};

pub mod create;
pub mod execute;

pub use create::create_strategy;
pub use execute::execute_step;

verus! {

/// Operation that returns a podcast object
#[derive(Debug, Clone, Copy, PartialEq, Eq)]
pub enum PodcastOperation {
    /// Read the response as an RSS document.
    RSS,
}

/// Operation that returns an url
#[derive(Debug, PartialEq, Eq)]
pub enum UrlOperation {
    /// Select url in json
    Json(Vec<&'static str>),
    /// Find rss link in html
    RssLink,
}

/// The mathematical model of a [`UrlOperation`].
pub enum UrlOperationView {
    Json(Seq<Seq<char>>),
    RssLink,
}

impl View for UrlOperation {
    type V = UrlOperationView;

    open spec fn view(&self) -> UrlOperationView {
        match self {
            UrlOperation::Json(lookup) => UrlOperationView::Json(lookup.deep_view()),
            UrlOperation::RssLink => UrlOperationView::RssLink,
        }
    }
}

/// One step of a plan.
#[derive(Debug, PartialEq, Eq)]
pub enum Operation {
    /// Read the response as the feed. Ends the plan.
    Podcast(PodcastOperation),
    /// Take the next address from the response. Fails the plan if it is not
    /// there.
    Url(UrlOperation),
    /// Skip if inner operation fails. Apply otherwise
    Try(UrlOperation),
}

/// The mathematical model of an [`Operation`].
pub enum OperationView {
    Podcast(PodcastOperation),
    Url(UrlOperationView),
    Try(UrlOperationView),
}

impl View for Operation {
    type V = OperationView;

    open spec fn view(&self) -> OperationView {
        match self {
            Operation::Podcast(op) => OperationView::Podcast(*op),
            Operation::Url(op) => OperationView::Url(op@),
            Operation::Try(op) => OperationView::Try(op@),
        }
    }
}

/// A starting address and the operations to run from it.
#[derive(Debug, PartialEq, Eq)]
pub struct Strategy {
    url: String,
    operations: Vec<Operation>,
}

/// The mathematical model of a [`Strategy`].
pub struct StrategyView {
    pub url: Seq<char>,
    pub operations: Seq<OperationView>,
}

impl StrategyView {
    /// No operation reads a feed yet: more operations may follow.
    pub open spec fn is_open(self) -> bool {
        forall|i: int| 0 <= i < self.operations.len() ==> !(self.operations[i] is Podcast)
    }

    /// Exactly one operation reads a feed, and it is the last one.
    pub open spec fn is_complete(self) -> bool {
        &&& self.operations.len() > 0
        &&& self.operations.last() is Podcast
        &&& forall|i: int| 0 <= i < self.operations.len() - 1 ==> !(self.operations[i] is Podcast)
    }
}

impl View for Strategy {
    type V = StrategyView;

    closed spec fn view(&self) -> StrategyView {
        StrategyView {
            url: self.url@,
            operations: Seq::new(self.operations@.len(), |i: int| self.operations@[i]@),
        }
    }
}

impl Strategy {
    /// A plan that starts at `url` and has no operation yet.
    pub fn from_url(url: FeedUrl) -> (res: Strategy)
        ensures
            res@.url == url@.text,
            res@.operations == Seq::<OperationView>::empty(),
    {
        Strategy { url: url.text, operations: Vec::new() }
    }

    /// A plan that starts at the URL that a text holds, with no operation yet.
    pub fn from_str(url: &str) -> (res: Result<Strategy, ParseError>)
        ensures
            match parsed_url(url@) {
                Some(found) => res matches Ok(strategy) && strategy@.url == found.text
                    && strategy@.operations == Seq::<OperationView>::empty(),
                None => res matches Err(ParseError::URL(_)),
            },
    {
        match FeedUrl::parse(url) {
            Ok(found) => Ok(Strategy::from_url(found)),
            Err(error) => Err(error),
        }
    }

    /// Adds an operation that must find the next address.
    pub fn add_url_operation(self, op: UrlOperation) -> (res: Strategy)
        requires
            self@.is_open(),
        ensures
            res@.url == self@.url,
            res@.operations == self@.operations.push(OperationView::Url(op@)),
            res@.is_open(),
    {
        let mut strategy = self;
        strategy.operations.push(Operation::Url(op));
        strategy
    }

    /// Adds the operation that reads the feed, which completes the plan.
    pub fn add_podcast_operation(self, op: PodcastOperation) -> (res: Strategy)
        requires
            self@.is_open(),
        ensures
            res@.url == self@.url,
            res@.operations == self@.operations.push(OperationView::Podcast(op)),
            res@.is_complete(),
    {
        let mut strategy = self;
        strategy.operations.push(Operation::Podcast(op));
        strategy
    }

    /// Completes the plan by reading the response as an RSS document.
    pub fn rss(self) -> (res: Strategy)
        requires
            self@.is_open(),
        ensures
            res@.url == self@.url,
            res@.operations == self@.operations.push(
                OperationView::Podcast(PodcastOperation::RSS),
            ),
            res@.is_complete(),
    {
        self.add_podcast_operation(PodcastOperation::RSS)
    }

    /// Adds a lookup of the next address in a JSON response.
    pub fn json(self, lookup: Vec<&'static str>) -> (res: Strategy)
        requires
            self@.is_open(),
        ensures
            res@.url == self@.url,
            res@.operations == self@.operations.push(
                OperationView::Url(UrlOperationView::Json(lookup.deep_view())),
            ),
            res@.is_open(),
    {
        self.add_url_operation(UrlOperation::Json(lookup))
    }

    /// Adds an operation that may find the next address, and is passed over
    /// where it does not.
    pub fn try_op(self, op: UrlOperation) -> (res: Strategy)
        requires
            self@.is_open(),
        ensures
            res@.url == self@.url,
            res@.operations == self@.operations.push(OperationView::Try(op@)),
            res@.is_open(),
    {
        let mut strategy = self;
        strategy.operations.push(Operation::Try(op));
        strategy
    }

    /// Whether exactly one operation reads a feed, and it is the last one.
    pub fn is_complete(&self) -> (res: bool)
        ensures
            res == self@.is_complete(),
    {
        let count = self.operations.len();
        if count == 0 {
            return false;
        }
        let mut i: usize = 0;
        while i < count - 1
            invariant
                0 <= i <= count - 1,
                count == self.operations@.len(),
                forall|j: int| 0 <= j < i ==> !(#[trigger] self@.operations[j] is Podcast),
            decreases count - 1 - i,
        {
            if let Operation::Podcast(_) = &self.operations[i] {
                return false;
            }
            assert(!(self@.operations[i as int] is Podcast));
            i += 1;
        }
        match &self.operations[count - 1] {
            Operation::Podcast(_) => true,
            _ => false,
        }
    }

    /// The address that the plan starts at.
    pub fn url(&self) -> (res: &str)
        ensures
            res@ == self@.url,
    {
        self.url.as_str()
    }

    /// The operations of the plan, in the order in which they run.
    pub fn operations(&self) -> (res: &Vec<Operation>)
        ensures
            res@.len() == self@.operations.len(),
            forall|i: int| 0 <= i < res@.len() ==> (#[trigger] res@[i])@ == self@.operations[i],
    {
        &self.operations
    }
}

} // verus!
