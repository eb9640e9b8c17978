//! Results of a search for podcasts.

use vstd::prelude::*;

pub mod search_engines;

verus! {

/// One podcast that a search has found.
#[derive(Debug, PartialEq, Eq)]
pub struct SearchResult {
    /// Title of podcast
    pub title: String,
    /// Url of podcast
    pub url: String,
    /// Who made the podacst
    pub artist: String,
    /// Url of podcast cover image
    pub artwork: String,
    /// The search engine the result was found on
    pub search_engine: SearchEngine,
}

/// The mathematical model of a [`SearchResult`].
pub struct SearchResultView {
    pub title: Seq<char>,
    pub url: Seq<char>,
    pub artist: Seq<char>,
    pub artwork: Seq<char>,
    pub search_engine: SearchEngine,
}

impl View for SearchResult {
    type V = SearchResultView;

    open spec fn view(&self) -> SearchResultView {
        SearchResultView {
            title: self.title@,
            url: self.url@,
            artist: self.artist@,
            artwork: self.artwork@,
            search_engine: self.search_engine,
        }
    }
}

/// The catalogs that can be searched.
#[derive(Debug, Copy, Clone, PartialEq, Eq)]
pub enum SearchEngine {
    Itunes,
    PodcastIndex,
}

/// The models of a list of results.
pub open spec fn views(results: Seq<SearchResult>) -> Seq<SearchResultView> {
    Seq::new(results.len(), |i: int| results[i]@)
}

/// A list of results without those that follow a result with the same URL
/// directly.
pub open spec fn spec_dedup(results: Seq<SearchResultView>) -> Seq<SearchResultView>
    decreases results.len(),
{
    if results.len() <= 1 {
        results
    } else if results.last().url == results[results.len() - 2].url {
        spec_dedup(results.drop_last())
    } else {
        spec_dedup(results.drop_last()).push(results.last())
    }
}

/// A copy of a result.
fn clone_result(result: &SearchResult) -> (res: SearchResult)
    ensures
        res@ == result@,
{
    SearchResult {
        title: result.title.clone(),
        url: result.url.clone(),
        artist: result.artist.clone(),
        artwork: result.artwork.clone(),
        search_engine: result.search_engine,
    }
}

/// Leaves out each result that directly follows one with the same URL.
pub fn dedup_by_url(results: &Vec<SearchResult>) -> (res: Vec<SearchResult>)
    ensures
        views(res@) == spec_dedup(views(results@)),
{
    let ghost all = views(results@);
    let mut kept: Vec<SearchResult> = Vec::new();
    let mut i: usize = 0;
    while i < results.len()
        invariant
            0 <= i <= results.len(),
            all == views(results@),
            views(kept@) == spec_dedup(all.take(i as int)),
        decreases results.len() - i,
    {
        let ghost head = all.take(i + 1);
        assert(head.drop_last() == all.take(i as int));
        if !(i > 0 && results[i].url == results[i - 1].url) {
            kept.push(clone_result(&results[i]));
        }
        i += 1;
    }
    assert(all.take(results@.len() as int) == all);
    kept
}

/// The results of two searches as one list: those of the first search, then
/// those of the second, without each result that directly follows one with
/// the same URL.
pub fn merge_results(first: Vec<SearchResult>, second: Vec<SearchResult>) -> (res: Vec<
    SearchResult,
>)
    ensures
        views(res@) == spec_dedup(views(first@) + views(second@)),
{
    let mut output = first;
    let mut results = second;
    output.append(&mut results);
    assert(views(output@) == views(first@) + views(second@));
    dedup_by_url(&output)
}

} // verus!
