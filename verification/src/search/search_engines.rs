//! The catalogs that answer a search, and what is read from their answers.

use vstd::prelude::*;

use crate::error::{ParseError, ParseErrorKind};
use crate::json::{member_position, JsonTree, JsonValue};
use crate::search::{SearchEngine, SearchResult, SearchResultView};

verus! {

/// Where Podcast Index takes the terms of a search.
pub const PODCAST_INDEX_SEARCH: &'static str = "https://api.podcastindex.org/search?term=";

/// Where iTunes takes the terms of a search.
pub const ITUNES_SEARCH: &'static str = "https://itunes.apple.com/search?media=podcast&term=";

impl SearchEngine {
    /// Where the catalog takes the terms of a search.
    pub fn base_url(&self) -> (res: &'static str)
        ensures
            res@ == match self {
                SearchEngine::Itunes => ITUNES_SEARCH@,
                SearchEngine::PodcastIndex => PODCAST_INDEX_SEARCH@,
            },
    {
        match self {
            SearchEngine::Itunes => ITUNES_SEARCH,
            SearchEngine::PodcastIndex => PODCAST_INDEX_SEARCH,
        }
    }
}

/// Texts in a row, with a separator between each two.
pub open spec fn spec_join(parts: Seq<Seq<char>>, separator: Seq<char>) -> Seq<char>
    decreases parts.len(),
{
    if parts.len() == 0 {
        Seq::empty()
    } else if parts.len() == 1 {
        parts[0]
    } else {
        spec_join(parts.drop_last(), separator) + separator + parts.last()
    }
}

/// The address that asks a catalog for the podcasts that match the terms.
pub open spec fn spec_search_url(base_url: Seq<char>, search_terms: Seq<Seq<char>>) -> Seq<char> {
    base_url + spec_join(search_terms, "+"@)
}

/// The address that asks a catalog for the podcasts that match the terms:
/// the terms, joined by `+`, behind the catalog's address.
pub fn search_url(base_url: &str, search_terms: &Vec<String>) -> (res: String)
    ensures
        res@ == spec_search_url(base_url@, search_terms.deep_view()),
{
    let ghost terms = search_terms.deep_view();
    let mut url = String::from_str(base_url);
    let mut i: usize = 0;
    while i < search_terms.len()
        invariant
            0 <= i <= search_terms.len(),
            terms == search_terms.deep_view(),
            url@ == base_url@ + spec_join(terms.take(i as int), "+"@),
        decreases search_terms.len() - i,
    {
        let ghost head = terms.take(i + 1);
        assert(head.drop_last() == terms.take(i as int));
        if i > 0 {
            url.append("+");
        }
        url.append(search_terms[i].as_str());
        i += 1;
    }
    assert(terms.take(search_terms@.len() as int) == terms);
    url
}

/// The text under a key of an object; `None` where the node is no object, has
/// no such member, or has another thing than a text there.
pub open spec fn spec_text_member(node: JsonTree, key: Seq<char>) -> Option<Seq<char>> {
    match node {
        JsonTree::Object(members) => {
            let at = member_position(members, key);
            if 0 <= at < members.len() {
                match members[at].1 {
                    JsonTree::String(text) => Some(text),
                    _ => None,
                }
            } else {
                None
            }
        },
        _ => None,
    }
}

/// The podcast that one entry of a catalog's answer describes, where the
/// entry names its title, feed, artist and artwork.
pub open spec fn spec_search_result(entry: JsonTree, engine: SearchEngine) -> Option<
    SearchResultView,
> {
    match (
        spec_text_member(entry, "collectionName"@),
        spec_text_member(entry, "feedUrl"@),
        spec_text_member(entry, "artistName"@),
        spec_text_member(entry, "artworkUrl600"@),
    ) {
        (Some(title), Some(url), Some(artist), Some(artwork)) => Some(
            SearchResultView { title, url, artist, artwork, search_engine: engine },
        ),
        _ => None,
    }
}

/// The podcasts that the entries describe, in their order; entries that
/// describe none are passed over.
pub open spec fn spec_collect(entries: Seq<JsonTree>, engine: SearchEngine) -> Seq<
    SearchResultView,
>
    decreases entries.len(),
{
    if entries.len() == 0 {
        Seq::empty()
    } else {
        let before = spec_collect(entries.drop_last(), engine);
        match spec_search_result(entries.last(), engine) {
            Some(result) => before.push(result),
            None => before,
        }
    }
}

/// The podcasts in a catalog's answer: those of the entries under `results`.
/// An answer without a list of results is a failure.
pub open spec fn spec_search_results(response: JsonTree, engine: SearchEngine) -> Result<
    Seq<SearchResultView>,
    ParseErrorKind,
> {
    match response {
        JsonTree::Object(members) => {
            let at = member_position(members, "results"@);
            if 0 <= at < members.len() {
                match members[at].1 {
                    JsonTree::Array(entries) => Ok(spec_collect(entries, engine)),
                    _ => Err(ParseErrorKind::MissingElement),
                }
            } else {
                Err(ParseErrorKind::MissingElement)
            }
        },
        _ => Err(ParseErrorKind::MissingElement),
    }
}

/// The text under a key of an object.
pub fn text_member(node: &JsonValue, key: &str) -> (res: Option<String>)
    ensures
        res.deep_view() == spec_text_member(node@, key@),
{
    proof {
        crate::json::lemma_member_position(node@->Object_0, key@);
    }
    match node.member(key) {
        Some(JsonValue::String(text)) => Some(text.clone()),
        _ => None,
    }
}

/// The podcast that one entry of a catalog's answer describes.
pub fn search_result(entry: &JsonValue, engine: SearchEngine) -> (res: Option<SearchResult>)
    ensures
        match spec_search_result(entry@, engine) {
            Some(result) => res matches Some(found) && found@ == result,
            None => res is None,
        },
{
    let title = text_member(entry, "collectionName");
    let url = text_member(entry, "feedUrl");
    let artist = text_member(entry, "artistName");
    let artwork = text_member(entry, "artworkUrl600");
    match (title, url, artist, artwork) {
        (Some(title), Some(url), Some(artist), Some(artwork)) => Some(
            SearchResult { title, url, artist, artwork, search_engine: engine },
        ),
        _ => None,
    }
}

/// The podcasts in a catalog's answer.
pub fn search_results(response: &JsonValue, engine: SearchEngine) -> (res: Result<
    Vec<SearchResult>,
    ParseError,
>)
    ensures
        match spec_search_results(response@, engine) {
            Ok(results) => res matches Ok(found) && crate::search::views(found@) == results,
            Err(kind) => res matches Err(error) && error.kind() == kind,
        },
{
    proof {
        crate::json::lemma_member_position(response@->Object_0, "results"@);
    }
    match response.member("results") {
        Some(JsonValue::Array(entries)) => {
            let ghost trees = JsonValue::Array(*entries)@->Array_0;
            let mut results: Vec<SearchResult> = Vec::new();
            let mut i: usize = 0;
            while i < entries.len()
                invariant
                    0 <= i <= entries.len(),
                    trees.len() == entries@.len(),
                    forall|j: int| 0 <= j < trees.len() ==> (#[trigger] trees[j]) == entries@[j]@,
                    crate::search::views(results@) == spec_collect(trees.take(i as int), engine),
                decreases entries.len() - i,
            {
                let ghost head = trees.take(i + 1);
                assert(head.drop_last() == trees.take(i as int));
                if let Some(result) = search_result(&entries[i], engine) {
                    results.push(result);
                }
                i += 1;
            }
            assert(trees.take(entries@.len() as int) == trees);
            Ok(results)
        },
        _ => Err(ParseError::MissingElement),
    }
}

} // verus!
