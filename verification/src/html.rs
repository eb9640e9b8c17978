//! What the library reads from HTML documents.

use vstd::prelude::*;

use crate::text::clone_text;

verus! {

/// The selector for the links by which a page announces its RSS feeds.
pub const RSS_LINK_SELECTOR: &'static str = "link[type=\"application/rss+xml\"]";

/// For each element of an HTML document that a CSS selector matches, in the
/// order in which `scraper` hands the elements out, the value of one
/// attribute where the element has it. `None` where `scraper` does not accept
/// the selector.
pub uninterp spec fn selected_attributes(
    html: Seq<char>,
    selector: Seq<char>,
    attribute: Seq<char>,
) -> Option<Seq<Option<Seq<char>>>>;

/// Calls `scraper::Selector::parse`, `scraper::Html::parse_document` and
/// `Html::select`, and reads one attribute of each element that comes out,
/// with `Element::attr`. The contract claims that the result is what
/// `selected_attributes` names.
#[verifier::external_body]
fn select_attributes(html: &str, selector: &str, attribute: &str) -> (res: Option<
    Vec<Option<String>>,
>)
    ensures
        res.deep_view() == selected_attributes(html@, selector@, attribute@),
{
    let selector = scraper::Selector::parse(selector).ok()?;
    let document = scraper::Html::parse_document(html);
    Some(
        document.select(&selector).map(
            |element| element.value().attr(attribute).map(String::from),
        ).collect(),
    )
}

/// The first value that is present.
pub open spec fn first_present(values: Seq<Option<Seq<char>>>) -> Option<Seq<char>>
    decreases values.len(),
{
    if values.len() == 0 {
        None
    } else if values[0] is Some {
        values[0]
    } else {
        first_present(values.drop_first())
    }
}

/// The address of the first RSS feed that a page announces: the `href` of
/// the first element that matches [`RSS_LINK_SELECTOR`] and has one.
pub open spec fn spec_rss_link(html: Seq<char>) -> Option<Seq<char>> {
    match selected_attributes(html, RSS_LINK_SELECTOR@, "href"@) {
        Some(values) => first_present(values),
        None => None,
    }
}

/// The first value that is present.
pub fn first_link(links: &Vec<Option<String>>) -> (res: Option<String>)
    ensures
        res.deep_view() == first_present(links.deep_view()),
{
    let ghost values = links.deep_view();
    let mut i: usize = 0;
    assert(values.skip(0) == values);
    while i < links.len()
        invariant
            0 <= i <= links.len(),
            links.deep_view() == values,
            first_present(values) == first_present(values.skip(i as int)),
        decreases links.len() - i,
    {
        let ghost rest = values.skip(i as int);
        assert(rest.drop_first() == values.skip(i + 1));
        if links[i].is_some() {
            return clone_text(&links[i]);
        }
        i += 1;
    }
    None
}

/// The address of the first RSS feed that a page announces.
pub fn rss_link(html: &str) -> (res: Option<String>)
    ensures
        res.deep_view() == spec_rss_link(html@),
{
    match select_attributes(html, RSS_LINK_SELECTOR, "href") {
        Some(links) => first_link(&links),
        None => None,
    }
}

} // verus!
