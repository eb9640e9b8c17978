//! RSS documents: from the channel that the reader hands over to a podcast
//! with its episodes, oldest first.

use vstd::prelude::*;

use crate::error::{ParseError, ParseErrorKind};
use crate::feed::{Episode, EpisodeView, Podcast, PodcastView, PubDate};
use crate::text::clone_text;

verus! {

/// What the library reads from one item of a channel.
#[derive(Debug, PartialEq, Eq)]
pub struct Item {
    pub title: Option<String>,
    /// The URL of the item's enclosure, where it has an enclosure.
    pub enclosure: Option<String>,
    /// The publication date as the document writes it.
    pub pub_date: Option<String>,
    pub author: Option<String>,
    pub description: Option<String>,
}

/// The mathematical model of an [`Item`].
pub struct ItemView {
    pub title: Option<Seq<char>>,
    pub enclosure: Option<Seq<char>>,
    pub pub_date: Option<Seq<char>>,
    pub author: Option<Seq<char>>,
    pub description: Option<Seq<char>>,
}

impl View for Item {
    type V = ItemView;

    open spec fn view(&self) -> ItemView {
        ItemView {
            title: self.title.deep_view(),
            enclosure: self.enclosure.deep_view(),
            pub_date: self.pub_date.deep_view(),
            author: self.author.deep_view(),
            description: self.description.deep_view(),
        }
    }
}

/// What the library reads from the channel of an RSS document.
#[derive(Debug, PartialEq, Eq)]
pub struct Channel {
    pub title: String,
    pub description: String,
    /// The URL of the channel's image, where it has one.
    pub image: Option<String>,
    /// The items in the order of the document.
    pub items: Vec<Item>,
}

/// The mathematical model of a [`Channel`].
pub struct ChannelView {
    pub title: Seq<char>,
    pub description: Seq<char>,
    pub image: Option<Seq<char>>,
    pub items: Seq<ItemView>,
}

impl View for Channel {
    type V = ChannelView;

    open spec fn view(&self) -> ChannelView {
        ChannelView {
            title: self.title@,
            description: self.description@,
            image: self.image.deep_view(),
            items: Seq::new(self.items@.len(), |i: int| self.items@[i]@),
        }
    }
}

/// The channel that `rss::Channel::read_from` reads from a document, where it
/// reads one: its title, description, image URL and, of each item, the title,
/// the enclosure's URL, the publication date, the author and the description.
pub uninterp spec fn rss_channel(content: Seq<u8>) -> Option<ChannelView>;

/// Calls `rss::Channel::read_from` and moves the fields that the library
/// reads out of the result. The contract claims that the call succeeds exactly
/// on the documents that `rss_channel` accepts and hands back what it names;
/// on failure the reader's message is handed back.
#[verifier::external_body]
fn channel_from_bytes(content: &[u8]) -> (res: Result<Channel, String>)
    ensures
        res is Ok <==> rss_channel(content@) is Some,
        res matches Ok(channel) ==> Some(channel@) == rss_channel(content@),
{
    let channel = rss::Channel::read_from(content).map_err(|error| error.to_string())?;
    Ok(Channel {
        title: channel.title,
        description: channel.description,
        image: channel.image.map(|image| image.url),
        items: channel.items.into_iter().map(|item| Item {
            title: item.title,
            enclosure: item.enclosure.map(|enclosure| enclosure.url),
            pub_date: item.pub_date,
            author: item.author,
            description: item.description,
        }).collect(),
    })
}

/// The point in time that `chrono::DateTime::parse_from_rfc2822` reads from a
/// text, where it reads one, as the calendar date and time of day at the
/// offset that the text gives.
pub uninterp spec fn rfc2822_date(text: Seq<char>) -> Option<PubDate>;

/// Calls `chrono::DateTime::parse_from_rfc2822` and reads the date, the time
/// and the offset of the result. The contract claims that the result is what
/// `rfc2822_date` names.
#[verifier::external_body]
fn date_from_rfc2822(text: &str) -> (res: Option<PubDate>)
    ensures
        res == rfc2822_date(text@),
{
    let date = chrono::DateTime::parse_from_rfc2822(text).ok()?;
    Some(PubDate {
        year: chrono::Datelike::year(&date),
        month: chrono::Datelike::month(&date),
        day: chrono::Datelike::day(&date),
        hour: chrono::Timelike::hour(&date),
        minute: chrono::Timelike::minute(&date),
        second: chrono::Timelike::second(&date),
        offset: date.offset().local_minus_utc(),
    })
}

/// An item has what an episode needs: a title and the URL of an enclosure,
/// neither of them empty.
pub open spec fn is_complete(item: ItemView) -> bool {
    &&& item.title matches Some(title)
    &&& title.len() > 0
    &&& item.enclosure matches Some(link)
    &&& link.len() > 0
}

/// The publication date of an item: what its text says, where there is a text
/// and it is a date.
pub open spec fn spec_pub_date(item: ItemView) -> Option<PubDate> {
    match item.pub_date {
        Some(text) => rfc2822_date(text),
        None => None,
    }
}

/// The episode that an item stands for, given its publication date and its
/// place among the episodes.
pub open spec fn spec_episode(item: ItemView, pub_date: Option<PubDate>, index: usize) -> Result<
    EpisodeView,
    ParseErrorKind,
> {
    if is_complete(item) {
        Ok(
            EpisodeView {
                title: item.title->0,
                link: item.enclosure->0,
                pub_date,
                index: Some(index),
                author: item.author,
                description: item.description,
            },
        )
    } else {
        Err(ParseErrorKind::MissingElement)
    }
}

/// The episodes of a channel: its items in reverse, so that the oldest comes
/// first, counted from 1. There are none where any item is incomplete.
pub open spec fn spec_extract_episodes(items: Seq<ItemView>) -> Result<
    Seq<EpisodeView>,
    ParseErrorKind,
> {
    if forall|i: int| 0 <= i < items.len() ==> is_complete(#[trigger] items[i]) {
        Ok(
            Seq::new(
                items.len(),
                |i: int|
                    {
                        let item = items[items.len() - 1 - i];
                        spec_episode(item, spec_pub_date(item), (i + 1) as usize)->Ok_0
                    },
            ),
        )
    } else {
        Err(ParseErrorKind::MissingElement)
    }
}

/// The podcast that a channel stands for.
pub open spec fn spec_podcast(channel: ChannelView) -> Result<PodcastView, ParseErrorKind> {
    match spec_extract_episodes(channel.items) {
        Ok(episodes) => Ok(
            PodcastView {
                title: channel.title,
                episodes,
                description: Some(channel.description),
                image: channel.image,
            },
        ),
        Err(kind) => Err(kind),
    }
}

/// The podcast that a feed document holds.
pub open spec fn spec_parse_rss_feed(content: Seq<u8>) -> Result<PodcastView, ParseErrorKind> {
    match rss_channel(content) {
        Some(channel) => spec_podcast(channel),
        None => Err(ParseErrorKind::RSS),
    }
}

/// Numbering of episodes: where every item of a feed is complete, there are as
/// many episodes as items, whatever the order of the items; the episode at
/// place `i` has the index `i + 1` and stands for the item that is the
/// `i`-th from the end of the document, so that the index 1 goes to the last
/// item, the oldest; and the indices ascend.
pub proof fn lemma_episodes_are_numbered(channel: ChannelView)
    requires
        channel.items.len() <= usize::MAX,
        forall|i: int| 0 <= i < channel.items.len() ==> is_complete(#[trigger] channel.items[i]),
    ensures
        spec_podcast(channel) matches Ok(podcast) && podcast.episodes.len() == channel.items.len()
            && podcast.indices_ascend() && forall|i: int|
            0 <= i < channel.items.len() ==> {
                let episode = #[trigger] podcast.episodes[i];
                let item = channel.items[channel.items.len() - 1 - i];
                &&& episode.index matches Some(index)
                &&& index == i + 1
                &&& Some(episode.title) == item.title
                &&& Some(episode.link) == item.enclosure
                &&& episode.pub_date == spec_pub_date(item)
                &&& episode.author == item.author
                &&& episode.description == item.description
            },
{
}

/// One incomplete item fails the whole feed: where any item has no title, an
/// empty title, no enclosure URL or an empty one, there is no podcast but the
/// failure `MissingElement`.
pub proof fn lemma_incomplete_item_fails(channel: ChannelView, at: int)
    requires
        0 <= at < channel.items.len(),
        !is_complete(channel.items[at]),
    ensures
        spec_extract_episodes(channel.items) == Err::<Seq<EpisodeView>, ParseErrorKind>(
            ParseErrorKind::MissingElement,
        ),
        spec_podcast(channel) == Err::<PodcastView, ParseErrorKind>(ParseErrorKind::MissingElement),
{
}

/// Whether a result is the one that a model gives: a podcast with that model,
/// or a failure of the same kind.
pub open spec fn is_outcome(
    res: Result<Podcast, ParseError>,
    model: Result<PodcastView, ParseErrorKind>,
) -> bool {
    match model {
        Ok(podcast) => res matches Ok(found) && found@ == podcast,
        Err(kind) => res matches Err(error) && error.kind() == kind,
    }
}

/// Reads a podcast from an RSS document.
///
/// Fails with `RSS` where the document cannot be read, and with
/// `MissingElement` where an item has no title or no enclosure URL.
pub fn parse_rss_feed(content: &[u8]) -> (res: Result<Podcast, ParseError>)
    ensures
        is_outcome(res, spec_parse_rss_feed(content@)),
        res matches Ok(podcast) ==> podcast@.indices_ascend(),
{
    match channel_from_bytes(content) {
        Ok(channel) => podcast_from_channel(&channel),
        Err(message) => Err(ParseError::RSS(message)),
    }
}

/// The podcast that a channel stands for: title and description as they are,
/// the image's URL, and the episodes of the items.
pub fn podcast_from_channel(channel: &Channel) -> (res: Result<Podcast, ParseError>)
    ensures
        is_outcome(res, spec_podcast(channel@)),
        res matches Ok(podcast) ==> podcast@.indices_ascend() && podcast@.episodes.len()
            == channel@.items.len(),
{
    match extract_episodes(channel) {
        Ok(episodes) => {
            proof {
                assert(channel@.items.len() == channel.items.len());
                lemma_episodes_are_numbered(channel@);
            }
            let podcast = Podcast {
                title: channel.title.clone(),
                episodes,
                description: Some(channel.description.clone()),
                image: clone_text(&channel.image),
            };
            assert(podcast@.episodes =~= spec_extract_episodes(channel@.items)->Ok_0);
            Ok(podcast)
        },
        Err(error) => Err(error),
    }
}

/// The episode that an item stands for.
pub fn episode_from_item(item: &Item, pub_date: Option<PubDate>, index: usize) -> (res: Result<
    Episode,
    ParseError,
>)
    ensures
        match spec_episode(item@, pub_date, index) {
            Ok(episode) => res matches Ok(found) && found@ == episode,
            Err(kind) => res matches Err(error) && error.kind() == kind,
        },
{
    match (&item.title, &item.enclosure) {
        (Some(title), Some(link)) => {
            if title.as_str().unicode_len() == 0 || link.as_str().unicode_len() == 0 {
                return Err(ParseError::MissingElement);
            }
            Ok(
                Episode {
                    title: title.clone(),
                    link: link.clone(),
                    pub_date,
                    index: Some(index),
                    author: clone_text(&item.author),
                    description: clone_text(&item.description),
                },
            )
        },
        _ => Err(ParseError::MissingElement),
    }
}

/// The publication date of an item.
pub fn item_pub_date(item: &Item) -> (res: Option<PubDate>)
    ensures
        res == spec_pub_date(item@),
{
    match &item.pub_date {
        Some(text) => date_from_rfc2822(text.as_str()),
        None => None,
    }
}

/// The episodes of a channel, oldest first and counted from 1.
pub fn extract_episodes(channel: &Channel) -> (res: Result<Vec<Episode>, ParseError>)
    ensures
        match spec_extract_episodes(channel@.items) {
            Ok(episodes) => res matches Ok(found) && found@.len() == episodes.len()
                && forall|i: int| 0 <= i < episodes.len() ==> (#[trigger] found@[i])@ == episodes[i],
            Err(kind) => res matches Err(error) && error.kind() == kind,
        },
{
    let ghost items = channel@.items;
    let count = channel.items.len();
    let mut episodes: Vec<Episode> = Vec::new();
    let mut done: usize = 0;
    while done < count
        invariant
            0 <= done <= count,
            count == channel.items@.len(),
            items == channel@.items,
            episodes@.len() == done,
            forall|i: int| 0 <= i < done ==> is_complete(#[trigger] items[count - 1 - i]),
            forall|i: int|
                0 <= i < done ==> Ok::<EpisodeView, ParseErrorKind>((#[trigger] episodes@[i])@)
                    == spec_episode(
                    items[count - 1 - i],
                    spec_pub_date(items[count - 1 - i]),
                    (i + 1) as usize,
                ),
        decreases count - done,
    {
        let item = &channel.items[count - 1 - done];
        let pub_date = item_pub_date(item);
        match episode_from_item(item, pub_date, done + 1) {
            Ok(episode) => {
                episodes.push(episode);
            },
            Err(error) => {
                assert(!is_complete(items[count - 1 - done]));
                return Err(error);
            },
        }
        done += 1;
    }
    proof {
        assert forall|i: int| 0 <= i < items.len() implies is_complete(#[trigger] items[i]) by {
            assert(is_complete(items[count - 1 - (count - 1 - i)]));
        }
    }
    Ok(episodes)
}

} // verus!
