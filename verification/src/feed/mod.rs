//! Podcasts and their episodes.

use vstd::prelude::*;

pub mod address;
pub mod parse;
pub mod strategy;

verus! {

/// A point in time as a calendar date and a time of day, at a fixed offset
/// from UTC.
#[derive(Debug, Clone, Copy, PartialEq, Eq)]
pub struct PubDate {
    pub year: i32,
    /// 1 for January.
    pub month: u32,
    pub day: u32,
    pub hour: u32,
    pub minute: u32,
    pub second: u32,
    /// Seconds by which the local time is ahead of UTC.
    pub offset: i32,
}

/// Podcast episode
#[derive(Debug, PartialEq, Eq)]
pub struct Episode {
    pub title: String,
    /// Where the episode's audio is.
    pub link: String,
    pub pub_date: Option<PubDate>,
    /// Place among the podcast's episodes, counted from 1 at the oldest.
    pub index: Option<usize>,
    pub author: Option<String>,
    pub description: Option<String>,
}

/// The mathematical model of an [`Episode`].
pub struct EpisodeView {
    pub title: Seq<char>,
    pub link: Seq<char>,
    pub pub_date: Option<PubDate>,
    pub index: Option<usize>,
    pub author: Option<Seq<char>>,
    pub description: Option<Seq<char>>,
}

impl View for Episode {
    type V = EpisodeView;

    open spec fn view(&self) -> EpisodeView {
        EpisodeView {
            title: self.title@,
            link: self.link@,
            pub_date: self.pub_date,
            index: self.index,
            author: self.author.deep_view(),
            description: self.description.deep_view(),
        }
    }
}

impl Episode {
    /// Return publication day
    pub fn publication_day(&self) -> (res: Option<usize>)
        ensures
            res == match self.pub_date {
                Some(date) => Some(date.day as usize),
                None => None,
            },
    {
        match self.pub_date {
            Some(date) => Some(date.day as usize),
            None => None,
        }
    }

    /// Return publication month (1 indexed)
    pub fn publication_month(&self) -> (res: Option<usize>)
        ensures
            res == match self.pub_date {
                Some(date) => Some(date.month as usize),
                None => None,
            },
    {
        match self.pub_date {
            Some(date) => Some(date.month as usize),
            None => None,
        }
    }

    /// Return publication year
    pub fn publication_year(&self) -> (res: Option<usize>)
        ensures
            res == match self.pub_date {
                Some(date) => Some(date.year as usize),
                None => None,
            },
    {
        match self.pub_date {
            Some(date) => Some(date.year as usize),
            None => None,
        }
    }
}

/// Podcast feed
#[derive(Debug, PartialEq, Eq)]
pub struct Podcast {
    /// Title of podcast
    pub title: String,
    /// Podcast episodes, oldest first
    pub episodes: Vec<Episode>,
    /// Description of podcast
    pub description: Option<String>,
    /// Link to cover image
    pub image: Option<String>,
}

/// The mathematical model of a [`Podcast`].
pub struct PodcastView {
    pub title: Seq<char>,
    pub episodes: Seq<EpisodeView>,
    pub description: Option<Seq<char>>,
    pub image: Option<Seq<char>>,
}

impl View for Podcast {
    type V = PodcastView;

    open spec fn view(&self) -> PodcastView {
        PodcastView {
            title: self.title@,
            episodes: Seq::new(self.episodes@.len(), |i: int| self.episodes@[i]@),
            description: self.description.deep_view(),
            image: self.image.deep_view(),
        }
    }
}

impl PodcastView {
    /// The indices that are present are all different and grow along the
    /// sequence of episodes.
    pub open spec fn indices_ascend(self) -> bool {
        forall|i: int, j: int|
            0 <= i < j < self.episodes.len() && self.episodes[i].index is Some
                && self.episodes[j].index is Some ==> self.episodes[i].index->0
                < self.episodes[j].index->0
    }
}

} // verus!
