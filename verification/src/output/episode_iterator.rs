//! The episodes of a podcast in the order in which they are written, within
//! the bounds that the options set.

use vstd::prelude::*;

use crate::feed::{Episode, Podcast};
use crate::output::write_options::WriteOptions;

verus! {

/// A walk over the episodes of a podcast.
pub struct EpisodeIterator<'a> {
    index: usize,
    limit: Option<usize>,
    reversed: bool,
    items: &'a Vec<Episode>,
}

/// The mathematical model of an [`EpisodeIterator`].
pub struct EpisodeIteratorView {
    /// How far the walk has come, counted from the end it starts at.
    pub index: usize,
    /// The count at which the walk stops, where it comes by it.
    pub limit: Option<usize>,
    /// Whether the walk starts at the newest episode, the last one.
    pub reversed: bool,
    /// The episodes, oldest first.
    pub items: Seq<Episode>,
}

impl EpisodeIteratorView {
    /// Whether the walk has reached its limit or has counted all the items.
    /// A walk that starts beyond the items is over too.
    pub open spec fn reached_limit(self) -> bool {
        self.limit == Some(self.index) || self.index >= self.items.len()
    }

    /// The place of the episode that comes next.
    pub open spec fn get_index(self) -> int {
        if self.reversed {
            self.items.len() - 1 - self.index
        } else {
            self.index as int
        }
    }
}

impl<'a> View for EpisodeIterator<'a> {
    type V = EpisodeIteratorView;

    closed spec fn view(&self) -> EpisodeIteratorView {
        EpisodeIteratorView {
            index: self.index,
            limit: self.limit,
            reversed: self.reversed,
            items: self.items@,
        }
    }
}

impl<'a> EpisodeIterator<'a> {
    /// A walk over the episodes of `podcast`: from the newest, unless the
    /// options ask for the oldest first; it starts at the offset and stops at
    /// the limit.
    pub fn new(podcast: &'a Podcast, options: &WriteOptions) -> (res: Self)
        ensures
            res@ == (EpisodeIteratorView {
                index: match options.offset {
                    Some(offset) => offset,
                    None => 0,
                },
                limit: options.limit,
                reversed: !options.oldest,
                items: podcast.episodes@,
            }),
    {
        Self {
            index: match options.offset {
                Some(offset) => offset,
                None => 0,
            },
            limit: options.limit,
            reversed: !options.oldest,
            items: &podcast.episodes,
        }
    }

    /// Gets current index based on `self.index` and `self.reversed`
    fn get_index(&self) -> (res: usize)
        requires
            self@.index < self@.items.len(),
        ensures
            res == self@.get_index(),
            res < self@.items.len(),
    {
        if self.reversed {
            self.items.len() - 1 - self.index
        } else {
            self.index
        }
    }

    /// Checks if `self.index` as reached `self.limit` or has reached end of `self.items`
    fn reached_limit(&self) -> (res: bool)
        ensures
            res == self@.reached_limit(),
    {
        if let Some(limit) = self.limit {
            if self.index == limit {
                return true;
            }
        }
        if self.index >= self.items.len() {
            return true;
        }
        return false;
    }

    /// The episode that comes next, and one step on; `None`, and no step,
    /// where the walk is over.
    pub fn next(&mut self) -> (res: Option<&'a Episode>)
        ensures
            if old(self)@.reached_limit() {
                res is None && final(self)@ == old(self)@
            } else {
                &&& res matches Some(episode)
                &&& *episode == old(self)@.items[old(self)@.get_index()]
                &&& final(self)@ == (EpisodeIteratorView {
                    index: (old(self)@.index + 1) as usize,
                    ..old(self)@
                })
                &&& final(self)@.index == old(self)@.index + 1
            },
    {
        if self.reached_limit() {
            return None;
        }
        let index = self.get_index();
        assert(self.index < self.items.len());
        self.index += 1;
        return Some(&self.items[index]);
    }
}

} // verus!
