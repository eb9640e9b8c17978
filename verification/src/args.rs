//! The arguments of the program, as plain values.

use vstd::prelude::*;

use crate::logging::LevelFilter;
use crate::output::WriteOptions;
use crate::text::clone_texts;

verus! {

/// The output template that is used where none is given.
pub const DEFAULT_OUTPUT: &'static str = "{podcast_title}/{episode_title}.mp3";

/// All that the command line says.
#[derive(Debug, PartialEq, Eq)]
pub struct Args {
    /// The most verbose level that is logged.
    pub log_level: LevelFilter,
    pub command: Command,
}

/// What the program is asked to do.
#[derive(Debug, PartialEq, Eq)]
pub enum Command {
    /// Download podcast episodes
    Download(Download),
    /// Print podcast info
    Print(Print),
    /// Search for a podcast
    Search(Search),
}

#[derive(Debug, PartialEq, Eq)]
pub struct Download {
    /// Url of podcast to download
    pub url: String,
    /// Amount of episodes to download
    pub limit: Option<usize>,
    /// Offset in episodes to download
    pub offset: Option<usize>,
    /// Sort downloads by oldest instead of newest
    pub oldest: bool,
    /// Output template
    pub output: String,
    /// Download cover image
    pub download_image: bool,
    /// Write description to disk
    pub write_description: bool,
    /// Write episode description to file
    pub write_episode_description: bool,
    /// Remove a string from the output
    pub remove_from_output: Vec<String>,
}

impl Download {
    /// The options for writing that the arguments ask for.
    pub fn write_options(&self) -> (res: WriteOptions)
        ensures
            res.limit == self.limit,
            res.offset == self.offset,
            res.oldest == self.oldest,
            res.template@ == self.output@,
            res.write_episode_description == self.write_episode_description,
            res.remove_from_output.deep_view() == self.remove_from_output.deep_view(),
    {
        WriteOptions {
            limit: self.limit,
            offset: self.offset,
            oldest: self.oldest,
            template: self.output.clone(),
            write_episode_description: self.write_episode_description,
            remove_from_output: clone_texts(&self.remove_from_output),
        }
    }
}

#[derive(Debug, PartialEq, Eq)]
pub struct Print {
    /// Url of podcast to download
    pub url: String,
}

#[derive(Debug, PartialEq, Eq)]
pub struct Search {
    /// Search terms
    pub search_terms: Vec<String>,
}

} // verus!
