//! Struct for storing write options.

use vstd::prelude::*;

verus! {

/// Options for downloading a podcast
#[derive(Debug, PartialEq, Eq)]
pub struct WriteOptions {
    /// How many episodes should be downloaded
    pub limit: Option<usize>,
    /// Offset in episodes to download
    pub offset: Option<usize>,
    /// Start with the oldest episodes
    pub oldest: bool,
    /// Output template
    pub template: String,
    /// Write episode description to seperate file
    pub write_episode_description: bool,
    /// Remove strings from the output file name
    pub remove_from_output: Vec<String>,
}

impl Default for WriteOptions {
    fn default() -> (res: WriteOptions)
        ensures
            res.limit is None,
            res.offset is None,
            !res.oldest,
            res.template@ == Seq::<char>::empty(),
            !res.write_episode_description,
            res.remove_from_output@ == Seq::<String>::empty(),
    {
        WriteOptions {
            limit: None,
            offset: None,
            oldest: false,
            template: String::new(),
            write_episode_description: false,
            remove_from_output: Vec::new(),
        }
    }
}

} // verus!
