//! What is written for a podcast, and under which names.

/// Iterator over episode
pub mod episode_iterator;
/// Module for formatting episode as strings
pub mod formatting;
/// Struct for storing write options
pub mod write_options;

pub use episode_iterator::EpisodeIterator;
pub use write_options::WriteOptions;
