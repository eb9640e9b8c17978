//! Resolution of podcast feeds: classifying a user-supplied address into a
//! fetch plan, stepping through that plan over fetched responses, and reading
//! the final feed document into a podcast with its episodes.

pub mod args;
pub mod error;
pub mod feed;
pub mod html;
pub mod json;
pub mod logging;
pub mod output;
pub mod search;
pub mod text;

pub use error::Error;
pub use error::ParseError;
pub use feed::{Episode, Podcast};
