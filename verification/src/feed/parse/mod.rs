//! Reading feed documents.

pub mod rss;

pub use rss::parse_rss_feed;
