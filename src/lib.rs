//! Keeps a syndication feed in step with a set of rendered HTML pages.
//!
//! Each page's publication metadata becomes one feed entry, keyed by the
//! page's canonical URL: a page whose URL is already in the feed replaces
//! that entry in place, and a page with a new URL is put in front.
pub mod channel;
pub mod feed;
pub mod markup;
pub mod page;
pub mod reconcile;
