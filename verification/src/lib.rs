//! Verified core of a browser for ROM archive directory listings.
//!
//! The archive is a file server that lists each directory as an HTML page of
//! anchors. This crate turns such a page into entries, entries into
//! platforms and downloads, and titles into the file that most likely holds
//! them. It never reads or writes anything itself: callers fetch pages and
//! files and hand over what they got.
//!
//! Every function is verified against a contract over plain values. Strings
//! are sequences of characters; see [`text`] for what is assumed of the
//! standard library, and [`pattern`] for what is assumed of the pattern
//! engine.
//!
//! - [`codec`]: percent-encoding of the seven reserved characters.
//! - [`listing`]: from the text of an index page to its entries.
//! - [`browse`]: platforms, browsing and searching, given fetched pages.
//! - [`catalog`]: known platforms, datasets and title noise.
//! - [`title`], [`search`], [`matching`]: from a raw title to the best file.
//! - [`queue`], [`navigate`], [`session`], [`paging`]: the decisions of the
//!   command-line tools and of the shell.
//! - [`config`], [`appearance`], [`files`]: settings and file names.
//! - [`json`], [`answers`], [`providers`]: what metadata providers answer,
//!   and what is kept of it.

pub mod answers;
pub mod appearance;
pub mod browse;
pub mod catalog;
pub mod codec;
pub mod config;
pub mod files;
pub mod json;
pub mod listing;
pub mod matching;
pub mod model;
pub mod navigate;
pub mod paging;
pub mod pattern;
pub mod providers;
pub mod queue;
pub mod search;
pub mod session;
pub mod text;
pub mod title;
