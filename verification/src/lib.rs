//! Storage access and content assembly for a small content site.
//!
//! The crate holds the decisions of the site's storage layer as functions on
//! plain values: which pool is current and which one is draining, when a
//! retired database file may be removed, how rows become content entities,
//! how change-log entries and related content are attached in one batch, how
//! a search string becomes a parameterised query, and how listings are paged.
//! Opening files, running statements and serving requests are left to the
//! program that links the crate.

pub mod text;
pub mod dates;
pub mod db;
pub mod error;
pub mod json;
pub mod paging;
pub mod pattern;
pub mod post;
pub mod query;
pub mod routes;
pub mod rss;
pub mod services;
