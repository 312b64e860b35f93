//! A gateway between a search page and a full-text index: it compiles free
//! text into a safe boolean query, checks the pagination cursor, builds the
//! request for the index, shapes its hits into results, and decides when the
//! cache answers instead.
//!
//! Nothing here performs input or output. The modules [`cache`] and
//! [`search`] decide step by step what is to be asked of the cache and of
//! the index; the caller asks and reports back.
pub mod api;
pub mod cache;
pub mod cursor;
pub mod hits;
pub mod json;
pub mod logger;
pub mod numeral;
pub mod query;
pub mod request;
pub mod search;
pub mod text;
