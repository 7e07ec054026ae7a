//! Query-time retrieval core: turns a query into a vector-store request and
//! the store's raw matches into ranked, truncated evidence hits.
//!
//! The pipeline performs no I/O of its own. A search is a sequence of
//! steps, and between two steps the caller does the outside work:
//!
//! 1. [`search::SearchCore::search`] takes the query and a clock reading
//!    and says what text to embed;
//! 2. [`search::SearchCore::embedded`] takes what came of the embedding and
//!    yields the request for the vector store;
//! 3. [`search::SearchCore::completed`] takes what came of the store call
//!    and a second clock reading and yields the response.
//!
//! The embedding vector and the scores pass through unread, so the
//! pipeline is generic in both.

pub mod config;
pub mod error;
pub mod hits;
pub mod matches;
pub mod metric;
pub mod request;
pub mod schema;
pub mod search;
pub mod text;
