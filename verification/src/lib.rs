//! A file kept in memory and answered to every request for a one-segment
//! path, with a `content-type` header that the request itself picks through
//! its `type` query parameter.
//!
//! The crate holds the decisions of such a server: which paths are served,
//! which header value a query string selects, and what each response looks
//! like. Requests and responses are plain values; sockets and the HTTP wire
//! format belong to the program that embeds the crate.

pub mod handler;
pub mod message;
pub mod query;
pub mod route;
pub mod router;
pub mod store;
