//! A small client library for reading the Reddit JSON API.
//!
//! The library builds request URIs, turns a comma-delimited header string
//! into individual header lines, accumulates a response body and decodes it
//! as JSON. Performing the HTTP transfer itself is left to the caller.

pub mod api;
pub mod cli;
pub mod curl_list;
pub mod headers;
pub mod prelude;
pub mod response;
pub mod uri;
