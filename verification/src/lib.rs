//! Typed client library for a self-hosted Git-hosting server's REST API.
//!
//! Every operation follows one pipeline: a builder collects required path
//! parameters and optional fields, renders itself into an HTTP request
//! description (path, method, query string or JSON body), and interprets the
//! server's raw response (status plus body text) as a typed result.
//!
//! The wire format is JSON; [`json`] holds the value model, an exact encoder
//! and a parser. [`fields`] holds the ordered field map every builder uses for
//! its optional parameters, together with the laws that make the builders'
//! payloads predictable (unset fields are absent; the last write to a field
//! wins).

pub mod b64;
pub mod client;
pub mod contents;
pub mod fields;
pub mod json;
pub mod model;
pub mod query;
pub mod repos;
pub mod response;
pub mod roundtrip;
pub mod search;
pub mod user;
