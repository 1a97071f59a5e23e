//! A verified core for a single-endpoint HTTP relay.
//!
//! The relay accepts a caller's text message, forwards it to the Anthropic
//! completion API, and returns either the model's reply or a normalized
//! error message. This crate holds the request-scoped decision logic —
//! configuration resolution, upstream request construction, and the mapping
//! from upstream outcomes to the one JSON reply each caller receives — with
//! contracts that pin every reply down. The HTTP server and the network call
//! themselves live outside the library.

pub mod digits;
pub mod errors;
pub mod handler;
pub mod response;
