//! Verified core of a Pulsar admin tool that deletes a configured list of
//! topics, authenticating with a literal bearer token or an OAuth
//! client-credentials exchange.
//!
//! All HTTP traffic and file I/O live outside this crate; the library builds
//! every request (URI, body, header), decides the partitioned /
//! non-partitioned fallback, and classifies each response status into the
//! lines that are printed for the operator.

pub mod auth;
pub mod config;
pub mod outcome;
pub mod routes;
pub mod session;
pub mod text;
