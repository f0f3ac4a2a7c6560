//! A fetch-by-URL gateway: a client names a target URL in the `q` query
//! parameter, the gateway fetches it (following a bounded number of
//! redirects), rewrites the response headers with a fixed security policy and
//! checks the content type against an allow-list.
//!
//! The library holds the decisions; the caller performs the network I/O.
pub mod error;
pub mod text;
pub mod headers;
pub mod options;
pub mod message;
pub mod target;
pub mod machine;
pub mod laws;
