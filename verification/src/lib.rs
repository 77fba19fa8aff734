//! A small library behind a TV-show feed gateway.
//!
//! The verified core has two components: a cache-aside lookup policy for
//! per-show metadata blobs (modelled as a state machine whose I/O actions are
//! carried out by the caller), and a pure transformation from a show plus its
//! seasons into a syndication feed document.

pub mod cache;
pub mod errors;
pub mod feed;
pub mod numeral;
pub mod upstream;
