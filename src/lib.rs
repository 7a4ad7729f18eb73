//! A client that fetches files from onion services only, through an
//! anonymizing overlay network, with observable bootstrap and download
//! progress.
//!
//! The decisions of the client are verified here: which addresses may be
//! contacted, when the overlay session may carry traffic, how a single
//! bootstrap run is shared by concurrent callers, in which order bootstrap
//! events reach subscribers, and how a response body is drained while
//! progress is reported. The network itself is driven by the caller.

pub mod address;
pub mod config;
pub mod error;
pub mod http;
pub mod laws;
pub mod session;
pub mod transfer;
