//! A small HTTP download pipeline: fetch a resource, stream its body into a
//! buffer, and either print it as text or save it under a name derived from
//! the URL's last path segment.
//!
//! The crate holds the decision logic of that pipeline; the surrounding
//! program performs the network and file I/O and reports each result back as
//! an event.

pub mod collect;
pub mod outcome;
pub mod pipeline;
pub mod resolve;
