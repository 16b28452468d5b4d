//! Sale prices from grocery vendors, brought into one canonical form.
//!
//! The crate holds the decisions of a vendor adapter: which requests a fetch
//! makes, how it answers what comes back, and how vendor records become
//! canonical products. Sending the requests is left to the caller.

pub mod common;
pub mod graph;
pub mod grocery;
