//! Verified client logic for a Proxmox-style container management API.
//!
//! The crate models the node-scoped LXC endpoints used by a small
//! management front end: building authenticated requests, interpreting
//! transport outcomes, normalizing loosely-typed wire records into a
//! strict domain model, best-effort IP enrichment, and lifecycle
//! commands.  All network and environment I/O lives outside this
//! library; callers hand in plain values and get plain values back.

pub mod client;
pub mod container;
pub mod digits;
pub mod error;
pub mod facade;
pub mod ip;
pub mod laws;
pub mod listing;
