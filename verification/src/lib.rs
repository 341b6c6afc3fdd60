//! Synchronization engine for a background agent that discovers locally
//! installed application packages from vendor manifest files, enriches them
//! with remotely fetched metadata, and periodically uploads package manifests
//! to a collection service while avoiding duplicate uploads.
//!
//! The engine itself is pure logic: it owns the registry of discovered
//! packages, the metadata cache, the deduplicated upload pipeline and the
//! scheduler decisions. All I/O (directory listing, file reads, network
//! requests, timers) is performed by the surrounding binary, which hands the
//! engine plain values and carries its decisions out.
use vstd::prelude::*;

pub mod cache;
pub mod dedup;
pub mod descriptor;
pub mod json;
pub mod metadata;
pub mod models;
pub mod registry;
pub mod scan;
pub mod scheduler;
pub mod strutil;
pub mod upload;

verus! {

/// The greeting the command surface returns for a user's name.
pub fn greet(name: &str) -> (r: String)
    ensures
        r@ == "Hello, "@ + name@ + "! You've been greeted from Rust!"@,
{
    let mut s = String::from_str("Hello, ");
    s.append(name);
    s.append("! You've been greeted from Rust!");
    s
}

} // verus!
