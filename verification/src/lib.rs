//! Core library for ingesting vehicle telemetry frames: parsing and
//! classifying messages, suppressing duplicates and excess volume, routing
//! survivors into priority-tiered bounded queues, and keeping runtime
//! statistics about the pipeline.
#![allow(unused_imports)]

pub mod client;
pub mod clock;
pub mod codec;
pub mod decode;
pub mod dedup;
pub mod error;
pub mod message;
pub mod performance;
pub mod priority;
pub mod processor;
pub mod queue;
pub mod sampling;
pub mod stats;

use vstd::prelude::*;

verus! {

/// The library's version.
pub const VERSION: &'static str = "0.1.0";

/// Returns a short human-readable description of the library.
pub fn get_library_info() -> (r: String)
    ensures
        r@ == "Vehicle NN Core v0.1.0 - high-performance vehicle message processing library"@,
{
    let s: &str = "Vehicle NN Core v0.1.0 - high-performance vehicle message processing library";
    s.to_owned()
}

/// Compares two string slices by their character sequences.
pub fn str_eq(a: &str, b: &str) -> (r: bool)
    ensures
        r == (a@ == b@),
{
    let sa: String = a.to_owned();
    let sb: String = b.to_owned();
    sa == sb
}

} // verus!
