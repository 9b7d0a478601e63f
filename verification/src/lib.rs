//! A synchronous binding core for driving an embedded asynchronous data
//! engine from a foreign host: it validates and translates text-encoded
//! parameters (JSON metadata, filter expressions, identifiers) into typed,
//! fully validated engine requests, encodes engine results back to canonical
//! JSON text, and maps every failure onto one error channel. Decode and
//! validation faults are reported before the engine is ever touched.

pub mod codec;
pub mod dispatch;
pub mod engine;
pub mod errors;
pub mod filter;
pub mod ident;
pub mod json;
pub mod metadata;
pub mod numtext;
pub mod records;
pub mod requests;
pub mod results;
pub mod selection;

use vstd::prelude::*;

verus! {

/// Largest number of records one batched record operation may carry.
pub const MAX_BATCH_SIZE: u32 = 40000;

/// Capability query: the largest batch a single record operation accepts.
pub fn max_batch_size() -> (n: u32)
    ensures
        n == MAX_BATCH_SIZE,
{
    MAX_BATCH_SIZE
}

} // verus!
