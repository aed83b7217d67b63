//! Read-through cached lookups for market commodities and astronomical
//! systems: a keyed, time-bounded cache, the aggregation that turns raw
//! relational rows into domain objects, and the orchestration that decides
//! when to trust the cache, when to recompute, and when a result may be
//! stored.

use vstd::prelude::*;

pub mod cache;
pub mod domain;
pub mod engine;
pub mod lookup;
pub mod rows;

verus! {

/// Liveness probe answered by the front end.
pub fn ping() -> (r: &'static str)
    ensures
        r@ == "pong"@,
{
    "pong"
}

} // verus!
