//! Naming of the Redis cache entries. Keys are prefixed with `radu:` so
//! that several apps can share one Redis.

use vstd::prelude::*;

verus! {

/// How long a cached price lives, in seconds (5 minutes).
pub const PRICE_TTL_SECS: u64 = 300;

/// The key probed by the Redis health check.
pub const HEALTH_CHECK_KEY: &'static str = "radu:health_check";

/// How long the health-check entry lives, in seconds.
pub const HEALTH_CHECK_TTL_SECS: u64 = 60;

/// The key under which a symbol's price is cached: `radu:price:{symbol}`.
pub fn price_key(symbol: &str) -> (key: String)
    ensures
        key@ == "radu:price:"@ + symbol@,
{
    let mut key = String::from_str("radu:price:");
    key.append(symbol);
    key
}

} // verus!
