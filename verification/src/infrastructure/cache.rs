//! Naming of the redis-backed caches.
use vstd::prelude::*;

use crate::text::concat;

verus! {

/// Names the redis caches of the application; the connection itself lives with the caller.
pub struct CacheManager {}

impl CacheManager {
    /// The key prefix of the cache called `namespace`: `rustify:{namespace}:`.
    pub fn key_prefix(namespace: &str) -> (res: String)
        ensures
            res@ == "rustify:"@ + namespace@ + ":"@,
    {
        let res = concat("rustify:", namespace);
        let res = concat(res.as_str(), ":");
        res
    }
}

} // verus!
