//! The call history: which request paths have already been answered with an
//! upscaled image.

use vstd::prelude::*;
use crate::cache::{cache_bounded, cache_entries, cache_get, cache_insert, cache_invalidate_all};
use crate::text::str_equal;

verus! {

/// How many paths the cache of a running proxy's call history keeps.
pub const CALL_HISTORY_CAPACITY: u64 = 1000;

/// Remembers which request paths have already been answered with an
/// upscaled image. The paths are kept in a bounded cache, which may turn a
/// new path down or drop an old one; the path noted last is kept beside it,
/// so that the request that follows an upscaled answer is always recognised.
pub struct CallHistory {
    cache: moka::sync::Cache<String, bool>,
    latest: Option<String>,
}

impl CallHistory {
    /// The paths that are remembered: those the cache holds, and the one
    /// noted last.
    pub closed spec fn paths(&self) -> Set<Seq<char>> {
        match self.latest {
            Some(path) => cache_entries(self.cache).dom().insert(path@),
            None => cache_entries(self.cache).dom(),
        }
    }

    /// An empty history whose cache keeps at most `max_capacity` paths.
    pub fn new(max_capacity: u64) -> (r: Self)
        ensures
            r.paths() == Set::<Seq<char>>::empty(),
    {
        CallHistory { cache: cache_bounded(max_capacity), latest: None }
    }

    /// Whether `path` is remembered. Asking may let the history forget
    /// paths, never learn any.
    pub fn contains(&mut self, path: &str) -> (r: bool)
        ensures
            r == old(self).paths().contains(path@),
            final(self).paths().subset_of(old(self).paths()),
    {
        let cached = cache_get(&mut self.cache, path).is_some();
        let noted_last = match &self.latest {
            Some(latest) => str_equal(latest.as_str(), path),
            None => false,
        };
        cached || noted_last
    }

    /// Notes that `path` was answered with an upscaled image. Afterwards
    /// `path` is remembered, and nothing is that was not remembered before.
    pub fn record(&mut self, path: String)
        ensures
            final(self).paths().contains(path@),
            final(self).paths().subset_of(old(self).paths().insert(path@)),
    {
        cache_insert(&mut self.cache, path.clone(), true);
        self.latest = Some(path);
        proof {
            let before = cache_entries(old(self).cache);
            let after = cache_entries(self.cache);
            assert forall|p: Seq<char>| after.dom().contains(p) implies before.dom().insert(
                path@,
            ).contains(p) by {
                assert(before.insert(path@, true).dom().contains(p));
            }
        }
    }

    /// Forgets every path.
    pub fn invalidate_all(&mut self)
        ensures
            final(self).paths() == Set::<Seq<char>>::empty(),
    {
        cache_invalidate_all(&mut self.cache);
        self.latest = None;
        assert(self.paths() =~= Set::<Seq<char>>::empty());
    }
}

} // verus!
