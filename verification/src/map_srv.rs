//! The map-conversion cache.
//!
//! The map service converts the simulator's road-network description through
//! an external converter and caches the last successful conversion, keyed by
//! the simulator's map-version id.  The cache invalidates exactly when the
//! simulator reports a new id; the conversion itself is the shell's work.

use vstd::prelude::*;

verus! {

/// The cached conversion and the map-version id it was made for.
#[derive(Debug, Clone, PartialEq)]
pub struct Cache {
    pub world_id: u64,
    pub lanelet2: Vec<u8>,
}

impl Cache {
    /// Caches a fresh conversion under its map-version id.
    pub fn new(world_id: u64, lanelet2: Vec<u8>) -> (r: Cache)
        ensures
            r.world_id == world_id,
            r.lanelet2 == lanelet2,
    {
        Cache { world_id, lanelet2 }
    }

    /// Whether the cached conversion is stale: exactly when the simulator
    /// reports a map-version id other than the cached one.
    pub fn needs_refresh(&self, curr_id: u64) -> (r: bool)
        ensures
            r == (curr_id != self.world_id),
    {
        curr_id != self.world_id
    }

    /// Replaces the cached conversion after a refresh.
    pub fn store(&mut self, curr_id: u64, lanelet2: Vec<u8>)
        ensures
            final(self).world_id == curr_id,
            final(self).lanelet2 == lanelet2,
    {
        self.world_id = curr_id;
        self.lanelet2 = lanelet2;
    }

    /// The cached conversion, served to every request until it goes stale.
    pub fn get(&self) -> (r: &Vec<u8>)
        ensures
            r == self.lanelet2,
    {
        &self.lanelet2
    }
}

} // verus!
