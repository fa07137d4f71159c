//! Decode cache: decoded instructions keyed by physical address.

use crate::cpu::decode::instruction::DecodedInstruction;
use std::collections::HashMap;
use vstd::prelude::*;

verus! {

broadcast use vstd::std_specs::hash::group_hash_axioms;

/// Default maximum number of cached instructions
pub const DEFAULT_MAX_ENTRIES: usize = 8192;

/// A cached instruction with its hit count
#[derive(Debug, Clone, Copy, PartialEq, Eq, Structural)]
pub struct CacheEntry {
    /// The decoded instruction
    pub instruction: DecodedInstruction,
    /// Number of times the entry was looked up (saturating)
    pub hit_count: u32,
}

/// `count + 1`, saturating at `u32::MAX`
pub open spec fn saturating_inc(count: u32) -> u32 {
    if count == u32::MAX {
        u32::MAX
    } else {
        (count + 1) as u32
    }
}

impl CacheEntry {
    /// Create an entry that has not been hit yet
    pub fn new(instruction: DecodedInstruction) -> (r: Self)
        ensures
            r == (CacheEntry { instruction, hit_count: 0 }),
    {
        CacheEntry { instruction, hit_count: 0 }
    }

    /// Count one hit and return the new count
    pub fn record_hit(&mut self) -> (r: u32)
        ensures
            final(self).hit_count == saturating_inc(old(self).hit_count),
            final(self).instruction == old(self).instruction,
            r == final(self).hit_count,
    {
        self.hit_count = self.hit_count.saturating_add(1);
        self.hit_count
    }
}

/// Decode cache for tier 2 execution
pub struct DecodeCache {
    /// Cached instructions by physical address
    pub entries: HashMap<u32, CacheEntry>,
    /// When the cache holds this many entries, the next insert clears it
    pub max_entries: usize,
    /// Number of lookups that found an entry
    pub total_hits: u64,
    /// Number of lookups that found none
    pub total_misses: u64,
}

impl DecodeCache {
    /// Create an empty cache holding up to `DEFAULT_MAX_ENTRIES` entries
    pub fn new() -> (r: Self)
        ensures
            r.entries@ == Map::<u32, CacheEntry>::empty(),
            r.max_entries == DEFAULT_MAX_ENTRIES,
            r.total_hits == 0,
            r.total_misses == 0,
    {
        DecodeCache {
            entries: HashMap::with_capacity(DEFAULT_MAX_ENTRIES),
            max_entries: DEFAULT_MAX_ENTRIES,
            total_hits: 0,
            total_misses: 0,
        }
    }

    /// Create an empty cache holding up to `max_entries` entries
    pub fn with_capacity(max_entries: usize) -> (r: Self)
        ensures
            r.entries@ == Map::<u32, CacheEntry>::empty(),
            r.max_entries == max_entries,
            r.total_hits == 0,
            r.total_misses == 0,
    {
        DecodeCache {
            entries: HashMap::with_capacity(max_entries),
            max_entries,
            total_hits: 0,
            total_misses: 0,
        }
    }

    /// Look up the instruction at `addr`, counting a hit on the entry and in
    /// the statistics, or a miss.
    pub fn get(&mut self, addr: u32) -> (r: Option<&CacheEntry>)
        requires
            old(self).total_hits < u64::MAX,
            old(self).total_misses < u64::MAX,
        ensures
            final(self).max_entries == old(self).max_entries,
            old(self).entries@.contains_key(addr) ==> {
                let hit = CacheEntry {
                    hit_count: saturating_inc(old(self).entries@[addr].hit_count),
                    ..old(self).entries@[addr]
                };
                &&& r matches Some(e) && *e == hit
                &&& final(self).entries@ == old(self).entries@.insert(addr, hit)
                &&& final(self).total_hits == old(self).total_hits + 1
                &&& final(self).total_misses == old(self).total_misses
            },
            !old(self).entries@.contains_key(addr) ==> {
                &&& r.is_none()
                &&& final(self).entries@ == old(self).entries@
                &&& final(self).total_hits == old(self).total_hits
                &&& final(self).total_misses == old(self).total_misses + 1
            },
    {
        match self.entries.get(&addr) {
            Some(entry) => {
                let mut updated = *entry;
                updated.record_hit();
                self.entries.insert(addr, updated);
                self.total_hits = self.total_hits + 1;
                self.entries.get(&addr)
            },
            None => {
                self.total_misses = self.total_misses + 1;
                None
            },
        }
    }

    /// Cache the instruction decoded at `addr`; when the cache is full it is
    /// cleared first. Returns whether it was cleared.
    pub fn insert(&mut self, addr: u32, instruction: DecodedInstruction) -> (cleared: bool)
        ensures
            cleared == (old(self).entries@.len() >= old(self).max_entries),
            final(self).entries@ == (if cleared {
                Map::<u32, CacheEntry>::empty()
            } else {
                old(self).entries@
            }).insert(addr, CacheEntry { instruction, hit_count: 0 }),
            final(self).max_entries == old(self).max_entries,
            final(self).total_hits == old(self).total_hits,
            final(self).total_misses == old(self).total_misses,
    {
        let mut cleared = false;
        if self.entries.len() >= self.max_entries {
            self.entries.clear();
            cleared = true;
        }
        self.entries.insert(addr, CacheEntry::new(instruction));
        cleared
    }

    /// Drop the entry at `addr`; returns whether there was one
    pub fn invalidate(&mut self, addr: u32) -> (r: bool)
        ensures
            r == old(self).entries@.contains_key(addr),
            final(self).entries@ == old(self).entries@.remove(addr),
            final(self).max_entries == old(self).max_entries,
            final(self).total_hits == old(self).total_hits,
            final(self).total_misses == old(self).total_misses,
    {
        self.entries.remove(&addr).is_some()
    }

    /// Drop the entries at `start_addr .. start_addr + len`
    pub fn invalidate_range(&mut self, start_addr: u32, len: u32)
        requires
            start_addr + len <= u32::MAX + 1,
        ensures
            forall|a: u32| #[trigger]
                final(self).entries@.contains_key(a) == (old(self).entries@.contains_key(a) && !(
                start_addr <= a < start_addr + len)),
            forall|a: u32|
                #[trigger] final(self).entries@.contains_key(a) ==> final(self).entries@[a] == old(
                    self,
                ).entries@[a],
            final(self).max_entries == old(self).max_entries,
            final(self).total_hits == old(self).total_hits,
            final(self).total_misses == old(self).total_misses,
    {
        let mut offset: u32 = 0;
        while offset < len
            invariant
                0 <= offset <= len,
                start_addr + len <= u32::MAX + 1,
                forall|a: u32| #[trigger]
                    self.entries@.contains_key(a) == (old(self).entries@.contains_key(a) && !(
                    start_addr <= a < start_addr + offset)),
                forall|a: u32|
                    #[trigger] self.entries@.contains_key(a) ==> self.entries@[a] == old(
                        self,
                    ).entries@[a],
                self.max_entries == old(self).max_entries,
                self.total_hits == old(self).total_hits,
                self.total_misses == old(self).total_misses,
            decreases len - offset,
        {
            self.entries.remove(&(start_addr + offset));
            offset = offset + 1;
        }
    }

    /// Whether an instruction is cached at `addr`
    pub fn contains(&self, addr: u32) -> (r: bool)
        ensures
            r == self.entries@.contains_key(addr),
    {
        self.entries.contains_key(&addr)
    }

    /// Drop every entry
    pub fn clear(&mut self)
        ensures
            final(self).entries@ == Map::<u32, CacheEntry>::empty(),
            final(self).max_entries == old(self).max_entries,
            final(self).total_hits == old(self).total_hits,
            final(self).total_misses == old(self).total_misses,
    {
        self.entries.clear();
    }

    /// Number of cached instructions
    pub fn len(&self) -> (r: usize)
        ensures
            r == self.entries@.len(),
    {
        self.entries.len()
    }

    /// Whether the cache is empty
    pub fn is_empty(&self) -> (r: bool)
        ensures
            r == (self.entries@.len() == 0),
    {
        self.entries.is_empty()
    }

    /// Number of lookups that found an entry
    pub fn total_hits(&self) -> (r: u64)
        ensures
            r == self.total_hits,
    {
        self.total_hits
    }

    /// Number of lookups that found none
    pub fn total_misses(&self) -> (r: u64)
        ensures
            r == self.total_misses,
    {
        self.total_misses
    }

    /// Reset the hit and miss counts
    pub fn reset_stats(&mut self)
        ensures
            final(self).total_hits == 0,
            final(self).total_misses == 0,
            final(self).entries@ == old(self).entries@,
            final(self).max_entries == old(self).max_entries,
    {
        self.total_hits = 0;
        self.total_misses = 0;
    }
}

impl Default for DecodeCache {
    fn default() -> (r: Self)
        ensures
            r.entries@ == Map::<u32, CacheEntry>::empty(),
            r.max_entries == DEFAULT_MAX_ENTRIES,
            r.total_hits == 0,
            r.total_misses == 0,
    {
        Self::new()
    }
}

/// An instruction just cached is found at its address with no hits yet,
/// and after the address is invalidated it is not found any more.
pub proof fn law_cache_lookup_after_insert(
    before: Map<u32, CacheEntry>,
    addr: u32,
    instruction: DecodedInstruction,
    cleared: bool,
)
    ensures
        ({
            let after = (if cleared {
                Map::<u32, CacheEntry>::empty()
            } else {
                before
            }).insert(addr, CacheEntry { instruction, hit_count: 0 });
            &&& after.contains_key(addr)
            &&& after[addr].instruction == instruction
            &&& after[addr].hit_count == 0
            &&& !after.remove(addr).contains_key(addr)
        }),
{
}

} // verus!
