//! Bookkeeping of the descriptor allocator: a growing list of fixed-capacity pools, split into
//! pools that may still have room and pools that are full. The caller creates, probes, resets
//! and destroys the device pools; this module decides which pool to probe next, when a new one
//! is needed and how large it must be.
use vstd::prelude::*;

verus! {

/// One descriptor pool: its raw device handle, the number of sets it was created for and the
/// number of sets handed out from it since its last reset.
#[derive(Clone, Copy, Debug, PartialEq, Eq, Structural)]
pub struct PoolRecord {
    pub handle: u64,
    pub set_count: u32,
    pub allocated: u64,
}

/// What the caller does next while allocating sets.
#[derive(Clone, Copy, Debug, PartialEq, Eq, Structural)]
pub enum PoolChoice {
    /// Try to allocate from the pool at `index` of the non-full list.
    Probe { index: usize, handle: u64 },
    /// No existing pool is left to try: create a pool for `set_count` sets.
    Create { set_count: u32 },
}

pub struct AllocatorState {
    pub set_count: nat,
    pub pools: Seq<PoolRecord>,
    pub full_pools: Seq<PoolRecord>,
}

pub open spec fn max_u32(a: u32, b: u32) -> u32 {
    if a >= b { a } else { b }
}

/// Size of the pool created for a request of `count` sets: the configured size, or the request
/// itself when it is larger.
pub open spec fn new_pool_size(s: AllocatorState, count: u32) -> u32 {
    max_u32(s.set_count as u32, count)
}

/// Which pool to probe after the pools before `from` answered that they are out of memory.
pub open spec fn choice_spec(s: AllocatorState, from: nat, count: u32) -> PoolChoice {
    if from < s.pools.len() {
        PoolChoice::Probe { index: from as usize, handle: s.pools[from as int].handle }
    } else {
        PoolChoice::Create { set_count: new_pool_size(s, count) }
    }
}

pub open spec fn is_full(p: PoolRecord) -> bool {
    p.allocated >= p.set_count
}

/// The state after `count` sets were handed out from the non-full pool at `index`: the pool
/// is updated in place, or moved to the full list once it reaches its capacity.
pub open spec fn record_spec(s: AllocatorState, index: nat, count: u32) -> AllocatorState {
    let p = s.pools[index as int];
    let q = PoolRecord { allocated: (p.allocated + count) as u64, ..p };
    if is_full(q) {
        AllocatorState { pools: s.pools.remove(index as int), full_pools: s.full_pools.push(q), ..s }
    } else {
        AllocatorState { pools: s.pools.update(index as int, q), ..s }
    }
}

/// The state after a new pool was created and `count` sets were handed out from it.
pub open spec fn add_spec(s: AllocatorState, handle: u64, set_count: u32, count: u32) -> AllocatorState {
    let q = PoolRecord { handle, set_count, allocated: count as u64 };
    if is_full(q) {
        AllocatorState { full_pools: s.full_pools.push(q), ..s }
    } else {
        AllocatorState { pools: s.pools.push(q), ..s }
    }
}

pub open spec fn total_pools(s: AllocatorState) -> nat {
    s.pools.len() + s.full_pools.len()
}

/// No pool of the non-full list holds more sets than it was created for, and every pool of the
/// full list has reached its capacity.
pub open spec fn allocator_inv(s: AllocatorState) -> bool {
    &&& s.set_count <= u32::MAX
    &&& forall|i: int| 0 <= i < s.pools.len() ==> #[trigger] s.pools[i].allocated <= s.pools[i].set_count
    &&& forall|i: int| 0 <= i < s.full_pools.len() ==> is_full(#[trigger] s.full_pools[i])
}

/// Pool-of-pools descriptor set allocator. Pools that reached their capacity are kept apart
/// and never probed again until the next reset.
pub struct DescriptorAllocator {
    set_count: u32,
    pools: Vec<PoolRecord>,
    full_pools: Vec<PoolRecord>,
}

impl View for DescriptorAllocator {
    type V = AllocatorState;

    closed spec fn view(&self) -> AllocatorState {
        AllocatorState { set_count: self.set_count as nat, pools: self.pools@, full_pools: self.full_pools@ }
    }
}

impl DescriptorAllocator {
    /// An allocator without pools whose new pools hold `set_count` sets.
    pub fn new(set_count: u32) -> (r: Self)
        ensures
            r@.set_count == set_count,
            r@.pools.len() == 0,
            r@.full_pools.len() == 0,
            allocator_inv(r@),
    {
        DescriptorAllocator { set_count, pools: Vec::new(), full_pools: Vec::new() }
    }

    /// The configured number of sets of a new pool.
    pub fn set_count(&self) -> (r: u32)
        ensures
            r == self@.set_count,
    {
        self.set_count
    }

    /// Decides the next step of an allocation of `count` sets, after the non-full pools
    /// before `from` ran out of memory: probe the next one, or create a pool sized to the
    /// configured count or to the request, whichever is larger.
    pub fn next_pool(&self, from: usize, count: u32) -> (r: PoolChoice)
        ensures
            r == choice_spec(self@, from as nat, count),
    {
        if from < self.pools.len() {
            PoolChoice::Probe { index: from, handle: self.pools[from].handle }
        } else {
            let size = if self.set_count >= count { self.set_count } else { count };
            PoolChoice::Create { set_count: size }
        }
    }

    /// Records that `count` sets were handed out from the non-full pool at `index`. A pool
    /// that reaches its capacity moves to the full list.
    pub fn record_allocation(&mut self, index: usize, count: u32)
        requires
            allocator_inv(old(self)@),
            index < old(self)@.pools.len(),
        ensures
            final(self)@ == record_spec(old(self)@, index as nat, count),
            allocator_inv(final(self)@),
            total_pools(final(self)@) == total_pools(old(self)@),
    {
        let p = self.pools[index];
        let q = PoolRecord { allocated: p.allocated + count as u64, ..p };
        if q.allocated >= q.set_count as u64 {
            let ghost before = self.pools@;
            self.pools.remove(index);
            self.full_pools.push(q);
            assert forall|i: int| 0 <= i < self.pools@.len()
                implies #[trigger] self.pools@[i].allocated <= self.pools@[i].set_count by {
                if i < index {
                    assert(self.pools@[i] == before[i]);
                } else {
                    assert(self.pools@[i] == before[i + 1]);
                }
            }
        } else {
            self.pools.set(index, q);
        }
    }

    /// Records a pool created for `set_count` sets from which `count` sets were handed out.
    pub fn add_pool(&mut self, handle: u64, set_count: u32, count: u32)
        requires
            allocator_inv(old(self)@),
        ensures
            final(self)@ == add_spec(old(self)@, handle, set_count, count),
            allocator_inv(final(self)@),
            total_pools(final(self)@) == total_pools(old(self)@) + 1,
    {
        let q = PoolRecord { handle, set_count, allocated: count as u64 };
        if q.allocated >= set_count as u64 {
            self.full_pools.push(q);
        } else {
            self.pools.push(q);
            assert(self.pools@.last() == q);
        }
    }

    /// Returns every pool, full or not, to zero allocated sets, and empties the full list.
    /// The result holds the handles of the pools that had sets allocated, which the caller
    /// resets on the device.
    pub fn reset(&mut self) -> (r: Vec<u64>)
        requires
            allocator_inv(old(self)@),
        ensures
            final(self)@.set_count == old(self)@.set_count,
            final(self)@.full_pools.len() == 0,
            final(self)@.pools == (old(self)@.pools + old(self)@.full_pools).map_values(
                |p: PoolRecord| PoolRecord { allocated: 0, ..p },
            ),
            r@ == (old(self)@.pools + old(self)@.full_pools).filter(|p: PoolRecord| p.allocated != 0).map_values(
                |p: PoolRecord| p.handle,
            ),
            allocator_inv(final(self)@),
    {
        let ghost all = self.pools@ + self.full_pools@;
        self.pools.append(&mut self.full_pools);
        let mut fresh: Vec<PoolRecord> = Vec::new();
        let mut used: Vec<u64> = Vec::new();
        let mut i: usize = 0;
        while i < self.pools.len()
            invariant
                all == self.pools@,
                self.full_pools@.len() == 0,
                i <= all.len(),
                fresh@ == all.take(i as int).map_values(|p: PoolRecord| PoolRecord { allocated: 0, ..p }),
                used@ == all.take(i as int).filter(|p: PoolRecord| p.allocated != 0).map_values(
                    |p: PoolRecord| p.handle,
                ),
            decreases all.len() - i,
        {
            let p = self.pools[i];
            assert(all.take(i + 1) == all.take(i as int).push(p));
            reveal(Seq::filter);
            assert(all.take(i + 1).drop_last() == all.take(i as int));
            if p.allocated != 0 {
                used.push(p.handle);
            }
            fresh.push(PoolRecord { allocated: 0, ..p });
            i = i + 1;
            assert(fresh@ =~= all.take(i as int).map_values(|p: PoolRecord| PoolRecord { allocated: 0, ..p }));
            assert(used@ =~= all.take(i as int).filter(|p: PoolRecord| p.allocated != 0).map_values(
                |p: PoolRecord| p.handle,
            ));
        }
        assert(all.take(all.len() as int) == all);
        self.pools = fresh;
        used
    }

    /// Empties both lists and returns every pool's handle, for the caller to destroy.
    pub fn clear(&mut self) -> (r: Vec<u64>)
        requires
            allocator_inv(old(self)@),
        ensures
            r@ == (old(self)@.pools + old(self)@.full_pools).map_values(|p: PoolRecord| p.handle),
            final(self)@.set_count == old(self)@.set_count,
            final(self)@.pools.len() == 0,
            final(self)@.full_pools.len() == 0,
            allocator_inv(final(self)@),
    {
        let ghost all = self.pools@ + self.full_pools@;
        self.pools.append(&mut self.full_pools);
        let mut handles: Vec<u64> = Vec::new();
        let mut i: usize = 0;
        while i < self.pools.len()
            invariant
                all == self.pools@,
                i <= all.len(),
                handles@ == all.take(i as int).map_values(|p: PoolRecord| p.handle),
            decreases all.len() - i,
        {
            handles.push(self.pools[i].handle);
            i = i + 1;
            assert(handles@ =~= all.take(i as int).map_values(|p: PoolRecord| p.handle));
        }
        assert(all.take(all.len() as int) == all);
        self.pools = Vec::new();
        handles
    }

    /// Number of pools, full or not.
    pub fn total_pool_count(&self) -> (r: usize)
        requires
            self@.pools.len() + self@.full_pools.len() <= usize::MAX,
        ensures
            r == total_pools(self@),
    {
        self.pools.len() + self.full_pools.len()
    }

    /// Number of pools that reached their capacity.
    pub fn full_pool_count(&self) -> (r: usize)
        ensures
            r == self@.full_pools.len(),
    {
        self.full_pools.len()
    }

    /// Number of pools that may still have room.
    pub fn open_pool_count(&self) -> (r: usize)
        ensures
            r == self@.pools.len(),
    {
        self.pools.len()
    }
}

/// A request for more sets than a pool is configured for, that no existing pool can serve,
/// creates a pool sized to the request.
pub proof fn lemma_large_request_sizes_pool(s: AllocatorState, count: u32)
    requires
        allocator_inv(s),
        count > s.set_count,
    ensures
        choice_spec(s, s.pools.len(), count) == (PoolChoice::Create { set_count: count }),
{
}

/// When every pool is full, a request probes no pool and creates exactly one new pool.
pub proof fn lemma_full_pools_grow_by_one(s: AllocatorState, handle: u64, count: u32)
    requires
        allocator_inv(s),
        s.pools.len() == 0,
    ensures
        choice_spec(s, 0, count) == (PoolChoice::Create { set_count: new_pool_size(s, count) }),
        total_pools(add_spec(s, handle, new_pool_size(s, count), count)) == total_pools(s) + 1,
{
}

} // verus!
