//! A reusable object pool that recycles instances through a free list.
use vstd::prelude::*;

verus! {

/// A generic object pool: a free list of ready instances and a count of
/// instances currently handed out.
pub struct ObjectPool<T> {
    free_list: Vec<T>,
    active_count: usize,
}

impl<T> ObjectPool<T> {
    /// The instances waiting in the pool, oldest first; the next one handed
    /// out is the last.
    pub closed spec fn free(&self) -> Seq<T> {
        self.free_list@
    }

    /// The number of instances handed out and not yet returned.
    pub closed spec fn active_spec(&self) -> nat {
        self.active_count as nat
    }

    /// An empty pool.
    pub fn new() -> (p: Self)
        ensures
            p.free() == Seq::<T>::empty(),
            p.active_spec() == 0,
    {
        Self { free_list: Vec::new(), active_count: 0 }
    }

    /// Take the most recently pooled instance, counting it as active, or
    /// `None` (and no change) when the pool is empty.
    pub fn acquire(&mut self) -> (r: Option<T>)
        requires
            old(self).free().len() > 0 ==> old(self).active_spec() < usize::MAX,
        ensures
            old(self).free().len() == 0 ==> r is None && final(self).free() == old(self).free()
                && final(self).active_spec() == old(self).active_spec(),
            old(self).free().len() > 0 ==> r == Some(old(self).free().last())
                && final(self).free() == old(self).free().drop_last()
                && final(self).active_spec() == old(self).active_spec() + 1,
    {
        match self.free_list.pop() {
            Some(item) => {
                self.active_count = self.active_count + 1;
                Some(item)
            },
            None => None,
        }
    }

    /// Return an instance to the pool; the active count drops by one, never
    /// below zero.
    pub fn release(&mut self, item: T)
        ensures
            final(self).free() == old(self).free().push(item),
            final(self).active_spec() == (if old(self).active_spec() > 0 {
                old(self).active_spec() - 1
            } else {
                0
            }),
    {
        if self.active_count > 0 {
            self.active_count = self.active_count - 1;
        }
        self.free_list.push(item);
    }

    /// Add `count` instances made by `factory` to the pool; the active count
    /// is unchanged.
    pub fn pre_allocate<F: Fn() -> T>(&mut self, count: usize, factory: F)
        requires
            call_requires(factory, ()),
            forall|r: T| #[trigger] call_ensures(factory, (), r) ==> call_requires(factory, ()),
        ensures
            final(self).free().len() == old(self).free().len() + count,
            final(self).free().subrange(0, old(self).free().len() as int) == old(self).free(),
            forall|i: int| old(self).free().len() <= i < final(self).free().len()
                ==> call_ensures(factory, (), #[trigger] final(self).free()[i]),
            final(self).active_spec() == old(self).active_spec(),
    {
        let ghost start = self.free_list@;
        let mut k: usize = 0;
        while k < count
            invariant
                k <= count,
                call_requires(factory, ()),
                forall|r: T| #[trigger] call_ensures(factory, (), r) ==> call_requires(factory, ()),
                self.free_list@.len() == start.len() + k,
                self.free_list@.subrange(0, start.len() as int) == start,
                forall|i: int| start.len() <= i < self.free_list@.len()
                    ==> call_ensures(factory, (), #[trigger] self.free_list@[i]),
                self.active_count == old(self).active_count,
                start == old(self).free_list@,
            decreases count - k,
        {
            let item = factory();
            let ghost before = self.free_list@;
            self.free_list.push(item);
            proof {
                assert(self.free_list@.subrange(0, start.len() as int) == before.subrange(0, start.len() as int));
                assert forall|i: int| start.len() <= i < self.free_list@.len()
                    implies call_ensures(factory, (), #[trigger] self.free_list@[i]) by {
                    if i < before.len() {
                        assert(self.free_list@[i] == before[i]);
                    }
                }
            }
            k = k + 1;
        }
    }

    /// Number of instances waiting in the pool.
    pub fn pool_size(&self) -> (n: usize)
        ensures
            n == self.free().len(),
    {
        self.free_list.len()
    }

    /// Number of instances currently handed out.
    pub fn active(&self) -> (n: usize)
        ensures
            n == self.active_spec(),
    {
        self.active_count
    }
}

impl<T> Default for ObjectPool<T> {
    fn default() -> (p: Self)
        ensures
            p.free() == Seq::<T>::empty(),
            p.active_spec() == 0,
    {
        Self::new()
    }
}

/// Releasing an instance and acquiring again gives the same instance back
/// and leaves the free list as it was.
pub proof fn lemma_release_then_acquire<T>(free: Seq<T>, item: T)
    ensures
        free.push(item).len() > 0,
        free.push(item).last() == item,
        free.push(item).drop_last() == free,
{
    assert(free.push(item).drop_last() =~= free);
}

} // verus!
