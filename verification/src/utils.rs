//! A pool of reusable values, handed out in order and recycled on reset.
use vstd::prelude::*;

verus! {

/// Hands out pooled values in order; values are built only when every
/// pooled value is already in use, and `reset` makes them all available again.
pub struct CachePool<T> {
    items: Vec<T>,
    in_use: usize,
}

impl<T> CachePool<T> {
    /// Never more values are in use than the pool holds.
    pub closed spec fn wf(&self) -> bool {
        self.in_use <= self.items.len()
    }

    /// The values built so far, in the order they were built.
    pub closed spec fn items(&self) -> Seq<T> {
        self.items@
    }

    /// How many of the pooled values are handed out since the last reset.
    pub closed spec fn in_use(&self) -> nat {
        self.in_use as nat
    }

    /// Hands out the next value of the pool, building it with `ctor` when all
    /// the pooled values are in use.
    pub fn get<'a>(&'a mut self, ctor: impl FnOnce() -> T) -> (r: &'a T)
        requires
            old(self).wf(),
            call_requires(ctor, ()),
        ensures
            final(self).wf(),
            final(self).in_use() == old(self).in_use() + 1,
            old(self).in_use() < old(self).items().len() ==> final(self).items() == old(self).items(),
            old(self).in_use() >= old(self).items().len() ==> (
                final(self).items().len() == old(self).items().len() + 1
                && final(self).items().drop_last() == old(self).items()
                && call_ensures(ctor, (), final(self).items().last())
            ),
            *r == final(self).items()[old(self).in_use() as int],
            final(self).in_use() <= final(self).items().len(),
    {
        if self.in_use >= self.items.len() {
            let v = ctor();
            self.items.push(v);
        }
        assert(self.in_use < self.items.len());
        let i = self.in_use;
        self.in_use = self.in_use + 1;
        &self.items[i]
    }

    /// Makes every pooled value available again; nothing is dropped.
    pub fn reset(&mut self)
        ensures
            final(self).items() == old(self).items(),
            final(self).in_use() == 0,
            final(self).wf(),
    {
        self.in_use = 0;
    }
}

impl<T> Default for CachePool<T> {
    fn default() -> (r: Self)
        ensures
            r.items() == Seq::<T>::empty(),
            r.in_use() == 0,
            r.wf(),
    {
        Self { items: Vec::new(), in_use: 0 }
    }
}

/// After a reset, the next value handed out is the first value the pool
/// built, and the pool builds nothing for it.
pub proof fn lemma_reset_then_get<T>(
    before_reset: CachePool<T>,
    after_reset: CachePool<T>,
    after_get: CachePool<T>,
    handed_out: T,
)
    requires
        before_reset.items().len() > 0,
        before_reset.wf(),
        after_reset.items() == before_reset.items(),
        after_reset.in_use() == 0,
        after_get.in_use() == after_reset.in_use() + 1,
        after_reset.in_use() < after_reset.items().len() ==> after_get.items() == after_reset.items(),
        handed_out == after_get.items()[after_reset.in_use() as int],
    ensures
        handed_out == before_reset.items()[0],
        after_get.items() == before_reset.items(),
        after_get.in_use() == 1,
{
}

} // verus!
