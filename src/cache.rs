//! The bounded cache: an ordered store of encoded records that keeps the
//! most recent `CACHE_CAPACITY` of them, evicting from the head.
use std::collections::VecDeque;
use vstd::prelude::*;

verus! {

broadcast use vstd::std_specs::vecdeque::group_vec_dequeue_axioms;

/// How many records the cache retains.
pub const CACHE_CAPACITY: usize = 100;

/// The contents after appending `item` to `s` and dropping the head when the
/// result would exceed the capacity.
pub open spec fn pushed(s: Seq<String>, item: String) -> Seq<String> {
    let t = s.push(item);
    if t.len() > CACHE_CAPACITY as int {
        t.subrange(1, t.len() as int)
    } else {
        t
    }
}

/// The contents of a cache that held `start` and then received `items` in
/// order.
pub open spec fn contents_after(start: Seq<String>, items: Seq<String>) -> Seq<String>
    decreases items.len(),
{
    if items.len() == 0 {
        start
    } else {
        pushed(contents_after(start, items.drop_last()), items.last())
    }
}

/// The last `min(items.len(), CACHE_CAPACITY)` items, in their order.
pub open spec fn last_window(items: Seq<String>) -> Seq<String> {
    if items.len() > CACHE_CAPACITY as int {
        items.subrange(items.len() - CACHE_CAPACITY as int, items.len() as int)
    } else {
        items
    }
}

/// How many records a request for `n` yields from a cache of `len` records:
/// `min(n, len, CACHE_CAPACITY)`, and none for a non-positive `n`.
pub open spec fn clamped_count(n: int, len: int) -> int {
    if n <= 0 {
        0
    } else if n <= len && n <= CACHE_CAPACITY as int {
        n
    } else if len <= CACHE_CAPACITY as int {
        len
    } else {
        CACHE_CAPACITY as int
    }
}

proof fn lemma_pushed_keeps_window(q: Seq<String>, x: String)
    ensures
        pushed(last_window(q), x) == last_window(q.push(x)),
{
    if q.len() >= CACHE_CAPACITY as int {
        assert(pushed(last_window(q), x) =~= last_window(q.push(x)));
    }
}

/// Pushing records into a cache leaves the last `CACHE_CAPACITY` records of
/// what it held followed by what was pushed, in order; so once more than
/// `CACHE_CAPACITY` records have been pushed, it holds exactly the last
/// `CACHE_CAPACITY` of them, in the order they were pushed.
pub proof fn lemma_eviction_keeps_last_window(start: Seq<String>, items: Seq<String>)
    requires
        start.len() <= CACHE_CAPACITY as int,
    ensures
        contents_after(start, items) == last_window(start + items),
        contents_after(start, items).len() <= CACHE_CAPACITY as int,
        items.len() > CACHE_CAPACITY as int ==> contents_after(start, items) == items.subrange(
            items.len() - CACHE_CAPACITY as int,
            items.len() as int,
        ),
    decreases items.len(),
{
    if items.len() == 0 {
        assert(start + items =~= start);
    } else {
        let p = items.drop_last();
        lemma_eviction_keeps_last_window(start, p);
        assert((start + items) =~= (start + p).push(items.last()));
        lemma_pushed_keeps_window(start + p, items.last());
    }
    if items.len() > CACHE_CAPACITY as int {
        assert(last_window(start + items) =~= items.subrange(
            items.len() - CACHE_CAPACITY as int,
            items.len() as int,
        ));
    }
}

/// A fixed-capacity FIFO store of encoded records, oldest first.
pub struct BoundedCache {
    items: VecDeque<String>,
}

impl View for BoundedCache {
    type V = Seq<String>;

    closed spec fn view(&self) -> Seq<String> {
        self.items@
    }
}

impl BoundedCache {
    /// The cache never holds more than its capacity.
    pub open spec fn wf(&self) -> bool {
        self@.len() <= CACHE_CAPACITY as int
    }

    /// An empty cache.
    pub fn new() -> (r: BoundedCache)
        ensures
            r.wf(),
            r@ == Seq::<String>::empty(),
    {
        let mut items: VecDeque<String> = VecDeque::new();
        items.reserve(CACHE_CAPACITY);
        BoundedCache { items }
    }

    /// The number of records held.
    pub fn len(&self) -> (r: usize)
        ensures
            r == self@.len(),
    {
        self.items.len()
    }

    /// Appends `item` at the tail and, when that leaves more than
    /// `CACHE_CAPACITY` records, removes the head.
    pub fn push(&mut self, item: String)
        requires
            old(self).wf(),
        ensures
            final(self).wf(),
            final(self)@ == pushed(old(self)@, item),
    {
        self.items.push_back(item);
        if self.items.len() > CACHE_CAPACITY {
            let _evicted = self.items.pop_front();
        }
    }

    /// The first `min(n, len, CACHE_CAPACITY)` records, head first; none
    /// when `n` is not positive. The cache is left as it is.
    pub fn read(&self, n: i32) -> (r: Vec<String>)
        requires
            self.wf(),
        ensures
            r@.len() == clamped_count(n as int, self@.len() as int),
            r@ == self@.take(clamped_count(n as int, self@.len() as int)),
    {
        let k = snapshot_count(n, self.items.len());
        let mut out: Vec<String> = Vec::with_capacity(k);
        let mut i: usize = 0;
        while i < k
            invariant
                k == clamped_count(n as int, self@.len() as int),
                k <= self@.len(),
                i <= k,
                out@ == self@.take(i as int),
            decreases k - i,
        {
            out.push(self.items[i].clone());
            i = i + 1;
            assert(out@ =~= self@.take(i as int));
        }
        out
    }
}

/// How many records a request for `n` yields from a cache of `len` records.
pub fn snapshot_count(n: i32, len: usize) -> (r: usize)
    ensures
        r == clamped_count(n as int, len as int),
{
    if n <= 0 {
        0
    } else {
        let wanted = n as usize;
        let mut k = if wanted > CACHE_CAPACITY { CACHE_CAPACITY } else { wanted };
        if len < k {
            k = len;
        }
        k
    }
}

} // verus!
