use vstd::prelude::*;

verus! {

/// The entry under `handle` in a table whose slots are `s`.
pub open spec fn entry<V>(s: Seq<Option<V>>, handle: usize) -> Option<V> {
    if handle < s.len() {
        s[handle as int]
    } else {
        None
    }
}

/// `h` is the lowest handle not held by a live entry of `s`.
pub open spec fn is_first_free<V>(s: Seq<Option<V>>, h: usize) -> bool {
    &&& h <= s.len()
    &&& h < s.len() ==> s[h as int] is None
    &&& forall|j: int| 0 <= j < h ==> #[trigger] s[j] is Some
}

/// The lowest free handle of `s`.
pub open spec fn first_free<V>(s: Seq<Option<V>>) -> usize {
    choose|h: usize| is_first_free(s, h)
}

/// There is only one lowest free handle.
pub proof fn lemma_first_free_unique<V>(s: Seq<Option<V>>, h: usize)
    requires
        is_first_free(s, h),
    ensures
        first_free(s) == h,
{
    let g = first_free(s);
    assert(is_first_free(s, g));
    if g < h {
        assert(s[g as int] is Some);
    } else if h < g {
        assert(s[h as int] is Some);
    }
}

/// A table with fewer than `usize::MAX` slots has a lowest free handle.
pub proof fn lemma_first_free_exists<V>(s: Seq<Option<V>>)
    requires
        s.len() < usize::MAX,
    ensures
        is_first_free(s, first_free(s)),
    decreases s.len(),
{
    let h: usize = if s.len() == 0 {
        0
    } else {
        let p = s.drop_last();
        lemma_first_free_exists(p);
        let g = first_free(p);
        if g < p.len() {
            assert(forall|j: int| 0 <= j < g ==> #[trigger] s[j] == p[j]);
            g
        } else if s.last() is None {
            assert(forall|j: int| 0 <= j < g ==> #[trigger] s[j] == p[j]);
            g
        } else {
            assert forall|j: int| 0 <= j < s.len() implies #[trigger] s[j] is Some by {
                if j < p.len() {
                    assert(s[j] == p[j]);
                }
            }
            s.len() as usize
        }
    };
    assert(is_first_free(s, h));
    lemma_first_free_unique(s, h);
}

/// The slots of `s` once `v` is placed under the free handle `h`.
pub open spec fn placed<V>(s: Seq<Option<V>>, h: usize, v: V) -> Seq<Option<V>> {
    if h < s.len() {
        s.update(h as int, Some(v))
    } else {
        s.push(Some(v))
    }
}

/// No slot of `s` is free: nothing has been removed since the table was made.
pub open spec fn dense<V>(s: Seq<Option<V>>) -> bool {
    forall|j: int| 0 <= j < s.len() ==> #[trigger] s[j] is Some
}

/// The live entries of `s`, in handle order.
pub open spec fn live<V>(s: Seq<Option<V>>) -> Seq<V>
    decreases s.len(),
{
    if s.len() == 0 {
        Seq::empty()
    } else {
        let prev = live(s.drop_last());
        match s.last() {
            Some(v) => prev.push(v),
            None => prev,
        }
    }
}

/// A table of resources under stable integer handles. Inserting takes the lowest
/// free handle; a handle keeps its entry until that entry is removed.
pub struct ResourceTable<V> {
    slots: Vec<Option<V>>,
}

impl<V> View for ResourceTable<V> {
    type V = Seq<Option<V>>;

    closed spec fn view(&self) -> Seq<Option<V>> {
        self.slots@
    }
}

impl<V: Copy> ResourceTable<V> {
    /// An empty table.
    pub fn new() -> (r: ResourceTable<V>)
        ensures
            r@ == Seq::<Option<V>>::empty(),
    {
        ResourceTable { slots: Vec::new() }
    }

    /// The number of slots, live or free; every handle at or past it is free.
    pub fn slot_count(&self) -> (r: usize)
        ensures
            r == self@.len(),
    {
        self.slots.len()
    }

    /// The entry under `handle`, if one is live.
    pub fn get(&self, handle: usize) -> (r: Option<V>)
        ensures
            r == entry(self@, handle),
    {
        if handle < self.slots.len() {
            self.slots[handle]
        } else {
            None
        }
    }

    /// Stores `v` under the lowest free handle and returns that handle.
    pub fn insert(&mut self, v: V) -> (r: usize)
        requires
            old(self)@.len() < usize::MAX,
        ensures
            is_first_free(old(self)@, r),
            r == first_free(old(self)@),
            final(self)@ == placed(old(self)@, r, v),
    {
        let mut i: usize = 0;
        while i < self.slots.len()
            invariant
                i <= self.slots@.len(),
                self.slots@ == old(self)@,
                forall|j: int| 0 <= j < i ==> #[trigger] self.slots@[j] is Some,
            decreases self.slots@.len() - i,
        {
            if self.slots[i].is_none() {
                proof {
                    lemma_first_free_unique(self.slots@, i);
                }
                self.slots.set(i, Some(v));
                return i;
            }
            i = i + 1;
        }
        proof {
            lemma_first_free_unique(self.slots@, i);
        }
        self.slots.push(Some(v));
        i
    }

    /// Replaces the entry under a live `handle`; returns false, changing nothing, if
    /// no entry is live there.
    pub fn replace(&mut self, handle: usize, v: V) -> (r: bool)
        ensures
            r == (entry(old(self)@, handle) is Some),
            r ==> final(self)@ == old(self)@.update(handle as int, Some(v)),
            !r ==> final(self)@ == old(self)@,
    {
        if handle < self.slots.len() && self.slots[handle].is_some() {
            self.slots.set(handle, Some(v));
            true
        } else {
            false
        }
    }

    /// The live entries, in handle order.
    pub fn live_values(&self) -> (r: Vec<V>)
        ensures
            r@ == live(self@),
    {
        let mut r: Vec<V> = Vec::new();
        let mut i: usize = 0;
        while i < self.slots.len()
            invariant
                i <= self.slots@.len(),
                r@ == live(self.slots@.take(i as int)),
            decreases self.slots@.len() - i,
        {
            assert(self.slots@.take(i + 1).drop_last() =~= self.slots@.take(i as int));
            if let Some(v) = self.slots[i] {
                r.push(v);
            }
            i = i + 1;
        }
        assert(self.slots@.take(i as int) =~= self.slots@);
        r
    }

    /// Removes the entry under `handle` and returns it; the handle becomes free.
    /// Every other handle keeps its entry.
    pub fn remove(&mut self, handle: usize) -> (r: Option<V>)
        ensures
            r == entry(old(self)@, handle),
            r is Some ==> final(self)@ == old(self)@.update(handle as int, None),
            r is None ==> final(self)@ == old(self)@,
    {
        if handle < self.slots.len() {
            let e = self.slots[handle];
            if e.is_some() {
                self.slots.set(handle, None);
            }
            e
        } else {
            None
        }
    }
}

/// Inserting into a table from which nothing was removed appends: the new entry
/// takes the next handle after all the others, and the table stays without gaps.
pub proof fn lemma_dense_insert_appends<V>(s: Seq<Option<V>>, h: usize, v: V)
    requires
        dense(s),
        is_first_free(s, h),
    ensures
        h == s.len(),
        placed(s, h, v) == s.push(Some(v)),
        dense(placed(s, h, v)),
{
    if h < s.len() {
        assert(s[h as int] is Some);
    }
    assert forall|j: int| 0 <= j < s.push(Some(v)).len() implies #[trigger] s.push(Some(v))[j] is Some by {
        if j < s.len() {
            assert(s[j] is Some);
        }
    }
}

/// Handles stay stable: inserting never changes the entry under a live handle.
pub proof fn lemma_insert_keeps_live<V>(s: Seq<Option<V>>, h: usize, v: V, k: usize)
    requires
        is_first_free(s, h),
        entry(s, k) is Some,
    ensures
        entry(placed(s, h, v), k) == entry(s, k),
{
}

} // verus!
