use vstd::prelude::*;

verus! {

/// The number of distinct capacities that a pool keeps slices for.
pub const TRACKED_CAPACITIES: usize = 100;

/// The number of slices that a pool keeps per capacity unless told otherwise.
pub const DEFAULT_CACHE_PER: usize = 1000;

/// A size-indexed cache of reusable slices.
///
/// Bucket `c` holds slices of length exactly `c` that callers handed back.
/// `outstanding` counts the slices handed out and not yet handed back.
pub struct SlicePool<T> {
    pool: Vec<Vec<Vec<T>>>,
    max_cache_per: usize,
    outstanding: usize,
}

impl<T> SlicePool<T> {
    pub closed spec fn wf(&self) -> bool {
        &&& self.pool@.len() == TRACKED_CAPACITIES
        &&& forall|c: int| 0 <= c < TRACKED_CAPACITIES ==> {
            &&& #[trigger] self.pool@[c]@.len() <= self.max_cache_per
            &&& forall|k: int| 0 <= k < self.pool@[c]@.len() ==> #[trigger] self.pool@[c]@[k]@.len() == c
        }
    }

    /// How many slices of length `capacity` are cached.
    pub closed spec fn cached(&self, capacity: int) -> nat {
        if 0 <= capacity < self.pool@.len() {
            self.pool@[capacity]@.len()
        } else {
            0
        }
    }

    /// The contents of the slices of length `capacity` that are cached, oldest first.
    pub closed spec fn bucket(&self, capacity: int) -> Seq<Seq<T>> {
        if 0 <= capacity < self.pool@.len() {
            self.pool@[capacity]@.map_values(|v: Vec<T>| v@)
        } else {
            Seq::empty()
        }
    }

    pub closed spec fn spec_outstanding(&self) -> nat {
        self.outstanding as nat
    }

    pub closed spec fn spec_max_cache_per(&self) -> nat {
        self.max_cache_per as nat
    }

    /// An empty pool that keeps up to `max_cache_per` slices of each capacity.
    pub fn with_max_cache_per(max_cache_per: usize) -> (r: Self)
        ensures
            r.wf(),
            r.spec_outstanding() == 0,
            r.spec_max_cache_per() == max_cache_per,
            forall|c: int| #[trigger] r.cached(c) == 0,
            forall|c: int| #[trigger] r.bucket(c) == Seq::<Seq<T>>::empty(),
    {
        let mut pool: Vec<Vec<Vec<T>>> = Vec::new();
        let mut i: usize = 0;
        while i < TRACKED_CAPACITIES
            invariant
                i <= TRACKED_CAPACITIES,
                pool@.len() == i,
                forall|c: int| 0 <= c < i ==> #[trigger] pool@[c]@.len() == 0,
            decreases TRACKED_CAPACITIES - i,
        {
            pool.push(Vec::new());
            i = i + 1;
        }
        let r = SlicePool { pool, max_cache_per, outstanding: 0 };
        assert forall|c: int| #[trigger] r.bucket(c) == Seq::<Seq<T>>::empty() by {
            if 0 <= c < r.pool@.len() {
                assert(r.bucket(c) =~= Seq::<Seq<T>>::empty());
            }
        }
        r
    }

    /// The number of slices handed out and not yet handed back.
    pub fn outstanding(&self) -> (r: usize)
        ensures
            r == self.spec_outstanding(),
    {
        self.outstanding
    }

    /// Hands a slice back. It is kept when its length is a tracked capacity whose
    /// bucket is not full, and dropped otherwise.
    pub fn insert(&mut self, container: Vec<T>)
        requires
            old(self).wf(),
        ensures
            final(self).wf(),
            final(self).spec_outstanding() == if old(self).spec_outstanding() > 0 {
                old(self).spec_outstanding() - 1
            } else {
                0
            },
            final(self).spec_max_cache_per() == old(self).spec_max_cache_per(),
            forall|c: int| c != container@.len() ==> #[trigger] final(self).cached(c) == old(self).cached(c),
            final(self).cached(container@.len() as int) == if container@.len() < TRACKED_CAPACITIES
                && old(self).cached(container@.len() as int) < old(self).spec_max_cache_per() {
                old(self).cached(container@.len() as int) + 1
            } else {
                old(self).cached(container@.len() as int)
            },
            forall|c: int| c != container@.len() ==> #[trigger] final(self).bucket(c) == old(self).bucket(c),
            final(self).bucket(container@.len() as int) == if container@.len() < TRACKED_CAPACITIES
                && old(self).cached(container@.len() as int) < old(self).spec_max_cache_per() {
                old(self).bucket(container@.len() as int).push(container@)
            } else {
                old(self).bucket(container@.len() as int)
            },
    {
        if self.outstanding > 0 {
            self.outstanding = self.outstanding - 1;
        }
        let cap = container.len();
        if cap < self.pool.len() && self.pool[cap].len() < self.max_cache_per {
            let ghost before = self.pool@;
            let ghost kept = container@;
            self.pool[cap].push(container);
            assert(self.bucket(cap as int) =~= old(self).bucket(cap as int).push(kept));
            assert forall|c: int| c != cap implies #[trigger] self.bucket(c) == old(self).bucket(c) by {
                if 0 <= c < TRACKED_CAPACITIES {
                    assert(self.pool@[c] == before[c]);
                }
            }
            assert forall|c: int| 0 <= c < TRACKED_CAPACITIES implies {
                &&& #[trigger] self.pool@[c]@.len() <= self.max_cache_per
                &&& forall|k: int| 0 <= k < self.pool@[c]@.len() ==> #[trigger] self.pool@[c]@[k]@.len() == c
            } by {
                if c != cap {
                    assert(self.pool@[c] == before[c]);
                }
            }
        }
    }
}

impl<T: Default> SlicePool<T> {
    /// Hands out a slice of length `capacity`: a cached one when there is one,
    /// else a fresh one filled with default values. A cached slice still holds
    /// what its last user left in it.
    pub fn request(&mut self, capacity: usize) -> (r: Vec<T>)
        requires
            old(self).wf(),
            old(self).spec_outstanding() < usize::MAX,
        ensures
            final(self).wf(),
            r@.len() == capacity,
            capacity >= TRACKED_CAPACITIES ==> old(self).cached(capacity as int) == 0,
            final(self).spec_outstanding() == old(self).spec_outstanding() + 1,
            final(self).spec_max_cache_per() == old(self).spec_max_cache_per(),
            forall|c: int| c != capacity ==> #[trigger] final(self).cached(c) == old(self).cached(c),
            final(self).cached(capacity as int) == if old(self).cached(capacity as int) > 0 {
                old(self).cached(capacity as int) - 1
            } else {
                0
            },
            forall|c: int| c != capacity ==> #[trigger] final(self).bucket(c) == old(self).bucket(c),
            old(self).cached(capacity as int) > 0 ==> {
                &&& r@ == old(self).bucket(capacity as int).last()
                &&& final(self).bucket(capacity as int) == old(self).bucket(capacity as int).drop_last()
            },
            old(self).cached(capacity as int) == 0 ==> {
                &&& final(self).bucket(capacity as int) == old(self).bucket(capacity as int)
                &&& forall|k: int| 0 <= k < capacity ==> call_ensures(T::default, (), #[trigger] r@[k])
            },
    {
        self.outstanding = self.outstanding + 1;
        if capacity < self.pool.len() && self.pool[capacity].len() > 0 {
            let ghost before = self.pool@;
            let popped = self.pool[capacity].pop();
            assert(self.bucket(capacity as int) =~= old(self).bucket(capacity as int).drop_last());
            assert forall|c: int| c != capacity implies #[trigger] self.bucket(c) == old(self).bucket(c) by {
                if 0 <= c < TRACKED_CAPACITIES {
                    assert(self.pool@[c] == before[c]);
                }
            }
            assert forall|c: int| 0 <= c < TRACKED_CAPACITIES implies {
                &&& #[trigger] self.pool@[c]@.len() <= self.max_cache_per
                &&& forall|k: int| 0 <= k < self.pool@[c]@.len() ==> #[trigger] self.pool@[c]@[k]@.len() == c
            } by {
                if c != capacity {
                    assert(self.pool@[c] == before[c]);
                } else {
                    assert forall|k: int| 0 <= k < self.pool@[c]@.len() implies #[trigger] self.pool@[c]@[k]@.len() == c by {
                        assert(self.pool@[c]@[k] == before[c]@[k]);
                    }
                }
            }
            match popped {
                Some(v) => {
                    assert(v@.len() == capacity);
                    v
                },
                None => Vec::new(),
            }
        } else {
            let mut fresh: Vec<T> = Vec::new();
            let mut i: usize = 0;
            while i < capacity
                invariant
                    i <= capacity,
                    fresh@.len() == i,
                    forall|k: int| 0 <= k < i ==> call_ensures(T::default, (), #[trigger] fresh@[k]),
                decreases capacity - i,
            {
                fresh.push(T::default());
                i = i + 1;
            }
            fresh
        }
    }

    /// A slice that holds exactly the given elements, in order.
    pub fn from_pool(&mut self, elems: Vec<T>) -> (r: Vec<T>)
        requires
            old(self).wf(),
            old(self).spec_outstanding() < usize::MAX,
        ensures
            final(self).wf(),
            r@ == elems@,
            elems@.len() >= TRACKED_CAPACITIES ==> old(self).cached(elems@.len() as int) == 0,
            final(self).spec_outstanding() == old(self).spec_outstanding() + 1,
            final(self).spec_max_cache_per() == old(self).spec_max_cache_per(),
            forall|c: int| c != elems@.len() ==> #[trigger] final(self).cached(c) == old(self).cached(c),
            final(self).cached(elems@.len() as int) == if old(self).cached(elems@.len() as int) > 0 {
                old(self).cached(elems@.len() as int) - 1
            } else {
                0
            },
            forall|c: int| c != elems@.len() ==> #[trigger] final(self).bucket(c) == old(self).bucket(c),
            final(self).bucket(elems@.len() as int) == if old(self).cached(elems@.len() as int) > 0 {
                old(self).bucket(elems@.len() as int).drop_last()
            } else {
                old(self).bucket(elems@.len() as int)
            },
    {
        let n = elems.len();
        let mut slice = self.request(n);
        let ghost given = elems@;
        let mut elems = elems;
        let mut i: usize = n;
        while i > 0
            invariant
                i <= n,
                n == slice@.len(),
                given.len() == n,
                elems@.len() == i,
                elems@ == given.subrange(0, i as int),
                forall|k: int| i <= k < n ==> slice@[k] == given[k],
            decreases i,
        {
            let x = elems.pop().unwrap();
            i = i - 1;
            slice.set(i, x);
        }
        assert(slice@ =~= given);
        slice
    }

    /// A slice of length `capacity` whose elements `gen` produces, first to last.
    pub fn from_pool_with_fn<F: Fn() -> T>(&mut self, capacity: usize, gen: F) -> (r: Vec<T>)
        requires
            old(self).wf(),
            old(self).spec_outstanding() < usize::MAX,
            gen.requires(()),
        ensures
            final(self).wf(),
            r@.len() == capacity,
            forall|k: int| 0 <= k < capacity ==> gen.ensures((), #[trigger] r@[k]),
            capacity >= TRACKED_CAPACITIES ==> old(self).cached(capacity as int) == 0,
            final(self).spec_outstanding() == old(self).spec_outstanding() + 1,
            final(self).spec_max_cache_per() == old(self).spec_max_cache_per(),
            forall|c: int| c != capacity ==> #[trigger] final(self).cached(c) == old(self).cached(c),
            final(self).cached(capacity as int) == if old(self).cached(capacity as int) > 0 {
                old(self).cached(capacity as int) - 1
            } else {
                0
            },
            forall|c: int| c != capacity ==> #[trigger] final(self).bucket(c) == old(self).bucket(c),
            final(self).bucket(capacity as int) == if old(self).cached(capacity as int) > 0 {
                old(self).bucket(capacity as int).drop_last()
            } else {
                old(self).bucket(capacity as int)
            },
    {
        let mut slice = self.request(capacity);
        let mut i: usize = 0;
        while i < capacity
            invariant
                i <= capacity,
                slice@.len() == capacity,
                gen.requires(()),
                forall|k: int| 0 <= k < i ==> gen.ensures((), #[trigger] slice@[k]),
            decreases capacity - i,
        {
            let x = gen();
            slice.set(i, x);
            i = i + 1;
        }
        slice
    }
}

} // verus!
