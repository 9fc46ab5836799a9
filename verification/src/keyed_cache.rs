//! A generational cache keyed by structural identity.
//!
//! Every expensive GPU object is stored here under the descriptor value that
//! produced it.  A lookup for a key that is present refreshes the entry's age
//! and returns the stored value without building anything; a lookup for an
//! absent key builds the value exactly once and stores it.  Advancing the
//! generation evicts every entry whose age has fallen an entire eviction
//! window behind.
//!
//! Keys are compared by their mathematical view: the cache requires
//! [`obeys_view_eq`], i.e. that the key type's `==` decides view equality.

use vstd::laws_eq::obeys_view_eq;
use vstd::prelude::*;

verus! {

/// How many generations an untouched entry survives by default.
pub const DEFAULT_EVICTION_WINDOW: usize = 60;

struct CacheEntry<K, V> {
    key: K,
    age: usize,
    value: V,
}

/// A generational cache from descriptor values to built objects.
pub struct KeyedCache<K, V> {
    entries: Vec<CacheEntry<K, V>>,
    generation: usize,
    window: usize,
    queries: usize,
    misses: usize,
}

impl<K: View, V> KeyedCache<K, V> {
    /// Whether a key with view `k` is stored.
    pub closed spec fn contains_key(&self, k: K::V) -> bool {
        exists|i: int| 0 <= i < self.entries@.len() && self.entries@[i].key@ == k
    }

    spec fn idx_of(&self, k: K::V) -> int {
        choose|i: int| 0 <= i < self.entries@.len() && self.entries@[i].key@ == k
    }

    /// The value stored under a key with view `k`.
    pub closed spec fn stored_value(&self, k: K::V) -> V {
        self.entries@[self.idx_of(k)].value
    }

    /// The generation at which the entry for `k` was last touched.
    pub closed spec fn stored_age(&self, k: K::V) -> nat {
        self.entries@[self.idx_of(k)].age as nat
    }

    /// The current generation.
    pub closed spec fn current_generation(&self) -> nat {
        self.generation as nat
    }

    /// The eviction window this cache was configured with.
    pub closed spec fn window(&self) -> nat {
        self.window as nat
    }

    /// The number of entries stored.
    pub closed spec fn spec_len(&self) -> nat {
        self.entries@.len()
    }

    /// Internal consistency: key views are distinct and no entry is younger
    /// than the cache itself.
    pub closed spec fn wf(&self) -> bool {
        &&& forall|i: int, j: int|
            0 <= i < j < self.entries@.len() ==> (#[trigger] self.entries@[i].key@)
                != (#[trigger] self.entries@[j].key@)
        &&& forall|i: int|
            0 <= i < self.entries@.len() ==> (#[trigger] self.entries@[i].age) <= self.generation
    }

    /// No stored entry is younger than the cache itself.
    pub proof fn lemma_age_bounded(&self, k: K::V)
        requires
            self.wf(),
            self.contains_key(k),
        ensures
            self.stored_age(k) <= self.current_generation(),
    {
        let i = self.idx_of(k);
        assert(0 <= i < self.entries@.len() && self.entries@[i].key@ == k);
        assert(self.entries@[i].age <= self.generation);
    }

    proof fn lemma_entry_at(&self, i: int)
        requires
            self.wf(),
            0 <= i < self.entries@.len(),
        ensures
            self.contains_key(self.entries@[i].key@),
            self.idx_of(self.entries@[i].key@) == i,
            self.stored_value(self.entries@[i].key@) == self.entries@[i].value,
            self.stored_age(self.entries@[i].key@) == self.entries@[i].age as nat,
    {
        let k = self.entries@[i].key@;
        assert(self.contains_key(k));
        let j = self.idx_of(k);
        if i < j {
            assert(self.entries@[i].key@ != self.entries@[j].key@);
        } else if j < i {
            assert(self.entries@[j].key@ != self.entries@[i].key@);
        }
    }

    /// An empty cache with the default eviction window.
    pub fn new() -> (r: Self)
        ensures
            r.wf(),
            r.current_generation() == 0,
            r.window() == DEFAULT_EVICTION_WINDOW as nat,
            forall|k: K::V| !r.contains_key(k),
            r.spec_len() == 0,
    {
        KeyedCache {
            entries: Vec::new(),
            generation: 0,
            window: DEFAULT_EVICTION_WINDOW,
            queries: 0,
            misses: 0,
        }
    }

    /// An empty cache whose entries survive `window` generations untouched.
    pub fn with_window(window: usize) -> (r: Self)
        ensures
            r.wf(),
            r.current_generation() == 0,
            r.window() == window as nat,
            forall|k: K::V| !r.contains_key(k),
            r.spec_len() == 0,
    {
        KeyedCache { entries: Vec::new(), generation: 0, window, queries: 0, misses: 0 }
    }

    /// The number of entries stored.
    pub fn len(&self) -> (r: usize)
        ensures
            r == self.spec_len(),
    {
        self.entries.len()
    }

}

impl<K: View + PartialEq, V> KeyedCache<K, V> {
    fn find_index(&self, key: &K) -> (r: Option<usize>)
        requires
            obeys_view_eq::<K>(),
            self.wf(),
        ensures
            match r {
                Some(i) => i < self.entries@.len() && self.entries@[i as int].key@ == key@,
                None => !self.contains_key(key@),
            },
    {
        proof {
            reveal(vstd::laws_eq::obeys_view_eq);
        }
        let n = self.entries.len();
        let mut i: usize = 0;
        while i < n
            invariant
                obeys_view_eq::<K>(),
                n == self.entries@.len(),
                i <= n,
                forall|j: int| 0 <= j < i ==> (#[trigger] self.entries@[j].key@) != key@,
            decreases n - i,
        {
            proof {
                reveal(vstd::laws_eq::obeys_view_eq);
            }
            if self.entries[i].key == *key {
                return Some(i);
            }
            i = i + 1;
        }
        None
    }

    /// Whether this key is present, without touching its age.
    pub fn contains(&self, key: &K) -> (r: bool)
        requires
            obeys_view_eq::<K>(),
            self.wf(),
        ensures
            r == self.contains_key(key@),
    {
        let r = self.find_index(key);
        match r {
            Some(i) => {
                proof {
                    self.lemma_entry_at(i as int);
                }
                true
            },
            None => false,
        }
    }

    /// Look the key up; on a hit refresh the entry's age and return the
    /// stored value untouched, on a miss build the value exactly once, store
    /// it under the current generation and return it.  A key already present
    /// never has its builder invoked.
    pub fn get_or_insert_with<F: FnOnce() -> V>(&mut self, key: K, default: F) -> (r: &V)
        requires
            obeys_view_eq::<K>(),
            old(self).wf(),
            call_requires(default, ()),
        ensures
            final(self).wf(),
            final(self).current_generation() == old(self).current_generation(),
            final(self).window() == old(self).window(),
            final(self).contains_key(key@),
            *r == final(self).stored_value(key@),
            final(self).stored_age(key@) == old(self).current_generation(),
            old(self).contains_key(key@) ==> *r == old(self).stored_value(key@),
            !old(self).contains_key(key@) ==> call_ensures(default, (), *r),
            forall|k: K::V|
                #[trigger] final(self).contains_key(k) <==> old(self).contains_key(k) || k
                    == key@,
            forall|k: K::V|
                old(self).contains_key(k) && k != key@ ==> final(self).stored_value(k) == old(
                    self,
                ).stored_value(k) && final(self).stored_age(k) == old(self).stored_age(k),
    {
        self.queries = self.queries.saturating_add(1);
        let found = self.find_index(&key);
        match found {
            Some(i) => {
                proof {
                    old(self).lemma_entry_at(i as int);
                }
                let g = self.generation;
                self.entries[i].age = g;
                proof {
                    assert(self.entries@ =~= old(self).entries@.update(
                        i as int,
                        CacheEntry {
                            key: old(self).entries@[i as int].key,
                            age: old(self).generation,
                            value: old(self).entries@[i as int].value,
                        },
                    ));
                    assert forall|k: K::V| self.contains_key(k) implies old(self).contains_key(
                        k,
                    ) by {
                        let j = choose|j: int|
                            0 <= j < self.entries@.len() && self.entries@[j].key@ == k;
                        assert(old(self).entries@[j].key@ == k);
                    }
                    assert forall|k: K::V| old(self).contains_key(k) implies self.contains_key(
                        k,
                    ) by {
                        let j = choose|j: int|
                            0 <= j < old(self).entries@.len() && old(self).entries@[j].key@ == k;
                        assert(self.entries@[j].key@ == k);
                    }
                    assert forall|k: K::V| old(self).contains_key(k) && k != key@ implies self
                        .stored_value(k) == old(self).stored_value(k) && self.stored_age(k) == old(
                        self,
                    ).stored_age(k) by {
                        let j = old(self).idx_of(k);
                        old(self).lemma_entry_at(j);
                        self.lemma_entry_at(j);
                    }
                    self.lemma_entry_at(i as int);
                }
                &self.entries[i].value
            },
            None => {
                self.misses = self.misses.saturating_add(1);
                let value = default();
                let g = self.generation;
                self.entries.push(CacheEntry { key, age: g, value });
                let n = self.entries.len();
                proof {
                    let m = self.entries@.len() - 1;
                    assert forall|k: K::V| self.contains_key(k) implies old(self).contains_key(k)
                        || k == key@ by {
                        let j = choose|j: int|
                            0 <= j < self.entries@.len() && self.entries@[j].key@ == k;
                        if j < m {
                            assert(old(self).entries@[j].key@ == k);
                        }
                    }
                    assert forall|k: K::V| old(self).contains_key(k) implies self.contains_key(
                        k,
                    ) by {
                        let j = choose|j: int|
                            0 <= j < old(self).entries@.len() && old(self).entries@[j].key@ == k;
                        assert(self.entries@[j].key@ == k);
                    }
                    assert forall|i: int, j: int|
                        0 <= i < j < self.entries@.len() implies (
                    #[trigger] self.entries@[i].key@) != (#[trigger] self.entries@[j].key@) by {
                        if j == m {
                            assert(old(self).entries@[i].key@ == self.entries@[i].key@);
                            if self.entries@[i].key@ == key@ {
                                assert(old(self).contains_key(key@));
                            }
                        }
                    }
                    assert forall|k: K::V| old(self).contains_key(k) && k != key@ implies self
                        .stored_value(k) == old(self).stored_value(k) && self.stored_age(k) == old(
                        self,
                    ).stored_age(k) by {
                        let j = old(self).idx_of(k);
                        old(self).lemma_entry_at(j);
                        self.lemma_entry_at(j);
                    }
                    self.lemma_entry_at(m);
                }
                &self.entries[n - 1].value
            },
        }
    }

}

impl<K: View, V> KeyedCache<K, V> {
    /// Advance the generation by one, drop every entry whose age has fallen
    /// more than a full eviction window behind, and reset the per-generation
    /// query counters.  Entries touched recently keep their value and age.
    #[verifier::rlimit(50)]
    pub fn age(&mut self)
        requires
            old(self).wf(),
            old(self).current_generation() + 1 <= usize::MAX,
        ensures
            final(self).wf(),
            final(self).current_generation() == old(self).current_generation() + 1,
            final(self).window() == old(self).window(),
            forall|k: K::V|
                #[trigger] final(self).contains_key(k) <==> old(self).contains_key(k)
                    && survives_aging(
                    old(self).stored_age(k),
                    old(self).window(),
                    old(self).current_generation() + 1,
                ),
            forall|k: K::V|
                #[trigger] final(self).contains_key(k) ==> final(self).stored_value(k) == old(
                    self,
                ).stored_value(k) && final(self).stored_age(k) == old(self).stored_age(k),
    {
        self.generation = self.generation + 1;
        self.queries = 0;
        self.misses = 0;
        let g = self.generation;
        let w = self.window;
        let ghost pre = old(self).entries@;
        let mut kept: Vec<CacheEntry<K, V>> = Vec::new();
        // For every kept entry, `src` records the index it held in `pre`;
        // for every surviving index of `pre`, `back` records where it now
        // lives in `kept`.  Both are ghost bookkeeping for the proof.
        let ghost mut src: Seq<int> = Seq::empty();
        let ghost mut back: Seq<int> = Seq::new(pre.len(), |b: int| 0);
        while self.entries.len() > 0
            invariant
                g == self.generation,
                w == self.window,
                self.entries@ == pre.subrange(0, self.entries@.len() as int),
                self.entries@.len() <= pre.len(),
                forall|i: int, j: int|
                    0 <= i < j < pre.len() ==> (#[trigger] pre[i].key@) != (#[trigger] pre[j].key@),
                forall|i: int| 0 <= i < pre.len() ==> (#[trigger] pre[i].age) < g,
                src.len() == kept@.len(),
                back.len() == pre.len(),
                forall|a: int|
                    0 <= a < src.len() ==> self.entries@.len() <= #[trigger] src[a] < pre.len()
                        && kept@[a] == pre[src[a]] && pre[src[a]].age + w > g,
                forall|a1: int, a2: int| 0 <= a1 < a2 < src.len() ==> src[a1] > src[a2],
                forall|b: int|
                    self.entries@.len() <= b < pre.len() && (#[trigger] pre[b].age) + w > g ==> 0
                        <= #[trigger] back[b] < kept@.len() && src[back[b]] == b,
            decreases self.entries@.len(),
        {
            let ghost m = self.entries@.len() as int;
            let e_opt = self.entries.pop();
            let e = e_opt.unwrap();
            proof {
                assert(e == pre[m - 1]);
                assert(self.entries@ =~= pre.subrange(0, m - 1));
            }
            // `e.age + w > g` is tested as `w > g - e.age`: every stored age
            // is below the already-advanced generation, so the subtraction
            // cannot overflow.
            if w > g - e.age {
                proof {
                    back = back.update(m - 1, src.len() as int);
                    src = src.push(m - 1);
                }
                kept.push(e);
            } else {
                proof {
                    assert(pre[m - 1].age + w <= g);
                }
            }
        }
        proof {
            assert(pre.subrange(0, 0) =~= Seq::<CacheEntry<K, V>>::empty());
        }
        self.entries = kept;
        proof {
            assert forall|i: int, j: int|
                0 <= i < j < self.entries@.len() implies (#[trigger] self.entries@[i].key@) != (
            #[trigger] self.entries@[j].key@) by {
                assert(self.entries@[i] == pre[src[i]]);
                assert(self.entries@[j] == pre[src[j]]);
                assert(pre[src[j]].key@ != pre[src[i]].key@);
            }
            assert forall|i: int| 0 <= i < self.entries@.len() implies (
            #[trigger] self.entries@[i].age) <= self.generation by {
                assert(self.entries@[i] == pre[src[i]]);
            }
            assert forall|k: K::V| self.contains_key(k) implies old(self).contains_key(k)
                && survives_aging(
                old(self).stored_age(k),
                old(self).window(),
                old(self).current_generation() + 1,
            ) && self.stored_value(k) == old(self).stored_value(k) && self.stored_age(k) == old(
                self,
            ).stored_age(k) by {
                let a = choose|a: int|
                    0 <= a < self.entries@.len() && self.entries@[a].key@ == k;
                let b = src[a];
                assert(self.entries@[a] == pre[b]);
                old(self).lemma_entry_at(b);
                self.lemma_entry_at(a);
            }
            assert forall|k: K::V|
                old(self).contains_key(k) && survives_aging(
                    old(self).stored_age(k),
                    old(self).window(),
                    old(self).current_generation() + 1,
                ) implies self.contains_key(k) by {
                let b = old(self).idx_of(k);
                old(self).lemma_entry_at(b);
                assert(pre[b].age + w > g);
                let a = back[b];
                assert(self.entries@[a] == pre[b]);
                assert(self.entries@[a].key@ == k);
            }
        }
    }
}

impl<K: View + PartialEq, V: Copy> KeyedCache<K, V> {
    /// Look the key up without building anything: on a hit refresh the
    /// entry's age and return the stored value, on a miss leave every entry
    /// untouched.
    pub fn get_refresh(&mut self, key: &K) -> (r: Option<V>)
        requires
            obeys_view_eq::<K>(),
            old(self).wf(),
        ensures
            final(self).wf(),
            final(self).current_generation() == old(self).current_generation(),
            final(self).window() == old(self).window(),
            forall|k2: K::V|
                #[trigger] final(self).contains_key(k2) == old(self).contains_key(k2),
            match r {
                Some(v) => {
                    &&& old(self).contains_key(key@)
                    &&& v == old(self).stored_value(key@)
                    &&& final(self).stored_value(key@) == v
                    &&& final(self).stored_age(key@) == old(self).current_generation()
                    &&& forall|k2: K::V|
                        old(self).contains_key(k2) && k2 != key@ ==> final(self).stored_value(k2)
                            == old(self).stored_value(k2) && final(self).stored_age(k2) == old(
                            self,
                        ).stored_age(k2)
                },
                None => {
                    &&& !old(self).contains_key(key@)
                    &&& forall|k2: K::V|
                        #[trigger] old(self).contains_key(k2) ==> final(self).stored_value(k2)
                            == old(self).stored_value(k2) && final(self).stored_age(k2) == old(
                            self,
                        ).stored_age(k2)
                },
            },
    {
        self.queries = self.queries.saturating_add(1);
        let found = self.find_index(key);
        match found {
            Some(i) => {
                proof {
                    old(self).lemma_entry_at(i as int);
                }
                let g = self.generation;
                self.entries[i].age = g;
                let v = self.entries[i].value;
                proof {
                    assert(self.entries@ =~= old(self).entries@.update(
                        i as int,
                        CacheEntry {
                            key: old(self).entries@[i as int].key,
                            age: old(self).generation,
                            value: old(self).entries@[i as int].value,
                        },
                    ));
                    assert forall|k2: K::V| self.contains_key(k2) implies old(self).contains_key(
                        k2,
                    ) by {
                        let j = choose|j: int|
                            0 <= j < self.entries@.len() && self.entries@[j].key@ == k2;
                        assert(old(self).entries@[j].key@ == k2);
                    }
                    assert forall|k2: K::V| old(self).contains_key(k2) implies self.contains_key(
                        k2,
                    ) by {
                        let j = choose|j: int|
                            0 <= j < old(self).entries@.len() && old(self).entries@[j].key@ == k2;
                        assert(self.entries@[j].key@ == k2);
                    }
                    assert forall|k2: K::V| old(self).contains_key(k2) && k2 != key@ implies self
                        .stored_value(k2) == old(self).stored_value(k2) && self.stored_age(k2)
                        == old(self).stored_age(k2) by {
                        let j = old(self).idx_of(k2);
                        old(self).lemma_entry_at(j);
                        self.lemma_entry_at(j);
                    }
                    self.lemma_entry_at(i as int);
                }
                Some(v)
            },
            None => None,
        }
    }

}

impl<K: View, V: Copy> KeyedCache<K, V> {
    /// Store a value under a key that is not yet present, aged at the
    /// current generation.
    pub fn insert_new(&mut self, key: K, value: V)
        requires
            old(self).wf(),
            !old(self).contains_key(key@),
        ensures
            final(self).wf(),
            final(self).current_generation() == old(self).current_generation(),
            final(self).window() == old(self).window(),
            final(self).contains_key(key@),
            final(self).stored_value(key@) == value,
            final(self).stored_age(key@) == old(self).current_generation(),
            forall|k2: K::V|
                #[trigger] final(self).contains_key(k2) <==> old(self).contains_key(k2) || k2
                    == key@,
            forall|k2: K::V|
                old(self).contains_key(k2) && k2 != key@ ==> final(self).stored_value(k2) == old(
                    self,
                ).stored_value(k2) && final(self).stored_age(k2) == old(self).stored_age(k2),
    {
        self.misses = self.misses.saturating_add(1);
        let g = self.generation;
        self.entries.push(CacheEntry { key, age: g, value });
        proof {
            let m = self.entries@.len() - 1;
            assert forall|k2: K::V| self.contains_key(k2) implies old(self).contains_key(k2) || k2
                == key@ by {
                let j = choose|j: int| 0 <= j < self.entries@.len() && self.entries@[j].key@ == k2;
                if j < m {
                    assert(old(self).entries@[j].key@ == k2);
                }
            }
            assert forall|k2: K::V| old(self).contains_key(k2) implies self.contains_key(k2) by {
                let j = choose|j: int|
                    0 <= j < old(self).entries@.len() && old(self).entries@[j].key@ == k2;
                assert(self.entries@[j].key@ == k2);
            }
            assert forall|i: int, j: int| 0 <= i < j < self.entries@.len() implies (
            #[trigger] self.entries@[i].key@) != (#[trigger] self.entries@[j].key@) by {
                if j == m {
                    assert(old(self).entries@[i].key@ == self.entries@[i].key@);
                    if self.entries@[i].key@ == key@ {
                        assert(old(self).contains_key(key@));
                    }
                }
            }
            assert forall|k2: K::V| old(self).contains_key(k2) && k2 != key@ implies self
                .stored_value(k2) == old(self).stored_value(k2) && self.stored_age(k2) == old(
                self,
            ).stored_age(k2) by {
                let j = old(self).idx_of(k2);
                old(self).lemma_entry_at(j);
                self.lemma_entry_at(j);
            }
            self.lemma_entry_at(m);
        }
    }
}

/// Whether an entry of the given age survives an aging step that raises the
/// generation to `new_generation` under the given eviction window.
pub open spec fn survives_aging(age: nat, window: nat, new_generation: nat) -> bool {
    age + window > new_generation
}

/// An entry touched in the current generation survives the aging step that
/// follows it, whenever the eviction window spans at least two generations.
/// Applied after every step, it shows that an entry touched every generation
/// is never evicted, regardless of how many generations pass.
pub proof fn lemma_touched_entry_survives(age: nat, window: nat, generation: nat)
    requires
        age == generation,
        window >= 2,
    ensures
        survives_aging(age, window, generation + 1),
{
}

/// An entry whose age has fallen a whole eviction window or more behind the
/// next generation is evicted by the aging step that reaches it.
pub proof fn lemma_stale_entry_evicted(age: nat, window: nat, generation: nat)
    requires
        age + window <= generation + 1,
    ensures
        !survives_aging(age, window, generation + 1),
{
}

} // verus!
