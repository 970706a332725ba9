//! The callback registry: at most one waiter per correlation key.

use vstd::prelude::*;

verus! {

/// What waits on a correlation key.
pub enum CallbackType<R, H> {
    /// A single-use reply channel of a request/response call: resolved with
    /// the first matching inbound document, then removed.
    OneShot(R),
    /// A standing subscription: invoked with every matching element until
    /// it is unregistered.
    Persistent(H),
}

/// Mapping from correlation key to waiter. Registering on a key that already
/// has a waiter replaces it.
pub struct CallbackRegistry<R, H> {
    keys: Vec<String>,
    waiters: Vec<CallbackType<R, H>>,
    contents: Ghost<Map<Seq<char>, CallbackType<R, H>>>,
}

impl<R, H> CallbackRegistry<R, H> {
    /// The waiters, by key.
    pub closed spec fn view(&self) -> Map<Seq<char>, CallbackType<R, H>> {
        self.contents@
    }

    /// The two vectors run in parallel, keys are unique, and together they
    /// hold exactly the entries of the view.
    pub closed spec fn wf(&self) -> bool {
        &&& self.keys@.len() == self.waiters@.len()
        &&& forall|i: int, j: int|
            0 <= i < j < self.keys@.len() ==> #[trigger] self.keys@[i]@ != #[trigger] self.keys@[j]@
        &&& forall|i: int|
            0 <= i < self.keys@.len() ==> {
                &&& self.contents@.contains_key(#[trigger] self.keys@[i]@)
                &&& self.contents@[self.keys@[i]@] == self.waiters@[i]
            }
        &&& forall|k: Seq<char>|
            #[trigger] self.contents@.contains_key(k) ==> exists|i: int|
                0 <= i < self.keys@.len() && self.keys@[i]@ == k
    }

    /// An empty registry.
    pub fn new() -> (r: Self)
        ensures
            r.wf(),
            r.view() == Map::<Seq<char>, CallbackType<R, H>>::empty(),
    {
        CallbackRegistry { keys: Vec::new(), waiters: Vec::new(), contents: Ghost(Map::empty()) }
    }

    /// Number of keys with a waiter.
    pub fn len(&self) -> (r: usize)
        requires
            self.wf(),
        ensures
            r == self.view().len(),
    {
        proof {
            self.lemma_len();
        }
        self.keys.len()
    }

    proof fn lemma_len(&self)
        requires
            self.wf(),
        ensures
            self.view().dom().finite(),
            self.view().len() == self.keys@.len(),
    {
        assert(self.view().dom() =~= self.keys@.map_values(|s: String| s@).to_set()) by {
            assert forall|k: Seq<char>| self.view().dom().contains(k)
                implies self.keys@.map_values(|s: String| s@).to_set().contains(k) by {
                let i = choose|i: int| 0 <= i < self.keys@.len() && self.keys@[i]@ == k;
                assert(self.keys@.map_values(|s: String| s@)[i] == k);
            }
        }
        let m = self.keys@.map_values(|s: String| s@);
        assert(m.no_duplicates()) by {
            assert forall|i: int, j: int| 0 <= i < m.len() && 0 <= j < m.len() && i != j
                implies m[i] != m[j] by {
                if i < j {
                    assert(self.keys@[i]@ != self.keys@[j]@);
                } else {
                    assert(self.keys@[j]@ != self.keys@[i]@);
                }
            }
        }
        m.unique_seq_to_set();
    }

    /// Position of `key` among the keys, if it has a waiter.
    fn find(&self, key: &String) -> (r: Option<usize>)
        requires
            self.wf(),
        ensures
            r is None <==> !self.view().contains_key(key@),
            r matches Some(i) ==> i < self.keys@.len() && self.keys@[i as int]@ == key@,
    {
        let mut i: usize = 0;
        while i < self.keys.len()
            invariant
                self.wf(),
                i <= self.keys@.len(),
                forall|j: int| 0 <= j < i ==> self.keys@[j]@ != key@,
            decreases self.keys@.len() - i,
        {
            if self.keys[i] == *key {
                return Some(i);
            }
            i = i + 1;
        }
        None
    }

    /// Whether `key` has a waiter.
    pub fn contains(&self, key: &String) -> (r: bool)
        requires
            self.wf(),
        ensures
            r == self.view().contains_key(key@),
    {
        self.find(key).is_some()
    }

    /// The waiter registered on `key`, if any.
    pub fn get(&self, key: &String) -> (r: Option<&CallbackType<R, H>>)
        requires
            self.wf(),
        ensures
            r is None <==> !self.view().contains_key(key@),
            r matches Some(w) ==> *w == self.view()[key@],
    {
        match self.find(key) {
            Some(i) => Some(&self.waiters[i]),
            None => None,
        }
    }

    /// Registers `waiter` on `key`, replacing (and dropping) any waiter that
    /// was there.
    pub fn register(&mut self, key: String, waiter: CallbackType<R, H>)
        requires
            old(self).wf(),
        ensures
            final(self).wf(),
            final(self).view() == old(self).view().insert(key@, waiter),
    {
        let ghost k = key@;
        let ghost w = waiter;
        let ghost target = self.contents@.insert(k, w);
        match self.find(&key) {
            Some(i) => {
                self.waiters.set(i, waiter);
                self.contents = Ghost(target);
                assert forall|j: int| 0 <= j < self.keys@.len() implies {
                    &&& self.contents@.contains_key(#[trigger] self.keys@[j]@)
                    &&& self.contents@[self.keys@[j]@] == self.waiters@[j]
                } by {
                    if j != i {
                        assert(self.keys@[j]@ != k) by {
                            if j < i {
                                assert(self.keys@[j]@ != self.keys@[i as int]@);
                            } else {
                                assert(self.keys@[i as int]@ != self.keys@[j]@);
                            }
                        }
                    }
                }
                assert forall|q: Seq<char>| #[trigger] self.contents@.contains_key(q)
                    implies exists|j: int| 0 <= j < self.keys@.len() && self.keys@[j]@ == q by {
                    if q == k {
                        assert(self.keys@[i as int]@ == q);
                    }
                }
            },
            None => {
                let ghost n = self.keys@.len();
                self.keys.push(key);
                self.waiters.push(waiter);
                self.contents = Ghost(target);
                assert(self.keys@[n as int]@ == k);
                assert forall|q: Seq<char>| #[trigger] self.contents@.contains_key(q)
                    implies exists|j: int| 0 <= j < self.keys@.len() && self.keys@[j]@ == q by {
                    if q == k {
                        assert(self.keys@[n as int]@ == q);
                    } else {
                        let j = choose|j: int| 0 <= j < n && old(self).keys@[j]@ == q;
                        assert(self.keys@[j]@ == q);
                    }
                }
            },
        }
    }

    /// Removes the entry at position `i` and returns its waiter.
    fn remove_at(&mut self, i: usize) -> (r: CallbackType<R, H>)
        requires
            old(self).wf(),
            i < old(self).keys@.len(),
        ensures
            final(self).wf(),
            r == old(self).view()[old(self).keys@[i as int]@],
            final(self).view() == old(self).view().remove(old(self).keys@[i as int]@),
    {
        let ghost k = self.keys@[i as int]@;
        let ghost old_keys = self.keys@;
        let ghost target = self.contents@.remove(k);
        let _ = self.keys.remove(i);
        let r = self.waiters.remove(i);
        self.contents = Ghost(target);
        assert forall|a: int, b: int| 0 <= a < b < self.keys@.len() implies
            #[trigger] self.keys@[a]@ != #[trigger] self.keys@[b]@ by {
            let oa = if a < i { a } else { a + 1 };
            let ob = if b < i { b } else { b + 1 };
            assert(old_keys[oa]@ != old_keys[ob]@);
        }
        assert forall|j: int| 0 <= j < self.keys@.len() implies {
            &&& self.contents@.contains_key(#[trigger] self.keys@[j]@)
            &&& self.contents@[self.keys@[j]@] == self.waiters@[j]
        } by {
            let oj = if j < i { j } else { j + 1 };
            assert(self.keys@[j] == old_keys[oj]);
            if oj < i {
                assert(old_keys[oj]@ != old_keys[i as int]@);
            } else {
                assert(old_keys[i as int]@ != old_keys[oj]@);
            }
        }
        assert forall|q: Seq<char>| #[trigger] self.contents@.contains_key(q)
            implies exists|j: int| 0 <= j < self.keys@.len() && self.keys@[j]@ == q by {
            let oj = choose|j: int| 0 <= j < old_keys.len() && old_keys[j]@ == q;
            assert(oj != i);
            let j = if oj < i { oj } else { oj - 1 };
            assert(self.keys@[j]@ == q);
        }
        r
    }

    /// Removes the waiter on `key` and returns it; absence is no error.
    pub fn unregister(&mut self, key: &String) -> (r: Option<CallbackType<R, H>>)
        requires
            old(self).wf(),
        ensures
            final(self).wf(),
            final(self).view() == old(self).view().remove(key@),
            r is None <==> !old(self).view().contains_key(key@),
            r matches Some(w) ==> w == old(self).view()[key@],
    {
        match self.find(key) {
            Some(i) => Some(self.remove_at(i)),
            None => {
                assert(self.view() =~= self.view().remove(key@));
                None
            },
        }
    }
}

} // verus!
