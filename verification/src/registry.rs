//! The federation registry: the clients of the federations that the service
//! works with, each under the id of its federation.
//!
//! The registry is meant to be shared behind a lock: a reader takes the lock,
//! gets the one client it needs, and lets the lock go.

use vstd::prelude::*;

verus! {

/// A client under the id of its federation.
struct Entry<C> {
    id: String,
    client: C,
}

/// The clients of the federations, by federation id. No id occurs twice.
pub struct FederationRegistry<C> {
    entries: Vec<Entry<C>>,
}

impl<C> FederationRegistry<C> {
    /// No federation id occurs twice.
    #[verifier::type_invariant]
    spec fn distinct(self) -> bool {
        forall|i: int, j: int|
            0 <= i < j < self.entries.len() ==> self.entries[i].id@ != self.entries[j].id@
    }

    /// Whether the entry at a place is the one of a federation.
    spec fn at(self, i: int, id: Seq<char>) -> bool {
        0 <= i < self.entries.len() && self.entries[i].id@ == id
    }

    /// A registry without clients.
    pub fn new() -> (r: Self)
        ensures
            r@ == Map::<Seq<char>, C>::empty(),
    {
        let r = FederationRegistry { entries: Vec::new() };
        assert(r@ =~= Map::<Seq<char>, C>::empty());
        r
    }

    /// The place of a federation's entry, if it has one.
    fn position(&self, id: &String) -> (r: Option<usize>)
        ensures
            r matches Some(i) ==> self.at(i as int, id@),
            r is None ==> forall|i: int| !self.at(i, id@),
    {
        let mut i: usize = 0;
        while i < self.entries.len()
            invariant
                0 <= i <= self.entries.len(),
                forall|k: int| 0 <= k < i ==> !self.at(k, id@),
            decreases self.entries.len() - i,
        {
            if self.entries[i].id == *id {
                return Some(i);
            }
            i = i + 1;
        }
        None
    }

    /// The number of federations.
    pub fn len(&self) -> (r: usize)
        ensures
            r == self@.len(),
            self@.dom().finite(),
    {
        proof {
            use_type_invariant(self);
            self.lemma_len(self.entries.len() as int);
            assert(self.domain_up_to(self.entries.len() as int) =~= self@.dom());
        }
        self.entries.len()
    }

    /// Whether a federation has a client.
    pub fn contains_key(&self, id: &String) -> (r: bool)
        ensures
            r == self@.contains_key(id@),
    {
        self.position(id).is_some()
    }

    /// The client of a federation, if it has one.
    pub fn get(&self, id: &String) -> (r: Option<&C>)
        ensures
            r == (if self@.contains_key(id@) {
                Some(&self@[id@])
            } else {
                None
            }),
    {
        proof {
            use_type_invariant(self);
        }
        match self.position(id) {
            Some(i) => {
                proof {
                    self.lemma_entry(i as int);
                }
                Some(&self.entries[i].client)
            },
            None => None,
        }
    }

    /// Puts a client under the id of its federation, in place of the client
    /// that was there, which is handed back.
    pub fn insert(&mut self, id: String, client: C) -> (r: Option<C>)
        ensures
            final(self)@ == old(self)@.insert(id@, client),
            r == (if old(self)@.contains_key(id@) {
                Some(old(self)@[id@])
            } else {
                None
            }),
    {
        proof {
            use_type_invariant(&*self);
        }
        let ghost before = *self;
        let found = self.position(&id);
        let mut entries = Vec::new();
        std::mem::swap(&mut entries, &mut self.entries);
        let r = match found {
            Some(i) => {
                proof {
                    before.lemma_entry(i as int);
                }
                Some(entries.swap_remove(i).client)
            },
            None => None,
        };
        let ghost rest = entries@;
        entries.push(Entry { id, client });
        let ghost n = rest.len() as int;
        proof {
            // Every entry but the new one was there before, under another id:
            // where an entry left, the last one has taken its place.
            assert forall|k: int| 0 <= k < n implies entries[k].id@ != id@ && exists|m: int|
                before.at(m, entries[k].id@) && before.entries[m] == entries[k] by {
                if found is Some && k == found->0 {
                    assert(before.at(before.entries.len() - 1, entries[k].id@));
                } else {
                    assert(before.at(k, entries[k].id@));
                }
            }
            assert forall|i: int, j: int| 0 <= i < j < entries.len() implies entries[i].id@
                != entries[j].id@ by {
                if j < n {
                    let a = choose|m: int|
                        before.at(m, entries[i].id@) && before.entries[m] == entries[i];
                    let b = choose|m: int|
                        before.at(m, entries[j].id@) && before.entries[m] == entries[j];
                    if found is Some {
                        assert(a != b);
                    }
                }
            }
        }
        self.entries = entries;
        proof {
            // The same federations have clients as before, and the new one.
            assert forall|key: Seq<char>| #[trigger]
                self@.contains_key(key) <==> before@.insert(id@, client).contains_key(key) by {
                if before@.contains_key(key) && key != id@ {
                    let m = choose|m: int| before.at(m, key);
                    if found is Some && m == before.entries.len() - 1 {
                        assert(self.at(found->0 as int, key));
                    } else {
                        assert(self.at(m, key));
                    }
                }
                if key == id@ {
                    assert(self.at(n, key));
                }
                if self@.contains_key(key) && key != id@ {
                    let k = choose|k: int| self.at(k, key);
                    let m = choose|m: int|
                        before.at(m, self.entries[k].id@) && before.entries[m] == self.entries[k];
                    assert(before.at(m, key));
                }
            }
            // Each has the client that it had, but for the new one.
            assert forall|key: Seq<char>| #[trigger] self@.contains_key(key) implies self@[key]
                == before@.insert(id@, client)[key] by {
                let k = choose|k: int| self.at(k, key);
                self.lemma_entry(k);
                if k < n {
                    let m = choose|m: int|
                        before.at(m, self.entries[k].id@) && before.entries[m] == self.entries[k];
                    before.lemma_entry(m);
                }
            }
            assert(self@ =~= before@.insert(id@, client));
        }
        r
    }

    /// The ids of the entries before a place.
    spec fn domain_up_to(self, n: int) -> Set<Seq<char>> {
        Set::new(|id: Seq<char>| exists|i: int| 0 <= i < n && self.at(i, id))
    }

    /// The entries before a place have as many ids as they are.
    proof fn lemma_len(self, n: int)
        requires
            self.distinct(),
            0 <= n <= self.entries.len(),
        ensures
            self.domain_up_to(n).finite(),
            self.domain_up_to(n).len() == n,
        decreases n,
    {
        if n == 0 {
            assert(self.domain_up_to(0) =~= Set::<Seq<char>>::empty());
        } else {
            self.lemma_len(n - 1);
            let last = self.entries[n - 1].id@;
            assert(self.at(n - 1, last));
            assert(self.domain_up_to(n) =~= self.domain_up_to(n - 1).insert(last));
            assert(!self.domain_up_to(n - 1).contains(last));
        }
    }

    /// The entry of a federation is the one that the registry holds for it.
    proof fn lemma_entry(self, i: int)
        requires
            self.distinct(),
            0 <= i < self.entries.len(),
        ensures
            self@.contains_key(self.entries[i].id@),
            self@[self.entries[i].id@] == self.entries[i].client,
    {
        let id = self.entries[i].id@;
        assert(self.at(i, id));
        let k = choose|k: int| self.at(k, id);
        assert(k == i);
    }
}

impl<C> View for FederationRegistry<C> {
    type V = Map<Seq<char>, C>;

    /// The client of each federation that has one.
    closed spec fn view(&self) -> Map<Seq<char>, C> {
        Map::new(
            |id: Seq<char>| exists|i: int| self.at(i, id),
            |id: Seq<char>| self.entries[choose|i: int| self.at(i, id)].client,
        )
    }
}

} // verus!
