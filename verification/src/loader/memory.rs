//! Decision content held in memory, by key. The caller guards a loader
//! shared between threads with a lock.

use vstd::prelude::*;
use vstd::string::*;
use crate::text::str_eq;

verus! {

broadcast use vstd::std_specs::vec::group_vec_axioms;

/// The content under `key` among the first `n` entries (the last entry with
/// that key; keys are kept distinct).
pub open spec fn spec_lookup<D>(entries: Seq<(Seq<char>, D)>, key: Seq<char>, n: nat) -> Option<D>
    decreases n,
{
    if n == 0 || n > entries.len() {
        None
    } else if entries[n - 1].0 == key {
        Some(entries[n - 1].1)
    } else {
        spec_lookup(entries, key, (n - 1) as nat)
    }
}

/// No key occurs twice among the first `n` entries.
pub open spec fn spec_keys_distinct<D>(es: Seq<(Seq<char>, D)>, n: nat) -> bool {
    forall|i: int, j: int| 0 <= i < j < n ==> #[trigger] es[i].0 != #[trigger] es[j].0
}

/// With distinct keys, the lookup finds the entry under the key, if any.
proof fn lemma_lookup_finds<D>(es: Seq<(Seq<char>, D)>, k: Seq<char>, n: nat)
    requires
        n <= es.len(),
        spec_keys_distinct(es, n),
    ensures
        forall|j: int| 0 <= j < n && #[trigger] es[j].0 == k ==> spec_lookup(es, k, n) == Some(es[j].1),
        (forall|j: int| 0 <= j < n ==> #[trigger] es[j].0 != k) ==> spec_lookup(es, k, n) is None,
    decreases n,
{
    if n > 0 {
        lemma_lookup_finds(es, k, (n - 1) as nat);
    }
}

/// Content under keys, kept in memory.
pub struct MemoryLoader<D> {
    entries: Vec<(String, D)>,
}

impl<D> MemoryLoader<D> {
    /// The entries, keys by their text.
    pub closed spec fn entries_view(&self) -> Seq<(Seq<char>, D)> {
        self.entries@.map_values(|e: (String, D)| (e.0@, e.1))
    }

    /// The content under `key`, if any.
    pub open spec fn spec_get(&self, key: Seq<char>) -> Option<D> {
        spec_lookup(self.entries_view(), key, self.entries_view().len())
    }

    #[verifier::type_invariant]
    spec fn keys_distinct(self) -> bool {
        spec_keys_distinct(self.entries_view(), self.entries_view().len())
    }

    /// An empty loader.
    pub fn new() -> (r: Self)
        ensures
            forall|k: Seq<char>| #[trigger] r.spec_get(k) is None,
    {
        let r = MemoryLoader { entries: Vec::new() };
        assert(r.entries_view() =~= Seq::empty());
        r
    }

    /// The position of the entry under `key`.
    fn position(&self, key: &str) -> (r: Option<usize>)
        ensures
            match r {
                Some(i) => i < self.entries@.len() && self.entries_view()[i as int].0 == key@,
                None => forall|i: int|
                    0 <= i < self.entries@.len() ==> #[trigger] self.entries_view()[i].0 != key@,
            },
    {
        let n = self.entries.len();
        let mut i: usize = 0;
        while i < n
            invariant
                n == self.entries@.len(),
                i <= n,
                forall|j: int| 0 <= j < i ==> #[trigger] self.entries_view()[j].0 != key@,
            decreases n - i,
        {
            assert(self.entries_view()[i as int].0 == self.entries@[i as int].0@);
            if str_eq(self.entries[i].0.as_str(), key) {
                return Some(i);
            }
            i = i + 1;
        }
        None
    }

    /// The content under `key`, if any.
    pub fn get(&self, key: &str) -> (r: Option<&D>)
        ensures
            match r {
                Some(d) => self.spec_get(key@) == Some(*d),
                None => self.spec_get(key@) is None,
            },
    {
        proof {
            use_type_invariant(self);
            lemma_lookup_finds(self.entries_view(), key@, self.entries_view().len());
        }
        match self.position(key) {
            Some(i) => Some(&self.entries[i].1),
            None => None,
        }
    }

    /// Stores `content` under `key`, replacing what was there.
    pub fn add(&mut self, key: String, content: D)
        ensures
            forall|k: Seq<char>|
                #[trigger] final(self).spec_get(k) == if k == key@ {
                    Some(content)
                } else {
                    old(self).spec_get(k)
                },
    {
        proof {
            use_type_invariant(&*self);
        }
        let ghost old_view = self.entries_view();
        let ghost key_view = key@;
        let found = self.position(key.as_str());
        let mut entries: Vec<(String, D)> = Vec::new();
        std::mem::swap(&mut entries, &mut self.entries);
        let ghost new_view;
        match found {
            Some(i) => {
                entries.set(i, (key, content));
                proof {
                    new_view = entries@.map_values(|e: (String, D)| (e.0@, e.1));
                    assert(new_view =~= old_view.update(i as int, (key_view, content)));
                }
            },
            None => {
                entries.push((key, content));
                proof {
                    new_view = entries@.map_values(|e: (String, D)| (e.0@, e.1));
                    assert(new_view =~= old_view.push((key_view, content)));
                }
            },
        }
        proof {
            assert(spec_keys_distinct(new_view, new_view.len()));
            lemma_lookup_finds(old_view, key_view, old_view.len());
            lemma_lookup_finds(new_view, key_view, new_view.len());
            assert forall|k: Seq<char>|
                spec_lookup(new_view, k, new_view.len()) == if k == key_view {
                    Some(content)
                } else {
                    spec_lookup(old_view, k, old_view.len())
                } by {
                lemma_lookup_finds(old_view, k, old_view.len());
                lemma_lookup_finds(new_view, k, new_view.len());
                if k != key_view {
                    if exists|j: int| 0 <= j < old_view.len() && old_view[j].0 == k {
                        let j = choose|j: int| 0 <= j < old_view.len() && old_view[j].0 == k;
                        assert(new_view[j] == old_view[j]);
                    } else {
                        assert forall|j: int| 0 <= j < new_view.len() implies #[trigger] new_view[j].0
                            != k by {
                            if j < old_view.len() && (found is None || j != found->Some_0) {
                                assert(new_view[j] == old_view[j]);
                            }
                        }
                    }
                } else {
                    match found {
                        Some(i) => assert(new_view[i as int].0 == k),
                        None => assert(new_view[old_view.len() as int].0 == k),
                    }
                }
            }
        }
        self.entries = entries;
    }

    /// Removes the content under `key`; whether there was any.
    pub fn remove(&mut self, key: &str) -> (r: bool)
        ensures
            r == old(self).spec_get(key@) is Some,
            forall|k: Seq<char>|
                #[trigger] final(self).spec_get(k) == if k == key@ {
                    None
                } else {
                    old(self).spec_get(k)
                },
    {
        proof {
            use_type_invariant(&*self);
        }
        let ghost old_view = self.entries_view();
        proof {
            lemma_lookup_finds(old_view, key@, old_view.len());
        }
        match self.position(key) {
            None => false,
            Some(i) => {
                let mut entries: Vec<(String, D)> = Vec::new();
                std::mem::swap(&mut entries, &mut self.entries);
                let _ = entries.remove(i);
                let ghost new_view = entries@.map_values(|e: (String, D)| (e.0@, e.1));
                proof {
                    assert(new_view =~= old_view.remove(i as int));
                    assert(spec_keys_distinct(new_view, new_view.len()));
                    assert forall|k: Seq<char>|
                        spec_lookup(new_view, k, new_view.len()) == if k == key@ {
                            None
                        } else {
                            spec_lookup(old_view, k, old_view.len())
                        } by {
                        lemma_lookup_finds(old_view, k, old_view.len());
                        lemma_lookup_finds(new_view, k, new_view.len());
                        if k != key@ {
                            if exists|j: int| 0 <= j < old_view.len() && old_view[j].0 == k {
                                let j = choose|j: int| 0 <= j < old_view.len() && old_view[j].0 == k;
                                if j < i {
                                    assert(new_view[j] == old_view[j]);
                                } else {
                                    assert(new_view[j - 1] == old_view[j]);
                                }
                            } else {
                                assert forall|j: int| 0 <= j < new_view.len() implies #[trigger] new_view[j].0
                                    != k by {
                                    if j < i {
                                        assert(new_view[j] == old_view[j]);
                                    } else {
                                        assert(new_view[j] == old_view[j + 1]);
                                    }
                                }
                            }
                        } else {
                            assert forall|j: int| 0 <= j < new_view.len() implies #[trigger] new_view[j].0
                                != k by {
                                if j < i {
                                    assert(new_view[j] == old_view[j]);
                                } else {
                                    assert(new_view[j] == old_view[j + 1]);
                                }
                            }
                        }
                    }
                }
                self.entries = entries;
                true
            },
        }
    }
}

} // verus!
