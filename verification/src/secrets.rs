//! The secret lookup table: built once at startup from the files of a
//! directory, read-only afterwards. Keys are file names, values the trimmed
//! file contents.

use crate::text::{str_eq, trim, trim_of};
use vstd::prelude::*;

verus! {

/// A read-only table from secret keys to secret values.
pub struct SecretStore {
    pub pairs: Vec<(String, String)>,
}

/// No entry before position `i` carries the same key as the entry at `i`.
pub open spec fn first_occurrence(entries: Seq<(String, String)>, i: int) -> bool {
    forall|j: int| 0 <= j < i ==> (#[trigger] entries[j]).0@ != entries[i].0@
}

impl SecretStore {
    /// Well-formed: no key occurs twice.
    pub open spec fn wf(&self) -> bool {
        forall|i: int, j: int|
            0 <= i < j < self.pairs@.len() ==> (#[trigger] self.pairs@[i]).0@ != (
            #[trigger] self.pairs@[j]).0@
    }

    /// Whether the store holds a value under `k`.
    pub open spec fn spec_contains(&self, k: Seq<char>) -> bool {
        exists|i: int| 0 <= i < self.pairs@.len() && (#[trigger] self.pairs@[i]).0@ == k
    }

    /// The value the store holds under `k`.
    pub open spec fn spec_value(&self, k: Seq<char>) -> Seq<char> {
        self.pairs@[choose|i: int|
            0 <= i < self.pairs@.len() && (#[trigger] self.pairs@[i]).0@ == k].1@
    }

    pub open spec fn spec_len(&self) -> nat {
        self.pairs@.len()
    }

    /// An empty store.
    pub fn new() -> (s: Self)
        ensures
            s.wf(),
            s.spec_len() == 0,
            forall|k: Seq<char>| !s.spec_contains(k),
    {
        SecretStore { pairs: Vec::new() }
    }

    /// How many secrets the store holds.
    pub fn len(&self) -> (n: usize)
        ensures
            n == self.spec_len(),
    {
        self.pairs.len()
    }

    /// Looks `key` up: the stored value when the key is present, nothing
    /// when it is not.
    pub fn get(&self, key: &str) -> (r: Option<&String>)
        requires
            self.wf(),
        ensures
            match r {
                Option::Some(v) => self.spec_contains(key@) && v@ == self.spec_value(key@),
                Option::None => !self.spec_contains(key@),
            },
    {
        let mut i: usize = 0;
        while i < self.pairs.len()
            invariant
                i <= self.pairs@.len(),
                self.wf(),
                forall|j: int| 0 <= j < i ==> (#[trigger] self.pairs@[j]).0@ != key@,
            decreases self.pairs@.len() - i,
        {
            let p = &self.pairs[i];
            if str_eq(p.0.as_str(), key) {
                proof {
                    self.lemma_value_at(i as int);
                }
                return Some(&self.pairs[i].1);
            }
            i += 1;
        }
        None
    }

    /// In a well-formed store, the value under the key of the entry at `i`
    /// is that entry's own value.
    proof fn lemma_value_at(&self, i: int)
        requires
            self.wf(),
            0 <= i < self.pairs@.len(),
        ensures
            self.spec_contains(self.pairs@[i].0@),
            self.spec_value(self.pairs@[i].0@) == self.pairs@[i].1@,
    {
        let k = self.pairs@[i].0@;
        assert(self.spec_contains(k));
        let w = choose|j: int| 0 <= j < self.pairs@.len() && (#[trigger] self.pairs@[j]).0@ == k;
        if w < i {
            assert(self.pairs@[w].0@ != self.pairs@[i].0@);
        } else if i < w {
            assert(self.pairs@[i].0@ != self.pairs@[w].0@);
        }
    }

    /// Builds the store from (file name, raw content) pairs: each value is
    /// trimmed, and of entries sharing a key the first wins (file names of
    /// one directory are distinct, so that case does not arise there).
    pub fn from_entries(entries: &Vec<(String, String)>) -> (s: Self)
        ensures
            s.wf(),
            forall|k: Seq<char>|
                #[trigger] s.spec_contains(k) <==> exists|i: int|
                    0 <= i < entries@.len() && (#[trigger] entries@[i]).0@ == k,
            forall|i: int|
                0 <= i < entries@.len() && first_occurrence(entries@, i) ==> s.spec_value(
                    (#[trigger] entries@[i]).0@,
                ) == trim_of(entries@[i].1@),
    {
        let mut s = SecretStore { pairs: Vec::new() };
        let mut i: usize = 0;
        while i < entries.len()
            invariant
                i <= entries@.len(),
                s.wf(),
                forall|k: Seq<char>|
                    #[trigger] s.spec_contains(k) <==> exists|j: int|
                        0 <= j < i && (#[trigger] entries@[j]).0@ == k,
                forall|j: int|
                    0 <= j < i && first_occurrence(entries@, j) ==> s.spec_value(
                        (#[trigger] entries@[j]).0@,
                    ) == trim_of(entries@[j].1@),
            decreases entries@.len() - i,
        {
            let key = &entries[i].0;
            let already = match s.get(key.as_str()) {
                Option::Some(_) => true,
                Option::None => false,
            };
            if already {
                proof {
                    let k = entries@[i as int].0@;
                    assert(s.spec_contains(k));
                    let j0 = choose|j: int| 0 <= j < i && (#[trigger] entries@[j]).0@ == k;
                    assert(!first_occurrence(entries@, i as int));
                    assert forall|k2: Seq<char>| #[trigger] s.spec_contains(k2) <==> exists|j: int|
                        0 <= j < i + 1 && (#[trigger] entries@[j]).0@ == k2 by {
                        if exists|j: int| 0 <= j < i + 1 && (#[trigger] entries@[j]).0@ == k2 {
                            let j1 = choose|j: int|
                                0 <= j < i + 1 && (#[trigger] entries@[j]).0@ == k2;
                            if j1 == i {
                                assert(k2 == k);
                            }
                        }
                    }
                }
            } else {
                let ghost olds = s;
                let v = trim(entries[i].1.as_str());
                let kc = key.clone();
                s.pairs.push((kc, v));
                proof {
                    let ii = i as int;
                    let n = olds.pairs@.len() as int;
                    let newkey = entries@[ii].0@;
                    assert(s.pairs@ =~= olds.pairs@.push((kc, v)));
                    assert forall|p: int| 0 <= p < n implies olds.pairs@[p].0@ != newkey by {
                        if olds.pairs@[p].0@ == newkey {
                            assert(olds.spec_contains(newkey));
                        }
                    }
                    assert forall|a: int, b: int| 0 <= a < b < s.pairs@.len() implies (
                    #[trigger] s.pairs@[a]).0@ != (#[trigger] s.pairs@[b]).0@ by {
                        if b < n {
                            assert(olds.pairs@[a].0@ != olds.pairs@[b].0@);
                        } else {
                            assert(s.pairs@[b].0@ == newkey);
                        }
                    }
                    // the key of position i occurs here first
                    assert forall|j: int| 0 <= j < ii implies (#[trigger] entries@[j]).0@
                        != newkey by {
                        if entries@[j].0@ == newkey {
                            assert(olds.spec_contains(newkey));
                        }
                    }
                    assert(first_occurrence(entries@, ii));
                    assert forall|k2: Seq<char>| #[trigger] s.spec_contains(k2) <==> exists|j: int|
                        0 <= j < i + 1 && (#[trigger] entries@[j]).0@ == k2 by {
                        if s.spec_contains(k2) {
                            let p = choose|p: int|
                                0 <= p < s.pairs@.len() && (#[trigger] s.pairs@[p]).0@ == k2;
                            if p < n {
                                assert(olds.spec_contains(k2));
                            } else {
                                assert(entries@[ii].0@ == k2);
                            }
                        }
                        if exists|j: int| 0 <= j < i + 1 && (#[trigger] entries@[j]).0@ == k2 {
                            let j1 = choose|j: int|
                                0 <= j < i + 1 && (#[trigger] entries@[j]).0@ == k2;
                            if j1 < ii {
                                assert(olds.spec_contains(k2));
                                let p = choose|p: int|
                                    0 <= p < olds.pairs@.len() && (#[trigger] olds.pairs@[p]).0@
                                        == k2;
                                assert(s.pairs@[p].0@ == k2);
                            } else {
                                assert(s.pairs@[n].0@ == k2);
                            }
                        }
                    }
                    assert forall|j: int|
                        0 <= j < i + 1 && first_occurrence(entries@, j) implies s.spec_value(
                        (#[trigger] entries@[j]).0@,
                    ) == trim_of(entries@[j].1@) by {
                        if j == ii {
                            s.lemma_value_at(n);
                            assert(s.pairs@[n].0@ == newkey);
                            assert(s.pairs@[n].1@ == trim_of(entries@[ii].1@));
                        } else {
                            let k2 = entries@[j].0@;
                            assert(olds.spec_contains(k2));
                            let p = choose|p: int|
                                0 <= p < olds.pairs@.len() && (#[trigger] olds.pairs@[p]).0@ == k2;
                            assert(olds.spec_value(k2) == olds.pairs@[p].1@) by {
                                olds.lemma_value_at(p);
                            }
                            assert(s.pairs@[p].0@ == k2);
                            s.lemma_value_at(p);
                        }
                    }
                }
            }
            i += 1;
        }
        s
    }
}

} // verus!
