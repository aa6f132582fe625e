//! The scratch store: a short-lived map from flat string keys to
//! serialized values, used by cross-session signing for its ephemeral
//! artifacts, with explicit deletes and no expiry.

use vstd::prelude::*;

verus! {

/// One stored binding of the scratch store.
#[derive(Debug, Clone)]
pub struct ScratchEntry {
    pub key: String,
    pub value: String,
}

/// No two bindings share a key.
pub open spec fn scratch_unique(s: Seq<ScratchEntry>) -> bool {
    forall|i: int, j: int| 0 <= i < j < s.len() ==> s[i].key@ != s[j].key@
}

/// The map a sequence of bindings denotes; a later binding wins.
pub open spec fn scratch_map(s: Seq<ScratchEntry>) -> Map<Seq<char>, Seq<char>>
    decreases s.len(),
{
    if s.len() == 0 {
        Map::empty()
    } else {
        scratch_map(s.drop_last()).insert(s.last().key@, s.last().value@)
    }
}

/// A key is in the map exactly when some binding carries it.
proof fn lemma_scratch_contains(s: Seq<ScratchEntry>)
    ensures
        forall|k: Seq<char>| #[trigger]
            scratch_map(s).contains_key(k) <==> exists|i: int| 0 <= i < s.len() && s[i].key@ == k,
    decreases s.len(),
{
    if s.len() == 0 {
    } else {
        lemma_scratch_contains(s.drop_last());
        assert forall|k: Seq<char>| #[trigger]
            scratch_map(s).contains_key(k) <==> exists|i: int|
                0 <= i < s.len() && s[i].key@ == k by {
            if scratch_map(s).contains_key(k) {
                if k == s.last().key@ {
                    let w = s.len() - 1;
                    assert(0 <= w < s.len() && s[w].key@ == k);
                } else {
                    assert(scratch_map(s) == scratch_map(s.drop_last()).insert(
                        s.last().key@,
                        s.last().value@,
                    ));
                    assert(scratch_map(s.drop_last()).contains_key(k));
                    let w = choose|i: int| 0 <= i < s.drop_last().len() && s.drop_last()[i].key@ == k;
                    assert(s.drop_last()[w] == s[w]);
                    assert(0 <= w < s.len() && s[w].key@ == k);
                }
            }
            if exists|i: int| 0 <= i < s.len() && s[i].key@ == k {
                let w = choose|i: int| 0 <= i < s.len() && s[i].key@ == k;
                if w == s.len() - 1 {
                    assert(scratch_map(s).contains_key(k));
                } else {
                    assert(s.drop_last()[w] == s[w]);
                    assert(scratch_map(s.drop_last()).contains_key(k));
                }
            }
        }
    }
}

/// With unique keys, the binding at `i` gives the map's value at its key.
proof fn lemma_scratch_value(s: Seq<ScratchEntry>, i: int)
    requires
        scratch_unique(s),
        0 <= i < s.len(),
    ensures
        scratch_map(s).contains_key(s[i].key@),
        scratch_map(s)[s[i].key@] == s[i].value@,
    decreases s.len(),
{
    if i == s.len() - 1 {
    } else {
        assert(scratch_unique(s.drop_last())) by {
            assert forall|p: int, q: int|
                0 <= p < q < s.drop_last().len() implies s.drop_last()[p].key@ != s.drop_last()[q].key@ by {
                assert(s.drop_last()[p] == s[p]);
                assert(s.drop_last()[q] == s[q]);
            }
        }
        assert(s.drop_last()[i] == s[i]);
        lemma_scratch_value(s.drop_last(), i);
        assert(s[i].key@ != s[s.len() - 1].key@);
    }
}

/// Removing the binding at `i` removes exactly its key from the map.
proof fn lemma_scratch_remove(s: Seq<ScratchEntry>, i: int)
    requires
        scratch_unique(s),
        0 <= i < s.len(),
    ensures
        scratch_map(s.remove(i)) == scratch_map(s).remove(s[i].key@),
        scratch_unique(s.remove(i)),
    decreases s.len(),
{
    assert forall|p: int, q: int|
        0 <= p < q < s.remove(i).len() implies s.remove(i)[p].key@ != s.remove(i)[q].key@ by {
        assert(s.remove(i)[p] == if p < i {
            s[p]
        } else {
            s[p + 1]
        });
        assert(s.remove(i)[q] == if q < i {
            s[q]
        } else {
            s[q + 1]
        });
    }
    if i == s.len() - 1 {
        assert(s.remove(i) =~= s.drop_last());
        lemma_scratch_contains(s.drop_last());
        assert(!scratch_map(s.drop_last()).contains_key(s[i].key@)) by {
            if scratch_map(s.drop_last()).contains_key(s[i].key@) {
                let w = choose|j: int|
                    0 <= j < s.drop_last().len() && s.drop_last()[j].key@ == s[i].key@;
                assert(s.drop_last()[w] == s[w]);
            }
        }
        assert(scratch_map(s).remove(s[i].key@) =~= scratch_map(s.drop_last()));
    } else {
        let dl = s.drop_last();
        assert(scratch_unique(dl)) by {
            assert forall|p: int, q: int|
                0 <= p < q < dl.len() implies dl[p].key@ != dl[q].key@ by {
                assert(dl[p] == s[p]);
                assert(dl[q] == s[q]);
            }
        }
        assert(dl[i] == s[i]);
        lemma_scratch_remove(dl, i);
        assert(s.remove(i).drop_last() =~= dl.remove(i));
        assert(s.remove(i).last() == s.last());
        assert(scratch_map(s.remove(i)) == scratch_map(dl.remove(i)).insert(
            s.last().key@,
            s.last().value@,
        ));
        assert(s[i].key@ != s.last().key@);
        assert(scratch_map(dl).remove(s[i].key@).insert(s.last().key@, s.last().value@)
            =~= scratch_map(dl).insert(s.last().key@, s.last().value@).remove(s[i].key@));
    }
}

/// Appending a binding inserts its key into the map.
proof fn lemma_scratch_push(s: Seq<ScratchEntry>, e: ScratchEntry)
    ensures
        scratch_map(s.push(e)) == scratch_map(s).insert(e.key@, e.value@),
{
    assert(s.push(e).drop_last() =~= s);
    assert(s.push(e).last() == e);
}

/// The scratch store.
pub struct ScratchStore {
    entries: Vec<ScratchEntry>,
}

impl View for ScratchStore {
    type V = Map<Seq<char>, Seq<char>>;

    closed spec fn view(&self) -> Map<Seq<char>, Seq<char>> {
        scratch_map(self.entries@)
    }
}

impl ScratchStore {
    /// Internal shape of the store: keys are unique.
    pub closed spec fn wf(&self) -> bool {
        scratch_unique(self.entries@)
    }

    /// An empty store.
    pub fn new() -> (r: ScratchStore)
        ensures
            r.wf(),
            r@ == Map::<Seq<char>, Seq<char>>::empty(),
    {
        ScratchStore { entries: Vec::new() }
    }

    /// Fetches the value stored under `key`.
    pub fn get(&self, key: &String) -> (r: Option<&String>)
        requires
            self.wf(),
        ensures
            match r {
                Some(v) => self@.contains_key(key@) && v@ == self@[key@],
                None => !self@.contains_key(key@),
            },
    {
        let n = self.entries.len();
        let mut i: usize = 0;
        while i < n
            invariant
                self.wf(),
                n == self.entries@.len(),
                0 <= i <= n,
                forall|j: int| 0 <= j < i ==> self.entries@[j].key@ != key@,
            decreases n - i,
        {
            let e = &self.entries[i];
            if e.key == *key {
                proof {
                    lemma_scratch_value(self.entries@, i as int);
                }
                return Some(&self.entries[i].value);
            }
            i += 1;
        }
        proof {
            lemma_scratch_contains(self.entries@);
            if self@.contains_key(key@) {
                let w = choose|j: int| 0 <= j < self.entries@.len() && self.entries@[j].key@ == key@;
            }
        }
        None
    }

    /// Deletes the binding under `key`, if any; deleting a missing key is
    /// not an error.
    pub fn del(&mut self, key: &String)
        requires
            old(self).wf(),
        ensures
            final(self).wf(),
            final(self)@ == old(self)@.remove(key@),
    {
        let n = self.entries.len();
        let mut i: usize = 0;
        while i < n
            invariant
                self.wf(),
                *self == *old(self),
                n == self.entries@.len(),
                0 <= i <= n,
                forall|j: int| 0 <= j < i ==> self.entries@[j].key@ != key@,
            decreases n - i,
        {
            let e = &self.entries[i];
            if e.key == *key {
                proof {
                    lemma_scratch_remove(self.entries@, i as int);
                }
                self.entries.remove(i);
                return ;
            }
            i += 1;
        }
        proof {
            lemma_scratch_contains(self.entries@);
            if self@.contains_key(key@) {
                let w = choose|j: int| 0 <= j < self.entries@.len() && self.entries@[j].key@ == key@;
            }
            assert(self@.remove(key@) =~= self@);
        }
    }

    /// Writes `value` under `key`, overwriting any earlier value.
    pub fn set(&mut self, key: &String, value: &String)
        requires
            old(self).wf(),
        ensures
            final(self).wf(),
            final(self)@ == old(self)@.insert(key@, value@),
    {
        self.del(key);
        let ghost mid = self.entries@;
        let e = ScratchEntry { key: key.clone(), value: value.clone() };
        let ghost ge = e;
        proof {
            lemma_scratch_push(mid, ge);
        }
        self.entries.push(e);
        proof {
            lemma_scratch_contains(mid);
            assert forall|p: int, q: int|
                0 <= p < q < self.entries@.len() implies self.entries@[p].key@
                != self.entries@[q].key@ by {
                if q == self.entries@.len() - 1 {
                    assert(self.entries@[p] == mid[p]);
                    if mid[p].key@ == key@ {
                        assert(scratch_map(mid).contains_key(key@));
                    }
                } else {
                    assert(self.entries@[p] == mid[p]);
                    assert(self.entries@[q] == mid[q]);
                }
            }
            assert(old(self)@.remove(key@).insert(key@, ge.value@) =~= old(self)@.insert(
                key@,
                ge.value@,
            ));
        }
    }
}

} // verus!
