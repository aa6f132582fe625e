//! The typed session store: a durable map from `(customer_id, session_id,
//! tag)` to one artifact, with the tag-to-type binding as an invariant.

use vstd::prelude::*;

use crate::artifact::{Artifact, ArtifactModel, artifact_matches};
use crate::errors::{required_error, required_error_spec};
use crate::types::EcdsaStruct;

verus! {

/// One stored binding of the session store.
#[derive(Debug, Clone)]
pub struct SessionEntry {
    pub customer_id: String,
    pub id: String,
    pub tag: EcdsaStruct,
    pub value: Artifact,
}

/// The model key of a stored binding.
pub open spec fn entry_key(e: SessionEntry) -> (Seq<char>, Seq<char>, EcdsaStruct) {
    (e.customer_id@, e.id@, e.tag)
}

/// No two bindings share a key.
pub open spec fn unique_keys(s: Seq<SessionEntry>) -> bool {
    forall|i: int, j: int| 0 <= i < j < s.len() ==> entry_key(s[i]) != entry_key(s[j])
}

/// Every binding obeys the tag-to-type binding.
pub open spec fn entries_ok(s: Seq<SessionEntry>) -> bool {
    forall|i: int| 0 <= i < s.len() ==> artifact_matches(s[i].tag, s[i].value@)
}

/// The map a sequence of bindings denotes; a later binding wins.
pub open spec fn entries_map(s: Seq<SessionEntry>) -> Map<
    (Seq<char>, Seq<char>, EcdsaStruct),
    ArtifactModel,
>
    decreases s.len(),
{
    if s.len() == 0 {
        Map::empty()
    } else {
        entries_map(s.drop_last()).insert(entry_key(s.last()), s.last().value@)
    }
}

/// A key is in the map exactly when some binding carries it.
proof fn lemma_entries_map_contains(s: Seq<SessionEntry>)
    ensures
        forall|k: (Seq<char>, Seq<char>, EcdsaStruct)| #[trigger]
            entries_map(s).contains_key(k) <==> exists|i: int|
                0 <= i < s.len() && entry_key(s[i]) == k,
    decreases s.len(),
{
    if s.len() == 0 {
    } else {
        lemma_entries_map_contains(s.drop_last());
        assert forall|k: (Seq<char>, Seq<char>, EcdsaStruct)| #[trigger]
            entries_map(s).contains_key(k) <==> exists|i: int|
                0 <= i < s.len() && entry_key(s[i]) == k by {
            if entries_map(s).contains_key(k) {
                if k == entry_key(s.last()) {
                    let w = s.len() - 1;
                    assert(0 <= w < s.len() && entry_key(s[w]) == k);
                } else {
                    assert(entries_map(s) == entries_map(s.drop_last()).insert(
                        entry_key(s.last()),
                        s.last().value@,
                    ));
                    assert(entries_map(s.drop_last()).contains_key(k));
                    assert(exists|i: int|
                        0 <= i < s.drop_last().len() && entry_key(s.drop_last()[i]) == k);
                    let w = choose|i: int|
                        0 <= i < s.drop_last().len() && entry_key(s.drop_last()[i]) == k;
                    assert(s.drop_last()[w] == s[w]);
                    assert(0 <= w < s.len() && entry_key(s[w]) == k);
                }
            }
            if exists|i: int| 0 <= i < s.len() && entry_key(s[i]) == k {
                let w = choose|i: int| 0 <= i < s.len() && entry_key(s[i]) == k;
                if w == s.len() - 1 {
                    assert(entries_map(s).contains_key(k));
                } else {
                    assert(s.drop_last()[w] == s[w]);
                    assert(entries_map(s.drop_last()).contains_key(k));
                }
            }
        }
    }
}

/// With unique keys, the binding at `i` gives the map's value at its key.
proof fn lemma_entries_map_value(s: Seq<SessionEntry>, i: int)
    requires
        unique_keys(s),
        0 <= i < s.len(),
    ensures
        entries_map(s).contains_key(entry_key(s[i])),
        entries_map(s)[entry_key(s[i])] == s[i].value@,
    decreases s.len(),
{
    if i == s.len() - 1 {
    } else {
        assert(unique_keys(s.drop_last())) by {
            assert forall|p: int, q: int|
                0 <= p < q < s.drop_last().len() implies entry_key(s.drop_last()[p]) != entry_key(
                s.drop_last()[q],
            ) by {
                assert(s.drop_last()[p] == s[p]);
                assert(s.drop_last()[q] == s[q]);
            }
        }
        assert(s.drop_last()[i] == s[i]);
        lemma_entries_map_value(s.drop_last(), i);
        assert(entry_key(s[i]) != entry_key(s[s.len() - 1]));
    }
}

/// Removing the binding at `i` removes exactly its key from the map.
proof fn lemma_entries_map_remove(s: Seq<SessionEntry>, i: int)
    requires
        unique_keys(s),
        0 <= i < s.len(),
    ensures
        entries_map(s.remove(i)) == entries_map(s).remove(entry_key(s[i])),
        unique_keys(s.remove(i)),
        entries_ok(s) ==> entries_ok(s.remove(i)),
    decreases s.len(),
{
    assert forall|p: int, q: int|
        0 <= p < q < s.remove(i).len() implies entry_key(s.remove(i)[p]) != entry_key(
        s.remove(i)[q],
    ) by {
        assert(s.remove(i)[p] == if p < i {
            s[p]
        } else {
            s[p + 1]
        });
        assert(s.remove(i)[q] == if q < i {
            s[q]
        } else {
            s[q + 1]
        });
    }
    if entries_ok(s) {
        assert forall|p: int| 0 <= p < s.remove(i).len() implies artifact_matches(
            s.remove(i)[p].tag,
            s.remove(i)[p].value@,
        ) by {
            assert(s.remove(i)[p] == if p < i {
                s[p]
            } else {
                s[p + 1]
            });
        }
    }
    if i == s.len() - 1 {
        assert(s.remove(i) =~= s.drop_last());
        lemma_entries_map_contains(s.drop_last());
        assert(!entries_map(s.drop_last()).contains_key(entry_key(s[i]))) by {
            if entries_map(s.drop_last()).contains_key(entry_key(s[i])) {
                let w = choose|j: int|
                    0 <= j < s.drop_last().len() && entry_key(s.drop_last()[j]) == entry_key(s[i]);
                assert(s.drop_last()[w] == s[w]);
            }
        }
        assert(entries_map(s).remove(entry_key(s[i])) =~= entries_map(s.drop_last()));
    } else {
        let dl = s.drop_last();
        assert(unique_keys(dl)) by {
            assert forall|p: int, q: int|
                0 <= p < q < dl.len() implies entry_key(dl[p]) != entry_key(dl[q]) by {
                assert(dl[p] == s[p]);
                assert(dl[q] == s[q]);
            }
        }
        assert(dl[i] == s[i]);
        lemma_entries_map_remove(dl, i);
        assert(s.remove(i).drop_last() =~= dl.remove(i));
        assert(s.remove(i).last() == s.last());
        assert(entries_map(s.remove(i)) == entries_map(dl.remove(i)).insert(
            entry_key(s.last()),
            s.last().value@,
        ));
        assert(entry_key(s[i]) != entry_key(s.last()));
        assert(entries_map(dl).remove(entry_key(s[i])).insert(entry_key(s.last()), s.last().value@)
            =~= entries_map(dl).insert(entry_key(s.last()), s.last().value@).remove(
            entry_key(s[i]),
        ));
    }
}

/// Appending a binding inserts its key into the map.
proof fn lemma_entries_map_push(s: Seq<SessionEntry>, e: SessionEntry)
    ensures
        entries_map(s.push(e)) == entries_map(s).insert(entry_key(e), e.value@),
{
    assert(s.push(e).drop_last() =~= s);
    assert(s.push(e).last() == e);
}

/// Whether the customer has any persisted master-key share.
pub open spec fn has_active_share_spec(
    m: Map<(Seq<char>, Seq<char>, EcdsaStruct), ArtifactModel>,
    customer_id: Seq<char>,
) -> bool {
    exists|id: Seq<char>| m.contains_key((customer_id, id, EcdsaStruct::Party1MasterKey))
}

/// Whether the session carries a taint marker that is set.
pub open spec fn abort_blocked_spec(
    m: Map<(Seq<char>, Seq<char>, EcdsaStruct), ArtifactModel>,
    customer_id: Seq<char>,
    id: Seq<char>,
) -> bool {
    &&& m.contains_key((customer_id, id, EcdsaStruct::Abort))
    &&& m[(customer_id, id, EcdsaStruct::Abort)] matches ArtifactModel::Abort { blocked }
        && blocked
}

/// The typed session store.
pub struct SessionStore {
    entries: Vec<SessionEntry>,
}

impl View for SessionStore {
    type V = Map<(Seq<char>, Seq<char>, EcdsaStruct), ArtifactModel>;

    closed spec fn view(&self) -> Map<(Seq<char>, Seq<char>, EcdsaStruct), ArtifactModel> {
        entries_map(self.entries@)
    }
}

impl SessionStore {
    /// Internal shape of the store: slot keys are unique and every slot
    /// obeys the tag-to-type binding.
    pub closed spec fn wf(&self) -> bool {
        unique_keys(self.entries@) && entries_ok(self.entries@)
    }

    /// The binding invariant at the model level: a slot fetched under a
    /// tag always holds the kind of value bound to that tag, so a cast
    /// failure on a well-formed store is impossible.
    pub proof fn lemma_typed(&self)
        requires
            self.wf(),
        ensures
            forall|k: (Seq<char>, Seq<char>, EcdsaStruct)| #[trigger]
                self@.contains_key(k) ==> artifact_matches(k.2, self@[k]),
    {
        lemma_entries_map_contains(self.entries@);
        assert forall|k: (Seq<char>, Seq<char>, EcdsaStruct)| #[trigger]
            self@.contains_key(k) implies artifact_matches(k.2, self@[k]) by {
            let w = choose|i: int|
                0 <= i < self.entries@.len() && entry_key(self.entries@[i]) == k;
            lemma_entries_map_value(self.entries@, w);
        }
    }

    /// An empty store.
    pub fn new() -> (r: SessionStore)
        ensures
            r.wf(),
            r@ == Map::<(Seq<char>, Seq<char>, EcdsaStruct), ArtifactModel>::empty(),
    {
        SessionStore { entries: Vec::new() }
    }

    /// Fetches the artifact stored under `(customer_id, id, tag)`;
    /// missing is distinct from any error.
    pub fn get(&self, customer_id: &String, id: &String, tag: &EcdsaStruct) -> (r: Option<
        &Artifact,
    >)
        requires
            self.wf(),
        ensures
            match r {
                Some(a) => self@.contains_key((customer_id@, id@, *tag)) && a@ == self@[(
                    customer_id@,
                    id@,
                    *tag,
                )],
                None => !self@.contains_key((customer_id@, id@, *tag)),
            },
    {
        let ghost k = (customer_id@, id@, *tag);
        let n = self.entries.len();
        let mut i: usize = 0;
        while i < n
            invariant
                self.wf(),
                k == (customer_id@, id@, *tag),
                n == self.entries@.len(),
                0 <= i <= n,
                forall|j: int| 0 <= j < i ==> entry_key(self.entries@[j]) != k,
            decreases n - i,
        {
            let e = &self.entries[i];
            if e.customer_id == *customer_id && e.id == *id && e.tag == *tag {
                proof {
                    assert(entry_key(self.entries@[i as int]) == k);
                    lemma_entries_map_value(self.entries@, i as int);
                }
                return Some(&self.entries[i].value);
            }
            i += 1;
        }
        proof {
            lemma_entries_map_contains(self.entries@);
            if self@.contains_key(k) {
                let w = choose|j: int|
                    0 <= j < self.entries@.len() && entry_key(self.entries@[j]) == k;
            }
        }
        None
    }

    /// Fetches the artifact an earlier round must have persisted, or
    /// reports the missing-precondition error.
    pub fn get_required(&self, customer_id: &String, id: &String, tag: &EcdsaStruct) -> (r: Result<
        &Artifact,
        String,
    >)
        requires
            self.wf(),
        ensures
            match r {
                Ok(a) => self@.contains_key((customer_id@, id@, *tag)) && a@ == self@[(
                    customer_id@,
                    id@,
                    *tag,
                )],
                Err(e) => !self@.contains_key((customer_id@, id@, *tag)) && e@
                    == required_error_spec(*tag, customer_id@, id@),
            },
    {
        match self.get(customer_id, id, tag) {
            Some(a) => Ok(a),
            None => Err(required_error(tag, customer_id, id)),
        }
    }

    /// Removes the binding under `(customer_id, id, tag)`, if any.
    fn remove_key(&mut self, customer_id: &String, id: &String, tag: &EcdsaStruct)
        requires
            old(self).wf(),
        ensures
            final(self).wf(),
            final(self)@ == old(self)@.remove((customer_id@, id@, *tag)),
    {
        let ghost k = (customer_id@, id@, *tag);
        let n = self.entries.len();
        let mut i: usize = 0;
        while i < n
            invariant
                self.wf(),
                *self == *old(self),
                k == (customer_id@, id@, *tag),
                n == self.entries@.len(),
                0 <= i <= n,
                forall|j: int| 0 <= j < i ==> entry_key(self.entries@[j]) != k,
            decreases n - i,
        {
            let e = &self.entries[i];
            if e.customer_id == *customer_id && e.id == *id && e.tag == *tag {
                proof {
                    assert(entry_key(self.entries@[i as int]) == k);
                    lemma_entries_map_remove(self.entries@, i as int);
                }
                self.entries.remove(i);
                return ;
            }
            i += 1;
        }
        proof {
            lemma_entries_map_contains(self.entries@);
            if self@.contains_key(k) {
                let w = choose|j: int|
                    0 <= j < self.entries@.len() && entry_key(self.entries@[j]) == k;
            }
            assert(self@.remove(k) =~= self@);
        }
    }

    /// Writes `value` under `(customer_id, id, tag)`, overwriting any
    /// earlier value of the slot: last write wins.
    pub fn put(&mut self, customer_id: &String, id: &String, tag: &EcdsaStruct, value: Artifact)
        requires
            old(self).wf(),
            artifact_matches(*tag, value@),
        ensures
            final(self).wf(),
            final(self)@ == old(self)@.insert((customer_id@, id@, *tag), value@),
    {
        let ghost k = (customer_id@, id@, *tag);
        self.remove_key(customer_id, id, tag);
        let ghost mid = self.entries@;
        let e = SessionEntry { customer_id: customer_id.clone(), id: id.clone(), tag: *tag, value };
        let ghost ge = e;
        proof {
            assert(entry_key(ge) == k);
            lemma_entries_map_push(mid, ge);
        }
        self.entries.push(e);
        proof {
            lemma_entries_map_contains(mid);
            assert forall|p: int, q: int|
                0 <= p < q < self.entries@.len() implies entry_key(self.entries@[p]) != entry_key(
                self.entries@[q],
            ) by {
                if q == self.entries@.len() - 1 {
                    assert(self.entries@[p] == mid[p]);
                    if entry_key(mid[p]) == k {
                        assert(entries_map(mid).contains_key(k));
                    }
                } else {
                    assert(self.entries@[p] == mid[p]);
                    assert(self.entries@[q] == mid[q]);
                }
            }
            assert(entries_ok(self.entries@)) by {
                assert forall|p: int| 0 <= p < self.entries@.len() implies artifact_matches(
                    self.entries@[p].tag,
                    self.entries@[p].value@,
                ) by {
                    if p < self.entries@.len() - 1 {
                        assert(self.entries@[p] == mid[p]);
                    }
                }
            }
            assert(old(self)@.remove(k).insert(k, ge.value@) =~= old(self)@.insert(k, ge.value@));
        }
    }

    /// Whether the customer has any persisted master-key share, in any
    /// of their sessions.
    pub fn has_active_share(&self, customer_id: &String) -> (r: bool)
        requires
            self.wf(),
        ensures
            r == has_active_share_spec(self@, customer_id@),
    {
        let n = self.entries.len();
        let mut i: usize = 0;
        while i < n
            invariant
                self.wf(),
                n == self.entries@.len(),
                0 <= i <= n,
                forall|j: int|
                    0 <= j < i ==> !(self.entries@[j].customer_id@ == customer_id@
                        && self.entries@[j].tag == EcdsaStruct::Party1MasterKey),
            decreases n - i,
        {
            let e = &self.entries[i];
            if e.customer_id == *customer_id && e.tag == EcdsaStruct::Party1MasterKey {
                proof {
                    lemma_entries_map_value(self.entries@, i as int);
                    assert(self@.contains_key(
                        (customer_id@, self.entries@[i as int].id@, EcdsaStruct::Party1MasterKey),
                    ));
                }
                return true;
            }
            i += 1;
        }
        proof {
            lemma_entries_map_contains(self.entries@);
            if has_active_share_spec(self@, customer_id@) {
                let id = choose|id: Seq<char>|
                    self@.contains_key((customer_id@, id, EcdsaStruct::Party1MasterKey));
                let w = choose|j: int|
                    0 <= j < self.entries@.len() && entry_key(self.entries@[j]) == (
                    customer_id@,
                    id,
                    EcdsaStruct::Party1MasterKey,
                );
            }
        }
        false
    }

    /// Whether the session is tainted; a missing taint marker counts as
    /// not blocked.
    pub fn is_blocked(&self, customer_id: &String, id: &String) -> (r: bool)
        requires
            self.wf(),
        ensures
            r == abort_blocked_spec(self@, customer_id@, id@),
    {
        match self.get(customer_id, id, &EcdsaStruct::Abort) {
            Some(a) => match a {
                Artifact::Abort(ab) => ab.blocked,
                _ => {
                    proof {
                        self.lemma_typed();
                        assert(false);
                    }
                    false
                },
            },
            None => false,
        }
    }
}

} // verus!
