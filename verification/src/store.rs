//! The safety state store: the system of record for one analysis run. It
//! maps each type identifier to its current [`SafetyRecord`], holds at most
//! one record per identifier, and treats a later insertion for the same
//! identifier as an overwrite.

use vstd::prelude::*;
use crate::identifier::{clone_identifiers, IdView, TypeIdentifier};
use crate::resolve::StoreView;
use crate::verdict::{RecordView, SafetyRecord, Verdict};
use vstd::pervasive::VecAdditionalExecFns;

verus! {

/// Checks whether declared foreign types are safe to represent by value.
/// For instance, a struct containing a struct containing a self-referential
/// string is not, because copying it would leave a dangling internal
/// pointer. Built by seeding the known-type table, feeding in the declared
/// catalog, and then confirming the requested identifiers.
#[derive(Debug)]
pub struct ByValueChecker {
    entries: Vec<(TypeIdentifier, SafetyRecord)>,
}

/// The store a sequence of entries folds to, later entries overwriting
/// earlier ones for the same identifier.
pub open spec fn store_map(s: Seq<(TypeIdentifier, SafetyRecord)>) -> StoreView
    decreases s.len(),
{
    if s.len() == 0 {
        Map::empty()
    } else {
        store_map(s.drop_last()).insert(s.last().0@, s.last().1@)
    }
}

/// No two entries name the same identifier.
pub open spec fn keys_unique(s: Seq<(TypeIdentifier, SafetyRecord)>) -> bool {
    forall|i: int, j: int| 0 <= i < j < s.len() ==> s[i].0@ != s[j].0@
}

pub proof fn lemma_store_map_finite(s: Seq<(TypeIdentifier, SafetyRecord)>)
    ensures
        store_map(s).dom().finite(),
    decreases s.len(),
{
    if s.len() > 0 {
        lemma_store_map_finite(s.drop_last());
    }
}

/// The folded store holds a key exactly when some entry names it.
pub proof fn lemma_store_map_contains(s: Seq<(TypeIdentifier, SafetyRecord)>, k: IdView)
    ensures
        store_map(s).contains_key(k) <==> exists|i: int| 0 <= i < s.len() && s[i].0@ == k,
    decreases s.len(),
{
    if s.len() > 0 {
        lemma_store_map_contains(s.drop_last(), k);
        if s.last().0@ == k {
            assert(s[s.len() - 1].0@ == k);
        } else {
            if store_map(s).contains_key(k) {
                let i = choose|i: int| 0 <= i < s.drop_last().len() && s.drop_last()[i].0@ == k;
                assert(s[i].0@ == k);
            }
            if exists|i: int| 0 <= i < s.len() && s[i].0@ == k {
                let i = choose|i: int| 0 <= i < s.len() && s[i].0@ == k;
                assert(s.drop_last()[i].0@ == k);
            }
        }
    }
}

/// With unique keys, the folded store returns each entry's own record.
pub proof fn lemma_store_map_get(s: Seq<(TypeIdentifier, SafetyRecord)>, i: int)
    requires
        keys_unique(s),
        0 <= i < s.len(),
    ensures
        store_map(s).contains_key(s[i].0@),
        store_map(s)[s[i].0@] == s[i].1@,
    decreases s.len(),
{
    if i < s.len() - 1 {
        assert(keys_unique(s.drop_last()));
        lemma_store_map_get(s.drop_last(), i);
        assert(s.last().0@ != s[i].0@);
    }
}

/// Replacing the record at one position, keeping its key, folds to a plain
/// map update.
pub proof fn lemma_store_map_update(
    s: Seq<(TypeIdentifier, SafetyRecord)>,
    i: int,
    p: (TypeIdentifier, SafetyRecord),
)
    requires
        keys_unique(s),
        0 <= i < s.len(),
        p.0@ == s[i].0@,
    ensures
        keys_unique(s.update(i, p)),
        store_map(s.update(i, p)) == store_map(s).insert(p.0@, p.1@),
    decreases s.len(),
{
    let t = s.update(i, p);
    assert forall|x: int, y: int| 0 <= x < y < t.len() implies t[x].0@ != t[y].0@ by {
        assert(s[x].0@ != s[y].0@);
    }
    if i == s.len() - 1 {
        assert(t.drop_last() =~= s.drop_last());
        assert(t.last() == p);
        assert(store_map(t) =~= store_map(s).insert(p.0@, p.1@));
    } else {
        assert(keys_unique(s.drop_last()));
        lemma_store_map_update(s.drop_last(), i, p);
        assert(t.drop_last() =~= s.drop_last().update(i, p));
        assert(t.last() == s.last());
        assert(s.last().0@ != p.0@);
        assert(store_map(t) =~= store_map(s).insert(p.0@, p.1@));
    }
}

impl View for ByValueChecker {
    type V = StoreView;

    closed spec fn view(&self) -> StoreView {
        store_map(self.entries@)
    }
}

impl ByValueChecker {
    /// The store keeps at most one record per identifier.
    pub closed spec fn wf(&self) -> bool {
        keys_unique(self.entries@)
    }

    /// A well-formed store holds finitely many records.
    pub proof fn lemma_finite(&self)
        ensures
            self@.dom().finite(),
    {
        lemma_store_map_finite(self.entries@);
    }

    /// An empty store, before even the known-type table is seeded.
    pub fn empty() -> (r: Self)
        ensures
            r.wf(),
            r@ == Map::<IdView, RecordView>::empty(),
    {
        let r = ByValueChecker { entries: Vec::new() };
        proof {
            assert(r@ =~= Map::<IdView, RecordView>::empty());
        }
        r
    }

    fn find_index(&self, id: &TypeIdentifier) -> (r: Option<usize>)
        ensures
            match r {
                Option::Some(i) => i < self.entries@.len() && self.entries@[i as int].0@ == id@,
                Option::None => forall|j: int|
                    0 <= j < self.entries@.len() ==> self.entries@[j].0@ != id@,
            },
    {
        let n = self.entries.len();
        let mut i: usize = 0;
        while i < n
            invariant
                n == self.entries@.len(),
                i <= n,
                forall|j: int| 0 <= j < i ==> self.entries@[j].0@ != id@,
            decreases n - i,
        {
            if self.entries[i].0.same_path(id) {
                return Option::Some(i);
            }
            i += 1;
        }
        Option::None
    }

    /// Whether the store holds a record for the identifier.
    pub fn contains(&self, id: &TypeIdentifier) -> (r: bool)
        ensures
            r == self@.contains_key(id@),
    {
        proof {
            lemma_store_map_contains(self.entries@, id@);
        }
        match self.find_index(id) {
            Option::Some(_) => true,
            Option::None => false,
        }
    }

    /// The current verdict recorded for the identifier, if any.
    pub fn verdict_of(&self, id: &TypeIdentifier) -> (r: Option<&Verdict>)
        requires
            self.wf(),
        ensures
            match r {
                Option::Some(v) => self@.contains_key(id@) && v@ == self@[id@].verdict,
                Option::None => !self@.contains_key(id@),
            },
    {
        proof {
            lemma_store_map_contains(self.entries@, id@);
        }
        match self.find_index(id) {
            Option::Some(i) => {
                proof {
                    lemma_store_map_get(self.entries@, i as int);
                }
                Option::Some(&self.entries[i].1.verdict)
            },
            Option::None => Option::None,
        }
    }

    /// The dependencies recorded for the identifier, copied out.
    pub fn dependencies_of(&self, id: &TypeIdentifier) -> (r: Vec<TypeIdentifier>)
        requires
            self.wf(),
            self@.contains_key(id@),
        ensures
            r.deep_view() == self@[id@].dependencies,
    {
        proof {
            lemma_store_map_contains(self.entries@, id@);
        }
        match self.find_index(id) {
            Option::Some(i) => {
                proof {
                    lemma_store_map_get(self.entries@, i as int);
                }
                clone_identifiers(&self.entries[i].1.dependencies)
            },
            Option::None => {
                proof {
                    assert(false);
                }
                Vec::new()
            },
        }
    }

    /// Records a verdict for the identifier, creating the record or
    /// overwriting the one already there — later declarations win.
    pub fn insert_record(&mut self, id: TypeIdentifier, record: SafetyRecord)
        requires
            old(self).wf(),
        ensures
            final(self).wf(),
            final(self)@ == old(self)@.insert(id@, record@),
    {
        proof {
            lemma_store_map_contains(self.entries@, id@);
        }
        match self.find_index(&id) {
            Option::Some(i) => {
                proof {
                    lemma_store_map_update(self.entries@, i as int, (id, record));
                }
                self.entries.set(i, (id, record));
            },
            Option::None => {
                proof {
                    let s = self.entries@.push((id, record));
                    assert(s.drop_last() =~= self.entries@);
                    assert(keys_unique(s));
                }
                self.entries.push((id, record));
            },
        }
    }

    /// Rewrites the identifier's verdict in place, keeping its recorded
    /// dependencies.
    pub fn set_verdict(&mut self, id: &TypeIdentifier, v: Verdict)
        requires
            old(self).wf(),
            old(self)@.contains_key(id@),
        ensures
            final(self).wf(),
            final(self)@ == old(self)@.insert(
                id@,
                RecordView { verdict: v@, dependencies: old(self)@[id@].dependencies },
            ),
    {
        proof {
            lemma_store_map_contains(self.entries@, id@);
        }
        match self.find_index(id) {
            Option::Some(i) => {
                proof {
                    lemma_store_map_get(self.entries@, i as int);
                }
                let key = self.entries[i].0.clone();
                let deps = clone_identifiers(&self.entries[i].1.dependencies);
                let record = SafetyRecord { verdict: v, dependencies: deps };
                proof {
                    lemma_store_map_update(self.entries@, i as int, (key, record));
                }
                self.entries.set(i, (key, record));
            },
            Option::None => {
                proof {
                    assert(false);
                }
            },
        }
    }

    /// Whether the identifier may be represented by value: true exactly when
    /// the store holds a record whose verdict is `Confirmed`. Absent,
    /// tentative, unsafe and unresolved-alias records all answer no —
    /// "unconfirmed" is indistinguishable from "unsafe" to callers.
    pub fn is_pod(&self, ty_id: &TypeIdentifier) -> (r: bool)
        requires
            self.wf(),
        ensures
            r == (self@.contains_key(ty_id@) && self@[ty_id@].verdict is Confirmed),
    {
        match self.verdict_of(ty_id) {
            Option::Some(v) => match v {
                Verdict::Confirmed => true,
                _ => false,
            },
            Option::None => false,
        }
    }
}

} // verus!
