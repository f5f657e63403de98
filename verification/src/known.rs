//! The known-type table: static seed facts about the by-value safety of
//! primitive and standard foreign types. Seeding has no failure modes; an
//! entry is either confirmed outright or recorded unsafe with its reason.

use vstd::prelude::*;
use crate::identifier::{IdView, TypeIdentifier};
use crate::ingest::unsafe_record;
use crate::resolve::StoreView;
use crate::store::ByValueChecker;
use crate::verdict::{ReasonView, RecordView, SafetyRecord, UnsafeReason, Verdict, VerdictView};

verus! {

/// An identifier in the root namespace, as the seed table writes them.
pub open spec fn root_id(name: Seq<char>) -> IdView {
    IdView { namespace: Seq::empty(), name }
}

/// The record one seed pair produces.
pub open spec fn seed_record(ty: IdView, by_value_safe: bool) -> RecordView {
    if by_value_safe {
        RecordView { verdict: VerdictView::Confirmed, dependencies: Seq::empty() }
    } else {
        unsafe_record(ReasonView::NotByValueSafe { ty })
    }
}

/// The compiled-in seed: each known type's identifier and whether it is safe
/// to hold by value. Plain integer and boolean types are; a unique-ownership
/// smart pointer is, since moving it cannot dangle; an owning string of the
/// foreign standard library is not, because it may hold a self-referential
/// internal pointer.
pub open spec fn seed_pairs() -> Seq<(IdView, bool)> {
    seq![
        (root_id("bool"@), true),
        (root_id("u8"@), true),
        (root_id("u16"@), true),
        (root_id("u32"@), true),
        (root_id("u64"@), true),
        (root_id("usize"@), true),
        (root_id("i8"@), true),
        (root_id("i16"@), true),
        (root_id("i32"@), true),
        (root_id("i64"@), true),
        (root_id("isize"@), true),
        (root_id("c_int"@), true),
        (root_id("c_uint"@), true),
        (root_id("UniquePtr"@), true),
        (root_id("CxxString"@), false),
    ]
}

/// The store the seed folds to, in table order.
pub open spec fn seeded(pairs: Seq<(IdView, bool)>) -> StoreView
    decreases pairs.len(),
{
    if pairs.len() == 0 {
        Map::empty()
    } else {
        seeded(pairs.drop_last()).insert(
            pairs.last().0,
            seed_record(pairs.last().0, pairs.last().1),
        )
    }
}

/// One more seed pair folds to one more insertion.
pub proof fn lemma_seeded_step(pairs: Seq<(IdView, bool)>, k: int)
    requires
        0 < k <= pairs.len(),
    ensures
        seeded(pairs.take(k)) == seeded(pairs.take(k - 1)).insert(
            pairs[k - 1].0,
            seed_record(pairs[k - 1].0, pairs[k - 1].1),
        ),
{
    assert(pairs.take(k).drop_last() =~= pairs.take(k - 1));
    assert(pairs.take(k).last() == pairs[k - 1]);
}

impl ByValueChecker {
    fn seed_entry(&mut self, name: &str, by_value_safe: bool)
        requires
            old(self).wf(),
        ensures
            final(self).wf(),
            final(self)@ == old(self)@.insert(
                root_id(name@),
                seed_record(root_id(name@), by_value_safe),
            ),
    {
        let id = TypeIdentifier::root(name.to_owned());
        let record = if by_value_safe {
            SafetyRecord::new(Verdict::Confirmed)
        } else {
            let reason = UnsafeReason::NotByValueSafe { ty: id.clone() };
            SafetyRecord::new(Verdict::Unsafe { reason })
        };
        self.insert_record(id, record);
    }

    /// A checker seeded with the known-type table and nothing else: every
    /// pair marked safe is already confirmed, every other pair is recorded
    /// unsafe, and no other identifier has a record.
    pub fn new() -> (r: Self)
        ensures
            r.wf(),
            r@ == seeded(seed_pairs()),
    {
        let mut checker = ByValueChecker::empty();
        proof {
            assert(seed_pairs().take(0) =~= Seq::<(IdView, bool)>::empty());
            assert(checker@ =~= seeded(seed_pairs().take(0)));
        }
        checker.seed_entry("bool", true);
        proof {
            lemma_seeded_step(seed_pairs(), 1);
        }
        checker.seed_entry("u8", true);
        proof {
            lemma_seeded_step(seed_pairs(), 2);
        }
        checker.seed_entry("u16", true);
        proof {
            lemma_seeded_step(seed_pairs(), 3);
        }
        checker.seed_entry("u32", true);
        proof {
            lemma_seeded_step(seed_pairs(), 4);
        }
        checker.seed_entry("u64", true);
        proof {
            lemma_seeded_step(seed_pairs(), 5);
        }
        checker.seed_entry("usize", true);
        proof {
            lemma_seeded_step(seed_pairs(), 6);
        }
        checker.seed_entry("i8", true);
        proof {
            lemma_seeded_step(seed_pairs(), 7);
        }
        checker.seed_entry("i16", true);
        proof {
            lemma_seeded_step(seed_pairs(), 8);
        }
        checker.seed_entry("i32", true);
        proof {
            lemma_seeded_step(seed_pairs(), 9);
        }
        checker.seed_entry("i64", true);
        proof {
            lemma_seeded_step(seed_pairs(), 10);
        }
        checker.seed_entry("isize", true);
        proof {
            lemma_seeded_step(seed_pairs(), 11);
        }
        checker.seed_entry("c_int", true);
        proof {
            lemma_seeded_step(seed_pairs(), 12);
        }
        checker.seed_entry("c_uint", true);
        proof {
            lemma_seeded_step(seed_pairs(), 13);
        }
        checker.seed_entry("UniquePtr", true);
        proof {
            lemma_seeded_step(seed_pairs(), 14);
        }
        checker.seed_entry("CxxString", false);
        proof {
            lemma_seeded_step(seed_pairs(), 15);
            assert(seed_pairs().take(15) =~= seed_pairs());
        }
        checker
    }
}

} // verus!
