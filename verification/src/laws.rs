//! The properties the library states of itself, proved once and for all:
//! what seeding guarantees, what a successful confirmation run guarantees
//! for the requested identifiers and their transitive dependencies, when a
//! run fails and with which reason, and that confirmation is idempotent on
//! confirmed identifiers.

use vstd::prelude::*;
use crate::identifier::IdView;
use crate::known::{lemma_seeded_step, root_id, seed_pairs, seed_record, seeded};
use crate::resolve::{
    lemma_run_frame, lemma_run_ok_dep_settled, lemma_run_ok_settles, missing_declaration,
    run_confirm, settled, Outcome, StoreView,
};
use crate::verdict::{ReasonView, RecordView, VerdictView};

verus! {

/// Every entry of the known-type table stands in the freshly seeded store
/// under its own verdict. A safe entry is `Confirmed` from the start, so
/// the confirmed-safe query answers true for it straight away; the unsafe
/// entry records why it may never be held by value.
#[verifier::rlimit(60)]
pub proof fn lemma_seed_verdicts()
    ensures
        seeded(seed_pairs()).contains_key(root_id("bool"@)),
        seeded(seed_pairs())[root_id("bool"@)] == seed_record(root_id("bool"@), true),
        seeded(seed_pairs()).contains_key(root_id("u8"@)),
        seeded(seed_pairs())[root_id("u8"@)] == seed_record(root_id("u8"@), true),
        seeded(seed_pairs()).contains_key(root_id("u16"@)),
        seeded(seed_pairs())[root_id("u16"@)] == seed_record(root_id("u16"@), true),
        seeded(seed_pairs()).contains_key(root_id("u32"@)),
        seeded(seed_pairs())[root_id("u32"@)] == seed_record(root_id("u32"@), true),
        seeded(seed_pairs()).contains_key(root_id("u64"@)),
        seeded(seed_pairs())[root_id("u64"@)] == seed_record(root_id("u64"@), true),
        seeded(seed_pairs()).contains_key(root_id("usize"@)),
        seeded(seed_pairs())[root_id("usize"@)] == seed_record(root_id("usize"@), true),
        seeded(seed_pairs()).contains_key(root_id("i8"@)),
        seeded(seed_pairs())[root_id("i8"@)] == seed_record(root_id("i8"@), true),
        seeded(seed_pairs()).contains_key(root_id("i16"@)),
        seeded(seed_pairs())[root_id("i16"@)] == seed_record(root_id("i16"@), true),
        seeded(seed_pairs()).contains_key(root_id("i32"@)),
        seeded(seed_pairs())[root_id("i32"@)] == seed_record(root_id("i32"@), true),
        seeded(seed_pairs()).contains_key(root_id("i64"@)),
        seeded(seed_pairs())[root_id("i64"@)] == seed_record(root_id("i64"@), true),
        seeded(seed_pairs()).contains_key(root_id("isize"@)),
        seeded(seed_pairs())[root_id("isize"@)] == seed_record(root_id("isize"@), true),
        seeded(seed_pairs()).contains_key(root_id("c_int"@)),
        seeded(seed_pairs())[root_id("c_int"@)] == seed_record(root_id("c_int"@), true),
        seeded(seed_pairs()).contains_key(root_id("c_uint"@)),
        seeded(seed_pairs())[root_id("c_uint"@)] == seed_record(root_id("c_uint"@), true),
        seeded(seed_pairs()).contains_key(root_id("UniquePtr"@)),
        seeded(seed_pairs())[root_id("UniquePtr"@)] == seed_record(root_id("UniquePtr"@), true),
        seeded(seed_pairs()).contains_key(root_id("CxxString"@)),
        seeded(seed_pairs())[root_id("CxxString"@)] == seed_record(root_id("CxxString"@), false),
{
    reveal_strlit("bool");
    reveal_strlit("u8");
    reveal_strlit("u16");
    reveal_strlit("u32");
    reveal_strlit("u64");
    reveal_strlit("usize");
    reveal_strlit("i8");
    reveal_strlit("i16");
    reveal_strlit("i32");
    reveal_strlit("i64");
    reveal_strlit("isize");
    reveal_strlit("c_int");
    reveal_strlit("c_uint");
    reveal_strlit("UniquePtr");
    reveal_strlit("CxxString");
    assert("bool"@.len() != "u8"@.len());
    assert("bool"@ != "u8"@);
    assert("bool"@.len() != "u16"@.len());
    assert("bool"@ != "u16"@);
    assert("bool"@.len() != "u32"@.len());
    assert("bool"@ != "u32"@);
    assert("bool"@.len() != "u64"@.len());
    assert("bool"@ != "u64"@);
    assert("bool"@.len() != "usize"@.len());
    assert("bool"@ != "usize"@);
    assert("bool"@.len() != "i8"@.len());
    assert("bool"@ != "i8"@);
    assert("bool"@.len() != "i16"@.len());
    assert("bool"@ != "i16"@);
    assert("bool"@.len() != "i32"@.len());
    assert("bool"@ != "i32"@);
    assert("bool"@.len() != "i64"@.len());
    assert("bool"@ != "i64"@);
    assert("bool"@.len() != "isize"@.len());
    assert("bool"@ != "isize"@);
    assert("bool"@.len() != "c_int"@.len());
    assert("bool"@ != "c_int"@);
    assert("bool"@.len() != "c_uint"@.len());
    assert("bool"@ != "c_uint"@);
    assert("bool"@.len() != "UniquePtr"@.len());
    assert("bool"@ != "UniquePtr"@);
    assert("bool"@.len() != "CxxString"@.len());
    assert("bool"@ != "CxxString"@);
    assert("u8"@.len() != "u16"@.len());
    assert("u8"@ != "u16"@);
    assert("u8"@.len() != "u32"@.len());
    assert("u8"@ != "u32"@);
    assert("u8"@.len() != "u64"@.len());
    assert("u8"@ != "u64"@);
    assert("u8"@.len() != "usize"@.len());
    assert("u8"@ != "usize"@);
    assert("u8"@[0] != "i8"@[0]);
    assert("u8"@ != "i8"@);
    assert("u8"@.len() != "i16"@.len());
    assert("u8"@ != "i16"@);
    assert("u8"@.len() != "i32"@.len());
    assert("u8"@ != "i32"@);
    assert("u8"@.len() != "i64"@.len());
    assert("u8"@ != "i64"@);
    assert("u8"@.len() != "isize"@.len());
    assert("u8"@ != "isize"@);
    assert("u8"@.len() != "c_int"@.len());
    assert("u8"@ != "c_int"@);
    assert("u8"@.len() != "c_uint"@.len());
    assert("u8"@ != "c_uint"@);
    assert("u8"@.len() != "UniquePtr"@.len());
    assert("u8"@ != "UniquePtr"@);
    assert("u8"@.len() != "CxxString"@.len());
    assert("u8"@ != "CxxString"@);
    assert("u16"@[1] != "u32"@[1]);
    assert("u16"@ != "u32"@);
    assert("u16"@[1] != "u64"@[1]);
    assert("u16"@ != "u64"@);
    assert("u16"@.len() != "usize"@.len());
    assert("u16"@ != "usize"@);
    assert("u16"@.len() != "i8"@.len());
    assert("u16"@ != "i8"@);
    assert("u16"@[0] != "i16"@[0]);
    assert("u16"@ != "i16"@);
    assert("u16"@[0] != "i32"@[0]);
    assert("u16"@ != "i32"@);
    assert("u16"@[0] != "i64"@[0]);
    assert("u16"@ != "i64"@);
    assert("u16"@.len() != "isize"@.len());
    assert("u16"@ != "isize"@);
    assert("u16"@.len() != "c_int"@.len());
    assert("u16"@ != "c_int"@);
    assert("u16"@.len() != "c_uint"@.len());
    assert("u16"@ != "c_uint"@);
    assert("u16"@.len() != "UniquePtr"@.len());
    assert("u16"@ != "UniquePtr"@);
    assert("u16"@.len() != "CxxString"@.len());
    assert("u16"@ != "CxxString"@);
    assert("u32"@[1] != "u64"@[1]);
    assert("u32"@ != "u64"@);
    assert("u32"@.len() != "usize"@.len());
    assert("u32"@ != "usize"@);
    assert("u32"@.len() != "i8"@.len());
    assert("u32"@ != "i8"@);
    assert("u32"@[0] != "i16"@[0]);
    assert("u32"@ != "i16"@);
    assert("u32"@[0] != "i32"@[0]);
    assert("u32"@ != "i32"@);
    assert("u32"@[0] != "i64"@[0]);
    assert("u32"@ != "i64"@);
    assert("u32"@.len() != "isize"@.len());
    assert("u32"@ != "isize"@);
    assert("u32"@.len() != "c_int"@.len());
    assert("u32"@ != "c_int"@);
    assert("u32"@.len() != "c_uint"@.len());
    assert("u32"@ != "c_uint"@);
    assert("u32"@.len() != "UniquePtr"@.len());
    assert("u32"@ != "UniquePtr"@);
    assert("u32"@.len() != "CxxString"@.len());
    assert("u32"@ != "CxxString"@);
    assert("u64"@.len() != "usize"@.len());
    assert("u64"@ != "usize"@);
    assert("u64"@.len() != "i8"@.len());
    assert("u64"@ != "i8"@);
    assert("u64"@[0] != "i16"@[0]);
    assert("u64"@ != "i16"@);
    assert("u64"@[0] != "i32"@[0]);
    assert("u64"@ != "i32"@);
    assert("u64"@[0] != "i64"@[0]);
    assert("u64"@ != "i64"@);
    assert("u64"@.len() != "isize"@.len());
    assert("u64"@ != "isize"@);
    assert("u64"@.len() != "c_int"@.len());
    assert("u64"@ != "c_int"@);
    assert("u64"@.len() != "c_uint"@.len());
    assert("u64"@ != "c_uint"@);
    assert("u64"@.len() != "UniquePtr"@.len());
    assert("u64"@ != "UniquePtr"@);
    assert("u64"@.len() != "CxxString"@.len());
    assert("u64"@ != "CxxString"@);
    assert("usize"@.len() != "i8"@.len());
    assert("usize"@ != "i8"@);
    assert("usize"@.len() != "i16"@.len());
    assert("usize"@ != "i16"@);
    assert("usize"@.len() != "i32"@.len());
    assert("usize"@ != "i32"@);
    assert("usize"@.len() != "i64"@.len());
    assert("usize"@ != "i64"@);
    assert("usize"@[0] != "isize"@[0]);
    assert("usize"@ != "isize"@);
    assert("usize"@[0] != "c_int"@[0]);
    assert("usize"@ != "c_int"@);
    assert("usize"@.len() != "c_uint"@.len());
    assert("usize"@ != "c_uint"@);
    assert("usize"@.len() != "UniquePtr"@.len());
    assert("usize"@ != "UniquePtr"@);
    assert("usize"@.len() != "CxxString"@.len());
    assert("usize"@ != "CxxString"@);
    assert("i8"@.len() != "i16"@.len());
    assert("i8"@ != "i16"@);
    assert("i8"@.len() != "i32"@.len());
    assert("i8"@ != "i32"@);
    assert("i8"@.len() != "i64"@.len());
    assert("i8"@ != "i64"@);
    assert("i8"@.len() != "isize"@.len());
    assert("i8"@ != "isize"@);
    assert("i8"@.len() != "c_int"@.len());
    assert("i8"@ != "c_int"@);
    assert("i8"@.len() != "c_uint"@.len());
    assert("i8"@ != "c_uint"@);
    assert("i8"@.len() != "UniquePtr"@.len());
    assert("i8"@ != "UniquePtr"@);
    assert("i8"@.len() != "CxxString"@.len());
    assert("i8"@ != "CxxString"@);
    assert("i16"@[1] != "i32"@[1]);
    assert("i16"@ != "i32"@);
    assert("i16"@[1] != "i64"@[1]);
    assert("i16"@ != "i64"@);
    assert("i16"@.len() != "isize"@.len());
    assert("i16"@ != "isize"@);
    assert("i16"@.len() != "c_int"@.len());
    assert("i16"@ != "c_int"@);
    assert("i16"@.len() != "c_uint"@.len());
    assert("i16"@ != "c_uint"@);
    assert("i16"@.len() != "UniquePtr"@.len());
    assert("i16"@ != "UniquePtr"@);
    assert("i16"@.len() != "CxxString"@.len());
    assert("i16"@ != "CxxString"@);
    assert("i32"@[1] != "i64"@[1]);
    assert("i32"@ != "i64"@);
    assert("i32"@.len() != "isize"@.len());
    assert("i32"@ != "isize"@);
    assert("i32"@.len() != "c_int"@.len());
    assert("i32"@ != "c_int"@);
    assert("i32"@.len() != "c_uint"@.len());
    assert("i32"@ != "c_uint"@);
    assert("i32"@.len() != "UniquePtr"@.len());
    assert("i32"@ != "UniquePtr"@);
    assert("i32"@.len() != "CxxString"@.len());
    assert("i32"@ != "CxxString"@);
    assert("i64"@.len() != "isize"@.len());
    assert("i64"@ != "isize"@);
    assert("i64"@.len() != "c_int"@.len());
    assert("i64"@ != "c_int"@);
    assert("i64"@.len() != "c_uint"@.len());
    assert("i64"@ != "c_uint"@);
    assert("i64"@.len() != "UniquePtr"@.len());
    assert("i64"@ != "UniquePtr"@);
    assert("i64"@.len() != "CxxString"@.len());
    assert("i64"@ != "CxxString"@);
    assert("isize"@[0] != "c_int"@[0]);
    assert("isize"@ != "c_int"@);
    assert("isize"@.len() != "c_uint"@.len());
    assert("isize"@ != "c_uint"@);
    assert("isize"@.len() != "UniquePtr"@.len());
    assert("isize"@ != "UniquePtr"@);
    assert("isize"@.len() != "CxxString"@.len());
    assert("isize"@ != "CxxString"@);
    assert("c_int"@.len() != "c_uint"@.len());
    assert("c_int"@ != "c_uint"@);
    assert("c_int"@.len() != "UniquePtr"@.len());
    assert("c_int"@ != "UniquePtr"@);
    assert("c_int"@.len() != "CxxString"@.len());
    assert("c_int"@ != "CxxString"@);
    assert("c_uint"@.len() != "UniquePtr"@.len());
    assert("c_uint"@ != "UniquePtr"@);
    assert("c_uint"@.len() != "CxxString"@.len());
    assert("c_uint"@ != "CxxString"@);
    assert("UniquePtr"@[0] != "CxxString"@[0]);
    assert("UniquePtr"@ != "CxxString"@);
    let p = seed_pairs();
    assert(p.take(0) =~= Seq::<(IdView, bool)>::empty());
    lemma_seeded_step(p, 1);
    lemma_seeded_step(p, 2);
    lemma_seeded_step(p, 3);
    lemma_seeded_step(p, 4);
    lemma_seeded_step(p, 5);
    lemma_seeded_step(p, 6);
    lemma_seeded_step(p, 7);
    lemma_seeded_step(p, 8);
    lemma_seeded_step(p, 9);
    lemma_seeded_step(p, 10);
    lemma_seeded_step(p, 11);
    lemma_seeded_step(p, 12);
    lemma_seeded_step(p, 13);
    lemma_seeded_step(p, 14);
    lemma_seeded_step(p, 15);
    assert(p.take(15) =~= p);
}



/// A single-identifier worklist, as a confirmation request writes it.
pub open spec fn one_request(id: IdView) -> Seq<IdView> {
    seq![id]
}

/// A requested identifier whose record was not an alias is confirmed after
/// any successful run that contained it. In particular, a struct whose
/// fields all had safe records is a `SafeCandidate` at ingestion, so once a
/// run confirms it, the confirmed-safe query answers true.
pub proof fn lemma_requested_confirmed(store: StoreView, stack: Seq<IdView>, j: int)
    requires
        store.dom().finite(),
        run_confirm(store, stack).result is Ok,
        0 <= j < stack.len(),
        store.contains_key(stack[j]),
        !(store[stack[j]].verdict is AliasOf),
    ensures
        run_confirm(store, stack).store.contains_key(stack[j]),
        run_confirm(store, stack).store[stack[j]].verdict is Confirmed,
{
    lemma_run_ok_settles(store, stack);
    assert(settled(store, run_confirm(store, stack).store, stack[j]));
}

/// Confirming a type confirms its recorded dependencies too: after a
/// successful run, every non-alias dependency of a record that went from
/// candidate to confirmed is itself confirmed, so a struct's field types
/// query true alongside it.
pub proof fn lemma_dependencies_confirmed(store: StoreView, stack: Seq<IdView>, k: IdView, d: int)
    requires
        store.dom().finite(),
        run_confirm(store, stack).result is Ok,
        store.contains_key(k),
        store[k].verdict is SafeCandidate,
        run_confirm(store, stack).store[k].verdict is Confirmed,
        0 <= d < store[k].dependencies.len(),
        store.contains_key(store[k].dependencies[d]),
        !(store[store[k].dependencies[d]].verdict is AliasOf),
    ensures
        run_confirm(store, stack).store.contains_key(store[k].dependencies[d]),
        run_confirm(store, stack).store[store[k].dependencies[d]].verdict is Confirmed,
{
    lemma_run_ok_dep_settled(store, stack, k, d);
    assert(settled(store, run_confirm(store, stack).store, store[k].dependencies[d]));
}

/// Requesting an identifier whose record is already confirmed succeeds and
/// leaves the whole store untouched.
pub proof fn lemma_confirmed_noop(store: StoreView, id: IdView)
    requires
        store.dom().finite(),
        store.contains_key(id),
        store[id].verdict is Confirmed,
    ensures
        run_confirm(store, one_request(id)) == (Outcome {
            result: Result::<(), ReasonView>::Ok(()),
            store,
        }),
{
    assert(one_request(id).last() == id);
    assert(one_request(id).drop_last() =~= Seq::<IdView>::empty());
    assert(run_confirm(store, Seq::<IdView>::empty()) == (Outcome {
        result: Result::<(), ReasonView>::Ok(()),
        store,
    }));
}

/// Confirmation is idempotent: after a successful run for one non-alias
/// identifier, requesting the same identifier again succeeds and changes
/// neither its verdict nor any other record.
pub proof fn lemma_confirm_idempotent(store: StoreView, id: IdView)
    requires
        store.dom().finite(),
        run_confirm(store, one_request(id)).result is Ok,
        store.contains_key(id),
        !(store[id].verdict is AliasOf),
    ensures
        run_confirm(run_confirm(store, one_request(id)).store, one_request(id)) == (Outcome {
            result: Result::<(), ReasonView>::Ok(()),
            store: run_confirm(store, one_request(id)).store,
        }),
{
    let post = run_confirm(store, one_request(id)).store;
    lemma_requested_confirmed(store, one_request(id), 0);
    lemma_run_frame(store, one_request(id));
    assert(post.dom() == store.dom());
    lemma_confirmed_noop(post, id);
}

/// An alias pointing at a confirmed record resolves in one request: the run
/// succeeds and the aliasing identifier's own record is confirmed, so it
/// queries true afterwards.
pub proof fn lemma_alias_of_confirmed(store: StoreView, id: IdView, target: IdView)
    requires
        store.dom().finite(),
        store.contains_key(id),
        store[id].verdict == (VerdictView::AliasOf { target }),
        store.contains_key(target),
        store[target].verdict is Confirmed,
    ensures
        run_confirm(store, one_request(id)) == (Outcome {
            result: Result::<(), ReasonView>::Ok(()),
            store: store.insert(
                id,
                RecordView {
                    verdict: store[target].verdict,
                    dependencies: store[id].dependencies,
                },
            ),
        }),
        run_confirm(store, one_request(id)).store[id].verdict is Confirmed,
{
    assert(one_request(id).last() == id);
    assert(one_request(id).drop_last() =~= Seq::<IdView>::empty());
    let copied = RecordView { verdict: store[target].verdict, dependencies: store[id].dependencies };
    let store2 = store.insert(id, copied);
    assert(store2.dom() =~= store.dom());
    assert(run_confirm(store2, Seq::<IdView>::empty()) == (Outcome {
        result: Result::<(), ReasonView>::Ok(()),
        store: store2,
    }));
}

/// Requesting an identifier whose record is unsafe fails at once, with the
/// recorded reason propagated verbatim and the store unchanged. A struct
/// ingested with an unsafe field carries the nested dependent-type reason,
/// and one ingested with an unknown field carries the missing-declaration
/// reason naming the field, so this is the error either one surfaces.
pub proof fn lemma_unsafe_fails(store: StoreView, id: IdView)
    requires
        store.dom().finite(),
        store.contains_key(id),
        store[id].verdict is Unsafe,
    ensures
        run_confirm(store, one_request(id)) == (Outcome {
            result: Result::<(), ReasonView>::Err(store[id].verdict->reason),
            store,
        }),
{
    assert(one_request(id).last() == id);
}

/// Requesting an identifier that has no record at all fails at once with
/// the missing-declaration error, and the store is unchanged.
pub proof fn lemma_missing_fails(store: StoreView, id: IdView)
    requires
        store.dom().finite(),
        !store.contains_key(id),
    ensures
        run_confirm(store, one_request(id)) == (Outcome {
            result: Result::<(), ReasonView>::Err(missing_declaration(id)),
            store,
        }),
{
    assert(one_request(id).last() == id);
}

} // verus!
