//! Mathematical model of the fixpoint resolver: a worklist, processed in
//! last-in-first-out order, that turns tentative verdicts into terminal ones.
//! The order is part of the contract — it decides which causal error
//! surfaces first when several unsafe paths exist — so the model fixes it
//! exactly, and `ByValueChecker::satisfy_requests` is proved to implement it.

use vstd::prelude::*;
use crate::identifier::IdView;
use crate::verdict::{ReasonView, RecordView, VerdictView};

verus! {

/// The store as the resolver sees it: one record per identifier.
pub type StoreView = Map<IdView, RecordView>;

/// Verdicts that the resolver never changes again.
pub open spec fn is_terminal(v: VerdictView) -> bool {
    v is Confirmed || v is Unsafe
}

/// Identifiers whose verdict the resolver may still change.
pub open spec fn pending_ids(store: StoreView) -> Set<IdView> {
    store.dom().filter(|k: IdView| !is_terminal(store[k].verdict))
}

/// The failure reported when an identifier was never declared.
pub open spec fn missing_declaration(ty: IdView) -> ReasonView {
    ReasonView::DeclarationMissing { ty, field: Option::None }
}

/// Result of one full resolver run: what the run returns, and the store it
/// leaves behind.
#[verifier::ext_equal]
pub ghost struct Outcome {
    pub result: Result<(), ReasonView>,
    pub store: StoreView,
}

/// Replacing a pending identifier's record by a terminal one strictly
/// shrinks the pending set.
pub proof fn lemma_pending_after_confirm(store: StoreView, id: IdView, r: RecordView)
    requires
        store.dom().finite(),
        store.contains_key(id),
        !is_terminal(store[id].verdict),
        is_terminal(r.verdict),
    ensures
        pending_ids(store).finite(),
        pending_ids(store.insert(id, r)).finite(),
        pending_ids(store.insert(id, r)).len() < pending_ids(store).len(),
{
    let before = pending_ids(store);
    let after = pending_ids(store.insert(id, r));
    assert(store.insert(id, r).dom() =~= store.dom());
    assert(after =~= before.remove(id));
    vstd::set_lib::lemma_len_subset(before, store.dom());
    vstd::set::axiom_set_remove_len(before, id);
}

/// Overwriting a pending identifier's record never grows the pending set.
pub proof fn lemma_pending_after_update(store: StoreView, id: IdView, r: RecordView)
    requires
        store.dom().finite(),
        store.contains_key(id),
        !is_terminal(store[id].verdict),
    ensures
        pending_ids(store).finite(),
        pending_ids(store.insert(id, r)).finite(),
        pending_ids(store.insert(id, r)).len() <= pending_ids(store).len(),
{
    let before = pending_ids(store);
    let after = pending_ids(store.insert(id, r));
    assert(store.insert(id, r).dom() =~= store.dom());
    vstd::set_lib::lemma_len_subset(before, store.dom());
    assert(after.subset_of(before));
    vstd::set_lib::lemma_len_subset(after, before);
}

/// One full resolver run over the given store, with `stack` the identifiers
/// still to process; the top of the stack is the sequence's last element.
///
/// Each step pops one identifier and looks up its record: a missing record
/// fails the batch at once, as does an `Unsafe` verdict, whose reason is
/// propagated verbatim. A `Confirmed` record is a no-op. A `SafeCandidate`
/// becomes `Confirmed` and its dependencies are pushed, so the transitive
/// dependency set ends up confirmed too. An alias copies its target's
/// current verdict — a snapshot, not a live reference; a target that has no
/// record can never acquire one during the run, since the resolver inserts
/// nothing, so that case fails at once with the missing-declaration error
/// for the target.
pub open spec fn run_confirm(store: StoreView, stack: Seq<IdView>) -> Outcome
    decreases pending_ids(store).len(), stack.len(),
        when store.dom().finite()
{
    if stack.len() == 0 {
        Outcome { result: Result::Ok(()), store }
    } else {
        let id = stack.last();
        let rest = stack.drop_last();
        if !store.contains_key(id) {
            Outcome { result: Result::Err(missing_declaration(id)), store }
        } else {
            match store[id].verdict {
                VerdictView::Unsafe { reason } => Outcome { result: Result::Err(reason), store },
                VerdictView::Confirmed => run_confirm(store, rest),
                VerdictView::SafeCandidate => {
                    let deps = store[id].dependencies;
                    let confirmed = RecordView { verdict: VerdictView::Confirmed, dependencies: deps };
                    proof {
                        lemma_pending_after_confirm(store, id, confirmed);
                    }
                    run_confirm(store.insert(id, confirmed), rest + deps)
                },
                VerdictView::AliasOf { target } => {
                    if !store.contains_key(target) {
                        Outcome { result: Result::Err(missing_declaration(target)), store }
                    } else {
                        let copied = RecordView {
                            verdict: store[target].verdict,
                            dependencies: store[id].dependencies,
                        };
                        proof {
                            lemma_pending_after_update(store, id, copied);
                        }
                        run_confirm(store.insert(id, copied), rest)
                    }
                },
            }
        }
    }
}

/// How one resolver run may change the store: the domain and every recorded
/// dependency list stay; terminal verdicts stay untouched; and a record can
/// end as an alias, or as a candidate it was not, only if it started as an
/// alias.
pub open spec fn evolves(pre: StoreView, post: StoreView) -> bool {
    &&& post.dom() == pre.dom()
    &&& forall|k: IdView| #![trigger post[k]]
        pre.contains_key(k) ==> post[k].dependencies == pre[k].dependencies
    &&& forall|k: IdView| #![trigger post[k]]
        pre.contains_key(k) && is_terminal(pre[k].verdict) ==> post[k] == pre[k]
    &&& forall|k: IdView| #![trigger post[k]]
        pre.contains_key(k) && post[k].verdict is AliasOf ==> pre[k].verdict is AliasOf
    &&& forall|k: IdView| #![trigger post[k]]
        pre.contains_key(k) && post[k].verdict is SafeCandidate ==> (pre[k].verdict
            is SafeCandidate || pre[k].verdict is AliasOf)
}

pub proof fn lemma_evolves_trans(a: StoreView, b: StoreView, c: StoreView)
    requires
        evolves(a, b),
        evolves(b, c),
    ensures
        evolves(a, c),
{
    assert forall|k: IdView| a.contains_key(k) implies #[trigger] c[k].dependencies
        == a[k].dependencies by {
        assert(b[k].dependencies == a[k].dependencies);
    }
    assert forall|k: IdView| a.contains_key(k) && is_terminal(a[k].verdict) implies #[trigger] c[k]
        == a[k] by {
        assert(b[k] == a[k]);
    }
    assert forall|k: IdView| a.contains_key(k) && (#[trigger] c[k].verdict is AliasOf) implies a[k].verdict
        is AliasOf by {
        assert(b[k].verdict is AliasOf);
    }
    assert forall|k: IdView| a.contains_key(k) && (#[trigger] c[k].verdict is SafeCandidate) implies (
    a[k].verdict is SafeCandidate || a[k].verdict is AliasOf) by {
        assert(b[k].verdict is SafeCandidate || b[k].verdict is AliasOf);
    }
}

/// A full run only evolves the store as [`evolves`] allows. In particular,
/// `Confirmed` and `Unsafe` verdicts are monotone: once terminal, a record
/// never changes again.
pub proof fn lemma_run_frame(store: StoreView, stack: Seq<IdView>)
    requires
        store.dom().finite(),
    ensures
        evolves(store, run_confirm(store, stack).store),
    decreases pending_ids(store).len(), stack.len(),
{
    if stack.len() == 0 {
    } else {
        let id = stack.last();
        let rest = stack.drop_last();
        if !store.contains_key(id) {
        } else {
            let record = store[id];
            match record.verdict {
                VerdictView::Unsafe { .. } => {},
                VerdictView::Confirmed => {
                    lemma_run_frame(store, rest);
                },
                VerdictView::SafeCandidate => {
                    let confirmed = RecordView {
                        verdict: VerdictView::Confirmed,
                        dependencies: record.dependencies,
                    };
                    lemma_pending_after_confirm(store, id, confirmed);
                    let store2 = store.insert(id, confirmed);
                    assert(store2.dom() =~= store.dom());
                    assert(evolves(store, store2));
                    lemma_run_frame(store2, rest + record.dependencies);
                    lemma_evolves_trans(
                        store,
                        store2,
                        run_confirm(store2, rest + record.dependencies).store,
                    );
                },
                VerdictView::AliasOf { target } => {
                    if !store.contains_key(target) {
                    } else {
                        let copied = RecordView {
                            verdict: store[target].verdict,
                            dependencies: record.dependencies,
                        };
                        lemma_pending_after_update(store, id, copied);
                        let store2 = store.insert(id, copied);
                        assert(store2.dom() =~= store.dom());
                        assert(evolves(store, store2));
                        lemma_run_frame(store2, rest);
                        lemma_evolves_trans(store, store2, run_confirm(store2, rest).store);
                    }
                },
            }
        }
    }
}

/// What a successful run promises of one identifier it processed: its record
/// is there, and either it ended `Confirmed` or it was an alias to begin
/// with — an alias only copies its target's verdict, which need not be
/// `Confirmed`.
pub open spec fn settled(pre: StoreView, post: StoreView, id: IdView) -> bool {
    post.contains_key(id) && (post[id].verdict is Confirmed || pre[id].verdict is AliasOf)
}

/// After a successful run, every identifier on the stack is settled.
pub proof fn lemma_run_ok_settles(store: StoreView, stack: Seq<IdView>)
    requires
        store.dom().finite(),
        run_confirm(store, stack).result is Ok,
    ensures
        forall|j: int| 0 <= j < stack.len() ==> #[trigger] settled(
            store,
            run_confirm(store, stack).store,
            stack[j],
        ),
    decreases pending_ids(store).len(), stack.len(),
{
    if stack.len() == 0 {
    } else {
        let id = stack.last();
        let rest = stack.drop_last();
        let post = run_confirm(store, stack).store;
        if !store.contains_key(id) {
        } else {
            let record = store[id];
            match record.verdict {
                VerdictView::Unsafe { .. } => {},
                VerdictView::Confirmed => {
                    lemma_run_ok_settles(store, rest);
                    lemma_run_frame(store, rest);
                    assert forall|j: int| 0 <= j < stack.len() implies #[trigger] settled(
                        store,
                        post,
                        stack[j],
                    ) by {
                        if j < rest.len() {
                            assert(settled(store, post, rest[j]));
                        } else {
                            assert(post[id] == store[id]);
                        }
                    }
                },
                VerdictView::SafeCandidate => {
                    let confirmed = RecordView {
                        verdict: VerdictView::Confirmed,
                        dependencies: record.dependencies,
                    };
                    lemma_pending_after_confirm(store, id, confirmed);
                    let store2 = store.insert(id, confirmed);
                    let stack2 = rest + record.dependencies;
                    lemma_run_ok_settles(store2, stack2);
                    lemma_run_frame(store2, stack2);
                    assert forall|j: int| 0 <= j < stack.len() implies #[trigger] settled(
                        store,
                        post,
                        stack[j],
                    ) by {
                        if j < rest.len() {
                            assert(stack2[j] == rest[j]);
                            assert(settled(store2, post, stack2[j]));
                            assert(store2[stack[j]].verdict is AliasOf ==> stack[j] != id);
                        } else {
                            assert(store2.contains_key(id) && is_terminal(store2[id].verdict));
                            assert(post[id] == store2[id]);
                        }
                    }
                },
                VerdictView::AliasOf { target } => {
                    if !store.contains_key(target) {
                    } else {
                        let copied = RecordView {
                            verdict: store[target].verdict,
                            dependencies: record.dependencies,
                        };
                        lemma_pending_after_update(store, id, copied);
                        let store2 = store.insert(id, copied);
                        lemma_run_ok_settles(store2, rest);
                        lemma_run_frame(store2, rest);
                        assert forall|j: int| 0 <= j < stack.len() implies #[trigger] settled(
                            store,
                            post,
                            stack[j],
                        ) by {
                            if j < rest.len() {
                                assert(settled(store2, post, rest[j]));
                                if store2[stack[j]].verdict is AliasOf {
                                    assert(store[stack[j]].verdict is AliasOf);
                                }
                            } else {
                                assert(post.dom() == store2.dom());
                                assert(post.contains_key(id));
                            }
                        }
                    }
                },
            }
        }
    }
}

/// After a successful run, every dependency of a record that went from
/// candidate to confirmed is settled too: the resolver pushes the recorded
/// dependencies when it confirms, so the transitive set ends up confirmed.
pub proof fn lemma_run_ok_dep_settled(store: StoreView, stack: Seq<IdView>, k: IdView, d: int)
    requires
        store.dom().finite(),
        run_confirm(store, stack).result is Ok,
        store.contains_key(k),
        store[k].verdict is SafeCandidate,
        run_confirm(store, stack).store[k].verdict is Confirmed,
        0 <= d < store[k].dependencies.len(),
    ensures
        settled(store, run_confirm(store, stack).store, store[k].dependencies[d]),
    decreases pending_ids(store).len(), stack.len(),
{
    let post = run_confirm(store, stack).store;
    let dep = store[k].dependencies[d];
    if stack.len() == 0 {
    } else {
        let id = stack.last();
        let rest = stack.drop_last();
        if !store.contains_key(id) {
        } else {
            let record = store[id];
            match record.verdict {
                VerdictView::Unsafe { .. } => {},
                VerdictView::Confirmed => {
                    lemma_run_ok_dep_settled(store, rest, k, d);
                },
                VerdictView::SafeCandidate => {
                    let confirmed = RecordView {
                        verdict: VerdictView::Confirmed,
                        dependencies: record.dependencies,
                    };
                    lemma_pending_after_confirm(store, id, confirmed);
                    let store2 = store.insert(id, confirmed);
                    let stack2 = rest + record.dependencies;
                    lemma_run_frame(store2, stack2);
                    if k == id {
                        lemma_run_ok_settles(store2, stack2);
                        assert(stack2[rest.len() + d] == dep);
                        assert(settled(store2, post, dep));
                        if store2[dep].verdict is AliasOf {
                            assert(dep != id);
                            assert(store[dep].verdict is AliasOf);
                        }
                    } else {
                        lemma_run_ok_dep_settled(store2, stack2, k, d);
                        if store2[dep].verdict is AliasOf {
                            assert(dep != id);
                            assert(store[dep].verdict is AliasOf);
                        }
                    }
                },
                VerdictView::AliasOf { target } => {
                    if !store.contains_key(target) {
                    } else {
                        let copied = RecordView {
                            verdict: store[target].verdict,
                            dependencies: record.dependencies,
                        };
                        lemma_pending_after_update(store, id, copied);
                        let store2 = store.insert(id, copied);
                        assert(k != id);
                        lemma_run_ok_dep_settled(store2, rest, k, d);
                        if store2[dep].verdict is AliasOf && dep != id {
                            assert(store[dep].verdict is AliasOf);
                        }
                    }
                },
            }
        }
    }
}

} // verus!
