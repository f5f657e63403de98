//! The fixpoint resolver: confirms a requested set of identifiers as
//! by-value-safe, or fails with the first causal error met anywhere in the
//! transitive closure. Implements [`run_confirm`] step for step, so the
//! last-in-first-out processing order — observable in which error surfaces
//! first — is pinned by the contract.

use vstd::prelude::*;
use crate::identifier::{ids_view, lemma_ids_view_deep, lemma_ids_view_drop_last,
    lemma_ids_view_push, TypeIdentifier};
use crate::resolve::{missing_declaration, pending_ids, run_confirm, Outcome, StoreView};
use crate::store::ByValueChecker;
use crate::verdict::{ReasonView, RecordView, UnsafeReason, Verdict, VerdictView};

verus! {

/// The mathematical value of a confirmation result.
pub open spec fn result_view(r: Result<(), UnsafeReason>) -> Result<(), ReasonView> {
    match r {
        Result::Ok(u) => Result::Ok(u),
        Result::Err(e) => Result::Err(e@),
    }
}

impl ByValueChecker {
    /// Confirms every requested identifier, and transitively every recorded
    /// dependency of a confirmed record, mutating verdicts in place. The
    /// requests are processed as a stack: the sequence's last element first.
    /// Failure is single-shot: the first missing declaration or unsafe
    /// verdict aborts the whole batch with its reason, exactly as
    /// [`run_confirm`] lays down.
    #[verifier::loop_isolation(false)]
    pub fn satisfy_requests(&mut self, requests: Vec<TypeIdentifier>) -> (r: Result<
        (),
        UnsafeReason,
    >)
        requires
            old(self).wf(),
        ensures
            final(self).wf(),
            run_confirm(old(self)@, requests.deep_view()) == (Outcome {
                result: result_view(r),
                store: final(self)@,
            }),
    {
        let ghost orig_store: StoreView = self@;
        let ghost orig_stack = requests.deep_view();
        proof {
            self.lemma_finite();
            lemma_ids_view_deep(&requests);
        }
        let mut requests = requests;
        loop
            invariant
                self.wf(),
                self@.dom().finite(),
                run_confirm(orig_store, orig_stack) == run_confirm(self@, ids_view(requests@)),
            decreases pending_ids(self@).len(), requests@.len(),
        {
            let ghost pre_store: StoreView = self@;
            let ghost pre_seq = requests@;
            let ghost pre_stack = ids_view(requests@);
            let id = match requests.pop() {
                Option::Some(id) => id,
                Option::None => {
                    return Result::Ok(());
                },
            };
            proof {
                assert(requests@ =~= pre_seq.drop_last());
                lemma_ids_view_drop_last(pre_seq);
                assert(id@ == pre_stack.last());
            }
            let verdict_opt: Option<Verdict> = match self.verdict_of(&id) {
                Option::Some(v) => Option::Some(v.clone()),
                Option::None => Option::None,
            };
            match verdict_opt {
                Option::None => {
                    let reason = UnsafeReason::DeclarationMissing { ty: id, field: Option::None };
                    proof {
                        assert(reason@ == missing_declaration(pre_stack.last()));
                    }
                    return Result::Err(reason);
                },
                Option::Some(Verdict::Unsafe { reason }) => {
                    proof {
                        assert(reason@ == pre_store[pre_stack.last()].verdict->reason);
                    }
                    return Result::Err(reason);
                },
                Option::Some(Verdict::Confirmed) => {
                    proof {
                        assert(run_confirm(pre_store, pre_stack) == run_confirm(
                            self@,
                            ids_view(requests@),
                        ));
                    }
                },
                Option::Some(Verdict::SafeCandidate) => {
                    let ghost deps_view = pre_store[id@].dependencies;
                    let deps = self.dependencies_of(&id);
                    proof {
                        lemma_ids_view_deep(&deps);
                    }
                    self.set_verdict(&id, Verdict::Confirmed);
                    proof {
                        self.lemma_finite();
                        crate::resolve::lemma_pending_after_confirm(
                            pre_store,
                            id@,
                            RecordView { verdict: VerdictView::Confirmed, dependencies: deps_view },
                        );
                    }
                    let n = deps.len();
                    let mut k: usize = 0;
                    while k < n
                        invariant
                            n == deps@.len(),
                            k <= n,
                            ids_view(requests@) == pre_stack.drop_last() + deps_view.take(k as int),
                        decreases n - k,
                    {
                        let ghost before = requests@;
                        requests.push(deps[k].clone());
                        proof {
                            lemma_ids_view_push(before, requests@.last());
                            assert(ids_view(requests@) =~= pre_stack.drop_last() + deps_view.take(
                                k + 1,
                            ));
                        }
                        k += 1;
                    }
                    proof {
                        assert(deps_view.take(n as int) =~= deps_view);
                        assert(self@ == pre_store.insert(
                            id@,
                            RecordView { verdict: VerdictView::Confirmed, dependencies: deps_view },
                        ));
                        assert(run_confirm(pre_store, pre_stack) == run_confirm(
                            self@,
                            ids_view(requests@),
                        ));
                    }
                },
                Option::Some(Verdict::AliasOf { target }) => {
                    let copied: Option<Verdict> = match self.verdict_of(&target) {
                        Option::Some(tv) => Option::Some(tv.clone()),
                        Option::None => Option::None,
                    };
                    match copied {
                        Option::None => {
                            let reason = UnsafeReason::DeclarationMissing {
                                ty: target,
                                field: Option::None,
                            };
                            proof {
                                assert(reason@ == missing_declaration(
                                    pre_store[pre_stack.last()].verdict->target,
                                ));
                            }
                            return Result::Err(reason);
                        },
                        Option::Some(tv) => {
                            proof {
                                crate::resolve::lemma_pending_after_update(
                                    pre_store,
                                    id@,
                                    RecordView {
                                        verdict: tv@,
                                        dependencies: pre_store[id@].dependencies,
                                    },
                                );
                            }
                            self.set_verdict(&id, tv);
                            proof {
                                self.lemma_finite();
                                assert(run_confirm(pre_store, pre_stack) == run_confirm(
                                    self@,
                                    ids_view(requests@),
                                ));
                            }
                        },
                    }
                },
            }
        }
    }
}

} // verus!
