//! The full analysis run: seed the known-type table, apply the blocklist as
//! a pre-pass, ingest the declared catalog in order, then confirm the
//! requested identifiers. Because later ingestion overwrites by identifier,
//! a struct declared after a blocklist entry for the same identifier
//! silently replaces the blocklist verdict; that ordering hazard is part of
//! the observed behaviour and is preserved, not corrected.

use vstd::prelude::*;
use crate::identifier::{lemma_ids_view_deep, IdView, TypeIdentifier};
use crate::ingest::{ingested, unsafe_record, Declaration};
use crate::known::{seed_pairs, seeded};
use crate::resolve::{run_confirm, StoreView};
use crate::store::ByValueChecker;
use crate::verdict::{ReasonView, UnsafeReason};

verus! {

/// The store after the blocklist pre-pass, applied in order.
pub open spec fn with_blocklist(store: StoreView, blocklist: Seq<IdView>) -> StoreView
    decreases blocklist.len(),
{
    if blocklist.len() == 0 {
        store
    } else {
        with_blocklist(store, blocklist.drop_last()).insert(
            blocklist.last(),
            unsafe_record(ReasonView::Blocklisted { ty: blocklist.last() }),
        )
    }
}

/// The store after ingesting the declarations in order, each judged against
/// the store as it stood when its turn came.
pub open spec fn with_declarations(store: StoreView, decls: Seq<Declaration>) -> StoreView
    decreases decls.len(),
{
    if decls.len() == 0 {
        store
    } else {
        ingested(with_declarations(store, decls.drop_last()), decls.last())
    }
}

/// The finished store of one analysis run, before confirmation.
pub open spec fn catalog_store(decls: Seq<Declaration>, blocklist: Seq<IdView>) -> StoreView {
    with_declarations(with_blocklist(seeded(seed_pairs()), blocklist), decls)
}

impl ByValueChecker {
    /// Runs a whole analysis: seeds the known-type table, records every
    /// blocklisted identifier as unsafe, ingests the catalog in the given
    /// order, and then confirms the requested identifiers. Returns the
    /// finished checker for queries, or the first causal error the
    /// confirmation run met.
    #[verifier::loop_isolation(false)]
    pub fn new_from_catalog(
        declarations: Vec<Declaration>,
        blocklist: Vec<TypeIdentifier>,
        pod_requests: Vec<TypeIdentifier>,
    ) -> (r: Result<ByValueChecker, UnsafeReason>)
        ensures
            ({
                let outcome = run_confirm(
                    catalog_store(declarations@, blocklist.deep_view()),
                    pod_requests.deep_view(),
                );
                match r {
                    Result::Ok(checker) => checker.wf() && outcome.result is Ok && checker@
                        == outcome.store,
                    Result::Err(e) => outcome.result == Result::<(), ReasonView>::Err(e@),
                }
            }),
    {
        let ghost blocklist_view = blocklist.deep_view();
        proof {
            lemma_ids_view_deep(&blocklist);
        }
        let mut checker = ByValueChecker::new();
        let ghost seed_store: StoreView = checker@;
        let n = blocklist.len();
        let mut i: usize = 0;
        proof {
            assert(blocklist_view.take(0) =~= Seq::<IdView>::empty());
            assert(checker@ =~= with_blocklist(seed_store, blocklist_view.take(0)));
        }
        while i < n
            invariant
                n == blocklist@.len(),
                i <= n,
                checker.wf(),
                checker@ == with_blocklist(seed_store, blocklist_view.take(i as int)),
            decreases n - i,
        {
            proof {
                assert(blocklist_view[i as int] == blocklist@[i as int]@);
            }
            checker.ingest_blocklisted(blocklist[i].clone());
            proof {
                assert(blocklist_view.take(i + 1).drop_last() =~= blocklist_view.take(i as int));
                assert(blocklist_view.take(i + 1).last() == blocklist_view[i as int]);
            }
            i += 1;
        }
        proof {
            assert(blocklist_view.take(n as int) =~= blocklist_view);
        }
        let ghost decls_view = declarations@;
        let mut declarations = declarations;
        let ghost blocked_store: StoreView = checker@;
        let ghost mut k: int = 0;
        let ghost total = decls_view.len();
        proof {
            assert(decls_view.take(0) =~= Seq::<Declaration>::empty());
            assert(checker@ =~= with_declarations(blocked_store, decls_view.take(0)));
        }
        while declarations.len() > 0
            invariant
                checker.wf(),
                0 <= k <= total,
                declarations@ =~= decls_view.skip(k),
                checker@ == with_declarations(blocked_store, decls_view.take(k)),
            decreases declarations@.len(),
        {
            let decl = declarations.remove(0);
            proof {
                assert(decl == decls_view[k]);
                assert(declarations@ =~= decls_view.skip(k + 1));
            }
            checker.ingest_declaration(decl);
            proof {
                assert(decls_view.take(k + 1).drop_last() =~= decls_view.take(k));
                assert(decls_view.take(k + 1).last() == decls_view[k]);
                k = k + 1;
            }
        }
        proof {
            assert(decls_view.take(k) =~= decls_view);
            assert(checker@ == catalog_store(decls_view, blocklist_view));
        }
        match checker.satisfy_requests(pod_requests) {
            Result::Ok(()) => Result::Ok(checker),
            Result::Err(e) => Result::Err(e),
        }
    }
}

} // verus!
