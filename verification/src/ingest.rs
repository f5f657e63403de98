//! Catalog ingestion: converts declaration records into store entries,
//! strictly in the given order, judging each struct against the store
//! contents as they exist at that moment. A field type declared later in the
//! same pass therefore counts as unknown — ingestion order is a hard
//! contract on whoever builds the declaration sequence. Ingestion never
//! fails: every problem is recorded as an `Unsafe` verdict whose reason
//! surfaces at confirmation time.

use vstd::prelude::*;
use crate::identifier::{ids_view, lemma_ids_view_deep, IdView, TypeIdentifier};
use crate::resolve::StoreView;
use crate::store::ByValueChecker;
use crate::verdict::{ReasonView, RecordView, SafetyRecord, UnsafeReason, Verdict, VerdictView};

verus! {

/// One declaration record fed in by the collaborator that reads the foreign
/// declarations; the analysis itself never parses anything.
pub enum DeclKind {
    /// A struct with the given field types, in declaration order.
    StructDecl { fields: Vec<TypeIdentifier>, has_virtual_dispatch: bool },
    /// An enum: no fields, always safe.
    EnumDecl,
    /// A typedef whose underlying type expression resolved to the given
    /// target identifier, or to nothing representable.
    AliasDecl { target: Option<TypeIdentifier> },
    /// A type whose structure is unknown to the ingester.
    OpaqueDecl,
}

/// A named declaration record.
pub struct Declaration {
    pub name: TypeIdentifier,
    pub kind: DeclKind,
}

/// The verdict a struct earns from its fields, judged against the store as
/// it stands: the first field either absent or unsafe decides, in field
/// order; only then does virtual dispatch count; otherwise the struct is a
/// safe candidate.
pub open spec fn struct_verdict(
    store: StoreView,
    ty: IdView,
    fields: Seq<IdView>,
    has_virtual_dispatch: bool,
) -> VerdictView
    decreases fields.len(),
{
    if fields.len() > 0 && !store.contains_key(fields[0]) {
        VerdictView::Unsafe {
            reason: ReasonView::DeclarationMissing { ty, field: Option::Some(fields[0]) },
        }
    } else if fields.len() > 0 && store[fields[0]].verdict is Unsafe {
        VerdictView::Unsafe {
            reason: ReasonView::DependentTypeUnsafe {
                ty,
                field: fields[0],
                cause: Box::new(store[fields[0]].verdict->reason),
            },
        }
    } else if fields.len() > 0 {
        struct_verdict(store, ty, fields.drop_first(), has_virtual_dispatch)
    } else if has_virtual_dispatch {
        VerdictView::Unsafe { reason: ReasonView::HasVirtualDispatch { ty } }
    } else {
        VerdictView::SafeCandidate
    }
}

/// The record an `Unsafe` verdict is stored under: no dependencies.
pub open spec fn unsafe_record(reason: ReasonView) -> RecordView {
    RecordView { verdict: VerdictView::Unsafe { reason }, dependencies: Seq::empty() }
}

impl ByValueChecker {
    /// Ingests one struct declaration: scans the fields against the current
    /// store, records the verdict [`struct_verdict`] gives, and remembers
    /// the full field list as dependencies — confirming an already-confirmed
    /// field later is a harmless no-op. Never fails; a problem is recorded
    /// as an `Unsafe` verdict.
    #[verifier::loop_isolation(false)]
    pub fn ingest_struct(
        &mut self,
        name: TypeIdentifier,
        fields: Vec<TypeIdentifier>,
        has_virtual_dispatch: bool,
    )
        requires
            old(self).wf(),
        ensures
            final(self).wf(),
            final(self)@ == old(self)@.insert(
                name@,
                RecordView {
                    verdict: struct_verdict(
                        old(self)@,
                        name@,
                        fields.deep_view(),
                        has_virtual_dispatch,
                    ),
                    dependencies: fields.deep_view(),
                },
            ),
    {
        proof {
            lemma_ids_view_deep(&fields);
        }
        let ghost fields_view = fields.deep_view();
        let n = fields.len();
        let mut i: usize = 0;
        let mut problem: Option<UnsafeReason> = Option::None;
        proof {
            assert(fields_view.skip(0) =~= fields_view);
        }
        while i < n && problem.is_none()
            invariant
                n == fields@.len(),
                i <= n,
                match problem {
                    Option::None => struct_verdict(self@, name@, fields_view, has_virtual_dispatch)
                        == struct_verdict(
                        self@,
                        name@,
                        fields_view.skip(i as int),
                        has_virtual_dispatch,
                    ),
                    Option::Some(r) => struct_verdict(self@, name@, fields_view, has_virtual_dispatch)
                        == (VerdictView::Unsafe { reason: r@ }),
                },
            decreases n - i,
        {
            proof {
                assert(fields_view.skip(i as int)[0] == fields_view[i as int]);
                assert(fields_view[i as int] == fields@[i as int]@);
            }
            let field = &fields[i];
            match self.verdict_of(field) {
                Option::None => {
                    problem = Option::Some(
                        UnsafeReason::DeclarationMissing {
                            ty: name.clone(),
                            field: Option::Some(field.clone()),
                        },
                    );
                },
                Option::Some(v) => match v {
                    Verdict::Unsafe { reason } => {
                        problem = Option::Some(
                            UnsafeReason::DependentTypeUnsafe {
                                ty: name.clone(),
                                field: field.clone(),
                                cause: Box::new(reason.clone()),
                            },
                        );
                    },
                    _ => {
                        proof {
                            assert(fields_view.skip(i as int).drop_first() =~= fields_view.skip(
                                i + 1,
                            ));
                            assert(struct_verdict(
                                self@,
                                name@,
                                fields_view.skip(i as int),
                                has_virtual_dispatch,
                            ) == struct_verdict(
                                self@,
                                name@,
                                fields_view.skip(i + 1),
                                has_virtual_dispatch,
                            ));
                        }
                    },
                },
            }
            i += 1;
        }
        let verdict = match problem {
            Option::Some(reason) => Verdict::Unsafe { reason },
            Option::None => {
                proof {
                    assert(i == n);
                    assert(fields_view.skip(n as int) =~= Seq::<IdView>::empty());
                }
                if has_virtual_dispatch {
                    Verdict::Unsafe {
                        reason: UnsafeReason::HasVirtualDispatch { ty: name.clone() },
                    }
                } else {
                    Verdict::SafeCandidate
                }
            },
        };
        proof {
            assert(verdict@ == struct_verdict(self@, name@, fields_view, has_virtual_dispatch));
        }
        let record = SafetyRecord { verdict, dependencies: fields };
        proof {
            assert(record@ == (RecordView {
                verdict: struct_verdict(self@, name@, fields_view, has_virtual_dispatch),
                dependencies: fields_view,
            }));
        }
        self.insert_record(name, record);
    }

    /// Ingests an enum declaration: always confirmed, no dependencies.
    pub fn ingest_enum(&mut self, name: TypeIdentifier)
        requires
            old(self).wf(),
        ensures
            final(self).wf(),
            final(self)@ == old(self)@.insert(
                name@,
                RecordView { verdict: VerdictView::Confirmed, dependencies: Seq::empty() },
            ),
    {
        let record = SafetyRecord::new(Verdict::Confirmed);
        self.insert_record(name, record);
    }

    /// Ingests a typedef that resolved to a target identifier: the record
    /// defers to the target's verdict until confirmation copies it.
    pub fn ingest_alias(&mut self, name: TypeIdentifier, target: TypeIdentifier)
        requires
            old(self).wf(),
        ensures
            final(self).wf(),
            final(self)@ == old(self)@.insert(
                name@,
                RecordView {
                    verdict: VerdictView::AliasOf { target: target@ },
                    dependencies: Seq::empty(),
                },
            ),
    {
        let record = SafetyRecord::new(Verdict::AliasOf { target });
        self.insert_record(name, record);
    }

    /// Ingests a typedef to something not representable, or a type whose
    /// structure is unknown: unsafe outright.
    pub fn ingest_nonpod_type(&mut self, name: TypeIdentifier)
        requires
            old(self).wf(),
        ensures
            final(self).wf(),
            final(self)@ == old(self)@.insert(
                name@,
                unsafe_record(ReasonView::ComplexOrOpaqueAlias { ty: name@ }),
            ),
    {
        let reason = UnsafeReason::ComplexOrOpaqueAlias { ty: name.clone() };
        let record = SafetyRecord::new(Verdict::Unsafe { reason });
        self.insert_record(name, record);
    }

    /// Ingests one blocklist entry: policy forces the identifier unsafe.
    pub fn ingest_blocklisted(&mut self, name: TypeIdentifier)
        requires
            old(self).wf(),
        ensures
            final(self).wf(),
            final(self)@ == old(self)@.insert(
                name@,
                unsafe_record(ReasonView::Blocklisted { ty: name@ }),
            ),
    {
        let reason = UnsafeReason::Blocklisted { ty: name.clone() };
        let record = SafetyRecord::new(Verdict::Unsafe { reason });
        self.insert_record(name, record);
    }

    /// Ingests one declaration record by kind.
    pub fn ingest_declaration(&mut self, decl: Declaration)
        requires
            old(self).wf(),
        ensures
            final(self).wf(),
            final(self)@ == ingested(old(self)@, decl),
    {
        match decl.kind {
            DeclKind::StructDecl { fields, has_virtual_dispatch } => {
                self.ingest_struct(decl.name, fields, has_virtual_dispatch);
            },
            DeclKind::EnumDecl => {
                self.ingest_enum(decl.name);
            },
            DeclKind::AliasDecl { target: Option::Some(target) } => {
                self.ingest_alias(decl.name, target);
            },
            DeclKind::AliasDecl { target: Option::None } => {
                self.ingest_nonpod_type(decl.name);
            },
            DeclKind::OpaqueDecl => {
                self.ingest_nonpod_type(decl.name);
            },
        }
    }
}

/// The store entry one declaration record produces over the given store.
pub open spec fn ingested(store: StoreView, decl: Declaration) -> StoreView {
    match decl.kind {
        DeclKind::StructDecl { fields, has_virtual_dispatch } => store.insert(
            decl.name@,
            RecordView {
                verdict: struct_verdict(store, decl.name@, fields.deep_view(), has_virtual_dispatch),
                dependencies: fields.deep_view(),
            },
        ),
        DeclKind::EnumDecl => store.insert(
            decl.name@,
            RecordView { verdict: VerdictView::Confirmed, dependencies: Seq::empty() },
        ),
        DeclKind::AliasDecl { target: Option::Some(target) } => store.insert(
            decl.name@,
            RecordView {
                verdict: VerdictView::AliasOf { target: target@ },
                dependencies: Seq::empty(),
            },
        ),
        DeclKind::AliasDecl { target: Option::None } => store.insert(
            decl.name@,
            unsafe_record(ReasonView::ComplexOrOpaqueAlias { ty: decl.name@ }),
        ),
        DeclKind::OpaqueDecl => store.insert(
            decl.name@,
            unsafe_record(ReasonView::ComplexOrOpaqueAlias { ty: decl.name@ }),
        ),
    }
}

} // verus!
