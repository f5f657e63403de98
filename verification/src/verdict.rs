//! The safety classification of one type identifier, together with the causal
//! reason recorded when a type is proven unsafe for by-value use.

use vstd::prelude::*;
use crate::identifier::{IdView, TypeIdentifier};

verus! {

/// Mathematical value of an [`UnsafeReason`]: the causal chain that explains
/// why an identifier cannot be represented by value.
#[verifier::ext_equal]
pub ghost enum ReasonView {
    /// The known-type table lists the type as not by-value-safe.
    NotByValueSafe { ty: IdView },
    /// Policy forbids the type outright.
    Blocklisted { ty: IdView },
    /// No declaration was ever seen: for the identifier itself when `field`
    /// is `None`, or for the named field type of a declared struct.
    DeclarationMissing { ty: IdView, field: Option<IdView> },
    /// A field's type is itself unsafe; `cause` carries the nested chain.
    DependentTypeUnsafe { ty: IdView, field: IdView, cause: Box<ReasonView> },
    /// The struct carries a virtual dispatch table.
    HasVirtualDispatch { ty: IdView },
    /// The identifier is an alias of, or stands for, a type whose structure
    /// is not representable.
    ComplexOrOpaqueAlias { ty: IdView },
}

/// Mathematical value of a [`Verdict`].
#[verifier::ext_equal]
pub ghost enum VerdictView {
    SafeCandidate,
    Confirmed,
    Unsafe { reason: ReasonView },
    AliasOf { target: IdView },
}

/// Mathematical value of a [`SafetyRecord`].
#[verifier::ext_equal]
pub ghost struct RecordView {
    pub verdict: VerdictView,
    pub dependencies: Seq<IdView>,
}

/// Why a type identifier was proven unsafe for by-value use. Reasons nest:
/// a struct whose field type is unsafe records the field's own reason as the
/// cause, so the chain stays actionable.
#[derive(Debug)]
pub enum UnsafeReason {
    NotByValueSafe { ty: TypeIdentifier },
    Blocklisted { ty: TypeIdentifier },
    DeclarationMissing { ty: TypeIdentifier, field: Option<TypeIdentifier> },
    DependentTypeUnsafe { ty: TypeIdentifier, field: TypeIdentifier, cause: Box<UnsafeReason> },
    HasVirtualDispatch { ty: TypeIdentifier },
    ComplexOrOpaqueAlias { ty: TypeIdentifier },
}

/// Current safety classification of one type identifier.
#[derive(Debug)]
pub enum Verdict {
    /// Shape looks acceptable, but no request has yet proven it required.
    SafeCandidate,
    /// Proven by-value-safe; terminal.
    Confirmed,
    /// Proven unsafe; terminal.
    Unsafe { reason: UnsafeReason },
    /// Defers to another identifier's verdict.
    AliasOf { target: TypeIdentifier },
}

/// One store entry: the verdict plus the field types that must also be
/// confirmed when this record is confirmed.
#[derive(Debug)]
pub struct SafetyRecord {
    pub verdict: Verdict,
    pub dependencies: Vec<TypeIdentifier>,
}

pub open spec fn reason_view(r: UnsafeReason) -> ReasonView
    decreases r,
{
    match r {
        UnsafeReason::NotByValueSafe { ty } => ReasonView::NotByValueSafe { ty: ty@ },
        UnsafeReason::Blocklisted { ty } => ReasonView::Blocklisted { ty: ty@ },
        UnsafeReason::DeclarationMissing { ty, field } => ReasonView::DeclarationMissing {
            ty: ty@,
            field: match field {
                Option::Some(f) => Option::Some(f@),
                Option::None => Option::None,
            },
        },
        UnsafeReason::DependentTypeUnsafe { ty, field, cause } => ReasonView::DependentTypeUnsafe {
            ty: ty@,
            field: field@,
            cause: Box::new(reason_view(*cause)),
        },
        UnsafeReason::HasVirtualDispatch { ty } => ReasonView::HasVirtualDispatch { ty: ty@ },
        UnsafeReason::ComplexOrOpaqueAlias { ty } => ReasonView::ComplexOrOpaqueAlias { ty: ty@ },
    }
}

impl View for UnsafeReason {
    type V = ReasonView;

    open spec fn view(&self) -> ReasonView {
        reason_view(*self)
    }
}

impl View for Verdict {
    type V = VerdictView;

    open spec fn view(&self) -> VerdictView {
        match *self {
            Verdict::SafeCandidate => VerdictView::SafeCandidate,
            Verdict::Confirmed => VerdictView::Confirmed,
            Verdict::Unsafe { reason } => VerdictView::Unsafe { reason: reason@ },
            Verdict::AliasOf { target } => VerdictView::AliasOf { target: target@ },
        }
    }
}

impl View for SafetyRecord {
    type V = RecordView;

    open spec fn view(&self) -> RecordView {
        RecordView { verdict: self.verdict@, dependencies: self.dependencies.deep_view() }
    }
}

impl SafetyRecord {
    /// A fresh record with the given verdict and no dependencies.
    pub fn new(verdict: Verdict) -> (r: Self)
        ensures
            r@ == (RecordView { verdict: verdict@, dependencies: Seq::<IdView>::empty() }),
    {
        let r = SafetyRecord { verdict, dependencies: Vec::new() };
        proof {
            assert(r@.dependencies =~= Seq::<IdView>::empty());
        }
        r
    }
}

impl Clone for UnsafeReason {
    /// The clone describes the same causal chain.
    fn clone(&self) -> (r: Self)
        ensures
            r@ == self@,
        decreases self,
    {
        match self {
            UnsafeReason::NotByValueSafe { ty } => UnsafeReason::NotByValueSafe { ty: ty.clone() },
            UnsafeReason::Blocklisted { ty } => UnsafeReason::Blocklisted { ty: ty.clone() },
            UnsafeReason::DeclarationMissing { ty, field } => {
                let field_copy = match field {
                    Option::Some(f) => Option::Some(f.clone()),
                    Option::None => Option::None,
                };
                UnsafeReason::DeclarationMissing { ty: ty.clone(), field: field_copy }
            },
            UnsafeReason::DependentTypeUnsafe { ty, field, cause } => {
                let cause_copy = (&**cause).clone();
                UnsafeReason::DependentTypeUnsafe {
                    ty: ty.clone(),
                    field: field.clone(),
                    cause: Box::new(cause_copy),
                }
            },
            UnsafeReason::HasVirtualDispatch { ty } => UnsafeReason::HasVirtualDispatch {
                ty: ty.clone(),
            },
            UnsafeReason::ComplexOrOpaqueAlias { ty } => UnsafeReason::ComplexOrOpaqueAlias {
                ty: ty.clone(),
            },
        }
    }
}

impl Clone for Verdict {
    /// The clone carries the same classification.
    fn clone(&self) -> (r: Self)
        ensures
            r@ == self@,
    {
        match self {
            Verdict::SafeCandidate => Verdict::SafeCandidate,
            Verdict::Confirmed => Verdict::Confirmed,
            Verdict::Unsafe { reason } => Verdict::Unsafe { reason: reason.clone() },
            Verdict::AliasOf { target } => Verdict::AliasOf { target: target.clone() },
        }
    }
}

} // verus!
