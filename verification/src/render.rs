//! Rendering of identifiers and causal chains as text. The message for a
//! nested reason embeds the message of its cause, so an unsafe verdict
//! explains itself all the way down to the type that started it.

use vstd::prelude::*;
use vstd::string::StringExecFns;
use crate::identifier::{IdView, TypeIdentifier};
use crate::verdict::{ReasonView, UnsafeReason};

verus! {

/// The namespace segments rendered as a path prefix, each segment followed
/// by the separator.
pub open spec fn namespace_prefix(segments: Seq<Seq<char>>) -> Seq<char>
    decreases segments.len(),
{
    if segments.len() == 0 {
        Seq::empty()
    } else {
        namespace_prefix(segments.drop_last()) + segments.last() + "::"@
    }
}

/// An identifier's fully qualified path as text.
pub open spec fn path_chars(id: IdView) -> Seq<char> {
    namespace_prefix(id.namespace) + id.name
}

/// The full message text of one reason, nested causes included.
pub open spec fn reason_text(r: ReasonView) -> Seq<char>
    decreases r,
{
    match r {
        ReasonView::NotByValueSafe { ty } => "type "@ + path_chars(ty)
            + " is not safe for by-value use"@,
        ReasonView::Blocklisted { ty } => "type "@ + path_chars(ty) + " is on the blocklist"@,
        ReasonView::DeclarationMissing { ty, field: Option::None } => "Unable to confirm "@
            + path_chars(ty) + " because we never saw a declaration"@,
        ReasonView::DeclarationMissing { ty, field: Option::Some(f) } => "type "@ + path_chars(ty)
            + " could not be by-value because its dependent type "@ + path_chars(f)
            + " isn't known"@,
        ReasonView::DependentTypeUnsafe { ty, field, cause } => "type "@ + path_chars(ty)
            + " could not be by-value because its dependent type "@ + path_chars(field)
            + " isn't safe to be by-value. Because: "@ + reason_text(*cause),
        ReasonView::HasVirtualDispatch { ty } => "type "@ + path_chars(ty)
            + " could not be by-value because it has virtual functions"@,
        ReasonView::ComplexOrOpaqueAlias { ty } => "type "@ + path_chars(ty)
            + " is a typedef to a complex type"@,
    }
}

impl TypeIdentifier {
    /// The fully qualified path, segments joined by the separator.
    #[verifier::loop_isolation(false)]
    pub fn qualified_name(&self) -> (r: String)
        ensures
            r@ == path_chars(self@),
    {
        let mut out = String::new();
        let n = self.namespace.len();
        let mut i: usize = 0;
        proof {
            assert(self@.namespace.take(0) =~= Seq::<Seq<char>>::empty());
        }
        while i < n
            invariant
                n == self.namespace@.len(),
                i <= n,
                out@ == namespace_prefix(self@.namespace.take(i as int)),
            decreases n - i,
        {
            proof {
                assert(self@.namespace[i as int] == self.namespace@[i as int]@);
            }
            out.append(self.namespace[i].as_str());
            out.append("::");
            proof {
                assert(self@.namespace.take(i + 1).drop_last() =~= self@.namespace.take(i as int));
                assert(self@.namespace.take(i + 1).last() == self@.namespace[i as int]);
            }
            i += 1;
        }
        proof {
            assert(self@.namespace.take(n as int) =~= self@.namespace);
        }
        out.append(self.name.as_str());
        out
    }
}

impl UnsafeReason {
    /// The human-readable causal chain for this reason, built outermost
    /// first, each nested cause rendered after the text that introduces it.
    pub fn describe(&self) -> (r: String)
        ensures
            r@ == reason_text(self@),
        decreases self,
    {
        let mut out = String::new();
        match self {
            UnsafeReason::NotByValueSafe { ty } => {
                out.append("type ");
                let p = ty.qualified_name();
                out.append(p.as_str());
                out.append(" is not safe for by-value use");
                proof {
                    assert(out@ =~= reason_text(self@));
                }
            },
            UnsafeReason::Blocklisted { ty } => {
                out.append("type ");
                let p = ty.qualified_name();
                out.append(p.as_str());
                out.append(" is on the blocklist");
                proof {
                    assert(out@ =~= reason_text(self@));
                }
            },
            UnsafeReason::DeclarationMissing { ty, field: Option::None } => {
                out.append("Unable to confirm ");
                let p = ty.qualified_name();
                out.append(p.as_str());
                out.append(" because we never saw a declaration");
                proof {
                    assert(out@ =~= reason_text(self@));
                }
            },
            UnsafeReason::DeclarationMissing { ty, field: Option::Some(f) } => {
                out.append("type ");
                let p = ty.qualified_name();
                out.append(p.as_str());
                out.append(" could not be by-value because its dependent type ");
                let q = f.qualified_name();
                out.append(q.as_str());
                out.append(" isn't known");
                proof {
                    assert(out@ =~= reason_text(self@));
                }
            },
            UnsafeReason::DependentTypeUnsafe { ty, field, cause } => {
                out.append("type ");
                let p = ty.qualified_name();
                out.append(p.as_str());
                out.append(" could not be by-value because its dependent type ");
                let q = field.qualified_name();
                out.append(q.as_str());
                out.append(" isn't safe to be by-value. Because: ");
                let rest = (&**cause).describe();
                out.append(rest.as_str());
                proof {
                    assert(out@ =~= reason_text(self@));
                }
            },
            UnsafeReason::HasVirtualDispatch { ty } => {
                out.append("type ");
                let p = ty.qualified_name();
                out.append(p.as_str());
                out.append(" could not be by-value because it has virtual functions");
                proof {
                    assert(out@ =~= reason_text(self@));
                }
            },
            UnsafeReason::ComplexOrOpaqueAlias { ty } => {
                out.append("type ");
                let p = ty.qualified_name();
                out.append(p.as_str());
                out.append(" is a typedef to a complex type");
                proof {
                    assert(out@ =~= reason_text(self@));
                }
            },
        }
        out
    }
}

} // verus!
