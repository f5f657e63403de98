//! End-to-end tests of the by-value safety analysis: seeding, ingestion in
//! declaration order, confirmation, queries and diagnostic messages.

use byvalue_checker::{ByValueChecker, DeclKind, Declaration, TypeIdentifier, UnsafeReason};

fn root(name: &str) -> TypeIdentifier {
    TypeIdentifier::root(String::from(name))
}

#[test]
fn test_primitive_by_itself() {
    let bvc = ByValueChecker::new();
    let t_id = root("u32");
    assert!(bvc.is_pod(&t_id));
}

#[test]
fn test_primitives() {
    let mut bvc = ByValueChecker::new();
    let t_id = root("Foo");
    bvc.ingest_struct(t_id.clone(), vec![root("i32"), root("i64")], false);
    bvc.satisfy_requests(vec![t_id.clone()]).unwrap();
    assert!(bvc.is_pod(&t_id));
}

#[test]
fn test_nested_primitives() {
    let mut bvc = ByValueChecker::new();
    bvc.ingest_struct(root("Foo"), vec![root("i32"), root("i64")], false);
    let t_id = root("Bar");
    bvc.ingest_struct(t_id.clone(), vec![root("Foo"), root("i64")], false);
    bvc.satisfy_requests(vec![t_id.clone()]).unwrap();
    assert!(bvc.is_pod(&t_id));
}

#[test]
fn test_with_up() {
    let mut bvc = ByValueChecker::new();
    let t_id = root("Bar");
    bvc.ingest_struct(t_id.clone(), vec![root("UniquePtr"), root("i64")], false);
    bvc.satisfy_requests(vec![t_id.clone()]).unwrap();
    assert!(bvc.is_pod(&t_id));
}

#[test]
fn test_with_cxxstring() {
    let mut bvc = ByValueChecker::new();
    let t_id = root("Bar");
    bvc.ingest_struct(t_id.clone(), vec![root("CxxString"), root("i64")], false);
    assert!(bvc.satisfy_requests(vec![t_id]).is_err());
}

#[test]
fn seeded_safe_types_confirmed_without_request() {
    let bvc = ByValueChecker::new();
    for name in [
        "bool", "u8", "u16", "u32", "u64", "usize", "i8", "i16", "i32", "i64", "isize", "c_int",
        "c_uint", "UniquePtr",
    ] {
        assert!(bvc.is_pod(&root(name)), "{} should be by-value-safe", name);
    }
}

#[test]
fn seeded_string_type_not_pod() {
    let bvc = ByValueChecker::new();
    assert!(!bvc.is_pod(&root("CxxString")));
    assert!(!bvc.is_pod(&root("NeverHeardOf")));
}

#[test]
fn confirming_outer_confirms_inner() {
    let mut bvc = ByValueChecker::new();
    bvc.ingest_struct(root("Foo"), vec![root("i32")], false);
    bvc.ingest_struct(root("Bar"), vec![root("Foo")], false);
    bvc.satisfy_requests(vec![root("Bar")]).unwrap();
    assert!(bvc.is_pod(&root("Bar")));
    assert!(bvc.is_pod(&root("Foo")));
}

#[test]
fn unconfirmed_candidate_is_not_pod() {
    let mut bvc = ByValueChecker::new();
    bvc.ingest_struct(root("Foo"), vec![root("i32")], false);
    assert!(!bvc.is_pod(&root("Foo")));
}

#[test]
fn unsafe_field_reports_both_types() {
    let mut bvc = ByValueChecker::new();
    bvc.ingest_struct(root("Bar"), vec![root("CxxString")], false);
    let err = bvc.satisfy_requests(vec![root("Bar")]).unwrap_err();
    assert!(matches!(err, UnsafeReason::DependentTypeUnsafe { .. }));
    assert_eq!(
        err.describe().as_str(),
        "type Bar could not be by-value because its dependent type CxxString isn't safe to be \
         by-value. Because: type CxxString is not safe for by-value use"
    );
}

#[test]
fn nested_unsafe_chain_is_reported_whole() {
    let mut bvc = ByValueChecker::new();
    bvc.ingest_struct(root("Inner"), vec![root("CxxString")], false);
    bvc.ingest_struct(root("Outer"), vec![root("Inner")], false);
    let err = bvc.satisfy_requests(vec![root("Outer")]).unwrap_err();
    assert_eq!(
        err.describe().as_str(),
        "type Outer could not be by-value because its dependent type Inner isn't safe to be \
         by-value. Because: type Inner could not be by-value because its dependent type CxxString \
         isn't safe to be by-value. Because: type CxxString is not safe for by-value use"
    );
}

#[test]
fn unknown_field_reports_missing_declaration() {
    let mut bvc = ByValueChecker::new();
    bvc.ingest_struct(root("Foo"), vec![root("Mystery")], false);
    let err = bvc.satisfy_requests(vec![root("Foo")]).unwrap_err();
    assert!(matches!(
        err,
        UnsafeReason::DeclarationMissing { field: Some(_), .. }
    ));
    assert_eq!(
        err.describe().as_str(),
        "type Foo could not be by-value because its dependent type Mystery isn't known"
    );
}

#[test]
fn first_field_problem_wins() {
    let mut bvc = ByValueChecker::new();
    bvc.ingest_struct(root("Foo"), vec![root("Mystery"), root("CxxString")], false);
    let err = bvc.satisfy_requests(vec![root("Foo")]).unwrap_err();
    assert!(matches!(
        err,
        UnsafeReason::DeclarationMissing { field: Some(_), .. }
    ));
}

#[test]
fn requesting_undeclared_type_fails() {
    let mut bvc = ByValueChecker::new();
    let err = bvc.satisfy_requests(vec![root("Ghost")]).unwrap_err();
    assert!(matches!(
        err,
        UnsafeReason::DeclarationMissing { field: None, .. }
    ));
    assert_eq!(
        err.describe().as_str(),
        "Unable to confirm Ghost because we never saw a declaration"
    );
}

#[test]
fn blocklisted_type_fails_confirmation() {
    let mut bvc = ByValueChecker::new();
    bvc.ingest_blocklisted(root("Forbidden"));
    let err = bvc.satisfy_requests(vec![root("Forbidden")]).unwrap_err();
    assert!(matches!(err, UnsafeReason::Blocklisted { .. }));
    assert_eq!(err.describe().as_str(), "type Forbidden is on the blocklist");
}

#[test]
fn later_struct_overwrites_blocklist_entry() {
    // The ordering hazard, pinned: a struct ingested after a blocklist entry
    // for the same identifier silently replaces the blocklist verdict.
    let mut bvc = ByValueChecker::new();
    bvc.ingest_blocklisted(root("Forbidden"));
    bvc.ingest_struct(root("Forbidden"), vec![root("i32")], false);
    bvc.satisfy_requests(vec![root("Forbidden")]).unwrap();
    assert!(bvc.is_pod(&root("Forbidden")));
}

#[test]
fn confirming_twice_succeeds_and_changes_nothing() {
    let mut bvc = ByValueChecker::new();
    bvc.ingest_struct(root("Foo"), vec![root("i32")], false);
    bvc.satisfy_requests(vec![root("Foo")]).unwrap();
    assert!(bvc.is_pod(&root("Foo")));
    bvc.satisfy_requests(vec![root("Foo")]).unwrap();
    assert!(bvc.is_pod(&root("Foo")));
}

#[test]
fn alias_to_confirmed_type_resolves() {
    let mut bvc = ByValueChecker::new();
    bvc.ingest_enum(root("Colour"));
    bvc.ingest_alias(root("Hue"), root("Colour"));
    bvc.satisfy_requests(vec![root("Hue")]).unwrap();
    assert!(bvc.is_pod(&root("Hue")));
}

#[test]
fn alias_to_undeclared_target_fails() {
    let mut bvc = ByValueChecker::new();
    bvc.ingest_alias(root("Hue"), root("Colour"));
    let err = bvc.satisfy_requests(vec![root("Hue")]).unwrap_err();
    assert_eq!(
        err.describe().as_str(),
        "Unable to confirm Colour because we never saw a declaration"
    );
}

#[test]
fn enum_is_confirmed_at_ingestion() {
    let mut bvc = ByValueChecker::new();
    bvc.ingest_enum(root("Colour"));
    assert!(bvc.is_pod(&root("Colour")));
}

#[test]
fn opaque_type_is_unsafe() {
    let mut bvc = ByValueChecker::new();
    bvc.ingest_nonpod_type(root("Shadow"));
    let err = bvc.satisfy_requests(vec![root("Shadow")]).unwrap_err();
    assert!(matches!(err, UnsafeReason::ComplexOrOpaqueAlias { .. }));
    assert_eq!(
        err.describe().as_str(),
        "type Shadow is a typedef to a complex type"
    );
}

#[test]
fn virtual_dispatch_makes_struct_unsafe() {
    let mut bvc = ByValueChecker::new();
    bvc.ingest_struct(root("Widget"), vec![root("i32")], true);
    let err = bvc.satisfy_requests(vec![root("Widget")]).unwrap_err();
    assert!(matches!(err, UnsafeReason::HasVirtualDispatch { .. }));
    assert_eq!(
        err.describe().as_str(),
        "type Widget could not be by-value because it has virtual functions"
    );
}

#[test]
fn field_problem_takes_precedence_over_virtual_dispatch() {
    let mut bvc = ByValueChecker::new();
    bvc.ingest_struct(root("Widget"), vec![root("CxxString")], true);
    let err = bvc.satisfy_requests(vec![root("Widget")]).unwrap_err();
    assert!(matches!(err, UnsafeReason::DependentTypeUnsafe { .. }));
}

#[test]
fn last_request_is_processed_first() {
    // The worklist is a stack, so of two independently unsafe requests the
    // later one's error surfaces.
    let mut bvc = ByValueChecker::new();
    bvc.ingest_blocklisted(root("First"));
    bvc.ingest_blocklisted(root("Second"));
    let err = bvc
        .satisfy_requests(vec![root("First"), root("Second")])
        .unwrap_err();
    assert_eq!(err.describe().as_str(), "type Second is on the blocklist");
}

#[test]
fn forward_referenced_field_stays_unknown() {
    // Ingestion judges a struct against the store as it stood at that
    // moment; declaring the field type afterwards does not repair it.
    let mut bvc = ByValueChecker::new();
    bvc.ingest_struct(root("Bar"), vec![root("Foo")], false);
    bvc.ingest_struct(root("Foo"), vec![root("i32")], false);
    let err = bvc.satisfy_requests(vec![root("Bar")]).unwrap_err();
    assert_eq!(
        err.describe().as_str(),
        "type Bar could not be by-value because its dependent type Foo isn't known"
    );
}

#[test]
fn catalog_run_confirms_requested_types() {
    let declarations = vec![
        Declaration {
            name: root("Colour"),
            kind: DeclKind::EnumDecl,
        },
        Declaration {
            name: root("Pixel"),
            kind: DeclKind::StructDecl {
                fields: vec![root("u32"), root("Colour")],
                has_virtual_dispatch: false,
            },
        },
        Declaration {
            name: root("Shade"),
            kind: DeclKind::AliasDecl {
                target: Some(root("Colour")),
            },
        },
    ];
    let checker =
        ByValueChecker::new_from_catalog(declarations, Vec::new(), vec![root("Pixel")]).unwrap();
    assert!(checker.is_pod(&root("Pixel")));
    assert!(checker.is_pod(&root("Colour")));
    assert!(!checker.is_pod(&root("Unseen")));
}

#[test]
fn catalog_run_fails_on_blocklisted_request() {
    let declarations = vec![Declaration {
        name: root("Colour"),
        kind: DeclKind::EnumDecl,
    }];
    let err = ByValueChecker::new_from_catalog(
        declarations,
        vec![root("Evil")],
        vec![root("Evil")],
    )
    .unwrap_err();
    assert_eq!(err.describe().as_str(), "type Evil is on the blocklist");
}

#[test]
fn unresolved_alias_declaration_is_unsafe() {
    let declarations = vec![Declaration {
        name: root("Tangle"),
        kind: DeclKind::AliasDecl { target: None },
    }];
    let err =
        ByValueChecker::new_from_catalog(declarations, Vec::new(), vec![root("Tangle")])
            .unwrap_err();
    assert_eq!(
        err.describe().as_str(),
        "type Tangle is a typedef to a complex type"
    );
}

#[test]
fn qualified_names_join_namespace_segments() {
    let id = TypeIdentifier::new(
        vec![String::from("outer"), String::from("inner")],
        String::from("Thing"),
    );
    assert_eq!(id.qualified_name().as_str(), "outer::inner::Thing");
    assert_eq!(root("Thing").qualified_name().as_str(), "Thing");
}

#[test]
fn identifiers_compare_by_full_path() {
    let a = TypeIdentifier::new(vec![String::from("ns")], String::from("T"));
    let b = TypeIdentifier::new(vec![String::from("ns")], String::from("T"));
    let c = root("T");
    assert!(a.same_path(&b));
    assert!(!a.same_path(&c));
}

#[test]
fn fieldless_struct_confirms() {
    let mut bvc = ByValueChecker::new();
    bvc.ingest_struct(root("Unit"), Vec::new(), false);
    assert!(!bvc.is_pod(&root("Unit")));
    bvc.satisfy_requests(vec![root("Unit")]).unwrap();
    assert!(bvc.is_pod(&root("Unit")));
}

#[test]
fn alias_copies_tentative_verdict_without_confirming() {
    // An alias copies its target's verdict as a snapshot. If the target is
    // still a tentative candidate, the aliasing identifier ends tentative
    // too, so the run succeeds but the alias does not query true.
    let mut bvc = ByValueChecker::new();
    bvc.ingest_struct(root("Candidate"), vec![root("i32")], false);
    bvc.ingest_alias(root("Shortcut"), root("Candidate"));
    bvc.satisfy_requests(vec![root("Shortcut")]).unwrap();
    assert!(!bvc.is_pod(&root("Shortcut")));
}

#[test]
fn namespaces_distinguish_identifiers() {
    let mut bvc = ByValueChecker::new();
    let nested = TypeIdentifier::new(vec![String::from("detail")], String::from("Foo"));
    bvc.ingest_struct(nested.clone(), vec![root("i32")], false);
    bvc.satisfy_requests(vec![nested.clone()]).unwrap();
    assert!(bvc.is_pod(&nested));
    assert!(!bvc.is_pod(&root("Foo")));
}
