use lifetime::{
    generate_reborrow_impl, generate_reborrow_impl_with, generate_widen_impl,
    generate_widen_impl_with, Arm, Body, Construction, ConstructorExpr, Contract, Declaration,
    FieldInit, FieldKey, FieldOp, Fields, GeneratedImpl, GenerationError, GenericArg, NamedField,
    Param, ParamKind, Policy, Scope, ScopeArg, Source, Style, TypeExpr, Variant,
};

fn s(x: &str) -> String {
    x.to_string()
}

fn scope(name: &str) -> Param {
    Param::Scope { name: s(name), bounds: vec![] }
}

/// `usize`, or any other path without generic arguments.
fn plain() -> TypeExpr {
    TypeExpr::Path { qualified: false, args: vec![] }
}

/// `Cow<'lt, str>`.
fn cow(lt: &str) -> TypeExpr {
    TypeExpr::Path {
        qualified: false,
        args: vec![GenericArg::Scope(Scope::Named(s(lt))), GenericArg::Type(plain())],
    }
}

/// `&'static Location<'static>`.
fn static_location_ref() -> TypeExpr {
    TypeExpr::Reference {
        scope: Scope::Unbounded,
        referent: Box::new(TypeExpr::Path {
            qualified: false,
            args: vec![GenericArg::Scope(Scope::Unbounded)],
        }),
    }
}

fn named(name: &str, ty: TypeExpr) -> NamedField {
    NamedField { name: s(name), ty }
}

fn record(params: Vec<Param>, fields: Fields) -> Declaration {
    Declaration { name: s("Example"), params, body: Body::Record(fields) }
}

fn init(key: FieldKey, source: Source, op: FieldOp) -> FieldInit {
    FieldInit { key, source, op }
}

fn by_name(n: &str) -> FieldKey {
    FieldKey::Named(s(n))
}

fn widen_impl(scopes: &[&str], body: ConstructorExpr) -> GeneratedImpl {
    GeneratedImpl {
        contract: Contract::Widen,
        impl_scopes: scopes.iter().map(|x| s(x)).collect(),
        self_reference: None,
        shape: s("Example"),
        type_args: scopes.iter().map(|x| s(x)).collect(),
        output_args: scopes.iter().map(|_| ScopeArg::Unbounded).collect(),
        body,
    }
}

fn reborrow_impl(scopes: &[&str], body: ConstructorExpr) -> GeneratedImpl {
    let mut impl_scopes = vec![s("ref_")];
    impl_scopes.extend(scopes.iter().map(|x| s(x)));
    GeneratedImpl {
        contract: Contract::Reborrow,
        impl_scopes,
        self_reference: Some(s("ref_")),
        shape: s("Example"),
        type_args: scopes.iter().map(|x| s(x)).collect(),
        output_args: scopes.iter().map(|_| ScopeArg::Named(s("ref_"))).collect(),
        body,
    }
}

fn construct(style: Style, inits: Vec<FieldInit>) -> ConstructorExpr {
    ConstructorExpr::Construct(Construction { shape: s("Example"), variant: None, style, inits })
}

/// `struct Example<'a> { primitive: usize, cow: Cow<'a, str> }`
fn primitive_and_cow_struct() -> Declaration {
    record(
        vec![scope("a")],
        Fields::Named(vec![named("primitive", plain()), named("cow", cow("a"))]),
    )
}

/// `struct Example<'a>(usize, Cow<'a, str>);`
fn tuple_struct() -> Declaration {
    record(vec![scope("a")], Fields::Positional(vec![plain(), cow("a")]))
}

/// `struct Example<'a>(&'static Location<'static>, Cow<'a, str>);`
fn struct_with_static_reference() -> Declaration {
    record(vec![scope("a")], Fields::Positional(vec![static_location_ref(), cow("a")]))
}

/// `enum Example<'a> { Primitive0 { number: usize }, Primitive1(usize),
/// Cow0 { string: Cow<'a, str> }, Cow1(Cow<'a, str>) }`
fn four_variant_enum() -> Declaration {
    Declaration {
        name: s("Example"),
        params: vec![scope("a")],
        body: Body::TaggedUnion(vec![
            Variant { name: s("Primitive0"), fields: Fields::Named(vec![named("number", plain())]) },
            Variant { name: s("Primitive1"), fields: Fields::Positional(vec![plain()]) },
            Variant { name: s("Cow0"), fields: Fields::Named(vec![named("string", cow("a"))]) },
            Variant { name: s("Cow1"), fields: Fields::Positional(vec![cow("a")]) },
        ]),
    }
}

fn enum_arm(variant: &str, style: Style, key: FieldKey, op: FieldOp) -> Arm {
    Arm {
        variant: s(variant),
        style,
        bindings: vec![key.clone()],
        result: Construction {
            shape: s("Example"),
            variant: Some(s(variant)),
            style,
            inits: vec![init(key, Source::Binding, op)],
        },
    }
}

fn enum_arms(keep: FieldOp, change: FieldOp) -> ConstructorExpr {
    ConstructorExpr::Match(vec![
        enum_arm("Primitive0", Style::Named, by_name("number"), keep),
        enum_arm("Primitive1", Style::Positional, FieldKey::Index(0), keep),
        enum_arm("Cow0", Style::Named, by_name("string"), change),
        enum_arm("Cow1", Style::Positional, FieldKey::Index(0), change),
    ])
}

#[test]
fn into_static_derive_primitive_and_cow_str_struct() {
    let expected = widen_impl(
        &["a"],
        construct(
            Style::Named,
            vec![
                init(by_name("primitive"), Source::SelfField, FieldOp::Move),
                init(by_name("cow"), Source::SelfField, FieldOp::Widen),
            ],
        ),
    );
    assert_eq!(generate_widen_impl(&primitive_and_cow_struct()), Ok(expected));
}

#[test]
fn into_static_derive_tuple_struct() {
    let expected = widen_impl(
        &["a"],
        construct(
            Style::Positional,
            vec![
                init(FieldKey::Index(0), Source::SelfField, FieldOp::Move),
                init(FieldKey::Index(1), Source::SelfField, FieldOp::Widen),
            ],
        ),
    );
    assert_eq!(generate_widen_impl(&tuple_struct()), Ok(expected));
}

#[test]
fn into_static_derive_enum() {
    let expected = widen_impl(&["a"], enum_arms(FieldOp::Move, FieldOp::Widen));
    assert_eq!(generate_widen_impl(&four_variant_enum()), Ok(expected));
}

#[test]
fn into_static_derive_struct_with_static_reference() {
    let expected = widen_impl(
        &["a"],
        construct(
            Style::Positional,
            vec![
                init(FieldKey::Index(0), Source::SelfField, FieldOp::Move),
                init(FieldKey::Index(1), Source::SelfField, FieldOp::Widen),
            ],
        ),
    );
    assert_eq!(generate_widen_impl(&struct_with_static_reference()), Ok(expected));
}

#[test]
#[should_panic]
fn into_static_derive_struct_with_generic_type() {
    // struct Example<T>(T);
    let decl = record(
        vec![Param::Type { name: s("T") }],
        Fields::Positional(vec![plain()]),
    );
    generate_widen_impl(&decl).expect("generic type parameters are not supported");
}

#[test]
#[should_panic]
fn derive_struct_with_generic_const() {
    // struct Example<const N: usize>;
    let decl = record(vec![Param::Const { name: s("N") }], Fields::Unit);
    generate_widen_impl(&decl).expect("const generic parameters are not supported");
}

#[test]
#[should_panic]
fn derive_struct_with_lifetime_constrains() {
    // struct Example<'a, 'b: 'a>(Cow<'a, str>, Cow<'b, str>);
    let decl = record(
        vec![
            scope("a"),
            Param::Scope { name: s("b"), bounds: vec![Scope::Named(s("a"))] },
        ],
        Fields::Positional(vec![cow("a"), cow("b")]),
    );
    generate_widen_impl(&decl).expect("bounded scope parameters are not supported");
}

#[test]
fn to_borrowed_derive_primitive_and_cow_str_struct() {
    let expected = reborrow_impl(
        &["a"],
        construct(
            Style::Named,
            vec![
                init(by_name("primitive"), Source::SelfField, FieldOp::Copy),
                init(by_name("cow"), Source::SelfField, FieldOp::Reborrow),
            ],
        ),
    );
    assert_eq!(generate_reborrow_impl(&primitive_and_cow_struct()), Ok(expected));
}

#[test]
fn to_borrowed_derive_tuple_struct() {
    let expected = reborrow_impl(
        &["a"],
        construct(
            Style::Positional,
            vec![
                init(FieldKey::Index(0), Source::SelfField, FieldOp::Copy),
                init(FieldKey::Index(1), Source::SelfField, FieldOp::Reborrow),
            ],
        ),
    );
    assert_eq!(generate_reborrow_impl(&tuple_struct()), Ok(expected));
}

#[test]
fn to_borrowed_derive_enum() {
    let expected = reborrow_impl(&["a"], enum_arms(FieldOp::Copy, FieldOp::Reborrow));
    assert_eq!(generate_reborrow_impl(&four_variant_enum()), Ok(expected));
}

#[test]
fn to_borrowed_derive_struct_with_static_reference() {
    let expected = reborrow_impl(
        &["a"],
        construct(
            Style::Positional,
            vec![
                init(FieldKey::Index(0), Source::SelfField, FieldOp::Copy),
                init(FieldKey::Index(1), Source::SelfField, FieldOp::Reborrow),
            ],
        ),
    );
    assert_eq!(generate_reborrow_impl(&struct_with_static_reference()), Ok(expected));
}

#[test]
#[should_panic]
fn to_borrowed_derive_struct_with_generic_type() {
    // struct Example<T>(T);
    let decl = record(
        vec![Param::Type { name: s("T") }],
        Fields::Positional(vec![plain()]),
    );
    generate_reborrow_impl(&decl).expect("generic type parameters are not supported");
}

#[test]
fn type_parameter_is_rejected_by_name() {
    let decl = record(
        vec![scope("a"), Param::Type { name: s("T") }, Param::Const { name: s("N") }],
        Fields::Positional(vec![plain()]),
    );
    let expected = GenerationError::UnsupportedParameterKind { name: s("T"), kind: ParamKind::Type };
    assert_eq!(generate_widen_impl(&decl), Err(expected.clone()));
    assert_eq!(generate_reborrow_impl(&decl), Err(expected));
}

#[test]
fn const_parameter_is_rejected_by_name() {
    let decl = record(vec![Param::Const { name: s("N") }], Fields::Positional(vec![plain()]));
    assert_eq!(
        generate_widen_impl(&decl),
        Err(GenerationError::UnsupportedParameterKind { name: s("N"), kind: ParamKind::Const })
    );
}

#[test]
fn bounded_scope_rejected_only_under_strict_policy() {
    let decl = record(
        vec![scope("a"), Param::Scope { name: s("b"), bounds: vec![Scope::Named(s("a"))] }],
        Fields::Positional(vec![cow("a"), cow("b")]),
    );
    assert_eq!(
        generate_widen_impl(&decl),
        Err(GenerationError::BoundedScopeParameter { marker: s("b") })
    );
    assert!(generate_widen_impl_with(&decl, Policy::Legacy).is_ok());
    assert!(generate_reborrow_impl_with(&decl, Policy::Legacy).is_ok());
}

#[test]
fn zero_field_record_is_rejected() {
    for fields in [Fields::Unit, Fields::Named(vec![]), Fields::Positional(vec![])] {
        let decl = record(vec![scope("a")], fields);
        let expected = GenerationError::EmptyShapeUnsupported { shape: s("Example") };
        assert_eq!(generate_widen_impl(&decl), Err(expected.clone()));
        assert_eq!(generate_reborrow_impl(&decl), Err(expected));
    }
}

#[test]
fn parameters_are_checked_before_the_shape() {
    let decl = record(vec![Param::Type { name: s("T") }], Fields::Unit);
    assert_eq!(
        generate_widen_impl(&decl),
        Err(GenerationError::UnsupportedParameterKind { name: s("T"), kind: ParamKind::Type })
    );
}

#[test]
fn field_less_variant_is_rejected_by_name() {
    let decl = Declaration {
        name: s("Example"),
        params: vec![scope("a")],
        body: Body::TaggedUnion(vec![
            Variant { name: s("Full"), fields: Fields::Positional(vec![cow("a")]) },
            Variant { name: s("Empty"), fields: Fields::Unit },
            Variant { name: s("Later"), fields: Fields::Unit },
        ]),
    };
    let expected = GenerationError::EmptyShapeUnsupported { shape: s("Empty") };
    assert_eq!(generate_widen_impl(&decl), Err(expected.clone()));
    assert_eq!(generate_reborrow_impl(&decl), Err(expected));
}

#[test]
fn variant_less_union_is_rejected() {
    let decl = Declaration { name: s("Never"), params: vec![], body: Body::TaggedUnion(vec![]) };
    assert_eq!(
        generate_widen_impl(&decl),
        Err(GenerationError::EmptyShapeUnsupported { shape: s("Never") })
    );
}

#[test]
fn untagged_union_is_rejected() {
    let decl = Declaration { name: s("Raw"), params: vec![scope("a")], body: Body::Untagged };
    let expected = GenerationError::UnsupportedDeclarationKind { name: s("Raw") };
    assert_eq!(generate_widen_impl(&decl), Err(expected.clone()));
    assert_eq!(generate_reborrow_impl(&decl), Err(expected));
}

#[test]
fn two_scopes_on_one_record() {
    // struct Example<'a, 'b> { a: Cow<'a, str>, b: Cow<'b, str> }
    let decl = record(
        vec![scope("a"), scope("b")],
        Fields::Named(vec![named("a", cow("a")), named("b", cow("b"))]),
    );
    let widened = generate_widen_impl(&decl).unwrap();
    assert_eq!(widened.impl_scopes, vec![s("a"), s("b")]);
    assert_eq!(widened.output_args, vec![ScopeArg::Unbounded, ScopeArg::Unbounded]);

    let reborrowed = generate_reborrow_impl(&decl).unwrap();
    assert_eq!(reborrowed.impl_scopes, vec![s("ref_"), s("a"), s("b")]);
    assert_eq!(reborrowed.self_reference, Some(s("ref_")));
    assert_eq!(reborrowed.type_args, vec![s("a"), s("b")]);
    assert_eq!(
        reborrowed.output_args,
        vec![ScopeArg::Named(s("ref_")), ScopeArg::Named(s("ref_"))]
    );
    assert_eq!(
        reborrowed.body,
        construct(
            Style::Named,
            vec![
                init(by_name("a"), Source::SelfField, FieldOp::Reborrow),
                init(by_name("b"), Source::SelfField, FieldOp::Reborrow),
            ],
        )
    );
}

#[test]
fn caller_scope_avoids_declared_names() {
    let decl = record(
        vec![scope("ref_"), scope("ref__")],
        Fields::Positional(vec![cow("ref_"), cow("ref__")]),
    );
    let g = generate_reborrow_impl(&decl).unwrap();
    assert_eq!(g.self_reference, Some(s("ref___")));
    assert_eq!(g.impl_scopes, vec![s("ref___"), s("ref_"), s("ref__")]);
    assert_eq!(g.output_args, vec![ScopeArg::Named(s("ref___")), ScopeArg::Named(s("ref___"))]);
}

#[test]
fn record_without_scope_parameters_is_identity() {
    // struct Plain { n: usize, f: fn(u8) -> u8 }
    let decl = Declaration {
        name: s("Plain"),
        params: vec![],
        body: Body::Record(Fields::Named(vec![
            named("n", plain()),
            named("f", TypeExpr::FnPointer),
        ])),
    };
    let w = generate_widen_impl(&decl).unwrap();
    assert!(w.output_args.is_empty());
    match w.body {
        ConstructorExpr::Construct(c) => {
            assert!(c.inits.iter().all(|i| i.op == FieldOp::Move));
            assert_eq!(c.inits.len(), 2);
        }
        _ => panic!("a record gives a constructor"),
    }
    let r = generate_reborrow_impl(&decl).unwrap();
    assert_eq!(r.impl_scopes, vec![s("ref_")]);
    match r.body {
        ConstructorExpr::Construct(c) => assert!(c.inits.iter().all(|i| i.op == FieldOp::Copy)),
        _ => panic!("a record gives a constructor"),
    }
}
