use baker::bake::bake;
use baker::classify::classify_fields;
use baker::diag::{DiagKind, Diagnostic, Span};
use baker::schema::{Expr, Field, MapFn, Pat, SpannedExpr, SpannedMapFn, SpannedString, Struct};

fn sp(id: usize) -> Span {
    Span { id }
}

fn other_expr(tokens: &str, id: usize) -> SpannedExpr {
    SpannedExpr { expr: Expr::Other { tokens: tokens.to_string() }, span: sp(id) }
}

fn field_access(tokens: &str, id: usize) -> SpannedExpr {
    SpannedExpr { expr: Expr::FieldAccess { tokens: tokens.to_string() }, span: sp(id) }
}

fn closure_with(params: Vec<Pat>, body: &str, id: usize) -> SpannedExpr {
    SpannedExpr { expr: Expr::Closure { params, body: body.to_string() }, span: sp(id) }
}

fn closure(param: &str, body: &str, id: usize) -> SpannedExpr {
    closure_with(vec![Pat::Ident { name: param.to_string() }], body, id)
}

fn bare_field(ident: &str, ty: &str) -> Field {
    Field {
        ident: Some(ident.to_string()),
        vis: "pub".to_string(),
        ty: ty.to_string(),
        map: None,
        map_fn: None,
        ignore: false,
        new_type: None,
        name: None,
    }
}

fn schema(fields: Vec<Field>) -> Struct {
    Struct {
        ident: "Test".to_string(),
        vis: "pub".to_string(),
        generics: vec![],
        fields,
        name: "Baked".to_string(),
        name_view: None,
        error_type: None,
    }
}

fn kinds(ds: &[Diagnostic]) -> Vec<DiagKind> {
    ds.iter().map(|d| d.kind).collect()
}

#[test]
fn map_must_be_field_access() {
    let mut f = bare_field("a", "u8");
    f.map = Some(other_expr("1 + 1", 9));
    let ds = bake(schema(vec![f])).expect_err("not a field access");
    assert_eq!(kinds(&ds), vec![DiagKind::ExprNotField]);
    assert_eq!(ds[0].span, Some(sp(9)));
    assert_eq!(ds[0].message(), "Expression must be a field");
}

#[test]
fn map_fn_slots_must_be_closures() {
    let mut f = bare_field("a", "u8");
    f.map_fn = Some(SpannedMapFn {
        map_fn: MapFn {
            view: Some(field_access("u.a", 1)),
            bake: Some(closure("u", "u.a", 2)),
            try_view: None,
            try_bake: Some(other_expr("5", 3)),
        },
        span: sp(4),
    });
    let ds = bake(schema(vec![f])).expect_err("two slots are not closures");
    // The exclusivity check goes by what was supplied, so it fires beside the
    // shape errors.
    assert_eq!(
        kinds(&ds),
        vec![DiagKind::ExprNotClosure, DiagKind::ExprNotClosure, DiagKind::TryBakeWithBake]
    );
    assert_eq!(ds[0].span, Some(sp(1)));
    assert_eq!(ds[1].span, Some(sp(3)));
    assert_eq!(ds[2].span, Some(sp(3)));
    assert_eq!(ds[0].message(), "Expression must be a closure.");
}

#[test]
fn ignored_field_rejects_every_directive() {
    let mut f = bare_field("a", "u8");
    f.ignore = true;
    f.map = Some(field_access("u.a", 1));
    f.map_fn = Some(SpannedMapFn { map_fn: MapFn {
        view: None, bake: None, try_view: None, try_bake: None,
    }, span: sp(2) });
    f.new_type = Some(SpannedString { value: "u16".to_string(), span: sp(3) });
    f.name = Some(SpannedString { value: "b".to_string(), span: sp(4) });
    let ds = bake(schema(vec![f])).expect_err("four conflicting directives");
    assert_eq!(
        kinds(&ds),
        vec![
            DiagKind::MapOnIgnored,
            DiagKind::MapFnOnIgnored,
            DiagKind::TypeOnIgnored,
            DiagKind::NameOnIgnored,
        ]
    );
    assert_eq!(ds[0].span, Some(sp(1)));
    assert_eq!(ds[1].span, Some(sp(2)));
    assert_eq!(ds[2].span, Some(sp(3)));
    assert_eq!(ds[3].span, Some(sp(4)));
}

#[test]
fn map_and_map_fn_conflict() {
    let mut f = bare_field("a", "u8");
    f.map = Some(field_access("u.a", 1));
    f.map_fn = Some(SpannedMapFn {
        map_fn: MapFn { view: Some(closure("u", "&u.a", 2)), bake: None, try_view: None, try_bake: None },
        span: sp(3),
    });
    let ds = bake(schema(vec![f])).expect_err("both mapping kinds");
    assert_eq!(kinds(&ds), vec![DiagKind::MapFnWithMap]);
    assert_eq!(ds[0].span, Some(sp(3)));
    assert_eq!(ds[0].message(), "function-mapping must not be set if direct mapping is set");
}

#[test]
fn field_without_mapping_is_rejected() {
    let ds = bake(schema(vec![bare_field("a", "u8")])).expect_err("no mapping at all");
    assert_eq!(kinds(&ds), vec![DiagKind::NoMapping]);
    assert_eq!(ds[0].span, None);
    assert_eq!(ds[0].message(), "either direct mapping or a function mapping must be set");
}

#[test]
fn plain_and_fallible_conflict_per_direction() {
    let mut f = bare_field("a", "u8");
    f.map_fn = Some(SpannedMapFn {
        map_fn: MapFn {
            view: Some(closure("u", "&u.a", 1)),
            bake: Some(closure("u", "u.a", 2)),
            try_view: Some(closure("u", "Ok(&u.a)", 3)),
            try_bake: Some(closure("u", "Ok(u.a)", 4)),
        },
        span: sp(5),
    });
    let ds = bake(schema(vec![f])).expect_err("both fallibilities in both directions");
    assert_eq!(kinds(&ds), vec![DiagKind::TryBakeWithBake, DiagKind::TryViewWithView]);
    assert_eq!(ds[0].span, Some(sp(4)));
    assert_eq!(ds[1].span, Some(sp(3)));
}

#[test]
fn missing_direction_mappings_are_diagnosed() {
    // The first field function-maps both directions, so the second, which
    // only maps bake, is missing its view mapping — and a third, direct-mapped
    // field is exempt.
    let mut a = bare_field("a", "u8");
    a.map_fn = Some(SpannedMapFn {
        map_fn: MapFn {
            view: Some(closure("u", "&u.a", 1)),
            bake: Some(closure("u", "u.a", 2)),
            try_view: None,
            try_bake: None,
        },
        span: sp(3),
    });
    let mut b = bare_field("b", "u8");
    b.map_fn = Some(SpannedMapFn {
        map_fn: MapFn {
            view: None,
            bake: Some(closure("u", "u.b", 4)),
            try_view: None,
            try_bake: None,
        },
        span: sp(5),
    });
    let mut c = bare_field("c", "u8");
    c.map = Some(field_access("u.c", 6));

    let ds = bake(schema(vec![a, b, c])).expect_err("b is missing its view mapping");
    assert_eq!(kinds(&ds), vec![DiagKind::MissingViewMapping]);
    assert_eq!(ds[0].span, Some(sp(5)));
    assert_eq!(ds[0].message(), "missing view mapping");
}

#[test]
fn missing_bake_mapping_is_symmetric() {
    let mut a = bare_field("a", "u8");
    a.map_fn = Some(SpannedMapFn {
        map_fn: MapFn {
            view: None,
            bake: None,
            try_view: Some(closure("u", "Ok(&u.a)", 1)),
            try_bake: Some(closure("u", "Ok(u.a)", 2)),
        },
        span: sp(3),
    });
    let mut b = bare_field("b", "u8");
    b.map_fn = Some(SpannedMapFn {
        map_fn: MapFn {
            view: Some(closure("u", "&u.b", 4)),
            bake: None,
            try_view: None,
            try_bake: None,
        },
        span: sp(5),
    });
    let ds = bake(schema(vec![a, b])).expect_err("b is missing its bake mapping");
    assert_eq!(kinds(&ds), vec![DiagKind::MissingBakeMapping]);
    assert_eq!(ds[0].span, Some(sp(5)));
    assert_eq!(ds[0].message(), "missing bake mapping");
}

#[test]
fn closure_parameter_shapes_are_checked() {
    let mut a = bare_field("a", "u8");
    a.map_fn = Some(SpannedMapFn {
        map_fn: MapFn {
            view: Some(closure_with(vec![], "&1", 1)),
            bake: None,
            try_view: None,
            try_bake: None,
        },
        span: sp(2),
    });
    let ds = bake(schema(vec![a])).expect_err("closure has no parameter");
    assert_eq!(kinds(&ds), vec![DiagKind::ClosureNeedsParameter]);
    assert_eq!(ds[0].span, Some(sp(1)));
    assert_eq!(ds[0].message(), "Closure needs a parameter");

    let mut b = bare_field("b", "u8");
    b.map_fn = Some(SpannedMapFn {
        map_fn: MapFn {
            view: Some(closure_with(
                vec![
                    Pat::Ident { name: "u".to_string() },
                    Pat::Ident { name: "v".to_string() },
                ],
                "&u.b",
                3,
            )),
            bake: None,
            try_view: None,
            try_bake: None,
        },
        span: sp(4),
    });
    let ds = bake(schema(vec![b])).expect_err("closure has two parameters");
    assert_eq!(kinds(&ds), vec![DiagKind::ClosureExtraParameter]);
    assert_eq!(ds[0].span, Some(sp(3)));

    let mut c = bare_field("c", "u8");
    c.map_fn = Some(SpannedMapFn {
        map_fn: MapFn {
            view: Some(closure_with(
                vec![Pat::Other { tokens: "(x, y)".to_string() }],
                "&1",
                5,
            )),
            bake: None,
            try_view: None,
            try_bake: None,
        },
        span: sp(6),
    });
    let ds = bake(schema(vec![c])).expect_err("closure parameter is a pattern");
    assert_eq!(kinds(&ds), vec![DiagKind::ClosureParamNotIdent]);
    assert_eq!(ds[0].span, Some(sp(5)));
    assert_eq!(ds[0].message(), "Closure parameter needs to be an identifier");
}

#[test]
fn fallible_direction_needs_error_type() {
    let mut f = bare_field("a", "u8");
    f.map_fn = Some(SpannedMapFn {
        map_fn: MapFn {
            view: Some(closure("u", "&u.a", 1)),
            bake: None,
            try_view: None,
            try_bake: Some(closure("u", "u.checked()", 2)),
        },
        span: sp(3),
    });
    let ds = bake(schema(vec![f])).expect_err("fallible bake without an error type");
    assert_eq!(kinds(&ds), vec![DiagKind::ErrorTypeRequired]);
    assert_eq!(ds[0].span, None);
    assert_eq!(ds[0].message(), "error_type is required when a fallible mapping is used");
}

#[test]
fn diagnostics_of_all_fields_are_collected() {
    // Three independently broken fields: every violation surfaces in one
    // pass, in declaration order.
    let mut a = bare_field("a", "u8");
    a.map = Some(other_expr("a + b", 1));
    let b = bare_field("b", "u8");
    let mut c = bare_field("c", "u8");
    c.ignore = true;
    c.new_type = Some(SpannedString { value: "u16".to_string(), span: sp(2) });

    let ds = bake(schema(vec![a, b, c])).expect_err("three broken fields");
    assert_eq!(
        kinds(&ds),
        vec![DiagKind::ExprNotField, DiagKind::NoMapping, DiagKind::TypeOnIgnored]
    );
}

#[test]
fn classify_fields_returns_fields_unchanged() {
    let mut f = bare_field("a", "u8");
    f.map = Some(field_access("u.a", 1));
    let fields = vec![f.clone()];
    match classify_fields(fields) {
        Ok(back) => assert_eq!(back, vec![f]),
        Err(_) => panic!("field is valid"),
    }
}

#[test]
fn is_path_and_is_closure_check_shapes() {
    assert!(Field::is_path(Some(field_access("u.a", 1))).is_ok());
    assert!(Field::is_path(None).is_ok());
    let d = Field::is_path(Some(other_expr("1", 2))).unwrap_err();
    assert_eq!(d.kind, DiagKind::ExprNotField);
    assert_eq!(d.span, Some(sp(2)));

    assert!(MapFn::is_closure(Some(closure("u", "&u.a", 3))).is_ok());
    assert!(MapFn::is_closure(None).is_ok());
    let d = MapFn::is_closure(Some(field_access("u.a", 4))).unwrap_err();
    assert_eq!(d.kind, DiagKind::ExprNotClosure);
    assert_eq!(d.span, Some(sp(4)));
}

#[test]
fn valid_combination_accepts_and_rejects() {
    let mut good = bare_field("a", "u8");
    good.map = Some(field_access("u.a", 1));
    assert_eq!(good.clone().valid_combination(), Ok(good));

    let mut bad = bare_field("a", "u8");
    bad.ignore = true;
    bad.map = Some(field_access("u.a", 2));
    let ds = bad.valid_combination().unwrap_err();
    assert_eq!(kinds(&ds), vec![DiagKind::MapOnIgnored]);

    let good_fns = MapFn {
        view: Some(closure("u", "&u.a", 3)),
        bake: None,
        try_view: None,
        try_bake: Some(closure("u", "Ok(u.a)", 4)),
    };
    assert!(good_fns.clone().valid_combination().is_ok());

    let bad_fns = MapFn {
        view: Some(closure("u", "&u.a", 5)),
        bake: None,
        try_view: Some(closure("u", "Ok(&u.a)", 6)),
        try_bake: None,
    };
    let ds = bad_fns.valid_combination().unwrap_err();
    assert_eq!(kinds(&ds), vec![DiagKind::TryViewWithView]);
}
