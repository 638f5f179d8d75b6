use mlua_bindgen::attrs::ItemAttribute;
use mlua_bindgen::attrs::RawAttrArg;
use mlua_bindgen::attrs::RawAttrValue;
use mlua_bindgen::attrs::RawElem;
use mlua_bindgen::attrs::RawPath;
use mlua_bindgen::attrs::parse_attributes;
use mlua_bindgen::enums::RawDiscriminant;
use mlua_bindgen::enums::RawEnum;
use mlua_bindgen::enums::RawVariant;
use mlua_bindgen::enums::parse_enum;
use mlua_bindgen::error::Error;
use mlua_bindgen::funcs::ArgPat;
use mlua_bindgen::funcs::FuncKind;
use mlua_bindgen::funcs::RawArg;
use mlua_bindgen::funcs::RawFunc;
use mlua_bindgen::funcs::Visibility;
use mlua_bindgen::funcs::parse_func;
use mlua_bindgen::impls::FieldKind;
use mlua_bindgen::impls::parse_field;
use mlua_bindgen::attrs::ItemAttributes;
use mlua_bindgen::mods::ModulePath;
use mlua_bindgen::mods::RawItem;
use mlua_bindgen::mods::RawModule;
use mlua_bindgen::mods::parse_mod;
use mlua_bindgen::ty_expr::PathArgs;
use mlua_bindgen::ty_expr::TyExpr;

fn named(name: &str) -> TyExpr {
    TyExpr::Path {
        name: name.to_owned(),
        args: PathArgs::Absent,
    }
}

fn variant(name: &str, disc: RawDiscriminant) -> RawVariant {
    RawVariant {
        name: name.to_owned(),
        disc,
    }
}

fn plain_fn(name: &str, args: Vec<RawArg>, ret: Option<TyExpr>) -> RawFunc {
    RawFunc {
        attrs: vec![],
        name: name.to_owned(),
        vis: Visibility::Public,
        args,
        ret,
    }
}

fn lua_arg(name: &str, ty: TyExpr) -> RawArg {
    RawArg::Typed(ArgPat::Ident(name.to_owned()), ty)
}

#[test]
fn enum_values_follow_the_rule() {
    // {Var1, Var2, Var4 = 3, Var100 = 100, Var101} maps to
    // {Var1: 0, Var2: 1, Var4: 3, Var100: 100, Var101: 101}.
    let parsed = parse_enum(RawEnum {
        attrs: vec![],
        ident: "GreatEnum".to_owned(),
        variants: vec![
            variant("Var1", RawDiscriminant::Empty),
            variant("Var2", RawDiscriminant::Empty),
            variant("Var4", RawDiscriminant::Int(3)),
            variant("Var100", RawDiscriminant::Int(100)),
            variant("Var101", RawDiscriminant::Empty),
        ],
    })
    .unwrap();
    assert_eq!(parsed.ident, "GreatEnum");
    let values: Vec<usize> = parsed.variants.iter().map(|p| p.1).collect();
    assert_eq!(values, vec![0, 1, 3, 100, 101]);
}

#[test]
fn enum_defaults_count_from_zero() {
    let parsed = parse_enum(RawEnum {
        attrs: vec![],
        ident: "Plain".to_owned(),
        variants: vec![
            variant("A", RawDiscriminant::Empty),
            variant("B", RawDiscriminant::Empty),
            variant("C", RawDiscriminant::Empty),
        ],
    })
    .unwrap();
    let values: Vec<usize> = parsed.variants.iter().map(|p| p.1).collect();
    assert_eq!(values, vec![0, 1, 2]);
}

#[test]
fn enum_bad_discriminants_are_rejected() {
    let bad = parse_enum(RawEnum {
        attrs: vec![],
        ident: "Bad".to_owned(),
        variants: vec![variant("A", RawDiscriminant::NonIntLit)],
    });
    match bad {
        Err(Error::Syn { item, message }) => {
            assert_eq!(item, "A");
            assert_eq!(message, "Only positive integers are accepted in enum discriminants");
        }
        _ => panic!("expected an error"),
    }
    let bad = parse_enum(RawEnum {
        attrs: vec![],
        ident: "Bad".to_owned(),
        variants: vec![variant("A", RawDiscriminant::NonLit)],
    });
    assert!(matches!(bad, Err(Error::Syn { .. })));
}

#[test]
fn function_arity_is_checked() {
    // A class function must take at least the `&Lua` plumbing argument.
    let bad = parse_func(plain_fn("cool_fn", vec![], None), &FuncKind::Func);
    match bad {
        Err(Error::Syn { item, message }) => {
            assert_eq!(item, "cool_fn");
            assert_eq!(
                message,
                "Not enough arguments. It should take &Lua as its first 1 arguments"
            );
        }
        _ => panic!("expected an error"),
    }
    // A receiver argument is rejected.
    let bad = parse_func(
        plain_fn("with_self", vec![RawArg::Receiver], None),
        &FuncKind::Func,
    );
    match bad {
        Err(Error::Syn { item, message }) => {
            assert_eq!(item, "with_self");
            assert_eq!(message, "Can't contain the self argument");
        }
        _ => panic!("expected an error"),
    }
}

#[test]
fn function_arguments_keep_their_marks() {
    let parsed = parse_func(
        plain_fn(
            "cool_fn",
            vec![
                lua_arg("_lua", named("Lua")),
                lua_arg("sm", named("u32")),
                lua_arg("is_true", named("bool")),
            ],
            Some(named("u32")),
        ),
        &FuncKind::Func,
    )
    .unwrap();
    assert_eq!(parsed.name, "cool_fn");
    assert_eq!(parsed.req_arg_count(), 1);
    assert_eq!(parsed.user_arg_count(), 2);
    assert!(parsed.args[0].required);
    assert!(!parsed.args[1].required);
}

#[test]
fn getter_with_visible_arguments_fails() {
    // A getter only takes the two plumbing arguments; one script-visible
    // argument makes it fail, under the name of the offending function.
    let bad = parse_field(
        plain_fn(
            "x",
            vec![
                lua_arg("_lua", named("Lua")),
                lua_arg("this", named("LuaSelf")),
                lua_arg("extra", named("u32")),
            ],
            Some(named("f32")),
        ),
        FieldKind::Getter,
    );
    match bad {
        Err(Error::Syn { item, message }) => {
            assert_eq!(item, "x");
            assert_eq!(
                message,
                "Getters can't contain more than 2 default arguments (&Lua and &Self)"
            );
        }
        _ => panic!("expected an error"),
    }
    // Without the extra argument the same declaration passes.
    let good = parse_field(
        plain_fn(
            "x",
            vec![lua_arg("_lua", named("Lua")), lua_arg("this", named("LuaSelf"))],
            Some(named("f32")),
        ),
        FieldKind::Getter,
    );
    assert!(good.is_ok());
}

#[test]
fn module_paths_strip_the_suffix() {
    let p = ModulePath::from_path(RawPath {
        full: "crate::math_module".to_owned(),
        last: "math_module".to_owned(),
    })
    .unwrap();
    assert_eq!(p.name(), "math");
    assert_eq!(p.name_prefixed(), "math_module");

    // The suffix may be repeated; only the trailing one is stripped.
    let p = ModulePath::from_path(RawPath {
        full: "a_module_module".to_owned(),
        last: "a_module_module".to_owned(),
    })
    .unwrap();
    assert_eq!(p.name(), "a_module");

    let bad = ModulePath::from_path(RawPath {
        full: "plain".to_owned(),
        last: "plain".to_owned(),
    });
    match bad {
        Err(Error::Syn { item, message }) => {
            assert_eq!(item, "plain");
            assert_eq!(message, "Included modules have to end with the \"_module\" keyword");
        }
        _ => panic!("expected an error"),
    }

    // A name that merely contains the suffix somewhere does not carry it.
    let bad = ModulePath::from_path(RawPath {
        full: "math_module_x".to_owned(),
        last: "math_module_x".to_owned(),
    });
    match bad {
        Err(Error::Syn { item, message }) => {
            assert_eq!(item, "math_module_x");
            assert_eq!(message, "Included modules have to end with the \"_module\" keyword");
        }
        _ => panic!("expected an error"),
    }
}

#[test]
fn attributes_parse_by_keyword() {
    let attrs = parse_attributes(vec![
        RawAttrArg {
            keyword: "main".to_owned(),
            value: RawAttrValue::Absent,
        },
        RawAttrArg {
            keyword: "include".to_owned(),
            value: RawAttrValue::Array(vec![RawElem::Path(RawPath {
                full: "inner_module".to_owned(),
                last: "inner_module".to_owned(),
            })]),
        },
        RawAttrArg {
            keyword: "post_init".to_owned(),
            value: RawAttrValue::Path(RawPath {
                full: "my::path::to::func".to_owned(),
                last: "func".to_owned(),
            }),
        },
    ])
    .unwrap();
    assert_eq!(attrs.0.len(), 3);
    assert!(matches!(attrs.0[0], ItemAttribute::IsMain));
    match &attrs.0[1] {
        ItemAttribute::Includes(ps) => {
            assert_eq!(ps.len(), 1);
            assert_eq!(ps[0].last, "inner_module");
        }
        _ => panic!("expected an include list"),
    }
    assert!(matches!(attrs.0[2], ItemAttribute::PostInitFunc(_)));
}

#[test]
fn unknown_attribute_keywords_are_rejected() {
    let bad = parse_attributes(vec![RawAttrArg {
        keyword: "frobnicate".to_owned(),
        value: RawAttrValue::Absent,
    }]);
    match bad {
        Err(Error::Syn { item, message }) => {
            assert_eq!(item, "frobnicate");
            assert_eq!(
                message,
                "Unknown keyword. Only `main`, `preserve` and `include` can be used"
            );
        }
        _ => panic!("expected an error"),
    }
    let bad = parse_attributes(vec![RawAttrArg {
        keyword: "preserve".to_owned(),
        value: RawAttrValue::Absent,
    }]);
    assert!(matches!(bad, Err(Error::Syn { .. })));
}

#[test]
fn modules_carry_their_attributes() {
    let attrs = parse_attributes(vec![
        RawAttrArg {
            keyword: "main".to_owned(),
            value: RawAttrValue::Absent,
        },
        RawAttrArg {
            keyword: "post_init".to_owned(),
            value: RawAttrValue::Path(RawPath {
                full: "setup::fill".to_owned(),
                last: "fill".to_owned(),
            }),
        },
        RawAttrArg {
            keyword: "include".to_owned(),
            value: RawAttrValue::Array(vec![RawElem::Path(RawPath {
                full: "math_module".to_owned(),
                last: "math_module".to_owned(),
            })]),
        },
    ])
    .unwrap();
    let parsed = parse_mod(
        attrs,
        RawModule {
            attrs: vec![],
            ident: "root".to_owned(),
            vis: Visibility::Public,
            content: Some(vec![]),
        },
        true,
    )
    .unwrap();
    assert!(parsed.ismain);
    assert!(!parsed.bindgen_ignore);
    assert_eq!(parsed.includes.len(), 1);
    assert_eq!(parsed.includes[0].name(), "math");
    assert_eq!(
        parsed.post_init_func.as_ref().map(|p| p.full.clone()),
        Some("setup::fill".to_owned())
    );
}

#[test]
fn repeated_includes_are_rejected() {
    let attrs = parse_attributes(vec![RawAttrArg {
        keyword: "include".to_owned(),
        value: RawAttrValue::Array(vec![
            RawElem::Path(RawPath {
                full: "math_module".to_owned(),
                last: "math_module".to_owned(),
            }),
            RawElem::Path(RawPath {
                full: "other::math_module".to_owned(),
                last: "math_module".to_owned(),
            }),
        ]),
    }])
    .unwrap();
    let bad = parse_mod(
        attrs,
        RawModule {
            attrs: vec![],
            ident: "root".to_owned(),
            vis: Visibility::Public,
            content: Some(vec![]),
        },
        true,
    );
    match bad {
        Err(Error::Syn { item, message }) => {
            assert_eq!(item, "other::math_module");
            assert_eq!(message, "Modules can't be repeatedly added");
        }
        _ => panic!("expected an error"),
    }
}

#[test]
fn nested_modules_are_rejected() {
    let bad = parse_mod(
        ItemAttributes::empty(),
        RawModule {
            attrs: vec![],
            ident: "outer".to_owned(),
            vis: Visibility::Public,
            content: Some(vec![RawItem::Mod("recursive".to_owned())]),
        },
        true,
    );
    match bad {
        Err(Error::Syn { item, message }) => {
            assert_eq!(item, "recursive");
            assert_eq!(
                message,
                "Can't implement recursive modules. You should combine them separately for now"
            );
        }
        _ => panic!("expected an error"),
    }
}
