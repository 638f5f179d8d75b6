use mlua_bindgen::attrs::RawAttrArg;
use mlua_bindgen::attrs::RawAttrValue;
use mlua_bindgen::attrs::RawElem;
use mlua_bindgen::attrs::RawPath;
use mlua_bindgen::bindgen::BindgenTransformer;
use mlua_bindgen::bindgen::ParsedFile;
use mlua_bindgen::bindgen::RawFileMod;
use mlua_bindgen::bindgen::parse_file;
use mlua_bindgen::error::Error;
use mlua_bindgen::funcs::ArgPat;
use mlua_bindgen::funcs::RawArg;
use mlua_bindgen::funcs::RawFunc;
use mlua_bindgen::funcs::Visibility;
use mlua_bindgen::mods::RawItem;
use mlua_bindgen::mods::RawModule;
use mlua_bindgen::ty_expr::PathArgs;
use mlua_bindgen::ty_expr::TyExpr;
use mlua_bindgen::types::LuaArg;
use mlua_bindgen::types::LuaFunc;
use mlua_bindgen::types::LuaReturn;
use mlua_bindgen::lua_type::LuaType;

fn named(name: &str) -> TyExpr {
    TyExpr::Path {
        name: name.to_owned(),
        args: PathArgs::Absent,
    }
}

fn main_attr() -> RawAttrArg {
    RawAttrArg {
        keyword: "main".to_owned(),
        value: RawAttrValue::Absent,
    }
}

fn include_attr(names: &[&str]) -> RawAttrArg {
    RawAttrArg {
        keyword: "include".to_owned(),
        value: RawAttrValue::Array(
            names
                .iter()
                .map(|n| {
                    RawElem::Path(RawPath {
                        full: (*n).to_owned(),
                        last: (*n).to_owned(),
                    })
                })
                .collect(),
        ),
    }
}

fn marked_fn(name: &str, args: Vec<(&str, TyExpr)>, ret: Option<TyExpr>) -> RawItem {
    RawItem::Fn(RawFunc {
        attrs: vec!["mlua_bindgen".to_owned()],
        name: name.to_owned(),
        vis: Visibility::Public,
        args: args
            .into_iter()
            .map(|(n, t)| RawArg::Typed(ArgPat::Ident(n.to_owned()), t))
            .collect(),
        ret,
    })
}

fn module(name: &str, attr_args: Vec<RawAttrArg>, items: Vec<RawItem>) -> RawFileMod {
    RawFileMod {
        attr_args,
        module: RawModule {
            attrs: vec![],
            ident: name.to_owned(),
            vis: Visibility::Public,
            content: Some(items),
        },
    }
}

fn mul_items() -> Vec<RawItem> {
    vec![
        marked_fn(
            "mul",
            vec![
                ("_lua", named("Lua")),
                ("val1", named("f32")),
                ("val2", named("f32")),
            ],
            Some(named("f32")),
        ),
        marked_fn("ping", vec![("_lua", named("Lua"))], None),
    ]
}

fn nested_math_input() -> Vec<RawFileMod> {
    vec![
        module("main", vec![main_attr(), include_attr(&["math_module"])], vec![]),
        module("math", vec![include_attr(&["inner_module"])], vec![]),
        module("inner", vec![], mul_items()),
    ]
}

#[test]
fn nested_module_renders_numeric_function() {
    // A module `inner` exposing `mul(val1, val2)` and included by `math`
    // yields math's table with a nested inner table whose mul field is a
    // two-argument numeric function.
    let text = parse_file(nested_math_input())
        .unwrap()
        .transform_to_lua()
        .unwrap()
        .to_string();
    assert_eq!(
        text,
        "declare math: {\n    inner: {\n        mul: (val1: number, val2: number) -> number,\n        ping: () -> (),\n    },\n}\n\n"
    );
}

#[test]
fn rerunning_the_pipeline_is_byte_identical() {
    let first = parse_file(nested_math_input())
        .unwrap()
        .transform_to_lua()
        .unwrap()
        .to_string();
    let second = parse_file(nested_math_input())
        .unwrap()
        .transform_to_lua()
        .unwrap()
        .to_string();
    assert_eq!(first, second);
}

#[test]
fn straight_chain_resolves() {
    // root includes A, A includes B, B includes nothing.
    let input = vec![
        module("main", vec![main_attr(), include_attr(&["a_module"])], vec![]),
        module("a", vec![include_attr(&["b_module"])], vec![]),
        module("b", vec![], vec![]),
    ];
    let text = parse_file(input)
        .unwrap()
        .transform_to_lua()
        .unwrap()
        .to_string();
    assert_eq!(text, "declare a: {\n    b: {\n    },\n}\n\n");
}

#[test]
fn two_main_modules_are_rejected() {
    let input = vec![
        module("one", vec![main_attr()], vec![]),
        module("two", vec![main_attr()], vec![]),
    ];
    let err = parse_file(input).unwrap().transform_to_lua().unwrap_err();
    assert!(matches!(err, Error::MainModules { many: true }));
    assert_eq!(
        err.format_err(),
        "Found multiple main modules, while only 1 can be present at the same time"
    );
}

#[test]
fn a_missing_main_module_is_rejected() {
    let input = vec![module("math", vec![], vec![])];
    let err = parse_file(input).unwrap().transform_to_lua().unwrap_err();
    assert!(matches!(err, Error::MainModules { many: false }));
    assert_eq!(
        err.format_err(),
        "No main module found, can't construct a declaration file"
    );
}

#[test]
fn colliding_module_names_are_rejected() {
    let input = vec![
        module("main", vec![main_attr()], vec![]),
        module("dup", vec![], vec![]),
        module("dup", vec![], vec![]),
    ];
    let err = parse_file(input).unwrap().transform_to_lua().unwrap_err();
    match err {
        Error::Unimplemented { message } => {
            assert_eq!(
                message,
                "Found a colliding module name: \"dup\". mlua_bindgen currently can only work with unique module names, as it doesn't understand the module tree."
            );
        }
        _ => panic!("expected the collision error"),
    }
}

#[test]
fn unresolved_references_are_reported() {
    let input = vec![
        module("main", vec![main_attr(), include_attr(&["a_module"])], vec![]),
        module("a", vec![include_attr(&["missing_module"])], vec![]),
    ];
    let err = parse_file(input).unwrap().transform_to_lua().unwrap_err();
    match err {
        Error::Resolution { message } => {
            assert_eq!(message, "Module \"a\" has references that could not be resolved");
        }
        _ => panic!("expected a resolution error"),
    }
}

#[test]
fn a_module_claimed_by_two_parents_is_reported() {
    let input = vec![
        module("main", vec![main_attr(), include_attr(&["a_module", "b_module"])], vec![]),
        module("a", vec![include_attr(&["c_module"])], vec![]),
        module("b", vec![include_attr(&["c_module"])], vec![]),
        module("c", vec![], vec![]),
    ];
    let err = parse_file(input).unwrap().transform_to_lua().unwrap_err();
    match err {
        Error::Resolution { message } => {
            assert_eq!(message, "Module \"c\" is included by more than one module");
        }
        _ => panic!("expected a resolution error"),
    }
}

#[test]
fn ignored_modules_and_items_disappear() {
    // A module carrying the ignore marker is dropped with everything in it;
    // an item carrying the marker is dropped alone.
    let ignored_module = RawFileMod {
        attr_args: vec![],
        module: RawModule {
            attrs: vec!["mlua_bindgen_ignore".to_owned()],
            ident: "ignored".to_owned(),
            vis: Visibility::Public,
            content: Some(mul_items()),
        },
    };
    let mut hidden_fn = marked_fn("sneaky", vec![("_lua", named("Lua"))], None);
    if let RawItem::Fn(f) = &mut hidden_fn {
        f.attrs.push("mlua_bindgen_ignore".to_owned());
    }
    let main_mod = module(
        "main",
        vec![main_attr(), include_attr(&["ignored_module"])],
        vec![hidden_fn],
    );
    let text = parse_file(vec![main_mod, ignored_module])
        .unwrap()
        .transform_to_lua()
        .unwrap()
        .to_string();
    assert_eq!(text, "");
}

#[test]
fn main_module_items_become_top_level() {
    let input = vec![module(
        "main",
        vec![main_attr()],
        vec![
            marked_fn(
                "cool",
                vec![("_lua", named("Lua")), ("sm", named("u32"))],
                Some(named("u32")),
            ),
            marked_fn("ping", vec![("_lua", named("Lua"))], None),
        ],
    )];
    let text = parse_file(input)
        .unwrap()
        .transform_to_lua()
        .unwrap()
        .to_string();
    // A void function declares no return type at all.
    assert_eq!(
        text,
        "declare function cool(sm: number): number\n\ndeclare function ping()\n\n"
    );
}

#[test]
fn function_types_replace_the_self_keyword() {
    let func = LuaFunc {
        name: "add".to_owned(),
        doc: None,
        return_ty: LuaReturn {
            ty: LuaType::Custom("Self".to_owned()),
            optional: false,
        },
        args: vec![LuaArg {
            name: "with".to_owned(),
            ty: LuaType::Custom("Self".to_owned()),
            optional: false,
        }],
    };
    assert_eq!(func.get_fmt_args(), "with: uSelf");
    assert_eq!(func.as_ty(), "function(with: uSelf): uSelf");
    assert_eq!(
        func.as_ty_impl(&"Vector".to_owned(), true),
        "function(self, with: uVector): uVector"
    );
    assert_eq!(
        func.as_ty_impl(&"Vector".to_owned(), false),
        "function(with: uVector): uVector"
    );
}

#[test]
fn optional_returns_carry_nil() {
    let r = LuaReturn {
        ty: LuaType::Optional(Box::new(LuaType::Number)),
        optional: true,
    };
    assert_eq!(r.to_string(), ": number | nil");
    let v = LuaReturn {
        ty: LuaType::Void,
        optional: false,
    };
    assert_eq!(v.to_string(), "");
}

#[test]
fn parse_errors_format_with_their_prefix() {
    let e = Error::ParseErr {
        message: "broken".to_owned(),
    };
    assert_eq!(e.format_err(), "Got a parsing error: broken");
}

#[test]
fn the_builder_gathers_paths() {
    let t = BindgenTransformer::new()
        .add_input_file("src/lib.rs".to_owned())
        .add_input_file("src/api.rs".to_owned())
        .set_output_path("bindings.d.lua".to_owned());
    assert_eq!(t.in_paths, vec!["src/lib.rs".to_owned(), "src/api.rs".to_owned()]);
    assert_eq!(t.out_path, Some("bindings.d.lua".to_owned()));
}

#[test]
fn files_concatenate_in_order() {
    let f1 = parse_file(vec![module("main", vec![main_attr()], vec![])]).unwrap();
    let f2 = parse_file(vec![module("extra", vec![], vec![])]).unwrap();
    let combined = ParsedFile::from_parsed_files(vec![f1, f2]);
    // The main module from the first file still wins; "extra" is an orphan
    // nobody references and is dropped without error.
    let text = combined.transform_to_lua().unwrap().to_string();
    assert_eq!(text, "");
}

#[test]
fn data_types_render_twice() {
    // A data type renders once as an exported structural type (fields plus
    // method signatures) and once as a table of its class-level functions.
    let vector_impl = RawItem::Impl(mlua_bindgen::impls::RawImpl {
        attrs: vec!["mlua_bindgen".to_owned()],
        self_ty: "Vector".to_owned(),
        items: vec![
            mlua_bindgen::impls::RawImplItem::Fn(RawFunc {
                attrs: vec!["get".to_owned()],
                name: "x".to_owned(),
                vis: Visibility::Inherited,
                args: vec![
                    RawArg::Typed(ArgPat::Ident("_lua".to_owned()), named("Lua")),
                    RawArg::Typed(ArgPat::Ident("this".to_owned()), named("Self")),
                ],
                ret: Some(named("f32")),
            }),
            mlua_bindgen::impls::RawImplItem::Fn(RawFunc {
                attrs: vec!["func".to_owned()],
                name: "new".to_owned(),
                vis: Visibility::Inherited,
                args: vec![
                    RawArg::Typed(ArgPat::Ident("_lua".to_owned()), named("Lua")),
                    RawArg::Typed(ArgPat::Ident("x".to_owned()), named("f32")),
                    RawArg::Typed(ArgPat::Ident("y".to_owned()), named("f32")),
                ],
                ret: Some(named("Self")),
            }),
            mlua_bindgen::impls::RawImplItem::Fn(RawFunc {
                attrs: vec!["method".to_owned()],
                name: "add".to_owned(),
                vis: Visibility::Inherited,
                args: vec![
                    RawArg::Typed(ArgPat::Ident("_lua".to_owned()), named("Lua")),
                    RawArg::Typed(ArgPat::Ident("this".to_owned()), named("Self")),
                    RawArg::Typed(ArgPat::Ident("with".to_owned()), named("Self")),
                ],
                ret: Some(named("Self")),
            }),
        ],
    });
    let input = vec![module("main", vec![main_attr()], vec![vector_impl])];
    let text = parse_file(input)
        .unwrap()
        .transform_to_lua()
        .unwrap()
        .to_string();
    assert_eq!(
        text,
        "export type Vector = {\n    x: number,\n    add: function(self, with: uVector): uVector,\n}\n\ndeclare Vector: {\n    new: function(x: number, y: number): uVector,\n}\n\n"
    );
}

#[test]
fn enums_render_as_number_tables() {
    let colors = RawItem::Enum(mlua_bindgen::enums::RawEnum {
        attrs: vec!["mlua_bindgen".to_owned()],
        ident: "LuaColors".to_owned(),
        variants: vec![
            mlua_bindgen::enums::RawVariant {
                name: "Red".to_owned(),
                disc: mlua_bindgen::enums::RawDiscriminant::Empty,
            },
            mlua_bindgen::enums::RawVariant {
                name: "Green".to_owned(),
                disc: mlua_bindgen::enums::RawDiscriminant::Empty,
            },
        ],
    });
    let input = vec![module("main", vec![main_attr()], vec![colors])];
    let text = parse_file(input)
        .unwrap()
        .transform_to_lua()
        .unwrap()
        .to_string();
    // The conventional prefix is stripped from the declaration-facing
    // name, and the variants carry only their numeric type.
    assert_eq!(
        text,
        "declare Colors: {\n    Red: number,\n    Green: number,\n}\n\n"
    );
}
