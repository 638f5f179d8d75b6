use mlua_bindgen::error::Error;
use mlua_bindgen::lua_type::LuaType;
use mlua_bindgen::lua_type::type_map;
use mlua_bindgen::ty_expr::PathArgs;
use mlua_bindgen::ty_expr::TyExpr;

fn named(name: &str) -> TyExpr {
    TyExpr::Path {
        name: name.to_owned(),
        args: PathArgs::Absent,
    }
}

fn generic(name: &str, args: Vec<TyExpr>) -> TyExpr {
    TyExpr::Path {
        name: name.to_owned(),
        args: PathArgs::Types(args),
    }
}

#[test]
fn lua_types() {
    let array = LuaType::Array(Box::new(LuaType::Boolean));
    assert_eq!(array.to_string(), "{boolean}".to_owned());

    let tuple = LuaType::Tuple(vec![
        LuaType::Boolean,
        LuaType::Custom("MyType".to_owned()),
        LuaType::Number,
        LuaType::Nil,
    ]);

    assert_eq!(
        tuple.to_string(),
        "(boolean, uMyType, number, nil)".to_owned()
    );

    let single_tuple = LuaType::Tuple(vec![LuaType::String]);

    assert_eq!(single_tuple.to_string(), "(string)".to_owned());
}

#[test]
fn into_lua_types() -> Result<(), Error> {
    let optional = LuaType::from_ty_expr(&generic("Option", vec![named("u32")]))?;

    // Here we match if the Lua type is an Option itself, and if it is, we
    // also check if its inner type is a number.
    assert!(matches!(optional, LuaType::Optional(inner) if matches!(*inner, LuaType::Number)));

    // The same check for the array as well.
    let array = LuaType::from_ty_expr(&TyExpr::Array(Box::new(named("String"))))?;
    assert!(matches!(array, LuaType::Array(inner) if matches!(*inner, LuaType::String)));

    Ok(())
}

#[test]
fn fail_into_lua_types() -> Result<(), Error> {
    let recursive =
        LuaType::from_ty_expr(&generic("Option", vec![generic("Option", vec![named("u32")])]));

    assert!(
        recursive.is_err(),
        "Recursive option types should fail to parse"
    );
    Ok(())
}

#[test]
fn union_arity_is_checked() {
    let bad = LuaType::from_ty_expr(&generic("Either", vec![named("u32")]));
    match bad {
        Err(Error::ParseErr { message }) => {
            assert_eq!(
                message,
                "Lua union types have to contain exactly 2 generic arguments"
            );
        }
        _ => panic!("expected a parse error"),
    }
    let good = LuaType::from_ty_expr(&generic("Either", vec![named("u32"), named("bool")]));
    assert!(
        matches!(good, Ok(LuaType::Either(l, r)) if matches!(*l, LuaType::Number) && matches!(*r, LuaType::Boolean))
    );
}

#[test]
fn unsupported_shapes_are_reported() {
    let bad = LuaType::from_ty_expr(&TyExpr::Other);
    match bad {
        Err(Error::Unimplemented { message }) => {
            assert_eq!(message, "For now only arrays and type paths are supported");
        }
        _ => panic!("expected an unimplemented error"),
    }
    let bare = LuaType::from_ty_expr(&generic("Option", vec![]));
    assert!(matches!(bare, Err(Error::ParseErr { .. })));
}

#[test]
fn plain_names_use_the_table() {
    assert!(matches!(LuaType::from_type_name("u64"), LuaType::Number));
    assert!(matches!(LuaType::from_type_name("bool"), LuaType::Boolean));
    assert!(matches!(LuaType::from_type_name("String"), LuaType::String));
    assert!(matches!(LuaType::from_type_name("Vec"), LuaType::Table));
    assert!(matches!(LuaType::from_type_name("Value"), LuaType::Any));
    // A name the table does not know becomes a custom type, with the
    // conventional prefix stripped.
    match LuaType::from_type_name("LuaVector") {
        LuaType::Custom(name) => assert_eq!(name, "Vector"),
        _ => panic!("expected a custom type"),
    }
}

#[test]
fn references_unwrap_and_tuples_map() {
    let unit = LuaType::from_ty_expr(&TyExpr::Tuple(vec![])).unwrap();
    assert!(matches!(unit, LuaType::Void));
    let r = LuaType::from_ty_expr(&TyExpr::Reference(Box::new(named("u8")))).unwrap();
    assert!(matches!(r, LuaType::Number));
    let t = LuaType::from_ty_expr(&TyExpr::Tuple(vec![named("u8"), named("bool")])).unwrap();
    assert_eq!(t.to_string(), "(number, boolean)");
}

#[test]
fn registry_lists_the_table() {
    let map = type_map();
    assert_eq!(map.len(), 35);
    assert_eq!(map[0].0, "i8");
    assert!(matches!(map[0].1, LuaType::Number));
    assert_eq!(map[14].0, "bool");
    assert!(matches!(map[14].1, LuaType::Boolean));
    assert_eq!(map[34].0, "Value");
    assert!(matches!(map[34].1, LuaType::Any));
}

#[test]
fn function_and_table_render_permissively() {
    assert_eq!(LuaType::Function.to_string(), "(any): any");
    assert_eq!(LuaType::Table.to_string(), "{any: any}");
    assert_eq!(
        LuaType::Either(Box::new(LuaType::Number), Box::new(LuaType::Nil)).to_string(),
        "number | nil"
    );
    assert_eq!(LuaType::Optional(Box::new(LuaType::String)).to_string(), "string");
    assert_eq!(LuaType::Void.to_string(), "");
}
