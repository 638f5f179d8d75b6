use mlua_bindgen::utils::add_tabs;
use mlua_bindgen::utils::get_lua_prefix;
use mlua_bindgen::utils::remove_lua_prefix;
use mlua_bindgen::utils::ends_with_str;
use mlua_bindgen::utils::replace_str;
use mlua_bindgen::utils::str_eq;
use mlua_bindgen::utils::contains_attr;

#[test]
fn lua_prefix() {
    assert_eq!(get_lua_prefix("LuaType"), Some(3));
    assert_eq!(get_lua_prefix("lua_func"), Some(4));
    assert_eq!(get_lua_prefix("HLua"), None);
    assert_eq!(get_lua_prefix("slua_func"), None);
}

#[test]
fn rm_lua_prefix() {
    assert_eq!(remove_lua_prefix("LuaType".to_owned()), "Type".to_owned());
    assert_eq!(remove_lua_prefix("lua_func".to_owned()), "func".to_owned());

    assert_eq!(remove_lua_prefix("HLua".to_owned()), "HLua".to_owned());
    assert_eq!(
        remove_lua_prefix("slua_func".to_owned()),
        "slua_func".to_owned()
    );
}

#[test]
fn tabs() {
    let s = "print(my_var)\nif everything.is_ok() then\n    print('Great!')\nend".to_owned();
    assert_eq!(
        add_tabs(s, 1),
        "    print(my_var)\n    if everything.is_ok() then\n        print('Great!')\n    end\n"
            .to_owned()
    );
}

#[test]
fn suffixes_are_recognized() {
    assert!(ends_with_str("math_module", "_module"));
    assert!(ends_with_str("a_module_module", "_module"));
    assert!(!ends_with_str("math_module_x", "_module"));
    assert!(!ends_with_str("plain", "_module"));
    assert!(!ends_with_str("mod", "_module"));
}

#[test]
fn replace_every_occurrence() {
    assert_eq!(replace_str("Self, a: Self", "Self", "Vector"), "Vector, a: Vector".to_owned());
    assert_eq!(replace_str("nothing here", "Self", "Vector"), "nothing here".to_owned());
}

#[test]
fn string_equality_and_attrs() {
    assert!(str_eq("mlua_bindgen", "mlua_bindgen"));
    assert!(!str_eq("mlua_bindgen", "mlua_bindgen_ignore"));
    let attrs = vec!["derive".to_owned(), "mlua_bindgen".to_owned()];
    assert!(contains_attr(&attrs, "mlua_bindgen"));
    assert!(!contains_attr(&attrs, "mlua_bindgen_ignore"));
}
