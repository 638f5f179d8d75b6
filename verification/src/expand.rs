//! Expanding: transforming the Lua-side items into luau declaration text.
//! Every emittable item produces a pair of texts: a global declaration for
//! file scope, and a nested declaration for a parent table's body.

use vstd::prelude::*;
use vstd::string::StrSliceExecFns;
use vstd::string::StringExecFns;

use crate::types::LuaEnum;
use crate::types::LuaEnumV;
use crate::types::LuaFunc;
use crate::types::LuaFuncV;
use crate::types::LuaModule;
use crate::types::LuaModuleV;
use crate::types::LuaStruct;
use crate::types::LuaStructV;
use crate::types::LuaVariantV;
use crate::types::LuaFieldV;
use crate::types::spec_as_ty_impl;
use crate::types::spec_fmt_args;
use crate::types::LuaReturnV;
use crate::types::spec_render_return;
use crate::types::lua_module_seq_view;
use crate::types::lemma_lua_module_seq_view;
use crate::lua_type::spec_render_ty;
use crate::utils::add_tabs;
use crate::utils::spec_add_tabs;

verus! {

broadcast use vstd::std_specs::vec::axiom_vec_decreases_to_view;

/// The doc comment block an item carries in the output, if any.
pub open spec fn spec_doc_part(doc: Option<Seq<char>>) -> Seq<char> {
    match doc {
        Some(d) => "--[["@ + d + "]]"@ + "\n"@,
        None => Seq::empty(),
    }
}

/// The return type as it stands after a function-type arrow: the bare type
/// with its nullability marker, or `()` where the function returns nothing.
pub open spec fn spec_return_arrow(r: LuaReturnV) -> Seq<char> {
    if r.ty is Void {
        "()"@
    } else {
        spec_render_ty(r.ty) + (if r.ty is Optional {
            " | nil"@
        } else {
            Seq::empty()
        })
    }
}

/// How a function expands: at file scope a `declare function` line (with
/// `: type` after the argument list, or nothing for a void return), nested
/// a named function-typed field `name: (args) -> type,`. The global text
/// is empty.
pub open spec fn spec_expand_func(f: LuaFuncV, inside_parent: bool) -> (Seq<char>, Seq<char>) {
    let body = if inside_parent {
        f.name + ": ("@ + spec_fmt_args(f.args) + ") -> "@ + spec_return_arrow(f.return_ty)
            + ","@ + "\n"@
    } else {
        "declare function "@ + f.name + "("@ + spec_fmt_args(f.args) + ")"@
            + spec_render_return(f.return_ty) + "\n"@
    };
    (Seq::empty(), spec_doc_part(f.doc) + body)
}

/// The variant lines of an expanded enum from position `i` on: each variant
/// is a number-typed field (the concrete value is not encoded).
pub open spec fn spec_enum_variants_from(vs: Seq<LuaVariantV>, i: int) -> Seq<char>
    decreases vs.len() - i,
{
    if i < 0 || i >= vs.len() {
        Seq::empty()
    } else {
        "    "@ + vs[i].name + ": number,"@ + "\n"@ + spec_enum_variants_from(vs, i + 1)
    }
}

/// How an enum expands: a table type mapping each variant name to a
/// number-typed field. The global text is empty.
pub open spec fn spec_expand_enum(e: LuaEnumV, inside_parent: bool) -> (Seq<char>, Seq<char>) {
    let header = if inside_parent {
        e.name + ": {"@ + "\n"@
    } else {
        "declare "@ + e.name + ": {"@ + "\n"@
    };
    let footer = "}"@ + (if inside_parent {
        ","@
    } else {
        Seq::empty()
    }) + "\n"@;
    (
        Seq::empty(),
        spec_doc_part(e.doc) + header + spec_enum_variants_from(e.variants, 0) + footer,
    )
}

/// The field lines of an exported structural type from position `i` on.
pub open spec fn spec_struct_fields_from(fs: Seq<LuaFieldV>, i: int) -> Seq<char>
    decreases fs.len() - i,
{
    if i < 0 || i >= fs.len() {
        Seq::empty()
    } else {
        "    "@ + fs[i].name + ": "@ + spec_render_ty(fs[i].ty) + ","@ + "\n"@
            + spec_struct_fields_from(fs, i + 1)
    }
}

/// The method lines of an exported structural type from position `i` on,
/// with `Self` rewritten to the type's own name.
pub open spec fn spec_struct_methods_from(ms: Seq<LuaFuncV>, i: int, name: Seq<char>) -> Seq<
    char,
>
    decreases ms.len() - i,
{
    if i < 0 || i >= ms.len() {
        Seq::empty()
    } else {
        "    "@ + ms[i].name + ": "@ + spec_as_ty_impl(ms[i], name, true) + ","@ + "\n"@
            + spec_struct_methods_from(ms, i + 1, name)
    }
}

/// The class-function lines of a data type's table from position `i` on.
pub open spec fn spec_struct_funcs_from(fs: Seq<LuaFuncV>, i: int, name: Seq<char>) -> Seq<char>
    decreases fs.len() - i,
{
    if i < 0 || i >= fs.len() {
        Seq::empty()
    } else {
        "    "@ + fs[i].name + ": "@ + spec_as_ty_impl(fs[i], name, false) + ","@ + "\n"@
            + spec_struct_funcs_from(fs, i + 1, name)
    }
}

/// How a data type expands: globally an exported structural type (fields
/// plus method signatures), nested a table of its class-level functions.
pub open spec fn spec_expand_struct(s: LuaStructV, inside_parent: bool) -> (Seq<char>, Seq<
    char,
>) {
    let global = spec_doc_part(s.doc) + "export type "@ + s.name + " = {"@ + "\n"@
        + spec_struct_fields_from(s.fields, 0) + spec_struct_methods_from(s.methods, 0, s.name)
        + "}"@ + "\n"@;
    let header = if inside_parent {
        s.name + ": {"@ + "\n"@
    } else {
        "declare "@ + s.name + ": {"@ + "\n"@
    };
    let footer = "}"@ + (if inside_parent {
        ","@
    } else {
        Seq::empty()
    }) + "\n"@;
    let expanded = spec_doc_part(s.doc) + header + spec_struct_funcs_from(s.funcs, 0, s.name)
        + footer;
    (global, expanded)
}

/// The expansions of a module's data types from position `i` on: globals
/// concatenated, nested texts indented one level and concatenated.
pub open spec fn spec_expand_impls_from(ss: Seq<LuaStructV>, i: int) -> (Seq<char>, Seq<char>)
    decreases ss.len() - i,
{
    if i < 0 || i >= ss.len() {
        (Seq::empty(), Seq::empty())
    } else {
        let one = spec_expand_struct(ss[i], true);
        let rest = spec_expand_impls_from(ss, i + 1);
        (one.0 + rest.0, spec_add_tabs(one.1, 1) + rest.1)
    }
}

/// The expansions of a module's enums from position `i` on, indented.
pub open spec fn spec_expand_enums_from(es: Seq<LuaEnumV>, i: int) -> Seq<char>
    decreases es.len() - i,
{
    if i < 0 || i >= es.len() {
        Seq::empty()
    } else {
        spec_add_tabs(spec_expand_enum(es[i], true).1, 1) + spec_expand_enums_from(es, i + 1)
    }
}

/// The expansions of a module's functions from position `i` on, indented.
pub open spec fn spec_expand_funcs_from(fs: Seq<LuaFuncV>, i: int) -> Seq<char>
    decreases fs.len() - i,
{
    if i < 0 || i >= fs.len() {
        Seq::empty()
    } else {
        spec_add_tabs(spec_expand_func(fs[i], true).1, 1) + spec_expand_funcs_from(fs, i + 1)
    }
}

/// How a module expands: a named table containing its data types, enums,
/// functions and child modules, each indented one level; its global text
/// gathers the globals of its data types and child modules.
pub open spec fn spec_expand_module(m: LuaModuleV, inside_parent: bool) -> (Seq<char>, Seq<
    char,
>)
    decreases m, 1int,
{
    let header = if inside_parent {
        m.name + ": {"@ + "\n"@
    } else {
        "declare "@ + m.name + ": {"@ + "\n"@
    };
    let footer = "}"@ + (if inside_parent {
        ","@
    } else {
        Seq::empty()
    }) + "\n"@;
    let impls = spec_expand_impls_from(m.impls, 0);
    let mods = spec_expand_mods_from(m.mods, 0);
    (
        impls.0 + mods.0,
        spec_doc_part(m.doc) + header + impls.1 + spec_expand_enums_from(m.enums, 0)
            + spec_expand_funcs_from(m.funcs, 0) + mods.1 + footer,
    )
}

/// The expansions of child modules from position `i` on: globals
/// concatenated, nested texts indented one level and concatenated.
pub open spec fn spec_expand_mods_from(ms: Seq<LuaModuleV>, i: int) -> (Seq<char>, Seq<char>)
    decreases ms, ms.len() - i,
{
    if i < 0 || i >= ms.len() {
        (Seq::empty(), Seq::empty())
    } else {
        let one = spec_expand_module(ms[i], true);
        let rest = spec_expand_mods_from(ms, i + 1);
        (one.0 + rest.0, spec_add_tabs(one.1, 1) + rest.1)
    }
}

/// An item that expands to luau declaration text.
pub trait LuaExpand {
    /// The pair of texts this item expands to: a global declaration and a
    /// nested declaration.
    spec fn spec_expand(&self, inside_parent: bool) -> (Seq<char>, Seq<char>);

    /// Expand to two strings: a global declaration (for example an
    /// `export type`) and a nested declaration (for module bodies).
    fn lua_expand(&self, inside_parent: bool) -> (r: (String, String))
        ensures
            r.0@ == self.spec_expand(inside_parent).0,
            r.1@ == self.spec_expand(inside_parent).1,
    ;
}

/// The doc comment block of an item, rendered.
fn doc_part(doc: &Option<String>) -> (r: String)
    ensures
        r@ == spec_doc_part(match doc {
            Option::Some(d) => Option::Some(d@),
            Option::None => Option::None,
        }),
{
    match doc {
        Option::Some(d) => {
            let mut r = "--[[".to_owned();
            r.append(d.as_str());
            r.append("]]");
            r.append("\n");
            proof {
                assert(r@ =~= "--[["@ + d@ + "]]"@ + "\n"@);
            }
            r
        },
        Option::None => String::new(),
    }
}

impl LuaExpand for LuaFunc {
    open spec fn spec_expand(&self, inside_parent: bool) -> (Seq<char>, Seq<char>) {
        spec_expand_func(self@, inside_parent)
    }

    fn lua_expand(&self, inside_parent: bool) -> (r: (String, String)) {
        let mut expanded = doc_part(&self.doc);
        let args = self.get_fmt_args();
        if inside_parent {
            expanded.append(self.name.as_str());
            expanded.append(": (");
            expanded.append(args.as_str());
            expanded.append(") -> ");
            match &self.return_ty.ty {
                crate::lua_type::LuaType::Void => {
                    expanded.append("()");
                },
                _ => {
                    let ty = self.return_ty.ty.to_string();
                    expanded.append(ty.as_str());
                    if self.return_ty.ty.is_optional() {
                        expanded.append(" | nil");
                    }
                },
            }
            expanded.append(",");
            expanded.append("\n");
        } else {
            let ret_ty = self.return_ty.to_string();
            expanded.append("declare function ");
            expanded.append(self.name.as_str());
            expanded.append("(");
            expanded.append(args.as_str());
            expanded.append(")");
            expanded.append(ret_ty.as_str());
            expanded.append("\n");
        }
        proof {
            assert(expanded@ =~= spec_expand_func(self@, inside_parent).1);
        }
        (String::new(), expanded)
    }
}

impl LuaExpand for LuaEnum {
    open spec fn spec_expand(&self, inside_parent: bool) -> (Seq<char>, Seq<char>) {
        spec_expand_enum(self@, inside_parent)
    }

    #[verifier::loop_isolation(false)]
    fn lua_expand(&self, inside_parent: bool) -> (r: (String, String)) {
        let ghost vs = self@.variants;
        let mut expanded = doc_part(&self.doc);
        if inside_parent {
            expanded.append(self.name.as_str());
            expanded.append(": {");
            expanded.append("\n");
        } else {
            expanded.append("declare ");
            expanded.append(self.name.as_str());
            expanded.append(": {");
            expanded.append("\n");
        }
        let ghost header_done = expanded@;
        proof {
            assert(header_done =~= spec_doc_part(self@.doc) + (if inside_parent {
                self@.name + ": {"@ + "\n"@
            } else {
                "declare "@ + self@.name + ": {"@ + "\n"@
            }));
        }
        let mut i: usize = 0;
        while i < self.variants.len()
            invariant
                i <= vs.len(),
                vs == self.variants@.map_values(|v: crate::types::LuaVariant| v@),
                expanded@ + spec_enum_variants_from(vs, i as int) == header_done
                    + spec_enum_variants_from(vs, 0),
            decreases vs.len() - i,
        {
            let ghost before = expanded@;
            expanded.append("    ");
            expanded.append(self.variants[i].name.as_str());
            expanded.append(": number,");
            expanded.append("\n");
            proof {
                assert(expanded@ + spec_enum_variants_from(vs, i as int + 1) =~= before
                    + spec_enum_variants_from(vs, i as int));
            }
            i += 1;
        }
        proof {
            assert(spec_enum_variants_from(vs, vs.len() as int) =~= Seq::<char>::empty());
            assert(expanded@ + Seq::<char>::empty() =~= expanded@);
        }
        expanded.append("}");
        if inside_parent {
            expanded.append(",");
        }
        expanded.append("\n");
        proof {
            assert(expanded@ =~= spec_expand_enum(self@, inside_parent).1);
        }
        (String::new(), expanded)
    }
}

/// The field lines of an exported structural type.
#[verifier::loop_isolation(false)]
fn struct_field_lines(fields: &Vec<crate::types::LuaField>) -> (r: String)
    ensures
        r@ == spec_struct_fields_from(fields@.map_values(|f: crate::types::LuaField| f@), 0),
{
    let ghost fieldsv = fields@.map_values(|f: crate::types::LuaField| f@);
    let mut out = String::new();
    let mut i: usize = 0;
    while i < fields.len()
        invariant
            i <= fieldsv.len(),
            fieldsv == fields@.map_values(|f: crate::types::LuaField| f@),
            out@ + spec_struct_fields_from(fieldsv, i as int) == spec_struct_fields_from(
                fieldsv,
                0,
            ),
        decreases fieldsv.len() - i,
    {
        let ghost before = out@;
        let fty = fields[i].ty.to_string();
        out.append("    ");
        out.append(fields[i].name.as_str());
        out.append(": ");
        out.append(fty.as_str());
        out.append(",");
        out.append("\n");
        proof {
            assert(out@ + spec_struct_fields_from(fieldsv, i as int + 1) =~= before
                + spec_struct_fields_from(fieldsv, i as int));
        }
        i += 1;
    }
    proof {
        assert(spec_struct_fields_from(fieldsv, fieldsv.len() as int) =~= Seq::<char>::empty());
        assert(out@ + Seq::<char>::empty() =~= out@);
    }
    out
}

/// The function-typed lines of a list of impl functions, with `Self`
/// rewritten to `name`; methods gain a leading `self` argument.
#[verifier::loop_isolation(false)]
fn impl_func_lines(funcs: &Vec<LuaFunc>, name: &String, is_method: bool) -> (r: String)
    ensures
        is_method ==> r@ == spec_struct_methods_from(
            funcs@.map_values(|f: LuaFunc| f@),
            0,
            name@,
        ),
        !is_method ==> r@ == spec_struct_funcs_from(
            funcs@.map_values(|f: LuaFunc| f@),
            0,
            name@,
        ),
{
    let ghost funcsv = funcs@.map_values(|f: LuaFunc| f@);
    let mut out = String::new();
    let mut i: usize = 0;
    while i < funcs.len()
        invariant
            i <= funcsv.len(),
            funcsv == funcs@.map_values(|f: LuaFunc| f@),
            is_method ==> out@ + spec_struct_methods_from(funcsv, i as int, name@)
                == spec_struct_methods_from(funcsv, 0, name@),
            !is_method ==> out@ + spec_struct_funcs_from(funcsv, i as int, name@)
                == spec_struct_funcs_from(funcsv, 0, name@),
        decreases funcsv.len() - i,
    {
        let ghost before = out@;
        let fty = funcs[i].as_ty_impl(name, is_method);
        out.append("    ");
        out.append(funcs[i].name.as_str());
        out.append(": ");
        out.append(fty.as_str());
        out.append(",");
        out.append("\n");
        proof {
            if is_method {
                assert(out@ + spec_struct_methods_from(funcsv, i as int + 1, name@) =~= before
                    + spec_struct_methods_from(funcsv, i as int, name@));
            } else {
                assert(out@ + spec_struct_funcs_from(funcsv, i as int + 1, name@) =~= before
                    + spec_struct_funcs_from(funcsv, i as int, name@));
            }
        }
        i += 1;
    }
    proof {
        assert(spec_struct_methods_from(funcsv, funcsv.len() as int, name@) =~= Seq::<
            char,
        >::empty());
        assert(spec_struct_funcs_from(funcsv, funcsv.len() as int, name@) =~= Seq::<
            char,
        >::empty());
        assert(out@ + Seq::<char>::empty() =~= out@);
    }
    out
}

impl LuaExpand for LuaStruct {
    open spec fn spec_expand(&self, inside_parent: bool) -> (Seq<char>, Seq<char>) {
        spec_expand_struct(self@, inside_parent)
    }

    fn lua_expand(&self, inside_parent: bool) -> (r: (String, String)) {
        // First expand the exported structural type.
        let mut global_ty = doc_part(&self.doc);
        global_ty.append("export type ");
        global_ty.append(self.name.as_str());
        global_ty.append(" = {");
        global_ty.append("\n");
        let field_lines = struct_field_lines(&self.fields);
        global_ty.append(field_lines.as_str());
        let method_lines = impl_func_lines(&self.methods, &self.name, true);
        global_ty.append(method_lines.as_str());
        global_ty.append("}");
        global_ty.append("\n");
        proof {
            assert(global_ty@ =~= spec_expand_struct(self@, inside_parent).0);
        }

        // Now expand the table of class-level functions.
        let mut expanded = doc_part(&self.doc);
        if inside_parent {
            expanded.append(self.name.as_str());
            expanded.append(": {");
            expanded.append("\n");
        } else {
            expanded.append("declare ");
            expanded.append(self.name.as_str());
            expanded.append(": {");
            expanded.append("\n");
        }
        let func_lines = impl_func_lines(&self.funcs, &self.name, false);
        expanded.append(func_lines.as_str());
        expanded.append("}");
        if inside_parent {
            expanded.append(",");
        }
        expanded.append("\n");
        proof {
            assert(expanded@ =~= spec_expand_struct(self@, inside_parent).1);
        }

        (global_ty, expanded)
    }
}

/// The expanded data types of a module: concatenated globals, and nested
/// texts indented one level.
#[verifier::loop_isolation(false)]
fn impls_parts(impls: &Vec<LuaStruct>) -> (r: (String, String))
    ensures
        r.0@ == spec_expand_impls_from(impls@.map_values(|s: LuaStruct| s@), 0).0,
        r.1@ == spec_expand_impls_from(impls@.map_values(|s: LuaStruct| s@), 0).1,
{
    let ghost implsv = impls@.map_values(|s: LuaStruct| s@);
    let mut global = String::new();
    let mut expanded = String::new();
    let mut i: usize = 0;
    while i < impls.len()
        invariant
            i <= implsv.len(),
            implsv == impls@.map_values(|s: LuaStruct| s@),
            global@ + spec_expand_impls_from(implsv, i as int).0 == spec_expand_impls_from(
                implsv,
                0,
            ).0,
            expanded@ + spec_expand_impls_from(implsv, i as int).1 == spec_expand_impls_from(
                implsv,
                0,
            ).1,
        decreases implsv.len() - i,
    {
        let ghost g_before = global@;
        let ghost e_before = expanded@;
        let (child_global, child_expand) = impls[i].lua_expand(true);
        let child_expand = add_tabs(child_expand, 1);
        global.append(child_global.as_str());
        expanded.append(child_expand.as_str());
        proof {
            assert(global@ + spec_expand_impls_from(implsv, i as int + 1).0 =~= g_before
                + spec_expand_impls_from(implsv, i as int).0);
            assert(expanded@ + spec_expand_impls_from(implsv, i as int + 1).1 =~= e_before
                + spec_expand_impls_from(implsv, i as int).1);
        }
        i += 1;
    }
    proof {
        assert(spec_expand_impls_from(implsv, implsv.len() as int).0 =~= Seq::<char>::empty());
        assert(spec_expand_impls_from(implsv, implsv.len() as int).1 =~= Seq::<char>::empty());
        assert(global@ + Seq::<char>::empty() =~= global@);
        assert(expanded@ + Seq::<char>::empty() =~= expanded@);
    }
    (global, expanded)
}

/// The expanded enums of a module, indented one level.
#[verifier::loop_isolation(false)]
fn enums_part(enums: &Vec<LuaEnum>) -> (r: String)
    ensures
        r@ == spec_expand_enums_from(enums@.map_values(|e: LuaEnum| e@), 0),
{
    let ghost enumsv = enums@.map_values(|e: LuaEnum| e@);
    let mut expanded = String::new();
    let mut i: usize = 0;
    while i < enums.len()
        invariant
            i <= enumsv.len(),
            enumsv == enums@.map_values(|e: LuaEnum| e@),
            expanded@ + spec_expand_enums_from(enumsv, i as int) == spec_expand_enums_from(
                enumsv,
                0,
            ),
        decreases enumsv.len() - i,
    {
        let ghost e_before = expanded@;
        let (_child_global, child_expand) = enums[i].lua_expand(true);
        let child_expand = add_tabs(child_expand, 1);
        expanded.append(child_expand.as_str());
        proof {
            assert(expanded@ + spec_expand_enums_from(enumsv, i as int + 1) =~= e_before
                + spec_expand_enums_from(enumsv, i as int));
        }
        i += 1;
    }
    proof {
        assert(spec_expand_enums_from(enumsv, enumsv.len() as int) =~= Seq::<char>::empty());
        assert(expanded@ + Seq::<char>::empty() =~= expanded@);
    }
    expanded
}

/// The expanded functions of a module, indented one level.
#[verifier::loop_isolation(false)]
fn funcs_part(funcs: &Vec<LuaFunc>) -> (r: String)
    ensures
        r@ == spec_expand_funcs_from(funcs@.map_values(|f: LuaFunc| f@), 0),
{
    let ghost funcsv = funcs@.map_values(|f: LuaFunc| f@);
    let mut expanded = String::new();
    let mut i: usize = 0;
    while i < funcs.len()
        invariant
            i <= funcsv.len(),
            funcsv == funcs@.map_values(|f: LuaFunc| f@),
            expanded@ + spec_expand_funcs_from(funcsv, i as int) == spec_expand_funcs_from(
                funcsv,
                0,
            ),
        decreases funcsv.len() - i,
    {
        let ghost e_before = expanded@;
        let (_child_global, child_expand) = funcs[i].lua_expand(true);
        let child_expand = add_tabs(child_expand, 1);
        expanded.append(child_expand.as_str());
        proof {
            assert(expanded@ + spec_expand_funcs_from(funcsv, i as int + 1) =~= e_before
                + spec_expand_funcs_from(funcsv, i as int));
        }
        i += 1;
    }
    proof {
        assert(spec_expand_funcs_from(funcsv, funcsv.len() as int) =~= Seq::<char>::empty());
        assert(expanded@ + Seq::<char>::empty() =~= expanded@);
    }
    expanded
}

/// The expanded child modules of a module: concatenated globals, and nested
/// texts indented one level.
#[verifier::loop_isolation(false)]
fn mods_parts(mods: &Vec<LuaModule>) -> (r: (String, String))
    ensures
        r.0@ == spec_expand_mods_from(lua_module_seq_view(mods@), 0).0,
        r.1@ == spec_expand_mods_from(lua_module_seq_view(mods@), 0).1,
    decreases mods@,
{
    let ghost modsv = lua_module_seq_view(mods@);
    proof {
        lemma_lua_module_seq_view(mods@);
    }
    let mut global = String::new();
    let mut expanded = String::new();
    let mut i: usize = 0;
    while i < mods.len()
        invariant
            i <= modsv.len(),
            modsv == lua_module_seq_view(mods@),
            modsv.len() == mods@.len(),
            forall|j: int|
                0 <= j < modsv.len() ==> modsv[j] == crate::types::lua_module_view(mods@[j]),
            global@ + spec_expand_mods_from(modsv, i as int).0 == spec_expand_mods_from(
                modsv,
                0,
            ).0,
            expanded@ + spec_expand_mods_from(modsv, i as int).1 == spec_expand_mods_from(
                modsv,
                0,
            ).1,
        decreases modsv.len() - i,
    {
        let ghost g_before = global@;
        let ghost e_before = expanded@;
        proof {
            assert(decreases_to!(mods@ => mods@[i as int]));
        }
        let (child_global, child_expand) = mods[i].expand_module(true);
        let child_expand = add_tabs(child_expand, 1);
        if !child_global.as_str().is_empty() {
            global.append(child_global.as_str());
        }
        expanded.append(child_expand.as_str());
        proof {
            if child_global@.len() == 0 {
                assert(global@ =~= g_before + child_global@);
            }
            assert(global@ + spec_expand_mods_from(modsv, i as int + 1).0 =~= g_before
                + spec_expand_mods_from(modsv, i as int).0);
            assert(expanded@ + spec_expand_mods_from(modsv, i as int + 1).1 =~= e_before
                + spec_expand_mods_from(modsv, i as int).1);
        }
        i += 1;
    }
    proof {
        assert(spec_expand_mods_from(modsv, modsv.len() as int).0 =~= Seq::<char>::empty());
        assert(spec_expand_mods_from(modsv, modsv.len() as int).1 =~= Seq::<char>::empty());
        assert(global@ + Seq::<char>::empty() =~= global@);
        assert(expanded@ + Seq::<char>::empty() =~= expanded@);
    }
    (global, expanded)
}

impl LuaModule {
    /// Expand this module and everything nested inside it.
    #[verifier::rlimit(100)]
    fn expand_module(&self, inside_parent: bool) -> (r: (String, String))
        ensures
            r.0@ == spec_expand_module(self@, inside_parent).0,
            r.1@ == spec_expand_module(self@, inside_parent).1,
        decreases *self,
    {
        let ghost mv = self@;
        proof {
            assert(decreases_to!(*self => self.mods));
            assert(decreases_to!(self.mods => self.mods@));
        }
        let ghost spec_header = if inside_parent {
            mv.name + ": {"@ + "\n"@
        } else {
            "declare "@ + mv.name + ": {"@ + "\n"@
        };
        let mut expanded = doc_part(&self.doc);
        if inside_parent {
            expanded.append(self.name.as_str());
            expanded.append(": {");
            expanded.append("\n");
        } else {
            expanded.append("declare ");
            expanded.append(self.name.as_str());
            expanded.append(": {");
            expanded.append("\n");
        }
        proof {
            assert(expanded@ =~= spec_doc_part(mv.doc) + spec_header);
        }
        let (impls_global, impls_expanded) = impls_parts(&self.impls);
        let e_part = enums_part(&self.enums);
        let f_part = funcs_part(&self.funcs);
        let (mods_global, mods_expanded) = mods_parts(&self.mods);
        let ghost s_impls = spec_expand_impls_from(mv.impls, 0);
        let ghost s_enums = spec_expand_enums_from(mv.enums, 0);
        let ghost s_funcs = spec_expand_funcs_from(mv.funcs, 0);
        let ghost s_mods = spec_expand_mods_from(mv.mods, 0);
        expanded.append(impls_expanded.as_str());
        proof {
            assert(expanded@ =~= spec_doc_part(mv.doc) + spec_header + s_impls.1);
        }
        expanded.append(e_part.as_str());
        proof {
            assert(expanded@ =~= spec_doc_part(mv.doc) + spec_header + s_impls.1 + s_enums);
        }
        expanded.append(f_part.as_str());
        proof {
            assert(expanded@ =~= spec_doc_part(mv.doc) + spec_header + s_impls.1 + s_enums
                + s_funcs);
        }
        expanded.append(mods_expanded.as_str());
        proof {
            assert(expanded@ =~= spec_doc_part(mv.doc) + spec_header + s_impls.1 + s_enums
                + s_funcs + s_mods.1);
        }
        expanded.append("}");
        if inside_parent {
            expanded.append(",");
        }
        expanded.append("\n");
        let mut global = impls_global;
        global.append(mods_global.as_str());
        proof {
            assert(global@ =~= spec_expand_module(mv, inside_parent).0);
            assert(expanded@ =~= spec_doc_part(mv.doc) + spec_header + s_impls.1 + s_enums
                + s_funcs + s_mods.1 + ("}"@ + (if inside_parent {
                ","@
            } else {
                Seq::<char>::empty()
            }) + "\n"@));
            assert(expanded@ =~= spec_expand_module(mv, inside_parent).1);
        }
        (global, expanded)
    }
}

impl LuaExpand for LuaModule {
    open spec fn spec_expand(&self, inside_parent: bool) -> (Seq<char>, Seq<char>) {
        spec_expand_module(self@, inside_parent)
    }

    fn lua_expand(&self, inside_parent: bool) -> (r: (String, String)) {
        self.expand_module(inside_parent)
    }
}

} // verus!
