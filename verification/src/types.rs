//! Lua-side declaration items: the arguments, functions, structs, enums and
//! modules that the emitter turns into declaration text, and their
//! conversion from the parsed host declarations.

use vstd::prelude::*;
use vstd::string::StrSliceExecFns;
use vstd::string::StringExecFns;

use crate::enums::ParsedEnum;
use crate::error::Error;
use crate::error::ErrorV;
use crate::funcs::ArgPat;
use crate::funcs::ArgPatV;
use crate::funcs::FuncArg;
use crate::funcs::FuncArgV;
use crate::funcs::ParsedFunc;
use crate::funcs::ParsedFuncV;
use crate::funcs::spec_count_args;
use crate::impls::FieldKind;
use crate::impls::ParsedFieldV;
use crate::impls::ParsedImpl;
use crate::impls::ParsedImplV;
use crate::impls::ParsedImplFuncV;
use crate::lua_type::LuaType;
use crate::lua_type::LuaTypeV;
use crate::lua_type::spec_map_ty;
use crate::lua_type::spec_render_ty;
use crate::mods::ModuleItem;
use crate::mods::ModuleItemV;
use crate::mods::ModulePath;
use crate::mods::ModulePathV;
use crate::mods::ParsedModule;
use crate::mods::ParsedModuleV;
use crate::utils::replace_str;
use crate::utils::spec_remove_lua_prefix;
use crate::utils::spec_replace;
use crate::utils::remove_lua_prefix;
use crate::utils::str_eq;

verus! {

/// An optional documentation string attached to an item.
pub type ItemDoc = Option<String>;

/// An argument for a luau function.
#[derive(Debug)]
pub struct LuaArg {
    pub name: String,
    pub ty: LuaType,
    /// Optional args can be left out when calling a function; in the host
    /// they are declared as `Option<T>`, in Lua they are just `T?`.
    pub optional: bool,
}

/// Mathematical image of a [`LuaArg`].
pub struct LuaArgV {
    pub name: Seq<char>,
    pub ty: LuaTypeV,
    pub optional: bool,
}

impl View for LuaArg {
    type V = LuaArgV;

    open spec fn view(&self) -> LuaArgV {
        LuaArgV { name: self.name@, ty: self.ty@, optional: self.optional }
    }
}

/// How an argument renders: its name, a `?` marker for an optional type,
/// and its type.
pub open spec fn spec_render_arg(a: LuaArgV) -> Seq<char> {
    a.name + (if a.ty is Optional {
        "?"@
    } else {
        Seq::empty()
    }) + ": "@ + spec_render_ty(a.ty)
}

impl LuaArg {
    /// Render this argument as `name: type` (with a `?` after the name of
    /// an optional).
    pub fn to_string(&self) -> (r: String)
        ensures
            r@ == spec_render_arg(self@),
    {
        let mut r = self.name.clone();
        if self.ty.is_optional() {
            r.append("?");
        }
        r.append(": ");
        let ty = self.ty.to_string();
        r.append(ty.as_str());
        proof {
            assert(r@ =~= spec_render_arg(self@));
        }
        r
    }
}

/// A return type for a luau function.
///
/// This only exists to simplify working with functions that return an
/// optional.
#[derive(Debug)]
pub struct LuaReturn {
    pub ty: LuaType,
    pub optional: bool,
}

/// Mathematical image of a [`LuaReturn`].
pub struct LuaReturnV {
    pub ty: LuaTypeV,
    pub optional: bool,
}

impl View for LuaReturn {
    type V = LuaReturnV;

    open spec fn view(&self) -> LuaReturnV {
        LuaReturnV { ty: self.ty@, optional: self.optional }
    }
}

/// How a return type renders: nothing for void, otherwise `: type`, with
/// ` | nil` after an optional.
pub open spec fn spec_render_return(r: LuaReturnV) -> Seq<char> {
    if r.ty is Void {
        Seq::empty()
    } else {
        ": "@ + spec_render_ty(r.ty) + (if r.ty is Optional {
            " | nil"@
        } else {
            Seq::empty()
        })
    }
}

impl LuaReturn {
    /// Render this return type.
    pub fn to_string(&self) -> (r: String)
        ensures
            r@ == spec_render_return(self@),
    {
        match &self.ty {
            LuaType::Void => String::new(),
            _ => {
                let mut r = ": ".to_owned();
                let ty = self.ty.to_string();
                r.append(ty.as_str());
                if self.ty.is_optional() {
                    r.append(" | nil");
                }
                proof {
                    assert(r@ =~= spec_render_return(self@));
                }
                r
            },
        }
    }
}

/// A field of a luau struct.
#[derive(Debug)]
pub struct LuaField {
    pub name: String,
    pub ty: LuaType,
}

/// Mathematical image of a [`LuaField`].
pub struct LuaFieldV {
    pub name: Seq<char>,
    pub ty: LuaTypeV,
}

impl View for LuaField {
    type V = LuaFieldV;

    open spec fn view(&self) -> LuaFieldV {
        LuaFieldV { name: self.name@, ty: self.ty@ }
    }
}

/// A variant of a luau enum.
#[derive(Debug)]
pub struct LuaVariant {
    pub name: String,
}

/// Mathematical image of a [`LuaVariant`].
pub struct LuaVariantV {
    pub name: Seq<char>,
}

impl View for LuaVariant {
    type V = LuaVariantV;

    open spec fn view(&self) -> LuaVariantV {
        LuaVariantV { name: self.name@ }
    }
}

/// A luau function: its name, doc, return type and named arguments.
#[derive(Debug)]
pub struct LuaFunc {
    pub name: String,
    pub doc: ItemDoc,
    pub return_ty: LuaReturn,
    pub args: Vec<LuaArg>,
}

/// Mathematical image of a [`LuaFunc`].
pub struct LuaFuncV {
    pub name: Seq<char>,
    pub doc: Option<Seq<char>>,
    pub return_ty: LuaReturnV,
    pub args: Seq<LuaArgV>,
}

impl View for LuaFunc {
    type V = LuaFuncV;

    open spec fn view(&self) -> LuaFuncV {
        LuaFuncV {
            name: self.name@,
            doc: match &self.doc {
                Option::Some(d) => Option::Some(d@),
                Option::None => Option::None,
            },
            return_ty: self.return_ty@,
            args: self.args@.map_values(|a: LuaArg| a@),
        }
    }
}

/// The script-visible arguments of a parsed function from position `i` on,
/// mapped to Lua: the first `skip` plumbing arguments and arguments without
/// a plain-identifier name are left out; the first type-mapping error wins.
pub open spec fn spec_lua_args(args: Seq<FuncArgV>, i: int, skip: int) -> Result<
    Seq<LuaArgV>,
    ErrorV,
>
    decreases args.len() - i,
{
    if i < 0 || i >= args.len() {
        Ok(Seq::empty())
    } else if i < skip {
        spec_lua_args(args, i + 1, skip)
    } else {
        match args[i].name {
            ArgPatV::Ident(nm) => match spec_map_ty(args[i].ty) {
                Err(e) => Err(e),
                Ok(t) => match spec_lua_args(args, i + 1, skip) {
                    Err(e) => Err(e),
                    Ok(rest) => Ok(
                        seq![LuaArgV { name: nm, ty: t, optional: t is Optional }] + rest,
                    ),
                },
            },
            ArgPatV::Other => spec_lua_args(args, i + 1, skip),
        }
    }
}

/// What converting a parsed function to a Lua function yields: the name
/// with its conventional prefix stripped, the mapped return type, and the
/// script-visible arguments; the return type's error wins over argument
/// errors.
pub open spec fn spec_lua_func(parsed: ParsedFuncV) -> Result<LuaFuncV, ErrorV> {
    match spec_map_ty(parsed.return_ty) {
        Err(e) => Err(e),
        Ok(rty) => match spec_lua_args(parsed.args, 0, spec_count_args(parsed.args, true, 0)) {
            Err(e) => Err(e),
            Ok(args) => Ok(
                LuaFuncV {
                    name: spec_remove_lua_prefix(parsed.name),
                    doc: Option::None,
                    return_ty: LuaReturnV { ty: rty, optional: rty is Optional },
                    args,
                },
            ),
        },
    }
}

/// The image of a Lua-function conversion result.
pub open spec fn lua_func_res_view(r: Result<LuaFunc, Error>) -> Result<LuaFuncV, ErrorV> {
    match r {
        Ok(f) => Ok(f@),
        Err(e) => Err(e@),
    }
}

/// Already-converted arguments prepended to the outcome for the rest.
pub open spec fn spec_prepend_args(
    done: Seq<LuaArgV>,
    rest: Result<Seq<LuaArgV>, ErrorV>,
) -> Result<Seq<LuaArgV>, ErrorV> {
    match rest {
        Ok(r) => Ok(done + r),
        Err(e) => Err(e),
    }
}

impl LuaFunc {
    /// Convert a parsed function into its Lua form.
    #[verifier::loop_isolation(false)]
    pub fn from_parsed(parsed: ParsedFunc) -> (r: Result<Self, Error>)
        ensures
            lua_func_res_view(r) == spec_lua_func(parsed@),
    {
        let ghost parsedv = parsed@;
        let name = remove_lua_prefix(parsed.name.clone());

        let return_ty = {
            let ty = match LuaType::from_ty_expr(&parsed.return_ty) {
                Ok(t) => t,
                Err(e) => {
                    return Err(e);
                },
            };
            let optional = ty.is_optional();
            LuaReturn { ty, optional }
        };

        // The amount of plumbing arguments required by the embedding; these
        // have no use in the declaration output.
        let skip_args = parsed.req_arg_count();

        let ghost argsv = parsedv.args;
        let mut args: Vec<LuaArg> = Vec::new();
        let mut ind: usize = 0;
        proof {
            assert(args@.map_values(|a: LuaArg| a@) =~= Seq::<LuaArgV>::empty());
            if spec_lua_args(argsv, 0, skip_args as int) is Ok {
                assert(Seq::<LuaArgV>::empty() + spec_lua_args(argsv, 0, skip_args as int)->Ok_0
                    =~= spec_lua_args(argsv, 0, skip_args as int)->Ok_0);
            }
        }
        while ind < parsed.args.len()
            invariant
                ind <= argsv.len(),
                argsv == parsed.args@.map_values(|a: FuncArg| a@),
                spec_lua_args(argsv, 0, skip_args as int) == spec_prepend_args(
                    args@.map_values(|a: LuaArg| a@),
                    spec_lua_args(argsv, ind as int, skip_args as int),
                ),
            decreases argsv.len() - ind,
        {
            let ghost done = args@.map_values(|a: LuaArg| a@);
            proof {
                assert(argsv[ind as int] == parsed.args@[ind as int]@);
            }
            let arg = &parsed.args[ind];
            if ind >= skip_args {
                match &arg.name {
                    ArgPat::Ident(pat_ident) => {
                        let arg_ty = match LuaType::from_ty_expr(&arg.ty) {
                            Ok(t) => t,
                            Err(e) => {
                                return Err(e);
                            },
                        };
                        let optional = arg_ty.is_optional();
                        let new_arg = LuaArg { name: pat_ident.clone(), ty: arg_ty, optional };
                        let ghost av = new_arg@;
                        proof {
                            let rest = spec_lua_args(argsv, ind as int + 1, skip_args as int);
                            if rest is Ok {
                                assert(done + (seq![av] + rest->Ok_0) =~= done.push(av)
                                    + rest->Ok_0);
                            }
                        }
                        args.push(new_arg);
                        proof {
                            assert(args@.map_values(|a: LuaArg| a@) =~= done.push(av));
                        }
                    },
                    ArgPat::Other => {},
                }
            }
            ind += 1;
        }
        proof {
            if spec_lua_args(argsv, 0, skip_args as int) is Ok {
                assert(args@.map_values(|a: LuaArg| a@) + Seq::<LuaArgV>::empty()
                    =~= args@.map_values(|a: LuaArg| a@));
            }
        }
        Ok(Self { name, doc: Option::None, return_ty, args })
    }
}

/// Rendered arguments joined with a comma separator, without parentheses.
pub open spec fn spec_fmt_args(args: Seq<LuaArgV>) -> Seq<char>
    decreases args.len(),
{
    if args.len() == 0 {
        Seq::empty()
    } else if args.len() == 1 {
        spec_render_arg(args[0])
    } else {
        spec_render_arg(args[0]) + ", "@ + spec_fmt_args(args.drop_first())
    }
}

/// The part of a rendered argument list after the first `i` arguments.
spec fn spec_fmt_args_tail(args: Seq<LuaArgV>, i: int) -> Seq<char>
    decreases args.len() - i,
{
    if i < 0 || i >= args.len() {
        Seq::empty()
    } else {
        ", "@ + spec_render_arg(args[i]) + spec_fmt_args_tail(args, i + 1)
    }
}

proof fn lemma_fmt_args_tail_shift(args: Seq<LuaArgV>, i: int)
    requires
        0 <= i,
        args.len() > 0,
    ensures
        spec_fmt_args_tail(args.drop_first(), i) == spec_fmt_args_tail(args, i + 1),
    decreases args.len() - i,
{
    if i < args.len() - 1 {
        assert(args.drop_first()[i] == args[i + 1]);
        lemma_fmt_args_tail_shift(args, i + 1);
    }
}

/// A rendered argument list is its first argument followed by the tail.
proof fn lemma_fmt_args_as_tail(args: Seq<LuaArgV>)
    requires
        args.len() > 0,
    ensures
        spec_fmt_args(args) == spec_render_arg(args[0]) + spec_fmt_args_tail(args, 1),
    decreases args.len(),
{
    if args.len() == 1 {
        assert(spec_fmt_args_tail(args, 1) == Seq::<char>::empty());
        assert(spec_render_arg(args[0]) + Seq::<char>::empty() =~= spec_render_arg(args[0]));
    } else {
        let df = args.drop_first();
        lemma_fmt_args_as_tail(df);
        lemma_fmt_args_tail_shift(args, 1);
        assert(df[0] == args[1]);
        assert(spec_fmt_args_tail(args, 1) == ", "@ + spec_render_arg(args[1])
            + spec_fmt_args_tail(args, 2));
        assert(spec_render_arg(args[0]) + (", "@ + spec_render_arg(args[1]) + spec_fmt_args_tail(
            args,
            2,
        )) =~= spec_render_arg(args[0]) + ", "@ + (spec_render_arg(args[1]) + spec_fmt_args_tail(
            args,
            2,
        )));
    }
}

/// How a function renders as a standalone function type:
/// `function(args)ret`.
pub open spec fn spec_as_ty(f: LuaFuncV) -> Seq<char> {
    "function("@ + spec_fmt_args(f.args) + ")"@ + spec_render_return(f.return_ty)
}

/// How a class function or method renders as a function type on the type
/// `ty`: every `Self` in the arguments and return type is rewritten to the
/// type's own name, and a method gains a leading `self` argument.
pub open spec fn spec_as_ty_impl(f: LuaFuncV, ty: Seq<char>, is_method: bool) -> Seq<char> {
    let args = spec_replace(spec_fmt_args(f.args), "Self"@, ty);
    let ret = spec_replace(spec_render_return(f.return_ty), "Self"@, ty);
    "function("@ + (if is_method {
        "self"@
    } else {
        Seq::empty()
    }) + (if is_method && args.len() > 0 {
        ", "@
    } else {
        Seq::empty()
    }) + args + ")"@ + ret
}

impl LuaFunc {
    /// Get luau formatted arguments: not an entire function declaration,
    /// only a formatted argument list like `a: number, b: string?`, without
    /// parentheses.
    #[verifier::loop_isolation(false)]
    pub fn get_fmt_args(&self) -> (r: String)
        ensures
            r@ == spec_fmt_args(self@.args),
    {
        let ghost vs = self@.args;
        proof {
            assert(vs == self.args@.map_values(|a: LuaArg| a@));
        }
        let mut string = String::new();
        let mut ind: usize = 0;
        while ind < self.args.len()
            invariant
                ind <= vs.len(),
                vs == self.args@.map_values(|a: LuaArg| a@),
                ind == 0 ==> string@ == Seq::<char>::empty(),
                ind > 0 ==> string@ + spec_fmt_args_tail(vs, ind as int) == spec_fmt_args(vs),
            decreases vs.len() - ind,
        {
            if ind > 0 {
                string.append(", ");
            }
            let piece = self.args[ind].to_string();
            string.append(piece.as_str());
            proof {
                if ind == 0 {
                    lemma_fmt_args_as_tail(vs);
                    assert(string@ =~= spec_render_arg(vs[0]));
                } else {
                    assert(spec_fmt_args_tail(vs, ind as int) == ", "@ + spec_render_arg(
                        vs[ind as int],
                    ) + spec_fmt_args_tail(vs, ind as int + 1));
                }
            }
            ind += 1;
        }
        proof {
            if vs.len() == 0 {
                assert(spec_fmt_args(vs) == Seq::<char>::empty());
            } else {
                assert(spec_fmt_args_tail(vs, vs.len() as int) == Seq::<char>::empty());
                assert(string@ + Seq::<char>::empty() =~= string@);
            }
        }
        string
    }

    /// Format self as a function type, for example for luau return types:
    /// `function(arg1, arg2, ...)` with the return type appended.
    pub fn as_ty(&self) -> (r: String)
        ensures
            r@ == spec_as_ty(self@),
    {
        let args = self.get_fmt_args();
        let ret = self.return_ty.to_string();
        let mut r = "function(".to_owned();
        r.append(args.as_str());
        r.append(")");
        r.append(ret.as_str());
        proof {
            assert(r@ =~= spec_as_ty(self@));
        }
        r
    }

    /// The same as [`LuaFunc::as_ty`], but for impl functions (class
    /// functions or methods): takes the type's name, and replaces every
    /// `Self` with it, since `Self` is not recognized in luau as a
    /// reference to the surrounding type.
    pub fn as_ty_impl(&self, ty: &String, is_method: bool) -> (r: String)
        ensures
            r@ == spec_as_ty_impl(self@, ty@, is_method),
    {
        let fmt_args = self.get_fmt_args();
        proof {
            reveal_strlit("Self");
        }
        let args = replace_str(fmt_args.as_str(), "Self", ty.as_str());
        let ret0 = self.return_ty.to_string();
        let return_ty = replace_str(ret0.as_str(), "Self", ty.as_str());

        let mut r = "function(".to_owned();
        if is_method {
            r.append("self");
        }
        if is_method && !args.as_str().is_empty() {
            r.append(", ");
        }
        r.append(args.as_str());
        r.append(")");
        r.append(return_ty.as_str());
        proof {
            assert(r@ =~= spec_as_ty_impl(self@, ty@, is_method));
        }
        r
    }
}

/// In luau described as both a type and a table.
#[derive(Debug)]
pub struct LuaStruct {
    pub name: String,
    pub doc: ItemDoc,
    pub fields: Vec<LuaField>,
    pub funcs: Vec<LuaFunc>,
    pub methods: Vec<LuaFunc>,
    pub meta_funcs: Vec<LuaFunc>,
}

/// Mathematical image of a [`LuaStruct`].
pub struct LuaStructV {
    pub name: Seq<char>,
    pub doc: Option<Seq<char>>,
    pub fields: Seq<LuaFieldV>,
    pub funcs: Seq<LuaFuncV>,
    pub methods: Seq<LuaFuncV>,
    pub meta_funcs: Seq<LuaFuncV>,
}

impl View for LuaStruct {
    type V = LuaStructV;

    open spec fn view(&self) -> LuaStructV {
        LuaStructV {
            name: self.name@,
            doc: match &self.doc {
                Option::Some(d) => Option::Some(d@),
                Option::None => Option::None,
            },
            fields: self.fields@.map_values(|f: LuaField| f@),
            funcs: self.funcs@.map_values(|f: LuaFunc| f@),
            methods: self.methods@.map_values(|f: LuaFunc| f@),
            meta_funcs: self.meta_funcs@.map_values(|f: LuaFunc| f@),
        }
    }
}

/// The impl functions from position `i` on, each converted to a Lua
/// function; the first error wins.
pub open spec fn spec_lua_funcs(fs: Seq<ParsedImplFuncV>, i: int) -> Result<
    Seq<LuaFuncV>,
    ErrorV,
>
    decreases fs.len() - i,
{
    if i < 0 || i >= fs.len() {
        Ok(Seq::empty())
    } else {
        match spec_lua_func(fs[i].func) {
            Err(e) => Err(e),
            Ok(f) => match spec_lua_funcs(fs, i + 1) {
                Err(e) => Err(e),
                Ok(rest) => Ok(seq![f] + rest),
            },
        }
    }
}

/// The getter fields from position `i` on: a getter's name with its mapped
/// return type; setters contribute nothing.
pub open spec fn spec_lua_fields(fields: Seq<ParsedFieldV>, i: int) -> Result<
    Seq<LuaFieldV>,
    ErrorV,
>
    decreases fields.len() - i,
{
    if i < 0 || i >= fields.len() {
        Ok(Seq::empty())
    } else if fields[i].kind is Getter {
        match spec_map_ty(fields[i].func.return_ty) {
            Err(e) => Err(e),
            Ok(t) => match spec_lua_fields(fields, i + 1) {
                Err(e) => Err(e),
                Ok(rest) => Ok(seq![LuaFieldV { name: fields[i].func.name, ty: t }] + rest),
            },
        }
    } else {
        spec_lua_fields(fields, i + 1)
    }
}

/// What converting a parsed impl block to a Lua struct yields: the type
/// name with its conventional prefix stripped; class functions, methods and
/// meta-functions each converted in order; and a field for every getter.
pub open spec fn spec_lua_struct(parsed: ParsedImplV) -> Result<LuaStructV, ErrorV> {
    match spec_lua_funcs(parsed.funcs, 0) {
        Err(e) => Err(e),
        Ok(funcs) => match spec_lua_funcs(parsed.methods, 0) {
            Err(e) => Err(e),
            Ok(methods) => match spec_lua_funcs(parsed.meta_funcs, 0) {
                Err(e) => Err(e),
                Ok(meta_funcs) => match spec_lua_fields(parsed.fields, 0) {
                    Err(e) => Err(e),
                    Ok(fields) => Ok(
                        LuaStructV {
                            name: spec_remove_lua_prefix(parsed.name),
                            doc: Option::None,
                            fields,
                            funcs,
                            methods,
                            meta_funcs,
                        },
                    ),
                },
            },
        },
    }
}

/// The image of a Lua-struct conversion result.
pub open spec fn lua_struct_res_view(r: Result<LuaStruct, Error>) -> Result<LuaStructV, ErrorV> {
    match r {
        Ok(s) => Ok(s@),
        Err(e) => Err(e@),
    }
}

/// Convert a list of impl functions into Lua functions.
#[verifier::loop_isolation(false)]
fn lua_funcs_of(fs: Vec<crate::impls::ParsedImplFunc>) -> (r: Result<Vec<LuaFunc>, Error>)
    ensures
        (match r {
            Ok(v) => spec_lua_funcs(fs@.map_values(|f: crate::impls::ParsedImplFunc| f@), 0)
                == Ok::<Seq<LuaFuncV>, ErrorV>(v@.map_values(|f: LuaFunc| f@)),
            Err(e) => spec_lua_funcs(fs@.map_values(|f: crate::impls::ParsedImplFunc| f@), 0)
                == Err::<Seq<LuaFuncV>, ErrorV>(e@),
        }),
{
    let ghost fsv = fs@.map_values(|f: crate::impls::ParsedImplFunc| f@);
    let mut rest = fs;
    let total = rest.len();
    let mut out: Vec<LuaFunc> = Vec::new();
    let mut i: usize = 0;
    proof {
        assert(out@.map_values(|f: LuaFunc| f@) =~= Seq::<LuaFuncV>::empty());
        if spec_lua_funcs(fsv, 0) is Ok {
            assert(Seq::<LuaFuncV>::empty() + spec_lua_funcs(fsv, 0)->Ok_0 =~= spec_lua_funcs(
                fsv,
                0,
            )->Ok_0);
        }
    }
    while rest.len() > 0
        invariant
            total == fsv.len(),
            i + rest@.len() == fsv.len(),
            rest@.map_values(|f: crate::impls::ParsedImplFunc| f@) == fsv.skip(i as int),
            ({
                let done = out@.map_values(|f: LuaFunc| f@);
                match spec_lua_funcs(fsv, i as int) {
                    Ok(r2) => spec_lua_funcs(fsv, 0) == Ok::<_, ErrorV>(done + r2),
                    Err(e) => spec_lua_funcs(fsv, 0) == Err::<Seq<LuaFuncV>, _>(e),
                }
            }),
        decreases rest@.len(),
    {
        let ghost restv = rest@.map_values(|f: crate::impls::ParsedImplFunc| f@);
        let ghost rest_old = rest@;
        let ghost done = out@.map_values(|f: LuaFunc| f@);
        let pf = rest.remove(0);
        proof {
            assert(pf == rest_old[0]);
            assert(pf@ == restv[0]);
            assert(restv[0] == fsv.skip(i as int)[0]);
            assert(fsv.skip(i as int)[0] == fsv[i as int]);
            assert(rest@.map_values(|f: crate::impls::ParsedImplFunc| f@) =~= restv.drop_first());
            assert(restv.drop_first() =~= fsv.skip(i as int + 1));
        }
        match LuaFunc::from_parsed(pf.func) {
            Ok(f) => {
                let ghost fv = f@;
                proof {
                    let after = spec_lua_funcs(fsv, i as int + 1);
                    if after is Ok {
                        assert(done + (seq![fv] + after->Ok_0) =~= done.push(fv) + after->Ok_0);
                    }
                }
                out.push(f);
                proof {
                    assert(out@.map_values(|x: LuaFunc| x@) =~= done.push(fv));
                }
            },
            Err(e) => {
                return Err(e);
            },
        }
        i += 1;
    }
    proof {
        assert(fsv.skip(fsv.len() as int) =~= Seq::<ParsedImplFuncV>::empty());
        if spec_lua_funcs(fsv, 0) is Ok {
            assert(out@.map_values(|f: LuaFunc| f@) + Seq::<LuaFuncV>::empty() =~= out@.map_values(
                |f: LuaFunc| f@,
            ));
        }
    }
    Ok(out)
}

impl LuaStruct {
    /// Convert a parsed impl block into its Lua form.
    #[verifier::loop_isolation(false)]
    pub fn from_parsed(parsed: ParsedImpl) -> (r: Result<Self, Error>)
        ensures
            lua_struct_res_view(r) == spec_lua_struct(parsed@),
    {
        let ghost parsedv = parsed@;
        // Remove the lua prefix of course, if it's present.
        let name = remove_lua_prefix(parsed.name.clone());

        let funcs = match lua_funcs_of(parsed.funcs) {
            Ok(v) => v,
            Err(e) => {
                return Err(e);
            },
        };
        let methods = match lua_funcs_of(parsed.methods) {
            Ok(v) => v,
            Err(e) => {
                return Err(e);
            },
        };
        // Meta functions are by type the same as methods, the sole
        // difference being their arguments.
        let meta_funcs = match lua_funcs_of(parsed.meta_funcs) {
            Ok(v) => v,
            Err(e) => {
                return Err(e);
            },
        };

        let ghost fieldsv = parsedv.fields;
        let mut fields: Vec<LuaField> = Vec::new();
        let mut rest = parsed.fields;
        let total = rest.len();
        let mut i: usize = 0;
        proof {
            assert(fields@.map_values(|f: LuaField| f@) =~= Seq::<LuaFieldV>::empty());
            if spec_lua_fields(fieldsv, 0) is Ok {
                assert(Seq::<LuaFieldV>::empty() + spec_lua_fields(fieldsv, 0)->Ok_0
                    =~= spec_lua_fields(fieldsv, 0)->Ok_0);
            }
        }
        while rest.len() > 0
            invariant
                total == fieldsv.len(),
                i + rest@.len() == fieldsv.len(),
                rest@.map_values(|f: crate::impls::ParsedField| f@) == fieldsv.skip(i as int),
                ({
                    let done = fields@.map_values(|f: LuaField| f@);
                    match spec_lua_fields(fieldsv, i as int) {
                        Ok(r2) => spec_lua_fields(fieldsv, 0) == Ok::<_, ErrorV>(done + r2),
                        Err(e) => spec_lua_fields(fieldsv, 0) == Err::<Seq<LuaFieldV>, _>(e),
                    }
                }),
            decreases rest@.len(),
        {
            let ghost restv = rest@.map_values(|f: crate::impls::ParsedField| f@);
            let ghost rest_old = rest@;
            let ghost done = fields@.map_values(|f: LuaField| f@);
            let field = rest.remove(0);
            proof {
                assert(field == rest_old[0]);
                assert(field@ == restv[0]);
                assert(restv[0] == fieldsv.skip(i as int)[0]);
                assert(fieldsv.skip(i as int)[0] == fieldsv[i as int]);
                assert(rest@.map_values(|f: crate::impls::ParsedField| f@) =~= restv.drop_first());
                assert(restv.drop_first() =~= fieldsv.skip(i as int + 1));
            }
            match field.kind {
                FieldKind::Getter => {
                    let fname = field.func.name.clone();
                    let fty = match LuaType::from_ty_expr(&field.func.return_ty) {
                        Ok(t) => t,
                        Err(e) => {
                            return Err(e);
                        },
                    };
                    let new_field = LuaField { name: fname, ty: fty };
                    let ghost fv = new_field@;
                    proof {
                        let after = spec_lua_fields(fieldsv, i as int + 1);
                        if after is Ok {
                            assert(done + (seq![fv] + after->Ok_0) =~= done.push(fv)
                                + after->Ok_0);
                        }
                    }
                    fields.push(new_field);
                    proof {
                        assert(fields@.map_values(|x: LuaField| x@) =~= done.push(fv));
                    }
                },
                FieldKind::Setter => {},
            }
            i += 1;
        }
        proof {
            assert(fieldsv.skip(fieldsv.len() as int) =~= Seq::<ParsedFieldV>::empty());
            if spec_lua_fields(fieldsv, 0) is Ok {
                assert(fields@.map_values(|f: LuaField| f@) + Seq::<LuaFieldV>::empty()
                    =~= fields@.map_values(|f: LuaField| f@));
            }
        }

        Ok(Self { name, doc: Option::None, funcs, fields, methods, meta_funcs })
    }
}

/// A Lua enum: a table whose variant names map to numbers.
#[derive(Debug)]
pub struct LuaEnum {
    pub name: String,
    pub doc: ItemDoc,
    pub variants: Vec<LuaVariant>,
}

/// Mathematical image of a [`LuaEnum`].
pub struct LuaEnumV {
    pub name: Seq<char>,
    pub doc: Option<Seq<char>>,
    pub variants: Seq<LuaVariantV>,
}

impl View for LuaEnum {
    type V = LuaEnumV;

    open spec fn view(&self) -> LuaEnumV {
        LuaEnumV {
            name: self.name@,
            doc: match &self.doc {
                Option::Some(d) => Option::Some(d@),
                Option::None => Option::None,
            },
            variants: self.variants@.map_values(|v: LuaVariant| v@),
        }
    }
}

/// What converting a parsed enum to a Lua enum yields: the name with its
/// conventional prefix stripped and the variant names in order (the numeric
/// values are not part of the declaration output).
pub open spec fn spec_lua_enum(parsed: crate::enums::ParsedEnumV) -> Result<LuaEnumV, ErrorV> {
    Ok(
        LuaEnumV {
            name: spec_remove_lua_prefix(parsed.ident),
            doc: Option::None,
            variants: parsed.variants.map_values(
                |p: (Seq<char>, crate::enums::LuaVariantType)| LuaVariantV { name: p.0 },
            ),
        },
    )
}

/// The image of a Lua-enum conversion result.
pub open spec fn lua_enum_res_view(r: Result<LuaEnum, Error>) -> Result<LuaEnumV, ErrorV> {
    match r {
        Ok(s) => Ok(s@),
        Err(e) => Err(e@),
    }
}

impl LuaEnum {
    /// Convert a parsed enum into its Lua form.
    #[verifier::loop_isolation(false)]
    pub fn from_parsed(parsed: ParsedEnum) -> (r: Result<Self, Error>)
        ensures
            lua_enum_res_view(r) == spec_lua_enum(parsed@),
    {
        let ghost parsedv = parsed@;
        let name = remove_lua_prefix(parsed.ident.clone());
        let mut variants: Vec<LuaVariant> = Vec::new();
        let mut i: usize = 0;
        while i < parsed.variants.len()
            invariant
                i <= parsedv.variants.len(),
                parsedv.variants == parsed.variants@.map_values(
                    |p: (String, crate::enums::LuaVariantType)| (p.0@, p.1),
                ),
                variants@.map_values(|v: LuaVariant| v@) == parsedv.variants.take(
                    i as int,
                ).map_values(|p: (Seq<char>, crate::enums::LuaVariantType)| LuaVariantV { name: p.0 }),
            decreases parsedv.variants.len() - i,
        {
            let ghost done = variants@.map_values(|v: LuaVariant| v@);
            let v = LuaVariant { name: parsed.variants[i].0.clone() };
            let ghost vv = v@;
            variants.push(v);
            proof {
                assert(variants@.map_values(|x: LuaVariant| x@) =~= done.push(vv));
                assert(parsedv.variants.take(i as int + 1).map_values(
                    |p: (Seq<char>, crate::enums::LuaVariantType)| LuaVariantV { name: p.0 },
                ) =~= done.push(vv));
            }
            i += 1;
        }
        proof {
            assert(parsedv.variants.take(parsedv.variants.len() as int) =~= parsedv.variants);
        }
        Ok(Self { name, doc: Option::None, variants })
    }
}

/// A Lua module: a named table holding the functions, types, enums and
/// child modules nested inside it.
#[derive(Debug)]
pub struct LuaModule {
    /// If this module is the main (entrypoint) module.
    pub ismain: bool,
    pub doc: ItemDoc,
    pub name: String,
    pub includes: Vec<ModulePath>,
    pub mods: Vec<LuaModule>,
    pub funcs: Vec<LuaFunc>,
    pub impls: Vec<LuaStruct>,
    pub enums: Vec<LuaEnum>,
}

/// Mathematical image of a [`LuaModule`].
pub struct LuaModuleV {
    pub ismain: bool,
    pub doc: Option<Seq<char>>,
    pub name: Seq<char>,
    pub includes: Seq<ModulePathV>,
    pub mods: Seq<LuaModuleV>,
    pub funcs: Seq<LuaFuncV>,
    pub impls: Seq<LuaStructV>,
    pub enums: Seq<LuaEnumV>,
}

/// The image of one Lua module.
pub open spec fn lua_module_view(m: LuaModule) -> LuaModuleV
    decreases m,
{
    LuaModuleV {
        ismain: m.ismain,
        doc: match m.doc {
            Option::Some(d) => Option::Some(d@),
            Option::None => Option::None,
        },
        name: m.name@,
        includes: m.includes@.map_values(|p: ModulePath| p@),
        mods: lua_module_seq_view(m.mods@),
        funcs: m.funcs@.map_values(|f: LuaFunc| f@),
        impls: m.impls@.map_values(|s: LuaStruct| s@),
        enums: m.enums@.map_values(|e: LuaEnum| e@),
    }
}

/// The images of a sequence of Lua modules, element for element.
pub open spec fn lua_module_seq_view(ms: Seq<LuaModule>) -> Seq<LuaModuleV>
    decreases ms,
{
    if ms.len() == 0 {
        Seq::empty()
    } else {
        seq![lua_module_view(ms[0])] + lua_module_seq_view(ms.drop_first())
    }
}

impl View for LuaModule {
    type V = LuaModuleV;

    open spec fn view(&self) -> LuaModuleV {
        lua_module_view(*self)
    }
}

/// The image of a sequence is the sequence of images.
pub proof fn lemma_lua_module_seq_view(ms: Seq<LuaModule>)
    ensures
        lua_module_seq_view(ms).len() == ms.len(),
        forall|i: int|
            0 <= i < ms.len() ==> lua_module_seq_view(ms)[i] == lua_module_view(ms[i]),
    decreases ms.len(),
{
    if ms.len() > 0 {
        lemma_lua_module_seq_view(ms.drop_first());
    }
}

/// The items of a module, converted and sorted into functions, impls and
/// enums.
pub type LuaModItemsV = (Seq<LuaFuncV>, Seq<LuaStructV>, Seq<LuaEnumV>);

/// The converted items of a parsed module from position `i` on: each goes
/// to the list of its kind, in order; the first error wins.
pub open spec fn spec_lua_mod_items(items: Seq<ModuleItemV>, i: int) -> Result<
    LuaModItemsV,
    ErrorV,
>
    decreases items.len() - i,
{
    if i < 0 || i >= items.len() {
        Ok((Seq::empty(), Seq::empty(), Seq::empty()))
    } else {
        let rest = spec_lua_mod_items(items, i + 1);
        match items[i] {
            ModuleItemV::Fn(f) => match spec_lua_func(f) {
                Err(e) => Err(e),
                Ok(lf) => match rest {
                    Err(e) => Err(e),
                    Ok(r) => Ok((seq![lf] + r.0, r.1, r.2)),
                },
            },
            ModuleItemV::Impl(im) => match spec_lua_struct(im) {
                Err(e) => Err(e),
                Ok(ls) => match rest {
                    Err(e) => Err(e),
                    Ok(r) => Ok((r.0, seq![ls] + r.1, r.2)),
                },
            },
            ModuleItemV::Enum(en) => match spec_lua_enum(en) {
                Err(e) => Err(e),
                Ok(le) => match rest {
                    Err(e) => Err(e),
                    Ok(r) => Ok((r.0, r.1, seq![le] + r.2)),
                },
            },
        }
    }
}

/// What converting a parsed module to a Lua module yields: its name kept as
/// it is, its main flag and include list carried over, its items converted
/// in order, and no children yet (resolution nests them later).
pub open spec fn spec_lua_module(parsed: ParsedModuleV) -> Result<LuaModuleV, ErrorV> {
    match spec_lua_mod_items(parsed.items, 0) {
        Err(e) => Err(e),
        Ok(t) => Ok(
            LuaModuleV {
                ismain: parsed.ismain,
                doc: Option::None,
                name: parsed.ident,
                includes: parsed.includes,
                mods: Seq::empty(),
                funcs: t.0,
                impls: t.1,
                enums: t.2,
            },
        ),
    }
}

/// The image of a Lua-module conversion result.
pub open spec fn lua_module_res_view(r: Result<LuaModule, Error>) -> Result<LuaModuleV, ErrorV> {
    match r {
        Ok(m) => Ok(m@),
        Err(e) => Err(e@),
    }
}

/// The include list with every reference to `name` removed.
pub open spec fn spec_retain_includes(
    incs: Seq<ModulePathV>,
    name: Seq<char>,
    i: int,
) -> Seq<ModulePathV>
    decreases incs.len() - i,
{
    if i < 0 || i >= incs.len() {
        Seq::empty()
    } else if incs[i].name == name {
        spec_retain_includes(incs, name, i + 1)
    } else {
        seq![incs[i]] + spec_retain_includes(incs, name, i + 1)
    }
}

impl LuaModule {
    /// Convert a parsed module into its Lua form.
    #[verifier::loop_isolation(false)]
    pub fn from_parsed(parsed: ParsedModule) -> (r: Result<Self, Error>)
        ensures
            lua_module_res_view(r) == spec_lua_module(parsed@),
    {
        let ghost parsedv = parsed@;
        let ghost itemsv = parsedv.items;
        let name = parsed.ident;

        let ismain = parsed.ismain;
        let mut funcs: Vec<LuaFunc> = Vec::new();
        let mut impls: Vec<LuaStruct> = Vec::new();
        let mut enums: Vec<LuaEnum> = Vec::new();

        let mut rest = parsed.items;
        let total = rest.len();
        let mut i: usize = 0;
        proof {
            assert(funcs@.map_values(|f: LuaFunc| f@) =~= Seq::<LuaFuncV>::empty());
            if spec_lua_mod_items(itemsv, 0) is Ok {
                let r0 = spec_lua_mod_items(itemsv, 0)->Ok_0;
                assert(Seq::<LuaFuncV>::empty() + r0.0 =~= r0.0);
                assert(Seq::<LuaStructV>::empty() + r0.1 =~= r0.1);
                assert(Seq::<LuaEnumV>::empty() + r0.2 =~= r0.2);
            }
        }
        while rest.len() > 0
            invariant
                total == itemsv.len(),
                i + rest@.len() == itemsv.len(),
                rest@.map_values(|it: ModuleItem| it@) == itemsv.skip(i as int),
                ({
                    let done = (
                        funcs@.map_values(|f: LuaFunc| f@),
                        impls@.map_values(|s: LuaStruct| s@),
                        enums@.map_values(|e: LuaEnum| e@),
                    );
                    match spec_lua_mod_items(itemsv, i as int) {
                        Ok(r2) => spec_lua_mod_items(itemsv, 0) == Ok::<_, ErrorV>(
                            (done.0 + r2.0, done.1 + r2.1, done.2 + r2.2),
                        ),
                        Err(e) => spec_lua_mod_items(itemsv, 0) == Err::<LuaModItemsV, _>(e),
                    }
                }),
            decreases rest@.len(),
        {
            let ghost restv = rest@.map_values(|it: ModuleItem| it@);
            let ghost rest_old = rest@;
            let ghost done = (
                funcs@.map_values(|f: LuaFunc| f@),
                impls@.map_values(|s: LuaStruct| s@),
                enums@.map_values(|e: LuaEnum| e@),
            );
            let item = rest.remove(0);
            proof {
                assert(item == rest_old[0]);
                assert(item@ == restv[0]);
                assert(restv[0] == itemsv.skip(i as int)[0]);
                assert(itemsv.skip(i as int)[0] == itemsv[i as int]);
                assert(rest@.map_values(|it: ModuleItem| it@) =~= restv.drop_first());
                assert(restv.drop_first() =~= itemsv.skip(i as int + 1));
            }
            let ghost after = spec_lua_mod_items(itemsv, i as int + 1);
            match item {
                ModuleItem::Fn(func) => match LuaFunc::from_parsed(func) {
                    Ok(f) => {
                        let ghost fv = f@;
                        proof {
                            if after is Ok {
                                assert(done.0 + (seq![fv] + after->Ok_0.0) =~= done.0.push(fv)
                                    + after->Ok_0.0);
                            }
                        }
                        funcs.push(f);
                        proof {
                            assert(funcs@.map_values(|x: LuaFunc| x@) =~= done.0.push(fv));
                        }
                    },
                    Err(e) => {
                        return Err(e);
                    },
                },
                ModuleItem::Enum(enm) => match LuaEnum::from_parsed(enm) {
                    Ok(le) => {
                        let ghost ev = le@;
                        proof {
                            if after is Ok {
                                assert(done.2 + (seq![ev] + after->Ok_0.2) =~= done.2.push(ev)
                                    + after->Ok_0.2);
                            }
                        }
                        enums.push(le);
                        proof {
                            assert(enums@.map_values(|x: LuaEnum| x@) =~= done.2.push(ev));
                        }
                    },
                    Err(e) => {
                        return Err(e);
                    },
                },
                ModuleItem::Impl(imp) => match LuaStruct::from_parsed(imp) {
                    Ok(ls) => {
                        let ghost sv = ls@;
                        proof {
                            if after is Ok {
                                assert(done.1 + (seq![sv] + after->Ok_0.1) =~= done.1.push(sv)
                                    + after->Ok_0.1);
                            }
                        }
                        impls.push(ls);
                        proof {
                            assert(impls@.map_values(|x: LuaStruct| x@) =~= done.1.push(sv));
                        }
                    },
                    Err(e) => {
                        return Err(e);
                    },
                },
            }
            i += 1;
        }
        proof {
            assert(itemsv.skip(itemsv.len() as int) =~= Seq::<ModuleItemV>::empty());
        }

        let r = Self {
            ismain,
            name,
            includes: parsed.includes,
            doc: Option::None,
            mods: Vec::new(),
            funcs,
            impls,
            enums,
        };
        proof {
            assert(lua_module_seq_view(r.mods@) =~= Seq::<LuaModuleV>::empty());
            if spec_lua_mod_items(itemsv, 0) is Ok {
                let r0 = spec_lua_mod_items(itemsv, 0)->Ok_0;
                assert(r@.funcs =~= r0.0);
                assert(r@.impls =~= r0.1);
                assert(r@.enums =~= r0.2);
            }
        }
        Ok(r)
    }

    /// Check whether this module is of the provided path.
    pub fn is(&self, path: &ModulePath) -> (r: bool)
        ensures
            r == (self@.name == path@.name),
    {
        let pname = path.name();
        str_eq(self.name.as_str(), pname.as_str())
    }

    /// Insert a module as a child and remove its name from the `includes`
    /// list of requested modules.
    #[verifier::loop_isolation(false)]
    pub fn insert_module(&mut self, module: LuaModule)
        ensures
            final(self)@.ismain == old(self)@.ismain,
            final(self)@.doc == old(self)@.doc,
            final(self)@.name == old(self)@.name,
            final(self)@.funcs == old(self)@.funcs,
            final(self)@.impls == old(self)@.impls,
            final(self)@.enums == old(self)@.enums,
            final(self)@.includes == spec_retain_includes(old(self)@.includes, module@.name, 0),
            final(self)@.mods == old(self)@.mods.push(module@),
    {
        let ghost incsv = self@.includes;
        let ghost modv = module@;
        let ghost self0 = *self;
        // Remove the name of this module from the required modules.
        let mut kept: Vec<ModulePath> = Vec::new();
        let total = self.includes.len();
        let mut i: usize = 0;
        proof {
            assert(kept@.map_values(|p: ModulePath| p@) =~= Seq::<ModulePathV>::empty());
            assert(Seq::<ModulePathV>::empty() + spec_retain_includes(incsv, modv.name, 0)
                =~= spec_retain_includes(incsv, modv.name, 0));
        }
        while self.includes.len() > 0
            invariant
                total == incsv.len(),
                i + self.includes@.len() == incsv.len(),
                self.includes@.map_values(|p: ModulePath| p@) == incsv.skip(i as int),
                kept@.map_values(|p: ModulePath| p@) + spec_retain_includes(
                    incsv,
                    modv.name,
                    i as int,
                ) == spec_retain_includes(incsv, modv.name, 0),
                self.ismain == self0.ismain,
                self.doc == self0.doc,
                self.name == self0.name,
                self.mods == self0.mods,
                self.funcs == self0.funcs,
                self.impls == self0.impls,
                self.enums == self0.enums,
            decreases self.includes@.len(),
        {
            let ghost restv = self.includes@.map_values(|p: ModulePath| p@);
            let ghost rest_old = self.includes@;
            let ghost done = kept@.map_values(|p: ModulePath| p@);
            let mod_path = self.includes.remove(0);
            proof {
                assert(mod_path == rest_old[0]);
                assert(mod_path@ == restv[0]);
                assert(restv[0] == incsv.skip(i as int)[0]);
                assert(incsv.skip(i as int)[0] == incsv[i as int]);
                assert(self.includes@.map_values(|p: ModulePath| p@) =~= restv.drop_first());
                assert(restv.drop_first() =~= incsv.skip(i as int + 1));
            }
            let pname = mod_path.name();
            if !str_eq(pname.as_str(), module.name.as_str()) {
                let ghost pv = mod_path@;
                kept.push(mod_path);
                proof {
                    assert(kept@.map_values(|x: ModulePath| x@) =~= done.push(pv));
                    assert(done + (seq![pv] + spec_retain_includes(incsv, modv.name, i as int + 1))
                        =~= done.push(pv) + spec_retain_includes(incsv, modv.name, i as int + 1));
                }
            }
            i += 1;
        }
        proof {
            assert(spec_retain_includes(incsv, modv.name, incsv.len() as int) =~= Seq::<
                ModulePathV,
            >::empty());
            assert(kept@.map_values(|p: ModulePath| p@) + Seq::<ModulePathV>::empty()
                =~= kept@.map_values(|p: ModulePath| p@));
        }
        self.includes = kept;
        let ghost mods_before = self.mods@;
        self.mods.push(module);
        proof {
            lemma_lua_module_seq_view(mods_before);
            lemma_lua_module_seq_view(self.mods@);
            assert(lua_module_seq_view(self.mods@) =~= lua_module_seq_view(mods_before).push(
                modv,
            ));
        }
    }
}

/// One item of a Lua declaration file.
#[derive(Debug)]
pub enum LuaItem {
    Mod(LuaModule),
    Func(LuaFunc),
    Struct(LuaStruct),
    Enum(LuaEnum),
}

/// Mathematical image of a [`LuaItem`].
pub enum LuaItemV {
    Mod(LuaModuleV),
    Func(LuaFuncV),
    Struct(LuaStructV),
    Enum(LuaEnumV),
}

/// The image of one file item.
pub open spec fn lua_item_view(it: LuaItem) -> LuaItemV {
    match it {
        LuaItem::Mod(m) => LuaItemV::Mod(lua_module_view(m)),
        LuaItem::Func(f) => LuaItemV::Func(f@),
        LuaItem::Struct(s) => LuaItemV::Struct(s@),
        LuaItem::Enum(e) => LuaItemV::Enum(e@),
    }
}

impl View for LuaItem {
    type V = LuaItemV;

    open spec fn view(&self) -> LuaItemV {
        lua_item_view(*self)
    }
}

/// Describes a lua declaration file: the list of items whose expansions
/// make up the output text.
#[derive(Debug)]
pub struct LuaFile {
    items: Vec<LuaItem>,
}

impl View for LuaFile {
    type V = Seq<LuaItemV>;

    closed spec fn view(&self) -> Seq<LuaItemV> {
        self.items@.map_values(|it: LuaItem| it@)
    }
}

impl LuaFile {
    /// An empty file.
    pub fn new() -> (r: Self)
        ensures
            r@ == Seq::<LuaItemV>::empty(),
    {
        let r = Self { items: Vec::new() };
        proof {
            assert(r@ =~= Seq::<LuaItemV>::empty());
        }
        r
    }

    /// Add an item to the list.
    pub fn add_item(&mut self, item: LuaItem)
        ensures
            final(self)@ == old(self)@.push(item@),
    {
        let ghost before = self@;
        let ghost itv = item@;
        self.items.push(item);
        proof {
            assert(self@ =~= before.push(itv));
        }
    }

    /// Add a vector of items.
    #[verifier::loop_isolation(false)]
    pub fn add_items(&mut self, items: Vec<LuaItem>)
        ensures
            final(self)@ == old(self)@ + items@.map_values(|it: LuaItem| it@),
    {
        let ghost addv = items@.map_values(|it: LuaItem| it@);
        let ghost before = self@;
        let mut rest = items;
        let total = rest.len();
        let mut i: usize = 0;
        while rest.len() > 0
            invariant
                total == addv.len(),
                i + rest@.len() == addv.len(),
                rest@.map_values(|it: LuaItem| it@) == addv.skip(i as int),
                self@ == before + addv.take(i as int),
            decreases rest@.len(),
        {
            let ghost restv = rest@.map_values(|it: LuaItem| it@);
            let ghost rest_old = rest@;
            let item = rest.remove(0);
            proof {
                assert(item == rest_old[0]);
                assert(item@ == restv[0]);
                assert(restv[0] == addv.skip(i as int)[0]);
                assert(addv.skip(i as int)[0] == addv[i as int]);
                assert(rest@.map_values(|it: LuaItem| it@) =~= restv.drop_first());
                assert(restv.drop_first() =~= addv.skip(i as int + 1));
            }
            let ghost selfv = self@;
            self.add_item(item);
            proof {
                assert(self@ =~= before + addv.take(i as int + 1));
            }
            i += 1;
        }
        proof {
            assert(addv.take(addv.len() as int) =~= addv);
        }
    }
}

/// The texts one file item expands to at file scope.
pub open spec fn spec_expand_item(it: LuaItemV) -> (Seq<char>, Seq<char>) {
    match it {
        LuaItemV::Mod(m) => crate::expand::spec_expand_module(m, false),
        LuaItemV::Func(f) => crate::expand::spec_expand_func(f, false),
        LuaItemV::Struct(s) => crate::expand::spec_expand_struct(s, false),
        LuaItemV::Enum(e) => crate::expand::spec_expand_enum(e, false),
    }
}

/// The rendered file from item `i` on: each item's global text and nested
/// text, each followed by a newline when it is not empty.
pub open spec fn spec_file_render(items: Seq<LuaItemV>, i: int) -> Seq<char>
    decreases items.len() - i,
{
    if i < 0 || i >= items.len() {
        Seq::empty()
    } else {
        let parts = spec_expand_item(items[i]);
        (if parts.0.len() > 0 {
            parts.0 + "\n"@
        } else {
            Seq::empty()
        }) + (if parts.1.len() > 0 {
            parts.1 + "\n"@
        } else {
            Seq::empty()
        }) + spec_file_render(items, i + 1)
    }
}

impl LuaFile {
    /// Convert the file to its Lua declaration source text.
    ///
    /// This expands the items from scratch each time.
    #[verifier::loop_isolation(false)]
    #[verifier::rlimit(100)]
    pub fn to_string(&self) -> (r: String)
        ensures
            r@ == spec_file_render(self@, 0),
    {
        let ghost itemsv = self@;
        let mut src = String::new();
        let mut i: usize = 0;
        while i < self.items.len()
            invariant
                i <= itemsv.len(),
                itemsv == self.items@.map_values(|it: LuaItem| it@),
                src@ + spec_file_render(itemsv, i as int) == spec_file_render(itemsv, 0),
            decreases itemsv.len() - i,
        {
            let ghost before = src@;
            let (global_expanded, inner_expanded) = match &self.items[i] {
                LuaItem::Mod(m) => crate::expand::LuaExpand::lua_expand(m, false),
                LuaItem::Func(f) => crate::expand::LuaExpand::lua_expand(f, false),
                LuaItem::Struct(s) => crate::expand::LuaExpand::lua_expand(s, false),
                LuaItem::Enum(e) => crate::expand::LuaExpand::lua_expand(e, false),
            };
            if !global_expanded.as_str().is_empty() {
                src.append(global_expanded.as_str());
                src.append("\n");
            }
            if !inner_expanded.as_str().is_empty() {
                src.append(inner_expanded.as_str());
                src.append("\n");
            }
            proof {
                assert(src@ + spec_file_render(itemsv, i as int + 1) =~= before
                    + spec_file_render(itemsv, i as int));
            }
            i += 1;
        }
        proof {
            assert(spec_file_render(itemsv, itemsv.len() as int) =~= Seq::<char>::empty());
            assert(src@ + Seq::<char>::empty() =~= src@);
        }
        src
    }
}

} // verus!
