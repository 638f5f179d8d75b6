//! Functions exposed to Lua: their argument lists, the distinction between
//! plumbing arguments (required by the embedding convention) and arguments
//! visible to scripts, and the parsing of a scanned function declaration.

use vstd::prelude::*;
use vstd::string::StringExecFns;

use crate::error::Error;
use crate::error::ErrorV;
use crate::ty_expr::TyExpr;
use crate::ty_expr::TyExprV;
use crate::utils::contains_attr;
use crate::utils::spec_contains_attr;

verus! {

/// The kind of a function exposed on a Lua type or module. Methods and
/// meta-functions differ only in how many leading plumbing arguments the
/// embedding convention reserves for them.
#[derive(Debug)]
pub enum FuncKind {
    /// Lua method
    Method,
    /// Lua mutable method (can mutate self)
    MethodMut,
    /// Lua class function
    Func,
    /// Lua table's meta-method
    Meta,
}

impl FuncKind {
    /// How many leading arguments of a declaration of this kind exist only
    /// for the embedding convention and are invisible to scripts.
    pub open spec fn spec_required_args(self) -> usize {
        match self {
            FuncKind::Method | FuncKind::MethodMut => 2,
            FuncKind::Meta => 1,
            FuncKind::Func => 1,
        }
    }

    /// Number of reserved plumbing arguments for this function kind.
    pub fn required_args(&self) -> (n: usize)
        ensures
            n == self.spec_required_args(),
    {
        match self {
            FuncKind::Method | FuncKind::MethodMut => 2,
            FuncKind::Meta => 1,
            FuncKind::Func => 1,
        }
    }
}

/// Visibility of a host item, as far as the generator records it.
#[derive(Clone, Copy, PartialEq, Eq, Structural, Debug)]
pub enum Visibility {
    Public,
    Restricted,
    Inherited,
}

/// The pattern that names one argument: a plain identifier, or any other
/// pattern (which the generator cannot name and skips when emitting).
#[derive(Debug)]
pub enum ArgPat {
    Ident(String),
    Other,
}

/// Mathematical image of an [`ArgPat`].
pub enum ArgPatV {
    Ident(Seq<char>),
    Other,
}

impl View for ArgPat {
    type V = ArgPatV;

    open spec fn view(&self) -> ArgPatV {
        match self {
            ArgPat::Ident(name) => ArgPatV::Ident(name@),
            ArgPat::Other => ArgPatV::Other,
        }
    }
}

/// One argument of a scanned function declaration: a receiver (`self`), or a
/// pattern with its type.
#[derive(Debug)]
pub enum RawArg {
    Receiver,
    Typed(ArgPat, TyExpr),
}

/// Mathematical image of a [`RawArg`].
pub enum RawArgV {
    Receiver,
    Typed(ArgPatV, TyExprV),
}

impl View for RawArg {
    type V = RawArgV;

    open spec fn view(&self) -> RawArgV {
        match self {
            RawArg::Receiver => RawArgV::Receiver,
            RawArg::Typed(p, t) => RawArgV::Typed(p@, t@),
        }
    }
}

/// A scanned function declaration, reduced to what the generator reads: its
/// attribute names, name, visibility, arguments and return type (`None` for
/// a declaration without a return arrow).
#[derive(Debug)]
pub struct RawFunc {
    pub attrs: Vec<String>,
    pub name: String,
    pub vis: Visibility,
    pub args: Vec<RawArg>,
    pub ret: Option<TyExpr>,
}

/// Mathematical image of a [`RawFunc`].
pub struct RawFuncV {
    pub attrs: Seq<Seq<char>>,
    pub name: Seq<char>,
    pub vis: Visibility,
    pub args: Seq<RawArgV>,
    pub ret: Option<TyExprV>,
}

impl View for RawFunc {
    type V = RawFuncV;

    open spec fn view(&self) -> RawFuncV {
        RawFuncV {
            attrs: self.attrs.deep_view(),
            name: self.name@,
            vis: self.vis,
            args: self.args@.map_values(|a: RawArg| a@),
            ret: match self.ret {
                Option::Some(t) => Option::Some(t@),
                Option::None => Option::None,
            },
        }
    }
}

/// An argument as the generator keeps it.
#[derive(Debug)]
pub struct FuncArg {
    pub name: ArgPat,
    pub ty: TyExpr,
    /// A required argument is one that's important for the embedding API:
    /// usually a `&Lua` reference, or `&Self` / `&mut Self` in methods. It
    /// is invisible to the script-facing signature.
    pub required: bool,
}

/// Mathematical image of a [`FuncArg`].
pub struct FuncArgV {
    pub name: ArgPatV,
    pub ty: TyExprV,
    pub required: bool,
}

impl View for FuncArg {
    type V = FuncArgV;

    open spec fn view(&self) -> FuncArgV {
        FuncArgV { name: self.name@, ty: self.ty@, required: self.required }
    }
}

/// The fully extracted function: name, ignore flag, visibility, arguments
/// with their plumbing marks, and return type.
#[derive(Debug)]
pub struct ParsedFunc {
    pub name: String,
    pub bindgen_ignore: bool,
    pub visibility: Visibility,
    pub args: Vec<FuncArg>,
    pub return_ty: TyExpr,
}

/// Mathematical image of a [`ParsedFunc`].
pub struct ParsedFuncV {
    pub name: Seq<char>,
    pub bindgen_ignore: bool,
    pub visibility: Visibility,
    pub args: Seq<FuncArgV>,
    pub return_ty: TyExprV,
}

impl View for ParsedFunc {
    type V = ParsedFuncV;

    open spec fn view(&self) -> ParsedFuncV {
        ParsedFuncV {
            name: self.name@,
            bindgen_ignore: self.bindgen_ignore,
            visibility: self.visibility,
            args: self.args@.map_values(|a: FuncArg| a@),
            return_ty: self.return_ty@,
        }
    }
}

/// How many of the arguments carry (`required == want`) the plumbing mark,
/// from position `i` on.
pub open spec fn spec_count_args(args: Seq<FuncArgV>, want: bool, i: int) -> int
    decreases args.len() - i,
{
    if i < 0 || i >= args.len() {
        0
    } else {
        (if args[i].required == want {
            1int
        } else {
            0int
        }) + spec_count_args(args, want, i + 1)
    }
}

impl ParsedFunc {
    /// Create an empty parsed function from a name alone.
    ///
    /// Only used where the items of a module are not parsed in full and only
    /// their names matter.
    pub fn from_ident(name: String) -> (r: Self)
        ensures
            r@.name == name@,
            !r@.bindgen_ignore,
            r@.visibility == Visibility::Inherited,
            r@.args == Seq::<FuncArgV>::empty(),
            r@.return_ty == TyExprV::Other,
    {
        let r = ParsedFunc {
            name,
            bindgen_ignore: false,
            visibility: Visibility::Inherited,
            args: Vec::new(),
            return_ty: TyExpr::Other,
        };
        proof {
            assert(r@.args =~= Seq::<FuncArgV>::empty());
        }
        r
    }

    /// Get the amount of user arguments.
    pub fn user_arg_count(&self) -> (n: usize)
        ensures
            n == spec_count_args(self@.args, false, 0),
    {
        count_args(&self.args, false)
    }

    /// Get the amount of required arguments.
    pub fn req_arg_count(&self) -> (n: usize)
        ensures
            n == spec_count_args(self@.args, true, 0),
    {
        count_args(&self.args, true)
    }
}

/// Count the arguments whose plumbing mark equals `want`.
fn count_args(args: &Vec<FuncArg>, want: bool) -> (n: usize)
    ensures
        n == spec_count_args(args@.map_values(|a: FuncArg| a@), want, 0),
{
    let ghost vs = args@.map_values(|a: FuncArg| a@);
    let mut n: usize = 0;
    let mut i: usize = 0;
    while i < args.len()
        invariant
            i <= args@.len(),
            vs == args@.map_values(|a: FuncArg| a@),
            n <= i,
            n + spec_count_args(vs, want, i as int) == spec_count_args(vs, want, 0),
        decreases args@.len() - i,
    {
        if args[i].required == want {
            n += 1;
        }
        i += 1;
    }
    n
}

/// The argument list of a parsed function: each scanned argument with the
/// plumbing mark on the first `req` positions.
pub open spec fn spec_func_args(args: Seq<RawArgV>, req: int) -> Seq<FuncArgV> {
    Seq::new(
        args.len(),
        |i: int|
            match args[i] {
                RawArgV::Typed(p, t) => FuncArgV { name: p, ty: t, required: i < req },
                RawArgV::Receiver => FuncArgV {
                    name: ArgPatV::Other,
                    ty: TyExprV::Other,
                    required: i < req,
                },
            },
    )
}

/// The argument shapes a declaration of this kind must start with.
pub open spec fn spec_args_fmt(kind: FuncKind) -> Seq<char> {
    match kind {
        FuncKind::Func => "&Lua"@,
        FuncKind::Method => "&Lua, &Self"@,
        FuncKind::MethodMut => "&Lua, &mut Self"@,
        FuncKind::Meta => "&Lua, &impl FromLua"@,
    }
}

/// The message reported when a declaration has fewer arguments than its kind
/// reserves.
pub open spec fn spec_arity_message(kind: FuncKind) -> Seq<char> {
    "Not enough arguments. It should take "@ + spec_args_fmt(kind) + " as its first "@ + (
    if kind.spec_required_args() == 2 {
        "2"@
    } else {
        "1"@
    }) + " arguments"@
}

/// What parsing one scanned function declaration yields: a `self` argument
/// anywhere is rejected; a declaration with fewer arguments than its kind
/// reserves is rejected; otherwise every argument is kept in order, the
/// first `required` ones marked as plumbing, with the ignore flag read off
/// the attributes and a missing return arrow read as the empty tuple.
pub open spec fn spec_parse_func(item: RawFuncV, kind: FuncKind) -> Result<ParsedFuncV, ErrorV> {
    let req = kind.spec_required_args() as int;
    if exists|i: int| 0 <= i < item.args.len() && item.args[i] is Receiver {
        Err(ErrorV::Syn { item: item.name, message: "Can't contain the self argument"@ })
    } else if item.args.len() < req {
        Err(ErrorV::Syn { item: item.name, message: spec_arity_message(kind) })
    } else {
        Ok(
            ParsedFuncV {
                name: item.name,
                bindgen_ignore: spec_contains_attr(item.attrs, "mlua_bindgen_ignore"@),
                visibility: item.vis,
                args: spec_func_args(item.args, req),
                return_ty: match item.ret {
                    Option::Some(t) => t,
                    Option::None => TyExprV::Tuple(Seq::empty()),
                },
            },
        )
    }
}

/// The image of a function-parsing result.
pub open spec fn parsed_func_res_view(r: Result<ParsedFunc, Error>) -> Result<
    ParsedFuncV,
    ErrorV,
> {
    match r {
        Ok(f) => Ok(f@),
        Err(e) => Err(e@),
    }
}

/// Parse one scanned function declaration of the given kind.
#[verifier::loop_isolation(false)]
pub fn parse_func(item: RawFunc, kind: &FuncKind) -> (r: Result<ParsedFunc, Error>)
    ensures
        parsed_func_res_view(r) == spec_parse_func(item@, *kind),
{
    let ghost itemv = item@;
    let RawFunc { attrs, name, vis, args: raw_args, ret } = item;
    let bindgen_ignore = contains_attr(&attrs, "mlua_bindgen_ignore");
    let return_ty: TyExpr;
    match ret {
        Option::Some(ty) => {
            return_ty = ty;
        },
        Option::None => {
            let elems: Vec<TyExpr> = Vec::new();
            proof {
                assert(crate::ty_expr::ty_expr_seq_view(elems@) =~= Seq::<TyExprV>::empty());
            }
            return_ty = TyExpr::Tuple(elems);
        },
    }
    let req_arg_count = kind.required_args();
    let mut rest = raw_args;
    let total = rest.len();
    let mut args: Vec<FuncArg> = Vec::new();
    let mut ind: usize = 0;
    while rest.len() > 0
        invariant
            total == itemv.args.len(),
            ind + rest@.len() == itemv.args.len(),
            rest@.map_values(|a: RawArg| a@) == itemv.args.skip(ind as int),
            forall|j: int| 0 <= j < ind ==> !(itemv.args[j] is Receiver),
            args@.map_values(|a: FuncArg| a@) == spec_func_args(itemv.args, req_arg_count as int)
                .take(ind as int),
        decreases rest@.len(),
    {
        let ghost restv = rest@.map_values(|a: RawArg| a@);
        let ghost rest_old = rest@;
        let a = rest.remove(0);
        proof {
            assert(restv == itemv.args.skip(ind as int));
            assert(a == rest_old[0]);
            assert(a@ == restv[0]);
            assert(restv[0] == itemv.args.skip(ind as int)[0]);
            assert(itemv.args.skip(ind as int)[0] == itemv.args[ind as int]);
            assert(a@ == itemv.args[ind as int]);
            assert(rest@.map_values(|a: RawArg| a@) =~= restv.drop_first());
            assert(restv.drop_first() =~= itemv.args.skip(ind as int + 1));
        }
        match a {
            RawArg::Receiver => {
                proof {
                    assert(itemv.args[ind as int] is Receiver);
                }
                return Err(
                    Error::Syn { item: name, message: "Can't contain the self argument".to_owned() },
                );
            },
            RawArg::Typed(pat, ty) => {
                let ghost argsv = args@.map_values(|a: FuncArg| a@);
                let is_required = ind < req_arg_count;
                let arg = FuncArg { name: pat, ty, required: is_required };
                let ghost argv = arg@;
                args.push(arg);
                proof {
                    assert(args@.map_values(|a: FuncArg| a@) =~= argsv.push(argv));
                    assert(argsv.push(argv) =~= spec_func_args(
                        itemv.args,
                        req_arg_count as int,
                    ).take(ind as int + 1));
                }
            },
        }
        ind += 1;
    }
    proof {
        assert(forall|i: int|
            0 <= i < itemv.args.len() ==> !(itemv.args[i] is Receiver));
        assert(args@.map_values(|a: FuncArg| a@) =~= spec_func_args(
            itemv.args,
            req_arg_count as int,
        ));
    }
    if args.len() < req_arg_count {
        let mut message = "Not enough arguments. It should take ".to_owned();
        message.append(
            match kind {
                FuncKind::Func => "&Lua",
                FuncKind::Method => "&Lua, &Self",
                FuncKind::MethodMut => "&Lua, &mut Self",
                FuncKind::Meta => "&Lua, &impl FromLua",
            },
        );
        message.append(" as its first ");
        message.append(
            if req_arg_count == 2 {
                "2"
            } else {
                "1"
            },
        );
        message.append(" arguments");
        proof {
            assert(message@ =~= spec_arity_message(*kind));
        }
        return Err(Error::Syn { item: name, message });
    }
    Ok(ParsedFunc { name, bindgen_ignore, visibility: vis, args, return_ty })
}

} // verus!
