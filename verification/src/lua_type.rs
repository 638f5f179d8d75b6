//! The closed grammar of scripting types that host type expressions are
//! mapped onto, the fixed primitive-equivalence table used for plain named
//! types, and the mapping itself.

use vstd::prelude::*;
use vstd::string::StrSliceExecFns;
use vstd::string::StringExecFns;

use crate::error::Error;
use crate::error::ErrorV;
use crate::ty_expr::PathArgs;
use crate::ty_expr::PathArgsV;
use crate::ty_expr::TyExpr;
use crate::ty_expr::lemma_ty_expr_seq_view;
use crate::ty_expr::TyExprV;
use crate::ty_expr::ty_expr_view;
use crate::ty_expr::ty_expr_seq_view;
use crate::ty_expr::path_args_view;
use crate::utils::spec_remove_lua_prefix;
use crate::utils::remove_lua_prefix;
use crate::utils::str_eq;

verus! {

broadcast use vstd::std_specs::vec::axiom_vec_decreases_to_view;

/// The char that will be used to differentiate between userdata types and
/// tables.
pub(crate) const USERDATA_CHAR: &'static str = "u";

/// Lua type enum. Doesn't necessarily represent lua types, though mostly it
/// does. It also contains embedding-specific values for edge cases.
#[derive(Debug)]
pub enum LuaType {
    Integer,
    Number,
    Boolean,
    String,
    Function,
    /// Can only be used to declare optional arguments (i.e. "type?").
    ///
    /// Recursive optionals aren't supported.
    Optional(Box<LuaType>),
    Array(Box<LuaType>),
    /// A union type that can represent 2 types at the same time. In
    /// luau/teal it's `A | B`.
    Either(Box<LuaType>, Box<LuaType>),
    /// Tuples can only be used as return types.
    Tuple(Vec<LuaType>),
    Error,
    Table,
    Thread,
    Userdata,
    Nil,
    /// Void represents an absence of return type `()` (in both Luau and Rust).
    Void,
    /// Custom types are new types defined by the user of the embedding
    /// itself. These are passed directly as a string, as they're simply a
    /// reference to a type defined elsewhere among the analyzed declarations.
    Custom(String),
    /// Any type in lua.
    Any,
}

/// Mathematical image of a [`LuaType`].
pub enum LuaTypeV {
    Integer,
    Number,
    Boolean,
    String,
    Function,
    Optional(Box<LuaTypeV>),
    Array(Box<LuaTypeV>),
    Either(Box<LuaTypeV>, Box<LuaTypeV>),
    Tuple(Seq<LuaTypeV>),
    Error,
    Table,
    Thread,
    Userdata,
    Nil,
    Void,
    Custom(Seq<char>),
    Any,
}

/// The image of one Lua type.
pub open spec fn lua_type_view(t: LuaType) -> LuaTypeV
    decreases t,
{
    match t {
        LuaType::Integer => LuaTypeV::Integer,
        LuaType::Number => LuaTypeV::Number,
        LuaType::Boolean => LuaTypeV::Boolean,
        LuaType::String => LuaTypeV::String,
        LuaType::Function => LuaTypeV::Function,
        LuaType::Optional(t) => LuaTypeV::Optional(Box::new(lua_type_view(*t))),
        LuaType::Array(t) => LuaTypeV::Array(Box::new(lua_type_view(*t))),
        LuaType::Either(l, r) => LuaTypeV::Either(
            Box::new(lua_type_view(*l)),
            Box::new(lua_type_view(*r)),
        ),
        LuaType::Tuple(ts) => LuaTypeV::Tuple(lua_type_seq_view(ts@)),
        LuaType::Error => LuaTypeV::Error,
        LuaType::Table => LuaTypeV::Table,
        LuaType::Thread => LuaTypeV::Thread,
        LuaType::Userdata => LuaTypeV::Userdata,
        LuaType::Nil => LuaTypeV::Nil,
        LuaType::Void => LuaTypeV::Void,
        LuaType::Custom(name) => LuaTypeV::Custom(name@),
        LuaType::Any => LuaTypeV::Any,
    }
}

/// The images of a sequence of Lua types, element for element.
pub open spec fn lua_type_seq_view(ts: Seq<LuaType>) -> Seq<LuaTypeV>
    decreases ts,
{
    if ts.len() == 0 {
        Seq::empty()
    } else {
        seq![lua_type_view(ts[0])] + lua_type_seq_view(ts.drop_first())
    }
}

impl View for LuaType {
    type V = LuaTypeV;

    open spec fn view(&self) -> LuaTypeV {
        lua_type_view(*self)
    }
}

/// The image of a sequence is the sequence of images.
pub proof fn lemma_lua_type_seq_view(ts: Seq<LuaType>)
    ensures
        lua_type_seq_view(ts).len() == ts.len(),
        forall|i: int| 0 <= i < ts.len() ==> lua_type_seq_view(ts)[i] == lua_type_view(ts[i]),
    decreases ts.len(),
{
    if ts.len() > 0 {
        lemma_lua_type_seq_view(ts.drop_first());
    }
}

/// The fixed primitive-equivalence table: which scripting type a plain named
/// host type stands for, or `None` for a name the table does not know.
///
/// The named types here are assumed to be convertible into Lua values by the
/// embedding library; the bindgen does not check that they are.
pub open spec fn spec_builtin_type(name: Seq<char>) -> Option<LuaTypeV> {
    if name == "i8"@ || name == "i16"@ || name == "i32"@ || name == "i64"@ || name == "i128"@
        || name == "isize"@ || name == "u8"@ || name == "u16"@ || name == "u32"@ || name == "u64"@
        || name == "u128"@ || name == "usize"@ || name == "f32"@ || name == "f64"@ {
        Some(LuaTypeV::Number)
    } else if name == "bool"@ {
        Some(LuaTypeV::Boolean)
    } else if name == "Box < str >"@ || name == "CString"@ || name == "String"@
        || name == "OsString"@ || name == "PathBuf"@ || name == "BString"@ {
        Some(LuaTypeV::String)
    } else if name == "HashMap"@ || name == "Vec"@ || name == "BTreeMap"@ || name == "Box"@
        || name == "Table"@ {
        Some(LuaTypeV::Table)
    } else if name == "Error"@ {
        Some(LuaTypeV::Error)
    } else if name == "Thread"@ {
        Some(LuaTypeV::Thread)
    } else if name == "AnyUserData"@ || name == "LightUserData"@ || name == "UserDataRef"@
        || name == "UserDataRefMut"@ {
        Some(LuaTypeV::Userdata)
    } else if name == "Function"@ {
        Some(LuaTypeV::Function)
    } else if name == "()"@ {
        Some(LuaTypeV::Void)
    } else if name == "Value"@ {
        Some(LuaTypeV::Any)
    } else {
        None
    }
}

/// What a plain type name maps to: its table entry, or a custom type under
/// the name with the conventional prefix stripped.
pub open spec fn spec_from_type_name(name: Seq<char>) -> LuaTypeV {
    match spec_builtin_type(name) {
        Some(t) => t,
        None => LuaTypeV::Custom(spec_remove_lua_prefix(name)),
    }
}

impl LuaType {
    /// Match a plain type name against the primitive-equivalence table; a
    /// name the table does not know becomes a custom Lua type.
    pub fn from_type_name(name: &str) -> (r: LuaType)
        ensures
            r@ == spec_from_type_name(name@),
    {
        if str_eq(name, "i8") || str_eq(name, "i16") || str_eq(name, "i32") || str_eq(name, "i64")
            || str_eq(name, "i128") || str_eq(name, "isize") || str_eq(name, "u8") || str_eq(
            name,
            "u16",
        ) || str_eq(name, "u32") || str_eq(name, "u64") || str_eq(name, "u128") || str_eq(
            name,
            "usize",
        ) || str_eq(name, "f32") || str_eq(name, "f64") {
            LuaType::Number
        } else if str_eq(name, "bool") {
            LuaType::Boolean
        } else if str_eq(name, "Box < str >") || str_eq(name, "CString") || str_eq(name, "String")
            || str_eq(name, "OsString") || str_eq(name, "PathBuf") || str_eq(name, "BString") {
            LuaType::String
        } else if str_eq(name, "HashMap") || str_eq(name, "Vec") || str_eq(name, "BTreeMap")
            || str_eq(name, "Box") || str_eq(name, "Table") {
            LuaType::Table
        } else if str_eq(name, "Error") {
            LuaType::Error
        } else if str_eq(name, "Thread") {
            LuaType::Thread
        } else if str_eq(name, "AnyUserData") || str_eq(name, "LightUserData") || str_eq(
            name,
            "UserDataRef",
        ) || str_eq(name, "UserDataRefMut") {
            LuaType::Userdata
        } else if str_eq(name, "Function") {
            LuaType::Function
        } else if str_eq(name, "()") {
            LuaType::Void
        } else if str_eq(name, "Value") {
            LuaType::Any
        } else {
            LuaType::Custom(remove_lua_prefix(name.to_owned()))
        }
    }

    /// Check whether this type is optional.
    pub fn is_optional(&self) -> (r: bool)
        ensures
            r == (self@ is Optional),
    {
        match self {
            Self::Optional(_) => true,
            _ => false,
        }
    }
}

/// The primitive-equivalence table written out as pairs.
pub open spec fn spec_type_map() -> Seq<(Seq<char>, LuaTypeV)> {
    seq![
        ("i8"@, LuaTypeV::Number),
        ("i16"@, LuaTypeV::Number),
        ("i32"@, LuaTypeV::Number),
        ("i64"@, LuaTypeV::Number),
        ("i128"@, LuaTypeV::Number),
        ("isize"@, LuaTypeV::Number),
        ("u8"@, LuaTypeV::Number),
        ("u16"@, LuaTypeV::Number),
        ("u32"@, LuaTypeV::Number),
        ("u64"@, LuaTypeV::Number),
        ("u128"@, LuaTypeV::Number),
        ("usize"@, LuaTypeV::Number),
        ("f32"@, LuaTypeV::Number),
        ("f64"@, LuaTypeV::Number),
        ("bool"@, LuaTypeV::Boolean),
        ("Box < str >"@, LuaTypeV::String),
        ("CString"@, LuaTypeV::String),
        ("String"@, LuaTypeV::String),
        ("OsString"@, LuaTypeV::String),
        ("PathBuf"@, LuaTypeV::String),
        ("BString"@, LuaTypeV::String),
        ("HashMap"@, LuaTypeV::Table),
        ("Vec"@, LuaTypeV::Table),
        ("BTreeMap"@, LuaTypeV::Table),
        ("Box"@, LuaTypeV::Table),
        ("Table"@, LuaTypeV::Table),
        ("Error"@, LuaTypeV::Error),
        ("Thread"@, LuaTypeV::Thread),
        ("AnyUserData"@, LuaTypeV::Userdata),
        ("LightUserData"@, LuaTypeV::Userdata),
        ("UserDataRef"@, LuaTypeV::Userdata),
        ("UserDataRefMut"@, LuaTypeV::Userdata),
        ("Function"@, LuaTypeV::Function),
        ("()"@, LuaTypeV::Void),
        ("Value"@, LuaTypeV::Any),
    ]
}

/// The primitive-equivalence table as an explicit registry: every named host
/// type the generator treats as a built-in scripting type, with that type.
///
/// The named types here are assumed to be convertible into Lua values by the
/// embedding library; the bindgen doesn't guarantee that they are.
pub fn type_map() -> (r: Vec<(String, LuaType)>)
    ensures
        r@.len() == spec_type_map().len(),
        forall|i: int|
            0 <= i < r@.len() ==> r@[i].0@ == spec_type_map()[i].0 && r@[i].1@
                == spec_type_map()[i].1,
{
    let r: Vec<(String, LuaType)> = vec![
        ("i8".to_owned(), LuaType::Number),
        ("i16".to_owned(), LuaType::Number),
        ("i32".to_owned(), LuaType::Number),
        ("i64".to_owned(), LuaType::Number),
        ("i128".to_owned(), LuaType::Number),
        ("isize".to_owned(), LuaType::Number),
        ("u8".to_owned(), LuaType::Number),
        ("u16".to_owned(), LuaType::Number),
        ("u32".to_owned(), LuaType::Number),
        ("u64".to_owned(), LuaType::Number),
        ("u128".to_owned(), LuaType::Number),
        ("usize".to_owned(), LuaType::Number),
        ("f32".to_owned(), LuaType::Number),
        ("f64".to_owned(), LuaType::Number),
        ("bool".to_owned(), LuaType::Boolean),
        ("Box < str >".to_owned(), LuaType::String),
        ("CString".to_owned(), LuaType::String),
        ("String".to_owned(), LuaType::String),
        ("OsString".to_owned(), LuaType::String),
        ("PathBuf".to_owned(), LuaType::String),
        ("BString".to_owned(), LuaType::String),
        ("HashMap".to_owned(), LuaType::Table),
        ("Vec".to_owned(), LuaType::Table),
        ("BTreeMap".to_owned(), LuaType::Table),
        ("Box".to_owned(), LuaType::Table),
        ("Table".to_owned(), LuaType::Table),
        ("Error".to_owned(), LuaType::Error),
        ("Thread".to_owned(), LuaType::Thread),
        ("AnyUserData".to_owned(), LuaType::Userdata),
        ("LightUserData".to_owned(), LuaType::Userdata),
        ("UserDataRef".to_owned(), LuaType::Userdata),
        ("UserDataRefMut".to_owned(), LuaType::Userdata),
        ("Function".to_owned(), LuaType::Function),
        ("()".to_owned(), LuaType::Void),
        ("Value".to_owned(), LuaType::Any),
    ];
    r
}

/// What one generic-argument list offers the mapper: its type arguments, or
/// the error mapping stops with.
pub open spec fn spec_inner_tys(args: PathArgsV) -> Result<Seq<TyExprV>, ErrorV> {
    match args {
        PathArgsV::Types(ts) => Ok(ts),
        PathArgsV::NonType => Err(
            ErrorV::Unimplemented {
                message: "mlua_bindgen only supports types with generic type arguments"@,
            },
        ),
        PathArgsV::Absent => Err(
            ErrorV::ParseErr {
                message: "Failed to parse lua type's brackets. Expected angular brackets"@,
            },
        ),
    }
}

/// How a host type expression maps onto the scripting-type grammar, or the
/// first error met: arrays and references unwrap; `Option`, `Vec` and
/// `Either` follow their conventions (a nested optional and a union arity
/// other than two are structural errors); the empty tuple is `Void` and
/// other tuples map element-wise; a plain name goes through the
/// primitive-equivalence table; anything else is unsupported.
pub open spec fn spec_map_ty(t: TyExprV) -> Result<LuaTypeV, ErrorV>
    decreases t,
{
    match t {
        TyExprV::Array(elem) => match spec_map_ty(*elem) {
            Ok(inner) => Ok(LuaTypeV::Array(Box::new(inner))),
            Err(e) => Err(e),
        },
        TyExprV::Reference(elem) => spec_map_ty(*elem),
        TyExprV::Tuple(ts) => {
            if ts.len() == 0 {
                Ok(LuaTypeV::Void)
            } else {
                match spec_map_ty_seq(ts) {
                    Ok(l) => Ok(LuaTypeV::Tuple(l)),
                    Err(e) => Err(e),
                }
            }
        },
        TyExprV::Path { name, args } => {
            if name == "Option"@ {
                match args {
                    PathArgsV::Types(ts) => {
                        if ts.len() == 0 {
                            Err(
                                ErrorV::ParseErr {
                                    message: "Expected at least one generic type argument"@,
                                },
                            )
                        } else {
                            match spec_map_ty(ts[0]) {
                                Ok(inner) => {
                                    if inner is Optional {
                                        Err(
                                            ErrorV::ParseErr {
                                                message:
                                                    "Lua optional types can't be recursive (i.e. contain an Option inside an Option)"@,
                                            },
                                        )
                                    } else {
                                        Ok(LuaTypeV::Optional(Box::new(inner)))
                                    }
                                },
                                Err(e) => Err(e),
                            }
                        }
                    },
                    _ => Err(spec_inner_tys(args)->Err_0),
                }
            } else if name == "Vec"@ {
                match args {
                    PathArgsV::Types(ts) => {
                        if ts.len() == 0 {
                            Err(
                                ErrorV::ParseErr {
                                    message: "Expected at least one generic type argument"@,
                                },
                            )
                        } else {
                            match spec_map_ty(ts[0]) {
                                Ok(inner) => Ok(LuaTypeV::Array(Box::new(inner))),
                                Err(e) => Err(e),
                            }
                        }
                    },
                    _ => Err(spec_inner_tys(args)->Err_0),
                }
            } else if name == "Either"@ {
                match args {
                    PathArgsV::Types(ts) => {
                        if ts.len() != 2 {
                            Err(
                                ErrorV::ParseErr {
                                    message:
                                        "Lua union types have to contain exactly 2 generic arguments"@,
                                },
                            )
                        } else {
                            match spec_map_ty(ts[0]) {
                                Ok(left) => match spec_map_ty(ts[1]) {
                                    Ok(right) => Ok(
                                        LuaTypeV::Either(Box::new(left), Box::new(right)),
                                    ),
                                    Err(e) => Err(e),
                                },
                                Err(e) => Err(e),
                            }
                        }
                    },
                    _ => Err(spec_inner_tys(args)->Err_0),
                }
            } else {
                Ok(spec_from_type_name(name))
            }
        },
        TyExprV::Other => Err(
            ErrorV::Unimplemented { message: "For now only arrays and type paths are supported"@ },
        ),
    }
}

/// Element-wise mapping of a sequence of type expressions; the first error
/// wins.
pub open spec fn spec_map_ty_seq(ts: Seq<TyExprV>) -> Result<Seq<LuaTypeV>, ErrorV>
    decreases ts,
{
    if ts.len() == 0 {
        Ok(Seq::empty())
    } else {
        match spec_map_ty(ts[0]) {
            Ok(h) => match spec_map_ty_seq(ts.drop_first()) {
                Ok(rest) => Ok(seq![h] + rest),
                Err(e) => Err(e),
            },
            Err(e) => Err(e),
        }
    }
}

/// The image of a mapping result.
pub open spec fn lua_type_res_view(r: Result<LuaType, Error>) -> Result<LuaTypeV, ErrorV> {
    match r {
        Ok(t) => Ok(lua_type_view(t)),
        Err(e) => Err(e@),
    }
}

/// A sequence of already-mapped types prepended to the outcome for the rest.
pub open spec fn spec_prepend_mapped(done: Seq<LuaTypeV>, rest: Result<Seq<LuaTypeV>, ErrorV>) -> Result<
    Seq<LuaTypeV>,
    ErrorV,
> {
    match rest {
        Ok(r) => Ok(done + r),
        Err(e) => Err(e),
    }
}

/// Views commute with pushing one mapped element.
proof fn lemma_lua_type_seq_view_push(ts: Seq<LuaType>, t: LuaType)
    ensures
        lua_type_seq_view(ts.push(t)) == lua_type_seq_view(ts) + seq![lua_type_view(t)],
{
    lemma_lua_type_seq_view(ts.push(t));
    lemma_lua_type_seq_view(ts);
    assert(lua_type_seq_view(ts.push(t)) =~= lua_type_seq_view(ts) + seq![lua_type_view(t)]);
}

impl LuaType {
    /// Try to convert a host type expression to a [`LuaType`]. If a plain
    /// type name isn't recognized, it's likely a custom type, so a new one
    /// is made.
    #[verifier::loop_isolation(false)]
    pub fn from_ty_expr(ty: &TyExpr) -> (r: Result<LuaType, Error>)
        ensures
            lua_type_res_view(r) == spec_map_ty(ty@),
        decreases *ty,
    {
        match ty {
            TyExpr::Array(elem) => match Self::from_ty_expr(&**elem) {
                Ok(inner) => Ok(LuaType::Array(Box::new(inner))),
                Err(e) => Err(e),
            },
            TyExpr::Reference(elem) => Self::from_ty_expr(&**elem),
            TyExpr::Tuple(elems) => {
                if elems.len() == 0 {
                    Ok(LuaType::Void)
                } else {
                    let ghost vs = ty_expr_seq_view(elems@);
                    proof {
                        lemma_ty_expr_seq_view(elems@);
                        assert(ty@ == TyExprV::Tuple(vs));
                    }
                    let mut tys: Vec<LuaType> = Vec::new();
                    proof {
                        assert(vs.skip(0) =~= vs);
                        assert(lua_type_seq_view(tys@) == Seq::<LuaTypeV>::empty());
                        if spec_map_ty_seq(vs) is Ok {
                            assert(Seq::<LuaTypeV>::empty() + spec_map_ty_seq(vs)->Ok_0
                                =~= spec_map_ty_seq(vs)->Ok_0);
                        }
                    }
                    let mut i: usize = 0;
                    while i < elems.len()
                        invariant
                            i <= elems@.len(),
                            vs == ty_expr_seq_view(elems@),
                            vs.len() == elems@.len(),
                            forall|j: int| 0 <= j < vs.len() ==> vs[j] == ty_expr_view(elems@[j]),
                            spec_map_ty_seq(vs) == spec_prepend_mapped(
                                lua_type_seq_view(tys@),
                                spec_map_ty_seq(vs.skip(i as int)),
                            ),
                        decreases elems@.len() - i,
                    {
                        let ghost done = lua_type_seq_view(tys@);
                        proof {
                            assert(vs.skip(i as int)[0] == vs[i as int]);
                            assert(vs.skip(i as int).drop_first() =~= vs.skip(i as int + 1));
                            assert(*ty is Tuple);
                            assert(ty->Tuple_0 == *elems);
                            assert(decreases_to!(*ty => ty->Tuple_0));
                            assert(decreases_to!(ty->Tuple_0 => ty->Tuple_0@));
                            assert(decreases_to!(ty->Tuple_0@ => ty->Tuple_0@[i as int]));
                            assert(decreases_to!(*ty => elems@[i as int]));
                        }
                        match Self::from_ty_expr(&elems[i]) {
                            Ok(t) => {
                                proof {
                                    lemma_lua_type_seq_view_push(tys@, t);
                                    let rest = spec_map_ty_seq(vs.skip(i as int + 1));
                                    if rest is Ok {
                                        assert(done + (seq![lua_type_view(t)] + rest->Ok_0) =~= (
                                        done + seq![lua_type_view(t)]) + rest->Ok_0);
                                    }
                                }
                                tys.push(t);
                            },
                            Err(e) => {
                                return Err(e);
                            },
                        }
                        i += 1;
                    }
                    proof {
                        assert(vs.skip(vs.len() as int) =~= Seq::<TyExprV>::empty());
                        assert(lua_type_seq_view(tys@) + Seq::<LuaTypeV>::empty() =~=
                        lua_type_seq_view(tys@));
                    }
                    Ok(LuaType::Tuple(tys))
                }
            },
            TyExpr::Path { name, args } => {
                if str_eq(name.as_str(), "Option") {
                    match args {
                        PathArgs::Types(ts) => {
                            proof {
                                lemma_ty_expr_seq_view(ts@);
                                assert(decreases_to!(*ty => ty->args));
                                assert(decreases_to!(ty->args => ty->args->Types_0));
                                assert(decreases_to!(ty->args->Types_0 => ty->args->Types_0@));
                                assert(ty->args->Types_0@ == ts@);
                            }
                            if ts.len() == 0 {
                                Err(
                                    Error::ParseErr {
                                        message: "Expected at least one generic type argument".to_owned(),
                                    },
                                )
                            } else {
                                let r0 = Self::from_ty_expr(&ts[0]);
                                proof {
                                    assert(path_args_view(*args) == PathArgsV::Types(
                                        ty_expr_seq_view(ts@),
                                    ));
                                    assert(ty@ == (TyExprV::Path {
                                        name: name@,
                                        args: path_args_view(*args),
                                    }));
                                }
                                match r0 {
                                    Ok(inner) => {
                                        if inner.is_optional() {
                                            Err(
                                                Error::ParseErr {
                                                    message:
                                                        "Lua optional types can't be recursive (i.e. contain an Option inside an Option)".to_owned(),
                                                },
                                            )
                                        } else {
                                            Ok(LuaType::Optional(Box::new(inner)))
                                        }
                                    },
                                    Err(e) => Err(e),
                                }
                            }
                        },
                        PathArgs::NonType => Err(
                            Error::Unimplemented {
                                message:
                                    "mlua_bindgen only supports types with generic type arguments".to_owned(),
                            },
                        ),
                        PathArgs::Absent => Err(
                            Error::ParseErr {
                                message:
                                    "Failed to parse lua type's brackets. Expected angular brackets".to_owned(),
                            },
                        ),
                    }
                } else if str_eq(name.as_str(), "Vec") {
                    match args {
                        PathArgs::Types(ts) => {
                            proof {
                                lemma_ty_expr_seq_view(ts@);
                                assert(decreases_to!(*ty => ty->args));
                                assert(decreases_to!(ty->args => ty->args->Types_0));
                                assert(decreases_to!(ty->args->Types_0 => ty->args->Types_0@));
                                assert(ty->args->Types_0@ == ts@);
                            }
                            if ts.len() == 0 {
                                Err(
                                    Error::ParseErr {
                                        message: "Expected at least one generic type argument".to_owned(),
                                    },
                                )
                            } else {
                                match Self::from_ty_expr(&ts[0]) {
                                    Ok(inner) => Ok(LuaType::Array(Box::new(inner))),
                                    Err(e) => Err(e),
                                }
                            }
                        },
                        PathArgs::NonType => Err(
                            Error::Unimplemented {
                                message:
                                    "mlua_bindgen only supports types with generic type arguments".to_owned(),
                            },
                        ),
                        PathArgs::Absent => Err(
                            Error::ParseErr {
                                message:
                                    "Failed to parse lua type's brackets. Expected angular brackets".to_owned(),
                            },
                        ),
                    }
                } else if str_eq(name.as_str(), "Either") {
                    match args {
                        PathArgs::Types(ts) => {
                            proof {
                                lemma_ty_expr_seq_view(ts@);
                                assert(decreases_to!(*ty => ty->args));
                                assert(decreases_to!(ty->args => ty->args->Types_0));
                                assert(decreases_to!(ty->args->Types_0 => ty->args->Types_0@));
                                assert(ty->args->Types_0@ == ts@);
                            }
                            if ts.len() != 2 {
                                Err(
                                    Error::ParseErr {
                                        message:
                                            "Lua union types have to contain exactly 2 generic arguments".to_owned(),
                                    },
                                )
                            } else {
                                match Self::from_ty_expr(&ts[0]) {
                                    Ok(left) => match Self::from_ty_expr(&ts[1]) {
                                        Ok(right) => Ok(
                                            LuaType::Either(Box::new(left), Box::new(right)),
                                        ),
                                        Err(e) => Err(e),
                                    },
                                    Err(e) => Err(e),
                                }
                            }
                        },
                        PathArgs::NonType => Err(
                            Error::Unimplemented {
                                message:
                                    "mlua_bindgen only supports types with generic type arguments".to_owned(),
                            },
                        ),
                        PathArgs::Absent => Err(
                            Error::ParseErr {
                                message:
                                    "Failed to parse lua type's brackets. Expected angular brackets".to_owned(),
                            },
                        ),
                    }
                } else {
                    Ok(LuaType::from_type_name(name.as_str()))
                }
            },
            TyExpr::Other => Err(
                Error::Unimplemented {
                    message: "For now only arrays and type paths are supported".to_owned(),
                },
            ),
        }
    }
}

/// How a Lua type renders in declaration output. `function` and `table`
/// can't be used in declaration files, so those render as permissive
/// catch-all forms; an optional renders as its inner type, and the caller
/// appends the nullability marker; a custom type carries the userdata marker
/// character in front of its name.
pub open spec fn spec_render_ty(t: LuaTypeV) -> Seq<char>
    decreases t,
{
    match t {
        LuaTypeV::Integer => "integer"@,
        LuaTypeV::Number => "number"@,
        LuaTypeV::Boolean => "boolean"@,
        LuaTypeV::String => "string"@,
        LuaTypeV::Function => "(any): any"@,
        LuaTypeV::Array(ty) => "{"@ + spec_render_ty(*ty) + "}"@,
        LuaTypeV::Optional(ty) => spec_render_ty(*ty),
        LuaTypeV::Error => "error"@,
        LuaTypeV::Table => "{any: any}"@,
        LuaTypeV::Thread => "thread"@,
        LuaTypeV::Userdata => "userdata"@,
        LuaTypeV::Nil => "nil"@,
        LuaTypeV::Void => Seq::empty(),
        LuaTypeV::Either(l, r) => spec_render_ty(*l) + " | "@ + spec_render_ty(*r),
        LuaTypeV::Custom(name) => "u"@ + name,
        LuaTypeV::Tuple(ts) => "("@ + spec_render_tuple(ts) + ")"@,
        LuaTypeV::Any => "any"@,
    }
}

/// Tuple elements rendered and joined with a comma separator.
pub open spec fn spec_render_tuple(ts: Seq<LuaTypeV>) -> Seq<char>
    decreases ts,
{
    if ts.len() == 0 {
        Seq::empty()
    } else if ts.len() == 1 {
        spec_render_ty(ts[0])
    } else {
        spec_render_ty(ts[0]) + ", "@ + spec_render_tuple(ts.drop_first())
    }
}

/// The part of a rendered tuple that comes after the first `i` elements.
spec fn spec_tuple_tail(ts: Seq<LuaTypeV>, i: int) -> Seq<char>
    decreases ts.len() - i,
{
    if i < 0 || i >= ts.len() {
        Seq::empty()
    } else {
        ", "@ + spec_render_ty(ts[i]) + spec_tuple_tail(ts, i + 1)
    }
}

proof fn lemma_tuple_tail_shift(ts: Seq<LuaTypeV>, i: int)
    requires
        0 <= i,
        ts.len() > 0,
    ensures
        spec_tuple_tail(ts.drop_first(), i) == spec_tuple_tail(ts, i + 1),
    decreases ts.len() - i,
{
    if i < ts.len() - 1 {
        assert(ts.drop_first()[i] == ts[i + 1]);
        lemma_tuple_tail_shift(ts, i + 1);
    }
}

/// A rendered tuple is its first element followed by the tail.
proof fn lemma_render_tuple_as_tail(ts: Seq<LuaTypeV>)
    requires
        ts.len() > 0,
    ensures
        spec_render_tuple(ts) == spec_render_ty(ts[0]) + spec_tuple_tail(ts, 1),
    decreases ts.len(),
{
    if ts.len() == 1 {
        assert(spec_tuple_tail(ts, 1) == Seq::<char>::empty());
        assert(spec_render_ty(ts[0]) + Seq::<char>::empty() =~= spec_render_ty(ts[0]));
    } else {
        let df = ts.drop_first();
        lemma_render_tuple_as_tail(df);
        lemma_tuple_tail_shift(ts, 1);
        assert(df[0] == ts[1]);
        assert(spec_tuple_tail(ts, 1) == ", "@ + spec_render_ty(ts[1]) + spec_tuple_tail(ts, 2));
        assert(spec_render_ty(ts[0]) + (", "@ + spec_render_ty(ts[1]) + spec_tuple_tail(ts, 2))
            =~= spec_render_ty(ts[0]) + ", "@ + (spec_render_ty(ts[1]) + spec_tuple_tail(ts, 2)));
    }
}

impl LuaType {
    /// Render this type as it appears in declaration output.
    #[verifier::loop_isolation(false)]
    pub fn to_string(&self) -> (r: String)
        ensures
            r@ == spec_render_ty(self@),
        decreases *self,
    {
        match self {
            LuaType::Integer => "integer".to_owned(),
            LuaType::Number => "number".to_owned(),
            LuaType::Boolean => "boolean".to_owned(),
            LuaType::String => "string".to_owned(),
            LuaType::Function => "(any): any".to_owned(),
            LuaType::Array(ty) => {
                let mut r = "{".to_owned();
                let inner = (&**ty).to_string();
                r.append(inner.as_str());
                r.append("}");
                r
            },
            LuaType::Optional(ty) => (&**ty).to_string(),
            LuaType::Error => "error".to_owned(),
            LuaType::Table => "{any: any}".to_owned(),
            LuaType::Thread => "thread".to_owned(),
            LuaType::Userdata => "userdata".to_owned(),
            LuaType::Nil => "nil".to_owned(),
            LuaType::Void => String::new(),
            LuaType::Either(l, rt) => {
                let mut r = (&**l).to_string();
                r.append(" | ");
                let right = (&**rt).to_string();
                r.append(right.as_str());
                r
            },
            LuaType::Custom(name) => {
                let mut r = USERDATA_CHAR.to_owned();
                r.append(name.as_str());
                proof {
                    reveal_strlit("u");
                }
                r
            },
            LuaType::Tuple(ts) => {
                let ghost vs = lua_type_seq_view(ts@);
                proof {
                    lemma_lua_type_seq_view(ts@);
                    assert(self@ == LuaTypeV::Tuple(vs));
                }
                let mut body = String::new();
                let mut i: usize = 0;
                while i < ts.len()
                    invariant
                        i <= ts@.len(),
                        i == 0 ==> body@ == Seq::<char>::empty(),
                        i > 0 ==> body@ + spec_tuple_tail(vs, i as int) == spec_render_tuple(vs),
                    decreases ts@.len() - i,
                {
                    proof {
                        assert(decreases_to!(*self => self->Tuple_0));
                        assert(decreases_to!(self->Tuple_0 => self->Tuple_0@));
                        assert(decreases_to!(self->Tuple_0@ => self->Tuple_0@[i as int]));
                        assert(decreases_to!(*self => ts@[i as int]));
                    }
                    let ghost body0 = body@;
                    if i > 0 {
                        body.append(", ");
                    }
                    let piece = (&ts[i]).to_string();
                    body.append(piece.as_str());
                    proof {
                        if i == 0 {
                            lemma_render_tuple_as_tail(vs);
                            assert(body@ =~= spec_render_ty(vs[0]));
                        } else {
                            assert(spec_tuple_tail(vs, i as int) == ", "@ + spec_render_ty(
                                vs[i as int],
                            ) + spec_tuple_tail(vs, i as int + 1));
                            assert(body@ + spec_tuple_tail(vs, i as int + 1) =~= body0
                                + spec_tuple_tail(vs, i as int));
                        }
                    }
                    i += 1;
                }
                proof {
                    if ts@.len() == 0 {
                        assert(spec_render_tuple(vs) == Seq::<char>::empty());
                    } else {
                        assert(spec_tuple_tail(vs, vs.len() as int) == Seq::<char>::empty());
                        assert(body@ + Seq::<char>::empty() =~= body@);
                    }
                    if ts@.len() == 1 {
                        lemma_render_tuple_as_tail(vs);
                    }
                }
                let mut r = "(".to_owned();
                r.append(body.as_str());
                r.append(")");
                r
            },
            LuaType::Any => "any".to_owned(),
        }
    }
}

} // verus!
