//! The host-language type expressions the type mapper reads: exactly the
//! syntactic shapes the mapper distinguishes, carried as plain values. The
//! thin scanner around the library converts the host parser's type syntax
//! into this form one constructor for one.

use vstd::prelude::*;

verus! {

/// The generic arguments attached to the last segment of a type path.
#[derive(Debug)]
pub enum PathArgs {
    /// No angle-bracketed argument list.
    Absent,
    /// An angle-bracketed list in which every argument is itself a type.
    Types(Vec<TyExpr>),
    /// An angle-bracketed list with at least one non-type argument (a
    /// lifetime, a const expression).
    NonType,
}

/// A host-language type expression, reduced to the shapes the mapper reads.
#[derive(Debug)]
pub enum TyExpr {
    /// A fixed-size array type; only the element type matters.
    Array(Box<TyExpr>),
    /// A reference type; mapping unwraps it and recurses.
    Reference(Box<TyExpr>),
    /// A tuple type.
    Tuple(Vec<TyExpr>),
    /// A path type: the name of its last segment and that segment's generic
    /// arguments.
    Path { name: String, args: PathArgs },
    /// Any other syntactic shape; the mapper reports it as unsupported.
    Other,
}

/// Mathematical image of [`PathArgs`].
pub enum PathArgsV {
    Absent,
    Types(Seq<TyExprV>),
    NonType,
}

/// Mathematical image of a [`TyExpr`].
pub enum TyExprV {
    Array(Box<TyExprV>),
    Reference(Box<TyExprV>),
    Tuple(Seq<TyExprV>),
    Path { name: Seq<char>, args: PathArgsV },
    Other,
}

/// The image of one type expression.
pub open spec fn ty_expr_view(t: TyExpr) -> TyExprV
    decreases t,
{
    match t {
        TyExpr::Array(elem) => TyExprV::Array(Box::new(ty_expr_view(*elem))),
        TyExpr::Reference(elem) => TyExprV::Reference(Box::new(ty_expr_view(*elem))),
        TyExpr::Tuple(elems) => TyExprV::Tuple(ty_expr_seq_view(elems@)),
        TyExpr::Path { name, args } => TyExprV::Path { name: name@, args: path_args_view(args) },
        TyExpr::Other => TyExprV::Other,
    }
}

/// The images of a sequence of type expressions, element for element.
pub open spec fn ty_expr_seq_view(ts: Seq<TyExpr>) -> Seq<TyExprV>
    decreases ts,
{
    if ts.len() == 0 {
        Seq::empty()
    } else {
        seq![ty_expr_view(ts[0])] + ty_expr_seq_view(ts.drop_first())
    }
}

/// The image of a generic-argument list.
pub open spec fn path_args_view(a: PathArgs) -> PathArgsV
    decreases a,
{
    match a {
        PathArgs::Absent => PathArgsV::Absent,
        PathArgs::Types(ts) => PathArgsV::Types(ty_expr_seq_view(ts@)),
        PathArgs::NonType => PathArgsV::NonType,
    }
}

impl View for TyExpr {
    type V = TyExprV;

    open spec fn view(&self) -> TyExprV {
        ty_expr_view(*self)
    }
}

impl View for PathArgs {
    type V = PathArgsV;

    open spec fn view(&self) -> PathArgsV {
        path_args_view(*self)
    }
}

/// The image of a sequence is the sequence of images.
pub proof fn lemma_ty_expr_seq_view(ts: Seq<TyExpr>)
    ensures
        ty_expr_seq_view(ts).len() == ts.len(),
        forall|i: int| 0 <= i < ts.len() ==> ty_expr_seq_view(ts)[i] == ty_expr_view(ts[i]),
    decreases ts.len(),
{
    if ts.len() > 0 {
        lemma_ty_expr_seq_view(ts.drop_first());
    }
}

} // verus!
