//! Data types exposed to Lua: parsing an annotated impl block into getter
//! and setter fields, class-level functions, instance methods and
//! meta-functions, each function classified by the attribute it carries.

use vstd::prelude::*;
use vstd::string::StringExecFns;

use crate::error::Error;
use crate::error::ErrorV;
use crate::funcs::FuncKind;
use crate::funcs::ParsedFunc;
use crate::funcs::ParsedFuncV;
use crate::funcs::RawFunc;
use crate::funcs::RawFuncV;
use crate::funcs::parse_func;
use crate::funcs::spec_parse_func;
use crate::funcs::spec_count_args;
use crate::utils::contains_attr;
use crate::utils::spec_contains_attr;

verus! {

/// An enum used to distinguish between setters and getters. When parsing
/// these, the only way to distinguish them is to look at their attribute.
/// A getter can't take any script-visible argument, while a setter takes
/// exactly one.
#[derive(Clone, Copy, PartialEq, Eq, Structural, Debug)]
pub enum FieldKind {
    Getter,
    Setter,
}

impl FieldKind {
    /// The number of script-visible arguments a field function of this kind
    /// takes.
    pub open spec fn spec_user_args(self) -> usize {
        match self {
            FieldKind::Getter => 0,
            FieldKind::Setter => 1,
        }
    }

    /// Tells the amount of user arguments each field can take.
    pub fn user_args(&self) -> (n: usize)
        ensures
            n == self.spec_user_args(),
    {
        match self {
            Self::Getter => 0,
            Self::Setter => 1,
        }
    }
}

/// A getter or setter, parsed as a function with its kind.
#[derive(Debug)]
pub struct ParsedField {
    pub func: ParsedFunc,
    pub kind: FieldKind,
}

/// Mathematical image of a [`ParsedField`].
pub struct ParsedFieldV {
    pub func: ParsedFuncV,
    pub kind: FieldKind,
}

impl View for ParsedField {
    type V = ParsedFieldV;

    open spec fn view(&self) -> ParsedFieldV {
        ParsedFieldV { func: self.func@, kind: self.kind }
    }
}

/// A class function, method or meta-function, parsed with its kind.
#[derive(Debug)]
pub struct ParsedImplFunc {
    pub func: ParsedFunc,
    pub kind: FuncKind,
}

/// Mathematical image of a [`ParsedImplFunc`].
pub struct ParsedImplFuncV {
    pub func: ParsedFuncV,
    pub kind: FuncKind,
}

impl View for ParsedImplFunc {
    type V = ParsedImplFuncV;

    open spec fn view(&self) -> ParsedImplFuncV {
        ParsedImplFuncV { func: self.func@, kind: self.kind }
    }
}

/// One item of a scanned impl block: a function declaration, or anything
/// else (which the generator skips).
#[derive(Debug)]
pub enum RawImplItem {
    Fn(RawFunc),
    Other,
}

/// Mathematical image of a [`RawImplItem`].
pub enum RawImplItemV {
    Fn(RawFuncV),
    Other,
}

impl View for RawImplItem {
    type V = RawImplItemV;

    open spec fn view(&self) -> RawImplItemV {
        match self {
            RawImplItem::Fn(f) => RawImplItemV::Fn(f@),
            RawImplItem::Other => RawImplItemV::Other,
        }
    }
}

/// A scanned impl block: its attribute names, the text of the type it is
/// for, and its items.
#[derive(Debug)]
pub struct RawImpl {
    pub attrs: Vec<String>,
    pub self_ty: String,
    pub items: Vec<RawImplItem>,
}

/// Mathematical image of a [`RawImpl`].
pub struct RawImplV {
    pub attrs: Seq<Seq<char>>,
    pub self_ty: Seq<char>,
    pub items: Seq<RawImplItemV>,
}

impl View for RawImpl {
    type V = RawImplV;

    open spec fn view(&self) -> RawImplV {
        RawImplV {
            attrs: self.attrs.deep_view(),
            self_ty: self.self_ty@,
            items: self.items@.map_values(|x: RawImplItem| x@),
        }
    }
}

/// A parsed impl block: the name text of its type, its getter/setter
/// fields, class functions, methods and meta-functions, and whether the
/// whole block carries the ignore marker.
#[derive(Debug)]
pub struct ParsedImpl {
    pub name: String,
    pub bindgen_ignore: bool,
    pub fields: Vec<ParsedField>,
    pub funcs: Vec<ParsedImplFunc>,
    pub methods: Vec<ParsedImplFunc>,
    pub meta_funcs: Vec<ParsedImplFunc>,
}

/// Mathematical image of a [`ParsedImpl`].
pub struct ParsedImplV {
    pub name: Seq<char>,
    pub bindgen_ignore: bool,
    pub fields: Seq<ParsedFieldV>,
    pub funcs: Seq<ParsedImplFuncV>,
    pub methods: Seq<ParsedImplFuncV>,
    pub meta_funcs: Seq<ParsedImplFuncV>,
}

impl View for ParsedImpl {
    type V = ParsedImplV;

    open spec fn view(&self) -> ParsedImplV {
        ParsedImplV {
            name: self.name@,
            bindgen_ignore: self.bindgen_ignore,
            fields: self.fields@.map_values(|x: ParsedField| x@),
            funcs: self.funcs@.map_values(|x: ParsedImplFunc| x@),
            methods: self.methods@.map_values(|x: ParsedImplFunc| x@),
            meta_funcs: self.meta_funcs@.map_values(|x: ParsedImplFunc| x@),
        }
    }
}

impl ParsedImpl {
    /// Construct an absolutely empty impl, with just name information.
    pub fn from_ty(name: String) -> (r: Self)
        ensures
            r@.name == name@,
            !r@.bindgen_ignore,
            r@.fields == Seq::<ParsedFieldV>::empty(),
            r@.funcs == Seq::<ParsedImplFuncV>::empty(),
            r@.methods == Seq::<ParsedImplFuncV>::empty(),
            r@.meta_funcs == Seq::<ParsedImplFuncV>::empty(),
    {
        let r = ParsedImpl {
            name,
            bindgen_ignore: false,
            fields: Vec::new(),
            funcs: Vec::new(),
            methods: Vec::new(),
            meta_funcs: Vec::new(),
        };
        proof {
            assert(r@.fields =~= Seq::<ParsedFieldV>::empty());
            assert(r@.funcs =~= Seq::<ParsedImplFuncV>::empty());
            assert(r@.methods =~= Seq::<ParsedImplFuncV>::empty());
            assert(r@.meta_funcs =~= Seq::<ParsedImplFuncV>::empty());
        }
        r
    }
}

/// The message a field function with the wrong number of script-visible
/// arguments is rejected with.
pub open spec fn spec_field_arity_message(kind: FieldKind) -> Seq<char> {
    match kind {
        FieldKind::Getter => "Getters can't contain more than 2 default arguments (&Lua and &Self)"@,
        FieldKind::Setter => "Setter have to contain exactly 3 arguments (&Lua, &mut Self and 1 user argument)"@,
    }
}

/// What parsing a field function yields: it parses as a mutable method, and
/// is then rejected, under the name of the offending function, unless its
/// script-visible argument count is exactly what its kind demands (none for
/// a getter, one for a setter).
pub open spec fn spec_parse_field(input: RawFuncV, kind: FieldKind) -> Result<
    ParsedFieldV,
    ErrorV,
> {
    match spec_parse_func(input, FuncKind::MethodMut) {
        Err(e) => Err(e),
        Ok(func) => {
            if spec_count_args(func.args, false, 0) != kind.spec_user_args() {
                Err(ErrorV::Syn { item: func.name, message: spec_field_arity_message(kind) })
            } else {
                Ok(ParsedFieldV { func, kind })
            }
        },
    }
}

/// The image of a field-parsing result.
pub open spec fn parsed_field_res_view(r: Result<ParsedField, Error>) -> Result<
    ParsedFieldV,
    ErrorV,
> {
    match r {
        Ok(f) => Ok(f@),
        Err(e) => Err(e@),
    }
}

/// Parse a getter or setter function into a [`ParsedField`].
pub fn parse_field(input: RawFunc, kind: FieldKind) -> (r: Result<ParsedField, Error>)
    ensures
        parsed_field_res_view(r) == spec_parse_field(input@, kind),
{
    let func = match parse_func(input, &FuncKind::MethodMut) {
        Ok(func) => func,
        Err(err) => {
            return Err(err);
        },
    };
    let user_arg_count = func.user_arg_count();
    if user_arg_count != kind.user_args() {
        let message = match kind {
            FieldKind::Getter => "Getters can't contain more than 2 default arguments (&Lua and &Self)",
            FieldKind::Setter => "Setter have to contain exactly 3 arguments (&Lua, &mut Self and 1 user argument)",
        };
        return Err(Error::Syn { item: func.name, message: message.to_owned() });
    }
    Ok(ParsedField { func, kind })
}

/// The image of an impl-function-parsing result.
pub open spec fn parsed_impl_func_res_view(r: Result<ParsedImplFunc, Error>) -> Result<
    ParsedImplFuncV,
    ErrorV,
> {
    match r {
        Ok(f) => Ok(f@),
        Err(e) => Err(e@),
    }
}

/// What parsing a method, class function or meta-function yields.
pub open spec fn spec_parse_impl_func(input: RawFuncV, kind: FuncKind) -> Result<
    ParsedImplFuncV,
    ErrorV,
> {
    match spec_parse_func(input, kind) {
        Err(e) => Err(e),
        Ok(func) => Ok(ParsedImplFuncV { func, kind }),
    }
}

/// Parse a method, class function or meta-function into a
/// [`ParsedImplFunc`].
pub fn parse_impl_func(input: RawFunc, kind: FuncKind) -> (r: Result<ParsedImplFunc, Error>)
    ensures
        parsed_impl_func_res_view(r) == spec_parse_impl_func(input@, kind),
{
    let func = match parse_func(input, &kind) {
        Ok(func) => func,
        Err(err) => {
            return Err(err);
        },
    };
    Ok(ParsedImplFunc { func, kind })
}

/// The classified items of an impl block: fields, class functions, methods,
/// meta-functions.
pub type ImplItemsV = (Seq<ParsedFieldV>, Seq<ParsedImplFuncV>, Seq<ParsedImplFuncV>, Seq<
    ParsedImplFuncV,
>);

/// One parsed field prepended to the outcome for the rest.
pub open spec fn spec_cons_field(
    h: Result<ParsedFieldV, ErrorV>,
    rest: Result<ImplItemsV, ErrorV>,
) -> Result<ImplItemsV, ErrorV> {
    match h {
        Err(e) => Err(e),
        Ok(x) => match rest {
            Err(e) => Err(e),
            Ok(r) => Ok((seq![x] + r.0, r.1, r.2, r.3)),
        },
    }
}

/// One parsed class function prepended to the outcome for the rest.
pub open spec fn spec_cons_func(
    h: Result<ParsedImplFuncV, ErrorV>,
    rest: Result<ImplItemsV, ErrorV>,
) -> Result<ImplItemsV, ErrorV> {
    match h {
        Err(e) => Err(e),
        Ok(x) => match rest {
            Err(e) => Err(e),
            Ok(r) => Ok((r.0, seq![x] + r.1, r.2, r.3)),
        },
    }
}

/// One parsed method prepended to the outcome for the rest.
pub open spec fn spec_cons_method(
    h: Result<ParsedImplFuncV, ErrorV>,
    rest: Result<ImplItemsV, ErrorV>,
) -> Result<ImplItemsV, ErrorV> {
    match h {
        Err(e) => Err(e),
        Ok(x) => match rest {
            Err(e) => Err(e),
            Ok(r) => Ok((r.0, r.1, seq![x] + r.2, r.3)),
        },
    }
}

/// One parsed meta-function prepended to the outcome for the rest.
pub open spec fn spec_cons_meta(
    h: Result<ParsedImplFuncV, ErrorV>,
    rest: Result<ImplItemsV, ErrorV>,
) -> Result<ImplItemsV, ErrorV> {
    match h {
        Err(e) => Err(e),
        Ok(x) => match rest {
            Err(e) => Err(e),
            Ok(r) => Ok((r.0, r.1, r.2, seq![x] + r.3)),
        },
    }
}

/// The classified outcome for the items of an impl block from position `i`
/// on: each function goes by its attribute, in order (method, method_mut,
/// func, meta, get, set); a function with none of them is rejected; items
/// that are not functions are skipped.
pub open spec fn spec_parse_impl_items(items: Seq<RawImplItemV>, i: int) -> Result<
    ImplItemsV,
    ErrorV,
>
    decreases items.len() - i,
{
    if i < 0 || i >= items.len() {
        Ok((Seq::empty(), Seq::empty(), Seq::empty(), Seq::empty()))
    } else {
        match items[i] {
            RawImplItemV::Other => spec_parse_impl_items(items, i + 1),
            RawImplItemV::Fn(f) => {
                let rest = spec_parse_impl_items(items, i + 1);
                if spec_contains_attr(f.attrs, "method"@) {
                    spec_cons_method(spec_parse_impl_func(f, FuncKind::Method), rest)
                } else if spec_contains_attr(f.attrs, "method_mut"@) {
                    spec_cons_method(spec_parse_impl_func(f, FuncKind::MethodMut), rest)
                } else if spec_contains_attr(f.attrs, "func"@) {
                    spec_cons_func(spec_parse_impl_func(f, FuncKind::Func), rest)
                } else if spec_contains_attr(f.attrs, "meta"@) {
                    spec_cons_meta(spec_parse_impl_func(f, FuncKind::Meta), rest)
                } else if spec_contains_attr(f.attrs, "get"@) {
                    spec_cons_field(spec_parse_field(f, FieldKind::Getter), rest)
                } else if spec_contains_attr(f.attrs, "set"@) {
                    spec_cons_field(spec_parse_field(f, FieldKind::Setter), rest)
                } else {
                    Err(
                        ErrorV::Syn {
                            item: f.name,
                            message:
                                "No attributes? If that's intentional - you should move this function to a normal impl block, since this macro ignores non-attributed functions"@,
                        },
                    )
                }
            },
        }
    }
}

/// What parsing a scanned impl block yields.
pub open spec fn spec_parse_impl(item: RawImplV) -> Result<ParsedImplV, ErrorV> {
    match spec_parse_impl_items(item.items, 0) {
        Err(e) => Err(e),
        Ok(t) => Ok(
            ParsedImplV {
                name: item.self_ty,
                bindgen_ignore: spec_contains_attr(item.attrs, "mlua_bindgen_ignore"@),
                fields: t.0,
                funcs: t.1,
                methods: t.2,
                meta_funcs: t.3,
            },
        ),
    }
}

/// The image of an impl-parsing result.
pub open spec fn parsed_impl_res_view(r: Result<ParsedImpl, Error>) -> Result<
    ParsedImplV,
    ErrorV,
> {
    match r {
        Ok(p) => Ok(p@),
        Err(e) => Err(e@),
    }
}

/// Already-classified items prepended to the outcome for the rest.
pub open spec fn spec_prepend_impl_items(d: ImplItemsV, rest: Result<ImplItemsV, ErrorV>) -> Result<
    ImplItemsV,
    ErrorV,
> {
    match rest {
        Ok(r) => Ok((d.0 + r.0, d.1 + r.1, d.2 + r.2, d.3 + r.3)),
        Err(e) => Err(e),
    }
}

/// Parse an impl block and its inner functions into a [`ParsedImpl`].
#[verifier::loop_isolation(false)]
pub fn parse_impl(input: RawImpl) -> (r: Result<ParsedImpl, Error>)
    ensures
        parsed_impl_res_view(r) == spec_parse_impl(input@),
{
    let ghost inputv = input@;
    let ghost itemsv = inputv.items;
    let RawImpl { attrs, self_ty, items } = input;
    let bindgen_ignore = contains_attr(&attrs, "mlua_bindgen_ignore");
    let mut fields: Vec<ParsedField> = Vec::new();
    let mut funcs: Vec<ParsedImplFunc> = Vec::new();
    let mut methods: Vec<ParsedImplFunc> = Vec::new();
    let mut meta_funcs: Vec<ParsedImplFunc> = Vec::new();
    let mut rest_items = items;
    let total = rest_items.len();
    let mut i: usize = 0;
    proof {
        assert(fields@.map_values(|x: ParsedField| x@) =~= Seq::<ParsedFieldV>::empty());
        assert(funcs@.map_values(|x: ParsedImplFunc| x@) =~= Seq::<ParsedImplFuncV>::empty());
        if spec_parse_impl_items(itemsv, 0) is Ok {
            let r0 = spec_parse_impl_items(itemsv, 0)->Ok_0;
            assert(Seq::<ParsedFieldV>::empty() + r0.0 =~= r0.0);
            assert(Seq::<ParsedImplFuncV>::empty() + r0.1 =~= r0.1);
            assert(Seq::<ParsedImplFuncV>::empty() + r0.2 =~= r0.2);
            assert(Seq::<ParsedImplFuncV>::empty() + r0.3 =~= r0.3);
        }
    }
    while rest_items.len() > 0
        invariant
            total == itemsv.len(),
            i + rest_items@.len() == itemsv.len(),
            rest_items@.map_values(|x: RawImplItem| x@) == itemsv.skip(i as int),
            spec_parse_impl_items(itemsv, 0) == spec_prepend_impl_items(
                (
                    fields@.map_values(|x: ParsedField| x@),
                    funcs@.map_values(|x: ParsedImplFunc| x@),
                    methods@.map_values(|x: ParsedImplFunc| x@),
                    meta_funcs@.map_values(|x: ParsedImplFunc| x@),
                ),
                spec_parse_impl_items(itemsv, i as int),
            ),
        decreases rest_items@.len(),
    {
        let ghost restv = rest_items@.map_values(|x: RawImplItem| x@);
        let ghost d = (
            fields@.map_values(|x: ParsedField| x@),
            funcs@.map_values(|x: ParsedImplFunc| x@),
            methods@.map_values(|x: ParsedImplFunc| x@),
            meta_funcs@.map_values(|x: ParsedImplFunc| x@),
        );
        let ghost rest_old = rest_items@;
        let it = rest_items.remove(0);
        proof {
            assert(it == rest_old[0]);
            assert(it@ == restv[0]);
            assert(restv[0] == itemsv.skip(i as int)[0]);
            assert(itemsv.skip(i as int)[0] == itemsv[i as int]);
            assert(rest_items@.map_values(|x: RawImplItem| x@) =~= restv.drop_first());
            assert(restv.drop_first() =~= itemsv.skip(i as int + 1));
        }
        let ghost after = spec_parse_impl_items(itemsv, i as int + 1);
        match it {
            RawImplItem::Other => {},
            RawImplItem::Fn(impl_fn) => {
                let ghost fv = impl_fn@;
                if contains_attr(&impl_fn.attrs, "method") {
                    match parse_impl_func(impl_fn, FuncKind::Method) {
                        Ok(x) => {
                            proof {
                                if after is Ok {
                                    assert(d.2 + (seq![x@] + after->Ok_0.2) =~= d.2.push(x@)
                                        + after->Ok_0.2);
                                }
                            }
                            let ghost xv = x@;
                            methods.push(x);
                            proof {
                                assert(methods@.map_values(|y: ParsedImplFunc| y@) =~= d.2.push(
                                    xv,
                                ));
                            }
                        },
                        Err(e) => {
                            return Err(e);
                        },
                    }
                } else if contains_attr(&impl_fn.attrs, "method_mut") {
                    match parse_impl_func(impl_fn, FuncKind::MethodMut) {
                        Ok(x) => {
                            proof {
                                if after is Ok {
                                    assert(d.2 + (seq![x@] + after->Ok_0.2) =~= d.2.push(x@)
                                        + after->Ok_0.2);
                                }
                            }
                            let ghost xv = x@;
                            methods.push(x);
                            proof {
                                assert(methods@.map_values(|y: ParsedImplFunc| y@) =~= d.2.push(
                                    xv,
                                ));
                            }
                        },
                        Err(e) => {
                            return Err(e);
                        },
                    }
                } else if contains_attr(&impl_fn.attrs, "func") {
                    match parse_impl_func(impl_fn, FuncKind::Func) {
                        Ok(x) => {
                            proof {
                                if after is Ok {
                                    assert(d.1 + (seq![x@] + after->Ok_0.1) =~= d.1.push(x@)
                                        + after->Ok_0.1);
                                }
                            }
                            let ghost xv = x@;
                            funcs.push(x);
                            proof {
                                assert(funcs@.map_values(|y: ParsedImplFunc| y@) =~= d.1.push(xv));
                            }
                        },
                        Err(e) => {
                            return Err(e);
                        },
                    }
                } else if contains_attr(&impl_fn.attrs, "meta") {
                    match parse_impl_func(impl_fn, FuncKind::Meta) {
                        Ok(x) => {
                            proof {
                                if after is Ok {
                                    assert(d.3 + (seq![x@] + after->Ok_0.3) =~= d.3.push(x@)
                                        + after->Ok_0.3);
                                }
                            }
                            let ghost xv = x@;
                            meta_funcs.push(x);
                            proof {
                                assert(meta_funcs@.map_values(|y: ParsedImplFunc| y@)
                                    =~= d.3.push(xv));
                            }
                        },
                        Err(e) => {
                            return Err(e);
                        },
                    }
                } else if contains_attr(&impl_fn.attrs, "get") {
                    match parse_field(impl_fn, FieldKind::Getter) {
                        Ok(x) => {
                            proof {
                                if after is Ok {
                                    assert(d.0 + (seq![x@] + after->Ok_0.0) =~= d.0.push(x@)
                                        + after->Ok_0.0);
                                }
                            }
                            let ghost xv = x@;
                            fields.push(x);
                            proof {
                                assert(fields@.map_values(|y: ParsedField| y@) =~= d.0.push(xv));
                            }
                        },
                        Err(e) => {
                            return Err(e);
                        },
                    }
                } else if contains_attr(&impl_fn.attrs, "set") {
                    match parse_field(impl_fn, FieldKind::Setter) {
                        Ok(x) => {
                            proof {
                                if after is Ok {
                                    assert(d.0 + (seq![x@] + after->Ok_0.0) =~= d.0.push(x@)
                                        + after->Ok_0.0);
                                }
                            }
                            let ghost xv = x@;
                            fields.push(x);
                            proof {
                                assert(fields@.map_values(|y: ParsedField| y@) =~= d.0.push(xv));
                            }
                        },
                        Err(e) => {
                            return Err(e);
                        },
                    }
                } else {
                    return Err(
                        Error::Syn {
                            item: impl_fn.name,
                            message:
                                "No attributes? If that's intentional - you should move this function to a normal impl block, since this macro ignores non-attributed functions".to_owned(),
                        },
                    );
                }
            },
        }
        i += 1;
    }
    Ok(ParsedImpl { name: self_ty, bindgen_ignore, fields, funcs, methods, meta_funcs })
}

} // verus!
