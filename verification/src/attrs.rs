//! The attribute arguments a module annotation carries (`include = [...]`,
//! `main`, `post_init = path`), parsed from their pre-tokenized form into
//! the attribute kinds the generator acts on.

use vstd::prelude::*;
use vstd::string::StringExecFns;

use crate::error::Error;
use crate::error::ErrorV;

verus! {

/// A path expression, carried as its full text and the text of its last
/// segment.
#[derive(Debug)]
pub struct RawPath {
    pub full: String,
    pub last: String,
}

/// Mathematical image of a [`RawPath`].
pub struct RawPathV {
    pub full: Seq<char>,
    pub last: Seq<char>,
}

impl View for RawPath {
    type V = RawPathV;

    open spec fn view(&self) -> RawPathV {
        RawPathV { full: self.full@, last: self.last@ }
    }
}

/// One element of an array expression in an attribute: a path, or anything
/// else (which is dropped, as only paths name modules).
#[derive(Debug)]
pub enum RawElem {
    Path(RawPath),
    Other,
}

/// Mathematical image of a [`RawElem`].
pub enum RawElemV {
    Path(RawPathV),
    Other,
}

impl View for RawElem {
    type V = RawElemV;

    open spec fn view(&self) -> RawElemV {
        match self {
            RawElem::Path(p) => RawElemV::Path(p@),
            RawElem::Other => RawElemV::Other,
        }
    }
}

/// The value attached to one attribute keyword.
#[derive(Debug)]
pub enum RawAttrValue {
    /// No `= value` part.
    Absent,
    /// `= some::path`
    Path(RawPath),
    /// `= [elem, elem, ...]`
    Array(Vec<RawElem>),
    /// `= <any other expression>`
    Other,
}

/// Mathematical image of a [`RawAttrValue`].
pub enum RawAttrValueV {
    Absent,
    Path(RawPathV),
    Array(Seq<RawElemV>),
    Other,
}

impl View for RawAttrValue {
    type V = RawAttrValueV;

    open spec fn view(&self) -> RawAttrValueV {
        match self {
            RawAttrValue::Absent => RawAttrValueV::Absent,
            RawAttrValue::Path(p) => RawAttrValueV::Path(p@),
            RawAttrValue::Array(es) => RawAttrValueV::Array(es@.map_values(|e: RawElem| e@)),
            RawAttrValue::Other => RawAttrValueV::Other,
        }
    }
}

/// One keyword of an attribute's argument list, with its value.
#[derive(Debug)]
pub struct RawAttrArg {
    pub keyword: String,
    pub value: RawAttrValue,
}

/// Mathematical image of a [`RawAttrArg`].
pub struct RawAttrArgV {
    pub keyword: Seq<char>,
    pub value: RawAttrValueV,
}

impl View for RawAttrArg {
    type V = RawAttrArgV;

    open spec fn view(&self) -> RawAttrArgV {
        RawAttrArgV { keyword: self.keyword@, value: self.value@ }
    }
}

/// Kinds of attributes accepted by the module annotation.
///
/// Some of the attributes can only be applied to specific items like
/// modules.
#[derive(Debug)]
pub enum ItemAttribute {
    /// A vector of module paths (like `[math_module, some_module, ...]`).
    Includes(Vec<RawPath>),
    /// Marks the module as the run's single main (root) module.
    IsMain,
    /// Tells to keep the original name, without removing its Lua prefix.
    Preserve,
    /// Tells the generator to ignore this element.
    BindgenIgnore,
    /// Names a function invoked after the module's table is fully
    /// constructed, for ad-hoc edits.
    PostInitFunc(RawPath),
}

/// Mathematical image of an [`ItemAttribute`].
pub enum ItemAttributeV {
    Includes(Seq<RawPathV>),
    IsMain,
    Preserve,
    BindgenIgnore,
    PostInitFunc(RawPathV),
}

impl View for ItemAttribute {
    type V = ItemAttributeV;

    open spec fn view(&self) -> ItemAttributeV {
        match self {
            ItemAttribute::Includes(ps) => ItemAttributeV::Includes(
                ps@.map_values(|p: RawPath| p@),
            ),
            ItemAttribute::IsMain => ItemAttributeV::IsMain,
            ItemAttribute::Preserve => ItemAttributeV::Preserve,
            ItemAttribute::BindgenIgnore => ItemAttributeV::BindgenIgnore,
            ItemAttribute::PostInitFunc(p) => ItemAttributeV::PostInitFunc(p@),
        }
    }
}

/// A container for the attributes of one module annotation.
#[derive(Debug)]
pub struct ItemAttributes(pub Vec<ItemAttribute>);

impl View for ItemAttributes {
    type V = Seq<ItemAttributeV>;

    open spec fn view(&self) -> Seq<ItemAttributeV> {
        self.0@.map_values(|a: ItemAttribute| a@)
    }
}

impl ItemAttributes {
    /// Create an empty attribute list.
    pub fn empty() -> (r: Self)
        ensures
            r@ == Seq::<ItemAttributeV>::empty(),
    {
        let r = ItemAttributes(Vec::new());
        proof {
            assert(r@ =~= Seq::<ItemAttributeV>::empty());
        }
        r
    }
}

/// The paths among the elements of an array expression, in order; other
/// elements are dropped.
pub open spec fn spec_path_elems(elems: Seq<RawElemV>, i: int) -> Seq<RawPathV>
    decreases elems.len() - i,
{
    if i < 0 || i >= elems.len() {
        Seq::empty()
    } else {
        match elems[i] {
            RawElemV::Path(p) => seq![p] + spec_path_elems(elems, i + 1),
            RawElemV::Other => spec_path_elems(elems, i + 1),
        }
    }
}

/// What one attribute keyword with its value parses to: `include` wants a
/// list and keeps its paths; `post_init` wants a function path; `main`
/// stands alone; `preserve` and `bindgen_ignore` are known but not
/// supported; anything else is an unknown keyword.
pub open spec fn spec_parse_attribute(arg: RawAttrArgV) -> Result<ItemAttributeV, ErrorV> {
    if arg.keyword == "include"@ {
        match arg.value {
            RawAttrValueV::Array(es) => Ok(ItemAttributeV::Includes(spec_path_elems(es, 0))),
            _ => Err(
                ErrorV::Syn {
                    item: arg.keyword,
                    message: "Expected a list of module paths"@,
                },
            ),
        }
    } else if arg.keyword == "post_init"@ {
        match arg.value {
            RawAttrValueV::Path(p) => Ok(ItemAttributeV::PostInitFunc(p)),
            _ => Err(
                ErrorV::Syn {
                    item: arg.keyword,
                    message: "Expected a function path to a post_init function"@,
                },
            ),
        }
    } else if arg.keyword == "main"@ {
        match arg.value {
            RawAttrValueV::Absent => Ok(ItemAttributeV::IsMain),
            _ => Err(
                ErrorV::Syn {
                    item: arg.keyword,
                    message: "This attribute does not take a value"@,
                },
            ),
        }
    } else if arg.keyword == "preserve"@ {
        Err(
            ErrorV::Syn {
                item: arg.keyword,
                message: "The `preserve` attribute is currently not supported"@,
            },
        )
    } else if arg.keyword == "bindgen_ignore"@ {
        Err(
            ErrorV::Syn {
                item: arg.keyword,
                message: "The `bindgen_ignore` attribute is currently not supported"@,
            },
        )
    } else {
        Err(
            ErrorV::Syn {
                item: arg.keyword,
                message: "Unknown keyword. Only `main`, `preserve` and `include` can be used"@,
            },
        )
    }
}

/// What a whole attribute argument list parses to, keyword by keyword; the
/// first error wins.
pub open spec fn spec_parse_attributes(args: Seq<RawAttrArgV>, i: int) -> Result<
    Seq<ItemAttributeV>,
    ErrorV,
>
    decreases args.len() - i,
{
    if i < 0 || i >= args.len() {
        Ok(Seq::empty())
    } else {
        match spec_parse_attribute(args[i]) {
            Err(e) => Err(e),
            Ok(a) => match spec_parse_attributes(args, i + 1) {
                Err(e) => Err(e),
                Ok(rest) => Ok(seq![a] + rest),
            },
        }
    }
}

/// The image of an attribute-parsing result.
pub open spec fn attrs_res_view(r: Result<ItemAttributes, Error>) -> Result<
    Seq<ItemAttributeV>,
    ErrorV,
> {
    match r {
        Ok(a) => Ok(a@),
        Err(e) => Err(e@),
    }
}

/// Parse pre-tokenized attribute arguments into [`ItemAttributes`].
#[verifier::loop_isolation(false)]
pub fn parse_attributes(args: Vec<RawAttrArg>) -> (r: Result<ItemAttributes, Error>)
    ensures
        attrs_res_view(r) == spec_parse_attributes(args@.map_values(|a: RawAttrArg| a@), 0),
{
    let ghost argsv = args@.map_values(|a: RawAttrArg| a@);
    let mut rest = args;
    let total = rest.len();
    let mut out: Vec<ItemAttribute> = Vec::new();
    let mut i: usize = 0;
    proof {
        assert(out@.map_values(|a: ItemAttribute| a@) =~= Seq::<ItemAttributeV>::empty());
        if spec_parse_attributes(argsv, 0) is Ok {
            assert(Seq::<ItemAttributeV>::empty() + spec_parse_attributes(argsv, 0)->Ok_0
                =~= spec_parse_attributes(argsv, 0)->Ok_0);
        }
    }
    while rest.len() > 0
        invariant
            total == argsv.len(),
            i + rest@.len() == argsv.len(),
            rest@.map_values(|a: RawAttrArg| a@) == argsv.skip(i as int),
            ({
                let done = out@.map_values(|a: ItemAttribute| a@);
                match spec_parse_attributes(argsv, i as int) {
                    Ok(r2) => spec_parse_attributes(argsv, 0) == Ok::<_, ErrorV>(done + r2),
                    Err(e) => spec_parse_attributes(argsv, 0) == Err::<Seq<ItemAttributeV>, _>(e),
                }
            }),
        decreases rest@.len(),
    {
        let ghost restv = rest@.map_values(|a: RawAttrArg| a@);
        let ghost rest_old = rest@;
        let ghost done = out@.map_values(|a: ItemAttribute| a@);
        let arg = rest.remove(0);
        proof {
            assert(arg == rest_old[0]);
            assert(arg@ == restv[0]);
            assert(restv[0] == argsv.skip(i as int)[0]);
            assert(argsv.skip(i as int)[0] == argsv[i as int]);
            assert(rest@.map_values(|a: RawAttrArg| a@) =~= restv.drop_first());
            assert(restv.drop_first() =~= argsv.skip(i as int + 1));
        }
        let RawAttrArg { keyword, value } = arg;
        let parsed: ItemAttribute;
        if crate::utils::str_eq(keyword.as_str(), "include") {
            match value {
                RawAttrValue::Array(elems) => {
                    parsed = ItemAttribute::Includes(collect_path_elems(elems));
                },
                _ => {
                    return Err(
                        Error::Syn {
                            item: keyword,
                            message: "Expected a list of module paths".to_owned(),
                        },
                    );
                },
            }
        } else if crate::utils::str_eq(keyword.as_str(), "post_init") {
            match value {
                RawAttrValue::Path(p) => {
                    parsed = ItemAttribute::PostInitFunc(p);
                },
                _ => {
                    return Err(
                        Error::Syn {
                            item: keyword,
                            message: "Expected a function path to a post_init function".to_owned(),
                        },
                    );
                },
            }
        } else if crate::utils::str_eq(keyword.as_str(), "main") {
            match value {
                RawAttrValue::Absent => {
                    parsed = ItemAttribute::IsMain;
                },
                _ => {
                    return Err(
                        Error::Syn {
                            item: keyword,
                            message: "This attribute does not take a value".to_owned(),
                        },
                    );
                },
            }
        } else if crate::utils::str_eq(keyword.as_str(), "preserve") {
            return Err(
                Error::Syn {
                    item: keyword,
                    message: "The `preserve` attribute is currently not supported".to_owned(),
                },
            );
        } else if crate::utils::str_eq(keyword.as_str(), "bindgen_ignore") {
            return Err(
                Error::Syn {
                    item: keyword,
                    message: "The `bindgen_ignore` attribute is currently not supported".to_owned(),
                },
            );
        } else {
            return Err(
                Error::Syn {
                    item: keyword,
                    message:
                        "Unknown keyword. Only `main`, `preserve` and `include` can be used".to_owned(),
                },
            );
        }
        let ghost pv = parsed@;
        out.push(parsed);
        proof {
            assert(out@.map_values(|a: ItemAttribute| a@) =~= done.push(pv));
            let rest_spec = spec_parse_attributes(argsv, i as int + 1);
            if rest_spec is Ok {
                assert(done + (seq![pv] + rest_spec->Ok_0) =~= done.push(pv) + rest_spec->Ok_0);
            }
        }
        i += 1;
    }
    let r = ItemAttributes(out);
    proof {
        assert(r@ == out@.map_values(|a: ItemAttribute| a@));
        assert(argsv.skip(argsv.len() as int) =~= Seq::<RawAttrArgV>::empty());
        if spec_parse_attributes(argsv, 0) is Ok {
            assert(r@ + Seq::<ItemAttributeV>::empty() =~= r@);
        }
    }
    Ok(r)
}

/// Keep the paths among the elements of an array expression, in order.
#[verifier::loop_isolation(false)]
fn collect_path_elems(elems: Vec<RawElem>) -> (r: Vec<RawPath>)
    ensures
        r@.map_values(|p: RawPath| p@) == spec_path_elems(
            elems@.map_values(|e: RawElem| e@),
            0,
        ),
{
    let ghost elemsv = elems@.map_values(|e: RawElem| e@);
    let mut rest = elems;
    let total = rest.len();
    let mut out: Vec<RawPath> = Vec::new();
    let mut i: usize = 0;
    proof {
        assert(out@.map_values(|p: RawPath| p@) =~= Seq::<RawPathV>::empty());
        assert(Seq::<RawPathV>::empty() + spec_path_elems(elemsv, 0) =~= spec_path_elems(
            elemsv,
            0,
        ));
    }
    while rest.len() > 0
        invariant
            total == elemsv.len(),
            i + rest@.len() == elemsv.len(),
            rest@.map_values(|e: RawElem| e@) == elemsv.skip(i as int),
            out@.map_values(|p: RawPath| p@) + spec_path_elems(elemsv, i as int)
                == spec_path_elems(elemsv, 0),
        decreases rest@.len(),
    {
        let ghost restv = rest@.map_values(|e: RawElem| e@);
        let ghost rest_old = rest@;
        let ghost done = out@.map_values(|p: RawPath| p@);
        let e = rest.remove(0);
        proof {
            assert(e == rest_old[0]);
            assert(e@ == restv[0]);
            assert(restv[0] == elemsv.skip(i as int)[0]);
            assert(elemsv.skip(i as int)[0] == elemsv[i as int]);
            assert(rest@.map_values(|x: RawElem| x@) =~= restv.drop_first());
            assert(restv.drop_first() =~= elemsv.skip(i as int + 1));
        }
        match e {
            RawElem::Path(p) => {
                let ghost pv = p@;
                out.push(p);
                proof {
                    assert(out@.map_values(|x: RawPath| x@) =~= done.push(pv));
                    assert(done + (seq![pv] + spec_path_elems(elemsv, i as int + 1)) =~= done.push(
                        pv,
                    ) + spec_path_elems(elemsv, i as int + 1));
                }
            },
            RawElem::Other => {},
        }
        i += 1;
    }
    proof {
        assert(spec_path_elems(elemsv, elemsv.len() as int) =~= Seq::<RawPathV>::empty());
        assert(out@.map_values(|p: RawPath| p@) + Seq::<RawPathV>::empty() =~= out@.map_values(
            |p: RawPath| p@,
        ));
    }
    out
}

} // verus!
