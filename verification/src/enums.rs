//! Enumerations exposed to Lua: parsing scanned variants into (name, value)
//! pairs, with values defaulting to the previous value plus one, starting at
//! zero, unless a variant carries an explicit integer literal.

use vstd::prelude::*;
use vstd::string::StringExecFns;

use crate::error::Error;
use crate::error::ErrorV;
use crate::utils::contains_attr;
use crate::utils::spec_contains_attr;

verus! {

/// The value type enum variants map onto.
pub type LuaVariantType = usize;

/// The discriminant a scanned variant carries, as far as the generator
/// distinguishes it.
#[derive(Clone, Copy, PartialEq, Eq, Structural, Debug)]
pub enum RawDiscriminant {
    /// No explicit discriminant.
    Empty,
    /// An integer literal with its parsed value.
    Int(usize),
    /// An integer literal too large for the value type.
    IntOverflow,
    /// A literal of another kind.
    NonIntLit,
    /// An expression that is not a literal.
    NonLit,
}

/// One scanned enum variant.
#[derive(Debug)]
pub struct RawVariant {
    pub name: String,
    pub disc: RawDiscriminant,
}

/// Mathematical image of a [`RawVariant`].
pub struct RawVariantV {
    pub name: Seq<char>,
    pub disc: RawDiscriminant,
}

impl View for RawVariant {
    type V = RawVariantV;

    open spec fn view(&self) -> RawVariantV {
        RawVariantV { name: self.name@, disc: self.disc }
    }
}

/// A scanned enum declaration: attribute names, name, variants.
#[derive(Debug)]
pub struct RawEnum {
    pub attrs: Vec<String>,
    pub ident: String,
    pub variants: Vec<RawVariant>,
}

/// Mathematical image of a [`RawEnum`].
pub struct RawEnumV {
    pub attrs: Seq<Seq<char>>,
    pub ident: Seq<char>,
    pub variants: Seq<RawVariantV>,
}

impl View for RawEnum {
    type V = RawEnumV;

    open spec fn view(&self) -> RawEnumV {
        RawEnumV {
            attrs: self.attrs.deep_view(),
            ident: self.ident@,
            variants: self.variants@.map_values(|v: RawVariant| v@),
        }
    }
}

/// Contains general enum information: its name, ignore flag, and ordered
/// (variant name, value) pairs.
#[derive(Debug)]
pub struct ParsedEnum {
    pub ident: String,
    pub bindgen_ignore: bool,
    pub variants: Vec<(String, LuaVariantType)>,
}

/// Mathematical image of a [`ParsedEnum`].
pub struct ParsedEnumV {
    pub ident: Seq<char>,
    pub bindgen_ignore: bool,
    pub variants: Seq<(Seq<char>, LuaVariantType)>,
}

impl View for ParsedEnum {
    type V = ParsedEnumV;

    open spec fn view(&self) -> ParsedEnumV {
        ParsedEnumV {
            ident: self.ident@,
            bindgen_ignore: self.bindgen_ignore,
            variants: self.variants@.map_values(|p: (String, LuaVariantType)| (p.0@, p.1)),
        }
    }
}

impl ParsedEnum {
    /// An empty constructor, for where the items of a module are not parsed
    /// in full and only their names matter.
    pub fn from_ident(ident: String) -> (r: Self)
        ensures
            r@.ident == ident@,
            !r@.bindgen_ignore,
            r@.variants == Seq::<(Seq<char>, LuaVariantType)>::empty(),
    {
        let r = ParsedEnum { ident, bindgen_ignore: false, variants: Vec::new() };
        proof {
            assert(r@.variants =~= Seq::<(Seq<char>, LuaVariantType)>::empty());
        }
        r
    }
}

/// One parsed (name, value) pair prepended to the outcome for the rest.
pub open spec fn spec_cons_variant(
    head: (Seq<char>, LuaVariantType),
    rest: Result<Seq<(Seq<char>, LuaVariantType)>, ErrorV>,
) -> Result<Seq<(Seq<char>, LuaVariantType)>, ErrorV> {
    match rest {
        Ok(r) => Ok(seq![head] + r),
        Err(e) => Err(e),
    }
}

/// The (name, value) pairs of the variants from position `i` on, with
/// `value` the default for the next undecorated variant: an explicit integer
/// literal sets the value and later defaults continue from it; a
/// non-integer discriminant is an error; a value that would pass the value
/// type's maximum is an error.
pub open spec fn spec_parse_variants(vars: Seq<RawVariantV>, i: int, value: int) -> Result<
    Seq<(Seq<char>, LuaVariantType)>,
    ErrorV,
>
    decreases vars.len() - i,
{
    if i < 0 || i >= vars.len() {
        Ok(Seq::empty())
    } else {
        match vars[i].disc {
            RawDiscriminant::NonLit => Err(
                ErrorV::Syn {
                    item: vars[i].name,
                    message:
                        "Failed to parse enum disciminant. Make sure to use positive integer values"@,
                },
            ),
            RawDiscriminant::NonIntLit => Err(
                ErrorV::Syn {
                    item: vars[i].name,
                    message: "Only positive integers are accepted in enum discriminants"@,
                },
            ),
            RawDiscriminant::IntOverflow => Err(
                ErrorV::Syn {
                    item: vars[i].name,
                    message: "Failed to parse the discriminant. Expected an integer value"@,
                },
            ),
            RawDiscriminant::Int(v) => if v == usize::MAX {
                Err(
                    ErrorV::Syn {
                        item: vars[i].name,
                        message: "Enum discriminant values are too large"@,
                    },
                )
            } else {
                spec_cons_variant(
                    (vars[i].name, v),
                    spec_parse_variants(vars, i + 1, v + 1),
                )
            },
            RawDiscriminant::Empty => if !(0 <= value < usize::MAX) {
                Err(
                    ErrorV::Syn {
                        item: vars[i].name,
                        message: "Enum discriminant values are too large"@,
                    },
                )
            } else {
                spec_cons_variant(
                    (vars[i].name, value as LuaVariantType),
                    spec_parse_variants(vars, i + 1, value + 1),
                )
            },
        }
    }
}

/// What parsing a scanned enum declaration yields.
pub open spec fn spec_parse_enum(item: RawEnumV) -> Result<ParsedEnumV, ErrorV> {
    match spec_parse_variants(item.variants, 0, 0) {
        Ok(vs) => Ok(
            ParsedEnumV {
                ident: item.ident,
                bindgen_ignore: spec_contains_attr(item.attrs, "mlua_bindgen_ignore"@),
                variants: vs,
            },
        ),
        Err(e) => Err(e),
    }
}

/// The image of an enum-parsing result.
pub open spec fn parsed_enum_res_view(r: Result<ParsedEnum, Error>) -> Result<
    ParsedEnumV,
    ErrorV,
> {
    match r {
        Ok(p) => Ok(p@),
        Err(e) => Err(e@),
    }
}

/// A sequence of parsed pairs prepended to the outcome for the rest.
pub open spec fn spec_prepend_variants(
    done: Seq<(Seq<char>, LuaVariantType)>,
    rest: Result<Seq<(Seq<char>, LuaVariantType)>, ErrorV>,
) -> Result<Seq<(Seq<char>, LuaVariantType)>, ErrorV> {
    match rest {
        Ok(r) => Ok(done + r),
        Err(e) => Err(e),
    }
}

/// Parse a scanned enum declaration into a [`ParsedEnum`].
#[verifier::loop_isolation(false)]
pub fn parse_enum(item: RawEnum) -> (r: Result<ParsedEnum, Error>)
    ensures
        parsed_enum_res_view(r) == spec_parse_enum(item@),
{
    let ghost itemv = item@;
    let ghost varsv = itemv.variants;
    let RawEnum { attrs, ident, variants } = item;
    let bindgen_ignore = contains_attr(&attrs, "mlua_bindgen_ignore");
    let mut out: Vec<(String, LuaVariantType)> = Vec::new();
    let mut value: LuaVariantType = 0;
    let mut i: usize = 0;
    proof {
        assert(out@.map_values(|p: (String, LuaVariantType)| (p.0@, p.1)) =~= Seq::<
            (Seq<char>, LuaVariantType),
        >::empty());
        if spec_parse_variants(varsv, 0, 0) is Ok {
            assert(Seq::<(Seq<char>, LuaVariantType)>::empty() + spec_parse_variants(
                varsv,
                0,
                0,
            )->Ok_0 =~= spec_parse_variants(varsv, 0, 0)->Ok_0);
        }
    }
    while i < variants.len()
        invariant
            i <= varsv.len(),
            varsv == variants@.map_values(|v: RawVariant| v@),
            spec_parse_variants(varsv, 0, 0) == spec_prepend_variants(
                out@.map_values(|p: (String, LuaVariantType)| (p.0@, p.1)),
                spec_parse_variants(varsv, i as int, value as int),
            ),
        decreases varsv.len() - i,
    {
        let ghost done = out@.map_values(|p: (String, LuaVariantType)| (p.0@, p.1));
        let ghost value_old = value;
        proof {
            assert(varsv[i as int] == variants@[i as int]@);
        }
        let next_value: LuaVariantType;
        match &variants[i].disc {
            RawDiscriminant::NonLit => {
                return Err(
                    Error::Syn {
                        item: variants[i].name.clone(),
                        message:
                            "Failed to parse enum disciminant. Make sure to use positive integer values".to_owned(),
                    },
                );
            },
            RawDiscriminant::NonIntLit => {
                return Err(
                    Error::Syn {
                        item: variants[i].name.clone(),
                        message:
                            "Only positive integers are accepted in enum discriminants".to_owned(),
                    },
                );
            },
            RawDiscriminant::IntOverflow => {
                return Err(
                    Error::Syn {
                        item: variants[i].name.clone(),
                        message:
                            "Failed to parse the discriminant. Expected an integer value".to_owned(),
                    },
                );
            },
            RawDiscriminant::Int(v) => {
                if *v == usize::MAX {
                    return Err(
                        Error::Syn {
                            item: variants[i].name.clone(),
                            message: "Enum discriminant values are too large".to_owned(),
                        },
                    );
                }
                value = *v;
                next_value = *v + 1;
            },
            RawDiscriminant::Empty => {
                if value == usize::MAX {
                    return Err(
                        Error::Syn {
                            item: variants[i].name.clone(),
                            message: "Enum discriminant values are too large".to_owned(),
                        },
                    );
                }
                next_value = value + 1;
            },
        }
        let pair = (variants[i].name.clone(), value);
        let ghost pairv = (pair.0@, pair.1);
        out.push(pair);
        proof {
            assert(out@.map_values(|p: (String, LuaVariantType)| (p.0@, p.1)) =~= done.push(
                pairv,
            ));
            let rest = spec_parse_variants(varsv, i as int + 1, next_value as int);
            assert(spec_parse_variants(varsv, i as int, value_old as int) == spec_cons_variant(
                pairv,
                rest,
            ));
            if rest is Ok {
                assert(done + (seq![pairv] + rest->Ok_0) =~= done.push(pairv) + rest->Ok_0);
            }
        }
        value = next_value;
        i += 1;
    }
    Ok(ParsedEnum { ident, bindgen_ignore, variants: out })
}

/// The numbering rule for parsed variants: names carry over in order; an
/// explicit literal sets its variant's value; an undecorated variant at the
/// front gets the running default `value`; every later undecorated variant
/// gets the previous variant's value plus one.
pub proof fn lemma_enum_value_rule(
    vars: Seq<RawVariantV>,
    i: int,
    value: int,
    l: Seq<(Seq<char>, LuaVariantType)>,
)
    requires
        0 <= i <= vars.len(),
        0 <= value,
        spec_parse_variants(vars, i, value) == Ok::<Seq<(Seq<char>, LuaVariantType)>, ErrorV>(l),
    ensures
        l.len() == vars.len() - i,
        forall|j: int| 0 <= j < l.len() ==> l[j].0 == vars[i + j].name,
        forall|j: int|
            0 <= j < l.len() ==> (#[trigger] vars[i + j].disc matches RawDiscriminant::Int(v)
                ==> l[j].1 == v),
        l.len() > 0 && vars[i].disc is Empty ==> l[0].1 == value,
        forall|j: int|
            1 <= j < l.len() && (#[trigger] vars[i + j].disc) is Empty ==> l[j].1 == l[j - 1].1
                + 1,
    decreases vars.len() - i,
{
    if i < vars.len() {
        match vars[i].disc {
            RawDiscriminant::Int(v) => {
                let rest = spec_parse_variants(vars, i + 1, v + 1);
                lemma_enum_value_rule(vars, i + 1, v + 1, rest->Ok_0);
            },
            RawDiscriminant::Empty => {
                let rest = spec_parse_variants(vars, i + 1, value + 1);
                lemma_enum_value_rule(vars, i + 1, value + 1, rest->Ok_0);
            },
            _ => {},
        }
    }
}

/// For an enumeration with no explicit discriminants, the variant at
/// 0-based position `j` maps to value `j` (so the Nth variant, 1-indexed,
/// maps to N - 1).
pub proof fn lemma_enum_default_numbering(e: RawEnumV, p: ParsedEnumV)
    requires
        spec_parse_enum(e) == Ok::<ParsedEnumV, ErrorV>(p),
        forall|j: int| 0 <= j < e.variants.len() ==> e.variants[j].disc is Empty,
    ensures
        p.variants.len() == e.variants.len(),
        forall|j: int| 0 <= j < p.variants.len() ==> p.variants[j].1 == j,
{
    lemma_enum_value_rule(e.variants, 0, 0, p.variants);
    assert forall|j: int| 0 <= j < p.variants.len() implies p.variants[j].1 == j by {
        lemma_default_chain(p.variants, j);
    }
}

/// In a sequence that starts at zero and rises by one wherever the source
/// variant is undecorated, position `j` holds `j`.
proof fn lemma_default_chain(l: Seq<(Seq<char>, LuaVariantType)>, j: int)
    requires
        0 <= j < l.len(),
        l[0].1 == 0,
        forall|k: int| 1 <= k < l.len() ==> (#[trigger] l[k]).1 == l[k - 1].1 + 1,
    ensures
        l[j].1 == j,
    decreases j,
{
    if j > 0 {
        lemma_default_chain(l, j - 1);
    }
}

/// An explicit literal `v` on the variant at position `k` makes the next
/// variant, if undecorated, map to `v + 1`.
pub proof fn lemma_enum_explicit_successor(e: RawEnumV, p: ParsedEnumV, k: int, v: usize)
    requires
        spec_parse_enum(e) == Ok::<ParsedEnumV, ErrorV>(p),
        0 <= k,
        k + 1 < e.variants.len(),
        e.variants[k].disc == RawDiscriminant::Int(v),
        e.variants[k + 1].disc is Empty,
    ensures
        p.variants[k].1 == v,
        p.variants[k + 1].1 == v + 1,
{
    lemma_enum_value_rule(e.variants, 0, 0, p.variants);
}

} // verus!
