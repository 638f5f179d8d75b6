//! Statements the library holds to, proved once and for all: the round
//! trip of container types through mapping and rendering, the rejection of
//! nested optionals and of multiple root modules, the determinism of the
//! whole pipeline, the two-round resolution of a straight include chain,
//! and the arity rule for getters.

use vstd::prelude::*;

use crate::bindgen::spec_apply;
use crate::bindgen::spec_claimed;
use crate::bindgen::spec_find_mod;
use crate::bindgen::spec_find_mod_from;
use crate::bindgen::spec_insert_module_v;
use crate::bindgen::spec_resolve;
use crate::bindgen::spec_resolve_rounds;
use crate::bindgen::spec_round;
use crate::bindgen::spec_transform;
use crate::error::ErrorV;
use crate::funcs::FuncKind;
use crate::funcs::RawFuncV;
use crate::funcs::ParsedFuncV;
use crate::funcs::spec_count_args;
use crate::funcs::spec_parse_func;
use crate::impls::FieldKind;
use crate::impls::spec_field_arity_message;
use crate::impls::spec_parse_field;
use crate::lua_type::LuaTypeV;
use crate::lua_type::spec_map_ty;
use crate::lua_type::spec_render_ty;
use crate::mods::ModulePathV;
use crate::mods::ParsedModuleV;
use crate::types::spec_retain_includes;
use crate::types::LuaItemV;
use crate::types::LuaModuleV;
use crate::types::spec_file_render;
use crate::types::spec_lua_module;
use crate::ty_expr::PathArgsV;
use crate::ty_expr::TyExprV;

verus! {

/// Mapping a container-of-T expression and rendering the result reproduces
/// `{` + render(T) + `}` exactly, whether the container is written as an
/// array shape or by the list convention.
pub proof fn lemma_container_round_trip(t: TyExprV, lt: LuaTypeV)
    requires
        spec_map_ty(t) == Ok::<LuaTypeV, ErrorV>(lt),
    ensures
        spec_map_ty(TyExprV::Array(Box::new(t))) == Ok::<LuaTypeV, ErrorV>(
            LuaTypeV::Array(Box::new(lt)),
        ),
        spec_map_ty(
            TyExprV::Path { name: "Vec"@, args: PathArgsV::Types(seq![t]) },
        ) == Ok::<LuaTypeV, ErrorV>(LuaTypeV::Array(Box::new(lt))),
        spec_render_ty(LuaTypeV::Array(Box::new(lt))) == "{"@ + spec_render_ty(lt) + "}"@,
{
    reveal_strlit("Vec");
    reveal_strlit("Option");
    assert("Vec"@ != "Option"@);
    assert(seq![t][0] == t);
}

/// `Optional(Optional(T))` is always rejected with a structural error,
/// never silently flattened.
pub proof fn lemma_nested_optional_rejected(inner: TyExprV)
    requires
        spec_map_ty(inner) is Ok,
        spec_map_ty(inner)->Ok_0 is Optional,
    ensures
        spec_map_ty(
            TyExprV::Path { name: "Option"@, args: PathArgsV::Types(seq![inner]) },
        ) == Err::<LuaTypeV, ErrorV>(
            ErrorV::ParseErr {
                message:
                    "Lua optional types can't be recursive (i.e. contain an Option inside an Option)"@,
            },
        ),
{
    assert(seq![inner][0] == inner);
}

/// The pipeline is a function of its parsed input: running it twice on the
/// same modules yields the same items and byte-identical output text.
pub proof fn lemma_pipeline_deterministic(
    mods1: Seq<ParsedModuleV>,
    mods2: Seq<ParsedModuleV>,
    items1: Seq<LuaItemV>,
    items2: Seq<LuaItemV>,
)
    requires
        mods1 == mods2,
        spec_transform(mods1) == Ok::<Seq<LuaItemV>, ErrorV>(items1),
        spec_transform(mods2) == Ok::<Seq<LuaItemV>, ErrorV>(items2),
    ensures
        items1 == items2,
        spec_file_render(items1, 0) == spec_file_render(items2, 0),
{
}

/// Two modules both carrying the root marker: the transformation fails
/// with a "multiple roots" error, so no output is produced.
pub proof fn lemma_multiple_roots_rejected(
    mods: Seq<ParsedModuleV>,
    m0: LuaModuleV,
    m1: LuaModuleV,
)
    requires
        mods.len() == 2,
        spec_lua_module(mods[0]) == Ok::<LuaModuleV, ErrorV>(m0),
        m0.ismain,
        spec_lua_module(mods[1]) == Ok::<LuaModuleV, ErrorV>(m1),
        m1.ismain,
    ensures
        spec_transform(mods) == Err::<Seq<LuaItemV>, ErrorV>(
            ErrorV::MainModules { many: true },
        ),
{
    assert(crate::bindgen::spec_partition(mods, 1, Some(m0), Seq::empty())
        == Err::<(Option<LuaModuleV>, Seq<LuaModuleV>), ErrorV>(
        ErrorV::MainModules { many: true },
    ));
}

/// A getter-marked function declared with one or more script-visible
/// arguments fails parsing with a structural error naming the offending
/// function.
pub proof fn lemma_getter_with_args_rejected(f: RawFuncV, pf: ParsedFuncV)
    requires
        spec_parse_func(f, FuncKind::MethodMut) == Ok::<ParsedFuncV, ErrorV>(pf),
        spec_count_args(pf.args, false, 0) >= 1,
    ensures
        spec_parse_field(f, FieldKind::Getter) == Err::<crate::impls::ParsedFieldV, ErrorV>(
            ErrorV::Syn {
                item: f.name,
                message: spec_field_arity_message(FieldKind::Getter),
            },
        ),
{
}

/// Given a root that includes A, A including B, and B including nothing:
/// resolution terminates in exactly two scan rounds (one that nests B
/// under A, and one that finds nothing left to do), producing the tree
/// with B nested under A.
pub proof fn lemma_chain_resolves_in_two_rounds(
    a: LuaModuleV,
    b: LuaModuleV,
    pb: ModulePathV,
    fuel: nat,
)
    requires
        a.includes == seq![pb],
        pb.name == b.name,
        b.includes == Seq::<ModulePathV>::empty(),
        a.name != b.name,
        fuel >= 1,
    ensures
        spec_resolve(seq![a, b], fuel) == Ok::<Seq<LuaModuleV>, ErrorV>(
            seq![spec_insert_module_v(a, b)],
        ),
        spec_resolve_rounds(seq![a, b], fuel) == 2,
{
    let map0 = seq![a, b];
    assert(map0[0] == a && map0[1] == b);

    // Round one records the single insertion of B under A.
    assert(spec_find_mod_from(map0, b.name, 2) == 2);
    assert(spec_find_mod_from(map0, b.name, 1) == 1);
    assert(spec_find_mod_from(map0, b.name, 0) == 1);
    let acc0 = Seq::<(Seq<char>, Seq<char>)>::empty();
    let acc1 = acc0.push((a.name, b.name));
    assert(spec_round(map0, 2, 0, acc1) == Ok::<Seq<(Seq<char>, Seq<char>)>, ErrorV>(acc1));
    assert(spec_round(map0, 1, 0, acc1) == spec_round(map0, 2, 0, acc1));
    assert(spec_round(map0, 0, 1, acc1) == spec_round(map0, 1, 0, acc1));
    assert(!spec_claimed(acc0, b.name));
    assert(map0[0].includes[0].name == b.name);
    assert(spec_round(map0, 0, 0, acc0) == spec_round(map0, 0, 1, acc1));

    // Applying the insertion nests B under A and takes B out of the map.
    let a2 = spec_insert_module_v(a, b);
    let map1 = map0.remove(1);
    assert(map1 =~= seq![a]);
    assert(map1[0] == a);
    assert(spec_find_mod_from(map1, a.name, 0) == 0);
    let map2 = map1.update(0, a2);
    assert(map2 =~= seq![a2]);
    assert(acc1[0] == (a.name, b.name));
    assert(spec_apply(map0, acc1, 1) == map0);
    assert(spec_apply(map2, acc1, 1) == map2);
    assert(spec_apply(map0, acc1, 0) == map2);

    // Round two finds nothing: A's reference to B is resolved.
    assert(spec_retain_includes(a.includes, b.name, 1) == Seq::<ModulePathV>::empty());
    assert(a2.includes == Seq::<ModulePathV>::empty());
    assert(spec_round(map2, 1, 0, acc0) == Ok::<Seq<(Seq<char>, Seq<char>)>, ErrorV>(acc0));
    assert(spec_round(map2, 0, 0, acc0) == spec_round(map2, 1, 0, acc0));

    assert(spec_resolve(map2, (fuel - 1) as nat) == Ok::<Seq<LuaModuleV>, ErrorV>(map2));
    assert(acc1.len() > 0);
    assert(spec_resolve(map0, fuel) == Ok::<Seq<LuaModuleV>, ErrorV>(map2));
    assert(map2 =~= seq![a2]);

    assert(spec_resolve_rounds(map2, (fuel - 1) as nat) == 1);
    assert(spec_resolve_rounds(map0, fuel) == 2);
}

} // verus!
