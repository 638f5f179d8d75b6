//! The module graph resolver and the front of the pipeline: scanned files
//! are parsed into modules, the modules are merged into one tree rooted at
//! the single main module by iterative dependency resolution, and the tree
//! is handed to the emitter as a declaration file.

use vstd::prelude::*;
use vstd::string::StrSliceExecFns;
use vstd::string::StringExecFns;

use crate::attrs::ItemAttributes;
use crate::attrs::RawAttrArg;
use crate::attrs::RawAttrArgV;
use crate::attrs::spec_parse_attributes;
use crate::attrs::parse_attributes;
use crate::error::Error;
use crate::error::ErrorV;
use crate::mods::ModulePathV;
use crate::mods::ParsedModule;
use crate::mods::ParsedModuleV;
use crate::mods::RawModule;
use crate::mods::RawModuleV;
use crate::mods::parse_mod;
use crate::mods::spec_parse_mod;
use crate::mods::spec_kept_items;
use crate::types::LuaFile;
use crate::types::LuaItem;
use crate::types::LuaItemV;
use crate::types::LuaModule;
use crate::types::LuaModuleV;
use crate::types::lua_module_view;
use crate::types::lua_module_seq_view;
use crate::types::lemma_lua_module_seq_view;
use crate::types::spec_retain_includes;
use crate::utils::str_eq;

verus! {

broadcast use vstd::std_specs::vec::axiom_vec_decreases_to_view;

/// Whether the map already holds a module named `name`.
pub open spec fn spec_mod_names_contain(map: Seq<LuaModuleV>, name: Seq<char>) -> bool {
    exists|j: int| 0 <= j < map.len() && map[j].name == name
}

/// The message a colliding module name is rejected with.
pub open spec fn spec_collision_message(name: Seq<char>) -> Seq<char> {
    "Found a colliding module name: \""@ + name
        + "\". mlua_bindgen currently can only work with unique module names, as it doesn't understand the module tree."@
}

/// The first phase of resolution, from module `i` on: each parsed module is
/// converted; the single main module is put aside, every other module goes
/// into the name-keyed map; a second main module or a repeated name is
/// rejected.
pub open spec fn spec_partition(
    mods: Seq<ParsedModuleV>,
    i: int,
    main: Option<LuaModuleV>,
    map: Seq<LuaModuleV>,
) -> Result<(Option<LuaModuleV>, Seq<LuaModuleV>), ErrorV>
    decreases mods.len() - i,
{
    if i < 0 || i >= mods.len() {
        Ok((main, map))
    } else {
        match crate::types::spec_lua_module(mods[i]) {
            Err(e) => Err(e),
            Ok(m) => {
                if m.ismain {
                    if main is Some {
                        Err(ErrorV::MainModules { many: true })
                    } else {
                        spec_partition(mods, i + 1, Some(m), map)
                    }
                } else if spec_mod_names_contain(map, m.name) {
                    Err(ErrorV::Unimplemented { message: spec_collision_message(m.name) })
                } else {
                    spec_partition(mods, i + 1, main, map.push(m))
                }
            },
        }
    }
}

/// The first position at or after `i` of a module named `name`, or the
/// length of the map where there is none.
pub open spec fn spec_find_mod_from(map: Seq<LuaModuleV>, name: Seq<char>, i: int) -> int
    decreases map.len() - i,
{
    if i < 0 || i >= map.len() {
        map.len() as int
    } else if map[i].name == name {
        i
    } else {
        spec_find_mod_from(map, name, i + 1)
    }
}

/// The first position of a module named `name`, or the length of the map.
pub open spec fn spec_find_mod(map: Seq<LuaModuleV>, name: Seq<char>) -> int {
    spec_find_mod_from(map, name, 0)
}

/// Whether a child of this name was already claimed in this round.
pub open spec fn spec_claimed(acc: Seq<(Seq<char>, Seq<char>)>, name: Seq<char>) -> bool {
    exists|j: int| 0 <= j < acc.len() && acc[j].1 == name
}

/// The message a module claimed by two parents is rejected with.
pub open spec fn spec_multi_parent_message(name: Seq<char>) -> Seq<char> {
    "Module \""@ + name + "\" is included by more than one module"@
}

/// One scan round over the map, from parent `p` and its reference `k` on:
/// for every reference of every module that names a mapped module whose own
/// references are all resolved, record "insert that child under this
/// parent" as a (parent name, child name) pair. A child claimed twice in
/// one round is rejected.
pub open spec fn spec_round(
    map: Seq<LuaModuleV>,
    p: int,
    k: int,
    acc: Seq<(Seq<char>, Seq<char>)>,
) -> Result<Seq<(Seq<char>, Seq<char>)>, ErrorV>
    decreases map.len() - p, (if 0 <= p < map.len() {
        map[p].includes.len() + 1 - k
    } else {
        0int
    }),
{
    if p < 0 || p >= map.len() {
        Ok(acc)
    } else if k < 0 || k >= map[p].includes.len() {
        spec_round(map, p + 1, 0, acc)
    } else {
        let name = map[p].includes[k].name;
        let ci = spec_find_mod(map, name);
        if ci < map.len() && map[ci].includes.len() == 0 {
            if spec_claimed(acc, name) {
                Err(ErrorV::Resolution { message: spec_multi_parent_message(name) })
            } else {
                spec_round(map, p, k + 1, acc.push((map[p].name, name)))
            }
        } else {
            spec_round(map, p, k + 1, acc)
        }
    }
}

/// A child inserted under a parent: the parent loses its reference to the
/// child's name and gains the child as its last nested module.
pub open spec fn spec_insert_module_v(parent: LuaModuleV, child: LuaModuleV) -> LuaModuleV {
    LuaModuleV {
        includes: spec_retain_includes(parent.includes, child.name, 0),
        mods: parent.mods.push(child),
        ..parent
    }
}

/// The recorded insertions of one round applied in order, from `j` on: the
/// child is taken out of the map and nested under its parent.
pub open spec fn spec_apply(
    map: Seq<LuaModuleV>,
    ins: Seq<(Seq<char>, Seq<char>)>,
    j: int,
) -> Seq<LuaModuleV>
    decreases ins.len() - j,
{
    if j < 0 || j >= ins.len() {
        map
    } else {
        let ci = spec_find_mod(map, ins[j].1);
        if ci >= map.len() {
            spec_apply(map, ins, j + 1)
        } else {
            let child = map[ci];
            let map1 = map.remove(ci);
            let pi = spec_find_mod(map1, ins[j].0);
            if pi >= map1.len() {
                spec_apply(map1, ins, j + 1)
            } else {
                spec_apply(map1.update(pi, spec_insert_module_v(map1[pi], child)), ins, j + 1)
            }
        }
    }
}

/// The fixpoint loop: scan rounds are applied until a round records no
/// insertion. The loop is bounded by the number of modules, and the bound
/// never binds: every applying round takes at least one module out of the
/// map ([`lemma_resolve_fuel_invariant`] makes this precise), so the
/// stall branch below exists only to keep the recursion well founded.
pub open spec fn spec_resolve(map: Seq<LuaModuleV>, fuel: nat) -> Result<
    Seq<LuaModuleV>,
    ErrorV,
>
    decreases fuel,
{
    match spec_round(map, 0, 0, Seq::empty()) {
        Err(e) => Err(e),
        Ok(ins) => {
            if ins.len() == 0 {
                Ok(map)
            } else if fuel == 0 {
                Err(
                    ErrorV::Resolution {
                        message: "Module resolution did not reach a fixed point"@,
                    },
                )
            } else {
                spec_resolve(spec_apply(map, ins, 0), (fuel - 1) as nat)
            }
        },
    }
}

/// How many scan rounds the fixpoint loop makes, the final empty round
/// included.
pub open spec fn spec_resolve_rounds(map: Seq<LuaModuleV>, fuel: nat) -> nat
    decreases fuel,
{
    match spec_round(map, 0, 0, Seq::empty()) {
        Err(e) => 1,
        Ok(ins) => {
            if ins.len() == 0 || fuel == 0 {
                1
            } else {
                1 + spec_resolve_rounds(spec_apply(map, ins, 0), (fuel - 1) as nat)
            }
        },
    }
}

/// The first position at or after `i` of a module that still holds
/// unresolved references, or the length of the map.
pub open spec fn spec_first_unresolved(map: Seq<LuaModuleV>, i: int) -> int
    decreases map.len() - i,
{
    if i < 0 || i >= map.len() {
        map.len() as int
    } else if map[i].includes.len() > 0 {
        i
    } else {
        spec_first_unresolved(map, i + 1)
    }
}

/// The message a module with unresolved references is rejected with.
pub open spec fn spec_unresolved_message(name: Seq<char>) -> Seq<char> {
    "Module \""@ + name + "\" has references that could not be resolved"@
}

/// Whether one of the root's references names `name`.
pub open spec fn spec_path_names_contain(incs: Seq<ModulePathV>, name: Seq<char>) -> bool {
    exists|j: int| 0 <= j < incs.len() && incs[j].name == name
}

/// The modules of the resolved map that the root's own reference list
/// names, from position `i` on, as top-level file items; modules nobody
/// referenced are dropped without error.
pub open spec fn spec_root_items(
    map: Seq<LuaModuleV>,
    root_includes: Seq<ModulePathV>,
    i: int,
) -> Seq<LuaItemV>
    decreases map.len() - i,
{
    if i < 0 || i >= map.len() {
        Seq::empty()
    } else if spec_path_names_contain(root_includes, map[i].name) {
        seq![LuaItemV::Mod(map[i])] + spec_root_items(map, root_includes, i + 1)
    } else {
        spec_root_items(map, root_includes, i + 1)
    }
}

/// What the whole transformation yields for a set of parsed modules: the
/// modules convert and partition into one main module and a map; the map
/// resolves to a fixpoint; a module left with unresolved references is an
/// error; the modules the main module references become top-level items,
/// followed by the main module's own enums, functions and data types.
pub open spec fn spec_transform(mods: Seq<ParsedModuleV>) -> Result<Seq<LuaItemV>, ErrorV> {
    match spec_partition(mods, 0, None, Seq::empty()) {
        Err(e) => Err(e),
        Ok((main_opt, map0)) => match main_opt {
            None => Err(ErrorV::MainModules { many: false }),
            Some(main) => match spec_resolve(map0, map0.len()) {
                Err(e) => Err(e),
                Ok(map1) => {
                    let u = spec_first_unresolved(map1, 0);
                    if u < map1.len() {
                        Err(
                            ErrorV::Resolution {
                                message: spec_unresolved_message(map1[u].name),
                            },
                        )
                    } else {
                        Ok(
                            spec_root_items(map1, main.includes, 0) + main.enums.map_values(
                                |e: crate::types::LuaEnumV| LuaItemV::Enum(e),
                            ) + main.funcs.map_values(
                                |f: crate::types::LuaFuncV| LuaItemV::Func(f),
                            ) + main.impls.map_values(
                                |s: crate::types::LuaStructV| LuaItemV::Struct(s),
                            ),
                        )
                    }
                },
            },
        },
    }
}

/// The first position of a module of this name in the map, or the map's
/// length.
#[verifier::loop_isolation(false)]
fn find_mod(map: &Vec<LuaModule>, name: &str) -> (r: usize)
    ensures
        r as int == spec_find_mod(lua_module_seq_view(map@), name@),
        r <= map@.len(),
{
    let ghost mapv = lua_module_seq_view(map@);
    proof {
        lemma_lua_module_seq_view(map@);
    }
    let mut i: usize = 0;
    while i < map.len()
        invariant
            i <= mapv.len(),
            mapv == lua_module_seq_view(map@),
            mapv.len() == map@.len(),
            forall|j: int| 0 <= j < mapv.len() ==> mapv[j] == lua_module_view(map@[j]),
            spec_find_mod(mapv, name@) == spec_find_mod_from(mapv, name@, i as int),
        decreases mapv.len() - i,
    {
        if str_eq(map[i].name.as_str(), name) {
            return i;
        }
        i += 1;
    }
    map.len()
}

/// Where `spec_find_mod_from` points: at a module of that name, with none
/// before it; or past the end, with none at all.
proof fn lemma_find_mod_from(map: Seq<LuaModuleV>, name: Seq<char>, i: int)
    requires
        0 <= i <= map.len(),
    ensures
        i <= spec_find_mod_from(map, name, i) <= map.len(),
        spec_find_mod_from(map, name, i) < map.len() ==> map[spec_find_mod_from(
            map,
            name,
            i,
        )].name == name,
        forall|j: int| i <= j < spec_find_mod_from(map, name, i) ==> map[j].name != name,
    decreases map.len() - i,
{
    if i < map.len() && map[i].name != name {
        lemma_find_mod_from(map, name, i + 1);
    }
}

/// The image of an optional main module.
pub open spec fn opt_mod_view(o: Option<LuaModule>) -> Option<LuaModuleV> {
    match o {
        Some(m) => Some(lua_module_view(m)),
        None => None,
    }
}

/// Convert and partition the parsed modules into the single main module
/// and the name-keyed map of the rest.
#[verifier::loop_isolation(false)]
fn partition_mods(mods: Vec<ParsedModule>) -> (r: Result<
    (Option<LuaModule>, Vec<LuaModule>),
    Error,
>)
    ensures
        r matches Ok(p) ==> spec_partition(
            mods@.map_values(|m: ParsedModule| m@),
            0,
            None,
            Seq::empty(),
        ) == Ok::<(Option<LuaModuleV>, Seq<LuaModuleV>), ErrorV>(
            (opt_mod_view(p.0), lua_module_seq_view(p.1@)),
        ),
        r matches Err(e) ==> spec_partition(
            mods@.map_values(|m: ParsedModule| m@),
            0,
            None,
            Seq::empty(),
        ) == Err::<(Option<LuaModuleV>, Seq<LuaModuleV>), ErrorV>(e@),
{
    let ghost modsv = mods@.map_values(|m: ParsedModule| m@);
    let mut main_mod: Option<LuaModule> = None;
    let mut map: Vec<LuaModule> = Vec::new();
    let mut rest = mods;
    let total = rest.len();
    let mut i: usize = 0;
    proof {
        assert(lua_module_seq_view(map@) =~= Seq::<LuaModuleV>::empty());
    }
    while rest.len() > 0
        invariant
            total == modsv.len(),
            i + rest@.len() == modsv.len(),
            rest@.map_values(|m: ParsedModule| m@) == modsv.skip(i as int),
            spec_partition(modsv, 0, None, Seq::empty()) == spec_partition(
                modsv,
                i as int,
                opt_mod_view(main_mod),
                lua_module_seq_view(map@),
            ),
        decreases rest@.len(),
    {
        let ghost restv = rest@.map_values(|m: ParsedModule| m@);
        let ghost rest_old = rest@;
        let ghost mapv = lua_module_seq_view(map@);
        let parsed_mod = rest.remove(0);
        proof {
            assert(parsed_mod == rest_old[0]);
            assert(parsed_mod@ == restv[0]);
            assert(restv[0] == modsv.skip(i as int)[0]);
            assert(modsv.skip(i as int)[0] == modsv[i as int]);
            assert(rest@.map_values(|m: ParsedModule| m@) =~= restv.drop_first());
            assert(restv.drop_first() =~= modsv.skip(i as int + 1));
        }
        let lua_mod = match LuaModule::from_parsed(parsed_mod) {
            Ok(m) => m,
            Err(e) => {
                return Err(e);
            },
        };
        if lua_mod.ismain {
            if main_mod.is_some() {
                return Err(Error::MainModules { many: true });
            }
            main_mod = Some(lua_mod);
        } else {
            let ci = find_mod(&map, lua_mod.name.as_str());
            proof {
                lemma_lua_module_seq_view(map@);
                lemma_find_mod_from(mapv, lua_mod@.name, 0);
            }
            if ci < map.len() {
                proof {
                    assert(mapv[ci as int].name == lua_mod@.name);
                    assert(spec_mod_names_contain(mapv, lua_mod@.name));
                }
                let mut message = "Found a colliding module name: \"".to_owned();
                message.append(lua_mod.name.as_str());
                message.append(
                    "\". mlua_bindgen currently can only work with unique module names, as it doesn't understand the module tree.",
                );
                proof {
                    assert(message@ =~= spec_collision_message(lua_mod@.name));
                }
                return Err(Error::Unimplemented { message });
            }
            proof {
                assert(!spec_mod_names_contain(mapv, lua_mod@.name));
            }
            let ghost mv = lua_mod@;
            let ghost map_old = map@;
            map.push(lua_mod);
            proof {
                lemma_lua_module_seq_view(map@);
                lemma_lua_module_seq_view(map_old);
                assert(lua_module_seq_view(map@) =~= mapv.push(mv));
            }
        }
        i += 1;
    }
    proof {
        assert(modsv.skip(modsv.len() as int) =~= Seq::<ParsedModuleV>::empty());
    }
    Ok((main_mod, map))
}

/// Scan the whole map once and record every insertion this round allows.
#[verifier::loop_isolation(false)]
#[verifier::rlimit(50)]
fn collect_insertions(map: &Vec<LuaModule>) -> (r: Result<Vec<(String, String)>, Error>)
    ensures
        r matches Ok(ins) ==> spec_round(lua_module_seq_view(map@), 0, 0, Seq::empty())
            == Ok::<Seq<(Seq<char>, Seq<char>)>, ErrorV>(
            ins@.map_values(|p: (String, String)| (p.0@, p.1@)),
        ),
        r matches Err(e) ==> spec_round(lua_module_seq_view(map@), 0, 0, Seq::empty())
            == Err::<Seq<(Seq<char>, Seq<char>)>, ErrorV>(e@),
{
    let ghost mapv = lua_module_seq_view(map@);
    proof {
        lemma_lua_module_seq_view(map@);
    }
    let mut acc: Vec<(String, String)> = Vec::new();
    let mut p: usize = 0;
    proof {
        assert(acc@.map_values(|q: (String, String)| (q.0@, q.1@)) =~= Seq::<
            (Seq<char>, Seq<char>),
        >::empty());
    }
    while p < map.len()
        invariant
            p <= mapv.len(),
            mapv == lua_module_seq_view(map@),
            mapv.len() == map@.len(),
            forall|j: int| 0 <= j < mapv.len() ==> mapv[j] == lua_module_view(map@[j]),
            spec_round(mapv, 0, 0, Seq::empty()) == spec_round(
                mapv,
                p as int,
                0,
                acc@.map_values(|q: (String, String)| (q.0@, q.1@)),
            ),
        decreases mapv.len() - p,
    {
        let mut k: usize = 0;
        while k < map[p].includes.len()
            invariant
                p < mapv.len(),
                k <= map@[p as int].includes@.len(),
                mapv == lua_module_seq_view(map@),
                mapv.len() == map@.len(),
                forall|j: int| 0 <= j < mapv.len() ==> mapv[j] == lua_module_view(map@[j]),
                spec_round(mapv, 0, 0, Seq::empty()) == spec_round(
                    mapv,
                    p as int,
                    k as int,
                    acc@.map_values(|q: (String, String)| (q.0@, q.1@)),
                ),
            decreases map@[p as int].includes@.len() - k,
        {
            let ghost accv = acc@.map_values(|q: (String, String)| (q.0@, q.1@));
            let needed_name = map[p].includes[k].name();
            proof {
                assert(mapv[p as int].includes[k as int] == map@[p as int].includes@[k as int]@);
                assert(needed_name@ == mapv[p as int].includes[k as int].name);
            }
            let ci = find_mod(map, needed_name.as_str());
            if ci < map.len() && map[ci].includes.len() == 0 {
                proof {
                    assert(mapv[ci as int].includes.len() == 0);
                }
                // A module claimed by two parents in one round is rejected.
                let mut claimed = false;
                let mut j: usize = 0;
                while j < acc.len()
                    invariant
                        j <= acc@.len(),
                        accv == acc@.map_values(|q: (String, String)| (q.0@, q.1@)),
                        claimed ==> spec_claimed(accv, needed_name@),
                        !claimed ==> forall|l: int| 0 <= l < j ==> accv[l].1 != needed_name@,
                    decreases acc@.len() - j,
                {
                    if str_eq(acc[j].1.as_str(), needed_name.as_str()) {
                        claimed = true;
                        proof {
                            assert(accv[j as int].1 == needed_name@);
                        }
                    }
                    j += 1;
                }
                if claimed {
                    let mut message = "Module \"".to_owned();
                    message.append(needed_name.as_str());
                    message.append("\" is included by more than one module");
                    proof {
                        assert(message@ =~= spec_multi_parent_message(needed_name@));
                    }
                    return Err(Error::Resolution { message });
                }
                proof {
                    assert(!spec_claimed(accv, needed_name@));
                }
                let parent_name = map[p].name.clone();
                let ghost pairv = (parent_name@, needed_name@);
                acc.push((parent_name, needed_name));
                proof {
                    assert(acc@.map_values(|q: (String, String)| (q.0@, q.1@)) =~= accv.push(
                        pairv,
                    ));
                    assert(pairv == (mapv[p as int].name, mapv[p as int].includes[k as int].name));
                }
            }
            k += 1;
        }
        p += 1;
    }
    Ok(acc)
}

/// Apply the recorded insertions of one round, in order.
#[verifier::loop_isolation(false)]
#[verifier::rlimit(50)]
fn apply_insertions(map: Vec<LuaModule>, ins: &Vec<(String, String)>) -> (r: Vec<LuaModule>)
    ensures
        lua_module_seq_view(r@) == spec_apply(
            lua_module_seq_view(map@),
            ins@.map_values(|p: (String, String)| (p.0@, p.1@)),
            0,
        ),
{
    let ghost map0v = lua_module_seq_view(map@);
    let ghost insv = ins@.map_values(|p: (String, String)| (p.0@, p.1@));
    let mut cur = map;
    let mut j: usize = 0;
    while j < ins.len()
        invariant
            j <= insv.len(),
            insv == ins@.map_values(|p: (String, String)| (p.0@, p.1@)),
            spec_apply(map0v, insv, 0) == spec_apply(
                lua_module_seq_view(cur@),
                insv,
                j as int,
            ),
        decreases insv.len() - j,
    {
        let ghost curv = lua_module_seq_view(cur@);
        proof {
            lemma_lua_module_seq_view(cur@);
            assert(insv[j as int] == (ins@[j as int].0@, ins@[j as int].1@));
        }
        let ci = find_mod(&cur, ins[j].1.as_str());
        if ci < cur.len() {
            let ghost cur_before = cur@;
            let child = cur.remove(ci);
            let ghost childv = child@;
            proof {
                lemma_lua_module_seq_view(cur@);
                assert(childv == curv[ci as int]);
                assert(lua_module_seq_view(cur@) =~= curv.remove(ci as int));
            }
            let ghost map1v = curv.remove(ci as int);
            let pi = find_mod(&cur, ins[j].0.as_str());
            if pi < cur.len() {
                let ghost cur_mid = cur@;
                let mut parent = cur.remove(pi);
                let ghost parent_before = parent@;
                proof {
                    lemma_lua_module_seq_view(cur@);
                    assert(parent_before == map1v[pi as int]);
                }
                parent.insert_module(child);
                proof {
                    assert(parent@ == spec_insert_module_v(parent_before, childv));
                }
                let ghost removedv = lua_module_seq_view(cur@);
                cur.insert(pi, parent);
                proof {
                    lemma_lua_module_seq_view(cur@);
                    lemma_lua_module_seq_view(cur_mid.remove(pi as int));
                    assert(lua_module_seq_view(cur@) =~= map1v.update(
                        pi as int,
                        spec_insert_module_v(map1v[pi as int], childv),
                    ));
                }
            }
        }
        j += 1;
    }
    cur
}

/// The first position of a module that still holds unresolved references,
/// or the map's length.
#[verifier::loop_isolation(false)]
fn find_unresolved(map: &Vec<LuaModule>) -> (r: usize)
    ensures
        r as int == spec_first_unresolved(lua_module_seq_view(map@), 0),
        r <= map@.len(),
{
    let ghost mapv = lua_module_seq_view(map@);
    proof {
        lemma_lua_module_seq_view(map@);
    }
    let mut i: usize = 0;
    while i < map.len()
        invariant
            i <= mapv.len(),
            mapv == lua_module_seq_view(map@),
            mapv.len() == map@.len(),
            forall|j: int| 0 <= j < mapv.len() ==> mapv[j] == lua_module_view(map@[j]),
            spec_first_unresolved(mapv, 0) == spec_first_unresolved(mapv, i as int),
        decreases mapv.len() - i,
    {
        if map[i].includes.len() > 0 {
            return i;
        }
        i += 1;
    }
    map.len()
}

/// A collection of all scanned modules of one or more source files.
pub struct ParsedFile {
    mods: Vec<ParsedModule>,
}

impl View for ParsedFile {
    type V = Seq<ParsedModuleV>;

    closed spec fn view(&self) -> Seq<ParsedModuleV> {
        self.mods@.map_values(|m: ParsedModule| m@)
    }
}

impl ParsedFile {
    /// Create self from a collection of other parsed files: all the found
    /// modules, in file order.
    #[verifier::loop_isolation(false)]
    pub fn from_parsed_files(parsed_files: Vec<ParsedFile>) -> (r: Self)
        ensures
            r@ == spec_concat_files(parsed_files@.map_values(|f: ParsedFile| f@), 0),
    {
        let ghost filesv = parsed_files@.map_values(|f: ParsedFile| f@);
        let mut mods: Vec<ParsedModule> = Vec::new();
        let mut rest = parsed_files;
        let total = rest.len();
        let mut i: usize = 0;
        proof {
            assert(mods@.map_values(|m: ParsedModule| m@) =~= Seq::<ParsedModuleV>::empty());
            assert(Seq::<ParsedModuleV>::empty() + spec_concat_files(filesv, 0)
                =~= spec_concat_files(filesv, 0));
        }
        while rest.len() > 0
            invariant
                total == filesv.len(),
                i + rest@.len() == filesv.len(),
                rest@.map_values(|f: ParsedFile| f@) == filesv.skip(i as int),
                mods@.map_values(|m: ParsedModule| m@) + spec_concat_files(filesv, i as int)
                    == spec_concat_files(filesv, 0),
            decreases rest@.len(),
        {
            let ghost restv = rest@.map_values(|f: ParsedFile| f@);
            let ghost rest_old = rest@;
            let ghost done = mods@.map_values(|m: ParsedModule| m@);
            let mut parsed_file = rest.remove(0);
            proof {
                assert(parsed_file == rest_old[0]);
                assert(parsed_file@ == restv[0]);
                assert(restv[0] == filesv.skip(i as int)[0]);
                assert(filesv.skip(i as int)[0] == filesv[i as int]);
                assert(rest@.map_values(|f: ParsedFile| f@) =~= restv.drop_first());
                assert(restv.drop_first() =~= filesv.skip(i as int + 1));
            }
            let ghost addv = parsed_file@;
            mods.append(&mut parsed_file.mods);
            proof {
                assert(mods@.map_values(|m: ParsedModule| m@) =~= done + addv);
                assert((done + addv) + spec_concat_files(filesv, i as int + 1) =~= done
                    + spec_concat_files(filesv, i as int));
            }
            i += 1;
        }
        proof {
            assert(spec_concat_files(filesv, filesv.len() as int) =~= Seq::<
                ParsedModuleV,
            >::empty());
            assert(mods@.map_values(|m: ParsedModule| m@) + Seq::<ParsedModuleV>::empty()
                =~= mods@.map_values(|m: ParsedModule| m@));
        }
        Self { mods }
    }

    /// Transform all parsed modules into one Lua declaration file: the
    /// modules partition into one main module and a map, the map resolves
    /// into a tree, and the tree becomes the file's items.
    #[verifier::loop_isolation(false)]
    #[verifier::rlimit(100)]
    pub fn transform_to_lua(self) -> (r: Result<LuaFile, Error>)
        ensures
            r matches Ok(f) ==> spec_transform(self@) == Ok::<Seq<LuaItemV>, ErrorV>(f@),
            r matches Err(e) ==> spec_transform(self@) == Err::<Seq<LuaItemV>, ErrorV>(e@),
    {
        let ghost modsv = self@;
        let (main_opt, map) = match partition_mods(self.mods) {
            Ok(p) => p,
            Err(e) => {
                return Err(e);
            },
        };
        let main_mod = match main_opt {
            Some(m) => m,
            None => {
                return Err(Error::MainModules { many: false });
            },
        };
        let ghost mainv = main_mod@;
        let ghost map0v = lua_module_seq_view(map@);
        proof {
            lemma_lua_module_seq_view(map@);
        }

        // Now insert modules into one another, starting from the leaves.
        let mut map = map;
        let fuel0 = map.len();
        let mut fuel: usize = fuel0;
        let mut ins = match collect_insertions(&map) {
            Ok(v) => v,
            Err(e) => {
                return Err(e);
            },
        };
        while ins.len() > 0
            invariant
                fuel <= fuel0,
                spec_resolve(map0v, fuel0 as nat) == spec_resolve(
                    lua_module_seq_view(map@),
                    fuel as nat,
                ),
                spec_round(lua_module_seq_view(map@), 0, 0, Seq::empty()) == Ok::<
                    Seq<(Seq<char>, Seq<char>)>,
                    ErrorV,
                >(ins@.map_values(|p: (String, String)| (p.0@, p.1@))),
            decreases fuel,
        {
            proof {
                assert(ins@.map_values(|p: (String, String)| (p.0@, p.1@)).len() > 0);
            }
            if fuel == 0 {
                return Err(
                    Error::Resolution {
                        message: "Module resolution did not reach a fixed point".to_owned(),
                    },
                );
            }
            map = apply_insertions(map, &ins);
            fuel = fuel - 1;
            ins = match collect_insertions(&map) {
                Ok(v) => v,
                Err(e) => {
                    return Err(e);
                },
            };
        }
        proof {
            assert(ins@.map_values(|p: (String, String)| (p.0@, p.1@)) =~= Seq::<
                (Seq<char>, Seq<char>),
            >::empty());
        }
        let ghost map1v = lua_module_seq_view(map@);
        proof {
            lemma_lua_module_seq_view(map@);
        }

        // A module that still has unresolved references can never be
        // attached anywhere: report it instead of dropping it silently.
        let u = find_unresolved(&map);
        if u < map.len() {
            let mut message = "Module \"".to_owned();
            message.append(map[u].name.as_str());
            message.append("\" has references that could not be resolved");
            proof {
                assert(map1v[u as int].name == map@[u as int].name@);
                assert(message@ =~= spec_unresolved_message(map1v[u as int].name));
            }
            return Err(Error::Resolution { message });
        }

        // Insert the collected modules that the main module references into
        // the file; the main module's own items become top-level
        // declarations.
        let mut lua_file = LuaFile::new();
        let mut rest = map;
        let total = rest.len();
        let mut i: usize = 0;
        proof {
            assert(lua_file@ =~= Seq::<LuaItemV>::empty());
            assert(Seq::<LuaItemV>::empty() + spec_root_items(map1v, mainv.includes, 0)
                =~= spec_root_items(map1v, mainv.includes, 0));
        }
        while rest.len() > 0
            invariant
                total == map1v.len(),
                i + rest@.len() == map1v.len(),
                lua_module_seq_view(rest@) == map1v.skip(i as int),
                lua_file@ + spec_root_items(map1v, mainv.includes, i as int) == spec_root_items(
                    map1v,
                    mainv.includes,
                    0,
                ),
            decreases rest@.len(),
        {
            let ghost restv = lua_module_seq_view(rest@);
            let ghost rest_old = rest@;
            let ghost done = lua_file@;
            proof {
                lemma_lua_module_seq_view(rest@);
            }
            let module = rest.remove(0);
            proof {
                lemma_lua_module_seq_view(rest@);
                assert(module == rest_old[0]);
                assert(module@ == restv[0]);
                assert(restv[0] == map1v.skip(i as int)[0]);
                assert(map1v.skip(i as int)[0] == map1v[i as int]);
                assert(lua_module_seq_view(rest@) =~= restv.drop_first());
                assert(restv.drop_first() =~= map1v.skip(i as int + 1));
            }
            // Check whether the main module's reference list names it.
            let mut contains = false;
            let mut j: usize = 0;
            while j < main_mod.includes.len()
                invariant
                    j <= mainv.includes.len(),
                    mainv == main_mod@,
                    mainv.includes == main_mod.includes@.map_values(
                        |p: crate::mods::ModulePath| p@,
                    ),
                    contains ==> spec_path_names_contain(mainv.includes, module@.name),
                    !contains ==> forall|l: int|
                        0 <= l < j ==> mainv.includes[l].name != module@.name,
                decreases mainv.includes.len() - j,
            {
                if module.is(&main_mod.includes[j]) {
                    contains = true;
                    proof {
                        assert(mainv.includes[j as int].name == module@.name);
                    }
                }
                j += 1;
            }
            if contains {
                let ghost mv = module@;
                proof {
                    assert(done + (seq![LuaItemV::Mod(mv)] + spec_root_items(
                        map1v,
                        mainv.includes,
                        i as int + 1,
                    )) =~= done.push(LuaItemV::Mod(mv)) + spec_root_items(
                        map1v,
                        mainv.includes,
                        i as int + 1,
                    ));
                }
                lua_file.add_item(LuaItem::Mod(module));
            } else {
                proof {
                    assert(!spec_path_names_contain(mainv.includes, module@.name));
                }
            }
            i += 1;
        }
        proof {
            assert(spec_root_items(map1v, mainv.includes, map1v.len() as int) =~= Seq::<
                LuaItemV,
            >::empty());
            assert(lua_file@ + Seq::<LuaItemV>::empty() =~= lua_file@);
        }

        // Now move all the main module items into the file itself.
        let ghost base0 = lua_file@;
        let mut enum_items: Vec<LuaItem> = Vec::new();
        let mut rest_enums = main_mod.enums;
        let e_total = rest_enums.len();
        let mut i: usize = 0;
        proof {
            assert(enum_items@.map_values(|it: LuaItem| it@) =~= mainv.enums.map_values(
                |e: crate::types::LuaEnumV| LuaItemV::Enum(e),
            ).take(0));
        }
        while rest_enums.len() > 0
            invariant
                e_total == mainv.enums.len(),
                i + rest_enums@.len() == mainv.enums.len(),
                rest_enums@.map_values(|e: crate::types::LuaEnum| e@) == mainv.enums.skip(
                    i as int,
                ),
                enum_items@.map_values(|it: LuaItem| it@) == mainv.enums.map_values(
                    |e: crate::types::LuaEnumV| LuaItemV::Enum(e),
                ).take(i as int),
            decreases rest_enums@.len(),
        {
            let ghost restv = rest_enums@.map_values(|e: crate::types::LuaEnum| e@);
            let ghost rest_old = rest_enums@;
            let ghost done = enum_items@.map_values(|it: LuaItem| it@);
            let e = rest_enums.remove(0);
            proof {
                assert(e == rest_old[0]);
                assert(e@ == restv[0]);
                assert(restv[0] == mainv.enums.skip(i as int)[0]);
                assert(mainv.enums.skip(i as int)[0] == mainv.enums[i as int]);
                assert(rest_enums@.map_values(|x: crate::types::LuaEnum| x@)
                    =~= restv.drop_first());
                assert(restv.drop_first() =~= mainv.enums.skip(i as int + 1));
            }
            let ghost ev = e@;
            enum_items.push(LuaItem::Enum(e));
            proof {
                assert(enum_items@.map_values(|it: LuaItem| it@) =~= done.push(
                    LuaItemV::Enum(ev),
                ));
                assert(done.push(LuaItemV::Enum(ev)) =~= mainv.enums.map_values(
                    |x: crate::types::LuaEnumV| LuaItemV::Enum(x),
                ).take(i as int + 1));
            }
            i += 1;
        }
        proof {
            assert(mainv.enums.map_values(|e: crate::types::LuaEnumV| LuaItemV::Enum(e)).take(
                mainv.enums.len() as int,
            ) =~= mainv.enums.map_values(|e: crate::types::LuaEnumV| LuaItemV::Enum(e)));
        }
        lua_file.add_items(enum_items);

        let ghost base1 = lua_file@;
        let mut func_items: Vec<LuaItem> = Vec::new();
        let mut rest_funcs = main_mod.funcs;
        let f_total = rest_funcs.len();
        let mut i: usize = 0;
        proof {
            assert(func_items@.map_values(|it: LuaItem| it@) =~= mainv.funcs.map_values(
                |f: crate::types::LuaFuncV| LuaItemV::Func(f),
            ).take(0));
        }
        while rest_funcs.len() > 0
            invariant
                f_total == mainv.funcs.len(),
                i + rest_funcs@.len() == mainv.funcs.len(),
                rest_funcs@.map_values(|f: crate::types::LuaFunc| f@) == mainv.funcs.skip(
                    i as int,
                ),
                func_items@.map_values(|it: LuaItem| it@) == mainv.funcs.map_values(
                    |f: crate::types::LuaFuncV| LuaItemV::Func(f),
                ).take(i as int),
            decreases rest_funcs@.len(),
        {
            let ghost restv = rest_funcs@.map_values(|f: crate::types::LuaFunc| f@);
            let ghost rest_old = rest_funcs@;
            let ghost done = func_items@.map_values(|it: LuaItem| it@);
            let f = rest_funcs.remove(0);
            proof {
                assert(f == rest_old[0]);
                assert(f@ == restv[0]);
                assert(restv[0] == mainv.funcs.skip(i as int)[0]);
                assert(mainv.funcs.skip(i as int)[0] == mainv.funcs[i as int]);
                assert(rest_funcs@.map_values(|x: crate::types::LuaFunc| x@)
                    =~= restv.drop_first());
                assert(restv.drop_first() =~= mainv.funcs.skip(i as int + 1));
            }
            let ghost fv = f@;
            func_items.push(LuaItem::Func(f));
            proof {
                assert(func_items@.map_values(|it: LuaItem| it@) =~= done.push(
                    LuaItemV::Func(fv),
                ));
                assert(done.push(LuaItemV::Func(fv)) =~= mainv.funcs.map_values(
                    |x: crate::types::LuaFuncV| LuaItemV::Func(x),
                ).take(i as int + 1));
            }
            i += 1;
        }
        proof {
            assert(mainv.funcs.map_values(|f: crate::types::LuaFuncV| LuaItemV::Func(f)).take(
                mainv.funcs.len() as int,
            ) =~= mainv.funcs.map_values(|f: crate::types::LuaFuncV| LuaItemV::Func(f)));
        }
        lua_file.add_items(func_items);

        let ghost base2 = lua_file@;
        let mut impl_items: Vec<LuaItem> = Vec::new();
        let mut rest_impls = main_mod.impls;
        let s_total = rest_impls.len();
        let mut i: usize = 0;
        proof {
            assert(impl_items@.map_values(|it: LuaItem| it@) =~= mainv.impls.map_values(
                |s: crate::types::LuaStructV| LuaItemV::Struct(s),
            ).take(0));
        }
        while rest_impls.len() > 0
            invariant
                s_total == mainv.impls.len(),
                i + rest_impls@.len() == mainv.impls.len(),
                rest_impls@.map_values(|s: crate::types::LuaStruct| s@) == mainv.impls.skip(
                    i as int,
                ),
                impl_items@.map_values(|it: LuaItem| it@) == mainv.impls.map_values(
                    |s: crate::types::LuaStructV| LuaItemV::Struct(s),
                ).take(i as int),
            decreases rest_impls@.len(),
        {
            let ghost restv = rest_impls@.map_values(|s: crate::types::LuaStruct| s@);
            let ghost rest_old = rest_impls@;
            let ghost done = impl_items@.map_values(|it: LuaItem| it@);
            let s = rest_impls.remove(0);
            proof {
                assert(s == rest_old[0]);
                assert(s@ == restv[0]);
                assert(restv[0] == mainv.impls.skip(i as int)[0]);
                assert(mainv.impls.skip(i as int)[0] == mainv.impls[i as int]);
                assert(rest_impls@.map_values(|x: crate::types::LuaStruct| x@)
                    =~= restv.drop_first());
                assert(restv.drop_first() =~= mainv.impls.skip(i as int + 1));
            }
            let ghost sv = s@;
            impl_items.push(LuaItem::Struct(s));
            proof {
                assert(impl_items@.map_values(|it: LuaItem| it@) =~= done.push(
                    LuaItemV::Struct(sv),
                ));
                assert(done.push(LuaItemV::Struct(sv)) =~= mainv.impls.map_values(
                    |x: crate::types::LuaStructV| LuaItemV::Struct(x),
                ).take(i as int + 1));
            }
            i += 1;
        }
        proof {
            assert(mainv.impls.map_values(|s: crate::types::LuaStructV| LuaItemV::Struct(s)).take(
                mainv.impls.len() as int,
            ) =~= mainv.impls.map_values(|s: crate::types::LuaStructV| LuaItemV::Struct(s)));
        }
        lua_file.add_items(impl_items);

        proof {
            assert(lua_file@ =~= spec_root_items(map1v, mainv.includes, 0)
                + mainv.enums.map_values(|e: crate::types::LuaEnumV| LuaItemV::Enum(e))
                + mainv.funcs.map_values(|f: crate::types::LuaFuncV| LuaItemV::Func(f))
                + mainv.impls.map_values(|s: crate::types::LuaStructV| LuaItemV::Struct(s)));
        }
        Ok(lua_file)
    }
}

/// The scanned modules of a list of files, in order.
pub open spec fn spec_concat_files(files: Seq<Seq<ParsedModuleV>>, i: int) -> Seq<ParsedModuleV>
    decreases files.len() - i,
{
    if i < 0 || i >= files.len() {
        Seq::empty()
    } else {
        files[i] + spec_concat_files(files, i + 1)
    }
}

/// One top-level module of a scanned source file that carries the marker
/// attribute: the pre-tokenized arguments of that attribute, and the module
/// itself.
pub struct RawFileMod {
    pub attr_args: Vec<RawAttrArg>,
    pub module: RawModule,
}

/// Mathematical image of a [`RawFileMod`].
pub struct RawFileModV {
    pub attr_args: Seq<RawAttrArgV>,
    pub module: RawModuleV,
}

impl View for RawFileMod {
    type V = RawFileModV;

    open spec fn view(&self) -> RawFileModV {
        RawFileModV {
            attr_args: self.attr_args@.map_values(|a: RawAttrArg| a@),
            module: self.module@,
        }
    }
}

/// The parsed modules of one file's marked top-level modules, from position
/// `i` on: a module whose attribute arguments do not parse is skipped; a
/// module that parses is dropped when it carries the ignore marker, and
/// otherwise kept with its ignored items removed.
pub open spec fn spec_parse_file(mods: Seq<RawFileModV>, i: int) -> Result<
    Seq<ParsedModuleV>,
    ErrorV,
>
    decreases mods.len() - i,
{
    if i < 0 || i >= mods.len() {
        Ok(Seq::empty())
    } else {
        let rest = spec_parse_file(mods, i + 1);
        match spec_parse_attributes(mods[i].attr_args, 0) {
            Err(_) => rest,
            Ok(attrs) => match spec_parse_mod(attrs, mods[i].module, true) {
                Err(e) => Err(e),
                Ok(m) => {
                    if m.bindgen_ignore {
                        rest
                    } else {
                        match rest {
                            Err(e) => Err(e),
                            Ok(r) => Ok(
                                seq![ParsedModuleV { items: spec_kept_items(m.items, 0), ..m }]
                                    + r,
                            ),
                        }
                    }
                },
            },
        }
    }
}

/// Parse the marked top-level modules of one scanned file.
#[verifier::loop_isolation(false)]
pub fn parse_file(file_mods: Vec<RawFileMod>) -> (r: Result<ParsedFile, Error>)
    ensures
        r matches Ok(f) ==> spec_parse_file(file_mods@.map_values(|m: RawFileMod| m@), 0)
            == Ok::<Seq<ParsedModuleV>, ErrorV>(f@),
        r matches Err(e) ==> spec_parse_file(file_mods@.map_values(|m: RawFileMod| m@), 0)
            == Err::<Seq<ParsedModuleV>, ErrorV>(e@),
{
    let ghost fmv = file_mods@.map_values(|m: RawFileMod| m@);
    let mut mods: Vec<ParsedModule> = Vec::new();
    let mut rest = file_mods;
    let total = rest.len();
    let mut i: usize = 0;
    proof {
        assert(mods@.map_values(|m: ParsedModule| m@) =~= Seq::<ParsedModuleV>::empty());
        if spec_parse_file(fmv, 0) is Ok {
            assert(Seq::<ParsedModuleV>::empty() + spec_parse_file(fmv, 0)->Ok_0
                =~= spec_parse_file(fmv, 0)->Ok_0);
        }
    }
    while rest.len() > 0
        invariant
            total == fmv.len(),
            i + rest@.len() == fmv.len(),
            rest@.map_values(|m: RawFileMod| m@) == fmv.skip(i as int),
            ({
                let done = mods@.map_values(|m: ParsedModule| m@);
                match spec_parse_file(fmv, i as int) {
                    Ok(r2) => spec_parse_file(fmv, 0) == Ok::<_, ErrorV>(done + r2),
                    Err(e) => spec_parse_file(fmv, 0) == Err::<Seq<ParsedModuleV>, _>(e),
                }
            }),
        decreases rest@.len(),
    {
        let ghost restv = rest@.map_values(|m: RawFileMod| m@);
        let ghost rest_old = rest@;
        let ghost done = mods@.map_values(|m: ParsedModule| m@);
        let fm = rest.remove(0);
        proof {
            assert(fm == rest_old[0]);
            assert(fm@ == restv[0]);
            assert(restv[0] == fmv.skip(i as int)[0]);
            assert(fmv.skip(i as int)[0] == fmv[i as int]);
            assert(rest@.map_values(|m: RawFileMod| m@) =~= restv.drop_first());
            assert(restv.drop_first() =~= fmv.skip(i as int + 1));
        }
        let ghost after = spec_parse_file(fmv, i as int + 1);
        match parse_attributes(fm.attr_args) {
            Err(_err) => {},
            Ok(attrs) => {
                match parse_mod(attrs, fm.module, true) {
                    Err(e) => {
                        return Err(e);
                    },
                    Ok(mut parsed_mod) => {
                        // Check if the ignore marker is present, and if so,
                        // don't add the module.
                        if !parsed_mod.bindgen_ignore {
                            let ghost before_clean = parsed_mod@;
                            parsed_mod.clean_ignored();
                            let ghost mv = parsed_mod@;
                            proof {
                                assert(mv == (ParsedModuleV {
                                    items: spec_kept_items(before_clean.items, 0),
                                    ..before_clean
                                }));
                                if after is Ok {
                                    assert(done + (seq![mv] + after->Ok_0) =~= done.push(mv)
                                        + after->Ok_0);
                                }
                            }
                            mods.push(parsed_mod);
                            proof {
                                assert(mods@.map_values(|m: ParsedModule| m@) =~= done.push(mv));
                            }
                        }
                    },
                }
            },
        }
        i += 1;
    }
    proof {
        assert(fmv.skip(fmv.len() as int) =~= Seq::<RawFileModV>::empty());
        if spec_parse_file(fmv, 0) is Ok {
            assert(mods@.map_values(|m: ParsedModule| m@) + Seq::<ParsedModuleV>::empty()
                =~= mods@.map_values(|m: ParsedModule| m@));
        }
    }
    Ok(ParsedFile { mods })
}

/// A builder for setting input files and the output file of a generation
/// run. Reading directories and files and writing the output are the
/// caller's part; the builder only gathers the paths.
#[derive(Debug)]
pub struct BindgenTransformer {
    pub in_paths: Vec<String>,
    pub out_path: Option<String>,
}

impl BindgenTransformer {
    /// A builder with no inputs and no output path.
    pub fn new() -> (r: Self)
        ensures
            r.in_paths@ == Seq::<String>::empty(),
            r.out_path is None,
    {
        Self { in_paths: Vec::new(), out_path: None }
    }

    /// Add a source file path to process.
    pub fn add_input_file(self, file: String) -> (r: Self)
        ensures
            r.in_paths@ == self.in_paths@.push(file),
            r.out_path == self.out_path,
    {
        let mut s = self;
        s.in_paths.push(file);
        s
    }

    /// Set the output declaration file path.
    ///
    /// A luau declaration file should end with `.d.lua`.
    pub fn set_output_path(self, path: String) -> (r: Self)
        ensures
            r.in_paths@ == self.in_paths@,
            r.out_path == Some(path),
    {
        let mut s = self;
        s.out_path = Some(path);
        s
    }
}

/// The map never grows as recorded insertions are applied.
proof fn lemma_apply_len(map: Seq<LuaModuleV>, ins: Seq<(Seq<char>, Seq<char>)>, j: int)
    ensures
        spec_apply(map, ins, j).len() <= map.len(),
    decreases ins.len() - j,
{
    if 0 <= j < ins.len() {
        let ci = spec_find_mod(map, ins[j].1);
        lemma_find_mod_from(map, ins[j].1, 0);
        if ci >= map.len() {
            lemma_apply_len(map, ins, j + 1);
        } else {
            let map1 = map.remove(ci);
            assert(map1.len() == map.len() - 1);
            let pi = spec_find_mod(map1, ins[j].0);
            lemma_find_mod_from(map1, ins[j].0, 0);
            if pi >= map1.len() {
                lemma_apply_len(map1, ins, j + 1);
            } else {
                let map2 = map1.update(pi, spec_insert_module_v(map1[pi], map[ci]));
                assert(map2.len() == map1.len());
                lemma_apply_len(map2, ins, j + 1);
            }
        }
    }
}

/// Every child a scan round records is found in the map.
proof fn lemma_round_children_found(
    map: Seq<LuaModuleV>,
    p: int,
    k: int,
    acc: Seq<(Seq<char>, Seq<char>)>,
)
    requires
        forall|x: int| 0 <= x < acc.len() ==> spec_find_mod(map, (#[trigger] acc[x]).1)
            < map.len(),
        spec_round(map, p, k, acc) is Ok,
    ensures
        forall|x: int|
            0 <= x < spec_round(map, p, k, acc)->Ok_0.len() ==> spec_find_mod(
                map,
                (#[trigger] spec_round(map, p, k, acc)->Ok_0[x]).1,
            ) < map.len(),
    decreases map.len() - p, (if 0 <= p < map.len() {
        map[p].includes.len() + 1 - k
    } else {
        0int
    }),
{
    if p < 0 || p >= map.len() {
    } else if k < 0 || k >= map[p].includes.len() {
        lemma_round_children_found(map, p + 1, 0, acc);
    } else {
        let name = map[p].includes[k].name;
        let ci = spec_find_mod(map, name);
        if ci < map.len() && map[ci].includes.len() == 0 {
            let acc2 = acc.push((map[p].name, name));
            assert(forall|x: int|
                0 <= x < acc2.len() ==> spec_find_mod(map, (#[trigger] acc2[x]).1) < map.len());
            lemma_round_children_found(map, p, k + 1, acc2);
        } else {
            lemma_round_children_found(map, p, k + 1, acc);
        }
    }
}

/// Applying a round that recorded at least one insertion strictly shrinks
/// the map.
proof fn lemma_apply_shrinks(map: Seq<LuaModuleV>, ins: Seq<(Seq<char>, Seq<char>)>)
    requires
        ins.len() > 0,
        spec_find_mod(map, ins[0].1) < map.len(),
    ensures
        spec_apply(map, ins, 0).len() < map.len(),
{
    let ci = spec_find_mod(map, ins[0].1);
    lemma_find_mod_from(map, ins[0].1, 0);
    let map1 = map.remove(ci);
    assert(map1.len() == map.len() - 1);
    let pi = spec_find_mod(map1, ins[0].0);
    lemma_find_mod_from(map1, ins[0].0, 0);
    if pi >= map1.len() {
        lemma_apply_len(map1, ins, 1);
    } else {
        let map2 = map1.update(pi, spec_insert_module_v(map1[pi], map[ci]));
        assert(map2.len() == map1.len());
        lemma_apply_len(map2, ins, 1);
    }
}

/// Once the fuel bound covers the number of modules, more fuel changes
/// nothing: the fixpoint loop never stalls against the bound.
pub proof fn lemma_resolve_fuel_invariant(map: Seq<LuaModuleV>, f1: nat, f2: nat)
    requires
        f1 >= map.len(),
        f2 >= map.len(),
    ensures
        spec_resolve(map, f1) == spec_resolve(map, f2),
    decreases f1,
{
    match spec_round(map, 0, 0, Seq::empty()) {
        Err(_) => {},
        Ok(ins) => {
            if ins.len() > 0 {
                lemma_round_children_found(map, 0, 0, Seq::empty());
                assert(spec_find_mod(map, ins[0].1) < map.len());
                lemma_apply_shrinks(map, ins);
                let m2 = spec_apply(map, ins, 0);
                lemma_resolve_fuel_invariant(m2, (f1 - 1) as nat, (f2 - 1) as nat);
            }
        },
    }
}

} // verus!
