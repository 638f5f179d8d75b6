//! Namespacing modules exposed to Lua: module references with their
//! conventional naming suffix, the parsed module with its include list and
//! items, and the parsing of a scanned module declaration.

use vstd::prelude::*;
use vstd::string::StrSliceExecFns;
use vstd::string::StringExecFns;

use crate::attrs::ItemAttribute;
use crate::attrs::ItemAttributeV;
use crate::attrs::ItemAttributes;
use crate::attrs::RawPath;
use crate::attrs::RawPathV;
use crate::enums::ParsedEnum;
use crate::enums::ParsedEnumV;
use crate::enums::RawEnum;
use crate::enums::parse_enum;
use crate::enums::spec_parse_enum;
use crate::error::Error;
use crate::error::ErrorV;
use crate::funcs::FuncKind;
use crate::funcs::ParsedFunc;
use crate::funcs::ParsedFuncV;
use crate::funcs::RawFunc;
use crate::funcs::Visibility;
use crate::funcs::parse_func;
use crate::funcs::spec_parse_func;
use crate::impls::ParsedImpl;
use crate::impls::ParsedImplV;
use crate::impls::RawImpl;
use crate::impls::parse_impl;
use crate::impls::spec_parse_impl;
use crate::ty_expr::TyExprV;
use crate::utils::contains_attr;
use crate::utils::spec_contains_attr;
use crate::utils::ends_with_str;
use crate::utils::spec_ends_with;

verus! {

/// The naming suffix every referenced module name must carry.
pub const MODULE_SUFFIX: &'static str = "_module";

/// Basically a path, but for modules. It simplifies suffix management: the
/// logical name is the referenced name with the trailing module suffix
/// removed.
#[derive(Debug)]
pub struct ModulePath {
    name: String,
    pub path: RawPath,
}

/// Mathematical image of a [`ModulePath`].
pub struct ModulePathV {
    pub name: Seq<char>,
    pub path: RawPathV,
}

impl View for ModulePath {
    type V = ModulePathV;

    closed spec fn view(&self) -> ModulePathV {
        ModulePathV { name: self.name@, path: self.path@ }
    }
}

/// What constructing a module path from a referenced path yields: the last
/// segment with its trailing module suffix removed, or an error where the
/// segment does not end with the suffix.
pub open spec fn spec_mod_path(path: RawPathV) -> Result<ModulePathV, ErrorV> {
    if spec_ends_with(path.last, "_module"@) {
        Ok(
            ModulePathV {
                name: path.last.take(path.last.len() - "_module"@.len()),
                path,
            },
        )
    } else {
        Err(
            ErrorV::Syn {
                item: path.full,
                message: "Included modules have to end with the \"_module\" keyword"@,
            },
        )
    }
}

/// The image of a module-path construction result.
pub open spec fn mod_path_res_view(r: Result<ModulePath, Error>) -> Result<ModulePathV, ErrorV> {
    match r {
        Ok(p) => Ok(p@),
        Err(e) => Err(e@),
    }
}

impl ModulePath {
    /// Try to construct the module path from a referenced path. It will fail
    /// if the path's last segment doesn't end with the module suffix.
    pub fn from_path(path: RawPath) -> (r: Result<Self, Error>)
        ensures
            mod_path_res_view(r) == spec_mod_path(path@),
    {
        if ends_with_str(path.last.as_str(), MODULE_SUFFIX) {
            let n = path.last.as_str().unicode_len();
            let suffix_len = MODULE_SUFFIX.unicode_len();
            let real_name = path.last.as_str().substring_char(0, n - suffix_len);
            let real_name = real_name.to_owned();
            proof {
                assert(real_name@ =~= path.last@.take(
                    path.last@.len() - "_module"@.len(),
                ));
            }
            Ok(ModulePath { name: real_name, path })
        } else {
            Err(
                Error::Syn {
                    item: path.full,
                    message: "Included modules have to end with the \"_module\" keyword".to_owned(),
                },
            )
        }
    }

    /// Returns the module's logical name, without the suffix.
    pub fn name(&self) -> (r: String)
        ensures
            r@ == self@.name,
    {
        self.name.clone()
    }

    /// Returns the full referenced name, including the suffix.
    pub fn name_prefixed(&self) -> (r: String)
        ensures
            r@ == self@.name + "_module"@,
    {
        let mut r = self.name.clone();
        r.append(MODULE_SUFFIX);
        r
    }
}

/// This should basically include all possible items that can be placed
/// inside modules (besides modules, which are rejected).
#[derive(Debug)]
pub enum ModuleItem {
    Fn(ParsedFunc),
    Enum(ParsedEnum),
    Impl(ParsedImpl),
}

/// Mathematical image of a [`ModuleItem`].
pub enum ModuleItemV {
    Fn(ParsedFuncV),
    Enum(ParsedEnumV),
    Impl(ParsedImplV),
}

impl View for ModuleItem {
    type V = ModuleItemV;

    open spec fn view(&self) -> ModuleItemV {
        match self {
            ModuleItem::Fn(f) => ModuleItemV::Fn(f@),
            ModuleItem::Enum(e) => ModuleItemV::Enum(e@),
            ModuleItem::Impl(i) => ModuleItemV::Impl(i@),
        }
    }
}

/// A parsed module: its name, whether it is the run's main (root) module,
/// its ignore flag, visibility, the modules it includes, its items, and an
/// optional post-init function path.
#[derive(Debug)]
pub struct ParsedModule {
    pub ident: String,
    pub ismain: bool,
    pub bindgen_ignore: bool,
    pub visibility: Visibility,
    pub includes: Vec<ModulePath>,
    pub items: Vec<ModuleItem>,
    pub post_init_func: Option<RawPath>,
}

/// Mathematical image of a [`ParsedModule`].
pub struct ParsedModuleV {
    pub ident: Seq<char>,
    pub ismain: bool,
    pub bindgen_ignore: bool,
    pub visibility: Visibility,
    pub includes: Seq<ModulePathV>,
    pub items: Seq<ModuleItemV>,
    pub post_init_func: Option<RawPathV>,
}

impl View for ParsedModule {
    type V = ParsedModuleV;

    open spec fn view(&self) -> ParsedModuleV {
        ParsedModuleV {
            ident: self.ident@,
            ismain: self.ismain,
            bindgen_ignore: self.bindgen_ignore,
            visibility: self.visibility,
            includes: self.includes@.map_values(|p: ModulePath| p@),
            items: self.items@.map_values(|it: ModuleItem| it@),
            post_init_func: match &self.post_init_func {
                Option::Some(p) => Option::Some(p@),
                Option::None => Option::None,
            },
        }
    }
}

/// Whether a module item carries the ignore marker.
pub open spec fn spec_item_ignored(it: ModuleItemV) -> bool {
    match it {
        ModuleItemV::Fn(f) => f.bindgen_ignore,
        ModuleItemV::Enum(e) => e.bindgen_ignore,
        ModuleItemV::Impl(i) => i.bindgen_ignore,
    }
}

/// The items from position `i` on whose ignore marker is off, in order.
pub open spec fn spec_kept_items(items: Seq<ModuleItemV>, i: int) -> Seq<ModuleItemV>
    decreases items.len() - i,
{
    if i < 0 || i >= items.len() {
        Seq::empty()
    } else if spec_item_ignored(items[i]) {
        spec_kept_items(items, i + 1)
    } else {
        seq![items[i]] + spec_kept_items(items, i + 1)
    }
}

impl ParsedModule {
    /// Remove all ignored items from this module.
    #[verifier::loop_isolation(false)]
    pub fn clean_ignored(&mut self)
        ensures
            final(self)@.ident == old(self)@.ident,
            final(self)@.ismain == old(self)@.ismain,
            final(self)@.bindgen_ignore == old(self)@.bindgen_ignore,
            final(self)@.visibility == old(self)@.visibility,
            final(self)@.includes == old(self)@.includes,
            final(self)@.post_init_func == old(self)@.post_init_func,
            final(self)@.items == spec_kept_items(old(self)@.items, 0),
    {
        let ghost itemsv = self@.items;
        let mut kept: Vec<ModuleItem> = Vec::new();
        let total = self.items.len();
        let mut i: usize = 0;
        proof {
            assert(kept@.map_values(|it: ModuleItem| it@) =~= Seq::<ModuleItemV>::empty());
            assert(Seq::<ModuleItemV>::empty() + spec_kept_items(itemsv, 0) =~= spec_kept_items(
                itemsv,
                0,
            ));
        }
        while self.items.len() > 0
            invariant
                total == itemsv.len(),
                i + self.items@.len() == itemsv.len(),
                self.items@.map_values(|it: ModuleItem| it@) == itemsv.skip(i as int),
                kept@.map_values(|it: ModuleItem| it@) + spec_kept_items(itemsv, i as int)
                    == spec_kept_items(itemsv, 0),
                self.ident == old(self).ident,
                self.ismain == old(self).ismain,
                self.bindgen_ignore == old(self).bindgen_ignore,
                self.visibility == old(self).visibility,
                self.includes == old(self).includes,
                self.post_init_func == old(self).post_init_func,
            decreases self.items@.len(),
        {
            let ghost restv = self.items@.map_values(|it: ModuleItem| it@);
            let ghost rest_old = self.items@;
            let ghost done = kept@.map_values(|it: ModuleItem| it@);
            let it = self.items.remove(0);
            proof {
                assert(it == rest_old[0]);
                assert(it@ == restv[0]);
                assert(restv[0] == itemsv.skip(i as int)[0]);
                assert(itemsv.skip(i as int)[0] == itemsv[i as int]);
                assert(self.items@.map_values(|x: ModuleItem| x@) =~= restv.drop_first());
                assert(restv.drop_first() =~= itemsv.skip(i as int + 1));
            }
            let ignored = match &it {
                ModuleItem::Fn(f) => f.bindgen_ignore,
                ModuleItem::Enum(e) => e.bindgen_ignore,
                ModuleItem::Impl(im) => im.bindgen_ignore,
            };
            if !ignored {
                let ghost itv = it@;
                kept.push(it);
                proof {
                    assert(kept@.map_values(|x: ModuleItem| x@) =~= done.push(itv));
                    assert(done + (seq![itv] + spec_kept_items(itemsv, i as int + 1)) =~= done.push(
                        itv,
                    ) + spec_kept_items(itemsv, i as int + 1));
                }
            }
            i += 1;
        }
        proof {
            assert(spec_kept_items(itemsv, itemsv.len() as int) =~= Seq::<ModuleItemV>::empty());
            assert(kept@.map_values(|it: ModuleItem| it@) + Seq::<ModuleItemV>::empty()
                =~= kept@.map_values(|it: ModuleItem| it@));
        }
        self.items = kept;
    }
}

/// One item of a scanned module body, as far as the generator distinguishes
/// it: a function, enum or impl declaration, a nested module (which is
/// rejected), or anything else (which is skipped).
#[derive(Debug)]
pub enum RawItem {
    Fn(RawFunc),
    Enum(RawEnum),
    Impl(RawImpl),
    Mod(String),
    Other,
}

/// Mathematical image of a [`RawItem`].
pub enum RawItemV {
    Fn(crate::funcs::RawFuncV),
    Enum(crate::enums::RawEnumV),
    Impl(crate::impls::RawImplV),
    Mod(Seq<char>),
    Other,
}

impl View for RawItem {
    type V = RawItemV;

    open spec fn view(&self) -> RawItemV {
        match self {
            RawItem::Fn(f) => RawItemV::Fn(f@),
            RawItem::Enum(e) => RawItemV::Enum(e@),
            RawItem::Impl(i) => RawItemV::Impl(i@),
            RawItem::Mod(name) => RawItemV::Mod(name@),
            RawItem::Other => RawItemV::Other,
        }
    }
}

/// A scanned module declaration: its attribute names, name, visibility, and
/// its body items (`None` for a module without a body).
#[derive(Debug)]
pub struct RawModule {
    pub attrs: Vec<String>,
    pub ident: String,
    pub vis: Visibility,
    pub content: Option<Vec<RawItem>>,
}

/// Mathematical image of a [`RawModule`].
pub struct RawModuleV {
    pub attrs: Seq<Seq<char>>,
    pub ident: Seq<char>,
    pub vis: Visibility,
    pub content: Option<Seq<RawItemV>>,
}

impl View for RawModule {
    type V = RawModuleV;

    open spec fn view(&self) -> RawModuleV {
        RawModuleV {
            attrs: self.attrs.deep_view(),
            ident: self.ident@,
            vis: self.vis,
            content: match &self.content {
                Option::Some(its) => Option::Some(its@.map_values(|it: RawItem| it@)),
                Option::None => Option::None,
            },
        }
    }
}

/// The include list the attributes leave in force: the last `include`
/// attribute at or before position `i` wins.
pub open spec fn spec_attr_includes(attrs: Seq<ItemAttributeV>, i: int) -> Seq<RawPathV>
    decreases i + 1,
{
    if i < 0 || i >= attrs.len() {
        Seq::empty()
    } else {
        match attrs[i] {
            ItemAttributeV::Includes(ps) => ps,
            _ => spec_attr_includes(attrs, i - 1),
        }
    }
}

/// The post-init path the attributes leave in force: the last `post_init`
/// attribute at or before position `i` wins.
pub open spec fn spec_attr_post_init(attrs: Seq<ItemAttributeV>, i: int) -> Option<RawPathV>
    decreases i + 1,
{
    if i < 0 || i >= attrs.len() {
        None
    } else {
        match attrs[i] {
            ItemAttributeV::PostInitFunc(p) => Some(p),
            _ => spec_attr_post_init(attrs, i - 1),
        }
    }
}

/// Whether any attribute marks the module as the run's main module.
pub open spec fn spec_attr_ismain(attrs: Seq<ItemAttributeV>) -> bool {
    exists|j: int| 0 <= j < attrs.len() && attrs[j] is IsMain
}

/// Whether one of the module paths gathered so far already carries `name`.
pub open spec fn spec_names_contain(done: Seq<ModulePathV>, name: Seq<char>) -> bool {
    exists|j: int| 0 <= j < done.len() && done[j].name == name
}

/// The module paths of an include list from position `i` on, added to
/// `done`: each referenced name is stripped of its suffix, and a name
/// already present is rejected.
pub open spec fn spec_parse_includes(
    paths: Seq<RawPathV>,
    i: int,
    done: Seq<ModulePathV>,
) -> Result<Seq<ModulePathV>, ErrorV>
    decreases paths.len() - i,
{
    if i < 0 || i >= paths.len() {
        Ok(done)
    } else {
        match spec_mod_path(paths[i]) {
            Err(e) => Err(e),
            Ok(mp) => {
                if spec_names_contain(done, mp.name) {
                    Err(
                        ErrorV::Syn {
                            item: paths[i].full,
                            message: "Modules can't be repeatedly added"@,
                        },
                    )
                } else {
                    spec_parse_includes(paths, i + 1, done.push(mp))
                }
            },
        }
    }
}

/// One parsed module item prepended to the outcome for the rest.
pub open spec fn spec_cons_item(
    h: Result<ModuleItemV, ErrorV>,
    rest: Result<Seq<ModuleItemV>, ErrorV>,
) -> Result<Seq<ModuleItemV>, ErrorV> {
    match h {
        Err(e) => Err(e),
        Ok(x) => match rest {
            Err(e) => Err(e),
            Ok(r) => Ok(seq![x] + r),
        },
    }
}

/// The image of a function kept by name alone.
pub open spec fn spec_dummy_func(name: Seq<char>) -> ParsedFuncV {
    ParsedFuncV {
        name,
        bindgen_ignore: false,
        visibility: Visibility::Inherited,
        args: Seq::empty(),
        return_ty: TyExprV::Other,
    }
}

/// The image of an enum kept by name alone.
pub open spec fn spec_dummy_enum(name: Seq<char>) -> ParsedEnumV {
    ParsedEnumV { ident: name, bindgen_ignore: false, variants: Seq::empty() }
}

/// The image of an impl kept by its type name alone.
pub open spec fn spec_dummy_impl(name: Seq<char>) -> ParsedImplV {
    ParsedImplV {
        name,
        bindgen_ignore: false,
        fields: Seq::empty(),
        funcs: Seq::empty(),
        methods: Seq::empty(),
        meta_funcs: Seq::empty(),
    }
}

/// The parsed items of a module body from position `i` on: items without
/// the marker attribute are skipped; a nested module is rejected; with
/// `parse_items` off only names are kept (for where the caller cares about
/// registration alone).
pub open spec fn spec_parse_mod_items(
    items: Seq<RawItemV>,
    i: int,
    parse_items: bool,
) -> Result<Seq<ModuleItemV>, ErrorV>
    decreases items.len() - i,
{
    if i < 0 || i >= items.len() {
        Ok(Seq::empty())
    } else {
        let rest = spec_parse_mod_items(items, i + 1, parse_items);
        match items[i] {
            RawItemV::Fn(f) => {
                if !spec_contains_attr(f.attrs, "mlua_bindgen"@) {
                    rest
                } else if parse_items {
                    spec_cons_item(
                        match spec_parse_func(f, FuncKind::Func) {
                            Ok(pf) => Ok(ModuleItemV::Fn(pf)),
                            Err(e) => Err(e),
                        },
                        rest,
                    )
                } else {
                    spec_cons_item(Ok(ModuleItemV::Fn(spec_dummy_func(f.name))), rest)
                }
            },
            RawItemV::Enum(e) => {
                if !spec_contains_attr(e.attrs, "mlua_bindgen"@) {
                    rest
                } else if parse_items {
                    spec_cons_item(
                        match spec_parse_enum(e) {
                            Ok(pe) => Ok(ModuleItemV::Enum(pe)),
                            Err(er) => Err(er),
                        },
                        rest,
                    )
                } else {
                    spec_cons_item(Ok(ModuleItemV::Enum(spec_dummy_enum(e.ident))), rest)
                }
            },
            RawItemV::Impl(im) => {
                if !spec_contains_attr(im.attrs, "mlua_bindgen"@) {
                    rest
                } else if parse_items {
                    spec_cons_item(
                        match spec_parse_impl(im) {
                            Ok(pi) => Ok(ModuleItemV::Impl(pi)),
                            Err(er) => Err(er),
                        },
                        rest,
                    )
                } else {
                    spec_cons_item(Ok(ModuleItemV::Impl(spec_dummy_impl(im.self_ty))), rest)
                }
            },
            RawItemV::Mod(name) => Err(
                ErrorV::Syn {
                    item: name,
                    message:
                        "Can't implement recursive modules. You should combine them separately for now"@,
                },
            ),
            RawItemV::Other => rest,
        }
    }
}

/// What parsing a scanned module declaration yields: the include list of
/// the last `include` attribute, with suffixes stripped and repeats
/// rejected; the marker attributes read off; and the body items parsed in
/// order, the first error winning (include errors before item errors).
pub open spec fn spec_parse_mod(
    attrs: Seq<ItemAttributeV>,
    item: RawModuleV,
    parse_items: bool,
) -> Result<ParsedModuleV, ErrorV> {
    match spec_parse_includes(
        spec_attr_includes(attrs, attrs.len() - 1),
        0,
        Seq::empty(),
    ) {
        Err(e) => Err(e),
        Ok(includes) => {
            let items_in = match item.content {
                Some(its) => its,
                None => Seq::empty(),
            };
            match spec_parse_mod_items(items_in, 0, parse_items) {
                Err(e) => Err(e),
                Ok(items) => Ok(
                    ParsedModuleV {
                        ident: item.ident,
                        ismain: spec_attr_ismain(attrs),
                        bindgen_ignore: spec_contains_attr(item.attrs, "mlua_bindgen_ignore"@),
                        visibility: item.vis,
                        includes,
                        items,
                        post_init_func: spec_attr_post_init(attrs, attrs.len() - 1),
                    },
                ),
            }
        },
    }
}

/// The image of a module-parsing result.
pub open spec fn parsed_mod_res_view(r: Result<ParsedModule, Error>) -> Result<
    ParsedModuleV,
    ErrorV,
> {
    match r {
        Ok(m) => Ok(m@),
        Err(e) => Err(e@),
    }
}

/// Try to parse a scanned module declaration into a [`ParsedModule`].
///
/// `parse_items` tells whether to parse module items entirely, or just
/// create name-only items. This avoids useless parsing where only the
/// registration names matter.
#[verifier::loop_isolation(false)]
pub fn parse_mod(attrs: ItemAttributes, item: RawModule, parse_items: bool) -> (r: Result<
    ParsedModule,
    Error,
>)
    ensures
        parsed_mod_res_view(r) == spec_parse_mod(attrs@, item@, parse_items),
{
    let ghost attrsv = attrs@;
    let ghost itemv = item@;
    let RawModule { attrs: mod_attrs, ident, vis, content } = item;
    let bindgen_ignore = contains_attr(&mod_attrs, "mlua_bindgen_ignore");

    // Iterate over all attributes in the list; the last include list and
    // post-init path win, and any `main` marks the module as main.
    let mut ismain = false;
    let mut included: Vec<RawPath> = Vec::new();
    let mut post_init_func: Option<RawPath> = None;
    let mut alist = attrs.0;
    let a_total = alist.len();
    let mut ai: usize = 0;
    proof {
        assert(included@.map_values(|p: RawPath| p@) =~= spec_attr_includes(attrsv, -1));
    }
    while alist.len() > 0
        invariant
            a_total == attrsv.len(),
            ai + alist@.len() == attrsv.len(),
            alist@.map_values(|a: ItemAttribute| a@) == attrsv.skip(ai as int),
            included@.map_values(|p: RawPath| p@) == spec_attr_includes(attrsv, ai as int - 1),
            (match post_init_func {
                Option::Some(p) => spec_attr_post_init(attrsv, ai as int - 1) == Some(p@),
                Option::None => spec_attr_post_init(attrsv, ai as int - 1) is None,
            }),
            ismain == exists|j: int| 0 <= j < ai && attrsv[j] is IsMain,
        decreases alist@.len(),
    {
        let ghost restv = alist@.map_values(|a: ItemAttribute| a@);
        let ghost rest_old = alist@;
        let attr = alist.remove(0);
        proof {
            assert(attr == rest_old[0]);
            assert(attr@ == restv[0]);
            assert(restv[0] == attrsv.skip(ai as int)[0]);
            assert(attrsv.skip(ai as int)[0] == attrsv[ai as int]);
            assert(alist@.map_values(|a: ItemAttribute| a@) =~= restv.drop_first());
            assert(restv.drop_first() =~= attrsv.skip(ai as int + 1));
        }
        match attr {
            ItemAttribute::Includes(paths) => {
                included = paths;
            },
            ItemAttribute::IsMain => {
                ismain = true;
            },
            ItemAttribute::Preserve => {},
            ItemAttribute::BindgenIgnore => {},
            ItemAttribute::PostInitFunc(path) => {
                post_init_func = Some(path);
            },
        }
        ai += 1;
    }
    proof {
        assert(attrsv.skip(attrsv.len() as int) =~= Seq::<ItemAttributeV>::empty());
    }

    // To avoid repeats, reject a module that is included twice.
    let ghost includedv = included@.map_values(|p: RawPath| p@);
    let mut includes: Vec<ModulePath> = Vec::new();
    let mut rest_paths = included;
    let p_total = rest_paths.len();
    let mut pi: usize = 0;
    proof {
        assert(includes@.map_values(|p: ModulePath| p@) =~= Seq::<ModulePathV>::empty());
    }
    while rest_paths.len() > 0
        invariant
            p_total == includedv.len(),
            pi + rest_paths@.len() == includedv.len(),
            rest_paths@.map_values(|p: RawPath| p@) == includedv.skip(pi as int),
            spec_parse_includes(includedv, 0, Seq::empty()) == spec_parse_includes(
                includedv,
                pi as int,
                includes@.map_values(|p: ModulePath| p@),
            ),
        decreases rest_paths@.len(),
    {
        let ghost restv = rest_paths@.map_values(|p: RawPath| p@);
        let ghost rest_old = rest_paths@;
        let ghost done = includes@.map_values(|p: ModulePath| p@);
        let fn_path = rest_paths.remove(0);
        proof {
            assert(fn_path == rest_old[0]);
            assert(fn_path@ == restv[0]);
            assert(restv[0] == includedv.skip(pi as int)[0]);
            assert(includedv.skip(pi as int)[0] == includedv[pi as int]);
            assert(rest_paths@.map_values(|p: RawPath| p@) =~= restv.drop_first());
            assert(restv.drop_first() =~= includedv.skip(pi as int + 1));
        }
        let mod_path = match ModulePath::from_path(fn_path) {
            Ok(mp) => mp,
            Err(e) => {
                return Err(e);
            },
        };
        // Check whether the logical name was already added.
        let mod_name = mod_path.name();
        let mut dup = false;
        let mut j: usize = 0;
        while j < includes.len()
            invariant
                j <= includes@.len(),
                done == includes@.map_values(|p: ModulePath| p@),
                dup ==> spec_names_contain(done, mod_name@),
                !dup ==> forall|k: int| 0 <= k < j ==> done[k].name != mod_name@,
            decreases includes@.len() - j,
        {
            if crate::utils::str_eq(includes[j].name().as_str(), mod_name.as_str()) {
                dup = true;
                proof {
                    assert(done[j as int].name == mod_name@);
                }
            }
            j += 1;
        }
        if dup {
            return Err(
                Error::Syn {
                    item: mod_path.path.full,
                    message: "Modules can't be repeatedly added".to_owned(),
                },
            );
        }
        let ghost mpv = mod_path@;
        includes.push(mod_path);
        proof {
            assert(!spec_names_contain(done, mpv.name));
            assert(includes@.map_values(|p: ModulePath| p@) =~= done.push(mpv));
        }
        pi += 1;
    }
    proof {
        assert(includedv.skip(includedv.len() as int) =~= Seq::<RawPathV>::empty());
    }

    // Now iterate the actual module items; only items carrying the marker
    // attribute are kept.
    let ghost items_inv = match itemv.content {
        Some(its) => its,
        None => Seq::<RawItemV>::empty(),
    };
    let mut items: Vec<ModuleItem> = Vec::new();
    match content {
        Option::None => {
            proof {
                assert(items@.map_values(|it: ModuleItem| it@) =~= Seq::<ModuleItemV>::empty());
            }
        },
        Option::Some(mod_items) => {
            let mut rest_items = mod_items;
            let i_total = rest_items.len();
            let mut ii: usize = 0;
            proof {
                assert(items@.map_values(|it: ModuleItem| it@) =~= Seq::<ModuleItemV>::empty());
                if spec_parse_mod_items(items_inv, 0, parse_items) is Ok {
                    assert(Seq::<ModuleItemV>::empty() + spec_parse_mod_items(
                        items_inv,
                        0,
                        parse_items,
                    )->Ok_0 =~= spec_parse_mod_items(items_inv, 0, parse_items)->Ok_0);
                }
            }
            while rest_items.len() > 0
                invariant
                    i_total == items_inv.len(),
                    ii + rest_items@.len() == items_inv.len(),
                    rest_items@.map_values(|it: RawItem| it@) == items_inv.skip(ii as int),
                    ({
                        let done = items@.map_values(|it: ModuleItem| it@);
                        match spec_parse_mod_items(items_inv, ii as int, parse_items) {
                            Ok(r2) => spec_parse_mod_items(items_inv, 0, parse_items) == Ok::<
                                _,
                                ErrorV,
                            >(done + r2),
                            Err(e) => spec_parse_mod_items(items_inv, 0, parse_items) == Err::<
                                Seq<ModuleItemV>,
                                _,
                            >(e),
                        }
                    }),
                decreases rest_items@.len(),
            {
                let ghost restv = rest_items@.map_values(|it: RawItem| it@);
                let ghost rest_old = rest_items@;
                let ghost done = items@.map_values(|it: ModuleItem| it@);
                let mod_item = rest_items.remove(0);
                proof {
                    assert(mod_item == rest_old[0]);
                    assert(mod_item@ == restv[0]);
                    assert(restv[0] == items_inv.skip(ii as int)[0]);
                    assert(items_inv.skip(ii as int)[0] == items_inv[ii as int]);
                    assert(rest_items@.map_values(|it: RawItem| it@) =~= restv.drop_first());
                    assert(restv.drop_first() =~= items_inv.skip(ii as int + 1));
                }
                let ghost after = spec_parse_mod_items(items_inv, ii as int + 1, parse_items);
                let new_item: Option<ModuleItem> = match mod_item {
                    RawItem::Fn(mod_fn) => {
                        if !contains_attr(&mod_fn.attrs, "mlua_bindgen") {
                            Option::None
                        } else if parse_items {
                            match parse_func(mod_fn, &FuncKind::Func) {
                                Ok(f) => Option::Some(ModuleItem::Fn(f)),
                                Err(e) => {
                                    return Err(e);
                                },
                            }
                        } else {
                            Option::Some(ModuleItem::Fn(ParsedFunc::from_ident(mod_fn.name)))
                        }
                    },
                    RawItem::Enum(mod_enum) => {
                        if !contains_attr(&mod_enum.attrs, "mlua_bindgen") {
                            Option::None
                        } else if parse_items {
                            match parse_enum(mod_enum) {
                                Ok(e) => Option::Some(ModuleItem::Enum(e)),
                                Err(e) => {
                                    return Err(e);
                                },
                            }
                        } else {
                            Option::Some(ModuleItem::Enum(ParsedEnum::from_ident(mod_enum.ident)))
                        }
                    },
                    RawItem::Impl(mod_impl) => {
                        if !contains_attr(&mod_impl.attrs, "mlua_bindgen") {
                            Option::None
                        } else if parse_items {
                            match parse_impl(mod_impl) {
                                Ok(im) => Option::Some(ModuleItem::Impl(im)),
                                Err(e) => {
                                    return Err(e);
                                },
                            }
                        } else {
                            Option::Some(ModuleItem::Impl(ParsedImpl::from_ty(mod_impl.self_ty)))
                        }
                    },
                    RawItem::Mod(mod_mod) => {
                        return Err(
                            Error::Syn {
                                item: mod_mod,
                                message:
                                    "Can't implement recursive modules. You should combine them separately for now".to_owned(),
                            },
                        );
                    },
                    RawItem::Other => Option::None,
                };
                match new_item {
                    Option::Some(it) => {
                        let ghost itv = it@;
                        proof {
                            if after is Ok {
                                assert(done + (seq![itv] + after->Ok_0) =~= done.push(itv)
                                    + after->Ok_0);
                            }
                        }
                        items.push(it);
                        proof {
                            assert(items@.map_values(|x: ModuleItem| x@) =~= done.push(itv));
                        }
                    },
                    Option::None => {},
                }
                ii += 1;
            }
            proof {
                assert(items_inv.skip(items_inv.len() as int) =~= Seq::<RawItemV>::empty());
            }
        },
    }
    proof {
        if spec_parse_mod_items(items_inv, 0, parse_items) is Ok {
            assert(items@.map_values(|it: ModuleItem| it@) + Seq::<ModuleItemV>::empty()
                =~= items@.map_values(|it: ModuleItem| it@));
        }
    }
    Ok(
        ParsedModule {
            ident,
            ismain,
            bindgen_ignore,
            visibility: vis,
            includes,
            items,
            post_init_func,
        },
    )
}

} // verus!
