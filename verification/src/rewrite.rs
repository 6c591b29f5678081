//! The functional specification of the rewrite pass.
//!
//! These spec functions say, over the models of `crate::ast`, exactly which
//! module tree the rewriter produces for a given input tree and
//! configuration: which imports count as style imports, which binding each
//! style import ends up with, the two synthesized declarations, the order of
//! the rebuilt statement list, and the rewritten form of every `className`
//! attribute.

use vstd::prelude::*;

use crate::ast::{
    ArgModel, AttrModel, AttrValueModel, CallModel, ChildModel, ElemModel, ImportModel, ItemModel,
    MatcherModel, RegistryModel, SpecifierModel,
};
use crate::naming::spec_style_name;
use crate::patterns::text_matches_any;
use crate::Config;

verus! {

// ---------------------------------------------------------------------------
// Fixed names of the generated surface
// ---------------------------------------------------------------------------

/// The name of the registry binding.
pub open spec fn styles_ident() -> Seq<char> {
    "_styles"@
}

/// The name of the matcher binding.
pub open spec fn matcher_ident() -> Seq<char> {
    "_matcher"@
}

/// The named export of the runtime helper module.
pub open spec fn factory_ident() -> Seq<char> {
    "getMatcher"@
}

/// The module path of the runtime helper.
pub open spec fn helper_src() -> Seq<char> {
    "swc-plugin-jsx-css-modules/helpers"@
}

/// The attribute name the rewriter acts on.
pub open spec fn class_attr_name() -> Seq<char> {
    "className"@
}

// ---------------------------------------------------------------------------
// Classification
// ---------------------------------------------------------------------------

/// The configured patterns, as sequences of characters.
pub open spec fn patterns_of(c: Config) -> Seq<Seq<char>> {
    c.style_file_reg.deep_view()
}

/// Whether synthesized bindings are introduced as namespace imports.
pub open spec fn namespace_of(c: Config) -> bool {
    c.import_style@ == "namespace"@
}

/// Whether `it` is an import whose source path matches a configured pattern.
pub open spec fn item_is_style(patterns: Seq<Seq<char>>, it: ItemModel) -> bool {
    match it {
        ItemModel::Import(im) => text_matches_any(patterns, im.src),
        _ => false,
    }
}

/// Whether `it` is an import at all.
pub open spec fn item_is_import(it: ItemModel) -> bool {
    it is Import
}

/// Filtering an empty sequence yields an empty sequence.
pub proof fn lemma_filter_empty<A>(pred: spec_fn(A) -> bool)
    ensures
        Seq::<A>::empty().filter(pred) == Seq::<A>::empty(),
{
    reveal(Seq::filter);
}

/// Filtering one more element of `s` keeps it exactly when `pred` holds.
pub proof fn lemma_filter_take_step<A>(s: Seq<A>, pred: spec_fn(A) -> bool, i: int)
    requires
        0 <= i < s.len(),
    ensures
        pred(s[i]) ==> s.take(i + 1).filter(pred) == s.take(i).filter(pred).push(s[i]),
        !pred(s[i]) ==> s.take(i + 1).filter(pred) == s.take(i).filter(pred),
{
    reveal(Seq::filter);
    assert(s.take(i + 1).drop_last() =~= s.take(i));
    assert(s.take(i + 1).last() == s[i]);
}

/// The predicate selecting import items.
pub open spec fn import_filter() -> spec_fn(ItemModel) -> bool {
    |it: ItemModel| item_is_import(it)
}

/// The predicate selecting non-import items.
pub open spec fn non_import_filter() -> spec_fn(ItemModel) -> bool {
    |it: ItemModel| !item_is_import(it)
}

/// The import carried by `it`; meaningful only when `it` is an import.
pub open spec fn import_of(it: ItemModel) -> ImportModel {
    match it {
        ItemModel::Import(im) => im,
        _ => ImportModel { src: Seq::empty(), specifiers: Seq::empty() },
    }
}

/// Some item of `items` is a style import.
pub open spec fn module_has_style(patterns: Seq<Seq<char>>, items: Seq<ItemModel>) -> bool {
    exists|i: int| 0 <= i < items.len() && #[trigger] item_is_style(patterns, items[i])
}

// ---------------------------------------------------------------------------
// Normalization
// ---------------------------------------------------------------------------

/// The local name of the first specifier that binds the default export, if
/// any specifier does.
pub open spec fn default_local(specs: Seq<SpecifierModel>) -> Option<Seq<char>>
    decreases specs.len(),
{
    if specs.len() == 0 {
        None
    } else {
        match specs[0] {
            SpecifierModel::ImportDefault { local } => Some(local),
            _ => default_local(specs.drop_first()),
        }
    }
}

/// The specifier synthesized for a binding named `local`: a namespace
/// specifier when the configuration says so, a default specifier otherwise.
pub open spec fn synthesized_specifier(namespace: bool, local: Seq<char>) -> SpecifierModel {
    if namespace {
        SpecifierModel::ImportNamespace { local }
    } else {
        SpecifierModel::ImportDefault { local }
    }
}

/// Whether a style import at `it` would require a synthesized binding.
pub open spec fn needs_synthesis(patterns: Seq<Seq<char>>, it: ItemModel) -> bool {
    item_is_style(patterns, it) && default_local(import_of(it).specifiers) is None
}

/// How many of the first `i` items require a synthesized binding.
pub open spec fn synth_count(patterns: Seq<Seq<char>>, items: Seq<ItemModel>, i: int) -> nat
    decreases i,
{
    if i <= 0 {
        0
    } else {
        synth_count(patterns, items, i - 1) + if needs_synthesis(patterns, items[i - 1]) {
            1nat
        } else {
            0nat
        }
    }
}

/// The normalized form of a style import: unchanged when it already binds a
/// default export, else with the `k`-th synthesized specifier appended.
pub open spec fn normalize_import(namespace: bool, im: ImportModel, k: nat) -> ImportModel {
    match default_local(im.specifiers) {
        Some(_) => im,
        None => ImportModel {
            src: im.src,
            specifiers: im.specifiers.push(synthesized_specifier(namespace, spec_style_name(k))),
        },
    }
}

/// The style binding contributed by a style import: its first default local,
/// or the `k`-th synthesized name.
pub open spec fn binding_of(im: ImportModel, k: nat) -> Seq<char> {
    match default_local(im.specifiers) {
        Some(local) => local,
        None => spec_style_name(k),
    }
}

/// Every item of `items` with style imports normalized in place; every other
/// item is untouched.
pub open spec fn normalized_items(
    namespace: bool,
    patterns: Seq<Seq<char>>,
    items: Seq<ItemModel>,
) -> Seq<ItemModel> {
    Seq::new(
        items.len(),
        |i: int|
            if item_is_style(patterns, items[i]) {
                ItemModel::Import(
                    normalize_import(namespace, import_of(items[i]), synth_count(patterns, items, i)),
                )
            } else {
                items[i]
            },
    )
}

/// The style bindings contributed by the first `i` items, in source order.
pub open spec fn bindings_upto(patterns: Seq<Seq<char>>, items: Seq<ItemModel>, i: int) -> Seq<
    Seq<char>,
>
    decreases i,
{
    if i <= 0 {
        Seq::empty()
    } else {
        let rest = bindings_upto(patterns, items, i - 1);
        if item_is_style(patterns, items[i - 1]) {
            rest.push(binding_of(import_of(items[i - 1]), synth_count(patterns, items, i - 1)))
        } else {
            rest
        }
    }
}

/// All style bindings of the module, in source order.
pub open spec fn style_bindings(patterns: Seq<Seq<char>>, items: Seq<ItemModel>) -> Seq<Seq<char>> {
    bindings_upto(patterns, items, items.len() as int)
}

// ---------------------------------------------------------------------------
// Synthesized statements and the rebuilt module
// ---------------------------------------------------------------------------

/// The injected helper import: `import { getMatcher } from '<helper>';`
pub open spec fn helper_import() -> ItemModel {
    ItemModel::Import(
        ImportModel {
            src: helper_src(),
            specifiers: seq![
                SpecifierModel::ImportNamed { local: factory_ident(), imported: None },
            ],
        },
    )
}

/// The registry declaration for `bindings`.
pub open spec fn registry_item(bindings: Seq<Seq<char>>) -> ItemModel {
    ItemModel::Registry(RegistryModel { name: styles_ident(), bindings })
}

/// The matcher declaration for preference `prefer`.
pub open spec fn matcher_item(prefer: Seq<char>) -> ItemModel {
    ItemModel::Matcher(
        MatcherModel {
            name: matcher_ident(),
            callee: factory_ident(),
            registry: styles_ident(),
            prefer,
        },
    )
}

/// The rebuilt top-level statement list.  With no style import the module is
/// returned as it came.  Otherwise: every import in original order, style
/// imports normalized in place; one helper import; the registry declaration;
/// the matcher declaration; every non-import statement in original order.
pub open spec fn rewritten_module(
    namespace: bool,
    patterns: Seq<Seq<char>>,
    prefer: Seq<char>,
    items: Seq<ItemModel>,
) -> Seq<ItemModel> {
    if !module_has_style(patterns, items) {
        items
    } else {
        normalized_items(namespace, patterns, items).filter(import_filter()) + seq![
            helper_import(),
            registry_item(style_bindings(patterns, items)),
            matcher_item(prefer),
        ] + items.filter(non_import_filter())
    }
}

// ---------------------------------------------------------------------------
// Attribute rewriting
// ---------------------------------------------------------------------------

/// The rewritten value of a `className` attribute, given the matcher binding
/// if one exists.  A string literal or an expression becomes the sole
/// argument of a call through the matcher, unchanged; everything else, and
/// everything when no matcher exists, passes through.
pub open spec fn rewritten_value(matcher: Option<Seq<char>>, v: AttrValueModel) -> AttrValueModel {
    match matcher {
        None => v,
        Some(m) => match v {
            AttrValueModel::StrLit(s) => AttrValueModel::Call(
                CallModel { callee: m, arg: ArgModel::StrArg(s) },
            ),
            AttrValueModel::ExprContainer(h) => AttrValueModel::Call(
                CallModel { callee: m, arg: ArgModel::ExprArg(h) },
            ),
            _ => v,
        },
    }
}

/// The rewritten form of one attribute: only attributes named exactly
/// `className` are candidates.
pub open spec fn rewritten_attr(matcher: Option<Seq<char>>, a: AttrModel) -> AttrModel {
    if a.name == class_attr_name() {
        AttrModel { name: a.name, value: rewritten_value(matcher, a.value) }
    } else {
        a
    }
}

/// The rewritten form of an element: every attribute rewritten, every child
/// element rewritten recursively, everything else untouched.
pub open spec fn rewritten_elem(matcher: Option<Seq<char>>, e: ElemModel) -> ElemModel
    decreases e,
{
    ElemModel {
        attrs: Seq::new(e.attrs.len(), |i: int| rewritten_attr(matcher, e.attrs[i])),
        children: rewritten_children(matcher, e.children),
    }
}

/// The rewritten forms of a sequence of children, in order.
pub open spec fn rewritten_children(matcher: Option<Seq<char>>, cs: Seq<ChildModel>) -> Seq<
    ChildModel,
>
    decreases cs,
{
    if cs.len() == 0 {
        Seq::empty()
    } else {
        seq![rewritten_child(matcher, cs[0])] + rewritten_children(matcher, cs.drop_first())
    }
}

/// The rewritten form of one child.
pub open spec fn rewritten_child(matcher: Option<Seq<char>>, c: ChildModel) -> ChildModel
    decreases c,
{
    match c {
        ChildModel::Element(e) => ChildModel::Element(rewritten_elem(matcher, e)),
        ChildModel::OtherChild(h) => ChildModel::OtherChild(h),
    }
}

/// `rewritten_children` is the element-wise `rewritten_child`.
pub proof fn lemma_rewritten_children_pointwise(matcher: Option<Seq<char>>, cs: Seq<ChildModel>)
    ensures
        rewritten_children(matcher, cs).len() == cs.len(),
        forall|i: int|
            0 <= i < cs.len() ==> rewritten_children(matcher, cs)[i] == rewritten_child(
                matcher,
                cs[i],
            ),
    decreases cs.len(),
{
    if cs.len() > 0 {
        lemma_rewritten_children_pointwise(matcher, cs.drop_first());
    }
}

} // verus!
