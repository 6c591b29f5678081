//! Properties of the rewrite, stated and proved over its specification.

use vstd::prelude::*;

use crate::ast::{
    ArgModel, AttrValueModel, CallModel, ChildModel, ElemModel, ImportModel, ItemModel,
};
use crate::naming::spec_style_name;
use crate::rewrite::{
    helper_import, import_filter, import_of, item_is_import, item_is_style, lemma_filter_empty,
    lemma_filter_take_step, matcher_item, module_has_style, needs_synthesis, non_import_filter,
    normalize_import, normalized_items, registry_item, rewritten_attr, rewritten_child,
    rewritten_children, rewritten_elem, rewritten_module, rewritten_value, style_bindings,
    synth_count, synthesized_specifier,
};

verus! {

/// With no style import among `items`, the rebuilt statement list is the
/// input list, unchanged.
pub proof fn lemma_no_style_imports_module_unchanged(
    namespace: bool,
    patterns: Seq<Seq<char>>,
    prefer: Seq<char>,
    items: Seq<ItemModel>,
)
    requires
        forall|i: int| 0 <= i < items.len() ==> !#[trigger] item_is_style(patterns, items[i]),
    ensures
        rewritten_module(namespace, patterns, prefer, items) == items,
{
    assert(!module_has_style(patterns, items));
}

/// With no matcher binding, attribute rewriting leaves every child
/// unchanged.
pub proof fn lemma_no_matcher_child_unchanged(c: ChildModel)
    ensures
        rewritten_child(None, c) == c,
    decreases c,
{
    match c {
        ChildModel::Element(e) => {
            lemma_no_matcher_elem_unchanged(e);
        },
        ChildModel::OtherChild(_) => {},
    }
}

/// With no matcher binding, attribute rewriting leaves every sequence of
/// children unchanged.
pub proof fn lemma_no_matcher_children_unchanged(cs: Seq<ChildModel>)
    ensures
        rewritten_children(None, cs) == cs,
    decreases cs,
{
    if cs.len() > 0 {
        lemma_no_matcher_child_unchanged(cs[0]);
        lemma_no_matcher_children_unchanged(cs.drop_first());
        assert(rewritten_children(None, cs) =~= cs);
    } else {
        assert(rewritten_children(None, cs) =~= cs);
    }
}

/// With no matcher binding, attribute rewriting leaves every element
/// unchanged: the required no-op behavior of a module without style
/// imports, where no matcher binding ever comes to exist.
pub proof fn lemma_no_matcher_elem_unchanged(e: ElemModel)
    ensures
        rewritten_elem(None, e) == e,
    decreases e,
{
    assert(rewritten_elem(None, e).attrs =~= e.attrs);
    lemma_no_matcher_children_unchanged(e.children);
    assert(rewritten_elem(None, e) =~= e);
}

/// Style imports are normalized in place: the normalized list has the same
/// length, every non-style item is untouched, and every style import is
/// replaced by its normalized form.
pub proof fn lemma_normalized_in_place(
    namespace: bool,
    patterns: Seq<Seq<char>>,
    items: Seq<ItemModel>,
    i: int,
)
    requires
        0 <= i < items.len(),
    ensures
        normalized_items(namespace, patterns, items).len() == items.len(),
        !item_is_style(patterns, items[i]) ==> normalized_items(namespace, patterns, items)[i]
            == items[i],
        item_is_style(patterns, items[i]) ==> normalized_items(namespace, patterns, items)[i]
            == ItemModel::Import(
            normalize_import(namespace, import_of(items[i]), synth_count(patterns, items, i)),
        ),
{
}

/// With at least one style import, the rebuilt list is: every import in
/// original relative order, with style imports normalized in place; one
/// helper import; the registry declaration; the matcher declaration; then
/// every non-import statement in original order.
pub proof fn lemma_ordering_invariant(
    namespace: bool,
    patterns: Seq<Seq<char>>,
    prefer: Seq<char>,
    items: Seq<ItemModel>,
)
    requires
        module_has_style(patterns, items),
    ensures
        ({
            let out = rewritten_module(namespace, patterns, prefer, items);
            let norm_imports = normalized_items(namespace, patterns, items).filter(
                import_filter(),
            );
            let rest = items.filter(non_import_filter());
            let b = norm_imports.len() as int;
            &&& out.len() == norm_imports.len() + 3 + rest.len()
            &&& out.take(b) == norm_imports
            &&& out[b] == helper_import()
            &&& out[b + 1] == registry_item(style_bindings(patterns, items))
            &&& out[b + 2] == matcher_item(prefer)
            &&& out.skip(b + 3) == rest
        }),
{
    let out = rewritten_module(namespace, patterns, prefer, items);
    let norm_imports = normalized_items(namespace, patterns, items).filter(import_filter());
    let rest = items.filter(non_import_filter());
    let b = norm_imports.len() as int;
    assert(out.take(b) =~= norm_imports);
    assert(out.skip(b + 3) =~= rest);
}

/// The predicate selecting the items that require a synthesized binding.
pub open spec fn synthesis_filter(patterns: Seq<Seq<char>>) -> spec_fn(ItemModel) -> bool {
    |it: ItemModel| needs_synthesis(patterns, it)
}

/// `synth_count` counts exactly the items before `i` that require a
/// synthesized binding.
pub proof fn lemma_synth_count_is_filter_len(
    patterns: Seq<Seq<char>>,
    items: Seq<ItemModel>,
    i: int,
)
    requires
        0 <= i <= items.len(),
    ensures
        synth_count(patterns, items, i) == items.take(i).filter(synthesis_filter(patterns)).len(),
    decreases i,
{
    if i == 0 {
        assert(items.take(0) =~= Seq::<ItemModel>::empty());
        lemma_filter_empty::<ItemModel>(synthesis_filter(patterns));
    } else {
        lemma_synth_count_is_filter_len(patterns, items, i - 1);
        lemma_filter_take_step(items, synthesis_filter(patterns), i - 1);
    }
}

/// Naming determinism: a style import lacking a default binding receives
/// `style_<k>`, appended as its synthesized specifier, where `k` is the
/// number of style imports before it, in source order, that also lacked a
/// default binding.  Imports that already carry a default binding do not
/// consume a number.
pub proof fn lemma_naming_determinism(
    namespace: bool,
    patterns: Seq<Seq<char>>,
    items: Seq<ItemModel>,
    i: int,
)
    requires
        0 <= i < items.len(),
        needs_synthesis(patterns, items[i]),
    ensures
        normalized_items(namespace, patterns, items)[i] == ItemModel::Import(
            ImportModel {
                src: import_of(items[i]).src,
                specifiers: import_of(items[i]).specifiers.push(
                    synthesized_specifier(
                        namespace,
                        spec_style_name(
                            items.take(i).filter(synthesis_filter(patterns)).len() as nat,
                        ),
                    ),
                ),
            },
        ),
{
    lemma_synth_count_is_filter_len(patterns, items, i);
}

/// Idempotent literal passthrough: the literal argument of the rewritten
/// call is the original string, byte for byte.
pub proof fn lemma_literal_passthrough(m: Seq<char>, s: Seq<char>)
    ensures
        rewritten_value(Some(m), AttrValueModel::StrLit(s)) == AttrValueModel::Call(
            CallModel { callee: m, arg: ArgModel::StrArg(s) },
        ),
{
}

/// Expression preservation: an attribute already holding an expression is
/// rewritten to a call whose sole argument is that same expression.
pub proof fn lemma_expression_preserved(m: Seq<char>, h: u64)
    ensures
        rewritten_value(Some(m), AttrValueModel::ExprContainer(h)) == AttrValueModel::Call(
            CallModel { callee: m, arg: ArgModel::ExprArg(h) },
        ),
{
}

} // verus!
