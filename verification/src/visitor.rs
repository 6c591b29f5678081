//! The rewrite pass over one module.
//!
//! [`JsxCssModulesVisitor`] holds the configuration and, once the module's
//! top-level statements have been rebuilt, the names of the registry and
//! matcher bindings.  [`JsxCssModulesVisitor::fold_module`] performs import
//! classification, normalization, statement synthesis and reassembly;
//! [`JsxCssModulesVisitor::fold_jsx_element`] rewrites the `className`
//! attributes of a markup element and its nested children.

use vstd::prelude::*;

use crate::ast::{
    dv_seq, lemma_dv_seq_add, lemma_dv_seq_drop_first, lemma_dv_seq_push, lemma_vec_deep_view,
    ImportDecl, ImportSpecifier, ItemModel, JsxAttr, JsxAttrValue, JsxChild, JsxElement,
    MatcherArg, MatcherCall, MatcherDecl, MatcherModel, Module, ModuleItem, RegistryDecl,
    SpecifierModel,
};
use crate::naming::{spec_style_name, style_name};
use crate::patterns::{matches_any, text_matches_any};
use crate::rewrite::{
    binding_of, bindings_upto, default_local, factory_ident, helper_import, import_filter,
    import_of, item_is_import, item_is_style, lemma_filter_empty, lemma_filter_take_step,
    lemma_rewritten_children_pointwise, matcher_ident, matcher_item, module_has_style,
    namespace_of, needs_synthesis, non_import_filter, normalize_import, normalized_items,
    patterns_of, registry_item, rewritten_attr, rewritten_child, rewritten_children,
    rewritten_elem, rewritten_module, style_bindings, styles_ident, synth_count,
    synthesized_specifier,
};
use crate::Config;

verus! {

/// The rewrite pass over one module tree.
pub struct JsxCssModulesVisitor {
    config: Config,
    styles_ident: Option<String>,
    matcher_ident: Option<String>,
}

impl JsxCssModulesVisitor {
    /// The configuration this visitor was built with.
    pub closed spec fn spec_config(self) -> Config {
        self.config
    }

    /// The name of the registry binding, once one exists.
    pub closed spec fn spec_styles(self) -> Option<Seq<char>> {
        self.styles_ident.deep_view()
    }

    /// The name of the matcher binding, once one exists.
    pub closed spec fn spec_matcher(self) -> Option<Seq<char>> {
        self.matcher_ident.deep_view()
    }

    /// A fresh visitor: no registry, no matcher.
    pub fn new(config: Config) -> (v: Self)
        ensures
            v.spec_config() == config,
            v.spec_styles() is None,
            v.spec_matcher() is None,
    {
        Self { config, styles_ident: None, matcher_ident: None }
    }

    /// Whether `import`'s source path matches one of the configured style
    /// file patterns.
    pub fn is_style_import(&self, import: &ImportDecl) -> (r: bool)
        ensures
            r == text_matches_any(patterns_of(self.spec_config()), import.src@),
    {
        matches_any(&self.config.style_file_reg, import.src.as_str())
    }

    /// The matcher declaration
    /// `const _matcher = getMatcher(<registry>, "<prefer>");`,
    /// recorded as this visitor's matcher binding.
    fn create_matcher_stmt(&mut self) -> (r: ModuleItem)
        requires
            old(self).spec_styles() is Some,
        ensures
            final(self).spec_config() == old(self).spec_config(),
            final(self).spec_styles() == old(self).spec_styles(),
            final(self).spec_matcher() == Some(matcher_ident()),
            old(self).spec_styles() matches Some(reg) ==> r.deep_view() == ItemModel::Matcher(
                MatcherModel {
                    name: matcher_ident(),
                    callee: factory_ident(),
                    registry: reg,
                    prefer: old(self).spec_config().prefer@,
                },
            ),
    {
        let matcher_name = String::from_str("_matcher");
        self.matcher_ident = Some(matcher_name.clone());
        let registry = match &self.styles_ident {
            Some(name) => name.clone(),
            None => String::new(),
        };
        ModuleItem::Matcher(
            MatcherDecl {
                name: matcher_name,
                callee: String::from_str("getMatcher"),
                registry,
                prefer: self.config.prefer.clone(),
            },
        )
    }
}

impl JsxCssModulesVisitor {
    /// The rewritten form of one attribute: a `className` attribute holding
    /// a string literal or an expression becomes a call through the matcher
    /// binding; everything else, and everything when no matcher binding
    /// exists, passes through unchanged.
    fn rewrite_attr(&self, attr: JsxAttr) -> (r: JsxAttr)
        ensures
            r.deep_view() == rewritten_attr(self.spec_matcher(), attr.deep_view()),
    {
        let JsxAttr { name, value } = attr;
        let is_class = name == String::from_str("className");
        if !is_class {
            return JsxAttr { name, value };
        }
        match &self.matcher_ident {
            None => JsxAttr { name, value },
            Some(m) => match value {
                JsxAttrValue::StrLit(s) => JsxAttr {
                    name,
                    value: JsxAttrValue::Call(
                        MatcherCall { callee: m.clone(), arg: MatcherArg::StrArg(s) },
                    ),
                },
                JsxAttrValue::ExprContainer(h) => JsxAttr {
                    name,
                    value: JsxAttrValue::Call(
                        MatcherCall { callee: m.clone(), arg: MatcherArg::ExprArg(h) },
                    ),
                },
                v => JsxAttr { name, value: v },
            },
        }
    }

    /// Rewrites every `className` attribute of `jsx` and, recursively, of
    /// every element nested below it.  When no matcher binding exists the
    /// traversal still runs and leaves every attribute unchanged.
    pub fn fold_jsx_element(&self, jsx: JsxElement) -> (r: JsxElement)
        ensures
            r@ == rewritten_elem(self.spec_matcher(), jsx@),
        decreases jsx,
    {
        broadcast use lemma_vec_deep_view, lemma_dv_seq_push, lemma_dv_seq_drop_first;

        let ghost m = self.spec_matcher();
        let ghost e0 = jsx@;
        let JsxElement { mut attrs, mut children } = jsx;
        let ghost a0 = dv_seq(attrs@);
        let ghost kids0 = children@;
        let ghost c0 = dv_seq(children@);
        proof {
            crate::ast::lemma_children_model_pointwise(kids0);
            assert(e0.attrs == a0);
            assert(c0 =~= e0.children);
            assert(a0.skip(0) =~= a0);
        }

        let mut new_attrs: Vec<JsxAttr> = Vec::new();
        while attrs.len() > 0
            invariant
                m == self.spec_matcher(),
                new_attrs.len() + attrs.len() == a0.len(),
                dv_seq(attrs@) == a0.skip(new_attrs.len() as int),
                forall|j: int|
                    0 <= j < new_attrs.len() ==> dv_seq(new_attrs@)[j] == rewritten_attr(m, a0[j]),
            decreases attrs.len(),
        {
            let ghost i = new_attrs.len() as int;
            proof {
                assert(dv_seq(attrs@)[0] == a0.skip(i)[0]);
                assert(a0.skip(i)[0] == a0[i]);
            }
            let ghost pre = attrs@;
            let a = attrs.remove(0);
            proof {
                assert(a.deep_view() == a0[i]);
                assert(attrs@ =~= pre.drop_first());
                assert(dv_seq(pre).drop_first() =~= a0.skip(i + 1));
            }
            let ra = self.rewrite_attr(a);
            let ghost prev = new_attrs@;
            new_attrs.push(ra);
            proof {
                assert(dv_seq(new_attrs@) == dv_seq(prev).push(ra.deep_view()));
                assert forall|j: int|
                    0 <= j < new_attrs.len() implies dv_seq(new_attrs@)[j] == rewritten_attr(
                    m,
                    a0[j],
                ) by {
                    if j < i {
                        assert(dv_seq(new_attrs@)[j] == dv_seq(prev)[j]);
                    } else {
                        assert(dv_seq(new_attrs@)[j] == ra.deep_view());
                    }
                }
            }
        }

        let mut new_children: Vec<JsxChild> = Vec::new();
        while children.len() > 0
            invariant
                m == self.spec_matcher(),
                new_children.len() + children.len() == c0.len(),
                children@ == kids0.skip(new_children.len() as int),
                kids0 == jsx.children@,
                c0 == dv_seq(kids0),
                forall|j: int|
                    0 <= j < new_children.len() ==> dv_seq(new_children@)[j] == rewritten_child(
                        m,
                        c0[j],
                    ),
            decreases children.len(),
        {
            let ghost i = new_children.len() as int;
            proof {
                assert(children@[0] == kids0.skip(i)[0]);
                assert(kids0.skip(i)[0] == kids0[i]);
            }
            let ghost pre = children@;
            let c = children.remove(0);
            proof {
                assert(c == kids0[i]);
                assert(c.deep_view() == c0[i]);
                assert(pre.drop_first() =~= kids0.skip(i + 1));
            }
            let rc = match c {
                JsxChild::Element(el) => {
                    proof {
                        assert(decreases_to!(jsx => jsx.children));
                        assert(decreases_to!(jsx.children => jsx.children@));
                        assert(decreases_to!(jsx.children@ => jsx.children@[i]));
                        assert(decreases_to!(jsx.children@[i] => el));
                    }
                    JsxChild::Element(self.fold_jsx_element(el))
                },
                other => other,
            };
            proof {
                assert(rc.deep_view() == rewritten_child(m, c0[i]));
            }
            let ghost prev = new_children@;
            new_children.push(rc);
            proof {
                assert(dv_seq(new_children@) == dv_seq(prev).push(rc.deep_view()));
                assert forall|j: int|
                    0 <= j < new_children.len() implies dv_seq(new_children@)[j] == rewritten_child(
                    m,
                    c0[j],
                ) by {
                    if j < i {
                        assert(dv_seq(new_children@)[j] == dv_seq(prev)[j]);
                    } else {
                        assert(dv_seq(new_children@)[j] == rc.deep_view());
                    }
                }
            }
        }

        let result = JsxElement { attrs: new_attrs, children: new_children };
        proof {
            crate::ast::lemma_children_model_pointwise(new_children@);
            lemma_rewritten_children_pointwise(m, e0.children);
            assert(result@.attrs =~= rewritten_elem(m, e0).attrs);
            assert forall|j: int|
                0 <= j < c0.len() implies crate::ast::children_model(new_children@)[j]
                == rewritten_children(m, e0.children)[j] by {
                assert(crate::ast::children_model(new_children@)[j] == dv_seq(new_children@)[j]);
                assert(e0.children[j] == c0[j]);
            }
            assert(result@.children =~= rewritten_elem(m, e0).children);
            assert(result@ =~= rewritten_elem(m, e0));
        }
        result
    }
}

impl JsxCssModulesVisitor {
    /// Rebuilds the module's top-level statement list.
    ///
    /// With no style import the module is returned exactly as it came and
    /// this visitor is left untouched.  Otherwise every import is kept in
    /// its original relative order with style imports normalized in place,
    /// followed by one helper import, the registry declaration, the matcher
    /// declaration, and every non-import statement in original order; the
    /// registry and matcher bindings are recorded on this visitor.
    pub fn fold_module(&mut self, module: Module) -> (result: Module)
        ensures
            result@ == rewritten_module(
                namespace_of(old(self).spec_config()),
                patterns_of(old(self).spec_config()),
                old(self).spec_config().prefer@,
                module@,
            ),
            final(self).spec_config() == old(self).spec_config(),
            module_has_style(patterns_of(old(self).spec_config()), module@) ==> {
                &&& final(self).spec_styles() == Some(styles_ident())
                &&& final(self).spec_matcher() == Some(matcher_ident())
            },
            !module_has_style(patterns_of(old(self).spec_config()), module@) ==> {
                &&& final(self).spec_styles() == old(self).spec_styles()
                &&& final(self).spec_matcher() == old(self).spec_matcher()
            },
    {
        broadcast use
            lemma_vec_deep_view,
            lemma_dv_seq_push,
            lemma_dv_seq_drop_first,
            lemma_dv_seq_add;

        let ghost cfg0 = self.config;
        let ghost pats = patterns_of(cfg0);
        let ghost ns = namespace_of(cfg0);
        let mut items = module.items;
        let n_exec = items.len();
        let ghost items0 = dv_seq(items@);
        let ghost n0 = items0.len() as int;
        proof {
            assert(items0 == module@);
        }

        // Classification: is any import a style import?
        let mut has_style = false;
        let mut i: usize = 0;
        while i < items.len()
            invariant
                *self == *old(self),
                cfg0 == self.config,
                pats == patterns_of(cfg0),
                0 <= i <= items.len(),
                items0 == dv_seq(items@),
                has_style == (exists|j: int|
                    0 <= j < i && #[trigger] item_is_style(pats, items0[j])),
            decreases items.len() - i,
        {
            match &items[i] {
                ModuleItem::Import(im) => {
                    if self.is_style_import(im) {
                        proof {
                            assert(items0[i as int] == items@[i as int].deep_view());
                            assert(item_is_style(pats, items0[i as int]));
                        }
                        has_style = true;
                    } else {
                        proof {
                            assert(!item_is_style(pats, items0[i as int]));
                        }
                    }
                },
                _ => {
                    proof {
                        assert(!item_is_style(pats, items0[i as int]));
                    }
                },
            }
            i += 1;
        }
        proof {
            assert(has_style == module_has_style(pats, items0));
        }

        if !has_style {
            return Module { items };
        }

        // Normalization and reassembly.
        let ns_str = String::from_str("namespace");
        let namespace_flag = self.config.import_style == ns_str;
        proof {
            assert(namespace_flag == ns);
        }
        let ghost nitems = normalized_items(ns, pats, items0);
        let mut imports: Vec<ModuleItem> = Vec::new();
        let mut others: Vec<ModuleItem> = Vec::new();
        let mut bindings: Vec<String> = Vec::new();
        let mut synth: usize = 0;
        proof {
            assert(items0.skip(0) =~= items0);
            assert(nitems.take(0) =~= Seq::<ItemModel>::empty());
            assert(items0.take(0) =~= Seq::<ItemModel>::empty());
            assert(dv_seq(imports@) =~= Seq::<ItemModel>::empty());
            assert(dv_seq(others@) =~= Seq::<ItemModel>::empty());
            assert(dv_seq(bindings@) =~= Seq::<Seq<char>>::empty());
            lemma_filter_empty::<ItemModel>(import_filter());
            lemma_filter_empty::<ItemModel>(non_import_filter());
        }
        while items.len() > 0
            invariant
                *self == *old(self),
                cfg0 == self.config,
                pats == patterns_of(cfg0),
                ns == namespace_of(cfg0),
                nitems == normalized_items(ns, pats, items0),
                namespace_flag == ns,
                n0 == items0.len() as int,
                n_exec as int == n0,
                items.len() <= n_exec,
                dv_seq(items@) == items0.skip(n0 - items.len()),
                dv_seq(imports@) == nitems.take(n0 - items.len()).filter(import_filter()),
                dv_seq(others@) == items0.take(n0 - items.len()).filter(non_import_filter()),
                dv_seq(bindings@) == bindings_upto(pats, items0, n0 - items.len()),
                synth as nat == synth_count(pats, items0, n0 - items.len()),
                synth <= n0 - items.len(),
            decreases items.len(),
        {
            let ghost k = n0 - items.len() as int;
            proof {
                assert(dv_seq(items@)[0] == items0.skip(k)[0]);
                assert(items0.skip(k)[0] == items0[k]);
                lemma_filter_take_step(nitems, import_filter(), k);
                lemma_filter_take_step(items0, non_import_filter(), k);
            }
            let ghost pre = items@;
            let it = items.remove(0);
            proof {
                assert(it.deep_view() == items0[k]);
                assert(pre.drop_first() =~= items@);
                assert(dv_seq(pre).drop_first() =~= items0.skip(k + 1));
            }
            match it {
                ModuleItem::Import(mut im) => {
                    let ghost im0 = im.deep_view();
                    proof {
                        assert(items0[k] == ItemModel::Import(im0));
                        assert(import_of(items0[k]) == im0);
                        assert(item_is_import(items0[k]));
                    }
                    let style = self.is_style_import(&im);
                    proof {
                        assert(style == item_is_style(pats, items0[k]));
                    }
                    if style {
                        let dflt = find_default_local(&im.specifiers);
                        match dflt {
                            Some(local) => {
                                proof {
                                    assert(default_local(im0.specifiers) == Some(local@));
                                    assert(!needs_synthesis(pats, items0[k]));
                                    assert(binding_of(im0, synth_count(pats, items0, k))
                                        == local@);
                                    assert(normalize_import(
                                        ns,
                                        im0,
                                        synth_count(pats, items0, k),
                                    ) == im0);
                                    assert(nitems[k] == ItemModel::Import(im0));
                                }
                                bindings.push(local);
                                imports.push(ModuleItem::Import(im));
                            },
                            None => {
                                proof {
                                    assert(default_local(im0.specifiers) is None);
                                    assert(needs_synthesis(pats, items0[k]));
                                }
                                let name = style_name(synth);
                                let synthesized = if namespace_flag {
                                    ImportSpecifier::ImportNamespace { local: name.clone() }
                                } else {
                                    ImportSpecifier::ImportDefault { local: name.clone() }
                                };
                                proof {
                                    assert(synthesized.deep_view() == synthesized_specifier(
                                        ns,
                                        spec_style_name(synth as nat),
                                    ));
                                }
                                let ghost specs_pre = im.specifiers@;
                                im.specifiers.push(synthesized);
                                proof {
                                    assert(dv_seq(im.specifiers@) == dv_seq(specs_pre).push(
                                        synthesized_specifier(ns, spec_style_name(synth as nat)),
                                    ));
                                    assert(im.deep_view() == normalize_import(
                                        ns,
                                        im0,
                                        synth_count(pats, items0, k),
                                    ));
                                    assert(nitems[k] == ItemModel::Import(im.deep_view()));
                                    assert(binding_of(im0, synth_count(pats, items0, k))
                                        == name@);
                                }
                                bindings.push(name);
                                imports.push(ModuleItem::Import(im));
                                synth += 1;
                            },
                        }
                        proof {
                            assert(dv_seq(bindings@) == bindings_upto(pats, items0, k + 1));
                        }
                    } else {
                        proof {
                            assert(nitems[k] == items0[k]);
                            assert(!needs_synthesis(pats, items0[k]));
                            assert(bindings_upto(pats, items0, k + 1) == bindings_upto(
                                pats,
                                items0,
                                k,
                            ));
                        }
                        imports.push(ModuleItem::Import(im));
                    }
                    proof {
                        assert(item_is_import(nitems[k]));
                        assert(dv_seq(imports@) == nitems.take(k + 1).filter(import_filter()));
                        assert(dv_seq(others@) == items0.take(k + 1).filter(non_import_filter()));
                    }
                },
                other => {
                    proof {
                        assert(other.deep_view() == items0[k]);
                        assert(!item_is_import(items0[k]));
                        assert(!item_is_style(pats, items0[k]));
                        assert(nitems[k] == items0[k]);
                        assert(!needs_synthesis(pats, items0[k]));
                    }
                    others.push(other);
                    proof {
                        assert(dv_seq(imports@) == nitems.take(k + 1).filter(import_filter()));
                        assert(dv_seq(others@) == items0.take(k + 1).filter(non_import_filter()));
                        assert(dv_seq(bindings@) == bindings_upto(pats, items0, k + 1));
                    }
                },
            }
        }
        proof {
            assert(nitems.take(n0) =~= nitems);
            assert(items0.take(n0) =~= items0);
            assert(dv_seq(bindings@) == style_bindings(pats, items0));
        }

        // The injected helper import and the two synthesized declarations.
        let mut helper_specs: Vec<ImportSpecifier> = Vec::new();
        helper_specs.push(
            ImportSpecifier::ImportNamed { local: String::from_str("getMatcher"), imported: None },
        );
        let helper = ModuleItem::Import(
            ImportDecl {
                src: String::from_str("swc-plugin-jsx-css-modules/helpers"),
                specifiers: helper_specs,
            },
        );
        proof {
            assert(dv_seq(helper_specs@) =~= seq![
                SpecifierModel::ImportNamed { local: factory_ident(), imported: None },
            ]);
            assert(helper.deep_view() == helper_import());
        }

        let styles_name = String::from_str("_styles");
        self.styles_ident = Some(styles_name.clone());
        let registry = ModuleItem::Registry(RegistryDecl { name: styles_name, bindings });
        proof {
            assert(registry.deep_view() == registry_item(style_bindings(pats, items0)));
        }
        let matcher_stmt = self.create_matcher_stmt();
        proof {
            assert(matcher_stmt.deep_view() == matcher_item(cfg0.prefer@));
        }

        imports.push(helper);
        imports.push(registry);
        imports.push(matcher_stmt);
        imports.append(&mut others);
        let result = Module { items: imports };
        proof {
            assert(result@ =~= rewritten_module(ns, pats, cfg0.prefer@, items0));
        }
        result
    }
}

/// The local name of the first specifier of `specs` that binds the default
/// export, if any does.
fn find_default_local(specs: &Vec<ImportSpecifier>) -> (r: Option<String>)
    ensures
        r.deep_view() == default_local(specs.deep_view()),
{
    broadcast use lemma_vec_deep_view;

    let ghost s0 = specs.deep_view();
    proof {
        assert(s0.skip(0) =~= s0);
    }
    let mut i: usize = 0;
    while i < specs.len()
        invariant
            0 <= i <= specs.len(),
            s0 == specs.deep_view(),
            s0 == dv_seq(specs@),
            default_local(s0) == default_local(s0.skip(i as int)),
        decreases specs.len() - i,
    {
        let ghost rest = s0.skip(i as int);
        assert(rest[0] == s0[i as int]);
        match &specs[i] {
            ImportSpecifier::ImportDefault { local } => {
                assert(default_local(rest) == Some(local@));
                return Some(local.clone());
            },
            _ => {
                assert(rest.drop_first() =~= s0.skip(i as int + 1));
            },
        }
        i += 1;
    }
    assert(s0.skip(specs.len() as int) =~= Seq::<SpecifierModel>::empty());
    None
}

} // verus!
