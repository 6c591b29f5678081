use jsx_css_modules::ast::{
    ImportDecl, ImportSpecifier, JsxAttr, JsxAttrValue, JsxChild, JsxElement, MatcherArg, Module,
    ModuleItem,
};
use jsx_css_modules::visitor::JsxCssModulesVisitor;
use jsx_css_modules::Config;

fn config(prefer: &str, patterns: &[&str], import_style: &str) -> Config {
    Config {
        prefer: prefer.to_string(),
        style_file_reg: patterns.iter().map(|p| p.to_string()).collect(),
        import_style: import_style.to_string(),
    }
}

fn default_config() -> Config {
    config("local", &["\\.(css|scss|sass|less)$"], "default")
}

fn bare_import(src: &str) -> ModuleItem {
    ModuleItem::Import(ImportDecl { src: src.to_string(), specifiers: vec![] })
}

fn default_import(src: &str, local: &str) -> ModuleItem {
    ModuleItem::Import(ImportDecl {
        src: src.to_string(),
        specifiers: vec![ImportSpecifier::ImportDefault { local: local.to_string() }],
    })
}

fn named_import(src: &str, local: &str) -> ModuleItem {
    ModuleItem::Import(ImportDecl {
        src: src.to_string(),
        specifiers: vec![ImportSpecifier::ImportNamed { local: local.to_string(), imported: None }],
    })
}

fn import_src(item: &ModuleItem) -> &str {
    match item {
        ModuleItem::Import(d) => &d.src,
        _ => panic!("expected an import"),
    }
}

fn class_name_element(value: JsxAttrValue) -> JsxElement {
    JsxElement {
        attrs: vec![JsxAttr { name: "className".to_string(), value }],
        children: vec![],
    }
}

#[test]
fn scenario_one_bare_style_import() {
    let mut v = JsxCssModulesVisitor::new(default_config());
    let module = Module { items: vec![bare_import("./a.css"), ModuleItem::Other(7)] };
    let out = v.fold_module(module);
    assert_eq!(out.items.len(), 5);

    match &out.items[0] {
        ModuleItem::Import(d) => {
            assert_eq!(d.src, "./a.css");
            assert_eq!(d.specifiers.len(), 1);
            match &d.specifiers[0] {
                ImportSpecifier::ImportDefault { local } => assert_eq!(local, "style_0"),
                _ => panic!("expected a default specifier"),
            }
        },
        _ => panic!("expected the style import first"),
    }
    match &out.items[1] {
        ModuleItem::Import(d) => {
            assert_eq!(d.src, "swc-plugin-jsx-css-modules/helpers");
            assert_eq!(d.specifiers.len(), 1);
            match &d.specifiers[0] {
                ImportSpecifier::ImportNamed { local, imported } => {
                    assert_eq!(local, "getMatcher");
                    assert!(imported.is_none());
                },
                _ => panic!("expected a named specifier"),
            }
        },
        _ => panic!("expected the helper import second"),
    }
    match &out.items[2] {
        ModuleItem::Registry(r) => {
            assert_eq!(r.name, "_styles");
            assert_eq!(r.bindings, vec!["style_0".to_string()]);
        },
        _ => panic!("expected the registry declaration third"),
    }
    match &out.items[3] {
        ModuleItem::Matcher(m) => {
            assert_eq!(m.name, "_matcher");
            assert_eq!(m.callee, "getMatcher");
            assert_eq!(m.registry, "_styles");
            assert_eq!(m.prefer, "local");
        },
        _ => panic!("expected the matcher declaration fourth"),
    }
    assert!(matches!(out.items[4], ModuleItem::Other(7)));

    let element = v.fold_jsx_element(class_name_element(JsxAttrValue::StrLit("box".to_string())));
    assert_eq!(element.attrs.len(), 1);
    assert_eq!(element.attrs[0].name, "className");
    match &element.attrs[0].value {
        JsxAttrValue::Call(c) => {
            assert_eq!(c.callee, "_matcher");
            match &c.arg {
                MatcherArg::StrArg(s) => assert_eq!(s, "box"),
                _ => panic!("expected the literal argument"),
            }
        },
        _ => panic!("expected a matcher call"),
    }
}

#[test]
fn interleaved_import_order_is_kept() {
    let mut v = JsxCssModulesVisitor::new(default_config());
    let module = Module {
        items: vec![
            bare_import("./a.css"),
            named_import("react", "useState"),
            bare_import("./b.css"),
        ],
    };
    let out = v.fold_module(module);
    assert_eq!(out.items.len(), 6);
    assert_eq!(import_src(&out.items[0]), "./a.css");
    assert_eq!(import_src(&out.items[1]), "react");
    assert_eq!(import_src(&out.items[2]), "./b.css");
    assert_eq!(import_src(&out.items[3]), "swc-plugin-jsx-css-modules/helpers");
    assert!(matches!(out.items[4], ModuleItem::Registry(_)));
    assert!(matches!(out.items[5], ModuleItem::Matcher(_)));
    match &out.items[1] {
        ModuleItem::Import(d) => assert_eq!(d.specifiers.len(), 1),
        _ => panic!("expected an import"),
    }
}

#[test]
fn non_matching_import_is_left_alone() {
    let mut v = JsxCssModulesVisitor::new(config("local", &["\\.module\\.scss$"], "default"));
    let module = Module { items: vec![bare_import("./plain.css")] };
    let out = v.fold_module(module);
    assert_eq!(out.items.len(), 1);
    match &out.items[0] {
        ModuleItem::Import(d) => {
            assert_eq!(d.src, "./plain.css");
            assert!(d.specifiers.is_empty());
        },
        _ => panic!("expected the import unchanged"),
    }
}

#[test]
fn no_style_imports_is_a_no_op() {
    let mut v = JsxCssModulesVisitor::new(default_config());
    let module = Module {
        items: vec![named_import("react", "useState"), ModuleItem::Other(1), ModuleItem::Other(2)],
    };
    let out = v.fold_module(module);
    assert_eq!(out.items.len(), 3);
    assert_eq!(import_src(&out.items[0]), "react");
    assert!(matches!(out.items[1], ModuleItem::Other(1)));
    assert!(matches!(out.items[2], ModuleItem::Other(2)));

    let element = v.fold_jsx_element(class_name_element(JsxAttrValue::StrLit("box".to_string())));
    match &element.attrs[0].value {
        JsxAttrValue::StrLit(s) => assert_eq!(s, "box"),
        _ => panic!("expected the literal untouched"),
    }
}

#[test]
fn synthesized_names_skip_existing_default_bindings() {
    let mut v = JsxCssModulesVisitor::new(default_config());
    let module = Module {
        items: vec![
            bare_import("./a.css"),
            default_import("./b.css", "theme"),
            bare_import("./c.css"),
        ],
    };
    let out = v.fold_module(module);
    match &out.items[0] {
        ModuleItem::Import(d) => match &d.specifiers[0] {
            ImportSpecifier::ImportDefault { local } => assert_eq!(local, "style_0"),
            _ => panic!("expected a default specifier"),
        },
        _ => panic!("expected an import"),
    }
    match &out.items[1] {
        ModuleItem::Import(d) => {
            assert_eq!(d.specifiers.len(), 1);
            match &d.specifiers[0] {
                ImportSpecifier::ImportDefault { local } => assert_eq!(local, "theme"),
                _ => panic!("expected the original default specifier"),
            }
        },
        _ => panic!("expected an import"),
    }
    match &out.items[2] {
        ModuleItem::Import(d) => match &d.specifiers[0] {
            ImportSpecifier::ImportDefault { local } => assert_eq!(local, "style_1"),
            _ => panic!("expected a default specifier"),
        },
        _ => panic!("expected an import"),
    }
    match &out.items[4] {
        ModuleItem::Registry(r) => {
            assert_eq!(
                r.bindings,
                vec!["style_0".to_string(), "theme".to_string(), "style_1".to_string()]
            );
        },
        _ => panic!("expected the registry declaration"),
    }
}

#[test]
fn literal_with_scope_tokens_passes_through_byte_identical() {
    let mut v = JsxCssModulesVisitor::new(default_config());
    v.fold_module(Module { items: vec![bare_import("./a.css")] });
    let element = v.fold_jsx_element(class_name_element(JsxAttrValue::StrLit(
        ":global(.box) :local(.inner) plain".to_string(),
    )));
    match &element.attrs[0].value {
        JsxAttrValue::Call(c) => match &c.arg {
            MatcherArg::StrArg(s) => assert_eq!(s, ":global(.box) :local(.inner) plain"),
            _ => panic!("expected the literal argument"),
        },
        _ => panic!("expected a matcher call"),
    }
}

#[test]
fn expression_value_is_preserved_inside_the_call() {
    let mut v = JsxCssModulesVisitor::new(default_config());
    v.fold_module(Module { items: vec![bare_import("./a.css")] });
    let element = v.fold_jsx_element(class_name_element(JsxAttrValue::ExprContainer(42)));
    match &element.attrs[0].value {
        JsxAttrValue::Call(c) => assert!(matches!(c.arg, MatcherArg::ExprArg(42))),
        _ => panic!("expected a matcher call"),
    }
}

#[test]
fn other_attributes_and_value_shapes_are_untouched() {
    let mut v = JsxCssModulesVisitor::new(default_config());
    v.fold_module(Module { items: vec![bare_import("./a.css")] });
    let element = v.fold_jsx_element(JsxElement {
        attrs: vec![
            JsxAttr { name: "id".to_string(), value: JsxAttrValue::StrLit("x".to_string()) },
            JsxAttr { name: "className".to_string(), value: JsxAttrValue::Absent },
            JsxAttr { name: "className".to_string(), value: JsxAttrValue::OtherValue(9) },
        ],
        children: vec![],
    });
    match &element.attrs[0].value {
        JsxAttrValue::StrLit(s) => assert_eq!(s, "x"),
        _ => panic!("expected the other attribute untouched"),
    }
    assert!(matches!(element.attrs[1].value, JsxAttrValue::Absent));
    assert!(matches!(element.attrs[2].value, JsxAttrValue::OtherValue(9)));
}

#[test]
fn nested_elements_are_rewritten_recursively() {
    let mut v = JsxCssModulesVisitor::new(default_config());
    v.fold_module(Module { items: vec![bare_import("./a.css")] });
    let inner = class_name_element(JsxAttrValue::StrLit("inner".to_string()));
    let outer = JsxElement {
        attrs: vec![JsxAttr {
            name: "className".to_string(),
            value: JsxAttrValue::StrLit("outer".to_string()),
        }],
        children: vec![JsxChild::OtherChild(3), JsxChild::Element(inner)],
    };
    let element = v.fold_jsx_element(outer);
    assert!(matches!(element.children[0], JsxChild::OtherChild(3)));
    match &element.children[1] {
        JsxChild::Element(e) => match &e.attrs[0].value {
            JsxAttrValue::Call(c) => match &c.arg {
                MatcherArg::StrArg(s) => assert_eq!(s, "inner"),
                _ => panic!("expected the literal argument"),
            },
            _ => panic!("expected the nested attribute rewritten"),
        },
        _ => panic!("expected the nested element"),
    }
}

#[test]
fn namespace_import_style_synthesizes_namespace_specifiers() {
    let mut v = JsxCssModulesVisitor::new(config(
        "local",
        &["\\.(css|scss|sass|less)$"],
        "namespace",
    ));
    let out = v.fold_module(Module { items: vec![bare_import("./a.css")] });
    match &out.items[0] {
        ModuleItem::Import(d) => match &d.specifiers[0] {
            ImportSpecifier::ImportNamespace { local } => assert_eq!(local, "style_0"),
            _ => panic!("expected a namespace specifier"),
        },
        _ => panic!("expected an import"),
    }
}

#[test]
fn prefer_is_emitted_exactly_as_configured() {
    let mut v = JsxCssModulesVisitor::new(config(
        "global",
        &["\\.(css|scss|sass|less)$"],
        "default",
    ));
    let out = v.fold_module(Module { items: vec![bare_import("./a.css")] });
    match &out.items[3] {
        ModuleItem::Matcher(m) => assert_eq!(m.prefer, "global"),
        _ => panic!("expected the matcher declaration"),
    }
}

#[test]
fn malformed_pattern_is_skipped_not_fatal() {
    let mut v = JsxCssModulesVisitor::new(config("local", &["(", "\\.css$"], "default"));
    let out = v.fold_module(Module { items: vec![bare_import("./a.css")] });
    assert_eq!(out.items.len(), 4);

    let mut w = JsxCssModulesVisitor::new(config("local", &["("], "default"));
    let out = w.fold_module(Module { items: vec![bare_import("./a.css")] });
    assert_eq!(out.items.len(), 1);
}

#[test]
fn is_style_import_classifies_by_the_configured_patterns() {
    let v = JsxCssModulesVisitor::new(default_config());
    let style = ImportDecl { src: "./theme.scss".to_string(), specifiers: vec![] };
    let plain = ImportDecl { src: "./util.js".to_string(), specifiers: vec![] };
    let tricky = ImportDecl { src: "./style.css.js".to_string(), specifiers: vec![] };
    assert!(v.is_style_import(&style));
    assert!(!v.is_style_import(&plain));
    assert!(!v.is_style_import(&tricky));
}

#[test]
fn style_names_count_in_decimal() {
    assert_eq!(jsx_css_modules::naming::style_name(0), "style_0");
    assert_eq!(jsx_css_modules::naming::style_name(9), "style_9");
    assert_eq!(jsx_css_modules::naming::style_name(12), "style_12");
    assert_eq!(jsx_css_modules::naming::style_name(105), "style_105");
}

#[test]
fn duplicate_style_sources_are_normalized_independently() {
    let mut v = JsxCssModulesVisitor::new(default_config());
    let out = v.fold_module(Module {
        items: vec![bare_import("./a.css"), bare_import("./a.css")],
    });
    assert_eq!(out.items.len(), 5);
    for (i, expected) in [(0usize, "style_0"), (1usize, "style_1")] {
        match &out.items[i] {
            ModuleItem::Import(d) => match &d.specifiers[0] {
                ImportSpecifier::ImportDefault { local } => assert_eq!(local, expected),
                _ => panic!("expected a default specifier"),
            },
            _ => panic!("expected an import"),
        }
    }
}

#[test]
fn existing_named_specifiers_are_kept_when_a_binding_is_synthesized() {
    let mut v = JsxCssModulesVisitor::new(default_config());
    let out = v.fold_module(Module { items: vec![named_import("./a.css", "helper")] });
    match &out.items[0] {
        ModuleItem::Import(d) => {
            assert_eq!(d.specifiers.len(), 2);
            match &d.specifiers[0] {
                ImportSpecifier::ImportNamed { local, .. } => assert_eq!(local, "helper"),
                _ => panic!("expected the named specifier kept first"),
            }
            match &d.specifiers[1] {
                ImportSpecifier::ImportDefault { local } => assert_eq!(local, "style_0"),
                _ => panic!("expected the synthesized specifier appended"),
            }
        },
        _ => panic!("expected an import"),
    }
}

#[test]
fn default_configuration_values() {
    let c = Config::default();
    assert_eq!(c.prefer, "local");
    assert_eq!(c.style_file_reg, vec!["\\.(css|scss|sass|less)$".to_string()]);
    assert_eq!(c.import_style, "default");

    let mut v = JsxCssModulesVisitor::new(c);
    let out = v.fold_module(Module {
        items: vec![
            bare_import("./a.scss"),
            bare_import("./b.sass"),
            bare_import("./c.less"),
            bare_import("./d.css"),
        ],
    });
    assert_eq!(out.items.len(), 7);
}
