//! A single-pass source-to-source rewriter for script modules that use
//! CSS-module stylesheets together with JSX markup.
//!
//! The rewriter classifies imports by filename pattern, guarantees every
//! style import a usable local binding, merges those bindings into one
//! registry object, injects a matcher-factory call and a helper import,
//! and rewrites every `className` attribute in the markup tree into a call
//! through the matcher binding.

use vstd::prelude::*;

pub mod ast;
pub mod laws;
pub mod naming;
pub mod patterns;
pub mod rewrite;
pub mod visitor;

pub use visitor::JsxCssModulesVisitor;

verus! {

/// Configuration for one module rewrite, immutable for its duration.
pub struct Config {
    /// Which scope a bare class name resolves to: `"local"` or `"global"`.
    pub prefer: String,
    /// Regular-expression strings that identify stylesheet imports.
    pub style_file_reg: Vec<String>,
    /// `"default"` or `"namespace"`: the kind of specifier synthesized for a
    /// style import that lacks a default binding.
    pub import_style: String,
}

impl Default for Config {
    /// The built-in defaults: bare class names resolve locally, the usual
    /// stylesheet suffixes count as style files, and synthesized bindings
    /// are default imports.
    fn default() -> (c: Config)
        ensures
            c.prefer@ == "local"@,
            c.style_file_reg.deep_view() == seq!["\\.(css|scss|sass|less)$"@],
            c.import_style@ == "default"@,
    {
        broadcast use crate::ast::lemma_vec_deep_view, crate::ast::lemma_dv_seq_push;

        let mut patterns: Vec<String> = Vec::new();
        patterns.push(String::from_str("\\.(css|scss|sass|less)$"));
        proof {
            assert(patterns.deep_view() =~= seq!["\\.(css|scss|sass|less)$"@]);
        }
        Config {
            prefer: String::from_str("local"),
            style_file_reg: patterns,
            import_style: String::from_str("default"),
        }
    }
}

} // verus!
