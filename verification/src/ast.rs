//! The module tree as the rewriter sees it.
//!
//! The rewriter reads and produces only the parts of a script module that it
//! acts on: import declarations, the two declarations it synthesizes, and the
//! `className` attributes of markup elements.  Every other statement,
//! expression or attribute payload is carried through as an opaque handle
//! that the caller maps back to the node it stands for.
//!
//! Each executable type has a mathematical model (`...Model`) over `Seq` and
//! plain values, reached through `DeepView`; the contracts of the rewriter
//! speak of these models.

use vstd::prelude::*;

verus! {

// ---------------------------------------------------------------------------
// Imports
// ---------------------------------------------------------------------------

/// One specifier of an import declaration.
pub enum ImportSpecifier {
    /// `import local from '...'`
    ImportDefault { local: String },
    /// `import * as local from '...'`
    ImportNamespace { local: String },
    /// `import { imported as local } from '...'` (`imported` absent when the
    /// local name is the imported name).
    ImportNamed { local: String, imported: Option<String> },
}

/// Model of an [`ImportSpecifier`].
pub enum SpecifierModel {
    ImportDefault { local: Seq<char> },
    ImportNamespace { local: Seq<char> },
    ImportNamed { local: Seq<char>, imported: Option<Seq<char>> },
}

/// A module-level import declaration: its source path and its specifiers.
/// Source positions and formatting are the caller's to keep.
pub struct ImportDecl {
    pub src: String,
    pub specifiers: Vec<ImportSpecifier>,
}

/// Model of an [`ImportDecl`].
#[verifier::ext_equal]
pub struct ImportModel {
    pub src: Seq<char>,
    pub specifiers: Seq<SpecifierModel>,
}

// ---------------------------------------------------------------------------
// Synthesized declarations
// ---------------------------------------------------------------------------

/// The registry declaration the rewriter synthesizes:
/// `const <name> = Object.assign({}, <bindings...>);`
pub struct RegistryDecl {
    pub name: String,
    pub bindings: Vec<String>,
}

/// Model of a [`RegistryDecl`].
#[verifier::ext_equal]
pub struct RegistryModel {
    pub name: Seq<char>,
    pub bindings: Seq<Seq<char>>,
}

/// The matcher declaration the rewriter synthesizes:
/// `const <name> = <callee>(<registry>, "<prefer>");`
pub struct MatcherDecl {
    pub name: String,
    pub callee: String,
    pub registry: String,
    pub prefer: String,
}

/// Model of a [`MatcherDecl`].
#[verifier::ext_equal]
pub struct MatcherModel {
    pub name: Seq<char>,
    pub callee: Seq<char>,
    pub registry: Seq<char>,
    pub prefer: Seq<char>,
}

// ---------------------------------------------------------------------------
// Top-level statements and the module
// ---------------------------------------------------------------------------

/// One top-level statement of the module.  A statement the rewriter never
/// touches is an opaque handle chosen by the caller.
pub enum ModuleItem {
    Import(ImportDecl),
    Registry(RegistryDecl),
    Matcher(MatcherDecl),
    Other(u64),
}

/// Model of a [`ModuleItem`].
pub enum ItemModel {
    Import(ImportModel),
    Registry(RegistryModel),
    Matcher(MatcherModel),
    Other(u64),
}

/// A module: its top-level statements in source order.
pub struct Module {
    pub items: Vec<ModuleItem>,
}

// ---------------------------------------------------------------------------
// Markup elements and attributes
// ---------------------------------------------------------------------------

/// The argument of a synthesized matcher call: the original string literal,
/// or the original expression unchanged.
pub enum MatcherArg {
    StrArg(String),
    ExprArg(u64),
}

/// Model of a [`MatcherArg`].
pub enum ArgModel {
    StrArg(Seq<char>),
    ExprArg(u64),
}

/// A call through the matcher binding, `<callee>(<arg>)`, the shape every
/// rewritten attribute value takes.
pub struct MatcherCall {
    pub callee: String,
    pub arg: MatcherArg,
}

/// Model of a [`MatcherCall`].
#[verifier::ext_equal]
pub struct CallModel {
    pub callee: Seq<char>,
    pub arg: ArgModel,
}

/// The value of a markup attribute.  Only a string literal or an expression
/// container is ever rewritten; every other shape passes through.
pub enum JsxAttrValue {
    Absent,
    StrLit(String),
    ExprContainer(u64),
    Call(MatcherCall),
    OtherValue(u64),
}

/// Model of a [`JsxAttrValue`].
pub enum AttrValueModel {
    Absent,
    StrLit(Seq<char>),
    ExprContainer(u64),
    Call(CallModel),
    OtherValue(u64),
}

/// One attribute of a markup element.
pub struct JsxAttr {
    pub name: String,
    pub value: JsxAttrValue,
}

/// Model of a [`JsxAttr`].
#[verifier::ext_equal]
pub struct AttrModel {
    pub name: Seq<char>,
    pub value: AttrValueModel,
}

/// One child of a markup element: a nested element, or an opaque handle for
/// anything else (text, expression containers, fragments).
pub enum JsxChild {
    Element(JsxElement),
    OtherChild(u64),
}

/// Model of a [`JsxChild`].
pub enum ChildModel {
    Element(ElemModel),
    OtherChild(u64),
}

/// A markup element: its attributes and its children.
pub struct JsxElement {
    pub attrs: Vec<JsxAttr>,
    pub children: Vec<JsxChild>,
}

/// Model of a [`JsxElement`].
#[verifier::ext_equal]
pub struct ElemModel {
    pub attrs: Seq<AttrModel>,
    pub children: Seq<ChildModel>,
}

// ---------------------------------------------------------------------------
// Views
// ---------------------------------------------------------------------------

impl DeepView for ImportSpecifier {
    type V = SpecifierModel;

    open spec fn deep_view(&self) -> SpecifierModel {
        match self {
            ImportSpecifier::ImportDefault { local } => SpecifierModel::ImportDefault {
                local: local@,
            },
            ImportSpecifier::ImportNamespace { local } => SpecifierModel::ImportNamespace {
                local: local@,
            },
            ImportSpecifier::ImportNamed { local, imported } => SpecifierModel::ImportNamed {
                local: local@,
                imported: imported.deep_view(),
            },
        }
    }
}

impl DeepView for ImportDecl {
    type V = ImportModel;

    open spec fn deep_view(&self) -> ImportModel {
        ImportModel { src: self.src@, specifiers: self.specifiers.deep_view() }
    }
}

impl DeepView for RegistryDecl {
    type V = RegistryModel;

    open spec fn deep_view(&self) -> RegistryModel {
        RegistryModel { name: self.name@, bindings: self.bindings.deep_view() }
    }
}

impl DeepView for MatcherDecl {
    type V = MatcherModel;

    open spec fn deep_view(&self) -> MatcherModel {
        MatcherModel {
            name: self.name@,
            callee: self.callee@,
            registry: self.registry@,
            prefer: self.prefer@,
        }
    }
}

impl DeepView for ModuleItem {
    type V = ItemModel;

    open spec fn deep_view(&self) -> ItemModel {
        match self {
            ModuleItem::Import(d) => ItemModel::Import(d.deep_view()),
            ModuleItem::Registry(d) => ItemModel::Registry(d.deep_view()),
            ModuleItem::Matcher(d) => ItemModel::Matcher(d.deep_view()),
            ModuleItem::Other(h) => ItemModel::Other(*h),
        }
    }
}

impl DeepView for Module {
    type V = Seq<ItemModel>;

    open spec fn deep_view(&self) -> Seq<ItemModel> {
        self.items.deep_view()
    }
}

impl View for Module {
    type V = Seq<ItemModel>;

    open spec fn view(&self) -> Seq<ItemModel> {
        self.deep_view()
    }
}

impl DeepView for MatcherArg {
    type V = ArgModel;

    open spec fn deep_view(&self) -> ArgModel {
        match self {
            MatcherArg::StrArg(s) => ArgModel::StrArg(s@),
            MatcherArg::ExprArg(h) => ArgModel::ExprArg(*h),
        }
    }
}

impl DeepView for MatcherCall {
    type V = CallModel;

    open spec fn deep_view(&self) -> CallModel {
        CallModel { callee: self.callee@, arg: self.arg.deep_view() }
    }
}

impl DeepView for JsxAttrValue {
    type V = AttrValueModel;

    open spec fn deep_view(&self) -> AttrValueModel {
        match self {
            JsxAttrValue::Absent => AttrValueModel::Absent,
            JsxAttrValue::StrLit(s) => AttrValueModel::StrLit(s@),
            JsxAttrValue::ExprContainer(h) => AttrValueModel::ExprContainer(*h),
            JsxAttrValue::Call(c) => AttrValueModel::Call(c.deep_view()),
            JsxAttrValue::OtherValue(h) => AttrValueModel::OtherValue(*h),
        }
    }
}

impl DeepView for JsxAttr {
    type V = AttrModel;

    open spec fn deep_view(&self) -> AttrModel {
        AttrModel { name: self.name@, value: self.value.deep_view() }
    }
}

/// Model of a child, defined by recursion on the tree.
pub open spec fn child_model(c: JsxChild) -> ChildModel
    decreases c,
{
    match c {
        JsxChild::Element(e) => ChildModel::Element(elem_model(e)),
        JsxChild::OtherChild(h) => ChildModel::OtherChild(h),
    }
}

/// Models of a sequence of children, in order.
pub open spec fn children_model(cs: Seq<JsxChild>) -> Seq<ChildModel>
    decreases cs,
{
    if cs.len() == 0 {
        Seq::empty()
    } else {
        seq![child_model(cs[0])] + children_model(cs.drop_first())
    }
}

/// Model of an element, defined by recursion on the tree.
pub open spec fn elem_model(e: JsxElement) -> ElemModel
    decreases e,
{
    ElemModel { attrs: e.attrs.deep_view(), children: children_model(e.children@) }
}

/// The models of the elements of `s`, in order.
pub open spec fn dv_seq<T: DeepView>(s: Seq<T>) -> Seq<T::V> {
    Seq::new(s.len(), |i: int| s[i].deep_view())
}

/// A vector's deep view is the element-wise view of its contents.
pub broadcast proof fn lemma_vec_deep_view<T: DeepView>(v: Vec<T>)
    ensures
        #[trigger] v.deep_view() == dv_seq(v@),
{
    assert(v.deep_view() =~= dv_seq(v@));
}

/// Element-wise views distribute over `push`.
pub broadcast proof fn lemma_dv_seq_push<T: DeepView>(s: Seq<T>, x: T)
    ensures
        #[trigger] dv_seq(s.push(x)) == dv_seq(s).push(x.deep_view()),
{
    assert(dv_seq(s.push(x)) =~= dv_seq(s).push(x.deep_view()));
}

/// Element-wise views distribute over concatenation.
pub broadcast proof fn lemma_dv_seq_add<T: DeepView>(a: Seq<T>, b: Seq<T>)
    ensures
        #[trigger] dv_seq(a + b) == dv_seq(a) + dv_seq(b),
{
    assert(dv_seq(a + b) =~= dv_seq(a) + dv_seq(b));
}

/// Element-wise views distribute over `drop_first`.
pub broadcast proof fn lemma_dv_seq_drop_first<T: DeepView>(s: Seq<T>)
    requires
        s.len() > 0,
    ensures
        #[trigger] dv_seq(s.drop_first()) == dv_seq(s).drop_first(),
{
    assert(dv_seq(s.drop_first()) =~= dv_seq(s).drop_first());
}

/// `children_model` is the element-wise `child_model`.
pub proof fn lemma_children_model_pointwise(cs: Seq<JsxChild>)
    ensures
        children_model(cs).len() == cs.len(),
        forall|i: int| 0 <= i < cs.len() ==> children_model(cs)[i] == child_model(cs[i]),
    decreases cs.len(),
{
    if cs.len() > 0 {
        lemma_children_model_pointwise(cs.drop_first());
    }
}

impl DeepView for JsxChild {
    type V = ChildModel;

    open spec fn deep_view(&self) -> ChildModel {
        child_model(*self)
    }
}

impl DeepView for JsxElement {
    type V = ElemModel;

    open spec fn deep_view(&self) -> ElemModel {
        elem_model(*self)
    }
}

impl View for JsxElement {
    type V = ElemModel;

    open spec fn view(&self) -> ElemModel {
        elem_model(*self)
    }
}

} // verus!
