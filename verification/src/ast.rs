//! The tree model the transform works on.
//!
//! Each type holds, as plain values, exactly the fields the transform reads
//! or builds. Every node the transform never inspects — a statement body, a
//! function or class payload, an arbitrary expression — is carried as an
//! opaque `u64` token; the caller keeps the mapping from token to its own
//! tree node and reproduces the node when it serializes the output.
//!
//! Every executable type has a view into a mirror `Spec...` type over `Seq`
//! and `Seq<char>`, so that contracts can state synthesized trees exactly.

use vstd::prelude::*;

verus! {

/// A position in the original source text, carried onto synthesized import
/// declarations so that diagnostics can point at the specifier they replace.
#[derive(Debug, Clone, Copy, PartialEq, Eq, Structural)]
pub struct SrcSpan {
    pub lo: u32,
    pub hi: u32,
}

/// The span given to nodes that have no counterpart in the source text.
pub open spec fn spec_dummy_span() -> SrcSpan {
    SrcSpan { lo: 0, hi: 0 }
}

/// Executable counterpart of [`spec_dummy_span`].
pub fn dummy_span() -> (s: SrcSpan)
    ensures
        s == spec_dummy_span(),
{
    SrcSpan { lo: 0, hi: 0 }
}

/// An expression, at the granularity the transform reads and builds.
#[derive(Debug, PartialEq, Eq)]
pub enum Expr {
    /// a reference to an identifier
    Ident(String),
    /// a string literal
    Str(String),
    /// the `null` literal
    Null,
    /// `obj.prop`, with a plain identifier as the property
    Member(Box<Expr>, String),
    /// `obj[index]`
    ComputedMember(Box<Expr>, Box<Expr>),
    /// `callee(arg, ...)`
    Call(Box<Expr>, Vec<Expr>),
    /// an object literal
    Object(Vec<ObjProp>),
    /// an uninspected expression of the source tree, by token
    Raw(u64),
}

/// One property of an object literal.
#[derive(Debug, PartialEq, Eq)]
pub enum ObjProp {
    /// `"key": value`
    KeyValue(String, Expr),
    /// `...value`
    Spread(Expr),
}

/// Mathematical mirror of [`Expr`].
pub ghost enum SpecExpr {
    Ident(Seq<char>),
    Str(Seq<char>),
    Null,
    Member(Box<SpecExpr>, Seq<char>),
    ComputedMember(Box<SpecExpr>, Box<SpecExpr>),
    Call(Box<SpecExpr>, Seq<SpecExpr>),
    Object(Seq<SpecObjProp>),
    Raw(u64),
}

/// Mathematical mirror of [`ObjProp`].
pub ghost enum SpecObjProp {
    KeyValue(Seq<char>, SpecExpr),
    Spread(SpecExpr),
}

pub open spec fn view_expr(e: Expr) -> SpecExpr
    decreases e,
{
    match e {
        Expr::Ident(s) => SpecExpr::Ident(s@),
        Expr::Str(s) => SpecExpr::Str(s@),
        Expr::Null => SpecExpr::Null,
        Expr::Member(o, p) => SpecExpr::Member(Box::new(view_expr(*o)), p@),
        Expr::ComputedMember(o, i) => SpecExpr::ComputedMember(
            Box::new(view_expr(*o)),
            Box::new(view_expr(*i)),
        ),
        Expr::Call(c, args) => SpecExpr::Call(Box::new(view_expr(*c)), view_exprs(args@)),
        Expr::Object(props) => SpecExpr::Object(view_obj_props(props@)),
        Expr::Raw(t) => SpecExpr::Raw(t),
    }
}

pub open spec fn view_exprs(v: Seq<Expr>) -> Seq<SpecExpr>
    decreases v,
{
    if v.len() == 0 {
        Seq::empty()
    } else {
        view_exprs(v.subrange(0, v.len() - 1)).push(view_expr(v[v.len() - 1]))
    }
}

pub open spec fn view_obj_props(v: Seq<ObjProp>) -> Seq<SpecObjProp>
    decreases v,
{
    if v.len() == 0 {
        Seq::empty()
    } else {
        view_obj_props(v.subrange(0, v.len() - 1)).push(view_obj_prop(v[v.len() - 1]))
    }
}

pub open spec fn view_obj_prop(p: ObjProp) -> SpecObjProp
    decreases p,
{
    match p {
        ObjProp::KeyValue(k, v) => SpecObjProp::KeyValue(k@, view_expr(v)),
        ObjProp::Spread(v) => SpecObjProp::Spread(view_expr(v)),
    }
}

/// A vector's deep view is its element-wise deep view.
pub broadcast proof fn lemma_deep_view_pointwise<T: DeepView>(v: Vec<T>)
    ensures
        (#[trigger] v.deep_view()).len() == v@.len(),
        forall|j: int| 0 <= j < v@.len() ==> v.deep_view()[j] == v@[j].deep_view(),
{
}

/// `view_exprs` maps `view_expr` over a sequence, element by element.
pub proof fn lemma_view_exprs(v: Seq<Expr>)
    ensures
        view_exprs(v).len() == v.len(),
        forall|i: int| 0 <= i < v.len() ==> view_exprs(v)[i] == view_expr(v[i]),
    decreases v,
{
    if v.len() > 0 {
        lemma_view_exprs(v.subrange(0, v.len() - 1));
    }
}

/// `view_obj_props` maps `view_obj_prop` over a sequence, element by element.
pub proof fn lemma_view_obj_props(v: Seq<ObjProp>)
    ensures
        view_obj_props(v).len() == v.len(),
        forall|i: int| 0 <= i < v.len() ==> view_obj_props(v)[i] == view_obj_prop(v[i]),
    decreases v,
{
    if v.len() > 0 {
        lemma_view_obj_props(v.subrange(0, v.len() - 1));
    }
}

impl View for Expr {
    type V = SpecExpr;

    open spec fn view(&self) -> SpecExpr {
        view_expr(*self)
    }
}

impl DeepView for Expr {
    type V = SpecExpr;

    open spec fn deep_view(&self) -> SpecExpr {
        view_expr(*self)
    }
}

impl View for ObjProp {
    type V = SpecObjProp;

    open spec fn view(&self) -> SpecObjProp {
        view_obj_prop(*self)
    }
}

impl DeepView for ObjProp {
    type V = SpecObjProp;

    open spec fn deep_view(&self) -> SpecObjProp {
        view_obj_prop(*self)
    }
}

/// A declaration, at the granularity the transform reads it.
#[derive(Debug, PartialEq, Eq)]
pub enum Decl {
    /// a variable declaration; `name` is the first declarator's binding when
    /// that binding is a plain identifier
    Var { decl_ref: u64, name: Option<String> },
    /// `function name(...) {...}`
    Fn { name: String, fn_ref: u64 },
    /// `class name {...}`
    Class { name: String, class_ref: u64 },
    /// any other declaration form
    Other { decl_ref: u64 },
}

/// Mathematical mirror of [`Decl`].
pub ghost enum SpecDecl {
    Var { decl_ref: u64, name: Option<Seq<char>> },
    Fn { name: Seq<char>, fn_ref: u64 },
    Class { name: Seq<char>, class_ref: u64 },
    Other { decl_ref: u64 },
}

pub open spec fn view_decl(d: Decl) -> SpecDecl {
    match d {
        Decl::Var { decl_ref, name } => SpecDecl::Var { decl_ref, name: name.deep_view() },
        Decl::Fn { name, fn_ref } => SpecDecl::Fn { name: name@, fn_ref },
        Decl::Class { name, class_ref } => SpecDecl::Class { name: name@, class_ref },
        Decl::Other { decl_ref } => SpecDecl::Other { decl_ref },
    }
}

impl View for Decl {
    type V = SpecDecl;

    open spec fn view(&self) -> SpecDecl {
        view_decl(*self)
    }
}

impl DeepView for Decl {
    type V = SpecDecl;

    open spec fn deep_view(&self) -> SpecDecl {
        view_decl(*self)
    }
}

/// A top-level statement that is not a module declaration.
#[derive(Debug, PartialEq, Eq)]
pub enum Stmt {
    /// `var name = init;`, the shape of every synthesized declaration
    VarDecl { span: SrcSpan, name: String, init: Expr },
    /// a declaration statement
    Decl(Decl),
    /// an expression statement
    Expr(Expr),
    /// any other statement of the source tree, by token
    Raw(u64),
}

/// Mathematical mirror of [`Stmt`].
pub ghost enum SpecStmt {
    VarDecl { span: SrcSpan, name: Seq<char>, init: SpecExpr },
    Decl(SpecDecl),
    Expr(SpecExpr),
    Raw(u64),
}

pub open spec fn view_stmt(s: Stmt) -> SpecStmt {
    match s {
        Stmt::VarDecl { span, name, init } => SpecStmt::VarDecl {
            span,
            name: name@,
            init: view_expr(init),
        },
        Stmt::Decl(d) => SpecStmt::Decl(view_decl(d)),
        Stmt::Expr(e) => SpecStmt::Expr(view_expr(e)),
        Stmt::Raw(t) => SpecStmt::Raw(t),
    }
}

impl View for Stmt {
    type V = SpecStmt;

    open spec fn view(&self) -> SpecStmt {
        view_stmt(*self)
    }
}

impl DeepView for Stmt {
    type V = SpecStmt;

    open spec fn deep_view(&self) -> SpecStmt {
        view_stmt(*self)
    }
}

/// The declaration carried by `export default <function|class> ...`.
#[derive(Debug, PartialEq, Eq)]
pub enum DefaultDecl {
    /// `export default function [name](...) {...}`
    Fn { name: Option<String>, fn_ref: u64 },
    /// `export default class [name] {...}`
    Class { name: Option<String>, class_ref: u64 },
    /// any other default declaration form
    Other { decl_ref: u64 },
}

/// Mathematical mirror of [`DefaultDecl`].
pub ghost enum SpecDefaultDecl {
    Fn { name: Option<Seq<char>>, fn_ref: u64 },
    Class { name: Option<Seq<char>>, class_ref: u64 },
    Other { decl_ref: u64 },
}

pub open spec fn view_default_decl(d: DefaultDecl) -> SpecDefaultDecl {
    match d {
        DefaultDecl::Fn { name, fn_ref } => SpecDefaultDecl::Fn {
            name: name.deep_view(),
            fn_ref,
        },
        DefaultDecl::Class { name, class_ref } => SpecDefaultDecl::Class {
            name: name.deep_view(),
            class_ref,
        },
        DefaultDecl::Other { decl_ref } => SpecDefaultDecl::Other { decl_ref },
    }
}

impl View for DefaultDecl {
    type V = SpecDefaultDecl;

    open spec fn view(&self) -> SpecDefaultDecl {
        view_default_decl(*self)
    }
}

impl DeepView for DefaultDecl {
    type V = SpecDefaultDecl;

    open spec fn deep_view(&self) -> SpecDefaultDecl {
        view_default_decl(*self)
    }
}

/// One specifier of an import declaration.
#[derive(Debug, PartialEq, Eq)]
pub enum ImportSpecifier {
    /// `import local from '...'`
    Default { span: SrcSpan, local: String },
    /// `import { local } from '...'` or `import { imported as local } from '...'`
    Named { span: SrcSpan, local: String },
    /// `import * as local from '...'`
    Namespace { span: SrcSpan, local: String },
}

/// Mathematical mirror of [`ImportSpecifier`].
pub ghost enum SpecImportSpecifier {
    Default { span: SrcSpan, local: Seq<char> },
    Named { span: SrcSpan, local: Seq<char> },
    Namespace { span: SrcSpan, local: Seq<char> },
}

pub open spec fn view_import_specifier(s: ImportSpecifier) -> SpecImportSpecifier {
    match s {
        ImportSpecifier::Default { span, local } => SpecImportSpecifier::Default {
            span,
            local: local@,
        },
        ImportSpecifier::Named { span, local } => SpecImportSpecifier::Named {
            span,
            local: local@,
        },
        ImportSpecifier::Namespace { span, local } => SpecImportSpecifier::Namespace {
            span,
            local: local@,
        },
    }
}

impl View for ImportSpecifier {
    type V = SpecImportSpecifier;

    open spec fn view(&self) -> SpecImportSpecifier {
        view_import_specifier(*self)
    }
}

impl DeepView for ImportSpecifier {
    type V = SpecImportSpecifier;

    open spec fn deep_view(&self) -> SpecImportSpecifier {
        view_import_specifier(*self)
    }
}

/// An exported or re-exported name: a plain identifier or a string literal.
#[derive(Debug, PartialEq, Eq)]
pub enum ModuleExportName {
    Ident(String),
    Str(String),
}

/// Mathematical mirror of [`ModuleExportName`].
pub ghost enum SpecModuleExportName {
    Ident(Seq<char>),
    Str(Seq<char>),
}

pub open spec fn view_module_export_name(n: ModuleExportName) -> SpecModuleExportName {
    match n {
        ModuleExportName::Ident(s) => SpecModuleExportName::Ident(s@),
        ModuleExportName::Str(s) => SpecModuleExportName::Str(s@),
    }
}

impl View for ModuleExportName {
    type V = SpecModuleExportName;

    open spec fn view(&self) -> SpecModuleExportName {
        view_module_export_name(*self)
    }
}

impl DeepView for ModuleExportName {
    type V = SpecModuleExportName;

    open spec fn deep_view(&self) -> SpecModuleExportName {
        view_module_export_name(*self)
    }
}

/// One specifier of an `export { ... }` declaration.
#[derive(Debug, PartialEq, Eq)]
pub enum ExportSpecifier {
    /// `export { orig }` or `export { orig as exported }`
    Named { span: SrcSpan, orig: ModuleExportName, exported: Option<ModuleExportName> },
    /// `export * as name from '...'`
    Namespace { span: SrcSpan, name: ModuleExportName },
    /// `export default_binding from '...'` (a proposal-stage form; ignored)
    Default { span: SrcSpan, local: String },
}

/// Mathematical mirror of [`ExportSpecifier`].
pub ghost enum SpecExportSpecifier {
    Named { span: SrcSpan, orig: SpecModuleExportName, exported: Option<SpecModuleExportName> },
    Namespace { span: SrcSpan, name: SpecModuleExportName },
    Default { span: SrcSpan, local: Seq<char> },
}

pub open spec fn view_export_specifier(s: ExportSpecifier) -> SpecExportSpecifier {
    match s {
        ExportSpecifier::Named { span, orig, exported } => SpecExportSpecifier::Named {
            span,
            orig: view_module_export_name(orig),
            exported: exported.deep_view(),
        },
        ExportSpecifier::Namespace { span, name } => SpecExportSpecifier::Namespace {
            span,
            name: view_module_export_name(name),
        },
        ExportSpecifier::Default { span, local } => SpecExportSpecifier::Default {
            span,
            local: local@,
        },
    }
}

impl View for ExportSpecifier {
    type V = SpecExportSpecifier;

    open spec fn view(&self) -> SpecExportSpecifier {
        view_export_specifier(*self)
    }
}

impl DeepView for ExportSpecifier {
    type V = SpecExportSpecifier;

    open spec fn deep_view(&self) -> SpecExportSpecifier {
        view_export_specifier(*self)
    }
}

/// One item of a module's top-level statement list.
#[derive(Debug, PartialEq, Eq)]
pub enum ModuleItem {
    /// a statement that is not a module declaration
    Stmt(Stmt),
    /// `import ... from 'src';`
    Import { item_ref: u64, src: String, specifiers: Vec<ImportSpecifier> },
    /// `export <var|function|class> ...;`
    ExportDecl { item_ref: u64, decl: Decl },
    /// `export default <function|class> ...;`
    ExportDefaultDecl { item_ref: u64, decl: DefaultDecl },
    /// `export default <expression>;`
    ExportDefaultExpr { span: SrcSpan, expr: Expr },
    /// `export { ... };`, with or without a `from 'src'` clause
    ExportNamed {
        item_ref: u64,
        src: Option<String>,
        specifiers: Vec<ExportSpecifier>,
        type_only: bool,
    },
    /// `export * from 'src';`
    ExportAll { item_ref: u64, src: String, type_only: bool },
    /// any other module declaration
    OtherModuleDecl { item_ref: u64 },
}

/// Mathematical mirror of [`ModuleItem`].
pub ghost enum SpecModuleItem {
    Stmt(SpecStmt),
    Import { item_ref: u64, src: Seq<char>, specifiers: Seq<SpecImportSpecifier> },
    ExportDecl { item_ref: u64, decl: SpecDecl },
    ExportDefaultDecl { item_ref: u64, decl: SpecDefaultDecl },
    ExportDefaultExpr { span: SrcSpan, expr: SpecExpr },
    ExportNamed {
        item_ref: u64,
        src: Option<Seq<char>>,
        specifiers: Seq<SpecExportSpecifier>,
        type_only: bool,
    },
    ExportAll { item_ref: u64, src: Seq<char>, type_only: bool },
    OtherModuleDecl { item_ref: u64 },
}

pub open spec fn view_module_item(m: ModuleItem) -> SpecModuleItem {
    match m {
        ModuleItem::Stmt(s) => SpecModuleItem::Stmt(view_stmt(s)),
        ModuleItem::Import { item_ref, src, specifiers } => SpecModuleItem::Import {
            item_ref,
            src: src@,
            specifiers: specifiers.deep_view(),
        },
        ModuleItem::ExportDecl { item_ref, decl } => SpecModuleItem::ExportDecl {
            item_ref,
            decl: view_decl(decl),
        },
        ModuleItem::ExportDefaultDecl { item_ref, decl } => SpecModuleItem::ExportDefaultDecl {
            item_ref,
            decl: view_default_decl(decl),
        },
        ModuleItem::ExportDefaultExpr { span, expr } => SpecModuleItem::ExportDefaultExpr {
            span,
            expr: view_expr(expr),
        },
        ModuleItem::ExportNamed { item_ref, src, specifiers, type_only } => {
            SpecModuleItem::ExportNamed {
                item_ref,
                src: src.deep_view(),
                specifiers: specifiers.deep_view(),
                type_only,
            }
        },
        ModuleItem::ExportAll { item_ref, src, type_only } => SpecModuleItem::ExportAll {
            item_ref,
            src: src@,
            type_only,
        },
        ModuleItem::OtherModuleDecl { item_ref } => SpecModuleItem::OtherModuleDecl { item_ref },
    }
}

impl View for ModuleItem {
    type V = SpecModuleItem;

    open spec fn view(&self) -> SpecModuleItem {
        view_module_item(*self)
    }
}

impl DeepView for ModuleItem {
    type V = SpecModuleItem;

    open spec fn deep_view(&self) -> SpecModuleItem {
        view_module_item(*self)
    }
}

} // verus!
