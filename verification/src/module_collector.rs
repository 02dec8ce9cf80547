//! The declaration collector.
//!
//! One pass over a module's top-level statement list extracts an
//! [`ImportModule`] record for every import binding and an [`ExportModule`]
//! record for every exported binding, in source order, and produces the
//! replacement statement list: module declarations are dropped or normalized
//! into plain statements in runtime-module mode, or kept alongside the
//! collected records in bundle mode. A module-level construct outside the
//! enumerated forms — type-only export forms included — is passed through
//! unchanged in both modes and contributes no records; the pass never fails.
//!
//! The whole pass is specified by the pure function [`spec_collect`]; the
//! executable collector is proved to compute exactly that.

use vstd::prelude::*;

use crate::ast::{
    Decl, DefaultDecl, ExportSpecifier, Expr, ImportSpecifier, ModuleExportName, ModuleItem,
    SpecDecl, SpecDefaultDecl, SpecExportSpecifier, SpecImportSpecifier, SpecModuleExportName,
    SpecModuleItem, SpecStmt, SrcSpan, Stmt, dummy_span, spec_dummy_span,
};
use crate::fresh::{fresh_name, spec_fresh};

verus! {

broadcast use crate::ast::lemma_deep_view_pointwise;

/// How a binding is imported or exported: the `default` slot, a specific
/// named binding, or an entire namespace (`import * as X`, `export * from`).
#[derive(Debug, Clone, Copy, PartialEq, Eq, Structural)]
pub enum ModuleType {
    Default,
    Named,
    NamespaceOrAll,
}

/// One binding to be pulled from another module.
#[derive(Debug, PartialEq, Eq)]
pub struct ImportModule {
    /// original source location, anchoring the synthesized declaration
    pub span: SrcSpan,
    /// the identifier the binding is assigned to in the current module
    pub ident: String,
    /// the string specifier of the module imported from
    pub module_src: String,
    pub module_type: ModuleType,
}

/// Mathematical mirror of [`ImportModule`].
pub ghost struct SpecImportModule {
    pub span: SrcSpan,
    pub ident: Seq<char>,
    pub module_src: Seq<char>,
    pub module_type: ModuleType,
}

impl View for ImportModule {
    type V = SpecImportModule;

    open spec fn view(&self) -> SpecImportModule {
        SpecImportModule {
            span: self.span,
            ident: self.ident@,
            module_src: self.module_src@,
            module_type: self.module_type,
        }
    }
}

impl DeepView for ImportModule {
    type V = SpecImportModule;

    open spec fn deep_view(&self) -> SpecImportModule {
        self.view()
    }
}

/// One binding the module makes available.
#[derive(Debug, PartialEq, Eq)]
pub struct ExportModule {
    /// `a` in `export { a as b };`: the identifier holding the value
    pub ident: String,
    /// `b` in `export { a as b };`: the public name, when it differs
    pub as_ident: Option<String>,
    pub module_type: ModuleType,
}

/// Mathematical mirror of [`ExportModule`].
pub ghost struct SpecExportModule {
    pub ident: Seq<char>,
    pub as_ident: Option<Seq<char>>,
    pub module_type: ModuleType,
}

impl View for ExportModule {
    type V = SpecExportModule;

    open spec fn view(&self) -> SpecExportModule {
        SpecExportModule {
            ident: self.ident@,
            as_ident: self.as_ident.deep_view(),
            module_type: self.module_type,
        }
    }
}

impl DeepView for ExportModule {
    type V = SpecExportModule;

    open spec fn deep_view(&self) -> SpecExportModule {
        self.view()
    }
}

/// The export record for the `default` slot, bound to `ident`.
pub open spec fn spec_default_export(ident: Seq<char>) -> SpecExportModule {
    SpecExportModule { ident, as_ident: None, module_type: ModuleType::Default }
}

/// The export record of a named binding, published as `as_ident` when given.
pub open spec fn spec_named_export(ident: Seq<char>, as_ident: Option<Seq<char>>)
    -> SpecExportModule {
    SpecExportModule { ident, as_ident, module_type: ModuleType::Named }
}

impl ExportModule {
    /// The record for the `default` slot, bound to `ident`.
    pub fn default(ident: String) -> (r: Self)
        ensures
            r@ == spec_default_export(ident@),
    {
        ExportModule { ident, as_ident: None, module_type: ModuleType::Default }
    }

    /// The record of a named binding, published as `as_ident` when given.
    pub fn named(ident: String, as_ident: Option<String>) -> (r: Self)
        ensures
            r@ == spec_named_export(ident@, as_ident.deep_view()),
    {
        ExportModule { ident, as_ident, module_type: ModuleType::Named }
    }
}

/// The import record of one import specifier of a declaration from `src`.
pub open spec fn spec_import_record(src: Seq<char>, sp: SpecImportSpecifier) -> SpecImportModule {
    match sp {
        SpecImportSpecifier::Default { span, local } => SpecImportModule {
            span,
            ident: local,
            module_src: src,
            module_type: ModuleType::Default,
        },
        SpecImportSpecifier::Named { span, local } => SpecImportModule {
            span,
            ident: local,
            module_src: src,
            module_type: ModuleType::Named,
        },
        SpecImportSpecifier::Namespace { span, local } => SpecImportModule {
            span,
            ident: local,
            module_src: src,
            module_type: ModuleType::NamespaceOrAll,
        },
    }
}

/// One import record per specifier, in order.
pub open spec fn spec_import_records(src: Seq<char>, sps: Seq<SpecImportSpecifier>)
    -> Seq<SpecImportModule> {
    sps.map_values(|sp: SpecImportSpecifier| spec_import_record(src, sp))
}

/// The export records of `export <var|function|class> ...`: one named record
/// for the declared name, when the declaration carries one.
pub open spec fn spec_export_decl_records(d: SpecDecl) -> Seq<SpecExportModule> {
    match d {
        SpecDecl::Var { name: Some(n), .. } => seq![spec_named_export(n, None)],
        SpecDecl::Var { name: None, .. } => Seq::empty(),
        SpecDecl::Fn { name, .. } => seq![spec_named_export(name, None)],
        SpecDecl::Class { name, .. } => seq![spec_named_export(name, None)],
        SpecDecl::Other { .. } => Seq::empty(),
    }
}

/// The export records of one specifier of a local `export { ... }` list:
/// one named record when the original name is a plain identifier, published
/// under its alias when the alias is a plain identifier too.
pub open spec fn spec_export_specifier_records(sp: SpecExportSpecifier) -> Seq<SpecExportModule> {
    match sp {
        SpecExportSpecifier::Named { orig: SpecModuleExportName::Ident(o), exported, .. } => {
            match exported {
                Some(SpecModuleExportName::Ident(a)) => seq![spec_named_export(o, Some(a))],
                _ => seq![spec_named_export(o, None)],
            }
        },
        _ => Seq::empty(),
    }
}

/// The export records of a whole `export { ... }` specifier list.
pub open spec fn spec_local_export_records(sps: Seq<SpecExportSpecifier>)
    -> Seq<SpecExportModule>
    decreases sps.len(),
{
    if sps.len() == 0 {
        Seq::empty()
    } else {
        spec_local_export_records(sps.drop_last()) + spec_export_specifier_records(sps.last())
    }
}

/// The import records of one specifier of `export { ... } from 'src'`.
pub open spec fn spec_reexport_import_record(src: Seq<char>, sp: SpecExportSpecifier)
    -> Seq<SpecImportModule> {
    match sp {
        SpecExportSpecifier::Named { span, orig: SpecModuleExportName::Ident(o), .. } => {
            seq![SpecImportModule {
                span,
                ident: o,
                module_src: src,
                module_type: ModuleType::Named,
            }]
        },
        _ => Seq::empty(),
    }
}

/// The import records of a whole `export { ... } from 'src'` specifier list.
pub open spec fn spec_reexport_import_records(src: Seq<char>, sps: Seq<SpecExportSpecifier>)
    -> Seq<SpecImportModule>
    decreases sps.len(),
{
    if sps.len() == 0 {
        Seq::empty()
    } else {
        spec_reexport_import_records(src, sps.drop_last())
            + spec_reexport_import_record(src, sps.last())
    }
}

/// Whether a re-export list is the namespace form `export * as x from 'src'`:
/// its first specifier is a namespace specifier with an identifier name.
pub open spec fn spec_is_namespace_reexport(sps: Seq<SpecExportSpecifier>) -> bool {
    sps.len() > 0 && (sps[0] matches SpecExportSpecifier::Namespace {
        name: SpecModuleExportName::Ident(_),
        ..
    })
}

/// What handling `export default <function|class> ...` yields: the identifier
/// the default export is bound to, the plain statement that replaces the
/// declaration, and the taken-name list after the step; `None` when the
/// declaration is neither a function nor a class and is passed through.
pub open spec fn spec_default_decl_result(taken: Seq<Seq<char>>, d: SpecDefaultDecl)
    -> Option<(Seq<char>, SpecStmt, Seq<Seq<char>>)> {
    match d {
        SpecDefaultDecl::Fn { name: Some(n), fn_ref } => Some((
            n,
            SpecStmt::Decl(SpecDecl::Fn { name: n, fn_ref }),
            taken,
        )),
        SpecDefaultDecl::Fn { name: None, fn_ref } => {
            let f = spec_fresh(taken, "__export_default"@);
            Some((
                f,
                SpecStmt::VarDecl {
                    span: spec_dummy_span(),
                    name: f,
                    init: crate::ast::SpecExpr::Raw(fn_ref),
                },
                taken.push(f),
            ))
        },
        SpecDefaultDecl::Class { name: Some(n), class_ref } => Some((
            n,
            SpecStmt::Decl(SpecDecl::Class { name: n, class_ref }),
            taken,
        )),
        SpecDefaultDecl::Class { name: None, class_ref } => {
            let f = spec_fresh(taken, "__export_default"@);
            Some((
                f,
                SpecStmt::VarDecl {
                    span: spec_dummy_span(),
                    name: f,
                    init: crate::ast::SpecExpr::Raw(class_ref),
                },
                taken.push(f),
            ))
        },
        SpecDefaultDecl::Other { .. } => None,
    }
}

/// The collector's accumulated result: the replacement statement list, the
/// records in source order, and the names in use.
pub ghost struct SpecCollectState {
    pub body: Seq<SpecModuleItem>,
    pub imports: Seq<SpecImportModule>,
    pub exports: Seq<SpecExportModule>,
    pub taken: Seq<Seq<char>>,
}

/// The native `export default <ident>;` statement re-emitted in bundle mode.
pub open spec fn spec_default_export_item(name: Seq<char>) -> SpecModuleItem {
    SpecModuleItem::ExportDefaultExpr {
        span: spec_dummy_span(),
        expr: crate::ast::SpecExpr::Ident(name),
    }
}

/// How one top-level item advances the collector.
pub open spec fn spec_collect_item(runtime: bool, st: SpecCollectState, item: SpecModuleItem)
    -> SpecCollectState {
    match item {
        SpecModuleItem::Stmt(_) => SpecCollectState { body: st.body.push(item), ..st },
        SpecModuleItem::Import { src, specifiers, .. } => SpecCollectState {
            imports: st.imports + spec_import_records(src, specifiers),
            body: if runtime {
                st.body
            } else {
                st.body.push(item)
            },
            ..st
        },
        SpecModuleItem::ExportDecl { decl, .. } => SpecCollectState {
            exports: st.exports + spec_export_decl_records(decl),
            body: if runtime {
                st.body.push(SpecModuleItem::Stmt(SpecStmt::Decl(decl)))
            } else {
                st.body.push(item)
            },
            ..st
        },
        SpecModuleItem::ExportDefaultDecl { decl, .. } => {
            match spec_default_decl_result(st.taken, decl) {
                Some((name, stmt, taken2)) => SpecCollectState {
                    exports: st.exports.push(spec_default_export(name)),
                    taken: taken2,
                    body: if runtime {
                        st.body.push(SpecModuleItem::Stmt(stmt))
                    } else {
                        st.body.push(SpecModuleItem::Stmt(stmt)).push(
                            spec_default_export_item(name),
                        )
                    },
                    ..st
                },
                None => SpecCollectState { body: st.body.push(item), ..st },
            }
        },
        SpecModuleItem::ExportDefaultExpr { expr, .. } => {
            let f = spec_fresh(st.taken, "__export_default"@);
            let stmt = SpecStmt::VarDecl { span: spec_dummy_span(), name: f, init: expr };
            SpecCollectState {
                exports: st.exports.push(spec_default_export(f)),
                taken: st.taken.push(f),
                body: if runtime {
                    st.body.push(SpecModuleItem::Stmt(stmt))
                } else {
                    st.body.push(SpecModuleItem::Stmt(stmt)).push(spec_default_export_item(f))
                },
                ..st
            }
        },
        SpecModuleItem::ExportNamed { src, specifiers, type_only, .. } => {
            if type_only {
                SpecCollectState { body: st.body.push(item), ..st }
            } else {
                let body2 = if runtime {
                    st.body
                } else {
                    st.body.push(item)
                };
                match src {
                    None => SpecCollectState {
                        exports: st.exports + spec_local_export_records(specifiers),
                        body: body2,
                        ..st
                    },
                    Some(m) => {
                        if spec_is_namespace_reexport(specifiers) {
                            let f = spec_fresh(st.taken, "__export_named"@);
                            let alias = specifiers[0]->Namespace_name->Ident_0;
                            let sp_span = specifiers[0]->Namespace_span;
                            SpecCollectState {
                                imports: st.imports.push(SpecImportModule {
                                    span: sp_span,
                                    ident: f,
                                    module_src: m,
                                    module_type: ModuleType::NamespaceOrAll,
                                }),
                                exports: st.exports.push(SpecExportModule {
                                    ident: f,
                                    as_ident: Some(alias),
                                    module_type: ModuleType::NamespaceOrAll,
                                }),
                                taken: st.taken.push(f),
                                body: body2,
                            }
                        } else {
                            SpecCollectState {
                                imports: st.imports + spec_reexport_import_records(m, specifiers),
                                exports: st.exports + spec_local_export_records(specifiers),
                                body: body2,
                                ..st
                            }
                        }
                    },
                }
            }
        },
        SpecModuleItem::ExportAll { src, type_only, .. } => {
            if type_only {
                SpecCollectState { body: st.body.push(item), ..st }
            } else {
                let f = spec_fresh(st.taken, "__export_all"@);
                SpecCollectState {
                    imports: st.imports.push(SpecImportModule {
                        span: spec_dummy_span(),
                        ident: f,
                        module_src: src,
                        module_type: ModuleType::NamespaceOrAll,
                    }),
                    exports: st.exports.push(SpecExportModule {
                        ident: f,
                        as_ident: None,
                        module_type: ModuleType::NamespaceOrAll,
                    }),
                    taken: st.taken.push(f),
                    body: if runtime {
                        st.body
                    } else {
                        st.body.push(item)
                    },
                }
            }
        },
        SpecModuleItem::OtherModuleDecl { .. } => SpecCollectState {
            body: st.body.push(item),
            ..st
        },
    }
}

/// The collector's pass over a whole item list, left to right.
pub open spec fn spec_collect(runtime: bool, st: SpecCollectState, items: Seq<SpecModuleItem>)
    -> SpecCollectState
    decreases items.len(),
{
    if items.len() == 0 {
        st
    } else {
        spec_collect_item(runtime, spec_collect(runtime, st, items.drop_last()), items.last())
    }
}

/// The state a collector starts from: no records, no output, the caller's
/// taken names.
pub open spec fn spec_initial_state(taken: Seq<Seq<char>>) -> SpecCollectState {
    SpecCollectState {
        body: Seq::empty(),
        imports: Seq::empty(),
        exports: Seq::empty(),
        taken,
    }
}

/// The collect state a collector's records stand for: its records and names,
/// and no output yet.
pub open spec fn spec_state_of(c: SpecCollector) -> SpecCollectState {
    SpecCollectState {
        body: Seq::empty(),
        imports: c.imports,
        exports: c.exports,
        taken: c.taken_names,
    }
}

/// Folding one more item into the pass steps the accumulated state by
/// [`spec_collect_item`].
pub proof fn lemma_spec_collect_step(
    runtime: bool,
    st: SpecCollectState,
    items: Seq<SpecModuleItem>,
    i: int,
)
    requires
        0 <= i < items.len(),
    ensures
        spec_collect(runtime, st, items.take(i + 1)) == spec_collect_item(
            runtime,
            spec_collect(runtime, st, items.take(i)),
            items[i],
        ),
{
    assert(items.take(i + 1).drop_last() =~= items.take(i));
    assert(items.take(i + 1).last() == items[i]);
}

/// The stateful visitor owning the records collected so far, the operating
/// mode, and the top-level names in use (the fresh-name generator's seed).
pub struct ModuleCollector {
    pub imports: Vec<ImportModule>,
    pub exports: Vec<ExportModule>,
    runtime_module: bool,
    taken_names: Vec<String>,
}

/// Mathematical mirror of [`ModuleCollector`].
pub ghost struct SpecCollector {
    pub imports: Seq<SpecImportModule>,
    pub exports: Seq<SpecExportModule>,
    pub runtime_module: bool,
    pub taken_names: Seq<Seq<char>>,
}

impl View for ModuleCollector {
    type V = SpecCollector;

    closed spec fn view(&self) -> SpecCollector {
        SpecCollector {
            imports: self.imports.deep_view(),
            exports: self.exports.deep_view(),
            runtime_module: self.runtime_module,
            taken_names: self.taken_names.deep_view(),
        }
    }
}

impl ModuleCollector {
    /// A fresh collector: the given mode, no records yet, and the module's
    /// top-level binding names as the fresh-name generator's seed.
    pub fn default(runtime_module: bool, taken_names: Vec<String>) -> (r: Self)
        ensures
            r@ == (SpecCollector {
                imports: Seq::empty(),
                exports: Seq::empty(),
                runtime_module,
                taken_names: taken_names.deep_view(),
            }),
    {
        let r = ModuleCollector {
            runtime_module,
            imports: Vec::new(),
            exports: Vec::new(),
            taken_names,
        };
        proof {
            assert(r.imports.deep_view() =~= Seq::<SpecImportModule>::empty());
            assert(r.exports.deep_view() =~= Seq::<SpecExportModule>::empty());
        }
        r
    }

    /// Binds `expr` to a synthesized private identifier: returns the fresh
    /// identifier and the plain `var <ident> = <expr>;` declaration.
    fn get_export_decl_stmt_with_private_ident(&mut self, expr: Expr) -> (r: (String, Stmt))
        ensures
            r.0@ == spec_fresh(old(self)@.taken_names, "__export_default"@),
            r.1@ == (SpecStmt::VarDecl { span: spec_dummy_span(), name: r.0@, init: expr@ }),
            final(self)@ == (SpecCollector {
                taken_names: old(self)@.taken_names.push(r.0@),
                ..old(self)@
            }),
    {
        let export_ident = fresh_name(&self.taken_names, "__export_default");
        self.taken_names.push(export_ident.clone());
        proof {
            assert(self.taken_names.deep_view() =~= old(self)@.taken_names.push(export_ident@));
        }
        let stmt = crate::utils::decl_var_and_assign_stmt(export_ident.clone(), dummy_span(), expr);
        (export_ident, stmt)
    }

    /// The native `export default <ident>;` statement, re-emitted in bundle
    /// mode so that downstream native-module consumers still see the default.
    fn get_default_export_stmt(&mut self, ident: String) -> (r: ModuleItem)
        ensures
            r@ == spec_default_export_item(ident@),
            final(self)@ == old(self)@,
    {
        ModuleItem::ExportDefaultExpr { span: dummy_span(), expr: Expr::Ident(ident) }
    }

    /// Collects `export default <function|class> ...`: records the default
    /// export and returns the bound identifier with the plain declaration
    /// statement that replaces the form, or `None` for any other default
    /// declaration, which is passed through.
    fn collect_default_export_decl_and_convert_to_stmt(
        &mut self,
        export_default_decl: &DefaultDecl,
    ) -> (r: Option<(String, Stmt)>)
        ensures
            match spec_default_decl_result(
                old(self)@.taken_names,
                export_default_decl.deep_view(),
            ) {
                Some(parts) => {
                    &&& r matches Some(p) && p.0@ == parts.0 && p.1@ == parts.1
                    &&& final(self)@ == (SpecCollector {
                        exports: old(self)@.exports.push(spec_default_export(parts.0)),
                        taken_names: parts.2,
                        ..old(self)@
                    })
                },
                None => r is None && final(self)@ == old(self)@,
            },
    {
        match export_default_decl {
            DefaultDecl::Fn { name: Some(fn_ident), fn_ref } => {
                self.exports.push(ExportModule::default(fn_ident.clone()));
                proof {
                    assert(self.exports.deep_view() =~= old(self)@.exports.push(
                        spec_default_export(fn_ident@),
                    ));
                }
                Some((
                    fn_ident.clone(),
                    Stmt::Decl(Decl::Fn { name: fn_ident.clone(), fn_ref: *fn_ref }),
                ))
            },
            DefaultDecl::Fn { name: None, fn_ref } => {
                let (ident, stmt) = self.get_export_decl_stmt_with_private_ident(
                    Expr::Raw(*fn_ref),
                );
                self.exports.push(ExportModule::default(ident.clone()));
                proof {
                    assert(self.exports.deep_view() =~= old(self)@.exports.push(
                        spec_default_export(ident@),
                    ));
                }
                Some((ident, stmt))
            },
            DefaultDecl::Class { name: Some(class_ident), class_ref } => {
                self.exports.push(ExportModule::default(class_ident.clone()));
                proof {
                    assert(self.exports.deep_view() =~= old(self)@.exports.push(
                        spec_default_export(class_ident@),
                    ));
                }
                Some((
                    class_ident.clone(),
                    Stmt::Decl(Decl::Class { name: class_ident.clone(), class_ref: *class_ref }),
                ))
            },
            DefaultDecl::Class { name: None, class_ref } => {
                let (ident, stmt) = self.get_export_decl_stmt_with_private_ident(
                    Expr::Raw(*class_ref),
                );
                self.exports.push(ExportModule::default(ident.clone()));
                proof {
                    assert(self.exports.deep_view() =~= old(self)@.exports.push(
                        spec_default_export(ident@),
                    ));
                }
                Some((ident, stmt))
            },
            DefaultDecl::Other { .. } => None,
        }
    }

    /// Collects `export default <expression>`: binds the expression to a
    /// synthesized private identifier, records the default export, and
    /// returns the identifier with the binding statement.
    fn collect_default_export_expr_and_convert_to_stmt(&mut self, expr: Expr) -> (r: (
        String,
        Stmt,
    ))
        ensures
            r.0@ == spec_fresh(old(self)@.taken_names, "__export_default"@),
            r.1@ == (SpecStmt::VarDecl { span: spec_dummy_span(), name: r.0@, init: expr@ }),
            final(self)@ == (SpecCollector {
                exports: old(self)@.exports.push(spec_default_export(r.0@)),
                taken_names: old(self)@.taken_names.push(r.0@),
                ..old(self)@
            }),
    {
        let (ident, stmt) = self.get_export_decl_stmt_with_private_ident(expr);
        self.exports.push(ExportModule::default(ident.clone()));
        proof {
            assert(self.exports.deep_view() =~= old(self)@.exports.push(
                spec_default_export(ident@),
            ));
        }
        (ident, stmt)
    }

    /// Collects `export <var|function|class> ...`: one named record for the
    /// declared name, when there is one.
    fn collect_export_decl(&mut self, decl: &Decl)
        ensures
            final(self)@ == (SpecCollector {
                exports: old(self)@.exports + spec_export_decl_records(decl.deep_view()),
                ..old(self)@
            }),
    {
        match decl {
            Decl::Var { name: Some(var_ident), .. } => {
                self.exports.push(ExportModule::named(var_ident.clone(), None));
                proof {
                    assert(self.exports.deep_view() =~= old(self)@.exports
                        + spec_export_decl_records(decl.deep_view()));
                }
            },
            Decl::Var { name: None, .. } => {
                proof {
                    assert(self.exports.deep_view() =~= old(self)@.exports
                        + spec_export_decl_records(decl.deep_view()));
                }
            },
            Decl::Fn { name, .. } => {
                self.exports.push(ExportModule::named(name.clone(), None));
                proof {
                    assert(self.exports.deep_view() =~= old(self)@.exports
                        + spec_export_decl_records(decl.deep_view()));
                }
            },
            Decl::Class { name, .. } => {
                self.exports.push(ExportModule::named(name.clone(), None));
                proof {
                    assert(self.exports.deep_view() =~= old(self)@.exports
                        + spec_export_decl_records(decl.deep_view()));
                }
            },
            Decl::Other { .. } => {
                proof {
                    assert(self.exports.deep_view() =~= old(self)@.exports
                        + spec_export_decl_records(decl.deep_view()));
                }
            },
        }
    }

    /// Collects one specifier of a local `export { ... }` list.
    fn collect_export_named_specifier(&mut self, named_spec: &ExportSpecifier)
        ensures
            final(self)@ == (SpecCollector {
                exports: old(self)@.exports + spec_export_specifier_records(
                    named_spec.deep_view(),
                ),
                ..old(self)@
            }),
    {
        match named_spec {
            ExportSpecifier::Named { orig: ModuleExportName::Ident(orig_ident), exported, .. } => {
                match exported {
                    Some(ModuleExportName::Ident(as_ident)) => {
                        self.exports.push(ExportModule::named(
                            orig_ident.clone(),
                            Some(as_ident.clone()),
                        ));
                    },
                    _ => {
                        self.exports.push(ExportModule::named(orig_ident.clone(), None));
                    },
                }
                proof {
                    assert(self.exports.deep_view() =~= old(self)@.exports
                        + spec_export_specifier_records(named_spec.deep_view()));
                }
            },
            _ => {
                proof {
                    assert(self.exports.deep_view() =~= old(self)@.exports
                        + spec_export_specifier_records(named_spec.deep_view()));
                }
            },
        }
    }

    /// Collects `export * from 'src'`: a synthesized namespace import and a
    /// namespace export record that spreads it.
    fn collect_export_all(&mut self, src: &String)
        ensures
            ({
                let f = spec_fresh(old(self)@.taken_names, "__export_all"@);
                final(self)@ == (SpecCollector {
                    imports: old(self)@.imports.push(SpecImportModule {
                        span: spec_dummy_span(),
                        ident: f,
                        module_src: src@,
                        module_type: ModuleType::NamespaceOrAll,
                    }),
                    exports: old(self)@.exports.push(SpecExportModule {
                        ident: f,
                        as_ident: None,
                        module_type: ModuleType::NamespaceOrAll,
                    }),
                    taken_names: old(self)@.taken_names.push(f),
                    ..old(self)@
                })
            }),
    {
        let export_all_ident = fresh_name(&self.taken_names, "__export_all");
        self.taken_names.push(export_all_ident.clone());
        self.imports.push(ImportModule {
            span: dummy_span(),
            ident: export_all_ident.clone(),
            module_src: src.clone(),
            module_type: ModuleType::NamespaceOrAll,
        });
        self.exports.push(ExportModule {
            ident: export_all_ident,
            as_ident: None,
            module_type: ModuleType::NamespaceOrAll,
        });
        proof {
            let f = spec_fresh(old(self)@.taken_names, "__export_all"@);
            assert(self.taken_names.deep_view() =~= old(self)@.taken_names.push(f));
            assert(self.imports.deep_view() =~= old(self)@.imports.push(SpecImportModule {
                span: spec_dummy_span(),
                ident: f,
                module_src: src@,
                module_type: ModuleType::NamespaceOrAll,
            }));
            assert(self.exports.deep_view() =~= old(self)@.exports.push(SpecExportModule {
                ident: f,
                as_ident: None,
                module_type: ModuleType::NamespaceOrAll,
            }));
        }
    }

    /// Collects every specifier of `import ... from 'src'`: one record each,
    /// in order.
    fn collect_import_decl(&mut self, src: &String, specifiers: &Vec<ImportSpecifier>)
        ensures
            final(self)@ == (SpecCollector {
                imports: old(self)@.imports + spec_import_records(src@, specifiers.deep_view()),
                ..old(self)@
            }),
    {
        let ghost svs = specifiers.deep_view();
        let mut i: usize = 0;
        while i < specifiers.len()
            invariant
                i <= specifiers.len(),
                svs == specifiers.deep_view(),
                self.imports.deep_view() == old(self)@.imports + spec_import_records(
                    src@,
                    svs.take(i as int),
                ),
                self.exports.deep_view() == old(self)@.exports,
                self.taken_names.deep_view() == old(self)@.taken_names,
                self.runtime_module == old(self)@.runtime_module,
            decreases specifiers.len() - i,
        {
            let rec = match &specifiers[i] {
                ImportSpecifier::Default { span, local } => ImportModule {
                    span: *span,
                    ident: local.clone(),
                    module_src: src.clone(),
                    module_type: ModuleType::Default,
                },
                ImportSpecifier::Named { span, local } => ImportModule {
                    span: *span,
                    ident: local.clone(),
                    module_src: src.clone(),
                    module_type: ModuleType::Named,
                },
                ImportSpecifier::Namespace { span, local } => ImportModule {
                    span: *span,
                    ident: local.clone(),
                    module_src: src.clone(),
                    module_type: ModuleType::NamespaceOrAll,
                },
            };
            proof {
                let k = i as int;
                assert(svs[k] == specifiers@[k].deep_view());
                assert(rec@ == spec_import_record(src@, svs[k]));
            }
            let ghost pre_deep = self.imports.deep_view();
            self.imports.push(rec);
            proof {
                let k = i as int;
                assert(self.imports.deep_view() =~= pre_deep.push(rec@));
                assert(spec_import_records(src@, svs.take(k + 1)) =~= spec_import_records(
                    src@,
                    svs.take(k),
                ).push(spec_import_record(src@, svs[k])));
                assert(self.imports.deep_view() =~= old(self)@.imports + spec_import_records(
                    src@,
                    svs.take(k + 1),
                ));
            }
            i += 1;
        }
        proof {
            assert(svs.take(specifiers.len() as int) =~= svs);
        }
    }

    /// Collects `export { ... } from 'src'` with no leading namespace
    /// specifier: one import record per named specifier, then one export
    /// record per named specifier, in order.
    fn collect_reexport_specifiers(&mut self, module_src: &String, specifiers: &Vec<
        ExportSpecifier,
    >)
        ensures
            final(self)@ == (SpecCollector {
                imports: old(self)@.imports + spec_reexport_import_records(
                    module_src@,
                    specifiers.deep_view(),
                ),
                exports: old(self)@.exports + spec_local_export_records(specifiers.deep_view()),
                ..old(self)@
            }),
    {
        let ghost svs = specifiers.deep_view();
        let mut i: usize = 0;
        while i < specifiers.len()
            invariant
                i <= specifiers.len(),
                svs == specifiers.deep_view(),
                self.imports.deep_view() == old(self)@.imports + spec_reexport_import_records(
                    module_src@,
                    svs.take(i as int),
                ),
                self.exports.deep_view() == old(self)@.exports,
                self.taken_names.deep_view() == old(self)@.taken_names,
                self.runtime_module == old(self)@.runtime_module,
            decreases specifiers.len() - i,
        {
            let ghost pre_deep = self.imports.deep_view();
            match &specifiers[i] {
                ExportSpecifier::Named { span, orig: ModuleExportName::Ident(orig_ident), .. } => {
                    let rec = ImportModule {
                        span: *span,
                        ident: orig_ident.clone(),
                        module_src: module_src.clone(),
                        module_type: ModuleType::Named,
                    };
                    proof {
                        let k = i as int;
                        assert(svs[k] == specifiers@[k].deep_view());
                        assert(spec_reexport_import_record(module_src@, svs[k]) =~= seq![rec@]);
                    }
                    self.imports.push(rec);
                    proof {
                        assert(self.imports.deep_view() =~= pre_deep.push(rec@));
                    }
                },
                _ => {
                    proof {
                        let k = i as int;
                        assert(svs[k] == specifiers@[k].deep_view());
                        assert(spec_reexport_import_record(module_src@, svs[k])
                            =~= Seq::<SpecImportModule>::empty());
                    }
                },
            }
            proof {
                let k = i as int;
                assert(svs.take(k + 1).drop_last() =~= svs.take(k));
                assert(svs.take(k + 1).last() == svs[k]);
                assert(self.imports.deep_view() =~= old(self)@.imports
                    + spec_reexport_import_records(module_src@, svs.take(k + 1)));
            }
            i += 1;
        }
        proof {
            assert(svs.take(specifiers.len() as int) =~= svs);
        }
        let mut j: usize = 0;
        while j < specifiers.len()
            invariant
                j <= specifiers.len(),
                svs == specifiers.deep_view(),
                self.imports.deep_view() == old(self)@.imports + spec_reexport_import_records(
                    module_src@,
                    svs,
                ),
                self.exports.deep_view() == old(self)@.exports + spec_local_export_records(
                    svs.take(j as int),
                ),
                self.taken_names.deep_view() == old(self)@.taken_names,
                self.runtime_module == old(self)@.runtime_module,
            decreases specifiers.len() - j,
        {
            self.collect_export_named_specifier(&specifiers[j]);
            proof {
                let k = j as int;
                assert(svs.take(k + 1).drop_last() =~= svs.take(k));
                assert(svs.take(k + 1).last() == svs[k]);
            }
            j += 1;
        }
        proof {
            assert(svs.take(specifiers.len() as int) =~= svs);
        }
    }

    /// Collects `export { ... }`: for a local list, one export record per
    /// named specifier; for `export * as x from 'src'`, a synthesized
    /// namespace import re-published under `x`; for any other re-export,
    /// one import record and one export record per named specifier.
    fn collect_named_export(&mut self, src: &Option<String>, specifiers: &Vec<ExportSpecifier>)
        ensures
            ({
                let c = old(self)@;
                let svs = specifiers.deep_view();
                match src.deep_view() {
                    Option::None => final(self)@ == (SpecCollector {
                        exports: c.exports + spec_local_export_records(svs),
                        ..c
                    }),
                    Option::Some(m) => {
                        if spec_is_namespace_reexport(svs) {
                            let f = spec_fresh(c.taken_names, "__export_named"@);
                            final(self)@ == (SpecCollector {
                                imports: c.imports.push(SpecImportModule {
                                    span: svs[0]->Namespace_span,
                                    ident: f,
                                    module_src: m,
                                    module_type: ModuleType::NamespaceOrAll,
                                }),
                                exports: c.exports.push(SpecExportModule {
                                    ident: f,
                                    as_ident: Some(svs[0]->Namespace_name->Ident_0),
                                    module_type: ModuleType::NamespaceOrAll,
                                }),
                                taken_names: c.taken_names.push(f),
                                ..c
                            })
                        } else {
                            final(self)@ == (SpecCollector {
                                imports: c.imports + spec_reexport_import_records(m, svs),
                                exports: c.exports + spec_local_export_records(svs),
                                ..c
                            })
                        }
                    },
                }
            }),
    {
        let ghost svs = specifiers.deep_view();
        match src {
            None => {
                let mut i: usize = 0;
                while i < specifiers.len()
                    invariant
                        i <= specifiers.len(),
                        svs == specifiers.deep_view(),
                        self.imports.deep_view() == old(self)@.imports,
                        self.exports.deep_view() == old(self)@.exports
                            + spec_local_export_records(svs.take(i as int)),
                        self.taken_names.deep_view() == old(self)@.taken_names,
                        self.runtime_module == old(self)@.runtime_module,
                    decreases specifiers.len() - i,
                {
                    self.collect_export_named_specifier(&specifiers[i]);
                    proof {
                        let k = i as int;
                        assert(svs.take(k + 1).drop_last() =~= svs.take(k));
                        assert(svs.take(k + 1).last() == svs[k]);
                    }
                    i += 1;
                }
                proof {
                    assert(svs.take(specifiers.len() as int) =~= svs);
                }
            },
            Some(module_src) => {
                if specifiers.len() == 0 {
                    self.collect_reexport_specifiers(module_src, specifiers);
                } else {
                    match &specifiers[0] {
                        ExportSpecifier::Namespace {
                            span,
                            name: ModuleExportName::Ident(module_ident),
                        } => {
                            let export_ident = fresh_name(&self.taken_names, "__export_named");
                            self.taken_names.push(export_ident.clone());
                            self.imports.push(ImportModule {
                                span: *span,
                                ident: export_ident.clone(),
                                module_src: module_src.clone(),
                                module_type: ModuleType::NamespaceOrAll,
                            });
                            self.exports.push(ExportModule {
                                ident: export_ident,
                                as_ident: Some(module_ident.clone()),
                                module_type: ModuleType::NamespaceOrAll,
                            });
                            proof {
                                let f = spec_fresh(old(self)@.taken_names, "__export_named"@);
                                assert(spec_is_namespace_reexport(svs));
                                assert(self.taken_names.deep_view() =~= old(
                                    self,
                                )@.taken_names.push(f));
                                assert(self.imports.deep_view() =~= old(self)@.imports.push(
                                    SpecImportModule {
                                        span: svs[0]->Namespace_span,
                                        ident: f,
                                        module_src: module_src@,
                                        module_type: ModuleType::NamespaceOrAll,
                                    },
                                ));
                                assert(self.exports.deep_view() =~= old(self)@.exports.push(
                                    SpecExportModule {
                                        ident: f,
                                        as_ident: Some(svs[0]->Namespace_name->Ident_0),
                                        module_type: ModuleType::NamespaceOrAll,
                                    },
                                ));
                            }
                        },
                        _ => {
                            proof {
                                assert(!spec_is_namespace_reexport(svs));
                            }
                            self.collect_reexport_specifiers(module_src, specifiers);
                        },
                    }
                }
            },
        }
    }

    /// Hands the collected records over to the synthesizer.
    pub fn into_records(self) -> (r: (Vec<ImportModule>, Vec<ExportModule>))
        ensures
            r.0.deep_view() == self@.imports,
            r.1.deep_view() == self@.exports,
    {
        (self.imports, self.exports)
    }

    /// One pass over a module's top-level items: collects every record,
    /// and returns the replacement statement list.
    pub fn collect_module(&mut self, items: Vec<ModuleItem>) -> (body: Vec<ModuleItem>)
        ensures
            ({
                let st = spec_collect(
                    old(self)@.runtime_module,
                    spec_state_of(old(self)@),
                    items.deep_view(),
                );
                &&& body.deep_view() == st.body
                &&& final(self)@ == (SpecCollector {
                    imports: st.imports,
                    exports: st.exports,
                    taken_names: st.taken,
                    ..old(self)@
                })
            }),
    {
        let ghost items_v = items.deep_view();
        let ghost runtime = old(self)@.runtime_module;
        let ghost st0 = spec_state_of(old(self)@);
        let mut remaining = items;
        let mut body: Vec<ModuleItem> = Vec::new();
        let total = remaining.len();
        let mut i: usize = 0;
        proof {
            assert(body.deep_view() =~= spec_collect(runtime, st0, items_v.take(0)).body);
        }
        while i < total
            invariant
                i <= total,
                total == items_v.len(),
                remaining@.len() == total - i,
                remaining.deep_view() == items_v.skip(i as int),
                ({
                    let st = spec_collect(runtime, st0, items_v.take(i as int));
                    &&& body.deep_view() == st.body
                    &&& self.imports.deep_view() == st.imports
                    &&& self.exports.deep_view() == st.exports
                    &&& self.taken_names.deep_view() == st.taken
                }),
                self.runtime_module == runtime,
            decreases total - i,
        {
            let ghost st_i = spec_collect(runtime, st0, items_v.take(i as int));
            proof {
                lemma_spec_collect_step(runtime, st0, items_v, i as int);
                assert(remaining.deep_view()[0] == items_v[i as int]);
            }
            let ghost pre_at = remaining@;
            let item = remaining.remove(0);
            proof {
                assert(pre_at[0].deep_view() == items_v[i as int]);
                assert(item.deep_view() == items_v[i as int]);
                assert forall|j: int| 0 <= j < remaining@.len() implies remaining.deep_view()[j]
                    == items_v.skip(i as int + 1)[j] by {
                    assert(remaining@[j] == pre_at[j + 1]);
                    assert(pre_at[j + 1].deep_view() == items_v.skip(i as int)[j + 1]);
                }
                assert(remaining.deep_view() =~= items_v.skip(i as int + 1));
            }
            match item {
                ModuleItem::Stmt(s) => {
                    body.push(ModuleItem::Stmt(s));
                },
                ModuleItem::Import { item_ref, src, specifiers } => {
                    self.collect_import_decl(&src, &specifiers);
                    if !self.runtime_module {
                        body.push(ModuleItem::Import { item_ref, src, specifiers });
                    }
                },
                ModuleItem::ExportDecl { item_ref, decl } => {
                    self.collect_export_decl(&decl);
                    if self.runtime_module {
                        body.push(ModuleItem::Stmt(Stmt::Decl(decl)));
                    } else {
                        body.push(ModuleItem::ExportDecl { item_ref, decl });
                    }
                },
                ModuleItem::ExportDefaultDecl { item_ref, decl } => {
                    match self.collect_default_export_decl_and_convert_to_stmt(&decl) {
                        Some((ident, stmt)) => {
                            body.push(ModuleItem::Stmt(stmt));
                            if !self.runtime_module {
                                let native_default = self.get_default_export_stmt(ident);
                                body.push(native_default);
                            }
                        },
                        None => {
                            body.push(ModuleItem::ExportDefaultDecl { item_ref, decl });
                        },
                    }
                },
                ModuleItem::ExportDefaultExpr { span: _, expr } => {
                    let (ident, stmt) = self.collect_default_export_expr_and_convert_to_stmt(expr);
                    body.push(ModuleItem::Stmt(stmt));
                    if !self.runtime_module {
                        let native_default = self.get_default_export_stmt(ident);
                        body.push(native_default);
                    }
                },
                ModuleItem::ExportNamed { item_ref, src, specifiers, type_only } => {
                    if !type_only {
                        self.collect_named_export(&src, &specifiers);
                        if !self.runtime_module {
                            body.push(ModuleItem::ExportNamed {
                                item_ref,
                                src,
                                specifiers,
                                type_only,
                            });
                        }
                    } else {
                        body.push(ModuleItem::ExportNamed { item_ref, src, specifiers, type_only });
                    }
                },
                ModuleItem::ExportAll { item_ref, src, type_only } => {
                    if !type_only {
                        self.collect_export_all(&src);
                        if !self.runtime_module {
                            body.push(ModuleItem::ExportAll { item_ref, src, type_only });
                        }
                    } else {
                        body.push(ModuleItem::ExportAll { item_ref, src, type_only });
                    }
                },
                ModuleItem::OtherModuleDecl { item_ref } => {
                    body.push(ModuleItem::OtherModuleDecl { item_ref });
                },
            }
            proof {
                let st_next = spec_collect_item(runtime, st_i, items_v[i as int]);
                assert(body.deep_view() =~= st_next.body);
                assert(self.imports.deep_view() =~= st_next.imports);
                assert(self.exports.deep_view() =~= st_next.exports);
                assert(self.taken_names.deep_view() =~= st_next.taken);
            }
            i += 1;
        }
        proof {
            assert(items_v.take(total as int) =~= items_v);
        }
        body
    }
}

} // verus!
