//! The statement synthesizer and the transform entry point.
//!
//! Given the records one collector pass produced, pure builders synthesize
//! the registry-call statements: one variable declaration per import record,
//! assigning the result of a registry import call, and at most one
//! expression statement registering the module's exports. The entry point
//! [`ReactNativeEsbuildModule::transform_module`] splices them into the
//! replacement statement list: imports prepended in source order, the export
//! registration appended at the end.
//!
//! The whole transform is specified by the pure function [`spec_transform`];
//! the executable entry point is proved to compute exactly that.

use vstd::prelude::*;

use crate::ast::{
    lemma_view_obj_props, view_obj_props, Expr, ModuleItem, ObjProp, SpecExpr, SpecModuleItem,
    SpecObjProp, SpecStmt, SrcSpan, Stmt,
};
use crate::module_collector::{
    spec_collect, spec_initial_state, ExportModule, ModuleCollector, ModuleType,
    SpecExportModule, SpecImportModule,
};
use crate::utils::{
    call_expr, computed_member_expr, decl_var_and_assign_stmt, ident_expr, obj_member_expr,
    str_lit_expr,
};

verus! {

broadcast use crate::ast::lemma_deep_view_pointwise;

/// Which wire protocol the synthesized registry calls follow.
#[derive(Debug, Clone, Copy, PartialEq, Eq, Structural)]
pub enum RegistryConvention {
    /// `<global>.<key>.import(src)` for imports, and one
    /// `<global>.<key>.export(moduleName, payload)` call registering the
    /// exports (with a `null` payload when the module exports nothing)
    Call,
    /// `<global>.<key>[src]` for imports, with no export registration:
    /// the shape for targets where a later bundling pass handles exports
    Indexed,
}

/// The transform's configuration, one per module invocation.
pub struct ReactNativeEsbuildModule {
    /// the registry key this module registers its exports under
    pub module_name: String,
    /// true: the enumerated module forms are replaced by registry calls;
    /// false: module syntax is kept for a later bundler pass, with registry
    /// calls added alongside it. Constructs outside the enumerated forms
    /// pass through unchanged in both modes.
    pub runtime_module: bool,
    /// the global binding holding the registry
    pub registry_global_name: String,
    /// the registry object's key on that global binding
    pub registry_object_key: String,
    pub convention: RegistryConvention,
}

/// Mathematical mirror of [`ReactNativeEsbuildModule`].
pub ghost struct SpecTransformOptions {
    pub module_name: Seq<char>,
    pub runtime_module: bool,
    pub registry_global_name: Seq<char>,
    pub registry_object_key: Seq<char>,
    pub convention: RegistryConvention,
}

impl View for ReactNativeEsbuildModule {
    type V = SpecTransformOptions;

    open spec fn view(&self) -> SpecTransformOptions {
        SpecTransformOptions {
            module_name: self.module_name@,
            runtime_module: self.runtime_module,
            registry_global_name: self.registry_global_name@,
            registry_object_key: self.registry_object_key@,
            convention: self.convention,
        }
    }
}

/// `<global>.<key>`: the registry object itself.
pub open spec fn spec_registry_expr(o: SpecTransformOptions) -> SpecExpr {
    SpecExpr::Member(
        Box::new(SpecExpr::Ident(o.registry_global_name)),
        o.registry_object_key,
    )
}

/// The expression whose value is the registry's entry for `src`.
pub open spec fn spec_import_call(o: SpecTransformOptions, src: Seq<char>) -> SpecExpr {
    match o.convention {
        RegistryConvention::Call => SpecExpr::Call(
            Box::new(SpecExpr::Member(Box::new(spec_registry_expr(o)), "import"@)),
            seq![SpecExpr::Str(src)],
        ),
        RegistryConvention::Indexed => SpecExpr::ComputedMember(
            Box::new(spec_registry_expr(o)),
            Box::new(SpecExpr::Str(src)),
        ),
    }
}

/// `<global>.<key>.export(moduleName, payload)`.
pub open spec fn spec_export_call(o: SpecTransformOptions, payload: SpecExpr) -> SpecExpr {
    SpecExpr::Call(
        Box::new(SpecExpr::Member(Box::new(spec_registry_expr(o)), "export"@)),
        seq![SpecExpr::Str(o.module_name), payload],
    )
}

/// The declaration synthesized for one import record: the registry entry,
/// narrowed by binding kind. The `default` slot appends a `.default` access;
/// a named binding appends an access under its own local name (renaming
/// happens entirely in the declaration's left-hand side); a namespace
/// binding uses the registry entry unchanged.
pub open spec fn spec_import_stmt(o: SpecTransformOptions, r: SpecImportModule) -> SpecStmt {
    SpecStmt::VarDecl {
        span: r.span,
        name: r.ident,
        init: match r.module_type {
            ModuleType::Default => SpecExpr::Member(
                Box::new(spec_import_call(o, r.module_src)),
                "default"@,
            ),
            ModuleType::Named => SpecExpr::Member(
                Box::new(spec_import_call(o, r.module_src)),
                r.ident,
            ),
            ModuleType::NamespaceOrAll => spec_import_call(o, r.module_src),
        },
    }
}

/// The object-literal property for one export record: the `default` slot
/// under key `"default"`; a named binding under its public name; a namespace
/// nested under its alias when one is given, and spread flatly otherwise.
pub open spec fn spec_export_prop(r: SpecExportModule) -> SpecObjProp {
    match r.module_type {
        ModuleType::Default => SpecObjProp::KeyValue("default"@, SpecExpr::Ident(r.ident)),
        ModuleType::Named => SpecObjProp::KeyValue(
            match r.as_ident {
                Some(a) => a,
                None => r.ident,
            },
            SpecExpr::Ident(r.ident),
        ),
        ModuleType::NamespaceOrAll => match r.as_ident {
            Some(a) => SpecObjProp::KeyValue(a, SpecExpr::Ident(r.ident)),
            None => SpecObjProp::Spread(SpecExpr::Ident(r.ident)),
        },
    }
}

/// One property per export record, in record (source) order.
pub open spec fn spec_export_props(rs: Seq<SpecExportModule>) -> Seq<SpecObjProp> {
    rs.map_values(|r: SpecExportModule| spec_export_prop(r))
}

/// The export object literal.
pub open spec fn spec_exports_obj(rs: Seq<SpecExportModule>) -> SpecExpr {
    SpecExpr::Object(spec_export_props(rs))
}

/// The export call's payload: `null` when the module exports nothing.
pub open spec fn spec_exports_payload(rs: Seq<SpecExportModule>) -> SpecExpr {
    if rs.len() == 0 {
        SpecExpr::Null
    } else {
        spec_exports_obj(rs)
    }
}

/// The one statement registering the module's exports.
pub open spec fn spec_exports_stmt(o: SpecTransformOptions, rs: Seq<SpecExportModule>)
    -> SpecStmt {
    SpecStmt::Expr(spec_export_call(o, spec_exports_payload(rs)))
}

/// The synthesized import declarations, one per record, in record order.
pub open spec fn spec_import_items(o: SpecTransformOptions, rs: Seq<SpecImportModule>)
    -> Seq<SpecModuleItem> {
    rs.map_values(|r: SpecImportModule| SpecModuleItem::Stmt(spec_import_stmt(o, r)))
}

/// The trailing registration statements: exactly one under the call
/// convention, none under the indexed convention.
pub open spec fn spec_export_items(o: SpecTransformOptions, rs: Seq<SpecExportModule>)
    -> Seq<SpecModuleItem> {
    match o.convention {
        RegistryConvention::Call => seq![SpecModuleItem::Stmt(spec_exports_stmt(o, rs))],
        RegistryConvention::Indexed => Seq::empty(),
    }
}

/// The whole transform of one module: collect every record over the item
/// list, prepend one synthesized import declaration per import record in
/// source order, and append the export registration.
pub open spec fn spec_transform(
    o: SpecTransformOptions,
    items: Seq<SpecModuleItem>,
    taken: Seq<Seq<char>>,
) -> Seq<SpecModuleItem> {
    let st = spec_collect(o.runtime_module, spec_initial_state(taken), items);
    spec_import_items(o, st.imports) + st.body + spec_export_items(o, st.exports)
}

impl ReactNativeEsbuildModule {
    /// The conventional configuration: runtime-module mode, the `global`
    /// binding, the `__modules` key, and the call convention.
    pub fn default(filename: String) -> (r: Self)
        ensures
            r@ == (SpecTransformOptions {
                module_name: filename@,
                runtime_module: true,
                registry_global_name: "global"@,
                registry_object_key: "__modules"@,
                convention: RegistryConvention::Call,
            }),
    {
        ReactNativeEsbuildModule {
            module_name: filename,
            runtime_module: true,
            registry_global_name: "global".to_owned(),
            registry_object_key: "__modules".to_owned(),
            convention: RegistryConvention::Call,
        }
    }

    /// The expression whose value is the registry's entry for `module_name`.
    fn get_custom_import_expr(&mut self, module_name: String) -> (r: Expr)
        ensures
            r@ == spec_import_call(old(self)@, module_name@),
            final(self)@ == old(self)@,
    {
        let registry = obj_member_expr(
            ident_expr(self.registry_global_name.clone()),
            self.registry_object_key.clone(),
        );
        match self.convention {
            RegistryConvention::Call => {
                let args = vec![str_lit_expr(module_name)];
                proof {
                    assert(args.deep_view() =~= seq![SpecExpr::Str(module_name@)]);
                }
                call_expr(obj_member_expr(registry, "import".to_owned()), args)
            },
            RegistryConvention::Indexed => {
                computed_member_expr(registry, str_lit_expr(module_name))
            },
        }
    }

    /// The call registering this module's exports under its own name.
    fn get_custom_export_expr(&mut self, export_expr: Expr) -> (r: Expr)
        ensures
            r@ == spec_export_call(old(self)@, export_expr@),
            final(self)@ == old(self)@,
    {
        let registry = obj_member_expr(
            ident_expr(self.registry_global_name.clone()),
            self.registry_object_key.clone(),
        );
        let ghost expr_view = export_expr@;
        let args = vec![str_lit_expr(self.module_name.clone()), export_expr];
        proof {
            assert(args.deep_view() =~= seq![
                SpecExpr::Str(old(self)@.module_name),
                expr_view,
            ]);
        }
        call_expr(obj_member_expr(registry, "export".to_owned()), args)
    }

    /// `var <ident> = <registry entry>.default;`
    fn default_import_stmt(&mut self, module_name: String, span: SrcSpan, ident: String) -> (r:
        Stmt)
        ensures
            r@ == spec_import_stmt(old(self)@, SpecImportModule {
                span,
                ident: ident@,
                module_src: module_name@,
                module_type: ModuleType::Default,
            }),
            final(self)@ == old(self)@,
    {
        let import_expr = self.get_custom_import_expr(module_name);
        decl_var_and_assign_stmt(ident, span, obj_member_expr(import_expr, "default".to_owned()))
    }

    /// `var <ident> = <registry entry>.<ident>;` — the local name doubles as
    /// the remote key.
    fn named_import_stmt(&mut self, module_name: String, span: SrcSpan, ident: String) -> (r:
        Stmt)
        ensures
            r@ == spec_import_stmt(old(self)@, SpecImportModule {
                span,
                ident: ident@,
                module_src: module_name@,
                module_type: ModuleType::Named,
            }),
            final(self)@ == old(self)@,
    {
        let import_expr = self.get_custom_import_expr(module_name);
        decl_var_and_assign_stmt(
            ident.clone(),
            span,
            obj_member_expr(import_expr, ident),
        )
    }

    /// `var <ident> = <registry entry>;`
    fn namespace_import_stmt(&mut self, module_name: String, span: SrcSpan, ident: String) -> (r:
        Stmt)
        ensures
            r@ == spec_import_stmt(old(self)@, SpecImportModule {
                span,
                ident: ident@,
                module_src: module_name@,
                module_type: ModuleType::NamespaceOrAll,
            }),
            final(self)@ == old(self)@,
    {
        let import_expr = self.get_custom_import_expr(module_name);
        decl_var_and_assign_stmt(ident, span, import_expr)
    }

    /// The object literal holding every exported binding, one property per
    /// record, in source order; duplicate keys are kept as they are.
    fn get_exports_obj_expr(&mut self, exports: Vec<ExportModule>) -> (r: Expr)
        ensures
            r@ == spec_exports_obj(exports.deep_view()),
            final(self)@ == old(self)@,
    {
        let ghost evs = exports.deep_view();
        let mut remaining = exports;
        let mut export_props: Vec<ObjProp> = Vec::new();
        let total = remaining.len();
        let mut i: usize = 0;
        proof {
            assert(export_props.deep_view() =~= spec_export_props(evs.take(0)));
            assert(remaining.deep_view() =~= evs.skip(0));
        }
        while i < total
            invariant
                i <= total,
                total == evs.len(),
                remaining@.len() == total - i,
                remaining.deep_view() == evs.skip(i as int),
                export_props.deep_view() == spec_export_props(evs.take(i as int)),
            decreases total - i,
        {
            proof {
                assert(remaining.deep_view()[0] == evs[i as int]);
            }
            let ghost pre_at = remaining@;
            let rec = remaining.remove(0);
            proof {
                assert(pre_at[0].deep_view() == evs[i as int]);
                assert(rec.deep_view() == evs[i as int]);
                assert forall|j: int| 0 <= j < remaining@.len() implies remaining.deep_view()[j]
                    == evs.skip(i as int + 1)[j] by {
                    assert(remaining@[j] == pre_at[j + 1]);
                    assert(pre_at[j + 1].deep_view() == evs.skip(i as int)[j + 1]);
                }
                assert(remaining.deep_view() =~= evs.skip(i as int + 1));
            }
            let prop = match rec.module_type {
                ModuleType::Default => ObjProp::KeyValue(
                    "default".to_owned(),
                    Expr::Ident(rec.ident),
                ),
                ModuleType::Named => match rec.as_ident {
                    Some(prop_ident) => ObjProp::KeyValue(prop_ident, Expr::Ident(rec.ident)),
                    None => ObjProp::KeyValue(rec.ident.clone(), Expr::Ident(rec.ident)),
                },
                ModuleType::NamespaceOrAll => match rec.as_ident {
                    Some(prop_ident) => ObjProp::KeyValue(prop_ident, Expr::Ident(rec.ident)),
                    None => ObjProp::Spread(Expr::Ident(rec.ident)),
                },
            };
            proof {
                assert(prop@ == spec_export_prop(evs[i as int]));
            }
            let ghost pre_deep = export_props.deep_view();
            export_props.push(prop);
            proof {
                let k = i as int;
                assert(export_props.deep_view() =~= pre_deep.push(prop@));
                assert(spec_export_props(evs.take(k + 1)) =~= spec_export_props(
                    evs.take(k),
                ).push(spec_export_prop(evs[k])));
                assert(export_props.deep_view() =~= spec_export_props(evs.take(k + 1)));
            }
            i += 1;
        }
        proof {
            assert(evs.take(total as int) =~= evs);
            lemma_view_obj_props(export_props@);
            assert(view_obj_props(export_props@) =~= export_props.deep_view());
        }
        Expr::Object(export_props)
    }

    /// The statement registering this module's exports: an expression
    /// statement calling the registry's export operation with the export
    /// object, or with `null` when the module exports nothing.
    fn get_custom_exports_stmt(&mut self, exports: Vec<ExportModule>) -> (r: Stmt)
        ensures
            r@ == spec_exports_stmt(old(self)@, exports.deep_view()),
            final(self)@ == old(self)@,
    {
        let payload = if exports.len() == 0 {
            proof {
                assert(exports.deep_view().len() == 0);
            }
            Expr::Null
        } else {
            self.get_exports_obj_expr(exports)
        };
        let call = self.get_custom_export_expr(payload);
        Stmt::Expr(call)
    }

    /// Transforms one module's top-level item list: collects every record,
    /// replaces or keeps the module declarations according to the mode,
    /// prepends one synthesized import declaration per import record in
    /// source order, and appends the export registration. `taken_names`
    /// holds the module's top-level binding names, seeding the fresh-name
    /// generator.
    pub fn transform_module(&mut self, items: Vec<ModuleItem>, taken_names: Vec<String>) -> (out:
        Vec<ModuleItem>)
        ensures
            out.deep_view() == spec_transform(
                old(self)@,
                items.deep_view(),
                taken_names.deep_view(),
            ),
            final(self)@ == old(self)@,
    {
        let ghost o = old(self)@;
        let ghost items_v = items.deep_view();
        let ghost taken_v = taken_names.deep_view();
        let mut collector = ModuleCollector::default(self.runtime_module, taken_names);
        proof {
            assert(crate::module_collector::spec_state_of(collector@) == spec_initial_state(
                taken_v,
            ));
        }
        let mut body = collector.collect_module(items);
        let ghost st = spec_collect(o.runtime_module, spec_initial_state(taken_v), items_v);
        let (import_records, export_records) = collector.into_records();
        let ghost ivs = import_records.deep_view();
        proof {
            assert(ivs == st.imports);
            assert(export_records.deep_view() == st.exports);
        }
        let mut out: Vec<ModuleItem> = Vec::new();
        let mut remaining = import_records;
        let total = remaining.len();
        let mut i: usize = 0;
        proof {
            assert(out.deep_view() =~= spec_import_items(o, ivs.take(0)));
            assert(remaining.deep_view() =~= ivs.skip(0));
        }
        while i < total
            invariant
                i <= total,
                total == ivs.len(),
                remaining@.len() == total - i,
                remaining.deep_view() == ivs.skip(i as int),
                out.deep_view() == spec_import_items(o, ivs.take(i as int)),
                self@ == o,
            decreases total - i,
        {
            proof {
                assert(remaining.deep_view()[0] == ivs[i as int]);
            }
            let ghost pre_at = remaining@;
            let rec = remaining.remove(0);
            proof {
                assert(pre_at[0].deep_view() == ivs[i as int]);
                assert(rec.deep_view() == ivs[i as int]);
                assert forall|j: int| 0 <= j < remaining@.len() implies remaining.deep_view()[j]
                    == ivs.skip(i as int + 1)[j] by {
                    assert(remaining@[j] == pre_at[j + 1]);
                    assert(pre_at[j + 1].deep_view() == ivs.skip(i as int)[j + 1]);
                }
                assert(remaining.deep_view() =~= ivs.skip(i as int + 1));
            }
            let stmt = match rec.module_type {
                ModuleType::Default => self.default_import_stmt(
                    rec.module_src,
                    rec.span,
                    rec.ident,
                ),
                ModuleType::Named => self.named_import_stmt(rec.module_src, rec.span, rec.ident),
                ModuleType::NamespaceOrAll => self.namespace_import_stmt(
                    rec.module_src,
                    rec.span,
                    rec.ident,
                ),
            };
            proof {
                assert(stmt@ == spec_import_stmt(o, ivs[i as int]));
            }
            let ghost pre_deep = out.deep_view();
            out.push(ModuleItem::Stmt(stmt));
            proof {
                let k = i as int;
                assert(out.deep_view() =~= pre_deep.push(SpecModuleItem::Stmt(stmt@)));
                assert(spec_import_items(o, ivs.take(k + 1)) =~= spec_import_items(
                    o,
                    ivs.take(k),
                ).push(SpecModuleItem::Stmt(spec_import_stmt(o, ivs[k]))));
                assert(out.deep_view() =~= spec_import_items(o, ivs.take(k + 1)));
            }
            i += 1;
        }
        proof {
            assert(ivs.take(total as int) =~= ivs);
        }
        let ghost body_v = body.deep_view();
        let ghost out_before_body = out.deep_view();
        out.append(&mut body);
        proof {
            assert forall|j: int| 0 <= j < out@.len() implies out.deep_view()[j]
                == (out_before_body + body_v)[j] by {
            }
            assert(out.deep_view() =~= out_before_body + body_v);
        }
        match self.convention {
            RegistryConvention::Call => {
                let ghost pre_deep = out.deep_view();
                let exports_stmt = self.get_custom_exports_stmt(export_records);
                out.push(ModuleItem::Stmt(exports_stmt));
                proof {
                    assert(out.deep_view() =~= pre_deep.push(
                        SpecModuleItem::Stmt(exports_stmt@),
                    ));
                    assert(spec_export_items(o, st.exports) =~= seq![
                        SpecModuleItem::Stmt(spec_exports_stmt(o, st.exports)),
                    ]);
                    assert(out.deep_view() =~= spec_import_items(o, st.imports) + st.body
                        + spec_export_items(o, st.exports));
                }
            },
            RegistryConvention::Indexed => {
                proof {
                    assert(spec_export_items(o, st.exports) =~= Seq::<SpecModuleItem>::empty());
                    assert(out.deep_view() =~= spec_import_items(o, st.imports) + st.body
                        + spec_export_items(o, st.exports));
                }
            },
        }
        out
    }
}

} // verus!
