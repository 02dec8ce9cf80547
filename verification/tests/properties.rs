//! Scenario tests for the transform's stated properties: the indexed
//! convention, freshness of synthesized names, completeness of the
//! synthesized import list, exactness and idempotence of registration, and
//! a round trip against a stub registry.

use std::collections::HashMap;

use react_native_esbuild_module::ast::{
    Decl, DefaultDecl, Expr, ExportSpecifier, ImportSpecifier, ModuleExportName, ModuleItem,
    ObjProp, SrcSpan, Stmt,
};
use react_native_esbuild_module::fresh::fresh_name;
use react_native_esbuild_module::transform::{ReactNativeEsbuildModule, RegistryConvention};

fn span(lo: u32, hi: u32) -> SrcSpan {
    SrcSpan { lo, hi }
}

fn runtime_plugin(module_name: &str) -> ReactNativeEsbuildModule {
    ReactNativeEsbuildModule::default(module_name.to_string())
}

fn indexed_plugin() -> ReactNativeEsbuildModule {
    ReactNativeEsbuildModule {
        module_name: "test.js".to_string(),
        runtime_module: true,
        registry_global_name: "global".to_string(),
        registry_object_key: "__modules".to_string(),
        convention: RegistryConvention::Indexed,
    }
}

fn registry() -> Expr {
    Expr::Member(
        Box::new(Expr::Ident("global".to_string())),
        "__modules".to_string(),
    )
}

fn import_call(src: &str) -> Expr {
    Expr::Call(
        Box::new(Expr::Member(Box::new(registry()), "import".to_string())),
        vec![Expr::Str(src.to_string())],
    )
}

fn indexed_import(src: &str) -> Expr {
    Expr::ComputedMember(Box::new(registry()), Box::new(Expr::Str(src.to_string())))
}

fn strings(names: &[&str]) -> Vec<String> {
    names.iter().map(|n| n.to_string()).collect()
}

// ------------------------------------------------------------------
// The indexed/getter convention.
// ------------------------------------------------------------------

#[test]
fn indexed_default_import() {
    // import React from 'react'; — computed-member access, no export call
    let items = vec![ModuleItem::Import {
        item_ref: 1,
        src: "react".to_string(),
        specifiers: vec![ImportSpecifier::Default {
            span: span(1, 2),
            local: "React".to_string(),
        }],
    }];
    let out = indexed_plugin().transform_module(items, strings(&["React"]));
    assert_eq!(
        out,
        vec![ModuleItem::Stmt(Stmt::VarDecl {
            span: span(1, 2),
            name: "React".to_string(),
            init: Expr::Member(Box::new(indexed_import("react")), "default".to_string()),
        })]
    );
}

#[test]
fn indexed_named_import() {
    // import { useState, useContext } from 'react';
    let items = vec![ModuleItem::Import {
        item_ref: 1,
        src: "react".to_string(),
        specifiers: vec![
            ImportSpecifier::Named {
                span: span(1, 2),
                local: "useState".to_string(),
            },
            ImportSpecifier::Named {
                span: span(3, 4),
                local: "useContext".to_string(),
            },
        ],
    }];
    let out = indexed_plugin().transform_module(items, strings(&["useState", "useContext"]));
    assert_eq!(
        out,
        vec![
            ModuleItem::Stmt(Stmt::VarDecl {
                span: span(1, 2),
                name: "useState".to_string(),
                init: Expr::Member(Box::new(indexed_import("react")), "useState".to_string()),
            }),
            ModuleItem::Stmt(Stmt::VarDecl {
                span: span(3, 4),
                name: "useContext".to_string(),
                init: Expr::Member(Box::new(indexed_import("react")), "useContext".to_string()),
            }),
        ]
    );
}

// ------------------------------------------------------------------
// Freshness of synthesized names.
// ------------------------------------------------------------------

#[test]
fn fresh_name_prefers_base() {
    let taken = strings(&["a", "b"]);
    assert_eq!(fresh_name(&taken, "__export_default"), "__export_default");
}

#[test]
fn fresh_name_avoids_taken() {
    let taken = strings(&["x", "__export_default", "yy"]);
    let name = fresh_name(&taken, "__export_default");
    assert!(!taken.contains(&name));
    assert_eq!(name, "__export_default_x__export_defaultyy");
}

#[test]
fn anonymous_default_name_avoids_module_bindings() {
    // export default class {} in a module that already binds __export_default
    let items = vec![ModuleItem::ExportDefaultDecl {
        item_ref: 1,
        decl: DefaultDecl::Class {
            name: None,
            class_ref: 7,
        },
    }];
    let taken = strings(&["__export_default", "other"]);
    let out = runtime_plugin("m.js").transform_module(items, taken.clone());
    let name = match &out[0] {
        ModuleItem::Stmt(Stmt::VarDecl { name, .. }) => name.clone(),
        item => panic!("expected a synthesized declaration, got {:?}", item),
    };
    assert!(!taken.contains(&name));
}

#[test]
fn two_synthesized_names_differ() {
    // export default 0; export * from 'mod'; — both synthesize a binding
    let items = vec![
        ModuleItem::ExportDefaultExpr {
            span: span(1, 2),
            expr: Expr::Raw(1),
        },
        ModuleItem::ExportAll {
            item_ref: 2,
            src: "mod".to_string(),
            type_only: false,
        },
    ];
    let out = runtime_plugin("m.js").transform_module(items, strings(&[]));
    let mut names: Vec<String> = Vec::new();
    for item in &out {
        if let ModuleItem::Stmt(Stmt::VarDecl { name, .. }) = item {
            names.push(name.clone());
        }
    }
    assert_eq!(names.len(), 2);
    assert_ne!(names[0], names[1]);
}

// ------------------------------------------------------------------
// Completeness: one declaration per specifier.
// ------------------------------------------------------------------

#[test]
fn one_declaration_per_specifier() {
    // 3 import specifiers + 2 named re-exports + 1 wildcard = 6 declarations
    let items = vec![
        ModuleItem::Import {
            item_ref: 1,
            src: "react".to_string(),
            specifiers: vec![
                ImportSpecifier::Default {
                    span: span(1, 1),
                    local: "React".to_string(),
                },
                ImportSpecifier::Named {
                    span: span(2, 2),
                    local: "useState".to_string(),
                },
                ImportSpecifier::Namespace {
                    span: span(3, 3),
                    local: "all".to_string(),
                },
            ],
        },
        ModuleItem::ExportNamed {
            item_ref: 2,
            src: Some("lib".to_string()),
            specifiers: vec![
                ExportSpecifier::Named {
                    span: span(4, 4),
                    orig: ModuleExportName::Ident("a".to_string()),
                    exported: None,
                },
                ExportSpecifier::Named {
                    span: span(5, 5),
                    orig: ModuleExportName::Ident("b".to_string()),
                    exported: None,
                },
            ],
            type_only: false,
        },
        ModuleItem::ExportAll {
            item_ref: 3,
            src: "util".to_string(),
            type_only: false,
        },
    ];
    let out = runtime_plugin("m.js").transform_module(
        items,
        strings(&["React", "useState", "all", "a", "b"]),
    );
    let leading_declarations = out
        .iter()
        .take_while(|item| matches!(item, ModuleItem::Stmt(Stmt::VarDecl { .. })))
        .count();
    assert_eq!(leading_declarations, 6);
}

// ------------------------------------------------------------------
// Registration: exact keys, idempotence, round trip.
// ------------------------------------------------------------------

/// What a binding evaluates to under the stub registry, where importing
/// `src` yields an opaque namespace object for `src`.
#[derive(Debug, Clone, PartialEq, Eq)]
enum StubValue {
    /// property `key` of the stub namespace for `src`
    Member(String, String),
    /// the whole stub namespace for `src`
    Namespace(String),
    /// the value of an uninspected expression or declaration payload
    Opaque(u64),
    /// the value of a module-local binding the transform did not touch
    Local(String),
}

/// What one registration writes into the stub registry.
#[derive(Debug, Clone, PartialEq, Eq)]
enum StubEntry {
    Key(String, StubValue),
    SpreadNamespace(String),
}

/// Evaluates an expression the transform synthesizes, under an environment
/// of the module's own top-level bindings.
fn eval(env: &HashMap<String, StubValue>, e: &Expr) -> StubValue {
    match e {
        Expr::Ident(name) => env
            .get(name)
            .cloned()
            .unwrap_or_else(|| StubValue::Local(name.clone())),
        Expr::Raw(token) => StubValue::Opaque(*token),
        Expr::Call(callee, args) => {
            // only the registry's import call evaluates to a value here
            if let Expr::Member(_, method) = callee.as_ref() {
                assert_eq!(method, "import");
                if let Expr::Str(src) = &args[0] {
                    return StubValue::Namespace(src.clone());
                }
            }
            panic!("not a registry import call: {:?}", e);
        }
        Expr::ComputedMember(_, index) => {
            if let Expr::Str(src) = index.as_ref() {
                return StubValue::Namespace(src.clone());
            }
            panic!("not a registry lookup: {:?}", e);
        }
        Expr::Member(obj, key) => match eval(env, obj) {
            StubValue::Namespace(src) => StubValue::Member(src, key.clone()),
            other => panic!("member access on {:?}", other),
        },
        other => panic!("no value for {:?}", other),
    }
}

/// Runs the transformed statement list against the stub registry: builds the
/// environment from the synthesized declarations, then applies the export
/// registration, returning the registered entries in order.
fn run_against_stub(out: &[ModuleItem]) -> Vec<StubEntry> {
    let mut env: HashMap<String, StubValue> = HashMap::new();
    let mut registered: Vec<StubEntry> = Vec::new();
    for item in out {
        match item {
            ModuleItem::Stmt(Stmt::VarDecl { name, init, .. }) => {
                let value = eval(&env, init);
                env.insert(name.clone(), value);
            }
            ModuleItem::Stmt(Stmt::Decl(Decl::Fn { name, fn_ref })) => {
                env.insert(name.clone(), StubValue::Opaque(*fn_ref));
            }
            ModuleItem::Stmt(Stmt::Decl(Decl::Class { name, class_ref })) => {
                env.insert(name.clone(), StubValue::Opaque(*class_ref));
            }
            ModuleItem::Stmt(Stmt::Expr(Expr::Call(callee, args))) => {
                if let Expr::Member(_, method) = callee.as_ref() {
                    assert_eq!(method, "export");
                    match &args[1] {
                        Expr::Null => {}
                        Expr::Object(props) => {
                            for prop in props {
                                match prop {
                                    ObjProp::KeyValue(key, value) => registered
                                        .push(StubEntry::Key(key.clone(), eval(&env, value))),
                                    ObjProp::Spread(value) => match eval(&env, value) {
                                        StubValue::Namespace(src) => registered
                                            .push(StubEntry::SpreadNamespace(src)),
                                        other => panic!("spread of {:?}", other),
                                    },
                                }
                            }
                        }
                        other => panic!("unexpected payload {:?}", other),
                    }
                }
            }
            _ => {}
        }
    }
    registered
}

#[test]
fn registration_has_exact_keys() {
    // export function f() {}; export default 0; export * from 'mod';
    // export { a as b };
    let items = vec![
        ModuleItem::ExportDecl {
            item_ref: 1,
            decl: Decl::Fn {
                name: "f".to_string(),
                fn_ref: 10,
            },
        },
        ModuleItem::ExportDefaultExpr {
            span: span(1, 2),
            expr: Expr::Raw(20),
        },
        ModuleItem::ExportAll {
            item_ref: 2,
            src: "mod".to_string(),
            type_only: false,
        },
        ModuleItem::ExportNamed {
            item_ref: 3,
            src: None,
            specifiers: vec![ExportSpecifier::Named {
                span: span(3, 4),
                orig: ModuleExportName::Ident("a".to_string()),
                exported: Some(ModuleExportName::Ident("b".to_string())),
            }],
            type_only: false,
        },
    ];
    let out = runtime_plugin("m.js").transform_module(items, strings(&["f", "a"]));
    let registered = run_against_stub(&out);
    assert_eq!(
        registered,
        vec![
            StubEntry::Key("f".to_string(), StubValue::Opaque(10)),
            StubEntry::Key("default".to_string(), StubValue::Opaque(20)),
            StubEntry::SpreadNamespace("mod".to_string()),
            StubEntry::Key("b".to_string(), StubValue::Local("a".to_string())),
        ]
    );
}

#[test]
fn registration_is_idempotent() {
    // registering the same transformed module twice writes the same entries
    let build = || {
        vec![
            ModuleItem::ExportDecl {
                item_ref: 1,
                decl: Decl::Var {
                    decl_ref: 2,
                    name: Some("named".to_string()),
                },
            },
            ModuleItem::ExportDefaultExpr {
                span: span(1, 2),
                expr: Expr::Raw(20),
            },
        ]
    };
    let out = runtime_plugin("m.js").transform_module(build(), strings(&["named"]));
    let first = run_against_stub(&out);
    let second = run_against_stub(&out);
    assert_eq!(first, second);
    let out_again = runtime_plugin("m.js").transform_module(build(), strings(&["named"]));
    assert_eq!(out, out_again);
    let keys: Vec<&StubEntry> = first.iter().collect();
    assert_eq!(keys.len(), 2);
}

#[test]
fn round_trip_against_stub_registry() {
    // Native semantics of the module, binding by binding:
    //   import React from 'react';        React  = react.default
    //   import { useState } from 'react'; useState = react.useState
    //   import * as app from 'core';      app    = namespace of core
    //   export function f() {}            exposes f = the function
    //   export default 0;                 exposes default = the expression
    //   export { a, b } from 'lib';       exposes a, b = lib.a, lib.b
    //   export { useState as hook, app }; exposes hook, app
    let items = vec![
        ModuleItem::Import {
            item_ref: 1,
            src: "react".to_string(),
            specifiers: vec![
                ImportSpecifier::Default {
                    span: span(1, 1),
                    local: "React".to_string(),
                },
                ImportSpecifier::Named {
                    span: span(2, 2),
                    local: "useState".to_string(),
                },
            ],
        },
        ModuleItem::Import {
            item_ref: 2,
            src: "core".to_string(),
            specifiers: vec![ImportSpecifier::Namespace {
                span: span(3, 3),
                local: "app".to_string(),
            }],
        },
        ModuleItem::ExportDecl {
            item_ref: 3,
            decl: Decl::Fn {
                name: "f".to_string(),
                fn_ref: 30,
            },
        },
        ModuleItem::ExportDefaultExpr {
            span: span(4, 4),
            expr: Expr::Raw(40),
        },
        ModuleItem::ExportNamed {
            item_ref: 4,
            src: Some("lib".to_string()),
            specifiers: vec![
                ExportSpecifier::Named {
                    span: span(5, 5),
                    orig: ModuleExportName::Ident("a".to_string()),
                    exported: None,
                },
                ExportSpecifier::Named {
                    span: span(6, 6),
                    orig: ModuleExportName::Ident("b".to_string()),
                    exported: None,
                },
            ],
            type_only: false,
        },
        ModuleItem::ExportNamed {
            item_ref: 5,
            src: None,
            specifiers: vec![
                ExportSpecifier::Named {
                    span: span(7, 7),
                    orig: ModuleExportName::Ident("useState".to_string()),
                    exported: Some(ModuleExportName::Ident("hook".to_string())),
                },
                ExportSpecifier::Named {
                    span: span(8, 8),
                    orig: ModuleExportName::Ident("app".to_string()),
                    exported: None,
                },
            ],
            type_only: false,
        },
    ];
    let taken = strings(&["React", "useState", "app", "f"]);
    let out = runtime_plugin("m.js").transform_module(items, taken);
    let registered = run_against_stub(&out);
    // what native resolution would expose for every originally-exported
    // binding, under the same stub registry
    let expected = vec![
        StubEntry::Key("f".to_string(), StubValue::Opaque(30)),
        StubEntry::Key("default".to_string(), StubValue::Opaque(40)),
        StubEntry::Key(
            "a".to_string(),
            StubValue::Member("lib".to_string(), "a".to_string()),
        ),
        StubEntry::Key(
            "b".to_string(),
            StubValue::Member("lib".to_string(), "b".to_string()),
        ),
        StubEntry::Key(
            "hook".to_string(),
            StubValue::Member("react".to_string(), "useState".to_string()),
        ),
        StubEntry::Key("app".to_string(), StubValue::Namespace("core".to_string())),
    ];
    assert_eq!(registered, expected);
}

// ------------------------------------------------------------------
// Concrete scenarios.
// ------------------------------------------------------------------

#[test]
fn runtime_named_export_yields_two_statements() {
    // export const named = f(); in runtime mode, module name "m.js":
    // exactly `const named = f();` then the registry-export call
    let items = vec![ModuleItem::ExportDecl {
        item_ref: 1,
        decl: Decl::Var {
            decl_ref: 2,
            name: Some("named".to_string()),
        },
    }];
    let out = runtime_plugin("m.js").transform_module(items, strings(&["named"]));
    assert_eq!(out.len(), 2);
    assert_eq!(
        out[0],
        ModuleItem::Stmt(Stmt::Decl(Decl::Var {
            decl_ref: 2,
            name: Some("named".to_string()),
        }))
    );
    assert_eq!(
        out[1],
        ModuleItem::Stmt(Stmt::Expr(Expr::Call(
            Box::new(Expr::Member(Box::new(registry()), "export".to_string())),
            vec![
                Expr::Str("m.js".to_string()),
                Expr::Object(vec![ObjProp::KeyValue(
                    "named".to_string(),
                    Expr::Ident("named".to_string()),
                )]),
            ],
        )))
    );
}

#[test]
fn wildcard_reexport_spreads_namespace() {
    // export * from 'mod'; — an import of the whole namespace, then an
    // export whose object spreads it rather than nesting it under a key
    let items = vec![ModuleItem::ExportAll {
        item_ref: 1,
        src: "mod".to_string(),
        type_only: false,
    }];
    let out = runtime_plugin("m.js").transform_module(items, strings(&[]));
    assert_eq!(out.len(), 2);
    let name = match &out[0] {
        ModuleItem::Stmt(Stmt::VarDecl { name, init, .. }) => {
            assert_eq!(*init, import_call("mod"));
            name.clone()
        }
        item => panic!("expected a namespace import, got {:?}", item),
    };
    match &out[1] {
        ModuleItem::Stmt(Stmt::Expr(Expr::Call(_, args))) => {
            assert_eq!(args[1], Expr::Object(vec![ObjProp::Spread(Expr::Ident(name))]));
        }
        item => panic!("expected the export call, got {:?}", item),
    }
}

#[test]
fn default_and_named_import_bind_properties() {
    // import React, { useState } from 'react'; — React from the default
    // property, useState from the useState property of the same import
    let items = vec![ModuleItem::Import {
        item_ref: 1,
        src: "react".to_string(),
        specifiers: vec![
            ImportSpecifier::Default {
                span: span(1, 1),
                local: "React".to_string(),
            },
            ImportSpecifier::Named {
                span: span(2, 2),
                local: "useState".to_string(),
            },
        ],
    }];
    let out = runtime_plugin("m.js").transform_module(items, strings(&["React", "useState"]));
    assert_eq!(
        out[0],
        ModuleItem::Stmt(Stmt::VarDecl {
            span: span(1, 1),
            name: "React".to_string(),
            init: Expr::Member(Box::new(import_call("react")), "default".to_string()),
        })
    );
    assert_eq!(
        out[1],
        ModuleItem::Stmt(Stmt::VarDecl {
            span: span(2, 2),
            name: "useState".to_string(),
            init: Expr::Member(Box::new(import_call("react")), "useState".to_string()),
        })
    );
    assert_eq!(out.len(), 3);
}

#[test]
fn empty_module_registers_null() {
    let out = runtime_plugin("m.js").transform_module(vec![], strings(&[]));
    assert_eq!(
        out,
        vec![ModuleItem::Stmt(Stmt::Expr(Expr::Call(
            Box::new(Expr::Member(Box::new(registry()), "export".to_string())),
            vec![Expr::Str("m.js".to_string()), Expr::Null],
        )))]
    );
}

#[test]
fn duplicate_export_keys_are_kept() {
    // export { a as k }; export { b as k }; — both properties stay, in
    // order; the registry's own merge decides the winner
    let items = vec![
        ModuleItem::ExportNamed {
            item_ref: 1,
            src: None,
            specifiers: vec![ExportSpecifier::Named {
                span: span(1, 1),
                orig: ModuleExportName::Ident("a".to_string()),
                exported: Some(ModuleExportName::Ident("k".to_string())),
            }],
            type_only: false,
        },
        ModuleItem::ExportNamed {
            item_ref: 2,
            src: None,
            specifiers: vec![ExportSpecifier::Named {
                span: span(2, 2),
                orig: ModuleExportName::Ident("b".to_string()),
                exported: Some(ModuleExportName::Ident("k".to_string())),
            }],
            type_only: false,
        },
    ];
    let out = runtime_plugin("m.js").transform_module(items, strings(&["a", "b"]));
    match &out[0] {
        ModuleItem::Stmt(Stmt::Expr(Expr::Call(_, args))) => {
            assert_eq!(
                args[1],
                Expr::Object(vec![
                    ObjProp::KeyValue("k".to_string(), Expr::Ident("a".to_string())),
                    ObjProp::KeyValue("k".to_string(), Expr::Ident("b".to_string())),
                ])
            );
        }
        item => panic!("expected the export call, got {:?}", item),
    }
}

#[test]
fn string_named_reexport_contributes_nothing() {
    // export { "a-b" as x } from 'mod'; — no plain identifier, no records
    let items = vec![ModuleItem::ExportNamed {
        item_ref: 1,
        src: Some("mod".to_string()),
        specifiers: vec![ExportSpecifier::Named {
            span: span(1, 1),
            orig: ModuleExportName::Str("a-b".to_string()),
            exported: Some(ModuleExportName::Ident("x".to_string())),
        }],
        type_only: false,
    }];
    let out = runtime_plugin("m.js").transform_module(items, strings(&[]));
    assert_eq!(
        out,
        vec![ModuleItem::Stmt(Stmt::Expr(Expr::Call(
            Box::new(Expr::Member(Box::new(registry()), "export".to_string())),
            vec![Expr::Str("m.js".to_string()), Expr::Null],
        )))]
    );
}

#[test]
fn other_module_declarations_pass_through_unchanged() {
    // a module-level construct outside the enumerated forms is passed
    // through unchanged and contributes no records, in both modes
    let items = vec![
        ModuleItem::OtherModuleDecl { item_ref: 1 },
        ModuleItem::Stmt(Stmt::Raw(9)),
    ];
    let out = runtime_plugin("m.js").transform_module(items, strings(&[]));
    assert_eq!(out[0], ModuleItem::OtherModuleDecl { item_ref: 1 });
    assert_eq!(out[1], ModuleItem::Stmt(Stmt::Raw(9)));
    assert_eq!(out.len(), 3);
}

#[test]
fn type_only_exports_pass_through_unchanged() {
    // type-only export forms contribute no records and are kept even in
    // runtime mode
    let items = vec![
        ModuleItem::ExportNamed {
            item_ref: 1,
            src: None,
            specifiers: vec![ExportSpecifier::Named {
                span: span(1, 2),
                orig: ModuleExportName::Ident("T".to_string()),
                exported: None,
            }],
            type_only: true,
        },
        ModuleItem::ExportAll {
            item_ref: 2,
            src: "types".to_string(),
            type_only: true,
        },
    ];
    let out = runtime_plugin("m.js").transform_module(items, strings(&[]));
    assert_eq!(
        out[0],
        ModuleItem::ExportNamed {
            item_ref: 1,
            src: None,
            specifiers: vec![ExportSpecifier::Named {
                span: span(1, 2),
                orig: ModuleExportName::Ident("T".to_string()),
                exported: None,
            }],
            type_only: true,
        }
    );
    assert_eq!(
        out[1],
        ModuleItem::ExportAll {
            item_ref: 2,
            src: "types".to_string(),
            type_only: true,
        }
    );
    assert_eq!(out.len(), 3);
}
