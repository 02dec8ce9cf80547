//! Bundle-time mode: native module syntax is kept for a later bundler pass,
//! with the registry calls added alongside it.

use react_native_esbuild_module::ast::{
    Decl, DefaultDecl, Expr, ExportSpecifier, ImportSpecifier, ModuleExportName, ModuleItem,
    ObjProp, SrcSpan, Stmt,
};
use react_native_esbuild_module::transform::{ReactNativeEsbuildModule, RegistryConvention};

const DUMMY: SrcSpan = SrcSpan { lo: 0, hi: 0 };

fn plugin() -> ReactNativeEsbuildModule {
    ReactNativeEsbuildModule {
        module_name: "test.js".to_string(),
        runtime_module: false, // bundle time
        registry_global_name: "global".to_string(),
        registry_object_key: "__modules".to_string(),
        convention: RegistryConvention::Call,
    }
}

fn span(lo: u32, hi: u32) -> SrcSpan {
    SrcSpan { lo, hi }
}

fn registry() -> Expr {
    Expr::Member(
        Box::new(Expr::Ident("global".to_string())),
        "__modules".to_string(),
    )
}

fn import_call(src: &str) -> Expr {
    Expr::Call(
        Box::new(Expr::Member(Box::new(registry()), "import".to_string())),
        vec![Expr::Str(src.to_string())],
    )
}

fn named_import_stmt(src: &str, sp: SrcSpan, name: &str) -> Stmt {
    Stmt::VarDecl {
        span: sp,
        name: name.to_string(),
        init: Expr::Member(Box::new(import_call(src)), name.to_string()),
    }
}

fn export_stmt(props: Vec<ObjProp>) -> Stmt {
    Stmt::Expr(Expr::Call(
        Box::new(Expr::Member(Box::new(registry()), "export".to_string())),
        vec![Expr::Str("test.js".to_string()), Expr::Object(props)],
    ))
}

fn export_null_stmt() -> Stmt {
    Stmt::Expr(Expr::Call(
        Box::new(Expr::Member(Box::new(registry()), "export".to_string())),
        vec![Expr::Str("test.js".to_string()), Expr::Null],
    ))
}

fn key_value(key: &str, ident: &str) -> ObjProp {
    ObjProp::KeyValue(key.to_string(), Expr::Ident(ident.to_string()))
}

fn native_default_of(name: &str) -> ModuleItem {
    ModuleItem::ExportDefaultExpr {
        span: DUMMY,
        expr: Expr::Ident(name.to_string()),
    }
}

fn strings(names: &[&str]) -> Vec<String> {
    names.iter().map(|n| n.to_string()).collect()
}

#[test]
fn bundle_time_export_named_var_decl() {
    // export const named = new Instance();
    let items = vec![ModuleItem::ExportDecl {
        item_ref: 1,
        decl: Decl::Var {
            decl_ref: 2,
            name: Some("named".to_string()),
        },
    }];
    let out = plugin().transform_module(items, strings(&["named"]));
    assert_eq!(
        out,
        vec![
            ModuleItem::ExportDecl {
                item_ref: 1,
                decl: Decl::Var {
                    decl_ref: 2,
                    name: Some("named".to_string()),
                },
            },
            ModuleItem::Stmt(export_stmt(vec![key_value("named", "named")])),
        ]
    );
}

#[test]
fn bundle_time_export_named_fn_decl() {
    // export function namedFunction() { ... }
    let items = vec![ModuleItem::ExportDecl {
        item_ref: 1,
        decl: Decl::Fn {
            name: "namedFunction".to_string(),
            fn_ref: 2,
        },
    }];
    let out = plugin().transform_module(items, strings(&["namedFunction"]));
    assert_eq!(
        out,
        vec![
            ModuleItem::ExportDecl {
                item_ref: 1,
                decl: Decl::Fn {
                    name: "namedFunction".to_string(),
                    fn_ref: 2,
                },
            },
            ModuleItem::Stmt(export_stmt(vec![key_value("namedFunction", "namedFunction")])),
        ]
    );
}

#[test]
fn bundle_time_export_named() {
    // const plain = 0;
    // const beforeRename = 1;
    // export { plain, beforeRename as afterRename };
    let items = vec![
        ModuleItem::Stmt(Stmt::Raw(10)),
        ModuleItem::Stmt(Stmt::Raw(11)),
        ModuleItem::ExportNamed {
            item_ref: 1,
            src: None,
            specifiers: vec![
                ExportSpecifier::Named {
                    span: span(1, 2),
                    orig: ModuleExportName::Ident("plain".to_string()),
                    exported: None,
                },
                ExportSpecifier::Named {
                    span: span(3, 4),
                    orig: ModuleExportName::Ident("beforeRename".to_string()),
                    exported: Some(ModuleExportName::Ident("afterRename".to_string())),
                },
            ],
            type_only: false,
        },
    ];
    let out = plugin().transform_module(items, strings(&["plain", "beforeRename"]));
    assert_eq!(
        out,
        vec![
            ModuleItem::Stmt(Stmt::Raw(10)),
            ModuleItem::Stmt(Stmt::Raw(11)),
            ModuleItem::ExportNamed {
                item_ref: 1,
                src: None,
                specifiers: vec![
                    ExportSpecifier::Named {
                        span: span(1, 2),
                        orig: ModuleExportName::Ident("plain".to_string()),
                        exported: None,
                    },
                    ExportSpecifier::Named {
                        span: span(3, 4),
                        orig: ModuleExportName::Ident("beforeRename".to_string()),
                        exported: Some(ModuleExportName::Ident("afterRename".to_string())),
                    },
                ],
                type_only: false,
            },
            ModuleItem::Stmt(export_stmt(vec![
                key_value("plain", "plain"),
                key_value("afterRename", "beforeRename"),
            ])),
        ]
    );
}

#[test]
fn bundle_time_keeps_import_decl() {
    // import { useState } from 'react'; — kept verbatim, registry call added
    let items = vec![ModuleItem::Import {
        item_ref: 1,
        src: "react".to_string(),
        specifiers: vec![ImportSpecifier::Named {
            span: span(1, 2),
            local: "useState".to_string(),
        }],
    }];
    let out = plugin().transform_module(items, strings(&["useState"]));
    assert_eq!(
        out,
        vec![
            ModuleItem::Stmt(named_import_stmt("react", span(1, 2), "useState")),
            ModuleItem::Import {
                item_ref: 1,
                src: "react".to_string(),
                specifiers: vec![ImportSpecifier::Named {
                    span: span(1, 2),
                    local: "useState".to_string(),
                }],
            },
            ModuleItem::Stmt(export_null_stmt()),
        ]
    );
}

#[test]
fn bundle_time_export_named_with_alias() {
    // export * as rename from 'module';
    let items = vec![ModuleItem::ExportNamed {
        item_ref: 1,
        src: Some("module".to_string()),
        specifiers: vec![ExportSpecifier::Namespace {
            span: span(1, 2),
            name: ModuleExportName::Ident("rename".to_string()),
        }],
        type_only: false,
    }];
    let out = plugin().transform_module(items, strings(&[]));
    assert_eq!(
        out,
        vec![
            ModuleItem::Stmt(Stmt::VarDecl {
                span: span(1, 2),
                name: "__export_named".to_string(),
                init: import_call("module"),
            }),
            ModuleItem::ExportNamed {
                item_ref: 1,
                src: Some("module".to_string()),
                specifiers: vec![ExportSpecifier::Namespace {
                    span: span(1, 2),
                    name: ModuleExportName::Ident("rename".to_string()),
                }],
                type_only: false,
            },
            ModuleItem::Stmt(export_stmt(vec![key_value("rename", "__export_named")])),
        ]
    );
}

#[test]
fn bundle_time_export_default_expr() {
    // export default 0; — also re-emits `export default __export_default;`
    let items = vec![ModuleItem::ExportDefaultExpr {
        span: span(1, 2),
        expr: Expr::Raw(42),
    }];
    let out = plugin().transform_module(items, strings(&[]));
    assert_eq!(
        out,
        vec![
            ModuleItem::Stmt(Stmt::VarDecl {
                span: DUMMY,
                name: "__export_default".to_string(),
                init: Expr::Raw(42),
            }),
            native_default_of("__export_default"),
            ModuleItem::Stmt(export_stmt(vec![key_value("default", "__export_default")])),
        ]
    );
}

#[test]
fn bundle_time_export_default_decl() {
    // export default class ClassDecl {} — re-emits `export default ClassDecl;`
    let items = vec![ModuleItem::ExportDefaultDecl {
        item_ref: 1,
        decl: DefaultDecl::Class {
            name: Some("ClassDecl".to_string()),
            class_ref: 2,
        },
    }];
    let out = plugin().transform_module(items, strings(&["ClassDecl"]));
    assert_eq!(
        out,
        vec![
            ModuleItem::Stmt(Stmt::Decl(Decl::Class {
                name: "ClassDecl".to_string(),
                class_ref: 2,
            })),
            native_default_of("ClassDecl"),
            ModuleItem::Stmt(export_stmt(vec![key_value("default", "ClassDecl")])),
        ]
    );
}

#[test]
fn bundle_time_export_default_decl_anonymous() {
    // export default function () {}
    let items = vec![ModuleItem::ExportDefaultDecl {
        item_ref: 1,
        decl: DefaultDecl::Fn {
            name: None,
            fn_ref: 2,
        },
    }];
    let out = plugin().transform_module(items, strings(&[]));
    assert_eq!(
        out,
        vec![
            ModuleItem::Stmt(Stmt::VarDecl {
                span: DUMMY,
                name: "__export_default".to_string(),
                init: Expr::Raw(2),
            }),
            native_default_of("__export_default"),
            ModuleItem::Stmt(export_stmt(vec![key_value("default", "__export_default")])),
        ]
    );
}

#[test]
fn bundle_time_export_all() {
    // export * from 'module'; — kept, spread registered
    let items = vec![ModuleItem::ExportAll {
        item_ref: 1,
        src: "module".to_string(),
        type_only: false,
    }];
    let out = plugin().transform_module(items, strings(&[]));
    assert_eq!(
        out,
        vec![
            ModuleItem::Stmt(Stmt::VarDecl {
                span: DUMMY,
                name: "__export_all".to_string(),
                init: import_call("module"),
            }),
            ModuleItem::ExportAll {
                item_ref: 1,
                src: "module".to_string(),
                type_only: false,
            },
            ModuleItem::Stmt(export_stmt(vec![ObjProp::Spread(Expr::Ident(
                "__export_all".to_string(),
            ))])),
        ]
    );
}

fn ab_specifiers() -> Vec<ExportSpecifier> {
    vec![
        ExportSpecifier::Named {
            span: span(1, 2),
            orig: ModuleExportName::Ident("a".to_string()),
            exported: None,
        },
        ExportSpecifier::Named {
            span: span(3, 4),
            orig: ModuleExportName::Ident("b".to_string()),
            exported: None,
        },
    ]
}

#[test]
fn bundle_time_export_all_partial() {
    // export { a, b } from 'module'; — kept, imports and registration added
    let items = vec![ModuleItem::ExportNamed {
        item_ref: 1,
        src: Some("module".to_string()),
        specifiers: ab_specifiers(),
        type_only: false,
    }];
    let out = plugin().transform_module(items, strings(&[]));
    assert_eq!(
        out,
        vec![
            ModuleItem::Stmt(named_import_stmt("module", span(1, 2), "a")),
            ModuleItem::Stmt(named_import_stmt("module", span(3, 4), "b")),
            ModuleItem::ExportNamed {
                item_ref: 1,
                src: Some("module".to_string()),
                specifiers: ab_specifiers(),
                type_only: false,
            },
            ModuleItem::Stmt(export_stmt(vec![
                key_value("a", "a"),
                key_value("b", "b"),
            ])),
        ]
    );
}

#[test]
fn bundle_time_type_only_export_kept() {
    // a type-only export contributes no records and is kept in bundle mode
    let items = vec![ModuleItem::ExportNamed {
        item_ref: 1,
        src: None,
        specifiers: vec![ExportSpecifier::Named {
            span: span(1, 2),
            orig: ModuleExportName::Ident("T".to_string()),
            exported: None,
        }],
        type_only: true,
    }];
    let out = plugin().transform_module(items, strings(&[]));
    assert_eq!(
        out,
        vec![
            ModuleItem::ExportNamed {
                item_ref: 1,
                src: None,
                specifiers: vec![ExportSpecifier::Named {
                    span: span(1, 2),
                    orig: ModuleExportName::Ident("T".to_string()),
                    exported: None,
                }],
                type_only: true,
            },
            ModuleItem::Stmt(export_null_stmt()),
        ]
    );
}
