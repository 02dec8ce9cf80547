//! Export declarations in runtime-module mode, under the call convention.

use react_native_esbuild_module::ast::{
    Decl, DefaultDecl, Expr, ExportSpecifier, ImportSpecifier, ModuleExportName, ModuleItem,
    ObjProp, SrcSpan, Stmt,
};
use react_native_esbuild_module::transform::ReactNativeEsbuildModule;

const DUMMY: SrcSpan = SrcSpan { lo: 0, hi: 0 };

fn plugin() -> ReactNativeEsbuildModule {
    ReactNativeEsbuildModule::default("test.js".to_string())
}

fn span(lo: u32, hi: u32) -> SrcSpan {
    SrcSpan { lo, hi }
}

fn registry() -> Expr {
    Expr::Member(
        Box::new(Expr::Ident("global".to_string())),
        "__modules".to_string(),
    )
}

fn import_call(src: &str) -> Expr {
    Expr::Call(
        Box::new(Expr::Member(Box::new(registry()), "import".to_string())),
        vec![Expr::Str(src.to_string())],
    )
}

fn named_import_stmt(src: &str, sp: SrcSpan, name: &str) -> Stmt {
    Stmt::VarDecl {
        span: sp,
        name: name.to_string(),
        init: Expr::Member(Box::new(import_call(src)), name.to_string()),
    }
}

fn export_stmt(props: Vec<ObjProp>) -> Stmt {
    Stmt::Expr(Expr::Call(
        Box::new(Expr::Member(Box::new(registry()), "export".to_string())),
        vec![Expr::Str("test.js".to_string()), Expr::Object(props)],
    ))
}

fn key_value(key: &str, ident: &str) -> ObjProp {
    ObjProp::KeyValue(key.to_string(), Expr::Ident(ident.to_string()))
}

fn strings(names: &[&str]) -> Vec<String> {
    names.iter().map(|n| n.to_string()).collect()
}

#[test]
fn export_named_var_decl() {
    // export const named = new Instance();
    let items = vec![ModuleItem::ExportDecl {
        item_ref: 1,
        decl: Decl::Var {
            decl_ref: 2,
            name: Some("named".to_string()),
        },
    }];
    let out = plugin().transform_module(items, strings(&["named"]));
    assert_eq!(
        out,
        vec![
            ModuleItem::Stmt(Stmt::Decl(Decl::Var {
                decl_ref: 2,
                name: Some("named".to_string()),
            })),
            ModuleItem::Stmt(export_stmt(vec![key_value("named", "named")])),
        ]
    );
}

#[test]
fn export_named_fn_decl() {
    // export function namedFunction() { ... }
    let items = vec![ModuleItem::ExportDecl {
        item_ref: 1,
        decl: Decl::Fn {
            name: "namedFunction".to_string(),
            fn_ref: 2,
        },
    }];
    let out = plugin().transform_module(items, strings(&["namedFunction"]));
    assert_eq!(
        out,
        vec![
            ModuleItem::Stmt(Stmt::Decl(Decl::Fn {
                name: "namedFunction".to_string(),
                fn_ref: 2,
            })),
            ModuleItem::Stmt(export_stmt(vec![key_value("namedFunction", "namedFunction")])),
        ]
    );
}

#[test]
fn export_named() {
    // const plain = 0;
    // const beforeRename = 1;
    // export { plain, beforeRename as afterRename };
    let items = vec![
        ModuleItem::Stmt(Stmt::Raw(10)),
        ModuleItem::Stmt(Stmt::Raw(11)),
        ModuleItem::ExportNamed {
            item_ref: 1,
            src: None,
            specifiers: vec![
                ExportSpecifier::Named {
                    span: span(1, 2),
                    orig: ModuleExportName::Ident("plain".to_string()),
                    exported: None,
                },
                ExportSpecifier::Named {
                    span: span(3, 4),
                    orig: ModuleExportName::Ident("beforeRename".to_string()),
                    exported: Some(ModuleExportName::Ident("afterRename".to_string())),
                },
            ],
            type_only: false,
        },
    ];
    let out = plugin().transform_module(items, strings(&["plain", "beforeRename"]));
    assert_eq!(
        out,
        vec![
            ModuleItem::Stmt(Stmt::Raw(10)),
            ModuleItem::Stmt(Stmt::Raw(11)),
            ModuleItem::Stmt(export_stmt(vec![
                key_value("plain", "plain"),
                key_value("afterRename", "beforeRename"),
            ])),
        ]
    );
}

#[test]
fn export_named_with_alias() {
    // export * as rename from 'module';
    let items = vec![ModuleItem::ExportNamed {
        item_ref: 1,
        src: Some("module".to_string()),
        specifiers: vec![ExportSpecifier::Namespace {
            span: span(1, 2),
            name: ModuleExportName::Ident("rename".to_string()),
        }],
        type_only: false,
    }];
    let out = plugin().transform_module(items, strings(&[]));
    assert_eq!(
        out,
        vec![
            ModuleItem::Stmt(Stmt::VarDecl {
                span: span(1, 2),
                name: "__export_named".to_string(),
                init: import_call("module"),
            }),
            ModuleItem::Stmt(export_stmt(vec![key_value("rename", "__export_named")])),
        ]
    );
}

#[test]
fn export_default_expr() {
    // export default 0;
    let items = vec![ModuleItem::ExportDefaultExpr {
        span: span(1, 2),
        expr: Expr::Raw(42),
    }];
    let out = plugin().transform_module(items, strings(&[]));
    assert_eq!(
        out,
        vec![
            ModuleItem::Stmt(Stmt::VarDecl {
                span: DUMMY,
                name: "__export_default".to_string(),
                init: Expr::Raw(42),
            }),
            ModuleItem::Stmt(export_stmt(vec![key_value("default", "__export_default")])),
        ]
    );
}

#[test]
fn export_default_decl() {
    // export default class ClassDecl {}
    let items = vec![ModuleItem::ExportDefaultDecl {
        item_ref: 1,
        decl: DefaultDecl::Class {
            name: Some("ClassDecl".to_string()),
            class_ref: 2,
        },
    }];
    let out = plugin().transform_module(items, strings(&["ClassDecl"]));
    assert_eq!(
        out,
        vec![
            ModuleItem::Stmt(Stmt::Decl(Decl::Class {
                name: "ClassDecl".to_string(),
                class_ref: 2,
            })),
            ModuleItem::Stmt(export_stmt(vec![key_value("default", "ClassDecl")])),
        ]
    );
}

#[test]
fn export_default_decl_anonymous() {
    // export default class {}
    let items = vec![ModuleItem::ExportDefaultDecl {
        item_ref: 1,
        decl: DefaultDecl::Class {
            name: None,
            class_ref: 2,
        },
    }];
    let out = plugin().transform_module(items, strings(&[]));
    assert_eq!(
        out,
        vec![
            ModuleItem::Stmt(Stmt::VarDecl {
                span: DUMMY,
                name: "__export_default".to_string(),
                init: Expr::Raw(2),
            }),
            ModuleItem::Stmt(export_stmt(vec![key_value("default", "__export_default")])),
        ]
    );
}

#[test]
fn export_all() {
    // export * from 'module';
    let items = vec![ModuleItem::ExportAll {
        item_ref: 1,
        src: "module".to_string(),
        type_only: false,
    }];
    let out = plugin().transform_module(items, strings(&[]));
    assert_eq!(
        out,
        vec![
            ModuleItem::Stmt(Stmt::VarDecl {
                span: DUMMY,
                name: "__export_all".to_string(),
                init: import_call("module"),
            }),
            ModuleItem::Stmt(export_stmt(vec![ObjProp::Spread(Expr::Ident(
                "__export_all".to_string(),
            ))])),
        ]
    );
}

#[test]
fn export_all_partial() {
    // export { a, b, c } from 'module';
    let specifiers = vec![
        ExportSpecifier::Named {
            span: span(1, 2),
            orig: ModuleExportName::Ident("a".to_string()),
            exported: None,
        },
        ExportSpecifier::Named {
            span: span(3, 4),
            orig: ModuleExportName::Ident("b".to_string()),
            exported: None,
        },
        ExportSpecifier::Named {
            span: span(5, 6),
            orig: ModuleExportName::Ident("c".to_string()),
            exported: None,
        },
    ];
    let items = vec![ModuleItem::ExportNamed {
        item_ref: 1,
        src: Some("module".to_string()),
        specifiers,
        type_only: false,
    }];
    let out = plugin().transform_module(items, strings(&[]));
    assert_eq!(
        out,
        vec![
            ModuleItem::Stmt(named_import_stmt("module", span(1, 2), "a")),
            ModuleItem::Stmt(named_import_stmt("module", span(3, 4), "b")),
            ModuleItem::Stmt(named_import_stmt("module", span(5, 6), "c")),
            ModuleItem::Stmt(export_stmt(vec![
                key_value("a", "a"),
                key_value("b", "b"),
                key_value("c", "c"),
            ])),
        ]
    );
}

#[test]
fn export_mixed() {
    // import React, { useState, useEffect } from 'react';
    // import { Container, Section, Button, Text } from '@app/components';
    // import { useCustomHook } from '@app/hooks';
    // import * as app from '@app/core';
    // export function MyComponent () { ... }
    // export default class { ... }
    // export { app, useCustomHook };
    let items = vec![
        ModuleItem::Import {
            item_ref: 1,
            src: "react".to_string(),
            specifiers: vec![
                ImportSpecifier::Default {
                    span: span(1, 1),
                    local: "React".to_string(),
                },
                ImportSpecifier::Named {
                    span: span(2, 2),
                    local: "useState".to_string(),
                },
                ImportSpecifier::Named {
                    span: span(3, 3),
                    local: "useEffect".to_string(),
                },
            ],
        },
        ModuleItem::Import {
            item_ref: 2,
            src: "@app/components".to_string(),
            specifiers: vec![
                ImportSpecifier::Named {
                    span: span(4, 4),
                    local: "Container".to_string(),
                },
                ImportSpecifier::Named {
                    span: span(5, 5),
                    local: "Section".to_string(),
                },
                ImportSpecifier::Named {
                    span: span(6, 6),
                    local: "Button".to_string(),
                },
                ImportSpecifier::Named {
                    span: span(7, 7),
                    local: "Text".to_string(),
                },
            ],
        },
        ModuleItem::Import {
            item_ref: 3,
            src: "@app/hooks".to_string(),
            specifiers: vec![ImportSpecifier::Named {
                span: span(8, 8),
                local: "useCustomHook".to_string(),
            }],
        },
        ModuleItem::Import {
            item_ref: 4,
            src: "@app/core".to_string(),
            specifiers: vec![ImportSpecifier::Namespace {
                span: span(9, 9),
                local: "app".to_string(),
            }],
        },
        ModuleItem::ExportDecl {
            item_ref: 5,
            decl: Decl::Fn {
                name: "MyComponent".to_string(),
                fn_ref: 50,
            },
        },
        ModuleItem::ExportDefaultDecl {
            item_ref: 6,
            decl: DefaultDecl::Class {
                name: None,
                class_ref: 60,
            },
        },
        ModuleItem::ExportNamed {
            item_ref: 7,
            src: None,
            specifiers: vec![
                ExportSpecifier::Named {
                    span: span(10, 10),
                    orig: ModuleExportName::Ident("app".to_string()),
                    exported: None,
                },
                ExportSpecifier::Named {
                    span: span(11, 11),
                    orig: ModuleExportName::Ident("useCustomHook".to_string()),
                    exported: None,
                },
            ],
            type_only: false,
        },
    ];
    let taken = strings(&[
        "React",
        "useState",
        "useEffect",
        "Container",
        "Section",
        "Button",
        "Text",
        "useCustomHook",
        "app",
        "MyComponent",
    ]);
    let out = plugin().transform_module(items, taken);
    assert_eq!(
        out,
        vec![
            ModuleItem::Stmt(Stmt::VarDecl {
                span: span(1, 1),
                name: "React".to_string(),
                init: Expr::Member(Box::new(import_call("react")), "default".to_string()),
            }),
            ModuleItem::Stmt(named_import_stmt("react", span(2, 2), "useState")),
            ModuleItem::Stmt(named_import_stmt("react", span(3, 3), "useEffect")),
            ModuleItem::Stmt(named_import_stmt("@app/components", span(4, 4), "Container")),
            ModuleItem::Stmt(named_import_stmt("@app/components", span(5, 5), "Section")),
            ModuleItem::Stmt(named_import_stmt("@app/components", span(6, 6), "Button")),
            ModuleItem::Stmt(named_import_stmt("@app/components", span(7, 7), "Text")),
            ModuleItem::Stmt(named_import_stmt("@app/hooks", span(8, 8), "useCustomHook")),
            ModuleItem::Stmt(Stmt::VarDecl {
                span: span(9, 9),
                name: "app".to_string(),
                init: import_call("@app/core"),
            }),
            ModuleItem::Stmt(Stmt::Decl(Decl::Fn {
                name: "MyComponent".to_string(),
                fn_ref: 50,
            })),
            ModuleItem::Stmt(Stmt::VarDecl {
                span: DUMMY,
                name: "__export_default".to_string(),
                init: Expr::Raw(60),
            }),
            ModuleItem::Stmt(export_stmt(vec![
                key_value("MyComponent", "MyComponent"),
                key_value("default", "__export_default"),
                key_value("app", "app"),
                key_value("useCustomHook", "useCustomHook"),
            ])),
        ]
    );
}
