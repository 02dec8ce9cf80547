//! Properties of the transform, proved once and for all over its
//! specification: order preservation, completeness of record collection,
//! freshness of synthesized names, and the exact shape of the registered
//! export object.

use vstd::prelude::*;

use crate::ast::{
    SpecExportSpecifier, SpecExpr, SpecModuleExportName, SpecModuleItem, SpecObjProp, SpecStmt,
};
use crate::fresh::lemma_fresh_not_taken;
use crate::module_collector::{
    spec_collect, spec_collect_item, spec_export_decl_records, spec_export_specifier_records,
    spec_is_namespace_reexport, spec_local_export_records, spec_reexport_import_record,
    spec_reexport_import_records, ModuleType, SpecCollectState, SpecExportModule,
};
use crate::transform::{
    spec_export_prop, spec_export_props, spec_import_items, spec_transform, SpecTransformOptions,
};

verus! {

// ------------------------------------------------------------------
// Subsequence: one sequence appears inside another, in order.
// ------------------------------------------------------------------

/// `a` is a subsequence of `b`: all of `a`'s elements occur in `b`, in the
/// same relative order.
pub open spec fn spec_is_subsequence<T>(a: Seq<T>, b: Seq<T>) -> bool
    decreases b.len(),
{
    if a.len() == 0 {
        true
    } else if b.len() == 0 {
        false
    } else {
        (a.first() == b.first() && spec_is_subsequence(a.drop_first(), b.drop_first()))
            || spec_is_subsequence(a, b.drop_first())
    }
}

/// A subsequence survives prepending to the right-hand side.
pub proof fn lemma_subsequence_extend_left<T>(a: Seq<T>, pre: Seq<T>, b: Seq<T>)
    requires
        spec_is_subsequence(a, b),
    ensures
        spec_is_subsequence(a, pre + b),
    decreases pre.len(),
{
    if a.len() == 0 {
    } else if pre.len() == 0 {
        assert(pre + b =~= b);
    } else {
        lemma_subsequence_extend_left(a, pre.drop_first(), b);
        assert((pre + b).drop_first() =~= pre.drop_first() + b);
        assert((pre + b).len() > 0);
    }
}

/// Subsequences compose under concatenation.
pub proof fn lemma_subsequence_concat<T>(a: Seq<T>, b: Seq<T>, c: Seq<T>, d: Seq<T>)
    requires
        spec_is_subsequence(a, b),
        spec_is_subsequence(c, d),
    ensures
        spec_is_subsequence(a + c, b + d),
    decreases b.len(),
{
    if a.len() == 0 {
        assert(a + c =~= c);
        lemma_subsequence_extend_left(c, b, d);
    } else {
        if a.first() == b.first() && spec_is_subsequence(a.drop_first(), b.drop_first()) {
            lemma_subsequence_concat(a.drop_first(), b.drop_first(), c, d);
            assert((a + c).drop_first() =~= a.drop_first() + c);
            assert((b + d).drop_first() =~= b.drop_first() + d);
            assert((a + c).first() == (b + d).first());
        } else {
            lemma_subsequence_concat(a, b.drop_first(), c, d);
            assert((b + d).drop_first() =~= b.drop_first() + d);
        }
        assert((b + d).len() > 0);
        assert((a + c).len() > 0);
    }
}

// ------------------------------------------------------------------
// Order preservation.
// ------------------------------------------------------------------

/// The plain (non-module) statements of an item list, in order.
pub open spec fn spec_plain_stmts(items: Seq<SpecModuleItem>) -> Seq<SpecModuleItem>
    decreases items.len(),
{
    if items.len() == 0 {
        Seq::empty()
    } else {
        spec_plain_stmts(items.drop_last()) + (if items.last() is Stmt {
            seq![items.last()]
        } else {
            Seq::empty()
        })
    }
}

/// Collecting only ever appends to the replacement statement list.
pub proof fn lemma_collect_body_grows(
    runtime: bool,
    st: SpecCollectState,
    items: Seq<SpecModuleItem>,
)
    ensures
        spec_collect(runtime, st, items).body.len() >= st.body.len(),
    decreases items.len(),
{
    if items.len() > 0 {
        lemma_collect_body_grows(runtime, st, items.drop_last());
        lemma_collect_item_extends_body(
            runtime,
            spec_collect(runtime, st, items.drop_last()),
            items.last(),
        );
    }
}

/// Order preservation, collector half: the statements a pass appends to any
/// starting state contain the input's plain statements, unchanged and in
/// their original relative order, whatever the mode.
pub proof fn lemma_collect_preserves_stmt_order(
    runtime: bool,
    st: SpecCollectState,
    items: Seq<SpecModuleItem>,
)
    ensures
        spec_is_subsequence(
            spec_plain_stmts(items),
            spec_collect(runtime, st, items).body.skip(st.body.len() as int),
        ),
    decreases items.len(),
{
    let n = st.body.len() as int;
    if items.len() == 0 {
        assert(spec_collect(runtime, st, items).body.skip(n) =~= Seq::<SpecModuleItem>::empty());
    } else {
        let pre = items.drop_last();
        let last = items.last();
        lemma_collect_preserves_stmt_order(runtime, st, pre);
        lemma_collect_body_grows(runtime, st, pre);
        let st1 = spec_collect(runtime, st, pre);
        let st2 = spec_collect_item(runtime, st1, last);
        lemma_collect_item_extends_body(runtime, st1, last);
        // st2.body extends st1.body by the last item's contribution
        let contribution = st2.body.skip(st1.body.len() as int);
        assert(st2.body =~= st1.body + contribution);
        assert(st2.body.skip(n) =~= st1.body.skip(n) + contribution);
        if last is Stmt {
            assert(spec_plain_stmts(items) =~= spec_plain_stmts(pre) + seq![last]);
            assert(contribution[0] == st2.body[st1.body.len() as int]);
            assert(contribution.first() == last);
            assert(spec_is_subsequence(
                seq![last].drop_first(),
                contribution.drop_first(),
            )) by {
                assert(seq![last].drop_first().len() == 0);
            }
            assert(spec_is_subsequence(seq![last], contribution));
            lemma_subsequence_concat(
                spec_plain_stmts(pre),
                st1.body.skip(n),
                seq![last],
                contribution,
            );
        } else {
            assert(spec_plain_stmts(items) =~= spec_plain_stmts(pre));
            assert(spec_is_subsequence(Seq::<SpecModuleItem>::empty(), contribution));
            lemma_subsequence_concat(
                spec_plain_stmts(pre),
                st1.body.skip(n),
                Seq::empty(),
                contribution,
            );
            assert(spec_plain_stmts(pre) + Seq::<SpecModuleItem>::empty() =~= spec_plain_stmts(
                pre,
            ));
        }
    }
}

/// One collect step only appends to the replacement list; a plain statement
/// is appended unchanged, first.
pub proof fn lemma_collect_item_extends_body(
    runtime: bool,
    st: SpecCollectState,
    item: SpecModuleItem,
)
    ensures
        spec_collect_item(runtime, st, item).body.len() >= st.body.len(),
        spec_collect_item(runtime, st, item).body.take(st.body.len() as int) == st.body,
        item is Stmt ==> spec_collect_item(runtime, st, item).body.len() > st.body.len()
            && spec_collect_item(runtime, st, item).body[st.body.len() as int] == item,
{
    let b2 = spec_collect_item(runtime, st, item).body;
    assert(b2.take(st.body.len() as int) =~= st.body);
}

/// Order preservation, whole transform: the input's plain statements appear
/// in the output unchanged and in their original relative order, and the
/// synthesized import declarations stand at the front, one per import
/// record, in record (source) order.
pub proof fn lemma_order_preservation(
    o: SpecTransformOptions,
    items: Seq<SpecModuleItem>,
    taken: Seq<Seq<char>>,
)
    ensures
        spec_is_subsequence(spec_plain_stmts(items), spec_transform(o, items, taken)),
        ({
            let st = spec_collect(
                o.runtime_module,
                crate::module_collector::spec_initial_state(taken),
                items,
            );
            forall|k: int|
                0 <= k < st.imports.len() ==> spec_transform(o, items, taken)[k]
                    == SpecModuleItem::Stmt(
                    crate::transform::spec_import_stmt(o, st.imports[k]),
                )
        }),
{
    let st0 = crate::module_collector::spec_initial_state(taken);
    let st = spec_collect(o.runtime_module, st0, items);
    lemma_collect_preserves_stmt_order(o.runtime_module, st0, items);
    assert(st.body.skip(0) =~= st.body);
    let pre = spec_import_items(o, st.imports);
    let post = crate::transform::spec_export_items(o, st.exports);
    lemma_subsequence_concat(Seq::empty(), pre, spec_plain_stmts(items), st.body);
    assert(Seq::<SpecModuleItem>::empty() + spec_plain_stmts(items) =~= spec_plain_stmts(items));
    lemma_subsequence_concat(spec_plain_stmts(items), pre + st.body, Seq::empty(), post);
    assert(spec_plain_stmts(items) + Seq::<SpecModuleItem>::empty() =~= spec_plain_stmts(items));
    assert(spec_transform(o, items, taken) =~= (pre + st.body) + post);
}

// ------------------------------------------------------------------
// Completeness: records against forms.
// ------------------------------------------------------------------

/// Whether a specifier is a named specifier with a plain identifier as the
/// original name — the only shape that owes records.
pub open spec fn spec_is_plain_named_specifier(sp: SpecExportSpecifier) -> bool {
    sp matches SpecExportSpecifier::Named { orig: SpecModuleExportName::Ident(_), .. }
}

/// How many specifiers of an `export { ... }` list are named specifiers with
/// a plain identifier as the original name.
pub open spec fn spec_named_specifier_count(sps: Seq<SpecExportSpecifier>) -> nat
    decreases sps.len(),
{
    if sps.len() == 0 {
        0
    } else {
        spec_named_specifier_count(sps.drop_last()) + (
        if spec_is_plain_named_specifier(sps.last()) {
            1nat
        } else {
            0nat
        })
    }
}

/// How many import records one item owes: one per import specifier, one per
/// named re-export specifier, one for a namespace re-export, one for a
/// wildcard re-export.
pub open spec fn spec_import_count_of_item(item: SpecModuleItem) -> nat {
    match item {
        SpecModuleItem::Import { specifiers, .. } => specifiers.len(),
        SpecModuleItem::ExportNamed { src, specifiers, type_only, .. } => {
            if type_only {
                0
            } else {
                match src {
                    Some(_) => if spec_is_namespace_reexport(specifiers) {
                        1
                    } else {
                        spec_named_specifier_count(specifiers)
                    },
                    None => 0,
                }
            }
        },
        SpecModuleItem::ExportAll { type_only, .. } => if type_only {
            0
        } else {
            1
        },
        _ => 0,
    }
}

/// The import records all items owe together.
pub open spec fn spec_total_import_count(items: Seq<SpecModuleItem>) -> nat
    decreases items.len(),
{
    if items.len() == 0 {
        0
    } else {
        spec_total_import_count(items.drop_last()) + spec_import_count_of_item(items.last())
    }
}

proof fn lemma_reexport_records_len(src: Seq<char>, sps: Seq<SpecExportSpecifier>)
    ensures
        spec_reexport_import_records(src, sps).len() == spec_named_specifier_count(sps),
    decreases sps.len(),
{
    if sps.len() > 0 {
        lemma_reexport_records_len(src, sps.drop_last());
        assert(spec_reexport_import_record(src, sps.last()).len() == (
        if spec_is_plain_named_specifier(sps.last()) {
            1int
        } else {
            0int
        }));
    }
}

/// Completeness, collector half: the collector produces exactly one import
/// record per import specifier across all import and re-export forms.
pub proof fn lemma_import_record_count(
    runtime: bool,
    st: SpecCollectState,
    items: Seq<SpecModuleItem>,
)
    ensures
        spec_collect(runtime, st, items).imports.len() == st.imports.len()
            + spec_total_import_count(items),
    decreases items.len(),
{
    if items.len() > 0 {
        let pre = items.drop_last();
        let last = items.last();
        lemma_import_record_count(runtime, st, pre);
        let st1 = spec_collect(runtime, st, pre);
        match last {
            SpecModuleItem::ExportNamed { src, specifiers, type_only, .. } => {
                if !type_only {
                    match src {
                        Some(m) => {
                            if !spec_is_namespace_reexport(specifiers) {
                                lemma_reexport_records_len(m, specifiers);
                            }
                        },
                        None => {},
                    }
                }
            },
            _ => {},
        }
    }
}

/// How many export records one item owes.
pub open spec fn spec_export_count_of_item(item: SpecModuleItem) -> nat {
    match item {
        SpecModuleItem::ExportDecl { decl, .. } => spec_export_decl_records(decl).len(),
        SpecModuleItem::ExportDefaultDecl { decl, .. } => match decl {
            crate::ast::SpecDefaultDecl::Other { .. } => 0,
            _ => 1,
        },
        SpecModuleItem::ExportDefaultExpr { .. } => 1,
        SpecModuleItem::ExportNamed { src, specifiers, type_only, .. } => {
            if type_only {
                0
            } else {
                match src {
                    Some(_) => if spec_is_namespace_reexport(specifiers) {
                        1
                    } else {
                        spec_named_specifier_count(specifiers)
                    },
                    None => spec_named_specifier_count(specifiers),
                }
            }
        },
        SpecModuleItem::ExportAll { type_only, .. } => if type_only {
            0
        } else {
            1
        },
        _ => 0,
    }
}

/// The export records all items owe together.
pub open spec fn spec_total_export_count(items: Seq<SpecModuleItem>) -> nat
    decreases items.len(),
{
    if items.len() == 0 {
        0
    } else {
        spec_total_export_count(items.drop_last()) + spec_export_count_of_item(items.last())
    }
}

proof fn lemma_local_export_records_len(sps: Seq<SpecExportSpecifier>)
    ensures
        spec_local_export_records(sps).len() == spec_named_specifier_count(sps),
    decreases sps.len(),
{
    if sps.len() > 0 {
        lemma_local_export_records_len(sps.drop_last());
        assert(spec_export_specifier_records(sps.last()).len() == (
        if spec_is_plain_named_specifier(sps.last()) {
            1int
        } else {
            0int
        }));
    }
}

/// Completeness, collector half: the collector produces exactly one export
/// record per export form, and one per specifier of an `export { ... }`
/// list.
pub proof fn lemma_export_record_count(
    runtime: bool,
    st: SpecCollectState,
    items: Seq<SpecModuleItem>,
)
    ensures
        spec_collect(runtime, st, items).exports.len() == st.exports.len()
            + spec_total_export_count(items),
    decreases items.len(),
{
    if items.len() > 0 {
        let pre = items.drop_last();
        let last = items.last();
        lemma_export_record_count(runtime, st, pre);
        match last {
            SpecModuleItem::ExportNamed { src, specifiers, type_only, .. } => {
                if !type_only {
                    match src {
                        Some(_) => {
                            if !spec_is_namespace_reexport(specifiers) {
                                lemma_local_export_records_len(specifiers);
                            }
                        },
                        None => {
                            lemma_local_export_records_len(specifiers);
                        },
                    }
                }
            },
            _ => {},
        }
    }
}

/// Completeness, whole transform: the output starts with exactly one
/// synthesized import declaration per import specifier across all import
/// and re-export forms.
pub proof fn lemma_completeness(
    o: SpecTransformOptions,
    items: Seq<SpecModuleItem>,
    taken: Seq<Seq<char>>,
)
    ensures
        ({
            let st = spec_collect(
                o.runtime_module,
                crate::module_collector::spec_initial_state(taken),
                items,
            );
            &&& st.imports.len() == spec_total_import_count(items)
            &&& st.exports.len() == spec_total_export_count(items)
            &&& spec_import_items(o, st.imports).len() == spec_total_import_count(items)
            &&& spec_transform(o, items, taken).take(st.imports.len() as int)
                == spec_import_items(o, st.imports)
        }),
{
    let st0 = crate::module_collector::spec_initial_state(taken);
    let st = spec_collect(o.runtime_module, st0, items);
    lemma_import_record_count(o.runtime_module, st0, items);
    lemma_export_record_count(o.runtime_module, st0, items);
    assert(spec_transform(o, items, taken).take(st.imports.len() as int) =~= spec_import_items(
        o,
        st.imports,
    ));
}

// ------------------------------------------------------------------
// Freshness of synthesized names.
// ------------------------------------------------------------------

/// A prefix's member is the whole sequence's member.
proof fn lemma_prefix_contains(p: Seq<Seq<char>>, s: Seq<Seq<char>>, x: Seq<char>)
    requires
        p.is_prefix_of(s),
        p.contains(x),
    ensures
        s.contains(x),
{
    let i = choose|i: int| 0 <= i < p.len() && p[i] == x;
    assert(s[i] == x);
}

/// Collecting only appends to the taken-name list.
pub proof fn lemma_collect_taken_grows(
    runtime: bool,
    st: SpecCollectState,
    items: Seq<SpecModuleItem>,
)
    ensures
        st.taken.is_prefix_of(spec_collect(runtime, st, items).taken),
    decreases items.len(),
{
    if items.len() > 0 {
        let pre = items.drop_last();
        lemma_collect_taken_grows(runtime, st, pre);
        let st1 = spec_collect(runtime, st, pre);
        let st2 = spec_collect_item(runtime, st1, items.last());
        assert(st1.taken.is_prefix_of(st2.taken)) by {
            assert(st2.taken.take(st1.taken.len() as int) =~= st1.taken);
        }
        assert(st.taken.is_prefix_of(st2.taken)) by {
            assert(st2.taken.take(st.taken.len() as int) =~= st.taken);
        }
    }
}

/// Whether an item is a plain statement in the shape of a synthesized
/// variable declaration. A module handed over by a host holds none: every
/// plain statement of the input is opaque.
pub open spec fn spec_is_var_decl_stmt(item: SpecModuleItem) -> bool {
    item matches SpecModuleItem::Stmt(SpecStmt::VarDecl { .. })
}

/// Freshness: every declaration the collector synthesizes — for an anonymous
/// default export, a default-export expression, a namespace re-export or a
/// wildcard re-export — binds a name that collides with no name in the
/// taken-name list it started from.
pub proof fn lemma_anonymous_default_fresh(
    runtime: bool,
    st: SpecCollectState,
    items: Seq<SpecModuleItem>,
)
    requires
        forall|j: int| 0 <= j < items.len() ==> !spec_is_var_decl_stmt(items[j]),
        forall|j: int|
            0 <= j < st.body.len() ==> (spec_is_var_decl_stmt(st.body[j]) ==> !st.taken.contains(
                st.body[j]->Stmt_0->VarDecl_name,
            )),
    ensures
        forall|j: int|
            0 <= j < spec_collect(runtime, st, items).body.len() ==> (spec_is_var_decl_stmt(
                spec_collect(runtime, st, items).body[j],
            ) ==> !st.taken.contains(
                spec_collect(runtime, st, items).body[j]->Stmt_0->VarDecl_name,
            )),
    decreases items.len(),
{
    if items.len() > 0 {
        let pre = items.drop_last();
        let last = items.last();
        assert(forall|j: int| 0 <= j < pre.len() ==> !spec_is_var_decl_stmt(pre[j]));
        lemma_anonymous_default_fresh(runtime, st, pre);
        lemma_collect_taken_grows(runtime, st, pre);
        let st1 = spec_collect(runtime, st, pre);
        let st2 = spec_collect_item(runtime, st1, last);
        assert forall|j: int|
            0 <= j < st2.body.len() && spec_is_var_decl_stmt(st2.body[j]) implies !st.taken.contains(
            st2.body[j]->Stmt_0->VarDecl_name,
        ) by {
            if j < st1.body.len() {
                assert(st2.body[j] == st1.body[j]) by {
                    lemma_collect_item_extends_body(runtime, st1, last);
                    assert(st2.body.take(st1.body.len() as int)[j] == st2.body[j]);
                }
            } else {
                // a statement the last item contributed
                let name = st2.body[j]->Stmt_0->VarDecl_name;
                match last {
                    SpecModuleItem::ExportDefaultDecl { decl, .. } => {
                        lemma_fresh_not_taken(st1.taken, "__export_default"@);
                        if st.taken.contains(name) {
                            lemma_prefix_contains(st.taken, st1.taken, name);
                        }
                    },
                    SpecModuleItem::ExportDefaultExpr { .. } => {
                        lemma_fresh_not_taken(st1.taken, "__export_default"@);
                        if st.taken.contains(name) {
                            lemma_prefix_contains(st.taken, st1.taken, name);
                        }
                    },
                    _ => {},
                }
            }
        }
    }
}

// ------------------------------------------------------------------
// Registration: the export object's exact shape.
// ------------------------------------------------------------------

/// The public key one export record owes the registry, or `None` for a
/// spread, whose keys only the registry knows.
pub open spec fn spec_export_key(r: SpecExportModule) -> Option<Seq<char>> {
    match r.module_type {
        ModuleType::Default => Some("default"@),
        ModuleType::Named => match r.as_ident {
            Some(a) => Some(a),
            None => Some(r.ident),
        },
        ModuleType::NamespaceOrAll => match r.as_ident {
            Some(a) => Some(a),
            None => None,
        },
    }
}

/// Registration is exact: the export object holds one property per record,
/// in record order; each keyed record contributes exactly its public key,
/// mapped to its local identifier, and each keyless namespace record
/// contributes exactly one spread of its local identifier — no extra
/// properties, none missing. Registering twice with the same records builds
/// the identical object.
pub proof fn lemma_registration_keys(rs: Seq<SpecExportModule>)
    ensures
        spec_export_props(rs).len() == rs.len(),
        forall|i: int|
            0 <= i < rs.len() ==> match #[trigger] spec_export_key(rs[i]) {
                Some(k) => spec_export_props(rs)[i] == SpecObjProp::KeyValue(
                    k,
                    SpecExpr::Ident(rs[i].ident),
                ),
                None => spec_export_props(rs)[i] == SpecObjProp::Spread(
                    SpecExpr::Ident(rs[i].ident),
                ),
            },
{
    assert forall|i: int| 0 <= i < rs.len() implies match #[trigger] spec_export_key(rs[i]) {
        Some(k) => spec_export_props(rs)[i] == SpecObjProp::KeyValue(
            k,
            SpecExpr::Ident(rs[i].ident),
        ),
        None => spec_export_props(rs)[i] == SpecObjProp::Spread(
            SpecExpr::Ident(rs[i].ident),
        ),
    } by {
        assert(spec_export_props(rs)[i] == spec_export_prop(rs[i]));
    }
}

} // verus!
