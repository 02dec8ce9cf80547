//! Round-trip equivalence against a stub registry.
//!
//! The stub registry's import operation answers every request for a module
//! `src` with one opaque namespace object per `src`; its export operation
//! records the entries it is handed. Under that registry, a module's
//! top-level bindings take values in [`SpecStubValue`], and both the native
//! module semantics and the transformed statement list expose a sequence of
//! [`SpecStubEntry`] — the theorem at the end states that the two sequences
//! are equal.

use vstd::prelude::*;

use crate::ast::{
    spec_dummy_span, SpecDecl, SpecDefaultDecl, SpecExportSpecifier, SpecExpr,
    SpecImportSpecifier, SpecModuleExportName, SpecModuleItem, SpecObjProp, SpecStmt,
};
use crate::fresh::spec_fresh;
use crate::module_collector::{
    spec_collect, spec_collect_item, spec_default_export, spec_export_decl_records,
    spec_export_specifier_records, spec_import_records, spec_initial_state,
    spec_is_namespace_reexport, spec_local_export_records, spec_reexport_import_record,
    spec_reexport_import_records, ModuleType, SpecCollectState, SpecExportModule,
    SpecImportModule,
};
use crate::transform::{
    spec_export_items, spec_export_props, spec_import_call, spec_import_items, spec_import_stmt,
    spec_transform, RegistryConvention, SpecTransformOptions,
};

verus! {

/// What a binding evaluates to under the stub registry.
pub ghost enum SpecStubValue {
    /// property `key` of the stub namespace for module `src`
    Member(Seq<char>, Seq<char>),
    /// the whole stub namespace for module `src`
    Namespace(Seq<char>),
    /// the value of an uninspected expression or function/class payload
    Opaque(u64),
    /// whatever the uninspected declaration `decl_ref` binds to this name
    DeclBound(u64, Seq<char>),
    /// a module-local binding the transform did not create and cannot see
    Local(Seq<char>),
}

/// One entry the stub registry records at registration.
pub ghost enum SpecStubEntry {
    Key(Seq<char>, SpecStubValue),
    SpreadNamespace(Seq<char>),
}

/// The value of a declaration initializer, evaluated structurally: the
/// synthesized initializers never reference other bindings.
pub open spec fn spec_init_value(init: SpecExpr) -> SpecStubValue
    decreases init,
{
    match init {
        SpecExpr::Raw(t) => SpecStubValue::Opaque(t),
        SpecExpr::Call(_, args) => if args.len() == 1 && args[0] is Str {
            SpecStubValue::Namespace(args[0]->Str_0)
        } else {
            SpecStubValue::Local(Seq::empty())
        },
        SpecExpr::ComputedMember(_, index) => if *index is Str {
            SpecStubValue::Namespace(index->Str_0)
        } else {
            SpecStubValue::Local(Seq::empty())
        },
        SpecExpr::Member(obj, key) => match spec_init_value(*obj) {
            SpecStubValue::Namespace(src) => SpecStubValue::Member(src, key),
            _ => SpecStubValue::Local(Seq::empty()),
        },
        SpecExpr::Ident(n) => SpecStubValue::Local(n),
        _ => SpecStubValue::Local(Seq::empty()),
    }
}

/// The binding one import specifier establishes.
pub open spec fn spec_import_specifier_binding(src: Seq<char>, sp: SpecImportSpecifier) -> (
    Seq<char>,
    SpecStubValue,
) {
    match sp {
        SpecImportSpecifier::Default { local, .. } => (
            local,
            SpecStubValue::Member(src, "default"@),
        ),
        SpecImportSpecifier::Named { local, .. } => (local, SpecStubValue::Member(src, local)),
        SpecImportSpecifier::Namespace { local, .. } => (local, SpecStubValue::Namespace(src)),
    }
}

/// The binding one synthesized import record establishes.
pub open spec fn spec_import_record_binding(r: SpecImportModule) -> (Seq<char>, SpecStubValue) {
    match r.module_type {
        ModuleType::Default => (r.ident, SpecStubValue::Member(r.module_src, "default"@)),
        ModuleType::Named => (r.ident, SpecStubValue::Member(r.module_src, r.ident)),
        ModuleType::NamespaceOrAll => (r.ident, SpecStubValue::Namespace(r.module_src)),
    }
}

/// The bindings a declaration establishes, as far as the model reads them.
pub open spec fn spec_decl_bindings(d: SpecDecl) -> Seq<(Seq<char>, SpecStubValue)> {
    match d {
        SpecDecl::Var { decl_ref, name: Some(n) } => seq![
            (n, SpecStubValue::DeclBound(decl_ref, n)),
        ],
        SpecDecl::Var { name: None, .. } => Seq::empty(),
        SpecDecl::Fn { name, fn_ref } => seq![(name, SpecStubValue::Opaque(fn_ref))],
        SpecDecl::Class { name, class_ref } => seq![(name, SpecStubValue::Opaque(class_ref))],
        SpecDecl::Other { .. } => Seq::empty(),
    }
}

/// The bindings one top-level item establishes.
pub open spec fn spec_item_bindings(item: SpecModuleItem) -> Seq<(Seq<char>, SpecStubValue)> {
    match item {
        SpecModuleItem::Stmt(SpecStmt::VarDecl { name, init, .. }) => seq![
            (name, spec_init_value(init)),
        ],
        SpecModuleItem::Stmt(SpecStmt::Decl(d)) => spec_decl_bindings(d),
        SpecModuleItem::Stmt(_) => Seq::empty(),
        SpecModuleItem::Import { src, specifiers, .. } => specifiers.map_values(
            |sp: SpecImportSpecifier| spec_import_specifier_binding(src, sp),
        ),
        SpecModuleItem::ExportDecl { decl, .. } => spec_decl_bindings(decl),
        SpecModuleItem::ExportDefaultDecl { decl, .. } => match decl {
            crate::ast::SpecDefaultDecl::Fn { name: Some(n), fn_ref } => seq![
                (n, SpecStubValue::Opaque(fn_ref)),
            ],
            crate::ast::SpecDefaultDecl::Class { name: Some(n), class_ref } => seq![
                (n, SpecStubValue::Opaque(class_ref)),
            ],
            _ => Seq::empty(),
        },
        _ => Seq::empty(),
    }
}

/// All bindings an item list establishes, in order.
pub open spec fn spec_bindings(items: Seq<SpecModuleItem>) -> Seq<(Seq<char>, SpecStubValue)>
    decreases items.len(),
{
    if items.len() == 0 {
        Seq::empty()
    } else {
        spec_bindings(items.drop_last()) + spec_item_bindings(items.last())
    }
}

/// The value of the binding named `n`: the latest one wins; a name never
/// bound stands for the module-local binding of that name.
pub open spec fn spec_lookup(bs: Seq<(Seq<char>, SpecStubValue)>, n: Seq<char>) -> SpecStubValue
    decreases bs.len(),
{
    if bs.len() == 0 {
        SpecStubValue::Local(n)
    } else if bs.last().0 == n {
        bs.last().1
    } else {
        spec_lookup(bs.drop_last(), n)
    }
}

/// How many bindings carry the name `n`.
pub open spec fn spec_binds_count(bs: Seq<(Seq<char>, SpecStubValue)>, n: Seq<char>) -> nat
    decreases bs.len(),
{
    if bs.len() == 0 {
        0
    } else {
        spec_binds_count(bs.drop_last(), n) + (if bs.last().0 == n {
            1nat
        } else {
            0nat
        })
    }
}

/// Bindings concatenate; counts add up.
pub proof fn lemma_binds_count_concat(
    a: Seq<(Seq<char>, SpecStubValue)>,
    b: Seq<(Seq<char>, SpecStubValue)>,
    n: Seq<char>,
)
    ensures
        spec_binds_count(a + b, n) == spec_binds_count(a, n) + spec_binds_count(b, n),
    decreases b.len(),
{
    if b.len() == 0 {
        assert(a + b =~= a);
    } else {
        lemma_binds_count_concat(a, b.drop_last(), n);
        assert((a + b).drop_last() =~= a + b.drop_last());
        assert((a + b).last() == b.last());
    }
}

/// A name bound exactly once resolves to that binding's value.
pub proof fn lemma_lookup_unique(bs: Seq<(Seq<char>, SpecStubValue)>, n: Seq<char>, i: int)
    requires
        spec_binds_count(bs, n) == 1,
        0 <= i < bs.len(),
        bs[i].0 == n,
    ensures
        spec_lookup(bs, n) == bs[i].1,
    decreases bs.len(),
{
    if i == bs.len() - 1 {
        assert(bs.last() == bs[i]);
    } else {
        if bs.last().0 == n {
            // a second binding of n would make the count at least two
            assert(spec_binds_count(bs.drop_last(), n) >= 1) by {
                lemma_binding_counts(bs.drop_last(), n, i);
            }
            assert(false);
        }
        lemma_lookup_unique(bs.drop_last(), n, i);
        assert(bs.drop_last()[i] == bs[i]);
    }
}

/// A binding of `n` at any index makes the count at least one.
pub proof fn lemma_binding_counts(bs: Seq<(Seq<char>, SpecStubValue)>, n: Seq<char>, i: int)
    requires
        0 <= i < bs.len(),
        bs[i].0 == n,
    ensures
        spec_binds_count(bs, n) >= 1,
    decreases bs.len(),
{
    if i < bs.len() - 1 {
        lemma_binding_counts(bs.drop_last(), n, i);
        assert(bs.drop_last()[i] == bs[i]);
    }
}

/// `spec_bindings` distributes over concatenation.
pub proof fn lemma_bindings_concat(a: Seq<SpecModuleItem>, b: Seq<SpecModuleItem>)
    ensures
        spec_bindings(a + b) == spec_bindings(a) + spec_bindings(b),
    decreases b.len(),
{
    if b.len() == 0 {
        assert(a + b =~= a);
        assert(spec_bindings(a) + Seq::<(Seq<char>, SpecStubValue)>::empty() =~= spec_bindings(
            a,
        ));
    } else {
        lemma_bindings_concat(a, b.drop_last());
        assert((a + b).drop_last() =~= a + b.drop_last());
        assert((a + b).last() == b.last());
        assert(spec_bindings(a) + spec_bindings(b.drop_last()) + spec_item_bindings(b.last())
            =~= spec_bindings(a) + (spec_bindings(b.drop_last()) + spec_item_bindings(
            b.last(),
        )));
    }
}

// ------------------------------------------------------------------
// The synthesized import declarations' bindings.
// ------------------------------------------------------------------

/// A synthesized import declaration binds its record's name to its record's
/// registry value.
proof fn lemma_import_stmt_binding(o: SpecTransformOptions, r: SpecImportModule)
    ensures
        spec_item_bindings(SpecModuleItem::Stmt(spec_import_stmt(o, r)))
            == seq![spec_import_record_binding(r)],
{
    assert(spec_init_value(spec_import_call(o, r.module_src)) == SpecStubValue::Namespace(
        r.module_src,
    )) by {
        match o.convention {
            RegistryConvention::Call => {
                assert(seq![SpecExpr::Str(r.module_src)].len() == 1);
            },
            RegistryConvention::Indexed => {},
        }
    }
    assert(spec_item_bindings(SpecModuleItem::Stmt(spec_import_stmt(o, r))) =~= seq![
        spec_import_record_binding(r),
    ]);
}

/// The synthesized import declarations bind exactly the records' names to
/// the records' registry values, in record order.
proof fn lemma_import_items_bindings(o: SpecTransformOptions, rs: Seq<SpecImportModule>)
    ensures
        spec_bindings(spec_import_items(o, rs)) == rs.map_values(
            |r: SpecImportModule| spec_import_record_binding(r),
        ),
    decreases rs.len(),
{
    let f = |r: SpecImportModule| SpecModuleItem::Stmt(spec_import_stmt(o, r));
    if rs.len() == 0 {
        assert(spec_import_items(o, rs) =~= Seq::<SpecModuleItem>::empty());
        assert(rs.map_values(|r: SpecImportModule| spec_import_record_binding(r)) =~= Seq::<
            (Seq<char>, SpecStubValue),
        >::empty());
    } else {
        lemma_import_items_bindings(o, rs.drop_last());
        lemma_import_stmt_binding(o, rs.last());
        assert(spec_import_items(o, rs).drop_last() =~= spec_import_items(o, rs.drop_last()));
        assert(spec_import_items(o, rs).last() == f(rs.last()));
        assert(spec_bindings(spec_import_items(o, rs)) =~= rs.map_values(
            |r: SpecImportModule| spec_import_record_binding(r),
        ));
    }
}

/// A single item's bindings.
proof fn lemma_bindings_singleton(item: SpecModuleItem)
    ensures
        spec_bindings(seq![item]) == spec_item_bindings(item),
{
    let single = seq![item];
    assert(single.drop_last() =~= Seq::<SpecModuleItem>::empty());
    assert(single.last() == item);
    assert(spec_bindings(Seq::<SpecModuleItem>::empty()) == Seq::<
        (Seq<char>, SpecStubValue),
    >::empty());
    assert(spec_bindings(single) == spec_bindings(single.drop_last()) + spec_item_bindings(
        item,
    ));
    assert(spec_bindings(single) =~= spec_item_bindings(item));
}

// ------------------------------------------------------------------
// The export surface of both sides.
// ------------------------------------------------------------------

/// The plain-identifier original name of a named specifier, when it has one.
pub open spec fn spec_plain_orig(sp: SpecExportSpecifier) -> Option<Seq<char>> {
    match sp {
        SpecExportSpecifier::Named { orig: SpecModuleExportName::Ident(o), .. } => Some(o),
        _ => None,
    }
}

/// The public name one named specifier exports under.
pub open spec fn spec_public_name(sp: SpecExportSpecifier) -> Seq<char> {
    match sp {
        SpecExportSpecifier::Named { orig: SpecModuleExportName::Ident(o), exported, .. } => {
            match exported {
                Some(SpecModuleExportName::Ident(a)) => a,
                _ => o,
            }
        },
        _ => Seq::empty(),
    }
}

/// The native export surface of `export { ... }` without a source: each
/// plain named specifier exposes, under its public name, the value of the
/// module-local binding it references.
pub open spec fn spec_native_local_entries(
    b_in: Seq<(Seq<char>, SpecStubValue)>,
    sps: Seq<SpecExportSpecifier>,
) -> Seq<SpecStubEntry>
    decreases sps.len(),
{
    if sps.len() == 0 {
        Seq::empty()
    } else {
        spec_native_local_entries(b_in, sps.drop_last()) + (
        if spec_plain_orig(sps.last()) is Some {
            seq![
                SpecStubEntry::Key(
                    spec_public_name(sps.last()),
                    spec_lookup(b_in, spec_plain_orig(sps.last())->0),
                ),
            ]
        } else {
            Seq::empty()
        })
    }
}

/// The native export surface of `export { ... } from 'm'`: each plain named
/// specifier exposes, under its public name, the source module's property of
/// the original name.
pub open spec fn spec_native_reexport_entries(m: Seq<char>, sps: Seq<SpecExportSpecifier>) -> Seq<
    SpecStubEntry,
>
    decreases sps.len(),
{
    if sps.len() == 0 {
        Seq::empty()
    } else {
        spec_native_reexport_entries(m, sps.drop_last()) + (
        if spec_plain_orig(sps.last()) is Some {
            seq![
                SpecStubEntry::Key(
                    spec_public_name(sps.last()),
                    SpecStubValue::Member(m, spec_plain_orig(sps.last())->0),
                ),
            ]
        } else {
            Seq::empty()
        })
    }
}

/// The native export surface of one item, under the stub registry.
pub open spec fn spec_native_item_entries(
    b_in: Seq<(Seq<char>, SpecStubValue)>,
    item: SpecModuleItem,
) -> Seq<SpecStubEntry> {
    match item {
        SpecModuleItem::ExportDecl { decl, .. } => match decl {
            SpecDecl::Var { name: Some(n), .. } => seq![
                SpecStubEntry::Key(n, spec_lookup(b_in, n)),
            ],
            SpecDecl::Fn { name, .. } => seq![
                SpecStubEntry::Key(name, spec_lookup(b_in, name)),
            ],
            SpecDecl::Class { name, .. } => seq![
                SpecStubEntry::Key(name, spec_lookup(b_in, name)),
            ],
            _ => Seq::empty(),
        },
        SpecModuleItem::ExportDefaultDecl { decl, .. } => match decl {
            SpecDefaultDecl::Fn { name: Some(n), .. } => seq![
                SpecStubEntry::Key("default"@, spec_lookup(b_in, n)),
            ],
            SpecDefaultDecl::Fn { name: None, fn_ref } => seq![
                SpecStubEntry::Key("default"@, SpecStubValue::Opaque(fn_ref)),
            ],
            SpecDefaultDecl::Class { name: Some(n), .. } => seq![
                SpecStubEntry::Key("default"@, spec_lookup(b_in, n)),
            ],
            SpecDefaultDecl::Class { name: None, class_ref } => seq![
                SpecStubEntry::Key("default"@, SpecStubValue::Opaque(class_ref)),
            ],
            _ => Seq::empty(),
        },
        SpecModuleItem::ExportDefaultExpr { expr, .. } => seq![
            SpecStubEntry::Key("default"@, spec_init_value(expr)),
        ],
        SpecModuleItem::ExportNamed { src, specifiers, type_only, .. } => if type_only {
            Seq::empty()
        } else {
            match src {
                None => spec_native_local_entries(b_in, specifiers),
                Some(m) => if spec_is_namespace_reexport(specifiers) {
                    seq![
                        SpecStubEntry::Key(
                            specifiers[0]->Namespace_name->Ident_0,
                            SpecStubValue::Namespace(m),
                        ),
                    ]
                } else {
                    spec_native_reexport_entries(m, specifiers)
                },
            }
        },
        SpecModuleItem::ExportAll { src, type_only, .. } => if type_only {
            Seq::empty()
        } else {
            seq![SpecStubEntry::SpreadNamespace(src)]
        },
        _ => Seq::empty(),
    }
}

/// The native export surface of a whole module, in source order.
pub open spec fn spec_native_entries(
    b_in: Seq<(Seq<char>, SpecStubValue)>,
    items: Seq<SpecModuleItem>,
) -> Seq<SpecStubEntry>
    decreases items.len(),
{
    if items.len() == 0 {
        Seq::empty()
    } else {
        spec_native_entries(b_in, items.drop_last()) + spec_native_item_entries(
            b_in,
            items.last(),
        )
    }
}

/// What one property of the registered export object writes into the stub
/// registry, with identifiers resolved against the transformed module's
/// bindings.
pub open spec fn spec_registered_entry(
    b_out: Seq<(Seq<char>, SpecStubValue)>,
    p: SpecObjProp,
) -> SpecStubEntry {
    match p {
        SpecObjProp::KeyValue(k, v) => SpecStubEntry::Key(
            k,
            match v {
                SpecExpr::Ident(id) => spec_lookup(b_out, id),
                _ => SpecStubValue::Local(Seq::empty()),
            },
        ),
        SpecObjProp::Spread(v) => match v {
            SpecExpr::Ident(id) => match spec_lookup(b_out, id) {
                SpecStubValue::Namespace(src) => SpecStubEntry::SpreadNamespace(src),
                other => SpecStubEntry::Key(Seq::empty(), other),
            },
            _ => SpecStubEntry::Key(Seq::empty(), SpecStubValue::Local(Seq::empty())),
        },
    }
}

/// What the whole registered object writes, property by property.
pub open spec fn spec_registered_entries(
    b_out: Seq<(Seq<char>, SpecStubValue)>,
    props: Seq<SpecObjProp>,
) -> Seq<SpecStubEntry> {
    props.map_values(|p: SpecObjProp| spec_registered_entry(b_out, p))
}

// ------------------------------------------------------------------
// Resolution: a name bound once resolves alike on both sides.
// ------------------------------------------------------------------

/// A positive count yields a witness.
proof fn lemma_count_witness(bs: Seq<(Seq<char>, SpecStubValue)>, n: Seq<char>)
    requires
        spec_binds_count(bs, n) >= 1,
    ensures
        exists|i: int| 0 <= i < bs.len() && (#[trigger] bs[i]).0 == n,
    decreases bs.len(),
{
    if bs.last().0 == n {
        assert(bs[bs.len() - 1].0 == n);
    } else {
        lemma_count_witness(bs.drop_last(), n);
        let i = choose|i: int| 0 <= i < bs.drop_last().len() && (#[trigger] bs.drop_last()[
            i
        ]).0 == n;
        assert(bs[i].0 == n);
    }
}

/// Membership in either part carries into a concatenation.
proof fn lemma_contains_concat<T>(a: Seq<T>, b: Seq<T>, x: T)
    requires
        a.contains(x) || b.contains(x),
    ensures
        (a + b).contains(x),
{
    if a.contains(x) {
        let i = choose|i: int| 0 <= i < a.len() && a[i] == x;
        assert((a + b)[i] == x);
    } else {
        let i = choose|i: int| 0 <= i < b.len() && b[i] == x;
        assert((a + b)[a.len() + i] == x);
    }
}

/// Membership in a concatenation comes from one of the parts.
proof fn lemma_contains_split<T>(a: Seq<T>, b: Seq<T>, x: T)
    requires
        (a + b).contains(x),
    ensures
        a.contains(x) || b.contains(x),
{
    let i = choose|i: int| 0 <= i < (a + b).len() && (a + b)[i] == x;
    if i < a.len() {
        assert(a[i] == x);
    } else {
        assert(b[i - a.len()] == x);
    }
}

/// A name bound at least once on the native side, and at most once among the
/// transformed module's bindings, resolves to the same value on both sides.
proof fn lemma_lookup_agree(
    b_in: Seq<(Seq<char>, SpecStubValue)>,
    b_out: Seq<(Seq<char>, SpecStubValue)>,
    n: Seq<char>,
)
    requires
        spec_binds_count(b_in, n) >= 1,
        spec_binds_count(b_in, n) <= spec_binds_count(b_out, n),
        spec_binds_count(b_out, n) <= 1,
        forall|j: int| 0 <= j < b_in.len() ==> b_out.contains(#[trigger] b_in[j]),
    ensures
        spec_lookup(b_out, n) == spec_lookup(b_in, n),
{
    lemma_count_witness(b_in, n);
    let i = choose|i: int| 0 <= i < b_in.len() && (#[trigger] b_in[i]).0 == n;
    lemma_lookup_unique(b_in, n, i);
    assert(b_out.contains(b_in[i]));
    let j = choose|j: int| 0 <= j < b_out.len() && b_out[j] == b_in[i];
    lemma_lookup_unique(b_out, n, j);
}

// ------------------------------------------------------------------
// Alignment of the two surfaces.
// ------------------------------------------------------------------

/// `spec_export_props` distributes over concatenation.
proof fn lemma_props_concat(a: Seq<SpecExportModule>, b: Seq<SpecExportModule>)
    ensures
        spec_export_props(a + b) == spec_export_props(a) + spec_export_props(b),
{
    assert(spec_export_props(a + b) =~= spec_export_props(a) + spec_export_props(b));
}

/// `spec_registered_entries` distributes over concatenation.
proof fn lemma_registered_concat(
    b_out: Seq<(Seq<char>, SpecStubValue)>,
    pa: Seq<SpecObjProp>,
    pb: Seq<SpecObjProp>,
)
    ensures
        spec_registered_entries(b_out, pa + pb) == spec_registered_entries(b_out, pa)
            + spec_registered_entries(b_out, pb),
{
    assert(spec_registered_entries(b_out, pa + pb) =~= spec_registered_entries(b_out, pa)
        + spec_registered_entries(b_out, pb));
}

/// The registered entries of a local export list equal its native surface,
/// wherever the referenced names resolve alike on both sides.
proof fn lemma_local_records_entries(
    b_in: Seq<(Seq<char>, SpecStubValue)>,
    b_out: Seq<(Seq<char>, SpecStubValue)>,
    sps: Seq<SpecExportSpecifier>,
)
    requires
        forall|j: int|
            0 <= j < sps.len() && spec_plain_orig(#[trigger] sps[j]) is Some ==> spec_lookup(
                b_out,
                spec_plain_orig(sps[j])->0,
            ) == spec_lookup(b_in, spec_plain_orig(sps[j])->0),
    ensures
        spec_registered_entries(b_out, spec_export_props(spec_local_export_records(sps)))
            == spec_native_local_entries(b_in, sps),
    decreases sps.len(),
{
    if sps.len() == 0 {
        assert(spec_registered_entries(
            b_out,
            spec_export_props(spec_local_export_records(sps)),
        ) =~= spec_native_local_entries(b_in, sps));
    } else {
        let pre = sps.drop_last();
        let last = sps.last();
        assert(forall|j: int| 0 <= j < pre.len() ==> #[trigger] pre[j] == sps[j]);
        lemma_local_records_entries(b_in, b_out, pre);
        lemma_props_concat(spec_local_export_records(pre), spec_export_specifier_records(last));
        lemma_registered_concat(
            b_out,
            spec_export_props(spec_local_export_records(pre)),
            spec_export_props(spec_export_specifier_records(last)),
        );
        assert(sps[sps.len() - 1] == last);
        assert(spec_registered_entries(
            b_out,
            spec_export_props(spec_export_specifier_records(last)),
        ) =~= (if spec_plain_orig(last) is Some {
            seq![
                SpecStubEntry::Key(
                    spec_public_name(last),
                    spec_lookup(b_in, spec_plain_orig(last)->0),
                ),
            ]
        } else {
            Seq::<SpecStubEntry>::empty()
        }));
        assert(spec_registered_entries(b_out, spec_export_props(spec_local_export_records(sps)))
            =~= spec_native_local_entries(b_in, sps));
    }
}

/// The registered entries of a re-export list equal its native surface,
/// wherever the synthesized bindings resolve to the source module's members.
proof fn lemma_reexport_records_entries(
    b_out: Seq<(Seq<char>, SpecStubValue)>,
    m: Seq<char>,
    sps: Seq<SpecExportSpecifier>,
)
    requires
        forall|j: int|
            0 <= j < sps.len() && spec_plain_orig(#[trigger] sps[j]) is Some ==> spec_lookup(
                b_out,
                spec_plain_orig(sps[j])->0,
            ) == SpecStubValue::Member(m, spec_plain_orig(sps[j])->0),
    ensures
        spec_registered_entries(b_out, spec_export_props(spec_local_export_records(sps)))
            == spec_native_reexport_entries(m, sps),
    decreases sps.len(),
{
    if sps.len() == 0 {
        assert(spec_registered_entries(
            b_out,
            spec_export_props(spec_local_export_records(sps)),
        ) =~= spec_native_reexport_entries(m, sps));
    } else {
        let pre = sps.drop_last();
        let last = sps.last();
        assert(forall|j: int| 0 <= j < pre.len() ==> #[trigger] pre[j] == sps[j]);
        lemma_reexport_records_entries(b_out, m, pre);
        lemma_props_concat(spec_local_export_records(pre), spec_export_specifier_records(last));
        lemma_registered_concat(
            b_out,
            spec_export_props(spec_local_export_records(pre)),
            spec_export_props(spec_export_specifier_records(last)),
        );
        assert(sps[sps.len() - 1] == last);
        assert(spec_registered_entries(
            b_out,
            spec_export_props(spec_export_specifier_records(last)),
        ) =~= (if spec_plain_orig(last) is Some {
            seq![
                SpecStubEntry::Key(
                    spec_public_name(last),
                    SpecStubValue::Member(m, spec_plain_orig(last)->0),
                ),
            ]
        } else {
            Seq::<SpecStubEntry>::empty()
        }));
        assert(spec_registered_entries(b_out, spec_export_props(spec_local_export_records(sps)))
            =~= spec_native_reexport_entries(m, sps));
    }
}

/// An item's native bindings are among the whole module's.
proof fn lemma_bindings_item_contains(
    items: Seq<SpecModuleItem>,
    i: int,
    x: (Seq<char>, SpecStubValue),
)
    requires
        0 <= i < items.len(),
        spec_item_bindings(items[i]).contains(x),
    ensures
        spec_bindings(items).contains(x),
    decreases items.len(),
{
    if i == items.len() - 1 {
        lemma_contains_concat(
            spec_bindings(items.drop_last()),
            spec_item_bindings(items.last()),
            x,
        );
    } else {
        assert(items.drop_last()[i] == items[i]);
        lemma_bindings_item_contains(items.drop_last(), i, x);
        lemma_contains_concat(
            spec_bindings(items.drop_last()),
            spec_item_bindings(items.last()),
            x,
        );
    }
}

/// One collect step only appends export records.
proof fn lemma_item_records(st1: SpecCollectState, last: SpecModuleItem)
    ensures
        spec_collect_item(true, st1, last).exports.len() >= st1.exports.len(),
        spec_collect_item(true, st1, last).exports.take(st1.exports.len() as int)
            == st1.exports,
{
    assert(spec_collect_item(true, st1, last).exports.take(st1.exports.len() as int)
        =~= st1.exports);
}

// ------------------------------------------------------------------
// The round-trip theorem.
// ------------------------------------------------------------------

/// Every name a local `export { ... }` list references is bound somewhere in
/// the module — the well-formedness native resolution itself demands.
pub open spec fn spec_item_refs_bound(
    b_in: Seq<(Seq<char>, SpecStubValue)>,
    item: SpecModuleItem,
) -> bool {
    match item {
        SpecModuleItem::ExportNamed { src: None, specifiers, type_only, .. } => type_only
            || forall|j: int|
            0 <= j < specifiers.len() && spec_plain_orig(#[trigger] specifiers[j]) is Some
                ==> spec_binds_count(b_in, spec_plain_orig(specifiers[j])->0) >= 1,
        _ => true,
    }
}

/// A singleton sequence holds its element.
proof fn lemma_singleton_contains<T>(x: T)
    ensures
        seq![x].contains(x),
{
    assert(seq![x][0] == x);
}

// ------------------------------------------------------------------
// The transformed module's bindings, over the whole collect pass.
// ------------------------------------------------------------------

/// A module as a host hands it over: every plain statement and every
/// default-export expression is an uninspected node.
pub open spec fn spec_opaque_input(item: SpecModuleItem) -> bool {
    match item {
        SpecModuleItem::Stmt(s) => s is Raw,
        SpecModuleItem::ExportDefaultExpr { expr, .. } => expr is Raw,
        _ => true,
    }
}

/// All bindings the transformed module establishes, in runtime-module mode:
/// one per synthesized import declaration, in record order, then those of
/// the replacement statement list.
pub open spec fn spec_transformed_bindings(
    items: Seq<SpecModuleItem>,
    taken: Seq<Seq<char>>,
) -> Seq<(Seq<char>, SpecStubValue)> {
    let st = spec_collect(true, spec_initial_state(taken), items);
    st.imports.map_values(|r: SpecImportModule| spec_import_record_binding(r)) + spec_bindings(
        st.body,
    )
}

/// One collect step only appends import records.
proof fn lemma_collect_item_extends_imports(
    runtime: bool,
    st1: SpecCollectState,
    last: SpecModuleItem,
)
    ensures
        spec_collect_item(runtime, st1, last).imports.len() >= st1.imports.len(),
        spec_collect_item(runtime, st1, last).imports.take(st1.imports.len() as int)
            == st1.imports,
{
    assert(spec_collect_item(runtime, st1, last).imports.take(st1.imports.len() as int)
        =~= st1.imports);
}

/// Collecting a longer list extends the records and the replacement list of
/// collecting any prefix of it.
proof fn lemma_collect_extends(
    runtime: bool,
    st: SpecCollectState,
    items: Seq<SpecModuleItem>,
    i: int,
)
    requires
        0 <= i <= items.len(),
    ensures
        ({
            let a = spec_collect(runtime, st, items.take(i));
            let b = spec_collect(runtime, st, items);
            &&& b.imports.len() >= a.imports.len()
            &&& b.imports.take(a.imports.len() as int) == a.imports
            &&& b.body.len() >= a.body.len()
            &&& b.body.take(a.body.len() as int) == a.body
        }),
    decreases items.len(),
{
    let a = spec_collect(runtime, st, items.take(i));
    let b = spec_collect(runtime, st, items);
    if i == items.len() {
        assert(items.take(i) =~= items);
        assert(a.imports.take(a.imports.len() as int) =~= a.imports);
        assert(a.body.take(a.body.len() as int) =~= a.body);
    } else {
        let pre = items.drop_last();
        assert(pre.take(i) =~= items.take(i));
        lemma_collect_extends(runtime, st, pre, i);
        let m = spec_collect(runtime, st, pre);
        lemma_collect_item_extends_imports(runtime, m, items.last());
        crate::laws::lemma_collect_item_extends_body(runtime, m, items.last());
        assert(b.imports.take(a.imports.len() as int) =~= a.imports) by {
            assert forall|j: int| 0 <= j < a.imports.len() implies b.imports[j]
                == a.imports[j] by {
                assert(b.imports.take(m.imports.len() as int)[j] == m.imports[j]);
                assert(m.imports.take(a.imports.len() as int)[j] == m.imports[j]);
            }
        }
        assert(b.body.take(a.body.len() as int) =~= a.body) by {
            assert forall|j: int| 0 <= j < a.body.len() implies b.body[j] == a.body[j] by {
                assert(b.body.take(m.body.len() as int)[j] == m.body[j]);
                assert(m.body.take(a.body.len() as int)[j] == m.body[j]);
            }
        }
    }
}

/// At one step of the pass, the bindings the item establishes natively are
/// among — and counted within — what the step adds to the transformed
/// module: the bindings of the records it pushes and of the statements it
/// appends.
proof fn lemma_item_step_bindings(st1: SpecCollectState, item: SpecModuleItem)
    requires
        spec_opaque_input(item),
    ensures
        ({
            let st2 = spec_collect_item(true, st1, item);
            let recs_b = st2.imports.skip(st1.imports.len() as int).map_values(
                |r: SpecImportModule| spec_import_record_binding(r),
            );
            let added_b = spec_bindings(st2.body.skip(st1.body.len() as int));
            &&& forall|j: int|
                0 <= j < spec_item_bindings(item).len() ==> (recs_b + added_b).contains(
                    #[trigger] spec_item_bindings(item)[j],
                )
            &&& forall|n: Seq<char>|
                #[trigger] spec_binds_count(spec_item_bindings(item), n) <= spec_binds_count(
                    recs_b,
                    n,
                ) + spec_binds_count(added_b, n)
        }),
{
    let st2 = spec_collect_item(true, st1, item);
    let recs = st2.imports.skip(st1.imports.len() as int);
    let recs_b = recs.map_values(|r: SpecImportModule| spec_import_record_binding(r));
    let added = st2.body.skip(st1.body.len() as int);
    let added_b = spec_bindings(added);
    match item {
        SpecModuleItem::Import { src, specifiers, .. } => {
            assert(recs =~= spec_import_records(src, specifiers));
            assert(recs_b =~= spec_item_bindings(item));
            assert(added =~= Seq::<SpecModuleItem>::empty());
            lemma_step_pieces_cover(spec_item_bindings(item), recs_b, added_b, true);
        },
        SpecModuleItem::ExportDecl { decl, .. } => {
            let kept = SpecModuleItem::Stmt(SpecStmt::Decl(decl));
            assert(added =~= seq![kept]);
            lemma_bindings_singleton(kept);
            assert(added_b =~= spec_item_bindings(item));
            assert(recs =~= Seq::<SpecImportModule>::empty());
            assert(recs_b =~= Seq::<(Seq<char>, SpecStubValue)>::empty());
            lemma_step_pieces_cover(spec_item_bindings(item), recs_b, added_b, false);
        },
        SpecModuleItem::ExportDefaultDecl { decl, .. } => {
            match decl {
                SpecDefaultDecl::Fn { name: Some(n), fn_ref } => {
                    let kept = SpecModuleItem::Stmt(SpecStmt::Decl(SpecDecl::Fn {
                        name: n,
                        fn_ref,
                    }));
                    assert(added =~= seq![kept]);
                    lemma_bindings_singleton(kept);
                    assert(added_b =~= spec_item_bindings(item));
                },
                SpecDefaultDecl::Class { name: Some(n), class_ref } => {
                    let kept = SpecModuleItem::Stmt(SpecStmt::Decl(SpecDecl::Class {
                        name: n,
                        class_ref,
                    }));
                    assert(added =~= seq![kept]);
                    lemma_bindings_singleton(kept);
                    assert(added_b =~= spec_item_bindings(item));
                },
                _ => {
                    assert(spec_item_bindings(item) =~= Seq::<
                        (Seq<char>, SpecStubValue),
                    >::empty());
                },
            }
            assert(recs =~= Seq::<SpecImportModule>::empty());
            assert(recs_b =~= Seq::<(Seq<char>, SpecStubValue)>::empty());
            if spec_item_bindings(item).len() > 0 {
                lemma_step_pieces_cover(spec_item_bindings(item), recs_b, added_b, false);
            } else {
                lemma_step_pieces_empty(spec_item_bindings(item), recs_b, added_b);
            }
        },
        _ => {
            assert(spec_item_bindings(item) =~= Seq::<(Seq<char>, SpecStubValue)>::empty());
            lemma_step_pieces_empty(spec_item_bindings(item), recs_b, added_b);
        },
    }
}

/// The native bindings equal one of the two step pieces, so membership and
/// counts carry over.
proof fn lemma_step_pieces_cover(
    native: Seq<(Seq<char>, SpecStubValue)>,
    recs_b: Seq<(Seq<char>, SpecStubValue)>,
    added_b: Seq<(Seq<char>, SpecStubValue)>,
    in_recs: bool,
)
    requires
        in_recs ==> recs_b == native,
        !in_recs ==> added_b == native,
    ensures
        forall|j: int|
            0 <= j < native.len() ==> (recs_b + added_b).contains(#[trigger] native[j]),
        forall|n: Seq<char>|
            #[trigger] spec_binds_count(native, n) <= spec_binds_count(recs_b, n)
                + spec_binds_count(added_b, n),
{
    assert forall|j: int| 0 <= j < native.len() implies (recs_b + added_b).contains(
        #[trigger] native[j],
    ) by {
        if in_recs {
            assert((recs_b + added_b)[j] == native[j]);
        } else {
            assert((recs_b + added_b)[recs_b.len() + j] == native[j]);
        }
    }
    assert forall|n: Seq<char>| #[trigger] spec_binds_count(native, n) <= spec_binds_count(
        recs_b,
        n,
    ) + spec_binds_count(added_b, n) by {
        lemma_binds_count_concat(recs_b, added_b, n);
        if in_recs {
            lemma_binds_count_concat(native, added_b, n);
        } else {
            lemma_binds_count_concat(recs_b, native, n);
        }
    }
}

/// An item without native bindings is covered trivially.
proof fn lemma_step_pieces_empty(
    native: Seq<(Seq<char>, SpecStubValue)>,
    recs_b: Seq<(Seq<char>, SpecStubValue)>,
    added_b: Seq<(Seq<char>, SpecStubValue)>,
)
    requires
        native.len() == 0,
    ensures
        forall|j: int|
            0 <= j < native.len() ==> (recs_b + added_b).contains(#[trigger] native[j]),
        forall|n: Seq<char>|
            #[trigger] spec_binds_count(native, n) <= spec_binds_count(recs_b, n)
                + spec_binds_count(added_b, n),
{
    assert forall|n: Seq<char>| #[trigger] spec_binds_count(native, n) <= spec_binds_count(
        recs_b,
        n,
    ) + spec_binds_count(added_b, n) by {
        assert(native =~= Seq::<(Seq<char>, SpecStubValue)>::empty());
    }
}

/// Every binding the module establishes natively, the transformed module
/// establishes too.
proof fn lemma_native_bindings_transfer(items: Seq<SpecModuleItem>, taken: Seq<Seq<char>>)
    requires
        forall|j: int| 0 <= j < items.len() ==> spec_opaque_input(#[trigger] items[j]),
    ensures
        forall|j: int|
            0 <= j < spec_bindings(items).len() ==> spec_transformed_bindings(
                items,
                taken,
            ).contains(#[trigger] spec_bindings(items)[j]),
    decreases items.len(),
{
    if items.len() > 0 {
        let pre = items.drop_last();
        let last = items.last();
        assert(forall|j: int| 0 <= j < pre.len() ==> #[trigger] pre[j] == items[j]);
        lemma_native_bindings_transfer(pre, taken);
        let st0 = spec_initial_state(taken);
        let f_pre = spec_collect(true, st0, pre);
        let f_all = spec_collect_item(true, f_pre, last);
        let to_bind = |r: SpecImportModule| spec_import_record_binding(r);
        let recs_b = f_all.imports.skip(f_pre.imports.len() as int).map_values(to_bind);
        let added_b = spec_bindings(f_all.body.skip(f_pre.body.len() as int));
        lemma_collect_item_extends_imports(true, f_pre, last);
        crate::laws::lemma_collect_item_extends_body(true, f_pre, last);
        assert(f_all.imports.map_values(to_bind) =~= f_pre.imports.map_values(to_bind)
            + recs_b);
        assert(f_all.body =~= f_pre.body + f_all.body.skip(f_pre.body.len() as int));
        lemma_bindings_concat(f_pre.body, f_all.body.skip(f_pre.body.len() as int));
        lemma_item_step_bindings(f_pre, last);
        assert(spec_opaque_input(last)) by {
            assert(items[items.len() - 1] == last);
        }
        assert forall|j: int| 0 <= j < spec_bindings(items).len() implies
            spec_transformed_bindings(items, taken).contains(
            #[trigger] spec_bindings(items)[j],
        ) by {
            let x = spec_bindings(items)[j];
            let n_pre = spec_bindings(pre).len() as int;
            if j < n_pre {
                assert(spec_bindings(pre)[j] == x);
                assert(spec_transformed_bindings(pre, taken).contains(x));
                lemma_contains_split(
                    f_pre.imports.map_values(to_bind),
                    spec_bindings(f_pre.body),
                    x,
                );
                if f_pre.imports.map_values(to_bind).contains(x) {
                    lemma_contains_concat(f_pre.imports.map_values(to_bind), recs_b, x);
                    lemma_contains_concat(
                        f_all.imports.map_values(to_bind),
                        spec_bindings(f_all.body),
                        x,
                    );
                } else {
                    lemma_contains_concat(spec_bindings(f_pre.body), added_b, x);
                    lemma_contains_concat(
                        f_all.imports.map_values(to_bind),
                        spec_bindings(f_all.body),
                        x,
                    );
                }
            } else {
                assert(spec_item_bindings(last)[j - n_pre] == x);
                lemma_contains_split(recs_b, added_b, x);
                if recs_b.contains(x) {
                    let w = choose|w: int| 0 <= w < recs_b.len() && recs_b[w] == x;
                    assert(f_all.imports.map_values(to_bind)[f_pre.imports.len() + w] == x);
                    lemma_contains_concat(
                        f_all.imports.map_values(to_bind),
                        spec_bindings(f_all.body),
                        x,
                    );
                } else {
                    lemma_contains_concat(spec_bindings(f_pre.body), added_b, x);
                    lemma_contains_concat(
                        f_all.imports.map_values(to_bind),
                        spec_bindings(f_all.body),
                        x,
                    );
                }
            }
        }
    }
}

/// A name is bound natively at most as often as in the transformed module.
proof fn lemma_native_counts_below(
    items: Seq<SpecModuleItem>,
    taken: Seq<Seq<char>>,
    n: Seq<char>,
)
    requires
        forall|j: int| 0 <= j < items.len() ==> spec_opaque_input(#[trigger] items[j]),
    ensures
        spec_binds_count(spec_bindings(items), n) <= spec_binds_count(
            spec_transformed_bindings(items, taken),
            n,
        ),
    decreases items.len(),
{
    let st0 = spec_initial_state(taken);
    if items.len() == 0 {
        assert(spec_bindings(items) =~= Seq::<(Seq<char>, SpecStubValue)>::empty());
        assert(spec_collect(true, st0, items).imports.map_values(
            |r: SpecImportModule| spec_import_record_binding(r),
        ) =~= Seq::<(Seq<char>, SpecStubValue)>::empty());
    } else {
        let pre = items.drop_last();
        let last = items.last();
        assert(forall|j: int| 0 <= j < pre.len() ==> #[trigger] pre[j] == items[j]);
        lemma_native_counts_below(pre, taken, n);
        let f_pre = spec_collect(true, st0, pre);
        let f_all = spec_collect_item(true, f_pre, last);
        let to_bind = |r: SpecImportModule| spec_import_record_binding(r);
        let recs_b = f_all.imports.skip(f_pre.imports.len() as int).map_values(to_bind);
        let added_b = spec_bindings(f_all.body.skip(f_pre.body.len() as int));
        lemma_collect_item_extends_imports(true, f_pre, last);
        crate::laws::lemma_collect_item_extends_body(true, f_pre, last);
        assert(f_all.imports.map_values(to_bind) =~= f_pre.imports.map_values(to_bind)
            + recs_b);
        assert(f_all.body =~= f_pre.body + f_all.body.skip(f_pre.body.len() as int));
        lemma_bindings_concat(f_pre.body, f_all.body.skip(f_pre.body.len() as int));
        lemma_item_step_bindings(f_pre, last);
        assert(spec_opaque_input(last)) by {
            assert(items[items.len() - 1] == last);
        }
        lemma_binds_count_concat(spec_bindings(pre), spec_item_bindings(last), n);
        lemma_binds_count_concat(f_pre.imports.map_values(to_bind), recs_b, n);
        lemma_binds_count_concat(spec_bindings(f_pre.body), added_b, n);
        lemma_binds_count_concat(
            f_pre.imports.map_values(to_bind),
            spec_bindings(f_pre.body),
            n,
        );
        lemma_binds_count_concat(
            f_pre.imports.map_values(to_bind) + recs_b,
            spec_bindings(f_pre.body) + added_b,
            n,
        );
        assert(f_all.imports.map_values(to_bind) + spec_bindings(f_all.body)
            =~= (f_pre.imports.map_values(to_bind) + recs_b) + (spec_bindings(f_pre.body)
            + added_b));
    }
}

/// The import record of one plain named re-export specifier stands among the
/// records its list produces.
proof fn lemma_reexport_record_contains(m: Seq<char>, sps: Seq<SpecExportSpecifier>, j: int)
    requires
        0 <= j < sps.len(),
        spec_plain_orig(sps[j]) is Some,
    ensures
        ({
            let o = spec_plain_orig(sps[j])->0;
            exists|w: int|
                0 <= w < spec_reexport_import_records(m, sps).len()
                    && spec_import_record_binding(
                    #[trigger] spec_reexport_import_records(m, sps)[w],
                ) == (o, SpecStubValue::Member(m, o))
        }),
    decreases sps.len(),
{
    let o = spec_plain_orig(sps[j])->0;
    let recs = spec_reexport_import_records(m, sps);
    if j == sps.len() - 1 {
        let piece = spec_reexport_import_record(m, sps.last());
        assert(piece.len() == 1);
        assert(recs[recs.len() - 1] == piece[0]);
        assert(spec_import_record_binding(recs[recs.len() - 1]) == (
            o,
            SpecStubValue::Member(m, o),
        ));
    } else {
        assert(sps.drop_last()[j] == sps[j]);
        lemma_reexport_record_contains(m, sps.drop_last(), j);
        let w = choose|w: int|
            0 <= w < spec_reexport_import_records(m, sps.drop_last()).len()
                && spec_import_record_binding(
                #[trigger] spec_reexport_import_records(m, sps.drop_last())[w],
            ) == (o, SpecStubValue::Member(m, o));
        assert(recs[w] == spec_reexport_import_records(m, sps.drop_last())[w]);
    }
}

// ------------------------------------------------------------------
// Step resolution: what each item's registered entries rely on.
// ------------------------------------------------------------------

/// Whether the names one item exports resolve, among the transformed
/// module's bindings, to the values native resolution assigns: bound local
/// names resolve alike on both sides, materialized re-export names resolve
/// to the source module's members, and the identifier synthesized at this
/// step (fresh against `taken_i`, the names in use when the step runs)
/// resolves to the value its declaration assigns.
pub open spec fn spec_step_resolved(
    b_in: Seq<(Seq<char>, SpecStubValue)>,
    b_out: Seq<(Seq<char>, SpecStubValue)>,
    taken_i: Seq<Seq<char>>,
    item: SpecModuleItem,
) -> bool {
    match item {
        SpecModuleItem::ExportDecl { decl, .. } => match decl {
            SpecDecl::Var { name: Some(n), .. } => spec_lookup(b_out, n) == spec_lookup(b_in, n),
            SpecDecl::Fn { name, .. } => spec_lookup(b_out, name) == spec_lookup(b_in, name),
            SpecDecl::Class { name, .. } => spec_lookup(b_out, name) == spec_lookup(b_in, name),
            _ => true,
        },
        SpecModuleItem::ExportDefaultDecl { decl, .. } => match decl {
            SpecDefaultDecl::Fn { name: Some(n), .. } => spec_lookup(b_out, n) == spec_lookup(
                b_in,
                n,
            ),
            SpecDefaultDecl::Class { name: Some(n), .. } => spec_lookup(b_out, n) == spec_lookup(
                b_in,
                n,
            ),
            SpecDefaultDecl::Fn { name: None, fn_ref } => spec_lookup(
                b_out,
                spec_fresh(taken_i, "__export_default"@),
            ) == SpecStubValue::Opaque(fn_ref),
            SpecDefaultDecl::Class { name: None, class_ref } => spec_lookup(
                b_out,
                spec_fresh(taken_i, "__export_default"@),
            ) == SpecStubValue::Opaque(class_ref),
            _ => true,
        },
        SpecModuleItem::ExportDefaultExpr { expr, .. } => spec_lookup(
            b_out,
            spec_fresh(taken_i, "__export_default"@),
        ) == spec_init_value(expr),
        SpecModuleItem::ExportNamed { src, specifiers, type_only, .. } => type_only || (
        match src {
            None => forall|j: int|
                0 <= j < specifiers.len() && spec_plain_orig(#[trigger] specifiers[j]) is Some
                    ==> spec_lookup(b_out, spec_plain_orig(specifiers[j])->0) == spec_lookup(
                    b_in,
                    spec_plain_orig(specifiers[j])->0,
                ),
            Some(m) => if spec_is_namespace_reexport(specifiers) {
                spec_lookup(b_out, spec_fresh(taken_i, "__export_named"@))
                    == SpecStubValue::Namespace(m)
            } else {
                forall|j: int|
                    0 <= j < specifiers.len() && spec_plain_orig(
                        #[trigger] specifiers[j],
                    ) is Some ==> spec_lookup(b_out, spec_plain_orig(specifiers[j])->0)
                        == SpecStubValue::Member(m, spec_plain_orig(specifiers[j])->0)
            },
        }),
        SpecModuleItem::ExportAll { src, type_only, .. } => type_only || spec_lookup(
            b_out,
            spec_fresh(taken_i, "__export_all"@),
        ) == SpecStubValue::Namespace(src),
        _ => true,
    }
}

/// The records one item contributes register exactly its native export
/// surface, wherever its names resolve as `spec_step_resolved` says.
proof fn lemma_item_entries_steps(
    b_in: Seq<(Seq<char>, SpecStubValue)>,
    b_out: Seq<(Seq<char>, SpecStubValue)>,
    st1: SpecCollectState,
    last: SpecModuleItem,
)
    requires
        spec_step_resolved(b_in, b_out, st1.taken, last),
    ensures
        spec_registered_entries(
            b_out,
            spec_export_props(
                spec_collect_item(true, st1, last).exports.skip(st1.exports.len() as int),
            ),
        ) == spec_native_item_entries(b_in, last),
{
    let recs = spec_collect_item(true, st1, last).exports.skip(st1.exports.len() as int);
    lemma_item_records(st1, last);
    match last {
        SpecModuleItem::ExportDecl { decl, .. } => {
            assert(recs =~= spec_export_decl_records(decl));
            assert(spec_registered_entries(b_out, spec_export_props(recs))
                =~= spec_native_item_entries(b_in, last));
        },
        SpecModuleItem::ExportDefaultDecl { decl, .. } => {
            match decl {
                SpecDefaultDecl::Fn { name: Some(n), .. } => {
                    assert(recs =~= seq![spec_default_export(n)]);
                    assert(spec_registered_entries(b_out, spec_export_props(recs))
                        =~= spec_native_item_entries(b_in, last));
                },
                SpecDefaultDecl::Class { name: Some(n), .. } => {
                    assert(recs =~= seq![spec_default_export(n)]);
                    assert(spec_registered_entries(b_out, spec_export_props(recs))
                        =~= spec_native_item_entries(b_in, last));
                },
                SpecDefaultDecl::Fn { name: None, fn_ref } => {
                    let f = spec_fresh(st1.taken, "__export_default"@);
                    assert(recs =~= seq![spec_default_export(f)]);
                    assert(spec_registered_entries(b_out, spec_export_props(recs))
                        =~= spec_native_item_entries(b_in, last));
                },
                SpecDefaultDecl::Class { name: None, class_ref } => {
                    let f = spec_fresh(st1.taken, "__export_default"@);
                    assert(recs =~= seq![spec_default_export(f)]);
                    assert(spec_registered_entries(b_out, spec_export_props(recs))
                        =~= spec_native_item_entries(b_in, last));
                },
                _ => {
                    assert(recs =~= Seq::<SpecExportModule>::empty());
                    assert(spec_registered_entries(b_out, spec_export_props(recs))
                        =~= spec_native_item_entries(b_in, last));
                },
            }
        },
        SpecModuleItem::ExportDefaultExpr { expr, .. } => {
            let f = spec_fresh(st1.taken, "__export_default"@);
            assert(recs =~= seq![spec_default_export(f)]);
            assert(spec_registered_entries(b_out, spec_export_props(recs))
                =~= spec_native_item_entries(b_in, last));
        },
        SpecModuleItem::ExportNamed { src, specifiers, type_only, .. } => {
            if type_only {
                assert(recs =~= Seq::<SpecExportModule>::empty());
                assert(spec_registered_entries(b_out, spec_export_props(recs))
                    =~= spec_native_item_entries(b_in, last));
            } else {
                match src {
                    None => {
                        assert(recs =~= spec_local_export_records(specifiers));
                        lemma_local_records_entries(b_in, b_out, specifiers);
                    },
                    Some(m) => {
                        if spec_is_namespace_reexport(specifiers) {
                            let f = spec_fresh(st1.taken, "__export_named"@);
                            assert(recs =~= seq![
                                SpecExportModule {
                                    ident: f,
                                    as_ident: Some(specifiers[0]->Namespace_name->Ident_0),
                                    module_type: ModuleType::NamespaceOrAll,
                                },
                            ]);
                            assert(spec_registered_entries(b_out, spec_export_props(recs))
                                =~= spec_native_item_entries(b_in, last));
                        } else {
                            assert(recs =~= spec_local_export_records(specifiers));
                            lemma_reexport_records_entries(b_out, m, specifiers);
                        }
                    },
                }
            }
        },
        SpecModuleItem::ExportAll { src, type_only, .. } => {
            if type_only {
                assert(recs =~= Seq::<SpecExportModule>::empty());
                assert(spec_registered_entries(b_out, spec_export_props(recs))
                    =~= spec_native_item_entries(b_in, last));
            } else {
                let f = spec_fresh(st1.taken, "__export_all"@);
                assert(recs =~= seq![
                    SpecExportModule {
                        ident: f,
                        as_ident: None,
                        module_type: ModuleType::NamespaceOrAll,
                    },
                ]);
                assert(spec_registered_entries(b_out, spec_export_props(recs))
                    =~= spec_native_item_entries(b_in, last));
            }
        },
        _ => {
            assert(recs =~= Seq::<SpecExportModule>::empty());
            assert(spec_registered_entries(b_out, spec_export_props(recs))
                =~= spec_native_item_entries(b_in, last));
        },
    }
}

/// Alignment: wherever every step's exported names resolve as stated, the
/// pass's records register exactly the native export surface, item by item.
proof fn lemma_entries_align_steps(
    b_in: Seq<(Seq<char>, SpecStubValue)>,
    b_out: Seq<(Seq<char>, SpecStubValue)>,
    st0: SpecCollectState,
    items: Seq<SpecModuleItem>,
)
    requires
        forall|j: int|
            0 <= j < items.len() ==> spec_step_resolved(
                b_in,
                b_out,
                spec_collect(true, st0, items.take(j)).taken,
                #[trigger] items[j],
            ),
    ensures
        spec_registered_entries(
            b_out,
            spec_export_props(spec_collect(true, st0, items).exports),
        ) == spec_registered_entries(b_out, spec_export_props(st0.exports))
            + spec_native_entries(b_in, items),
    decreases items.len(),
{
    if items.len() == 0 {
        assert(spec_registered_entries(b_out, spec_export_props(st0.exports))
            + spec_native_entries(b_in, items) =~= spec_registered_entries(
            b_out,
            spec_export_props(st0.exports),
        ));
    } else {
        let pre = items.drop_last();
        let last = items.last();
        assert forall|j: int| 0 <= j < pre.len() implies spec_step_resolved(
            b_in,
            b_out,
            spec_collect(true, st0, pre.take(j)).taken,
            #[trigger] pre[j],
        ) by {
            assert(pre[j] == items[j]);
            assert(pre.take(j) =~= items.take(j));
        }
        lemma_entries_align_steps(b_in, b_out, st0, pre);
        let st1 = spec_collect(true, st0, pre);
        let st2 = spec_collect_item(true, st1, last);
        assert(spec_step_resolved(b_in, b_out, st1.taken, last)) by {
            assert(items[items.len() - 1] == last);
            assert(items.take(items.len() - 1) =~= pre);
        }
        let recs = st2.exports.skip(st1.exports.len() as int);
        lemma_item_records(st1, last);
        assert(st2.exports =~= st1.exports + recs);
        lemma_props_concat(st1.exports, recs);
        lemma_registered_concat(b_out, spec_export_props(st1.exports), spec_export_props(recs));
        lemma_item_entries_steps(b_in, b_out, st1, last);
        assert(spec_registered_entries(b_out, spec_export_props(st0.exports))
            + spec_native_entries(b_in, pre) + spec_native_item_entries(b_in, last)
            =~= spec_registered_entries(b_out, spec_export_props(st0.exports))
            + spec_native_entries(b_in, items));
    }
}

/// A name bound at least once natively resolves alike on both sides.
proof fn lemma_agree_for_name(
    items: Seq<SpecModuleItem>,
    taken: Seq<Seq<char>>,
    b_in: Seq<(Seq<char>, SpecStubValue)>,
    b_out: Seq<(Seq<char>, SpecStubValue)>,
    n: Seq<char>,
)
    requires
        forall|j: int| 0 <= j < items.len() ==> spec_opaque_input(#[trigger] items[j]),
        forall|n2: Seq<char>|
            #[trigger] spec_binds_count(spec_transformed_bindings(items, taken), n2) <= 1,
        b_in == spec_bindings(items),
        b_out == spec_transformed_bindings(items, taken),
        forall|j: int| 0 <= j < b_in.len() ==> b_out.contains(#[trigger] b_in[j]),
        spec_binds_count(b_in, n) >= 1,
    ensures
        spec_lookup(b_out, n) == spec_lookup(b_in, n),
{
    lemma_native_counts_below(items, taken, n);
    assert(spec_binds_count(spec_transformed_bindings(items, taken), n) <= 1);
    lemma_lookup_agree(b_in, b_out, n);
}

/// A binding present in the transformed module resolves to its own value.
proof fn lemma_pair_resolves(
    items: Seq<SpecModuleItem>,
    taken: Seq<Seq<char>>,
    b_out: Seq<(Seq<char>, SpecStubValue)>,
    pair: (Seq<char>, SpecStubValue),
)
    requires
        forall|n2: Seq<char>|
            #[trigger] spec_binds_count(spec_transformed_bindings(items, taken), n2) <= 1,
        b_out == spec_transformed_bindings(items, taken),
        b_out.contains(pair),
    ensures
        spec_lookup(b_out, pair.0) == pair.1,
{
    let w = choose|w: int| 0 <= w < b_out.len() && b_out[w] == pair;
    lemma_binding_counts(b_out, pair.0, w);
    assert(spec_binds_count(spec_transformed_bindings(items, taken), pair.0) <= 1);
    lemma_lookup_unique(b_out, pair.0, w);
}

/// A record among the pass's final records puts its binding among the
/// transformed module's bindings.
proof fn lemma_record_pair_in_out(
    items: Seq<SpecModuleItem>,
    taken: Seq<Seq<char>>,
    b_out: Seq<(Seq<char>, SpecStubValue)>,
    idx: int,
)
    requires
        b_out == spec_transformed_bindings(items, taken),
        0 <= idx < spec_collect(true, spec_initial_state(taken), items).imports.len(),
    ensures
        b_out.contains(
            spec_import_record_binding(
                spec_collect(true, spec_initial_state(taken), items).imports[idx],
            ),
        ),
{
    let f_all = spec_collect(true, spec_initial_state(taken), items);
    let to_bind = |r: SpecImportModule| spec_import_record_binding(r);
    assert(f_all.imports.map_values(to_bind)[idx] == to_bind(f_all.imports[idx]));
    lemma_contains_concat(
        f_all.imports.map_values(to_bind),
        spec_bindings(f_all.body),
        to_bind(f_all.imports[idx]),
    );
}

/// A statement among the pass's final replacement list puts its bindings
/// among the transformed module's bindings.
proof fn lemma_body_pair_in_out(
    items: Seq<SpecModuleItem>,
    taken: Seq<Seq<char>>,
    b_out: Seq<(Seq<char>, SpecStubValue)>,
    idx: int,
    pair: (Seq<char>, SpecStubValue),
)
    requires
        b_out == spec_transformed_bindings(items, taken),
        0 <= idx < spec_collect(true, spec_initial_state(taken), items).body.len(),
        spec_item_bindings(
            spec_collect(true, spec_initial_state(taken), items).body[idx],
        ).contains(pair),
    ensures
        b_out.contains(pair),
{
    let f_all = spec_collect(true, spec_initial_state(taken), items);
    let to_bind = |r: SpecImportModule| spec_import_record_binding(r);
    lemma_bindings_item_contains(f_all.body, idx, pair);
    lemma_contains_concat(f_all.imports.map_values(to_bind), spec_bindings(f_all.body), pair);
}

/// Every step of the pass resolves as `spec_step_resolved` states, under the
/// module's well-formedness.
proof fn lemma_one_step_resolved(
    items: Seq<SpecModuleItem>,
    taken: Seq<Seq<char>>,
    b_in: Seq<(Seq<char>, SpecStubValue)>,
    b_out: Seq<(Seq<char>, SpecStubValue)>,
    i: int,
)
    requires
        0 <= i < items.len(),
        forall|j: int| 0 <= j < items.len() ==> spec_opaque_input(#[trigger] items[j]),
        forall|n2: Seq<char>|
            #[trigger] spec_binds_count(spec_transformed_bindings(items, taken), n2) <= 1,
        forall|j: int|
            0 <= j < items.len() ==> spec_item_refs_bound(
                spec_bindings(items),
                #[trigger] items[j],
            ),
        b_in == spec_bindings(items),
        b_out == spec_transformed_bindings(items, taken),
        forall|j: int| 0 <= j < b_in.len() ==> b_out.contains(#[trigger] b_in[j]),
    ensures
        spec_step_resolved(
            b_in,
            b_out,
            spec_collect(true, spec_initial_state(taken), items.take(i)).taken,
            items[i],
        ),
{
    let st0 = spec_initial_state(taken);
    let st_i = spec_collect(true, st0, items.take(i));
    let st_next = spec_collect_item(true, st_i, items[i]);
    crate::module_collector::lemma_spec_collect_step(true, st0, items, i);
    lemma_collect_extends(true, st0, items, i + 1);
    let f_all = spec_collect(true, st0, items);
    let item = items[i];
    match item {
        SpecModuleItem::ExportDecl { decl, .. } => {
            match decl {
                SpecDecl::Var { decl_ref, name: Some(n) } => {
                    let pair = (n, SpecStubValue::DeclBound(decl_ref, n));
                    lemma_singleton_contains(pair);
                    assert(spec_item_bindings(item) =~= seq![pair]);
                    lemma_bindings_item_contains(items, i, pair);
                    let w = choose|w: int| 0 <= w < b_in.len() && b_in[w] == pair;
                    lemma_binding_counts(b_in, n, w);
                    lemma_agree_for_name(items, taken, b_in, b_out, n);
                },
                SpecDecl::Fn { name, fn_ref } => {
                    let pair = (name, SpecStubValue::Opaque(fn_ref));
                    lemma_singleton_contains(pair);
                    assert(spec_item_bindings(item) =~= seq![pair]);
                    lemma_bindings_item_contains(items, i, pair);
                    let w = choose|w: int| 0 <= w < b_in.len() && b_in[w] == pair;
                    lemma_binding_counts(b_in, name, w);
                    lemma_agree_for_name(items, taken, b_in, b_out, name);
                },
                SpecDecl::Class { name, class_ref } => {
                    let pair = (name, SpecStubValue::Opaque(class_ref));
                    lemma_singleton_contains(pair);
                    assert(spec_item_bindings(item) =~= seq![pair]);
                    lemma_bindings_item_contains(items, i, pair);
                    let w = choose|w: int| 0 <= w < b_in.len() && b_in[w] == pair;
                    lemma_binding_counts(b_in, name, w);
                    lemma_agree_for_name(items, taken, b_in, b_out, name);
                },
                _ => {},
            }
        },
        SpecModuleItem::ExportDefaultDecl { decl, .. } => {
            match decl {
                SpecDefaultDecl::Fn { name: Some(n), fn_ref } => {
                    let pair = (n, SpecStubValue::Opaque(fn_ref));
                    lemma_singleton_contains(pair);
                    assert(spec_item_bindings(item) =~= seq![pair]);
                    lemma_bindings_item_contains(items, i, pair);
                    let w = choose|w: int| 0 <= w < b_in.len() && b_in[w] == pair;
                    lemma_binding_counts(b_in, n, w);
                    lemma_agree_for_name(items, taken, b_in, b_out, n);
                },
                SpecDefaultDecl::Class { name: Some(n), class_ref } => {
                    let pair = (n, SpecStubValue::Opaque(class_ref));
                    lemma_singleton_contains(pair);
                    assert(spec_item_bindings(item) =~= seq![pair]);
                    lemma_bindings_item_contains(items, i, pair);
                    let w = choose|w: int| 0 <= w < b_in.len() && b_in[w] == pair;
                    lemma_binding_counts(b_in, n, w);
                    lemma_agree_for_name(items, taken, b_in, b_out, n);
                },
                SpecDefaultDecl::Fn { name: None, fn_ref } => {
                    let f = spec_fresh(st_i.taken, "__export_default"@);
                    let kept = SpecModuleItem::Stmt(SpecStmt::VarDecl {
                        span: spec_dummy_span(),
                        name: f,
                        init: SpecExpr::Raw(fn_ref),
                    });
                    let idx = st_i.body.len() as int;
                    assert(st_next.body[idx] == kept);
                    assert(f_all.body[idx] == kept) by {
                        assert(f_all.body.take(st_next.body.len() as int)[idx]
                            == st_next.body[idx]);
                    }
                    let pair = (f, SpecStubValue::Opaque(fn_ref));
                    lemma_singleton_contains(pair);
                    assert(spec_item_bindings(kept) =~= seq![pair]);
                    lemma_body_pair_in_out(items, taken, b_out, idx, pair);
                    lemma_pair_resolves(items, taken, b_out, pair);
                },
                SpecDefaultDecl::Class { name: None, class_ref } => {
                    let f = spec_fresh(st_i.taken, "__export_default"@);
                    let kept = SpecModuleItem::Stmt(SpecStmt::VarDecl {
                        span: spec_dummy_span(),
                        name: f,
                        init: SpecExpr::Raw(class_ref),
                    });
                    let idx = st_i.body.len() as int;
                    assert(st_next.body[idx] == kept);
                    assert(f_all.body[idx] == kept) by {
                        assert(f_all.body.take(st_next.body.len() as int)[idx]
                            == st_next.body[idx]);
                    }
                    let pair = (f, SpecStubValue::Opaque(class_ref));
                    lemma_singleton_contains(pair);
                    assert(spec_item_bindings(kept) =~= seq![pair]);
                    lemma_body_pair_in_out(items, taken, b_out, idx, pair);
                    lemma_pair_resolves(items, taken, b_out, pair);
                },
                _ => {},
            }
        },
        SpecModuleItem::ExportDefaultExpr { expr, .. } => {
            let f = spec_fresh(st_i.taken, "__export_default"@);
            let kept = SpecModuleItem::Stmt(SpecStmt::VarDecl {
                span: spec_dummy_span(),
                name: f,
                init: expr,
            });
            let idx = st_i.body.len() as int;
            assert(st_next.body[idx] == kept);
            assert(f_all.body[idx] == kept) by {
                assert(f_all.body.take(st_next.body.len() as int)[idx] == st_next.body[idx]);
            }
            let pair = (f, spec_init_value(expr));
            lemma_singleton_contains(pair);
            assert(spec_item_bindings(kept) =~= seq![pair]);
            lemma_body_pair_in_out(items, taken, b_out, idx, pair);
            lemma_pair_resolves(items, taken, b_out, pair);
        },
        SpecModuleItem::ExportNamed { src, specifiers, type_only, .. } => {
            if !type_only {
                match src {
                    None => {
                        assert(spec_item_refs_bound(b_in, item));
                        assert forall|j2: int|
                            0 <= j2 < specifiers.len() && spec_plain_orig(
                                #[trigger] specifiers[j2],
                            ) is Some implies spec_lookup(
                            b_out,
                            spec_plain_orig(specifiers[j2])->0,
                        ) == spec_lookup(b_in, spec_plain_orig(specifiers[j2])->0) by {
                            let n = spec_plain_orig(specifiers[j2])->0;
                            lemma_agree_for_name(items, taken, b_in, b_out, n);
                        }
                    },
                    Some(m) => {
                        if spec_is_namespace_reexport(specifiers) {
                            let f = spec_fresh(st_i.taken, "__export_named"@);
                            let rec = SpecImportModule {
                                span: specifiers[0]->Namespace_span,
                                ident: f,
                                module_src: m,
                                module_type: ModuleType::NamespaceOrAll,
                            };
                            let idx = st_i.imports.len() as int;
                            assert(st_next.imports[idx] == rec);
                            assert(f_all.imports[idx] == rec) by {
                                assert(f_all.imports.take(st_next.imports.len() as int)[idx]
                                    == st_next.imports[idx]);
                            }
                            lemma_record_pair_in_out(items, taken, b_out, idx);
                            lemma_pair_resolves(
                                items,
                                taken,
                                b_out,
                                (f, SpecStubValue::Namespace(m)),
                            );
                        } else {
                            assert forall|j2: int|
                                0 <= j2 < specifiers.len() && spec_plain_orig(
                                    #[trigger] specifiers[j2],
                                ) is Some implies spec_lookup(
                                b_out,
                                spec_plain_orig(specifiers[j2])->0,
                            ) == SpecStubValue::Member(
                                m,
                                spec_plain_orig(specifiers[j2])->0,
                            ) by {
                                let o = spec_plain_orig(specifiers[j2])->0;
                                let pair = (o, SpecStubValue::Member(m, o));
                                lemma_reexport_record_contains(m, specifiers, j2);
                                let recs = spec_reexport_import_records(m, specifiers);
                                let w = choose|w: int|
                                    0 <= w < recs.len() && spec_import_record_binding(
                                        #[trigger] recs[w],
                                    ) == pair;
                                let idx = st_i.imports.len() + w;
                                assert(st_next.imports[idx] == recs[w]);
                                assert(f_all.imports[idx] == recs[w]) by {
                                    assert(f_all.imports.take(
                                        st_next.imports.len() as int,
                                    )[idx] == st_next.imports[idx]);
                                }
                                lemma_record_pair_in_out(items, taken, b_out, idx);
                                lemma_pair_resolves(items, taken, b_out, pair);
                            }
                        }
                    },
                }
            }
        },
        SpecModuleItem::ExportAll { src, type_only, .. } => {
            if !type_only {
                let f = spec_fresh(st_i.taken, "__export_all"@);
                let rec = SpecImportModule {
                    span: spec_dummy_span(),
                    ident: f,
                    module_src: src,
                    module_type: ModuleType::NamespaceOrAll,
                };
                let idx = st_i.imports.len() as int;
                assert(st_next.imports[idx] == rec);
                assert(f_all.imports[idx] == rec) by {
                    assert(f_all.imports.take(st_next.imports.len() as int)[idx]
                        == st_next.imports[idx]);
                }
                lemma_record_pair_in_out(items, taken, b_out, idx);
                lemma_pair_resolves(items, taken, b_out, (f, SpecStubValue::Namespace(src)));
            }
        },
        _ => {},
    }
}

/// Round trip under the stub registry: running the transformed statement
/// list against a registry whose import operation returns a fixed stub
/// namespace per module, the export registration records, entry for entry
/// and in source order, exactly what native module resolution would expose
/// for every originally-exported binding.
///
/// The hypotheses are the well-formedness native resolution itself demands
/// of a module handed over by a host: every plain statement and default
/// payload is opaque to the transform, each top-level binding name of the
/// transformed module — the module's own and those the re-export forms
/// materialize — is bound at most once, and every name a local export list
/// references is bound.
pub proof fn lemma_round_trip(
    o: SpecTransformOptions,
    items: Seq<SpecModuleItem>,
    taken: Seq<Seq<char>>,
)
    requires
        o.runtime_module,
        o.convention == RegistryConvention::Call,
        forall|j: int| 0 <= j < items.len() ==> spec_opaque_input(#[trigger] items[j]),
        forall|n: Seq<char>|
            #[trigger] spec_binds_count(spec_transformed_bindings(items, taken), n) <= 1,
        forall|j: int|
            0 <= j < items.len() ==> spec_item_refs_bound(
                spec_bindings(items),
                #[trigger] items[j],
            ),
    ensures
        ({
            let st = spec_collect(true, spec_initial_state(taken), items);
            spec_registered_entries(
                spec_bindings(spec_transform(o, items, taken)),
                spec_export_props(st.exports),
            ) == spec_native_entries(spec_bindings(items), items)
        }),
{
    let st0 = spec_initial_state(taken);
    let st = spec_collect(true, st0, items);
    let b_in = spec_bindings(items);
    let out = spec_transform(o, items, taken);
    let part1 = spec_import_items(o, st.imports);
    let part3 = spec_export_items(o, st.exports);
    let to_bind = |r: SpecImportModule| spec_import_record_binding(r);

    // the transformed module's bindings: the synthesized import
    // declarations' bindings, then the kept declarations'
    lemma_bindings_concat(part1 + st.body, part3);
    lemma_bindings_concat(part1, st.body);
    assert(out =~= (part1 + st.body) + part3);
    lemma_import_items_bindings(o, st.imports);
    assert(spec_bindings(part3) =~= Seq::<(Seq<char>, SpecStubValue)>::empty()) by {
        let reg_item = SpecModuleItem::Stmt(crate::transform::spec_exports_stmt(o, st.exports));
        assert(part3 =~= seq![reg_item]);
        lemma_bindings_singleton(reg_item);
    }
    let b_out = spec_bindings(out);
    assert(b_out =~= st.imports.map_values(to_bind) + spec_bindings(st.body));
    assert(b_out =~= spec_transformed_bindings(items, taken));

    // every step's exported names resolve as stated
    lemma_native_bindings_transfer(items, taken);
    assert forall|i: int| 0 <= i < items.len() implies spec_step_resolved(
        b_in,
        b_out,
        spec_collect(true, st0, items.take(i)).taken,
        #[trigger] items[i],
    ) by {
        lemma_one_step_resolved(items, taken, b_in, b_out, i);
    }
    lemma_entries_align_steps(b_in, b_out, st0, items);
    assert(spec_registered_entries(b_out, spec_export_props(st0.exports)) =~= Seq::<
        SpecStubEntry,
    >::empty());
    assert(spec_registered_entries(b_out, spec_export_props(st.exports)) =~= spec_native_entries(
        b_in,
        items,
    ));
}

} // verus!
