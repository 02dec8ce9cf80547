//! A single-pass rewrite of ECMAScript module syntax into calls against an
//! explicit, host-provided module registry.
//!
//! The transform walks a module's top-level statement list once, collects an
//! `ImportModule` record for every import binding and an `ExportModule`
//! record for every exported binding, and replaces (or, in bundle mode,
//! supplements) the module declarations with plain statements that call a
//! conventionally named global registry object. A module-level construct
//! outside the enumerated forms is passed through unchanged and contributes
//! no records; the transform is total over well-formed module trees.
//!
//! The statement list is modelled by [`ast::ModuleItem`]: a tree that holds,
//! as plain values, exactly the fields the transform reads, and carries every
//! uninspected node as an opaque token that the caller can map back to its
//! own tree representation.

pub mod ast;
pub mod fresh;
pub mod laws;
pub mod module_collector;
pub mod round_trip;
pub mod transform;
pub mod utils;
