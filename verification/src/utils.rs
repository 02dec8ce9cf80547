//! Builders for the tree nodes the transform synthesizes.

use vstd::prelude::*;

use crate::ast::{lemma_view_exprs, view_exprs, Expr, SpecExpr, SpecStmt, SrcSpan, Stmt};

verus! {

/// `name`, as an expression referencing an identifier.
pub fn ident_expr(sym: String) -> (r: Expr)
    ensures
        r@ == SpecExpr::Ident(sym@),
{
    Expr::Ident(sym)
}

/// A string literal with the given value.
pub fn str_lit_expr(value: String) -> (r: Expr)
    ensures
        r@ == SpecExpr::Str(value@),
{
    Expr::Str(value)
}

/// `obj.prop`.
pub fn obj_member_expr(obj: Expr, prop: String) -> (r: Expr)
    ensures
        r@ == SpecExpr::Member(Box::new(obj@), prop@),
{
    Expr::Member(Box::new(obj), prop)
}

/// `obj[index]`.
pub fn computed_member_expr(obj: Expr, index: Expr) -> (r: Expr)
    ensures
        r@ == SpecExpr::ComputedMember(Box::new(obj@), Box::new(index@)),
{
    Expr::ComputedMember(Box::new(obj), Box::new(index))
}

/// `callee(args...)`.
pub fn call_expr(callee: Expr, args: Vec<Expr>) -> (r: Expr)
    ensures
        r@ == SpecExpr::Call(Box::new(callee@), args.deep_view()),
{
    proof {
        lemma_view_exprs(args@);
        assert(view_exprs(args@) =~= args.deep_view());
    }
    Expr::Call(Box::new(callee), args)
}

/// `var name = init;`, with the declarator anchored at `span`.
pub fn decl_var_and_assign_stmt(name: String, span: SrcSpan, init: Expr) -> (r: Stmt)
    ensures
        r@ == (SpecStmt::VarDecl { span, name: name@, init: init@ }),
{
    Stmt::VarDecl { span, name, init }
}

} // verus!
