//! What lowering the syntax of a body makes, as functions on mathematical
//! values: the arenas, the maps and the ids, step by step.

use vstd::prelude::*;
use crate::ast;
use crate::ast::{first_bin_op, first_token_text, kids, nth_kid, spec_prefix_op};
use crate::expr::{ExprId, ExprView, MatchArmView, PatId, PatView, StatementView, StructLitFieldView};
use crate::path::{PathKind, PathView, lower_path};
use crate::syntax::{NodeView, has_child_of_kind};
use crate::syntax_kind::SyntaxKind;
use crate::syntax_ptr::LocalSyntaxPtr;
use crate::type_ref::{Mutability, TypeRefView, lower_type};

verus! {

/// The state of a lowering, as a mathematical value: the two arenas, the
/// maps from syntax pointers to ids and, for each id, the pointer of the
/// syntax that it was made from, if it was made from syntax.
pub struct LoweringView {
    pub exprs: Seq<ExprView>,
    pub pats: Seq<PatView>,
    pub expr_map: Map<LocalSyntaxPtr, ExprId>,
    pub expr_back: Seq<Option<LocalSyntaxPtr>>,
    pub pat_map: Map<LocalSyntaxPtr, PatId>,
    pub pat_back: Seq<Option<LocalSyntaxPtr>>,
    /// No pointer was entered in a map that held it already.
    pub fresh: bool,
}

impl LoweringView {
    /// The state before anything was lowered.
    pub open spec fn empty() -> LoweringView {
        LoweringView {
            exprs: Seq::empty(),
            pats: Seq::empty(),
            expr_map: Map::empty(),
            expr_back: Seq::empty(),
            pat_map: Map::empty(),
            pat_back: Seq::empty(),
            fresh: true,
        }
    }

    /// A new expression made from the syntax at `ptr`.
    pub open spec fn alloc_expr(self, e: ExprView, ptr: LocalSyntaxPtr) -> (LoweringView, ExprId) {
        let id = ExprId(self.exprs.len() as usize);
        (
            LoweringView {
                exprs: self.exprs.push(e),
                expr_map: self.expr_map.insert(ptr, id),
                expr_back: self.expr_back.push(Some(ptr)),
                fresh: self.fresh && !self.expr_map.contains_key(ptr),
                ..self
            },
            id,
        )
    }

    /// A new expression that no syntax stands for.
    pub open spec fn alloc_expr_bare(self, e: ExprView) -> (LoweringView, ExprId) {
        let id = ExprId(self.exprs.len() as usize);
        (LoweringView { exprs: self.exprs.push(e), expr_back: self.expr_back.push(None), ..self }, id)
    }

    /// One more pointer to an expression that exists.
    pub open spec fn map_expr(self, ptr: LocalSyntaxPtr, id: ExprId) -> LoweringView {
        LoweringView {
            expr_map: self.expr_map.insert(ptr, id),
            fresh: self.fresh && !self.expr_map.contains_key(ptr),
            ..self
        }
    }

    /// Expression `id`, which was made for the syntax at `ptr`, becomes
    /// `e`, and `ptr` leads to it, whatever was entered for `ptr` since.
    pub open spec fn finish_expr(self, id: ExprId, e: ExprView, ptr: LocalSyntaxPtr) -> LoweringView {
        LoweringView {
            exprs: self.exprs.update(id.0 as int, e),
            expr_map: self.expr_map.insert(ptr, id),
            fresh: self.fresh && self.expr_map.contains_key(ptr) && self.expr_map[ptr] == id,
            ..self
        }
    }

    /// Pattern `id`, which was made for the syntax at `ptr`, becomes `p`,
    /// and `ptr` leads to it, whatever was entered for `ptr` since.
    pub open spec fn finish_pat(self, id: PatId, p: PatView, ptr: LocalSyntaxPtr) -> LoweringView {
        LoweringView {
            pats: self.pats.update(id.0 as int, p),
            pat_map: self.pat_map.insert(ptr, id),
            fresh: self.fresh && self.pat_map.contains_key(ptr) && self.pat_map[ptr] == id,
            ..self
        }
    }

    /// A new pattern made from the syntax at `ptr`.
    pub open spec fn alloc_pat(self, p: PatView, ptr: LocalSyntaxPtr) -> (LoweringView, PatId) {
        let id = PatId(self.pats.len() as usize);
        (
            LoweringView {
                pats: self.pats.push(p),
                pat_map: self.pat_map.insert(ptr, id),
                pat_back: self.pat_back.push(Some(ptr)),
                fresh: self.fresh && !self.pat_map.contains_key(ptr),
                ..self
            },
            id,
        )
    }

    /// A new pattern that no syntax stands for.
    pub open spec fn alloc_pat_bare(self, p: PatView) -> (LoweringView, PatId) {
        let id = PatId(self.pats.len() as usize);
        (LoweringView { pats: self.pats.push(p), pat_back: self.pat_back.push(None), ..self }, id)
    }
}

/// The `n`-th child of node `i` that type `C` stands for.
pub open spec fn kid<'a, C: ast::AstNode<'a>>(nodes: Seq<NodeView>, i: int, n: int) -> Option<int> {
    match nth_kid::<C>(nodes, i, n) {
        Some(c) => if 0 <= i < c < nodes.len() {
            Some(c)
        } else {
            None
        },
        None => None,
    }
}

/// The text of the name at node `n`, or of the name that stands in for a
/// missing one.
pub open spec fn name_or_missing(nodes: Seq<NodeView>, n: Option<int>) -> Seq<char> {
    match n {
        Some(n) => first_token_text(nodes, n),
        None => "[missing name]"@,
    }
}

/// The path that the path syntax at node `p` stands for, if there is such
/// syntax and it stands for a path.
pub open spec fn path_of(nodes: Seq<NodeView>, p: Option<int>) -> Option<PathView> {
    match p {
        Some(p) => lower_path(nodes, p),
        None => None,
    }
}

/// The type that the type syntax at node `t` stands for; the error type
/// for missing syntax.
pub open spec fn type_or_error(nodes: Seq<NodeView>, t: Option<int>) -> TypeRefView {
    match t {
        Some(t) => lower_type(nodes, t),
        None => TypeRefView::Error,
    }
}

/// The type that the type syntax at node `t` stands for, if there is such syntax.
pub open spec fn type_of(nodes: Seq<NodeView>, t: Option<int>) -> Option<TypeRefView> {
    match t {
        Some(t) => Some(lower_type(nodes, t)),
        None => None,
    }
}

/// The expression for the expression syntax at node `i`, and the state
/// after it was made. The expression gets its id first, under the pointer
/// to `i`; then come the expressions for its parts, from left to right:
/// the ids follow the order of the source, and every expression comes
/// before what it holds. Parentheses make no expression of their own:
/// their pointer leads to the expression inside.
pub open spec fn lower_expr(nodes: Seq<NodeView>, i: int, st: LoweringView) -> (LoweringView, ExprId)
    decreases nodes.len() - i, 10int, 0nat,
{
    match nodes[i].kind {
        SyntaxKind::IF_EXPR => lower_if(nodes, i, st),
        SyntaxKind::BLOCK_EXPR => lower_block_opt(nodes, i, kid::<ast::Block>(nodes, i, 0), st),
        SyntaxKind::LOOP_EXPR => lower_loop(nodes, i, st),
        SyntaxKind::WHILE_EXPR => lower_while(nodes, i, st),
        SyntaxKind::FOR_EXPR => lower_for(nodes, i, st),
        SyntaxKind::CALL_EXPR => lower_call(nodes, i, st),
        SyntaxKind::METHOD_CALL_EXPR => lower_method_call(nodes, i, st),
        SyntaxKind::MATCH_EXPR => lower_match(nodes, i, st),
        SyntaxKind::PATH_EXPR => lower_path_expr(nodes, i, st),
        SyntaxKind::CONTINUE_EXPR => st.alloc_expr(ExprView::Continue, LocalSyntaxPtr::of(nodes, i)),
        SyntaxKind::BREAK_EXPR => lower_break(nodes, i, st),
        SyntaxKind::PAREN_EXPR => lower_paren(nodes, i, st),
        SyntaxKind::RETURN_EXPR => lower_return(nodes, i, st),
        SyntaxKind::STRUCT_LIT => lower_struct_lit(nodes, i, st),
        SyntaxKind::FIELD_EXPR => lower_field_expr(nodes, i, st),
        SyntaxKind::TRY_EXPR => lower_try(nodes, i, st),
        SyntaxKind::CAST_EXPR => lower_cast(nodes, i, st),
        SyntaxKind::REF_EXPR => lower_ref(nodes, i, st),
        SyntaxKind::PREFIX_EXPR => lower_prefix(nodes, i, st),
        SyntaxKind::LAMBDA_EXPR => lower_lambda(nodes, i, st),
        SyntaxKind::BIN_EXPR => lower_bin(nodes, i, st),
        // labels, index, tuple, array and range expressions and literals
        // have no model yet, and nothing else is an expression
        _ => st.alloc_expr(ExprView::Missing, LocalSyntaxPtr::of(nodes, i)),
    }
}

pub open spec fn lower_loop(nodes: Seq<NodeView>, i: int, st: LoweringView) -> (LoweringView, ExprId)
    decreases nodes.len() - i, 9int, 0nat,
{
    let (s0, id) = st.alloc_expr(ExprView::Missing, LocalSyntaxPtr::of(nodes, i));
    let (s1, body) = lower_block_opt(nodes, i, kid::<ast::Block>(nodes, i, 0), s0);
    (s1.finish_expr(id, ExprView::Loop { body }, LocalSyntaxPtr::of(nodes, i)), id)
}

pub open spec fn lower_for(nodes: Seq<NodeView>, i: int, st: LoweringView) -> (LoweringView, ExprId)
    decreases nodes.len() - i, 9int, 0nat,
{
    let (s0, id) = st.alloc_expr(ExprView::Missing, LocalSyntaxPtr::of(nodes, i));
    let (s1, iterable) = lower_expr_opt(nodes, i, kid::<ast::Expr>(nodes, i, 0), s0);
    let (s2, pat) = lower_pat_opt(nodes, i, kid::<ast::Pat>(nodes, i, 0), s1);
    let (s3, body) = lower_block_opt(nodes, i, kid::<ast::Block>(nodes, i, 0), s2);
    (s3.finish_expr(id, ExprView::For { iterable, pat, body }, LocalSyntaxPtr::of(nodes, i)), id)
}

pub open spec fn lower_call(nodes: Seq<NodeView>, i: int, st: LoweringView) -> (LoweringView, ExprId)
    decreases nodes.len() - i, 9int, 0nat,
{
    let (s0, id) = st.alloc_expr(ExprView::Missing, LocalSyntaxPtr::of(nodes, i));
    let (s1, callee) = lower_expr_opt(nodes, i, kid::<ast::Expr>(nodes, i, 0), s0);
    let (s2, args) = lower_args(nodes, i, kid::<ast::ArgList>(nodes, i, 0), s1);
    (s2.finish_expr(id, ExprView::Call { callee, args }, LocalSyntaxPtr::of(nodes, i)), id)
}

pub open spec fn lower_method_call(nodes: Seq<NodeView>, i: int, st: LoweringView) -> (LoweringView, ExprId)
    decreases nodes.len() - i, 9int, 0nat,
{
    let (s0, id) = st.alloc_expr(ExprView::Missing, LocalSyntaxPtr::of(nodes, i));
    let (s1, receiver) = lower_expr_opt(nodes, i, kid::<ast::Expr>(nodes, i, 0), s0);
    let (s2, args) = lower_args(nodes, i, kid::<ast::ArgList>(nodes, i, 0), s1);
    let method_name = name_or_missing(nodes, kid::<ast::NameRef>(nodes, i, 0));
    (s2.finish_expr(id, ExprView::MethodCall { receiver, method_name, args }, LocalSyntaxPtr::of(nodes, i)), id)
}

pub open spec fn lower_match(nodes: Seq<NodeView>, i: int, st: LoweringView) -> (LoweringView, ExprId)
    decreases nodes.len() - i, 9int, 0nat,
{
    let (s0, id) = st.alloc_expr(ExprView::Missing, LocalSyntaxPtr::of(nodes, i));
    let (s1, expr) = lower_expr_opt(nodes, i, kid::<ast::Expr>(nodes, i, 0), s0);
    let (s2, arms) = match kid::<ast::MatchArmList>(nodes, i, 0) {
        Some(l) => lower_arms(nodes, l, kids::<ast::MatchArm>(nodes, l), s1, Seq::empty()),
        None => (s1, Seq::empty()),
    };
    (s2.finish_expr(id, ExprView::Match { expr, arms }, LocalSyntaxPtr::of(nodes, i)), id)
}

pub open spec fn lower_path_expr(nodes: Seq<NodeView>, i: int, st: LoweringView) -> (LoweringView, ExprId) {
    let e = match path_of(nodes, kid::<ast::Path>(nodes, i, 0)) {
        Some(p) => ExprView::Path(p),
        None => ExprView::Missing,
    };
    st.alloc_expr(e, LocalSyntaxPtr::of(nodes, i))
}

pub open spec fn lower_break(nodes: Seq<NodeView>, i: int, st: LoweringView) -> (LoweringView, ExprId)
    decreases nodes.len() - i, 9int, 0nat,
{
    let (s0, id) = st.alloc_expr(ExprView::Missing, LocalSyntaxPtr::of(nodes, i));
    let (s1, expr) = lower_expr_maybe(nodes, i, kid::<ast::Expr>(nodes, i, 0), s0);
    (s1.finish_expr(id, ExprView::Break { expr }, LocalSyntaxPtr::of(nodes, i)), id)
}

pub open spec fn lower_paren(nodes: Seq<NodeView>, i: int, st: LoweringView) -> (LoweringView, ExprId)
    decreases nodes.len() - i, 9int, 0nat,
{
    let (s1, inner) = lower_expr_opt(nodes, i, kid::<ast::Expr>(nodes, i, 0), st);
    (s1.map_expr(LocalSyntaxPtr::of(nodes, i), inner), inner)
}

pub open spec fn lower_return(nodes: Seq<NodeView>, i: int, st: LoweringView) -> (LoweringView, ExprId)
    decreases nodes.len() - i, 9int, 0nat,
{
    let (s0, id) = st.alloc_expr(ExprView::Missing, LocalSyntaxPtr::of(nodes, i));
    let (s1, expr) = lower_expr_maybe(nodes, i, kid::<ast::Expr>(nodes, i, 0), s0);
    (s1.finish_expr(id, ExprView::Return { expr }, LocalSyntaxPtr::of(nodes, i)), id)
}

pub open spec fn lower_struct_lit(nodes: Seq<NodeView>, i: int, st: LoweringView) -> (LoweringView, ExprId)
    decreases nodes.len() - i, 9int, 0nat,
{
    let (s0, id) = st.alloc_expr(ExprView::Missing, LocalSyntaxPtr::of(nodes, i));
    let path = path_of(nodes, kid::<ast::Path>(nodes, i, 0));
    let (s1, fields) = match kid::<ast::NamedFieldList>(nodes, i, 0) {
        Some(l) => lower_fields(nodes, l, kids::<ast::NamedField>(nodes, l), s0, Seq::empty()),
        None => (s0, Seq::empty()),
    };
    let (s2, spread) = lower_expr_maybe(nodes, i, kid::<ast::Expr>(nodes, i, 0), s1);
    (s2.finish_expr(id, ExprView::StructLit { path, fields, spread }, LocalSyntaxPtr::of(nodes, i)), id)
}

pub open spec fn lower_field_expr(nodes: Seq<NodeView>, i: int, st: LoweringView) -> (LoweringView, ExprId)
    decreases nodes.len() - i, 9int, 0nat,
{
    let (s0, id) = st.alloc_expr(ExprView::Missing, LocalSyntaxPtr::of(nodes, i));
    let (s1, expr) = lower_expr_opt(nodes, i, kid::<ast::Expr>(nodes, i, 0), s0);
    let name = name_or_missing(nodes, kid::<ast::NameRef>(nodes, i, 0));
    (s1.finish_expr(id, ExprView::Field { expr, name }, LocalSyntaxPtr::of(nodes, i)), id)
}

pub open spec fn lower_try(nodes: Seq<NodeView>, i: int, st: LoweringView) -> (LoweringView, ExprId)
    decreases nodes.len() - i, 9int, 0nat,
{
    let (s0, id) = st.alloc_expr(ExprView::Missing, LocalSyntaxPtr::of(nodes, i));
    let (s1, expr) = lower_expr_opt(nodes, i, kid::<ast::Expr>(nodes, i, 0), s0);
    (s1.finish_expr(id, ExprView::Try { expr }, LocalSyntaxPtr::of(nodes, i)), id)
}

pub open spec fn lower_cast(nodes: Seq<NodeView>, i: int, st: LoweringView) -> (LoweringView, ExprId)
    decreases nodes.len() - i, 9int, 0nat,
{
    let (s0, id) = st.alloc_expr(ExprView::Missing, LocalSyntaxPtr::of(nodes, i));
    let (s1, expr) = lower_expr_opt(nodes, i, kid::<ast::Expr>(nodes, i, 0), s0);
    let type_ref = type_or_error(nodes, kid::<ast::TypeRef>(nodes, i, 0));
    (s1.finish_expr(id, ExprView::Cast { expr, type_ref }, LocalSyntaxPtr::of(nodes, i)), id)
}

pub open spec fn lower_ref(nodes: Seq<NodeView>, i: int, st: LoweringView) -> (LoweringView, ExprId)
    decreases nodes.len() - i, 9int, 0nat,
{
    let (s0, id) = st.alloc_expr(ExprView::Missing, LocalSyntaxPtr::of(nodes, i));
    let (s1, expr) = lower_expr_opt(nodes, i, kid::<ast::Expr>(nodes, i, 0), s0);
    let mutability = Mutability::spec_from_mutable(has_child_of_kind(nodes, i, SyntaxKind::MUT_KW));
    (s1.finish_expr(id, ExprView::Ref { expr, mutability }, LocalSyntaxPtr::of(nodes, i)), id)
}

pub open spec fn lower_prefix(nodes: Seq<NodeView>, i: int, st: LoweringView) -> (LoweringView, ExprId)
    decreases nodes.len() - i, 9int, 0nat,
{
    let (s0, id) = st.alloc_expr(ExprView::Missing, LocalSyntaxPtr::of(nodes, i));
    let (s1, expr) = lower_expr_opt(nodes, i, kid::<ast::Expr>(nodes, i, 0), s0);
    (s1.finish_expr(id, ExprView::UnaryOp { expr, op: spec_prefix_op(nodes, i) }, LocalSyntaxPtr::of(nodes, i)), id)
}

pub open spec fn lower_lambda(nodes: Seq<NodeView>, i: int, st: LoweringView) -> (LoweringView, ExprId)
    decreases nodes.len() - i, 9int, 0nat,
{
    let (s0, id) = st.alloc_expr(ExprView::Missing, LocalSyntaxPtr::of(nodes, i));
    let (s1, args, arg_types) = match kid::<ast::ParamList>(nodes, i, 0) {
        Some(pl) => lower_params(nodes, pl, kids::<ast::Param>(nodes, pl), s0, Seq::empty(), Seq::empty()),
        None => (s0, Seq::empty(), Seq::empty()),
    };
    let (s2, body) = lower_expr_opt(nodes, i, kid::<ast::Expr>(nodes, i, 0), s1);
    (s2.finish_expr(id, ExprView::Lambda { args, arg_types, body }, LocalSyntaxPtr::of(nodes, i)), id)
}

pub open spec fn lower_bin(nodes: Seq<NodeView>, i: int, st: LoweringView) -> (LoweringView, ExprId)
    decreases nodes.len() - i, 9int, 0nat,
{
    let (s0, id) = st.alloc_expr(ExprView::Missing, LocalSyntaxPtr::of(nodes, i));
    let (s1, lhs) = lower_expr_opt(nodes, i, kid::<ast::Expr>(nodes, i, 0), s0);
    let (s2, rhs) = lower_expr_opt(nodes, i, kid::<ast::Expr>(nodes, i, 1), s1);
    (s2.finish_expr(id, ExprView::BinaryOp { lhs, rhs, op: first_bin_op(nodes, i, 0) }, LocalSyntaxPtr::of(nodes, i)), id)
}

/// The `if` at node `i` is an `if let`: its condition holds a pattern.
pub open spec fn is_if_let(nodes: Seq<NodeView>, i: int) -> bool {
    kid::<ast::Condition>(nodes, i, 0) matches Some(c) && kid::<ast::Pat>(nodes, c, 0).is_some()
}

/// The expression for an `if`. An `if let` becomes a match on the
/// condition with two arms: the pattern, which leads to the first block,
/// and a pattern that holds nothing, which leads to the second block or,
/// where that is missing, to an empty block.
pub open spec fn lower_if(nodes: Seq<NodeView>, i: int, st: LoweringView) -> (LoweringView, ExprId)
    decreases nodes.len() - i, 9int, 0nat,
{
    let (s0, id) = st.alloc_expr(ExprView::Missing, LocalSyntaxPtr::of(nodes, i));
    let cond = kid::<ast::Condition>(nodes, i, 0);
    match cond {
        Some(c) => match kid::<ast::Pat>(nodes, c, 0) {
            Some(p) => {
                let (s1, pat) = lower_pat(nodes, p, s0);
                let (s2, match_expr) = lower_expr_opt(nodes, c, kid::<ast::Expr>(nodes, c, 0), s1);
                let (s3, then_branch) = lower_block_opt(nodes, i, kid::<ast::Block>(nodes, i, 0), s2);
                let (s4, else_branch) = match kid::<ast::Block>(nodes, i, 1) {
                    Some(b) => lower_block(nodes, b, s3),
                    None => s3.alloc_expr_bare(ExprView::Block { statements: Seq::empty(), tail: None }),
                };
                let (s5, placeholder) = s4.alloc_pat_bare(PatView::Missing);
                let arms = seq![
                    MatchArmView { pats: seq![pat], expr: then_branch },
                    MatchArmView { pats: seq![placeholder], expr: else_branch },
                ];
                (s5.finish_expr(id, ExprView::Match { expr: match_expr, arms }, LocalSyntaxPtr::of(nodes, i)), id)
            },
            None => {
                let (s1, condition) = lower_expr_opt(nodes, c, kid::<ast::Expr>(nodes, c, 0), s0);
                lower_if_branches(nodes, i, s1, condition, id)
            },
        },
        None => {
            let (s1, condition) = s0.alloc_expr_bare(ExprView::Missing);
            lower_if_branches(nodes, i, s1, condition, id)
        },
    }
}

/// The expression for an `if` without a pattern, once its condition is
/// there: expression `id`, which was made for it, becomes the `if`.
pub open spec fn lower_if_branches(
    nodes: Seq<NodeView>,
    i: int,
    st: LoweringView,
    condition: ExprId,
    id: ExprId,
) -> (LoweringView, ExprId)
    decreases nodes.len() - i, 8int, 0nat,
{
    let (s2, then_branch) = lower_block_opt(nodes, i, kid::<ast::Block>(nodes, i, 0), st);
    let (s3, else_branch) = match kid::<ast::Block>(nodes, i, 1) {
        Some(b) => {
            let (s, e) = lower_block(nodes, b, s2);
            (s, Some(e))
        },
        None => (s2, None),
    };
    (s3.finish_expr(id, ExprView::If { condition, then_branch, else_branch }, LocalSyntaxPtr::of(nodes, i)), id)
}

/// The expression for a `while`. A `while let` has no model yet and
/// stays a missing expression.
pub open spec fn lower_while(nodes: Seq<NodeView>, i: int, st: LoweringView) -> (LoweringView, ExprId)
    decreases nodes.len() - i, 9int, 0nat,
{
    let (s0, id) = st.alloc_expr(ExprView::Missing, LocalSyntaxPtr::of(nodes, i));
    match kid::<ast::Condition>(nodes, i, 0) {
        Some(c) => if kid::<ast::Pat>(nodes, c, 0).is_none() {
            let (s1, condition) = lower_expr_opt(nodes, c, kid::<ast::Expr>(nodes, c, 0), s0);
            let (s2, body) = lower_block_opt(nodes, i, kid::<ast::Block>(nodes, i, 0), s1);
            (s2.finish_expr(id, ExprView::While { condition, body }, LocalSyntaxPtr::of(nodes, i)), id)
        } else {
            (s0, id)
        },
        None => {
            let (s1, condition) = s0.alloc_expr_bare(ExprView::Missing);
            let (s2, body) = lower_block_opt(nodes, i, kid::<ast::Block>(nodes, i, 0), s1);
            (s2.finish_expr(id, ExprView::While { condition, body }, LocalSyntaxPtr::of(nodes, i)), id)
        },
    }
}

/// The expressions for the arguments in the argument list at node
/// `list` below node `parent`; none where there is no list.
pub open spec fn lower_args(nodes: Seq<NodeView>, parent: int, list: Option<int>, st: LoweringView) -> (
    LoweringView,
    Seq<ExprId>,
)
    decreases nodes.len() - parent, 8int, 0nat,
{
    match list {
        Some(l) => if 0 <= parent < l < nodes.len() {
            lower_expr_list(nodes, l, kids::<ast::Expr>(nodes, l), st, Seq::empty())
        } else {
            (st, Seq::empty())
        },
        None => (st, Seq::empty()),
    }
}

/// The expression for the syntax at node `e` below node `parent`; a
/// missing expression where there is no such syntax.
pub open spec fn lower_expr_opt(nodes: Seq<NodeView>, parent: int, e: Option<int>, st: LoweringView) -> (
    LoweringView,
    ExprId,
)
    decreases nodes.len() - parent, 5int, 0nat,
{
    match e {
        Some(c) => if 0 <= parent < c < nodes.len() {
            lower_expr(nodes, c, st)
        } else {
            st.alloc_expr_bare(ExprView::Missing)
        },
        None => st.alloc_expr_bare(ExprView::Missing),
    }
}

/// The expression for the syntax at node `e` below node `parent`, if
/// there is such syntax.
pub open spec fn lower_expr_maybe(nodes: Seq<NodeView>, parent: int, e: Option<int>, st: LoweringView) -> (
    LoweringView,
    Option<ExprId>,
)
    decreases nodes.len() - parent, 5int, 0nat,
{
    match e {
        Some(c) => if 0 <= parent < c < nodes.len() {
            let (s, id) = lower_expr(nodes, c, st);
            (s, Some(id))
        } else {
            (st, None)
        },
        None => (st, None),
    }
}

/// The expressions for the nodes `ks` below node `parent`, after those of `acc`.
pub open spec fn lower_expr_list(
    nodes: Seq<NodeView>,
    parent: int,
    ks: Seq<int>,
    st: LoweringView,
    acc: Seq<ExprId>,
) -> (LoweringView, Seq<ExprId>)
    decreases nodes.len() - parent, 4int, ks.len(),
{
    if ks.len() == 0 {
        (st, acc)
    } else if 0 <= parent < ks[0] < nodes.len() {
        let (s1, id) = lower_expr(nodes, ks[0], st);
        lower_expr_list(nodes, parent, ks.drop_first(), s1, acc.push(id))
    } else {
        (st, acc)
    }
}

/// The block expression for the block at node `i`: the block, then its
/// statements, then its last expression.
pub open spec fn lower_block(nodes: Seq<NodeView>, i: int, st: LoweringView) -> (LoweringView, ExprId)
    decreases nodes.len() - i, 10int, 0nat,
{
    let (s0, id) = st.alloc_expr(ExprView::Missing, LocalSyntaxPtr::of(nodes, i));
    let (s1, statements) = lower_stmts(nodes, i, kids::<ast::Stmt>(nodes, i), s0, Seq::empty());
    let (s2, tail) = lower_expr_maybe(nodes, i, kid::<ast::Expr>(nodes, i, 0), s1);
    (s2.finish_expr(id, ExprView::Block { statements, tail }, LocalSyntaxPtr::of(nodes, i)), id)
}

/// The block expression for the block at node `b` below node `parent`; a
/// missing expression where there is no block.
pub open spec fn lower_block_opt(nodes: Seq<NodeView>, parent: int, b: Option<int>, st: LoweringView) -> (
    LoweringView,
    ExprId,
)
    decreases nodes.len() - parent, 5int, 0nat,
{
    match b {
        Some(c) => if 0 <= parent < c < nodes.len() {
            lower_block(nodes, c, st)
        } else {
            st.alloc_expr_bare(ExprView::Missing)
        },
        None => st.alloc_expr_bare(ExprView::Missing),
    }
}

/// The statement for the statement syntax at node `s`.
pub open spec fn lower_stmt(nodes: Seq<NodeView>, s: int, st: LoweringView) -> (LoweringView, StatementView)
    decreases nodes.len() - s, 6int, 0nat,
{
    if nodes[s].kind == SyntaxKind::LET_STMT {
        let (s1, pat) = lower_pat_opt(nodes, s, kid::<ast::Pat>(nodes, s, 0), st);
        let type_ref = type_of(nodes, kid::<ast::TypeRef>(nodes, s, 0));
        let (s2, initializer) = lower_expr_maybe(nodes, s, kid::<ast::Expr>(nodes, s, 0), s1);
        (s2, StatementView::Let { pat, type_ref, initializer })
    } else {
        let (s1, e) = lower_expr_opt(nodes, s, kid::<ast::Expr>(nodes, s, 0), st);
        (s1, StatementView::Expr(e))
    }
}

/// The statements for the nodes `ks` below node `parent`, after those of `acc`.
pub open spec fn lower_stmts(
    nodes: Seq<NodeView>,
    parent: int,
    ks: Seq<int>,
    st: LoweringView,
    acc: Seq<StatementView>,
) -> (LoweringView, Seq<StatementView>)
    decreases nodes.len() - parent, 4int, ks.len(),
{
    if ks.len() == 0 {
        (st, acc)
    } else if 0 <= parent < ks[0] < nodes.len() {
        let (s1, stmt) = lower_stmt(nodes, ks[0], st);
        lower_stmts(nodes, parent, ks.drop_first(), s1, acc.push(stmt))
    } else {
        (st, acc)
    }
}

/// The match arm for the arm syntax at node `a`: its patterns, then its expression.
pub open spec fn lower_arm(nodes: Seq<NodeView>, a: int, st: LoweringView) -> (LoweringView, MatchArmView)
    decreases nodes.len() - a, 6int, 0nat,
{
    let (s1, pats) = lower_pat_list(nodes, a, kids::<ast::Pat>(nodes, a), st, Seq::empty());
    let (s2, expr) = lower_expr_opt(nodes, a, kid::<ast::Expr>(nodes, a, 0), s1);
    (s2, MatchArmView { pats, expr })
}

/// The match arms for the nodes `ks` below node `parent`, after those of `acc`.
pub open spec fn lower_arms(
    nodes: Seq<NodeView>,
    parent: int,
    ks: Seq<int>,
    st: LoweringView,
    acc: Seq<MatchArmView>,
) -> (LoweringView, Seq<MatchArmView>)
    decreases nodes.len() - parent, 4int, ks.len(),
{
    if ks.len() == 0 {
        (st, acc)
    } else if 0 <= parent < ks[0] < nodes.len() {
        let (s1, arm) = lower_arm(nodes, ks[0], st);
        lower_arms(nodes, parent, ks.drop_first(), s1, acc.push(arm))
    } else {
        (st, acc)
    }
}

/// The field for the field syntax at node `f` of a struct literal. A
/// field without an expression is a shorthand: its expression is the path
/// of its name, under the pointer to the name.
pub open spec fn lower_field(nodes: Seq<NodeView>, f: int, st: LoweringView) -> (
    LoweringView,
    StructLitFieldView,
)
    decreases nodes.len() - f, 6int, 0nat,
{
    let name_ref = kid::<ast::NameRef>(nodes, f, 0);
    let name = name_or_missing(nodes, name_ref);
    let (s1, expr) = match kid::<ast::Expr>(nodes, f, 0) {
        Some(e) => lower_expr(nodes, e, st),
        None => match name_ref {
            Some(nr) => st.alloc_expr(
                ExprView::Path(
                    PathView { kind: PathKind::Plain, segments: seq![first_token_text(nodes, nr)] },
                ),
                LocalSyntaxPtr::of(nodes, nr),
            ),
            None => st.alloc_expr_bare(ExprView::Missing),
        },
    };
    (s1, StructLitFieldView { name, expr })
}

/// The fields for the nodes `ks` below node `parent`, after those of `acc`.
pub open spec fn lower_fields(
    nodes: Seq<NodeView>,
    parent: int,
    ks: Seq<int>,
    st: LoweringView,
    acc: Seq<StructLitFieldView>,
) -> (LoweringView, Seq<StructLitFieldView>)
    decreases nodes.len() - parent, 4int, ks.len(),
{
    if ks.len() == 0 {
        (st, acc)
    } else if 0 <= parent < ks[0] < nodes.len() {
        let (s1, field) = lower_field(nodes, ks[0], st);
        lower_fields(nodes, parent, ks.drop_first(), s1, acc.push(field))
    } else {
        (st, acc)
    }
}

/// The patterns and the types for the parameters `ks` of a lambda, below
/// node `parent`, after those of `pats` and `types`.
pub open spec fn lower_params(
    nodes: Seq<NodeView>,
    parent: int,
    ks: Seq<int>,
    st: LoweringView,
    pats: Seq<PatId>,
    types: Seq<Option<TypeRefView>>,
) -> (LoweringView, Seq<PatId>, Seq<Option<TypeRefView>>)
    decreases nodes.len() - parent, 4int, ks.len(),
{
    if ks.len() == 0 {
        (st, pats, types)
    } else if 0 <= parent < ks[0] < nodes.len() {
        let (s1, pat) = lower_pat_opt(nodes, ks[0], kid::<ast::Pat>(nodes, ks[0], 0), st);
        let type_ref = type_of(nodes, kid::<ast::TypeRef>(nodes, ks[0], 0));
        lower_params(nodes, parent, ks.drop_first(), s1, pats.push(pat), types.push(type_ref))
    } else {
        (st, pats, types)
    }
}

/// The pattern for the pattern syntax at node `i`. A pattern that is
/// neither a binding nor a tuple struct pattern has no model yet.
pub open spec fn lower_pat(nodes: Seq<NodeView>, i: int, st: LoweringView) -> (LoweringView, PatId)
    decreases nodes.len() - i, 10int, 0nat,
{
    let ptr = LocalSyntaxPtr::of(nodes, i);
    match nodes[i].kind {
        SyntaxKind::BIND_PAT => st.alloc_pat(
            PatView::Bind { name: name_or_missing(nodes, kid::<ast::Name>(nodes, i, 0)) },
            ptr,
        ),
        SyntaxKind::TUPLE_STRUCT_PAT => {
            let (s0, id) = st.alloc_pat(PatView::Missing, ptr);
            let path = path_of(nodes, kid::<ast::Path>(nodes, i, 0));
            let (s1, args) = lower_pat_list(nodes, i, kids::<ast::Pat>(nodes, i), s0, Seq::empty());
            (s1.finish_pat(id, PatView::TupleStruct { path, args }, ptr), id)
        },
        _ => st.alloc_pat(PatView::Missing, ptr),
    }
}

/// The pattern for the syntax at node `p` below node `parent`; a pattern
/// that holds nothing where there is no such syntax.
pub open spec fn lower_pat_opt(nodes: Seq<NodeView>, parent: int, p: Option<int>, st: LoweringView) -> (
    LoweringView,
    PatId,
)
    decreases nodes.len() - parent, 5int, 0nat,
{
    match p {
        Some(c) => if 0 <= parent < c < nodes.len() {
            lower_pat(nodes, c, st)
        } else {
            st.alloc_pat_bare(PatView::Missing)
        },
        None => st.alloc_pat_bare(PatView::Missing),
    }
}

/// The patterns for the nodes `ks` below node `parent`, after those of `acc`.
pub open spec fn lower_pat_list(
    nodes: Seq<NodeView>,
    parent: int,
    ks: Seq<int>,
    st: LoweringView,
    acc: Seq<PatId>,
) -> (LoweringView, Seq<PatId>)
    decreases nodes.len() - parent, 4int, ks.len(),
{
    if ks.len() == 0 {
        (st, acc)
    } else if 0 <= parent < ks[0] < nodes.len() {
        let (s1, id) = lower_pat(nodes, ks[0], st);
        lower_pat_list(nodes, parent, ks.drop_first(), s1, acc.push(id))
    } else {
        (st, acc)
    }
}

/// The patterns for those of the parameters `ks` of a function that have
/// a pattern, after those of `acc`.
pub open spec fn lower_fn_params(
    nodes: Seq<NodeView>,
    parent: int,
    ks: Seq<int>,
    st: LoweringView,
    acc: Seq<PatId>,
) -> (LoweringView, Seq<PatId>)
    decreases nodes.len() - parent, 4int, ks.len(),
{
    if ks.len() == 0 {
        (st, acc)
    } else if 0 <= parent < ks[0] < nodes.len() {
        match kid::<ast::Pat>(nodes, ks[0], 0) {
            Some(p) => {
                let (s1, id) = lower_pat(nodes, p, st);
                lower_fn_params(nodes, parent, ks.drop_first(), s1, acc.push(id))
            },
            None => lower_fn_params(nodes, parent, ks.drop_first(), st, acc),
        }
    } else {
        (st, acc)
    }
}

/// The `self` keyword of the function at node `f`, if the function has a
/// `self` parameter: `Some(None)` says that it has one that lacks the keyword.
pub open spec fn self_kw_of(nodes: Seq<NodeView>, f: int) -> Option<Option<int>> {
    match kid::<ast::ParamList>(nodes, f, 0) {
        Some(pl) => match kid::<ast::SelfParam>(nodes, pl, 0) {
            Some(sp) => Some(kid::<ast::SelfKw>(nodes, sp, 0)),
            None => None,
        },
        None => None,
    }
}

/// The argument patterns of the function at node `f`: the binding of
/// `self`, where the function has a `self` parameter, under the pointer
/// to the keyword, or without a pointer where the parameter lacks the
/// keyword; then the patterns of the other parameters.
pub open spec fn lower_fn_args(nodes: Seq<NodeView>, f: int, st: LoweringView) -> (LoweringView, Seq<PatId>) {
    match kid::<ast::ParamList>(nodes, f, 0) {
        Some(pl) => {
            let (s1, acc) = match self_kw_of(nodes, f) {
                Some(Some(kw)) => {
                    let (s, id) = st.alloc_pat(PatView::Bind { name: "self"@ }, LocalSyntaxPtr::of(nodes, kw));
                    (s, seq![id])
                },
                Some(None) => {
                    let (s, id) = st.alloc_pat_bare(PatView::Bind { name: "self"@ });
                    (s, seq![id])
                },
                None => (st, Seq::empty()),
            };
            lower_fn_params(nodes, pl, kids::<ast::Param>(nodes, pl), s1, acc)
        },
        None => (st, Seq::empty()),
    }
}

/// What lowering the function at node `f` gives: the final state, the
/// argument patterns and the expression of the body.
pub open spec fn lower_fn(nodes: Seq<NodeView>, f: int) -> (LoweringView, Seq<PatId>, ExprId) {
    let (s1, args) = lower_fn_args(nodes, f, LoweringView::empty());
    let (s2, body) = lower_block_opt(nodes, f, kid::<ast::Block>(nodes, f, 0), s1);
    (s2, args, body)
}

} // verus!
