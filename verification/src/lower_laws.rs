//! What holds of every lowering: parentheses, `if let`, plain `if` and the
//! shorthand for fields.

use vstd::prelude::*;
use crate::ast;
use crate::ast::first_token_text;
use crate::expr::{ExprId, ExprView, MatchArmView, PatView};
use crate::lower::lv_inv;
use crate::lower_spec::{LoweringView, is_if_let, kid, lower_block, lower_block_opt, lower_expr, lower_expr_opt, lower_field, lower_if, lower_pat};
use crate::path::{PathKind, PathView};
use crate::syntax::NodeView;
use crate::syntax_kind::SyntaxKind;
use crate::syntax_ptr::LocalSyntaxPtr;

verus! {

/// Parentheses are transparent: the expression for `(x)` is the
/// expression for `x`, and the pointer to the parentheses leads to it too.
pub proof fn lemma_paren_is_transparent(nodes: Seq<NodeView>, i: int, st: LoweringView)
    requires
        nodes[i].kind == SyntaxKind::PAREN_EXPR,
    ensures
        lower_expr(nodes, i, st).1 == lower_expr_opt(nodes, i, kid::<ast::Expr>(nodes, i, 0), st).1,
        lower_expr(nodes, i, st).0.expr_map.contains_key(LocalSyntaxPtr::of(nodes, i)),
        lower_expr(nodes, i, st).0.expr_map[LocalSyntaxPtr::of(nodes, i)] == lower_expr(nodes, i, st).1,
        lower_expr(nodes, i, st).0.exprs == lower_expr_opt(nodes, i, kid::<ast::Expr>(nodes, i, 0), st).0.exprs,
{
    reveal_with_fuel(lower_expr, 2);
}

/// An `if let` becomes a match on the condition with two arms: the
/// pattern, which leads to the first block, and a pattern that holds
/// nothing, which leads to the second block, or to an empty block where
/// there is no second block. The match takes the place that was made for
/// the `if` before its parts.
pub proof fn lemma_if_let_is_match(nodes: Seq<NodeView>, i: int, st: LoweringView)
    requires
        nodes[i].kind == SyntaxKind::IF_EXPR,
        is_if_let(nodes, i),
    ensures
        lower_expr(nodes, i, st) == ({
            let c = kid::<ast::Condition>(nodes, i, 0).unwrap();
            let p = kid::<ast::Pat>(nodes, c, 0).unwrap();
            let (s0, id) = st.alloc_expr(ExprView::Missing, LocalSyntaxPtr::of(nodes, i));
            let (s1, pat) = lower_pat(nodes, p, s0);
            let (s2, scrutinee) = lower_expr_opt(nodes, c, kid::<ast::Expr>(nodes, c, 0), s1);
            let (s3, then_branch) = lower_block_opt(nodes, i, kid::<ast::Block>(nodes, i, 0), s2);
            let (s4, else_branch) = match kid::<ast::Block>(nodes, i, 1) {
                Some(b) => lower_block(nodes, b, s3),
                None => s3.alloc_expr_bare(ExprView::Block { statements: Seq::empty(), tail: None }),
            };
            let (s5, placeholder) = s4.alloc_pat_bare(PatView::Missing);
            (
                s5.finish_expr(
                    id,
                    ExprView::Match {
                        expr: scrutinee,
                        arms: seq![
                            MatchArmView { pats: seq![pat], expr: then_branch },
                            MatchArmView { pats: seq![placeholder], expr: else_branch },
                        ],
                    },
                    LocalSyntaxPtr::of(nodes, i),
                ),
                id,
            )
        }),
{
    reveal_with_fuel(lower_expr, 2);
    reveal_with_fuel(lower_if, 2);
}

/// An `if` without a pattern stays an `if`, in the place that was made
/// for it before its parts: it has an `else` exactly where the syntax has
/// a second block, and a missing condition where the syntax has none.
pub proof fn lemma_plain_if_is_if(nodes: Seq<NodeView>, i: int, st: LoweringView)
    requires
        nodes[i].kind == SyntaxKind::IF_EXPR,
        !is_if_let(nodes, i),
    ensures
        lower_expr(nodes, i, st) == ({
            let (s0, id) = st.alloc_expr(ExprView::Missing, LocalSyntaxPtr::of(nodes, i));
            let (s1, condition) = match kid::<ast::Condition>(nodes, i, 0) {
                Some(c) => lower_expr_opt(nodes, c, kid::<ast::Expr>(nodes, c, 0), s0),
                None => s0.alloc_expr_bare(ExprView::Missing),
            };
            let (s2, then_branch) = lower_block_opt(nodes, i, kid::<ast::Block>(nodes, i, 0), s1);
            let (s3, else_branch) = match kid::<ast::Block>(nodes, i, 1) {
                Some(b) => (lower_block(nodes, b, s2).0, Some(lower_block(nodes, b, s2).1)),
                None => (s2, None),
            };
            (
                s3.finish_expr(
                    id,
                    ExprView::If { condition, then_branch, else_branch },
                    LocalSyntaxPtr::of(nodes, i),
                ),
                id,
            )
        }),
{
    reveal_with_fuel(lower_expr, 2);
    reveal_with_fuel(lower_if, 2);
    reveal_with_fuel(crate::lower_spec::lower_if_branches, 2);
}

/// A field of a struct literal that is only a name stands for the path of
/// that name, under the pointer to the name.
pub proof fn lemma_field_shorthand(nodes: Seq<NodeView>, f: int, st: LoweringView)
    requires
        lv_inv(st),
        kid::<ast::Expr>(nodes, f, 0).is_none(),
        kid::<ast::NameRef>(nodes, f, 0).is_some(),
    ensures
        ({
            let nr = kid::<ast::NameRef>(nodes, f, 0).unwrap();
            let (s, field) = lower_field(nodes, f, st);
            &&& field.name == first_token_text(nodes, nr)
            &&& field.expr == ExprId(st.exprs.len() as usize)
            &&& s.exprs[st.exprs.len() as int] == ExprView::Path(
                PathView { kind: PathKind::Plain, segments: seq![first_token_text(nodes, nr)] },
            )
            &&& s.expr_back[st.exprs.len() as int] == Some(LocalSyntaxPtr::of(nodes, nr))
            &&& s.expr_map[LocalSyntaxPtr::of(nodes, nr)] == field.expr
        }),
{
    reveal_with_fuel(lower_field, 2);
}

} // verus!
