//! Lowering the syntax of a function body to its expressions and patterns.

use vstd::prelude::*;
use crate::ast;
use crate::ast::{ArgListOwner, AstChildren, AstNode, LoopBodyOwner, NameOwner, first_token_text, kids, lemma_kids_from, lemma_nth_kid, nth_kid};
use crate::expr::{arm_views, field_views, stmt_views, type_views, Expr, ExprId, ExprView, MatchArm, MatchArmView, Pat, PatId, PatView, Statement, StatementView, StructLitField, StructLitFieldView, opt_type_view};
use crate::lower_spec::{is_if_let, name_or_missing, lower_bin, lower_block_opt, lower_break, lower_call, lower_cast, lower_expr_maybe, lower_expr_opt, lower_field_expr, lower_for, lower_lambda, lower_loop, lower_match, lower_method_call, lower_paren, lower_pat_opt, lower_path_expr, lower_prefix, lower_ref, lower_return, lower_struct_lit, lower_try, LoweringView, kid, lower_arm, lower_arms, lower_args, lower_block, lower_expr, lower_expr_list, lower_field, lower_fields, lower_fn, lower_fn_params, lower_if, lower_if_branches, lower_params, lower_pat, lower_pat_list, lower_stmt, lower_stmts, lower_while};
use crate::body::BodySyntaxMapping;
use crate::name::Name;
use crate::path::{Path, PathKind, PathView};
use crate::ptr_map::PtrMap;
use crate::syntax::{NodeView, SyntaxNodeRef, node_wf, tree_wf};
use crate::syntax_kind::SyntaxKind;
use crate::syntax_ptr::LocalSyntaxPtr;
use crate::type_ref::{Mutability, TypeRef};

verus! {

/// The ids that a statement holds are ids of expressions from `lo` on
/// among `ne` expressions, and of `np` patterns.
pub open spec fn stmt_ok(s: StatementView, lo: nat, ne: nat, np: nat) -> bool {
    match s {
        StatementView::Let { pat, initializer, .. } => pat.0 < np && opt_ok(initializer, lo, ne),
        StatementView::Expr(e) => lo <= e.0 < ne,
    }
}

/// The ids that a match arm holds are ids of expressions from `lo` on
/// among `ne` expressions, and of `np` patterns.
pub open spec fn arm_ok(a: MatchArmView, lo: nat, ne: nat, np: nat) -> bool {
    lo <= a.expr.0 < ne && pats_ok(a.pats, 0, np)
}

/// Every id of the sequence is one of the ids from `lo` on among `n` ids.
pub open spec fn exprs_ok(ids: Seq<ExprId>, lo: nat, n: nat) -> bool {
    forall|k: int| 0 <= k < ids.len() ==> lo <= (#[trigger] ids[k]).0 < n
}

/// Every id of the sequence is one of the ids from `lo` on among `n` ids.
pub open spec fn pats_ok(ids: Seq<PatId>, lo: nat, n: nat) -> bool {
    forall|k: int| 0 <= k < ids.len() ==> lo <= (#[trigger] ids[k]).0 < n
}

/// An optional id is one of the ids from `lo` on among `n` ids.
pub open spec fn opt_ok(id: Option<ExprId>, lo: nat, n: nat) -> bool {
    id matches Some(e) ==> lo <= e.0 < n
}

/// Every id that the expression holds is a valid index: an expression
/// from `lo` on among `ne` expressions, or one of `np` patterns.
pub open spec fn expr_ok(e: ExprView, lo: nat, ne: nat, np: nat) -> bool {
    match e {
        ExprView::Missing => true,
        ExprView::Path(_) => true,
        ExprView::If { condition, then_branch, else_branch } => lo <= condition.0 < ne && lo <= then_branch.0 < ne
            && opt_ok(else_branch, lo, ne),
        ExprView::Block { statements, tail } => opt_ok(tail, lo, ne) && forall|k: int|
            0 <= k < statements.len() ==> stmt_ok(#[trigger] statements[k], lo, ne, np),
        ExprView::Loop { body } => lo <= body.0 < ne,
        ExprView::While { condition, body } => lo <= condition.0 < ne && lo <= body.0 < ne,
        ExprView::For { iterable, pat, body } => lo <= iterable.0 < ne && pat.0 < np && lo <= body.0 < ne,
        ExprView::Call { callee, args } => lo <= callee.0 < ne && exprs_ok(args, lo, ne),
        ExprView::MethodCall { receiver, args, .. } => lo <= receiver.0 < ne && exprs_ok(args, lo, ne),
        ExprView::Match { expr, arms } => lo <= expr.0 < ne && forall|k: int|
            0 <= k < arms.len() ==> arm_ok(#[trigger] arms[k], lo, ne, np),
        ExprView::Continue => true,
        ExprView::Break { expr } => opt_ok(expr, lo, ne),
        ExprView::Return { expr } => opt_ok(expr, lo, ne),
        ExprView::StructLit { fields, spread, .. } => opt_ok(spread, lo, ne) && forall|k: int|
            0 <= k < fields.len() ==> lo <= (#[trigger] fields[k]).expr.0 < ne,
        ExprView::Field { expr, .. } => lo <= expr.0 < ne,
        ExprView::Try { expr } => lo <= expr.0 < ne,
        ExprView::Cast { expr, .. } => lo <= expr.0 < ne,
        ExprView::Ref { expr, .. } => lo <= expr.0 < ne,
        ExprView::UnaryOp { expr, .. } => lo <= expr.0 < ne,
        ExprView::BinaryOp { lhs, rhs, .. } => lo <= lhs.0 < ne && lo <= rhs.0 < ne,
        ExprView::Lambda { args, body, .. } => lo <= body.0 < ne && pats_ok(args, 0, np),
    }
}

/// Every id that the pattern holds is one of the patterns from `lo` on
/// among `np` patterns.
pub open spec fn pat_ok(p: PatView, lo: nat, np: nat) -> bool {
    match p {
        PatView::TupleStruct { args, .. } => pats_ok(args, lo, np),
        _ => true,
    }
}

/// What is valid among fewer ids is valid among more.
pub proof fn lemma_expr_ok_mono(e: ExprView, lo: nat, ne: nat, np: nat, ne2: nat, np2: nat)
    requires
        expr_ok(e, lo, ne, np),
        ne <= ne2,
        np <= np2,
    ensures
        expr_ok(e, lo, ne2, np2),
{
    match e {
        ExprView::Block { statements, tail } => {
            assert forall|k: int| 0 <= k < statements.len() implies stmt_ok(
                #[trigger] statements[k],
                lo,
                ne2,
                np2,
            ) by {
                assert(stmt_ok(statements[k], lo, ne, np));
            }
        },
        ExprView::Match { expr, arms } => {
            assert forall|k: int| 0 <= k < arms.len() implies arm_ok(#[trigger] arms[k], lo, ne2, np2) by {
                assert(arm_ok(arms[k], lo, ne, np));
            }
        },
        _ => {},
    }
}

/// The pointer of each id that was made from syntax leads back to the id.
pub open spec fn round_trip(st: LoweringView) -> bool {
    &&& forall|k: int|
        0 <= k < st.expr_back.len() ==> (#[trigger] st.expr_back[k] matches Some(p)
            ==> st.expr_map.contains_key(p) && st.expr_map[p] == ExprId(k as usize))
    &&& forall|k: int|
        0 <= k < st.pat_back.len() ==> (#[trigger] st.pat_back[k] matches Some(p) ==> st.pat_map.contains_key(
            p,
        ) && st.pat_map[p] == PatId(k as usize))
}

/// What holds of every state of a lowering: each id has its place for a
/// pointer; an expression holds ids of later expressions only, and a
/// pattern ids of later patterns, so that nothing holds itself; every id
/// that an expression or a map holds is a valid index; and the pointers
/// lead back to their ids as long as no pointer was entered twice.
pub open spec fn lv_inv(st: LoweringView) -> bool {
    &&& st.expr_back.len() == st.exprs.len()
    &&& st.pat_back.len() == st.pats.len()
    &&& forall|k: int|
        0 <= k < st.exprs.len() ==> expr_ok(#[trigger] st.exprs[k], (k + 1) as nat, st.exprs.len(), st.pats.len())
    &&& forall|k: int| 0 <= k < st.pats.len() ==> pat_ok(#[trigger] st.pats[k], (k + 1) as nat, st.pats.len())
    &&& maps_inv(st)
}

/// What holds of the maps in every state of a lowering. A pointer leads
/// to a valid id, and to an id that has this pointer, unless it is the
/// pointer of parentheses, which leads to what stands inside. The
/// pointer of an id is never that of parentheses, and leads to some id.
/// The pointers lead back to their ids as long as no pointer was entered
/// twice.
pub open spec fn maps_inv(st: LoweringView) -> bool {
    &&& forall|p: LocalSyntaxPtr|
        #[trigger] st.expr_map.contains_key(p) ==> st.expr_map[p].0 < st.expr_back.len() && (p.kind
            == SyntaxKind::PAREN_EXPR || st.expr_back[st.expr_map[p].0 as int] == Some(p))
    &&& forall|p: LocalSyntaxPtr|
        #[trigger] st.pat_map.contains_key(p) ==> st.pat_map[p].0 < st.pat_back.len() && st.pat_back[st.pat_map[p].0 as int]
            == Some(p)
    &&& forall|k: int|
        0 <= k < st.expr_back.len() ==> (#[trigger] st.expr_back[k] matches Some(p) ==> p.kind
            != SyntaxKind::PAREN_EXPR && st.expr_map.contains_key(p))
    &&& forall|k: int|
        0 <= k < st.pat_back.len() ==> (#[trigger] st.pat_back[k] matches Some(p) ==> st.pat_map.contains_key(p))
    &&& st.fresh ==> round_trip(st)
}

/// State `b` holds what state `a` held and as many nodes or more: the
/// pointers of the nodes of `a` are those they had.
pub open spec fn grown_over(a: LoweringView, b: LoweringView) -> bool {
    &&& a.exprs.len() <= b.exprs.len()
    &&& a.pats.len() <= b.pats.len()
    &&& a.expr_back.len() <= b.expr_back.len()
    &&& a.pat_back.len() <= b.pat_back.len()
    &&& forall|k: int| 0 <= k < a.expr_back.len() ==> #[trigger] b.expr_back[k] == a.expr_back[k]
    &&& forall|k: int| 0 <= k < a.pat_back.len() ==> #[trigger] b.pat_back[k] == a.pat_back[k]
}

/// The expressions and patterns of state `a` stand unchanged in state `b`,
/// but for the expression `skip`.
pub open spec fn kept_but(a: LoweringView, b: LoweringView, skip: int) -> bool {
    &&& forall|k: int| 0 <= k < a.exprs.len() && k != skip ==> #[trigger] b.exprs[k] == a.exprs[k]
    &&& forall|k: int| 0 <= k < a.pats.len() ==> #[trigger] b.pats[k] == a.pats[k]
}

/// State `b` has grown out of state `a`: what `a` held stands unchanged,
/// under the pointers it had, and `b` may hold more.
pub open spec fn grown(a: LoweringView, b: LoweringView) -> bool {
    grown_over(a, b) && kept_but(a, b, -1)
}

/// What lowering the parentheses at node `i` from state `a` has made in
/// state `b`: the pointer of the parentheses leads to the expression `id`
/// for what stands inside; and where that has an expression of its own,
/// `id` is that expression, with the pointer of what stands inside, which
/// leads to it too.
pub open spec fn paren_made(nodes: Seq<NodeView>, i: int, a: LoweringView, b: LoweringView, id: ExprId) -> bool {
    &&& b.expr_map.contains_key(LocalSyntaxPtr::of(nodes, i))
    &&& b.expr_map[LocalSyntaxPtr::of(nodes, i)] == id
    &&& kid::<ast::Expr>(nodes, i, 0) matches Some(c) ==> (makes_own_expr(nodes[c].kind) ==> first_made(
        a,
        b,
        id,
        LocalSyntaxPtr::of(nodes, c),
    ))
}

/// Syntax of this kind gets an expression of its own: all but
/// parentheses, which stand for what is inside, and a block expression,
/// which stands for its block.
pub open spec fn makes_own_expr(kind: SyntaxKind) -> bool {
    kind != SyntaxKind::PAREN_EXPR && kind != SyntaxKind::BLOCK_EXPR
}

/// What the field at node `f` of a struct literal has in state `b`: its
/// name; and its expression, which for a field that is only a name is the
/// path of that name under the pointer to the name, and for a field
/// without a name and without a value is a missing expression under no
/// pointer.
pub open spec fn field_made(nodes: Seq<NodeView>, f: int, b: LoweringView, field: StructLitFieldView) -> bool {
    &&& field.name == name_or_missing(nodes, kid::<ast::NameRef>(nodes, f, 0))
    &&& field.expr.0 < b.exprs.len()
    &&& field.expr.0 < b.expr_back.len()
    &&& match (kid::<ast::Expr>(nodes, f, 0), kid::<ast::NameRef>(nodes, f, 0)) {
        (Some(e), _) => makes_own_expr(nodes[e].kind) ==> b.expr_back[field.expr.0 as int] == Some(
            LocalSyntaxPtr::of(nodes, e),
        ),
        (None, Some(nr)) => {
            &&& b.exprs[field.expr.0 as int] == ExprView::Path(
                PathView { kind: PathKind::Plain, segments: seq![first_token_text(nodes, nr)] },
            )
            &&& b.expr_back[field.expr.0 as int] == Some(LocalSyntaxPtr::of(nodes, nr))
        },
        (None, None) => {
            &&& b.exprs[field.expr.0 as int] == ExprView::Missing
            &&& b.expr_back[field.expr.0 as int] is None
        },
    }
}

/// In state `b` the expression `id` is a struct literal with one field for
/// each field written at node `i`, in their order, each as `field_made`
/// says.
pub open spec fn fields_made(nodes: Seq<NodeView>, i: int, b: LoweringView, id: ExprId) -> bool {
    b.exprs[id.0 as int] matches ExprView::StructLit { fields, .. } && match kid::<ast::NamedFieldList>(
        nodes,
        i,
        0,
    ) {
        Some(l) => {
            &&& fields.len() == kids::<ast::NamedField>(nodes, l).len()
            &&& forall|k: int|
                0 <= k < fields.len() ==> field_made(nodes, kids::<ast::NamedField>(nodes, l)[k], b, #[trigger] fields[k])
        },
        None => fields.len() == 0,
    }
}

/// A field stays as it was made while the state grows, as long as its own
/// expression is not the one that changes.
pub proof fn lemma_field_made_stays(
    nodes: Seq<NodeView>,
    f: int,
    a: LoweringView,
    b: LoweringView,
    field: StructLitFieldView,
    skip: int,
)
    requires
        field_made(nodes, f, a, field),
        grown_over(a, b),
        kept_but(a, b, skip),
        field.expr.0 != skip,
    ensures
        field_made(nodes, f, b, field),
{
    assert(b.exprs[field.expr.0 as int] == a.exprs[field.expr.0 as int]);
    assert(b.expr_back[field.expr.0 as int] == a.expr_back[field.expr.0 as int]);
}

/// The expression `id` is the first that was made after state `a`; in
/// state `b` it has the pointer `ptr`, and `ptr` leads to it.
pub open spec fn first_made(a: LoweringView, b: LoweringView, id: ExprId, ptr: LocalSyntaxPtr) -> bool {
    &&& id.0 == a.exprs.len()
    &&& a.exprs.len() < b.expr_back.len()
    &&& b.expr_back[a.exprs.len() as int] == Some(ptr)
    &&& b.expr_map.contains_key(ptr)
    &&& b.expr_map[ptr] == id
}

/// The pattern `id` is the first that was made after state `a`, and has
/// the pointer `ptr` in state `b`.
pub open spec fn first_pat_made(a: LoweringView, b: LoweringView, id: PatId, ptr: LocalSyntaxPtr) -> bool {
    &&& id.0 == a.pats.len()
    &&& a.pats.len() < b.pat_back.len()
    &&& b.pat_back[a.pats.len() as int] == Some(ptr)
    &&& b.pat_map.contains_key(ptr)
    &&& b.pat_map[ptr] == id
}

/// `kid` finds what `nth_kid` finds, in a well-formed tree.
pub proof fn lemma_kid<'a, C: AstNode<'a>>(nodes: Seq<NodeView>, i: int, n: int)
    requires
        tree_wf(nodes),
        0 <= i < nodes.len(),
    ensures
        kid::<C>(nodes, i, n) == nth_kid::<C>(nodes, i, n),
        kid::<C>(nodes, i, n) matches Some(c) ==> i < c < nodes.len() && C::can_cast(nodes[c].kind),
{
    assert(node_wf(nodes, i));
    lemma_nth_kid::<C>(nodes, i, n);
}

/// The number of the node that a typed node stands for, if there is one.
pub open spec fn idx_of<'a, C: AstNode<'a>>(c: Option<C>) -> Option<int> {
    match c {
        Some(c) => Some(c.node().index()),
        None => None,
    }
}

/// What an accessor of a typed node has found is what `kid` finds.
pub proof fn lemma_found<'a, C: AstNode<'a>>(r: Option<C>, parent: SyntaxNodeRef<'a>, n: int)
    requires
        parent.wf(),
        crate::ast::is_node(r, parent, nth_kid::<C>(parent.tree()@, parent.index(), n)),
    ensures
        idx_of(r) == kid::<C>(parent.tree()@, parent.index(), n),
        r matches Some(c) ==> c.wf() && c.node().tree() == parent.tree() && parent.index() < c.node().index()
            < parent.tree()@.len(),
{
    lemma_kid::<C>(parent.tree()@, parent.index(), n);
}

/// Lowers the syntax of one body: holds the arenas and the maps while
/// they grow.
pub struct ExprCollector {
    exprs: Vec<Expr>,
    pats: Vec<Pat>,
    expr_syntax_mapping: PtrMap<ExprId>,
    expr_syntax_mapping_back: Vec<Option<LocalSyntaxPtr>>,
    pat_syntax_mapping: PtrMap<PatId>,
    pat_syntax_mapping_back: Vec<Option<LocalSyntaxPtr>>,
    fresh: bool,
}

impl View for ExprCollector {
    type V = LoweringView;

    closed spec fn view(&self) -> LoweringView {
        LoweringView {
            exprs: self.exprs@.map_values(|e: Expr| e@),
            pats: self.pats@.map_values(|p: Pat| p@),
            expr_map: self.expr_syntax_mapping@,
            expr_back: self.expr_syntax_mapping_back@,
            pat_map: self.pat_syntax_mapping@,
            pat_back: self.pat_syntax_mapping_back@,
            fresh: self.fresh,
        }
    }
}

impl ExprCollector {
    /// What was made so far is consistent.
    pub open spec fn inv(&self) -> bool {
        lv_inv(self@)
    }

    /// A collector that has made nothing.
    pub fn new() -> (r: Self)
        ensures
            r.inv(),
            r@ == LoweringView::empty(),
    {
        let r = ExprCollector {
            exprs: Vec::new(),
            pats: Vec::new(),
            expr_syntax_mapping: PtrMap::new(),
            expr_syntax_mapping_back: Vec::new(),
            pat_syntax_mapping: PtrMap::new(),
            pat_syntax_mapping_back: Vec::new(),
            fresh: true,
        };
        proof {
            assert(r@.exprs =~= Seq::empty());
            assert(r@.pats =~= Seq::empty());
            assert(r@.expr_map =~= Map::empty());
            assert(r@.pat_map =~= Map::empty());
            assert(r@.expr_back =~= Seq::empty());
            assert(r@.pat_back =~= Seq::empty());
        }
        r
    }

    /// What the state was good for stays good as the arenas grow and one
    /// expression or pattern changes for another that is good in its place.
    proof fn lemma_inv_step(a: LoweringView, b: LoweringView, changed_expr: int, changed_pat: int)
        requires
            lv_inv(a),
            a.exprs.len() <= b.exprs.len(),
            a.pats.len() <= b.pats.len(),
            b.expr_back.len() == b.exprs.len(),
            b.pat_back.len() == b.pats.len(),
            forall|k: int| 0 <= k < a.exprs.len() && k != changed_expr ==> b.exprs[k] == a.exprs[k],
            forall|k: int| 0 <= k < a.pats.len() && k != changed_pat ==> b.pats[k] == a.pats[k],
            forall|k: int|
                (a.exprs.len() <= k < b.exprs.len() || k == changed_expr) && 0 <= k < b.exprs.len() ==> expr_ok(
                    #[trigger] b.exprs[k],
                    (k + 1) as nat,
                    b.exprs.len(),
                    b.pats.len(),
                ),
            forall|k: int|
                (a.pats.len() <= k < b.pats.len() || k == changed_pat) && 0 <= k < b.pats.len() ==> pat_ok(
                    #[trigger] b.pats[k],
                    (k + 1) as nat,
                    b.pats.len(),
                ),
            maps_inv(b),
        ensures
            lv_inv(b),
    {
        assert forall|k: int| 0 <= k < b.exprs.len() implies expr_ok(
            #[trigger] b.exprs[k],
            (k + 1) as nat,
            b.exprs.len(),
            b.pats.len(),
        ) by {
            if k < a.exprs.len() && k != changed_expr {
                lemma_expr_ok_mono(a.exprs[k], (k + 1) as nat, a.exprs.len(), a.pats.len(), b.exprs.len(), b.pats.len());
            }
        }
        assert forall|k: int| 0 <= k < b.pats.len() implies pat_ok(
            #[trigger] b.pats[k],
            (k + 1) as nat,
            b.pats.len(),
        ) by {
            if k < a.pats.len() && k != changed_pat {
                assert(pat_ok(a.pats[k], (k + 1) as nat, a.pats.len()));
            }
        }
    }

    fn alloc_expr(&mut self, expr: Expr, syntax_ptr: LocalSyntaxPtr) -> (id: ExprId)
        requires
            old(self).inv(),
            expr_ok(expr@, old(self)@.exprs.len() + 1, old(self)@.exprs.len() + 1, old(self)@.pats.len()),
            syntax_ptr.kind != SyntaxKind::PAREN_EXPR,
        ensures
            final(self).inv(),
            (final(self)@, id) == old(self)@.alloc_expr(expr@, syntax_ptr),
            grown(old(self)@, final(self)@),
            old(self)@.exprs.len() <= id.0 < final(self)@.exprs.len(),
    {
        let id = ExprId(self.exprs.len());
        let ghost e = expr@;
        self.exprs.push(expr);
        if self.expr_syntax_mapping.insert(syntax_ptr, id).is_some() {
            self.fresh = false;
        }
        self.expr_syntax_mapping_back.push(Some(syntax_ptr));
        proof {
            let a = old(self)@;
            let b = self@;
            assert(b.exprs =~= a.exprs.push(e));
            assert(b == a.alloc_expr(e, syntax_ptr).0);
            Self::lemma_inv_step(a, b, -1, -1);
        }
        id
    }

    fn alloc_expr_bare(&mut self, expr: Expr) -> (id: ExprId)
        requires
            old(self).inv(),
            expr_ok(expr@, old(self)@.exprs.len() + 1, old(self)@.exprs.len() + 1, old(self)@.pats.len()),
        ensures
            final(self).inv(),
            (final(self)@, id) == old(self)@.alloc_expr_bare(expr@),
            grown(old(self)@, final(self)@),
            old(self)@.exprs.len() <= id.0 < final(self)@.exprs.len(),
    {
        let id = ExprId(self.exprs.len());
        let ghost e = expr@;
        self.exprs.push(expr);
        self.expr_syntax_mapping_back.push(None);
        proof {
            let a = old(self)@;
            let b = self@;
            assert(b.exprs =~= a.exprs.push(e));
            assert(b == a.alloc_expr_bare(e).0);
            Self::lemma_inv_step(a, b, -1, -1);
        }
        id
    }

    fn fill_expr(&mut self, id: ExprId, expr: Expr, syntax_ptr: LocalSyntaxPtr)
        requires
            old(self).inv(),
            id.0 < old(self)@.exprs.len(),
            old(self)@.expr_back[id.0 as int] == Some(syntax_ptr),
            expr_ok(expr@, (id.0 + 1) as nat, old(self)@.exprs.len(), old(self)@.pats.len()),
        ensures
            final(self).inv(),
            final(self)@ == old(self)@.finish_expr(id, expr@, syntax_ptr),
            grown_over(old(self)@, final(self)@),
            final(self)@.exprs.len() == old(self)@.exprs.len(),
            final(self)@.pats.len() == old(self)@.pats.len(),
    {
        let ghost e = expr@;
        self.exprs.set(id.0, expr);
        let entered = match self.expr_syntax_mapping.insert(syntax_ptr, id) {
            Some(prev) => prev == id,
            None => false,
        };
        if !entered {
            self.fresh = false;
        }
        proof {
            let a = old(self)@;
            let b = self@;
            assert(b.exprs =~= a.exprs.update(id.0 as int, e));
            assert(b == a.finish_expr(id, e, syntax_ptr));
            Self::lemma_inv_step(a, b, id.0 as int, -1);
        }
    }

    fn map_expr(&mut self, syntax_ptr: LocalSyntaxPtr, id: ExprId)
        requires
            old(self).inv(),
            id.0 < old(self)@.exprs.len(),
            syntax_ptr.kind == SyntaxKind::PAREN_EXPR,
        ensures
            final(self).inv(),
            final(self)@ == old(self)@.map_expr(syntax_ptr, id),
            grown(old(self)@, final(self)@),
            final(self)@.exprs.len() == old(self)@.exprs.len(),
    {
        if self.expr_syntax_mapping.insert(syntax_ptr, id).is_some() {
            self.fresh = false;
        }
        proof {
            let a = old(self)@;
            let b = self@;
            assert(b == a.map_expr(syntax_ptr, id));
            if b.fresh {
                assert forall|k: int| 0 <= k < b.expr_back.len() implies (#[trigger] b.expr_back[k] matches Some(
                    p,
                ) ==> b.expr_map.contains_key(p) && b.expr_map[p] == ExprId(k as usize)) by {
                    assert(a.expr_back[k] == b.expr_back[k]);
                }
            }
            Self::lemma_inv_step(a, b, -1, -1);
        }
    }

    fn alloc_pat(&mut self, pat: Pat, syntax_ptr: LocalSyntaxPtr) -> (id: PatId)
        requires
            old(self).inv(),
            pat_ok(pat@, old(self)@.pats.len() + 1, old(self)@.pats.len() + 1),
        ensures
            final(self).inv(),
            (final(self)@, id) == old(self)@.alloc_pat(pat@, syntax_ptr),
            grown(old(self)@, final(self)@),
            old(self)@.pats.len() <= id.0 < final(self)@.pats.len(),
            final(self)@.exprs.len() == old(self)@.exprs.len(),
    {
        let id = PatId(self.pats.len());
        let ghost p = pat@;
        self.pats.push(pat);
        if self.pat_syntax_mapping.insert(syntax_ptr, id).is_some() {
            self.fresh = false;
        }
        self.pat_syntax_mapping_back.push(Some(syntax_ptr));
        proof {
            let a = old(self)@;
            let b = self@;
            assert(b.pats =~= a.pats.push(p));
            assert(b == a.alloc_pat(p, syntax_ptr).0);
            Self::lemma_inv_step(a, b, -1, -1);
        }
        id
    }

    fn alloc_pat_bare(&mut self, pat: Pat) -> (id: PatId)
        requires
            old(self).inv(),
            pat_ok(pat@, old(self)@.pats.len() + 1, old(self)@.pats.len() + 1),
        ensures
            final(self).inv(),
            (final(self)@, id) == old(self)@.alloc_pat_bare(pat@),
            grown(old(self)@, final(self)@),
            old(self)@.pats.len() <= id.0 < final(self)@.pats.len(),
            final(self)@.exprs.len() == old(self)@.exprs.len(),
    {
        let id = PatId(self.pats.len());
        let ghost p = pat@;
        self.pats.push(pat);
        self.pat_syntax_mapping_back.push(None);
        proof {
            let a = old(self)@;
            let b = self@;
            assert(b.pats =~= a.pats.push(p));
            assert(b == a.alloc_pat_bare(p).0);
            Self::lemma_inv_step(a, b, -1, -1);
        }
        id
    }

    fn fill_pat(&mut self, id: PatId, pat: Pat, syntax_ptr: LocalSyntaxPtr)
        requires
            old(self).inv(),
            id.0 < old(self)@.pats.len(),
            old(self)@.pat_back[id.0 as int] == Some(syntax_ptr),
            pat_ok(pat@, (id.0 + 1) as nat, old(self)@.pats.len()),
        ensures
            final(self).inv(),
            final(self)@ == old(self)@.finish_pat(id, pat@, syntax_ptr),
            grown_over(old(self)@, final(self)@),
            final(self)@.exprs.len() == old(self)@.exprs.len(),
            final(self)@.pats.len() == old(self)@.pats.len(),
    {
        let ghost p = pat@;
        self.pats.set(id.0, pat);
        let entered = match self.pat_syntax_mapping.insert(syntax_ptr, id) {
            Some(prev) => prev == id,
            None => false,
        };
        if !entered {
            self.fresh = false;
        }
        proof {
            let a = old(self)@;
            let b = self@;
            assert(b.pats =~= a.pats.update(id.0 as int, p));
            assert(b == a.finish_pat(id, p, syntax_ptr));
            Self::lemma_inv_step(a, b, -1, id.0 as int);
        }
    }

    fn empty_block(&mut self) -> (id: ExprId)
        requires
            old(self).inv(),
        ensures
            final(self).inv(),
            (final(self)@, id) == old(self)@.alloc_expr_bare(
                ExprView::Block { statements: Seq::empty(), tail: None },
            ),
            grown(old(self)@, final(self)@),
            old(self)@.exprs.len() <= id.0 < final(self)@.exprs.len(),
    {
        let block = Expr::Block { statements: Vec::new(), tail: None };
        assert(block@ == (ExprView::Block { statements: Seq::empty(), tail: None })) by {
            assert(block@->Block_statements =~= Seq::empty());
        }
        self.alloc_expr_bare(block)
    }

    /// Lowers a pattern with all that it holds.
    pub fn collect_pat(&mut self, pat: ast::Pat) -> (id: PatId)
        requires
            old(self).inv(),
            pat.wf(),
        ensures
            final(self).inv(),
            (final(self)@, id) == lower_pat(pat.node().tree()@, pat.node().index(), old(self)@),
            grown(old(self)@, final(self)@),
            old(self)@.pats.len() <= id.0 < final(self)@.pats.len(),
            first_pat_made(
                old(self)@,
                final(self)@,
                id,
                LocalSyntaxPtr::of(pat.node().tree()@, pat.node().index()),
            ),
        decreases pat.node().tree()@.len() - pat.node().index(), 10int, 0nat,
    {
        let ghost nodes = pat.node().tree()@;
        let ghost i = pat.node().index();
        proof {
            pat.lemma_wf();
            lemma_kid::<ast::Name>(nodes, i, 0);
            lemma_kid::<ast::Path>(nodes, i, 0);
        }
        let syntax_ptr = LocalSyntaxPtr::new(pat.syntax());
        match pat {
            ast::Pat::BindPat(bp) => {
                let name = match bp.name() {
                    Some(n) => Name::from_name(n),
                    None => Name::missing(),
                };
                self.alloc_pat(Pat::Bind { name }, syntax_ptr)
            },
            ast::Pat::TupleStructPat(p) => {
                let id = self.alloc_pat(Pat::Missing, syntax_ptr);
                let path = match p.path() {
                    Some(path) => Path::from_ast(path),
                    None => None,
                };
                let args = self.collect_pat_list(p.args());
                self.fill_pat(id, Pat::TupleStruct { path, args }, syntax_ptr);
                id
            },
            _ => self.alloc_pat(Pat::Missing, syntax_ptr),
        }
    }

    fn collect_pat_opt(
        &mut self,
        Ghost(nodes): Ghost<Seq<NodeView>>,
        Ghost(parent): Ghost<int>,
        pat: Option<ast::Pat>,
    ) -> (id: PatId)
        requires
            old(self).inv(),
            0 <= parent < nodes.len(),
            pat matches Some(p) ==> p.wf() && p.node().tree()@ == nodes && parent < p.node().index(),
        ensures
            final(self).inv(),
            (final(self)@, id) == lower_pat_opt(nodes, parent, idx_of(pat), old(self)@),
            grown(old(self)@, final(self)@),
            old(self)@.pats.len() <= id.0 < final(self)@.pats.len(),
        decreases nodes.len() - parent, 5int, 0nat,
    {
        if let Some(pat) = pat {
            proof {
                pat.lemma_wf();
            }
            self.collect_pat(pat)
        } else {
            self.alloc_pat_bare(Pat::Missing)
        }
    }

    fn collect_pat_list<'a>(&mut self, children: AstChildren<'a, ast::Pat<'a>>) -> (out: Vec<PatId>)
        requires
            old(self).inv(),
            children.wf(),
        ensures
            final(self).inv(),
            (final(self)@, out@) == lower_pat_list(
                children.parent().tree()@,
                children.parent().index(),
                children.rest(),
                old(self)@,
                Seq::empty(),
            ),
            grown(old(self)@, final(self)@),
            pats_ok(out@, old(self)@.pats.len(), final(self)@.pats.len()),
        decreases children.parent().tree()@.len() - children.parent().index(), 4int, 0nat,
    {
        let ghost nodes = children.parent().tree()@;
        let ghost p = children.parent().index();
        let ghost all = children.rest();
        let mut it = children;
        let mut out: Vec<PatId> = Vec::new();
        proof {
            lemma_kids_from::<ast::Pat>(nodes, p, it.pos());
            assert(node_wf(nodes, p));
        }
        loop
            invariant
                self.inv(),
                it.wf(),
                it.parent().tree()@ == nodes,
                it.parent().index() == p,
                nodes == children.parent().tree()@,
                p == children.parent().index(),
                all == children.rest(),
                0 <= p < nodes.len(),
                forall|k: int| 0 <= k < it.rest().len() ==> p < #[trigger] it.rest()[k] < nodes.len(),
                grown(old(self)@, self@),
                pats_ok(out@, old(self)@.pats.len(), self@.pats.len()),
                lower_pat_list(nodes, p, it.rest(), self@, out@) == lower_pat_list(
                    nodes,
                    p,
                    all,
                    old(self)@,
                    Seq::empty(),
                ),
            decreases it.rest().len(),
        {
            let ghost before = it.rest();
            match it.next() {
                Some(c) => {
                    proof {
                        assert(p < before[0] < nodes.len());
                        assert forall|k: int| 0 <= k < it.rest().len() implies p < #[trigger] it.rest()[k]
                            < nodes.len() by {
                            assert(it.rest()[k] == before[k + 1]);
                        }
                    }
                    let id = self.collect_pat(c);
                    out.push(id);
                },
                None => {
                    return out;
                },
            }
        }
    }

    /// Lowers an expression with all that it holds.
    pub fn collect_expr(&mut self, e: ast::Expr) -> (id: ExprId)
        requires
            old(self).inv(),
            e.wf(),
        ensures
            final(self).inv(),
            (final(self)@, id) == lower_expr(e.node().tree()@, e.node().index(), old(self)@),
            grown(old(self)@, final(self)@),
            old(self)@.exprs.len() <= id.0 < final(self)@.exprs.len(),
            makes_own_expr(e.node().data().kind) ==> first_made(
                old(self)@,
                final(self)@,
                id,
                LocalSyntaxPtr::of(e.node().tree()@, e.node().index()),
            ),
            e.node().data().kind == SyntaxKind::PAREN_EXPR ==> paren_made(
                e.node().tree()@,
                e.node().index(),
                old(self)@,
                final(self)@,
                id,
            ),
            e.node().data().kind == SyntaxKind::STRUCT_LIT ==> fields_made(
                e.node().tree()@,
                e.node().index(),
                final(self)@,
                id,
            ),
        decreases e.node().tree()@.len() - e.node().index(), 10int, 0nat,
    {
        let ghost nodes = e.node().tree()@;
        let ghost i = e.node().index();
        proof {
            e.lemma_wf();
        }
        match e {
            ast::Expr::IfExpr(e) => self.collect_if(e),
            ast::Expr::BlockExpr(e) => {
                let block = e.block();
                proof {
                    lemma_found::<ast::Block>(block, e.node(), 0);
                }
                self.collect_block_opt(Ghost(nodes), Ghost(i), block)
            },
            ast::Expr::LoopExpr(e) => self.collect_loop(e),
            ast::Expr::WhileExpr(e) => self.collect_while(e),
            ast::Expr::ForExpr(e) => self.collect_for(e),
            ast::Expr::CallExpr(e) => self.collect_call(e),
            ast::Expr::MethodCallExpr(e) => self.collect_method_call(e),
            ast::Expr::MatchExpr(e) => self.collect_match(e),
            ast::Expr::PathExpr(e) => self.collect_path_expr(e),
            ast::Expr::ContinueExpr(e) => {
                let syntax_ptr = LocalSyntaxPtr::new(e.syntax());
                self.alloc_expr(Expr::Continue, syntax_ptr)
            },
            ast::Expr::BreakExpr(e) => self.collect_break(e),
            ast::Expr::ParenExpr(e) => self.collect_paren(e),
            ast::Expr::ReturnExpr(e) => self.collect_return(e),
            ast::Expr::StructLit(e) => self.collect_struct_lit(e),
            ast::Expr::FieldExpr(e) => self.collect_field_expr(e),
            ast::Expr::TryExpr(e) => self.collect_try(e),
            ast::Expr::CastExpr(e) => self.collect_cast(e),
            ast::Expr::RefExpr(e) => self.collect_ref(e),
            ast::Expr::PrefixExpr(e) => self.collect_prefix(e),
            ast::Expr::LambdaExpr(e) => self.collect_lambda(e),
            ast::Expr::BinExpr(e) => self.collect_bin(e),
            ast::Expr::Label(e) => {
                let syntax_ptr = LocalSyntaxPtr::new(e.syntax());
                self.alloc_expr(Expr::Missing, syntax_ptr)
            },
            ast::Expr::IndexExpr(e) => {
                let syntax_ptr = LocalSyntaxPtr::new(e.syntax());
                self.alloc_expr(Expr::Missing, syntax_ptr)
            },
            ast::Expr::TupleExpr(e) => {
                let syntax_ptr = LocalSyntaxPtr::new(e.syntax());
                self.alloc_expr(Expr::Missing, syntax_ptr)
            },
            ast::Expr::ArrayExpr(e) => {
                let syntax_ptr = LocalSyntaxPtr::new(e.syntax());
                self.alloc_expr(Expr::Missing, syntax_ptr)
            },
            ast::Expr::RangeExpr(e) => {
                let syntax_ptr = LocalSyntaxPtr::new(e.syntax());
                self.alloc_expr(Expr::Missing, syntax_ptr)
            },
            ast::Expr::Literal(e) => {
                let syntax_ptr = LocalSyntaxPtr::new(e.syntax());
                self.alloc_expr(Expr::Missing, syntax_ptr)
            },
        }
    }

    fn collect_expr_opt(
        &mut self,
        Ghost(nodes): Ghost<Seq<NodeView>>,
        Ghost(parent): Ghost<int>,
        expr: Option<ast::Expr>,
    ) -> (id: ExprId)
        requires
            old(self).inv(),
            0 <= parent < nodes.len(),
            expr matches Some(e) ==> e.wf() && e.node().tree()@ == nodes && parent < e.node().index(),
        ensures
            final(self).inv(),
            (final(self)@, id) == lower_expr_opt(nodes, parent, idx_of(expr), old(self)@),
            grown(old(self)@, final(self)@),
            old(self)@.exprs.len() <= id.0 < final(self)@.exprs.len(),
            expr matches Some(e) ==> (makes_own_expr(e.node().data().kind) ==> first_made(
                old(self)@,
                final(self)@,
                id,
                LocalSyntaxPtr::of(nodes, e.node().index()),
            )),
        decreases nodes.len() - parent, 5int, 0nat,
    {
        if let Some(expr) = expr {
            proof {
                expr.lemma_wf();
            }
            self.collect_expr(expr)
        } else {
            self.alloc_expr_bare(Expr::Missing)
        }
    }

    fn collect_expr_maybe(
        &mut self,
        Ghost(nodes): Ghost<Seq<NodeView>>,
        Ghost(parent): Ghost<int>,
        expr: Option<ast::Expr>,
    ) -> (id: Option<ExprId>)
        requires
            old(self).inv(),
            0 <= parent < nodes.len(),
            expr matches Some(e) ==> e.wf() && e.node().tree()@ == nodes && parent < e.node().index(),
        ensures
            final(self).inv(),
            (final(self)@, id) == lower_expr_maybe(nodes, parent, idx_of(expr), old(self)@),
            grown(old(self)@, final(self)@),
            opt_ok(id, old(self)@.exprs.len(), final(self)@.exprs.len()),
        decreases nodes.len() - parent, 5int, 0nat,
    {
        if let Some(expr) = expr {
            proof {
                expr.lemma_wf();
            }
            Some(self.collect_expr(expr))
        } else {
            None
        }
    }

    /// Lowers a block with its statements and its last expression.
    pub fn collect_block(&mut self, e: ast::Block) -> (id: ExprId)
        requires
            old(self).inv(),
            e.wf(),
        ensures
            final(self).inv(),
            (final(self)@, id) == lower_block(e.node().tree()@, e.node().index(), old(self)@),
            grown(old(self)@, final(self)@),
            old(self)@.exprs.len() <= id.0 < final(self)@.exprs.len(),
            first_made(
                old(self)@,
                final(self)@,
                id,
                LocalSyntaxPtr::of(e.node().tree()@, e.node().index()),
            ),
        decreases e.node().tree()@.len() - e.node().index(), 10int, 0nat,
    {
        let ghost nodes = e.node().tree()@;
        let ghost i = e.node().index();
        proof {
            e.lemma_wf();
        }
        let syntax_ptr = LocalSyntaxPtr::new(e.syntax());
        let id = self.alloc_expr(Expr::Missing, syntax_ptr);
        let ghost s0 = self@;
        let statements = self.collect_stmts(e.statements());
        let ghost s1 = self@;
        let tail_syntax = e.expr();
        proof {
            lemma_found::<ast::Expr>(tail_syntax, e.node(), 0);
        }
        let tail = self.collect_expr_maybe(Ghost(nodes), Ghost(i), tail_syntax);
        proof {
            let views = stmt_views(statements@);
            assert forall|k: int| 0 <= k < views.len() implies stmt_ok(
                #[trigger] views[k],
                (id.0 + 1) as nat,
                self@.exprs.len(),
                self@.pats.len(),
            ) by {
                assert(stmt_ok(views[k], s0.exprs.len(), s1.exprs.len(), s1.pats.len()));
            }
        }
        self.fill_expr(id, Expr::Block { statements, tail }, syntax_ptr);
        id
    }

    fn collect_block_opt(
        &mut self,
        Ghost(nodes): Ghost<Seq<NodeView>>,
        Ghost(parent): Ghost<int>,
        block: Option<ast::Block>,
    ) -> (id: ExprId)
        requires
            old(self).inv(),
            0 <= parent < nodes.len(),
            block matches Some(e) ==> e.wf() && e.node().tree()@ == nodes && parent < e.node().index(),
        ensures
            final(self).inv(),
            (final(self)@, id) == lower_block_opt(nodes, parent, idx_of(block), old(self)@),
            grown(old(self)@, final(self)@),
            old(self)@.exprs.len() <= id.0 < final(self)@.exprs.len(),
        decreases nodes.len() - parent, 5int, 0nat,
    {
        if let Some(block) = block {
            proof {
                block.lemma_wf();
            }
            self.collect_block(block)
        } else {
            self.alloc_expr_bare(Expr::Missing)
        }
    }

    fn collect_loop(&mut self, e: ast::LoopExpr) -> (id: ExprId)
        requires
            old(self).inv(),
            e.wf(),
        ensures
            final(self).inv(),
            (final(self)@, id) == lower_loop(e.node().tree()@, e.node().index(), old(self)@),
            grown(old(self)@, final(self)@),
            old(self)@.exprs.len() <= id.0 < final(self)@.exprs.len(),
            first_made(
                old(self)@,
                final(self)@,
                id,
                LocalSyntaxPtr::of(e.node().tree()@, e.node().index()),
            ),
        decreases e.node().tree()@.len() - e.node().index(), 9int, 0nat,
    {
        let ghost nodes = e.node().tree()@;
        let ghost i = e.node().index();
        proof {
            e.lemma_wf();
        }
        let syntax_ptr = LocalSyntaxPtr::new(e.syntax());
        let id = self.alloc_expr(Expr::Missing, syntax_ptr);
        let block = e.loop_body();
        proof {
            lemma_found::<ast::Block>(block, e.node(), 0);
        }
        let body = self.collect_block_opt(Ghost(nodes), Ghost(i), block);
        self.fill_expr(id, Expr::Loop { body }, syntax_ptr);
        id
    }

    fn collect_for(&mut self, e: ast::ForExpr) -> (id: ExprId)
        requires
            old(self).inv(),
            e.wf(),
        ensures
            final(self).inv(),
            (final(self)@, id) == lower_for(e.node().tree()@, e.node().index(), old(self)@),
            grown(old(self)@, final(self)@),
            old(self)@.exprs.len() <= id.0 < final(self)@.exprs.len(),
            first_made(
                old(self)@,
                final(self)@,
                id,
                LocalSyntaxPtr::of(e.node().tree()@, e.node().index()),
            ),
        decreases e.node().tree()@.len() - e.node().index(), 9int, 0nat,
    {
        let ghost nodes = e.node().tree()@;
        let ghost i = e.node().index();
        proof {
            e.lemma_wf();
        }
        let syntax_ptr = LocalSyntaxPtr::new(e.syntax());
        let id = self.alloc_expr(Expr::Missing, syntax_ptr);
        let iterable_syntax = e.iterable();
        let pat_syntax = e.pat();
        let block = e.loop_body();
        proof {
            lemma_found::<ast::Expr>(iterable_syntax, e.node(), 0);
            lemma_found::<ast::Pat>(pat_syntax, e.node(), 0);
            lemma_found::<ast::Block>(block, e.node(), 0);
        }
        let iterable = self.collect_expr_opt(Ghost(nodes), Ghost(i), iterable_syntax);
        let pat = self.collect_pat_opt(Ghost(nodes), Ghost(i), pat_syntax);
        let body = self.collect_block_opt(Ghost(nodes), Ghost(i), block);
        self.fill_expr(id, Expr::For { iterable, pat, body }, syntax_ptr);
        id
    }

    fn collect_args(
        &mut self,
        Ghost(nodes): Ghost<Seq<NodeView>>,
        Ghost(parent): Ghost<int>,
        list: Option<ast::ArgList>,
    ) -> (args: Vec<ExprId>)
        requires
            old(self).inv(),
            0 <= parent < nodes.len(),
            list matches Some(l) ==> l.wf() && l.node().tree()@ == nodes && parent < l.node().index(),
        ensures
            final(self).inv(),
            (final(self)@, args@) == lower_args(nodes, parent, idx_of(list), old(self)@),
            grown(old(self)@, final(self)@),
            exprs_ok(args@, old(self)@.exprs.len(), final(self)@.exprs.len()),
        decreases nodes.len() - parent, 8int, 0nat,
    {
        if let Some(arg_list) = list {
            proof {
                arg_list.lemma_wf();
            }
            self.collect_expr_list(arg_list.args())
        } else {
            Vec::new()
        }
    }

    fn collect_expr_list<'a>(&mut self, children: AstChildren<'a, ast::Expr<'a>>) -> (out: Vec<ExprId>)
        requires
            old(self).inv(),
            children.wf(),
        ensures
            final(self).inv(),
            (final(self)@, out@) == lower_expr_list(
                children.parent().tree()@,
                children.parent().index(),
                children.rest(),
                old(self)@,
                Seq::empty(),
            ),
            grown(old(self)@, final(self)@),
            exprs_ok(out@, old(self)@.exprs.len(), final(self)@.exprs.len()),
        decreases children.parent().tree()@.len() - children.parent().index(), 4int, 0nat,
    {
        let ghost nodes = children.parent().tree()@;
        let ghost p = children.parent().index();
        let ghost all = children.rest();
        let mut it = children;
        let mut out: Vec<ExprId> = Vec::new();
        proof {
            lemma_kids_from::<ast::Expr>(nodes, p, it.pos());
            assert(node_wf(nodes, p));
        }
        loop
            invariant
                self.inv(),
                it.wf(),
                it.parent().tree()@ == nodes,
                it.parent().index() == p,
                nodes == children.parent().tree()@,
                p == children.parent().index(),
                all == children.rest(),
                0 <= p < nodes.len(),
                forall|k: int| 0 <= k < it.rest().len() ==> p < #[trigger] it.rest()[k] < nodes.len(),
                grown(old(self)@, self@),
                exprs_ok(out@, old(self)@.exprs.len(), self@.exprs.len()),
                lower_expr_list(nodes, p, it.rest(), self@, out@) == lower_expr_list(
                    nodes,
                    p,
                    all,
                    old(self)@,
                    Seq::empty(),
                ),
            decreases it.rest().len(),
        {
            let ghost before = it.rest();
            match it.next() {
                Some(c) => {
                    proof {
                        assert(p < before[0] < nodes.len());
                        assert forall|k: int| 0 <= k < it.rest().len() implies p < #[trigger] it.rest()[k]
                            < nodes.len() by {
                            assert(it.rest()[k] == before[k + 1]);
                        }
                    }
                    let id = self.collect_expr(c);
                    out.push(id);
                },
                None => {
                    return out;
                },
            }
        }
    }

    fn collect_call(&mut self, e: ast::CallExpr) -> (id: ExprId)
        requires
            old(self).inv(),
            e.wf(),
        ensures
            final(self).inv(),
            (final(self)@, id) == lower_call(e.node().tree()@, e.node().index(), old(self)@),
            grown(old(self)@, final(self)@),
            old(self)@.exprs.len() <= id.0 < final(self)@.exprs.len(),
            first_made(
                old(self)@,
                final(self)@,
                id,
                LocalSyntaxPtr::of(e.node().tree()@, e.node().index()),
            ),
        decreases e.node().tree()@.len() - e.node().index(), 9int, 0nat,
    {
        let ghost nodes = e.node().tree()@;
        let ghost i = e.node().index();
        proof {
            e.lemma_wf();
        }
        let syntax_ptr = LocalSyntaxPtr::new(e.syntax());
        let id = self.alloc_expr(Expr::Missing, syntax_ptr);
        let callee_syntax = e.expr();
        proof {
            lemma_found::<ast::Expr>(callee_syntax, e.node(), 0);
        }
        let callee = self.collect_expr_opt(Ghost(nodes), Ghost(i), callee_syntax);
        let list = e.arg_list();
        proof {
            lemma_found::<ast::ArgList>(list, e.node(), 0);
        }
        let args = self.collect_args(Ghost(nodes), Ghost(i), list);
        self.fill_expr(id, Expr::Call { callee, args }, syntax_ptr);
        id
    }

    fn collect_method_call(&mut self, e: ast::MethodCallExpr) -> (id: ExprId)
        requires
            old(self).inv(),
            e.wf(),
        ensures
            final(self).inv(),
            (final(self)@, id) == lower_method_call(e.node().tree()@, e.node().index(), old(self)@),
            grown(old(self)@, final(self)@),
            old(self)@.exprs.len() <= id.0 < final(self)@.exprs.len(),
            first_made(
                old(self)@,
                final(self)@,
                id,
                LocalSyntaxPtr::of(e.node().tree()@, e.node().index()),
            ),
        decreases e.node().tree()@.len() - e.node().index(), 9int, 0nat,
    {
        let ghost nodes = e.node().tree()@;
        let ghost i = e.node().index();
        proof {
            e.lemma_wf();
        }
        let syntax_ptr = LocalSyntaxPtr::new(e.syntax());
        let id = self.alloc_expr(Expr::Missing, syntax_ptr);
        let receiver_syntax = e.expr();
        let name_ref = e.name_ref();
        proof {
            lemma_found::<ast::Expr>(receiver_syntax, e.node(), 0);
            lemma_found::<ast::NameRef>(name_ref, e.node(), 0);
        }
        let receiver = self.collect_expr_opt(Ghost(nodes), Ghost(i), receiver_syntax);
        let list = e.arg_list();
        proof {
            lemma_found::<ast::ArgList>(list, e.node(), 0);
        }
        let args = self.collect_args(Ghost(nodes), Ghost(i), list);
        let method_name = match name_ref {
            Some(nr) => Name::from_name_ref(nr),
            None => Name::missing(),
        };
        self.fill_expr(id, Expr::MethodCall { receiver, method_name, args }, syntax_ptr);
        id
    }

    #[verifier::rlimit(50)]
    fn collect_if(&mut self, e: ast::IfExpr) -> (id: ExprId)
        requires
            old(self).inv(),
            e.wf(),
        ensures
            final(self).inv(),
            (final(self)@, id) == lower_if(e.node().tree()@, e.node().index(), old(self)@),
            grown(old(self)@, final(self)@),
            old(self)@.exprs.len() <= id.0 < final(self)@.exprs.len(),
            first_made(
                old(self)@,
                final(self)@,
                id,
                LocalSyntaxPtr::of(e.node().tree()@, e.node().index()),
            ),
            final(self)@.exprs[id.0 as int] matches ExprView::Match { arms, .. } ==> arms.len() == 2,
            is_if_let(e.node().tree()@, e.node().index()) ==> final(self)@.exprs[id.0 as int] is Match,
            !is_if_let(e.node().tree()@, e.node().index()) ==> (final(self)@.exprs[id.0 as int] matches ExprView::If {
                else_branch,
                ..
            } && else_branch.is_some() == kid::<ast::Block>(e.node().tree()@, e.node().index(), 1).is_some()),
        decreases e.node().tree()@.len() - e.node().index(), 9int, 0nat,
    {
        let ghost nodes = e.node().tree()@;
        let ghost i = e.node().index();
        proof {
            e.lemma_wf();
        }
        let syntax_ptr = LocalSyntaxPtr::new(e.syntax());
        let id = self.alloc_expr(Expr::Missing, syntax_ptr);
        let cond = e.condition();
        proof {
            lemma_found::<ast::Condition>(cond, e.node(), 0);
        }
        match cond {
            Some(c) => {
                proof {
                    c.lemma_wf();
                }
                let ghost ci = c.node().index();
                let pat_syntax = c.pat();
                let cond_expr = c.expr();
                proof {
                    lemma_found::<ast::Pat>(pat_syntax, c.node(), 0);
                    lemma_found::<ast::Expr>(cond_expr, c.node(), 0);
                }
                match pat_syntax {
                    Some(pat) => {
                        // if let -- desugar to match
                        let pat = self.collect_pat(pat);
                        let match_expr = self.collect_expr_opt(Ghost(nodes), Ghost(ci), cond_expr);
                        let then_syntax = e.then_branch();
                        let else_syntax = e.else_branch();
                        proof {
                            lemma_found::<ast::Block>(then_syntax, e.node(), 0);
                            lemma_found::<ast::Block>(else_syntax, e.node(), 1);
                        }
                        let then_branch = self.collect_block_opt(Ghost(nodes), Ghost(i), then_syntax);
                        let else_branch = match else_syntax {
                            Some(b) => self.collect_block(b),
                            None => self.empty_block(),
                        };
                        let placeholder_pat = self.alloc_pat_bare(Pat::Missing);
                        let mut first: Vec<PatId> = Vec::new();
                        first.push(pat);
                        let mut second: Vec<PatId> = Vec::new();
                        second.push(placeholder_pat);
                        let mut arms: Vec<MatchArm> = Vec::new();
                        arms.push(MatchArm { pats: first, expr: then_branch });
                        arms.push(MatchArm { pats: second, expr: else_branch });
                        proof {
                            assert(first@ =~= seq![pat]);
                            assert(second@ =~= seq![placeholder_pat]);
                            let views = arm_views(arms@);
                            assert(views =~= seq![
                                MatchArmView { pats: seq![pat], expr: then_branch },
                                MatchArmView { pats: seq![placeholder_pat], expr: else_branch },
                            ]);
                            assert forall|k: int| 0 <= k < views.len() implies arm_ok(
                                #[trigger] views[k],
                                (id.0 + 1) as nat,
                                self@.exprs.len(),
                                self@.pats.len(),
                            ) by {
                                if k == 0 {
                                    assert(views[0].pats[0] == pat);
                                } else {
                                    assert(views[1].pats[0] == placeholder_pat);
                                }
                            }
                        }
                        self.fill_expr(id, Expr::Match { expr: match_expr, arms }, syntax_ptr);
                        id
                    },
                    None => {
                        let condition = self.collect_expr_opt(Ghost(nodes), Ghost(ci), cond_expr);
                        self.collect_if_branches(e, condition, id)
                    },
                }
            },
            None => {
                let condition = self.alloc_expr_bare(Expr::Missing);
                self.collect_if_branches(e, condition, id)
            },
        }
    }

    fn collect_if_branches(&mut self, e: ast::IfExpr, condition: ExprId, id: ExprId) -> (r: ExprId)
        requires
            old(self).inv(),
            e.wf(),
            id.0 < condition.0 < old(self)@.exprs.len(),
            old(self)@.expr_back[id.0 as int] == Some(LocalSyntaxPtr::of(e.node().tree()@, e.node().index())),
        ensures
            final(self).inv(),
            (final(self)@, r) == lower_if_branches(e.node().tree()@, e.node().index(), old(self)@, condition, id),
            grown_over(old(self)@, final(self)@),
            kept_but(old(self)@, final(self)@, id.0 as int),
            r == id,
            final(self)@.expr_map.contains_key(LocalSyntaxPtr::of(e.node().tree()@, e.node().index())),
            final(self)@.expr_map[LocalSyntaxPtr::of(e.node().tree()@, e.node().index())] == id,
            final(self)@.exprs[id.0 as int] matches ExprView::If { else_branch, .. } && else_branch.is_some()
                == kid::<ast::Block>(e.node().tree()@, e.node().index(), 1).is_some(),
        decreases e.node().tree()@.len() - e.node().index(), 8int, 0nat,
    {
        let ghost nodes = e.node().tree()@;
        let ghost i = e.node().index();
        proof {
            e.lemma_wf();
        }
        let syntax_ptr = LocalSyntaxPtr::new(e.syntax());
        let then_syntax = e.then_branch();
        let else_syntax = e.else_branch();
        proof {
            lemma_found::<ast::Block>(then_syntax, e.node(), 0);
            lemma_found::<ast::Block>(else_syntax, e.node(), 1);
        }
        let then_branch = self.collect_block_opt(Ghost(nodes), Ghost(i), then_syntax);
        let else_branch = match else_syntax {
            Some(b) => Some(self.collect_block(b)),
            None => None,
        };
        self.fill_expr(id, Expr::If { condition, then_branch, else_branch }, syntax_ptr);
        id
    }

    fn collect_while(&mut self, e: ast::WhileExpr) -> (id: ExprId)
        requires
            old(self).inv(),
            e.wf(),
        ensures
            final(self).inv(),
            (final(self)@, id) == lower_while(e.node().tree()@, e.node().index(), old(self)@),
            grown(old(self)@, final(self)@),
            old(self)@.exprs.len() <= id.0 < final(self)@.exprs.len(),
            first_made(
                old(self)@,
                final(self)@,
                id,
                LocalSyntaxPtr::of(e.node().tree()@, e.node().index()),
            ),
        decreases e.node().tree()@.len() - e.node().index(), 9int, 0nat,
    {
        let ghost nodes = e.node().tree()@;
        let ghost i = e.node().index();
        proof {
            e.lemma_wf();
        }
        let syntax_ptr = LocalSyntaxPtr::new(e.syntax());
        let id = self.alloc_expr(Expr::Missing, syntax_ptr);
        let cond = e.condition();
        let block = e.loop_body();
        proof {
            lemma_found::<ast::Condition>(cond, e.node(), 0);
            lemma_found::<ast::Block>(block, e.node(), 0);
        }
        let condition = if let Some(condition) = cond {
            proof {
                condition.lemma_wf();
            }
            let ghost ci = condition.node().index();
            let pat_syntax = condition.pat();
            let cond_expr = condition.expr();
            proof {
                lemma_found::<ast::Pat>(pat_syntax, condition.node(), 0);
                lemma_found::<ast::Expr>(cond_expr, condition.node(), 0);
            }
            if pat_syntax.is_none() {
                self.collect_expr_opt(Ghost(nodes), Ghost(ci), cond_expr)
            } else {
                // a `while let` has no model yet
                return id;
            }
        } else {
            self.alloc_expr_bare(Expr::Missing)
        };
        let body = self.collect_block_opt(Ghost(nodes), Ghost(i), block);
        self.fill_expr(id, Expr::While { condition, body }, syntax_ptr);
        id
    }

    fn collect_match(&mut self, e: ast::MatchExpr) -> (id: ExprId)
        requires
            old(self).inv(),
            e.wf(),
        ensures
            final(self).inv(),
            (final(self)@, id) == lower_match(e.node().tree()@, e.node().index(), old(self)@),
            grown(old(self)@, final(self)@),
            old(self)@.exprs.len() <= id.0 < final(self)@.exprs.len(),
            first_made(
                old(self)@,
                final(self)@,
                id,
                LocalSyntaxPtr::of(e.node().tree()@, e.node().index()),
            ),
        decreases e.node().tree()@.len() - e.node().index(), 9int, 0nat,
    {
        let ghost nodes = e.node().tree()@;
        let ghost i = e.node().index();
        proof {
            e.lemma_wf();
        }
        let syntax_ptr = LocalSyntaxPtr::new(e.syntax());
        let id = self.alloc_expr(Expr::Missing, syntax_ptr);
        let scrutinee = e.expr();
        let list = e.match_arm_list();
        proof {
            lemma_found::<ast::Expr>(scrutinee, e.node(), 0);
            lemma_found::<ast::MatchArmList>(list, e.node(), 0);
        }
        let expr = self.collect_expr_opt(Ghost(nodes), Ghost(i), scrutinee);
        let arms = if let Some(match_arm_list) = list {
            self.collect_arms(match_arm_list.arms())
        } else {
            let v: Vec<MatchArm> = Vec::new();
            assert(arm_views(v@) =~= Seq::empty());
            v
        };
        self.fill_expr(id, Expr::Match { expr, arms }, syntax_ptr);
        id
    }

    fn collect_arm(&mut self, a: ast::MatchArm) -> (arm: MatchArm)
        requires
            old(self).inv(),
            a.wf(),
        ensures
            final(self).inv(),
            (final(self)@, arm@) == lower_arm(a.node().tree()@, a.node().index(), old(self)@),
            grown(old(self)@, final(self)@),
            arm_ok(arm@, old(self)@.exprs.len(), final(self)@.exprs.len(), final(self)@.pats.len()),
        decreases a.node().tree()@.len() - a.node().index(), 6int, 0nat,
    {
        let ghost nodes = a.node().tree()@;
        let ghost i = a.node().index();
        proof {
            a.lemma_wf();
        }
        let pats = self.collect_pat_list(a.pats());
        let body = a.expr();
        proof {
            lemma_found::<ast::Expr>(body, a.node(), 0);
        }
        let expr = self.collect_expr_opt(Ghost(nodes), Ghost(i), body);
        MatchArm { pats, expr }
    }

    fn collect_arms<'a>(&mut self, children: AstChildren<'a, ast::MatchArm<'a>>) -> (out: Vec<MatchArm>)
        requires
            old(self).inv(),
            children.wf(),
        ensures
            final(self).inv(),
            (final(self)@, arm_views(out@)) == lower_arms(
                children.parent().tree()@,
                children.parent().index(),
                children.rest(),
                old(self)@,
                Seq::empty(),
            ),
            grown(old(self)@, final(self)@),
            forall|k: int|
                0 <= k < out@.len() ==> arm_ok(
                    #[trigger] arm_views(out@)[k],
                    old(self)@.exprs.len(),
                    final(self)@.exprs.len(),
                    final(self)@.pats.len(),
                ),
        decreases children.parent().tree()@.len() - children.parent().index(), 4int, 0nat,
    {
        let ghost nodes = children.parent().tree()@;
        let ghost p = children.parent().index();
        let ghost all = children.rest();
        let mut it = children;
        let mut out: Vec<MatchArm> = Vec::new();
        proof {
            lemma_kids_from::<ast::MatchArm>(nodes, p, it.pos());
            assert(node_wf(nodes, p));
            assert(arm_views(out@) =~= Seq::empty());
        }
        loop
            invariant
                self.inv(),
                it.wf(),
                it.parent().tree()@ == nodes,
                it.parent().index() == p,
                nodes == children.parent().tree()@,
                p == children.parent().index(),
                all == children.rest(),
                0 <= p < nodes.len(),
                forall|k: int| 0 <= k < it.rest().len() ==> p < #[trigger] it.rest()[k] < nodes.len(),
                grown(old(self)@, self@),
                forall|k: int|
                    0 <= k < out@.len() ==> arm_ok(
                        #[trigger] arm_views(out@)[k],
                        old(self)@.exprs.len(),
                        self@.exprs.len(),
                        self@.pats.len(),
                    ),
                lower_arms(nodes, p, it.rest(), self@, arm_views(out@)) == lower_arms(
                    nodes,
                    p,
                    all,
                    old(self)@,
                    Seq::empty(),
                ),
            decreases it.rest().len(),
        {
            let ghost before = it.rest();
            let ghost st = self@;
            let ghost acc = arm_views(out@);
            match it.next() {
                Some(c) => {
                    proof {
                        assert(p < before[0] < nodes.len());
                        assert forall|k: int| 0 <= k < it.rest().len() implies p < #[trigger] it.rest()[k]
                            < nodes.len() by {
                            assert(it.rest()[k] == before[k + 1]);
                        }
                    }
                    let arm = self.collect_arm(c);
                    let ghost view = arm@;
                    out.push(arm);
                    proof {
                        let now = arm_views(out@);
                        assert(now =~= acc.push(view));
                        assert forall|k: int| 0 <= k < out@.len() implies arm_ok(
                            #[trigger] now[k],
                            old(self)@.exprs.len(),
                            self@.exprs.len(),
                            self@.pats.len(),
                        ) by {
                            if k < acc.len() {
                                assert(now[k] == acc[k]);
                                assert(arm_ok(acc[k], old(self)@.exprs.len(), st.exprs.len(), st.pats.len()));
                            }
                        }
                    }
                },
                None => {
                    return out;
                },
            }
        }
    }

    fn collect_path_expr(&mut self, e: ast::PathExpr) -> (id: ExprId)
        requires
            old(self).inv(),
            e.wf(),
        ensures
            final(self).inv(),
            (final(self)@, id) == lower_path_expr(e.node().tree()@, e.node().index(), old(self)@),
            grown(old(self)@, final(self)@),
            old(self)@.exprs.len() <= id.0 < final(self)@.exprs.len(),
            first_made(
                old(self)@,
                final(self)@,
                id,
                LocalSyntaxPtr::of(e.node().tree()@, e.node().index()),
            ),
        decreases e.node().tree()@.len() - e.node().index(), 9int, 0nat,
    {
        let ghost nodes = e.node().tree()@;
        let ghost i = e.node().index();
        proof {
            e.lemma_wf();
        }
        let syntax_ptr = LocalSyntaxPtr::new(e.syntax());
        let path_syntax = e.path();
        proof {
            lemma_found::<ast::Path>(path_syntax, e.node(), 0);
        }
        let path = match path_syntax {
            Some(p) => match Path::from_ast(p) {
                Some(p) => Expr::Path(p),
                None => Expr::Missing,
            },
            None => Expr::Missing,
        };
        self.alloc_expr(path, syntax_ptr)
    }

    fn collect_break(&mut self, e: ast::BreakExpr) -> (id: ExprId)
        requires
            old(self).inv(),
            e.wf(),
        ensures
            final(self).inv(),
            (final(self)@, id) == lower_break(e.node().tree()@, e.node().index(), old(self)@),
            grown(old(self)@, final(self)@),
            old(self)@.exprs.len() <= id.0 < final(self)@.exprs.len(),
            first_made(
                old(self)@,
                final(self)@,
                id,
                LocalSyntaxPtr::of(e.node().tree()@, e.node().index()),
            ),
        decreases e.node().tree()@.len() - e.node().index(), 9int, 0nat,
    {
        let ghost nodes = e.node().tree()@;
        let ghost i = e.node().index();
        proof {
            e.lemma_wf();
        }
        let syntax_ptr = LocalSyntaxPtr::new(e.syntax());
        let id = self.alloc_expr(Expr::Missing, syntax_ptr);
        let inner = e.expr();
        proof {
            lemma_found::<ast::Expr>(inner, e.node(), 0);
        }
        let expr = self.collect_expr_maybe(Ghost(nodes), Ghost(i), inner);
        self.fill_expr(id, Expr::Break { expr }, syntax_ptr);
        id
    }

    fn collect_return(&mut self, e: ast::ReturnExpr) -> (id: ExprId)
        requires
            old(self).inv(),
            e.wf(),
        ensures
            final(self).inv(),
            (final(self)@, id) == lower_return(e.node().tree()@, e.node().index(), old(self)@),
            grown(old(self)@, final(self)@),
            old(self)@.exprs.len() <= id.0 < final(self)@.exprs.len(),
            first_made(
                old(self)@,
                final(self)@,
                id,
                LocalSyntaxPtr::of(e.node().tree()@, e.node().index()),
            ),
        decreases e.node().tree()@.len() - e.node().index(), 9int, 0nat,
    {
        let ghost nodes = e.node().tree()@;
        let ghost i = e.node().index();
        proof {
            e.lemma_wf();
        }
        let syntax_ptr = LocalSyntaxPtr::new(e.syntax());
        let id = self.alloc_expr(Expr::Missing, syntax_ptr);
        let inner = e.expr();
        proof {
            lemma_found::<ast::Expr>(inner, e.node(), 0);
        }
        let expr = self.collect_expr_maybe(Ghost(nodes), Ghost(i), inner);
        self.fill_expr(id, Expr::Return { expr }, syntax_ptr);
        id
    }

    fn collect_paren(&mut self, e: ast::ParenExpr) -> (id: ExprId)
        requires
            old(self).inv(),
            e.wf(),
        ensures
            final(self).inv(),
            (final(self)@, id) == lower_paren(e.node().tree()@, e.node().index(), old(self)@),
            grown(old(self)@, final(self)@),
            old(self)@.exprs.len() <= id.0 < final(self)@.exprs.len(),
            paren_made(e.node().tree()@, e.node().index(), old(self)@, final(self)@, id),
        decreases e.node().tree()@.len() - e.node().index(), 9int, 0nat,
    {
        let ghost nodes = e.node().tree()@;
        let ghost i = e.node().index();
        proof {
            e.lemma_wf();
        }
        let syntax_ptr = LocalSyntaxPtr::new(e.syntax());
        let inner = e.expr();
        proof {
            lemma_found::<ast::Expr>(inner, e.node(), 0);
        }
        let expr = self.collect_expr_opt(Ghost(nodes), Ghost(i), inner);
        // make the paren expr point to the inner expression as well
        self.map_expr(syntax_ptr, expr);
        expr
    }

    fn collect_struct_lit(&mut self, e: ast::StructLit) -> (id: ExprId)
        requires
            old(self).inv(),
            e.wf(),
        ensures
            final(self).inv(),
            (final(self)@, id) == lower_struct_lit(e.node().tree()@, e.node().index(), old(self)@),
            grown(old(self)@, final(self)@),
            old(self)@.exprs.len() <= id.0 < final(self)@.exprs.len(),
            first_made(
                old(self)@,
                final(self)@,
                id,
                LocalSyntaxPtr::of(e.node().tree()@, e.node().index()),
            ),
            fields_made(e.node().tree()@, e.node().index(), final(self)@, id),
        decreases e.node().tree()@.len() - e.node().index(), 9int, 0nat,
    {
        let ghost nodes = e.node().tree()@;
        let ghost i = e.node().index();
        proof {
            e.lemma_wf();
        }
        let syntax_ptr = LocalSyntaxPtr::new(e.syntax());
        let id = self.alloc_expr(Expr::Missing, syntax_ptr);
        let path_syntax = e.path();
        let list = e.named_field_list();
        let spread_syntax = e.spread();
        proof {
            lemma_found::<ast::Path>(path_syntax, e.node(), 0);
            lemma_found::<ast::NamedFieldList>(list, e.node(), 0);
            lemma_found::<ast::Expr>(spread_syntax, e.node(), 0);
        }
        let path = match path_syntax {
            Some(p) => Path::from_ast(p),
            None => None,
        };
        let fields = if let Some(nfl) = list {
            proof {
                nfl.lemma_wf();
            }
            self.collect_fields(nfl.fields())
        } else {
            let v: Vec<StructLitField> = Vec::new();
            assert(field_views(v@) =~= Seq::empty());
            v
        };
        let ghost s1 = self@;
        let spread = self.collect_expr_maybe(Ghost(nodes), Ghost(i), spread_syntax);
        proof {
            let views = field_views(fields@);
            assert forall|k: int| 0 <= k < views.len() implies id.0 + 1 <= (#[trigger] views[k]).expr.0
                < self@.exprs.len() by {
                assert(views[k].expr.0 < s1.exprs.len());
            }
        }
        let ghost s2 = self@;
        self.fill_expr(id, Expr::StructLit { path, fields, spread }, syntax_ptr);
        proof {
            let views = field_views(fields@);
            if let Some(l) = kid::<ast::NamedFieldList>(nodes, i, 0) {
                let ks = kids::<ast::NamedField>(nodes, l);
                assert forall|k: int| 0 <= k < views.len() implies field_made(
                    nodes,
                    ks[k],
                    self@,
                    #[trigger] views[k],
                ) by {
                    lemma_field_made_stays(nodes, ks[k], s1, s2, views[k], -1);
                    lemma_field_made_stays(nodes, ks[k], s2, self@, views[k], id.0 as int);
                }
            }
        }
        id
    }

    fn collect_field(&mut self, f: ast::NamedField) -> (field: StructLitField)
        requires
            old(self).inv(),
            f.wf(),
        ensures
            final(self).inv(),
            (final(self)@, field@) == lower_field(f.node().tree()@, f.node().index(), old(self)@),
            grown(old(self)@, final(self)@),
            old(self)@.exprs.len() <= field@.expr.0 < final(self)@.exprs.len(),
            field_made(f.node().tree()@, f.node().index(), final(self)@, field@),
        decreases f.node().tree()@.len() - f.node().index(), 6int, 0nat,
    {
        let ghost nodes = f.node().tree()@;
        let ghost i = f.node().index();
        proof {
            f.lemma_wf();
        }
        let name_ref = f.name_ref();
        let value = f.expr();
        proof {
            lemma_found::<ast::NameRef>(name_ref, f.node(), 0);
            lemma_found::<ast::Expr>(value, f.node(), 0);
        }
        let name = match name_ref {
            Some(nr) => Name::from_name_ref(nr),
            None => Name::missing(),
        };
        let expr = if let Some(e) = value {
            proof {
                e.lemma_wf();
            }
            self.collect_expr(e)
        } else if let Some(nr) = name_ref {
            // field shorthand
            proof {
                nr.lemma_wf();
            }
            self.alloc_expr(Expr::Path(Path::from_name_ref(nr)), LocalSyntaxPtr::new(nr.syntax()))
        } else {
            self.alloc_expr_bare(Expr::Missing)
        };
        StructLitField { name, expr }
    }

    fn collect_fields<'a>(&mut self, children: AstChildren<'a, ast::NamedField<'a>>) -> (out: Vec<StructLitField>)
        requires
            old(self).inv(),
            children.wf(),
        ensures
            final(self).inv(),
            (final(self)@, field_views(out@)) == lower_fields(
                children.parent().tree()@,
                children.parent().index(),
                children.rest(),
                old(self)@,
                Seq::empty(),
            ),
            grown(old(self)@, final(self)@),
            forall|k: int|
                0 <= k < out@.len() ==> old(self)@.exprs.len() <= (#[trigger] field_views(out@)[k]).expr.0
                    < final(self)@.exprs.len(),
            out@.len() == children.rest().len(),
            forall|k: int|
                0 <= k < out@.len() ==> field_made(
                    children.parent().tree()@,
                    children.rest()[k],
                    final(self)@,
                    #[trigger] field_views(out@)[k],
                ),
        decreases children.parent().tree()@.len() - children.parent().index(), 4int, 0nat,
    {
        let ghost nodes = children.parent().tree()@;
        let ghost p = children.parent().index();
        let ghost all = children.rest();
        let mut it = children;
        let mut out: Vec<StructLitField> = Vec::new();
        proof {
            lemma_kids_from::<ast::NamedField>(nodes, p, it.pos());
            assert(node_wf(nodes, p));
            assert(field_views(out@) =~= Seq::empty());
        }
        loop
            invariant
                self.inv(),
                it.wf(),
                it.parent().tree()@ == nodes,
                it.parent().index() == p,
                nodes == children.parent().tree()@,
                p == children.parent().index(),
                all == children.rest(),
                0 <= p < nodes.len(),
                forall|k: int| 0 <= k < it.rest().len() ==> p < #[trigger] it.rest()[k] < nodes.len(),
                grown(old(self)@, self@),
                forall|k: int|
                    0 <= k < out@.len() ==> old(self)@.exprs.len() <= (#[trigger] field_views(out@)[k]).expr.0
                        < self@.exprs.len(),
                lower_fields(nodes, p, it.rest(), self@, field_views(out@))
                    == lower_fields(nodes, p, all, old(self)@, Seq::empty()),
                out@.len() + it.rest().len() == all.len(),
                forall|k: int| 0 <= k < it.rest().len() ==> #[trigger] it.rest()[k] == all[out@.len() + k],
                forall|k: int|
                    0 <= k < out@.len() ==> field_made(nodes, all[k], self@, #[trigger] field_views(out@)[k]),
            decreases it.rest().len(),
        {
            let ghost before = it.rest();
            let ghost st = self@;
            let ghost acc = field_views(out@);
            match it.next() {
                Some(c) => {
                    proof {
                        assert(p < before[0] < nodes.len());
                        assert forall|k: int| 0 <= k < it.rest().len() implies p < #[trigger] it.rest()[k]
                            < nodes.len() by {
                            assert(it.rest()[k] == before[k + 1]);
                        }
                    }
                    let field = self.collect_field(c);
                    let ghost view = field@;
                    out.push(field);
                    proof {
                        let now = field_views(out@);
                        assert(now =~= acc.push(view));
                        assert forall|k: int| 0 <= k < out@.len() implies old(self)@.exprs.len() <= (
                        #[trigger] now[k]).expr.0 < self@.exprs.len() by {
                            if k < acc.len() {
                                assert(now[k] == acc[k]);
                                assert(old(self)@.exprs.len() <= acc[k].expr.0 < st.exprs.len());
                            }
                        }
                        assert forall|k: int| 0 <= k < out@.len() implies field_made(
                            nodes,
                            all[k],
                            self@,
                            #[trigger] now[k],
                        ) by {
                            if k < acc.len() {
                                assert(now[k] == acc[k]);
                                lemma_field_made_stays(nodes, all[k], st, self@, acc[k], -1);
                            } else {
                                assert(before[0] == all[acc.len() as int]);
                            }
                        }
                        assert forall|k: int| 0 <= k < it.rest().len() implies #[trigger] it.rest()[k] == all[out@.len()
                            + k] by {
                            assert(it.rest()[k] == before[k + 1]);
                        }
                    }
                },
                None => {
                    return out;
                },
            }
        }
    }

    fn collect_field_expr(&mut self, e: ast::FieldExpr) -> (id: ExprId)
        requires
            old(self).inv(),
            e.wf(),
        ensures
            final(self).inv(),
            (final(self)@, id) == lower_field_expr(e.node().tree()@, e.node().index(), old(self)@),
            grown(old(self)@, final(self)@),
            old(self)@.exprs.len() <= id.0 < final(self)@.exprs.len(),
            first_made(
                old(self)@,
                final(self)@,
                id,
                LocalSyntaxPtr::of(e.node().tree()@, e.node().index()),
            ),
        decreases e.node().tree()@.len() - e.node().index(), 9int, 0nat,
    {
        let ghost nodes = e.node().tree()@;
        let ghost i = e.node().index();
        proof {
            e.lemma_wf();
        }
        let syntax_ptr = LocalSyntaxPtr::new(e.syntax());
        let id = self.alloc_expr(Expr::Missing, syntax_ptr);
        let inner = e.expr();
        let name_ref = e.name_ref();
        proof {
            lemma_found::<ast::Expr>(inner, e.node(), 0);
            lemma_found::<ast::NameRef>(name_ref, e.node(), 0);
        }
        let expr = self.collect_expr_opt(Ghost(nodes), Ghost(i), inner);
        let name = match name_ref {
            Some(nr) => Name::from_name_ref(nr),
            None => Name::missing(),
        };
        self.fill_expr(id, Expr::Field { expr, name }, syntax_ptr);
        id
    }

    fn collect_try(&mut self, e: ast::TryExpr) -> (id: ExprId)
        requires
            old(self).inv(),
            e.wf(),
        ensures
            final(self).inv(),
            (final(self)@, id) == lower_try(e.node().tree()@, e.node().index(), old(self)@),
            grown(old(self)@, final(self)@),
            old(self)@.exprs.len() <= id.0 < final(self)@.exprs.len(),
            first_made(
                old(self)@,
                final(self)@,
                id,
                LocalSyntaxPtr::of(e.node().tree()@, e.node().index()),
            ),
        decreases e.node().tree()@.len() - e.node().index(), 9int, 0nat,
    {
        let ghost nodes = e.node().tree()@;
        let ghost i = e.node().index();
        proof {
            e.lemma_wf();
        }
        let syntax_ptr = LocalSyntaxPtr::new(e.syntax());
        let id = self.alloc_expr(Expr::Missing, syntax_ptr);
        let inner = e.expr();
        proof {
            lemma_found::<ast::Expr>(inner, e.node(), 0);
        }
        let expr = self.collect_expr_opt(Ghost(nodes), Ghost(i), inner);
        self.fill_expr(id, Expr::Try { expr }, syntax_ptr);
        id
    }

    fn collect_cast(&mut self, e: ast::CastExpr) -> (id: ExprId)
        requires
            old(self).inv(),
            e.wf(),
        ensures
            final(self).inv(),
            (final(self)@, id) == lower_cast(e.node().tree()@, e.node().index(), old(self)@),
            grown(old(self)@, final(self)@),
            old(self)@.exprs.len() <= id.0 < final(self)@.exprs.len(),
            first_made(
                old(self)@,
                final(self)@,
                id,
                LocalSyntaxPtr::of(e.node().tree()@, e.node().index()),
            ),
        decreases e.node().tree()@.len() - e.node().index(), 9int, 0nat,
    {
        let ghost nodes = e.node().tree()@;
        let ghost i = e.node().index();
        proof {
            e.lemma_wf();
        }
        let syntax_ptr = LocalSyntaxPtr::new(e.syntax());
        let id = self.alloc_expr(Expr::Missing, syntax_ptr);
        let inner = e.expr();
        let ty = e.type_ref();
        proof {
            lemma_found::<ast::Expr>(inner, e.node(), 0);
            lemma_found::<ast::TypeRef>(ty, e.node(), 0);
        }
        let expr = self.collect_expr_opt(Ghost(nodes), Ghost(i), inner);
        let type_ref = TypeRef::from_ast_opt(ty);
        self.fill_expr(id, Expr::Cast { expr, type_ref }, syntax_ptr);
        id
    }

    fn collect_ref(&mut self, e: ast::RefExpr) -> (id: ExprId)
        requires
            old(self).inv(),
            e.wf(),
        ensures
            final(self).inv(),
            (final(self)@, id) == lower_ref(e.node().tree()@, e.node().index(), old(self)@),
            grown(old(self)@, final(self)@),
            old(self)@.exprs.len() <= id.0 < final(self)@.exprs.len(),
            first_made(
                old(self)@,
                final(self)@,
                id,
                LocalSyntaxPtr::of(e.node().tree()@, e.node().index()),
            ),
        decreases e.node().tree()@.len() - e.node().index(), 9int, 0nat,
    {
        let ghost nodes = e.node().tree()@;
        let ghost i = e.node().index();
        proof {
            e.lemma_wf();
        }
        let syntax_ptr = LocalSyntaxPtr::new(e.syntax());
        let id = self.alloc_expr(Expr::Missing, syntax_ptr);
        let inner = e.expr();
        proof {
            lemma_found::<ast::Expr>(inner, e.node(), 0);
        }
        let expr = self.collect_expr_opt(Ghost(nodes), Ghost(i), inner);
        let mutability = Mutability::from_mutable(e.is_mut());
        self.fill_expr(id, Expr::Ref { expr, mutability }, syntax_ptr);
        id
    }

    fn collect_prefix(&mut self, e: ast::PrefixExpr) -> (id: ExprId)
        requires
            old(self).inv(),
            e.wf(),
        ensures
            final(self).inv(),
            (final(self)@, id) == lower_prefix(e.node().tree()@, e.node().index(), old(self)@),
            grown(old(self)@, final(self)@),
            old(self)@.exprs.len() <= id.0 < final(self)@.exprs.len(),
            first_made(
                old(self)@,
                final(self)@,
                id,
                LocalSyntaxPtr::of(e.node().tree()@, e.node().index()),
            ),
        decreases e.node().tree()@.len() - e.node().index(), 9int, 0nat,
    {
        let ghost nodes = e.node().tree()@;
        let ghost i = e.node().index();
        proof {
            e.lemma_wf();
        }
        let syntax_ptr = LocalSyntaxPtr::new(e.syntax());
        let id = self.alloc_expr(Expr::Missing, syntax_ptr);
        let inner = e.expr();
        proof {
            lemma_found::<ast::Expr>(inner, e.node(), 0);
        }
        let expr = self.collect_expr_opt(Ghost(nodes), Ghost(i), inner);
        let op = e.op();
        self.fill_expr(id, Expr::UnaryOp { expr, op }, syntax_ptr);
        id
    }

    fn collect_lambda(&mut self, e: ast::LambdaExpr) -> (id: ExprId)
        requires
            old(self).inv(),
            e.wf(),
        ensures
            final(self).inv(),
            (final(self)@, id) == lower_lambda(e.node().tree()@, e.node().index(), old(self)@),
            grown(old(self)@, final(self)@),
            old(self)@.exprs.len() <= id.0 < final(self)@.exprs.len(),
            first_made(
                old(self)@,
                final(self)@,
                id,
                LocalSyntaxPtr::of(e.node().tree()@, e.node().index()),
            ),
        decreases e.node().tree()@.len() - e.node().index(), 9int, 0nat,
    {
        let ghost nodes = e.node().tree()@;
        let ghost i = e.node().index();
        proof {
            e.lemma_wf();
        }
        let syntax_ptr = LocalSyntaxPtr::new(e.syntax());
        let id = self.alloc_expr(Expr::Missing, syntax_ptr);
        let list = e.param_list();
        let body_syntax = e.body();
        proof {
            lemma_found::<ast::ParamList>(list, e.node(), 0);
            lemma_found::<ast::Expr>(body_syntax, e.node(), 0);
        }
        let (args, arg_types) = if let Some(pl) = list {
            self.collect_params(pl.params())
        } else {
            let a: Vec<PatId> = Vec::new();
            let t: Vec<Option<TypeRef>> = Vec::new();
            assert(type_views(t@) =~= Seq::empty());
            (a, t)
        };
        let body = self.collect_expr_opt(Ghost(nodes), Ghost(i), body_syntax);
        self.fill_expr(id, Expr::Lambda { args, arg_types, body }, syntax_ptr);
        id
    }

    fn collect_params<'a>(&mut self, children: AstChildren<'a, ast::Param<'a>>) -> (out: (
        Vec<PatId>,
        Vec<Option<TypeRef>>,
    ))
        requires
            old(self).inv(),
            children.wf(),
        ensures
            final(self).inv(),
            (final(self)@, out.0@, type_views(out.1@)) == lower_params(
                children.parent().tree()@,
                children.parent().index(),
                children.rest(),
                old(self)@,
                Seq::empty(),
                Seq::empty(),
            ),
            grown(old(self)@, final(self)@),
            pats_ok(out.0@, old(self)@.pats.len(), final(self)@.pats.len()),
        decreases children.parent().tree()@.len() - children.parent().index(), 4int, 0nat,
    {
        let ghost nodes = children.parent().tree()@;
        let ghost p = children.parent().index();
        let ghost all = children.rest();
        let mut it = children;
        let mut args: Vec<PatId> = Vec::new();
        let mut arg_types: Vec<Option<TypeRef>> = Vec::new();
        proof {
            lemma_kids_from::<ast::Param>(nodes, p, it.pos());
            assert(node_wf(nodes, p));
            assert(type_views(arg_types@) =~= Seq::empty());
        }
        loop
            invariant
                self.inv(),
                it.wf(),
                it.parent().tree()@ == nodes,
                it.parent().index() == p,
                nodes == children.parent().tree()@,
                p == children.parent().index(),
                all == children.rest(),
                0 <= p < nodes.len(),
                tree_wf(nodes),
                forall|k: int| 0 <= k < it.rest().len() ==> p < #[trigger] it.rest()[k] < nodes.len(),
                grown(old(self)@, self@),
                pats_ok(args@, old(self)@.pats.len(), self@.pats.len()),
                lower_params(
                    nodes,
                    p,
                    it.rest(),
                    self@,
                    args@,
                    type_views(arg_types@),
                ) == lower_params(nodes, p, all, old(self)@, Seq::empty(), Seq::empty()),
            decreases it.rest().len(),
        {
            let ghost before = it.rest();
            let ghost acc = type_views(arg_types@);
            match it.next() {
                Some(param) => {
                    proof {
                        param.lemma_wf();
                        assert(p < before[0] < nodes.len());
                        assert forall|k: int| 0 <= k < it.rest().len() implies p < #[trigger] it.rest()[k]
                            < nodes.len() by {
                            assert(it.rest()[k] == before[k + 1]);
                        }
                    }
                    let pat_syntax = param.pat();
                    let ty = param.type_ref();
                    proof {
                        lemma_found::<ast::Pat>(pat_syntax, param.node(), 0);
                        lemma_found::<ast::TypeRef>(ty, param.node(), 0);
                    }
                    let pat = self.collect_pat_opt(Ghost(nodes), Ghost(param.node().index()), pat_syntax);
                    let type_ref = match ty {
                        Some(t) => Some(TypeRef::from_ast(t)),
                        None => None,
                    };
                    let ghost view = opt_type_view(type_ref);
                    args.push(pat);
                    arg_types.push(type_ref);
                    proof {
                        assert(type_views(arg_types@) =~= acc.push(view));
                    }
                },
                None => {
                    return (args, arg_types);
                },
            }
        }
    }

    fn collect_bin(&mut self, e: ast::BinExpr) -> (id: ExprId)
        requires
            old(self).inv(),
            e.wf(),
        ensures
            final(self).inv(),
            (final(self)@, id) == lower_bin(e.node().tree()@, e.node().index(), old(self)@),
            grown(old(self)@, final(self)@),
            old(self)@.exprs.len() <= id.0 < final(self)@.exprs.len(),
            first_made(
                old(self)@,
                final(self)@,
                id,
                LocalSyntaxPtr::of(e.node().tree()@, e.node().index()),
            ),
        decreases e.node().tree()@.len() - e.node().index(), 9int, 0nat,
    {
        let ghost nodes = e.node().tree()@;
        let ghost i = e.node().index();
        proof {
            e.lemma_wf();
        }
        let syntax_ptr = LocalSyntaxPtr::new(e.syntax());
        let id = self.alloc_expr(Expr::Missing, syntax_ptr);
        let lhs_syntax = e.lhs();
        let rhs_syntax = e.rhs();
        proof {
            lemma_found::<ast::Expr>(lhs_syntax, e.node(), 0);
            lemma_found::<ast::Expr>(rhs_syntax, e.node(), 1);
        }
        let lhs = self.collect_expr_opt(Ghost(nodes), Ghost(i), lhs_syntax);
        let rhs = self.collect_expr_opt(Ghost(nodes), Ghost(i), rhs_syntax);
        let op = e.op();
        self.fill_expr(id, Expr::BinaryOp { lhs, rhs, op }, syntax_ptr);
        id
    }

    fn collect_stmt(&mut self, s: ast::Stmt) -> (stmt: Statement)
        requires
            old(self).inv(),
            s.wf(),
        ensures
            final(self).inv(),
            (final(self)@, stmt@) == lower_stmt(s.node().tree()@, s.node().index(), old(self)@),
            grown(old(self)@, final(self)@),
            stmt_ok(stmt@, old(self)@.exprs.len(), final(self)@.exprs.len(), final(self)@.pats.len()),
        decreases s.node().tree()@.len() - s.node().index(), 6int, 0nat,
    {
        let ghost nodes = s.node().tree()@;
        let ghost i = s.node().index();
        proof {
            s.lemma_wf();
        }
        match s {
            ast::Stmt::LetStmt(stmt) => {
                let pat_syntax = stmt.pat();
                let ty = stmt.type_ref();
                let init = stmt.initializer();
                proof {
                    lemma_found::<ast::Pat>(pat_syntax, stmt.node(), 0);
                    lemma_found::<ast::TypeRef>(ty, stmt.node(), 0);
                    lemma_found::<ast::Expr>(init, stmt.node(), 0);
                }
                let pat = self.collect_pat_opt(Ghost(nodes), Ghost(i), pat_syntax);
                let type_ref = match ty {
                    Some(t) => Some(TypeRef::from_ast(t)),
                    None => None,
                };
                let initializer = self.collect_expr_maybe(Ghost(nodes), Ghost(i), init);
                Statement::Let { pat, type_ref, initializer }
            },
            ast::Stmt::ExprStmt(stmt) => {
                let inner = stmt.expr();
                proof {
                    lemma_found::<ast::Expr>(inner, stmt.node(), 0);
                }
                Statement::Expr(self.collect_expr_opt(Ghost(nodes), Ghost(i), inner))
            },
        }
    }

    fn collect_stmts<'a>(&mut self, children: AstChildren<'a, ast::Stmt<'a>>) -> (out: Vec<Statement>)
        requires
            old(self).inv(),
            children.wf(),
        ensures
            final(self).inv(),
            (final(self)@, stmt_views(out@)) == lower_stmts(
                children.parent().tree()@,
                children.parent().index(),
                children.rest(),
                old(self)@,
                Seq::empty(),
            ),
            grown(old(self)@, final(self)@),
            forall|k: int|
                0 <= k < out@.len() ==> stmt_ok(
                    #[trigger] stmt_views(out@)[k],
                    old(self)@.exprs.len(),
                    final(self)@.exprs.len(),
                    final(self)@.pats.len(),
                ),
        decreases children.parent().tree()@.len() - children.parent().index(), 4int, 0nat,
    {
        let ghost nodes = children.parent().tree()@;
        let ghost p = children.parent().index();
        let ghost all = children.rest();
        let mut it = children;
        let mut out: Vec<Statement> = Vec::new();
        proof {
            lemma_kids_from::<ast::Stmt>(nodes, p, it.pos());
            assert(node_wf(nodes, p));
            assert(stmt_views(out@) =~= Seq::empty());
        }
        loop
            invariant
                self.inv(),
                it.wf(),
                it.parent().tree()@ == nodes,
                it.parent().index() == p,
                nodes == children.parent().tree()@,
                p == children.parent().index(),
                all == children.rest(),
                0 <= p < nodes.len(),
                forall|k: int| 0 <= k < it.rest().len() ==> p < #[trigger] it.rest()[k] < nodes.len(),
                grown(old(self)@, self@),
                forall|k: int|
                    0 <= k < out@.len() ==> stmt_ok(
                        #[trigger] stmt_views(out@)[k],
                        old(self)@.exprs.len(),
                        self@.exprs.len(),
                        self@.pats.len(),
                    ),
                lower_stmts(nodes, p, it.rest(), self@, stmt_views(out@)) == lower_stmts(
                    nodes,
                    p,
                    all,
                    old(self)@,
                    Seq::empty(),
                ),
            decreases it.rest().len(),
        {
            let ghost before = it.rest();
            let ghost st = self@;
            let ghost acc = stmt_views(out@);
            match it.next() {
                Some(c) => {
                    proof {
                        assert(p < before[0] < nodes.len());
                        assert forall|k: int| 0 <= k < it.rest().len() implies p < #[trigger] it.rest()[k]
                            < nodes.len() by {
                            assert(it.rest()[k] == before[k + 1]);
                        }
                    }
                    let stmt = self.collect_stmt(c);
                    let ghost view = stmt@;
                    out.push(stmt);
                    proof {
                        let now = stmt_views(out@);
                        assert(now =~= acc.push(view));
                        assert forall|k: int| 0 <= k < out@.len() implies stmt_ok(
                            #[trigger] now[k],
                            old(self)@.exprs.len(),
                            self@.exprs.len(),
                            self@.pats.len(),
                        ) by {
                            if k < acc.len() {
                                assert(now[k] == acc[k]);
                                assert(stmt_ok(acc[k], old(self)@.exprs.len(), st.exprs.len(), st.pats.len()));
                            }
                        }
                    }
                },
                None => {
                    return out;
                },
            }
        }
    }

    fn collect_fn_params<'a>(&mut self, children: AstChildren<'a, ast::Param<'a>>, args: Vec<PatId>) -> (out: Vec<
        PatId,
    >)
        requires
            old(self).inv(),
            children.wf(),
            pats_ok(args@, 0, old(self)@.pats.len()),
        ensures
            final(self).inv(),
            (final(self)@, out@) == lower_fn_params(
                children.parent().tree()@,
                children.parent().index(),
                children.rest(),
                old(self)@,
                args@,
            ),
            grown(old(self)@, final(self)@),
            pats_ok(out@, 0, final(self)@.pats.len()),
    {
        let ghost nodes = children.parent().tree()@;
        let ghost p = children.parent().index();
        let ghost all = children.rest();
        let mut it = children;
        let mut out = args;
        proof {
            lemma_kids_from::<ast::Param>(nodes, p, it.pos());
            assert(node_wf(nodes, p));
        }
        loop
            invariant
                self.inv(),
                it.wf(),
                it.parent().tree()@ == nodes,
                it.parent().index() == p,
                nodes == children.parent().tree()@,
                p == children.parent().index(),
                all == children.rest(),
                0 <= p < nodes.len(),
                forall|k: int| 0 <= k < it.rest().len() ==> p < #[trigger] it.rest()[k] < nodes.len(),
                grown(old(self)@, self@),
                pats_ok(out@, 0, self@.pats.len()),
                lower_fn_params(nodes, p, it.rest(), self@, out@) == lower_fn_params(
                    nodes,
                    p,
                    all,
                    old(self)@,
                    args@,
                ),
            decreases it.rest().len(),
        {
            let ghost before = it.rest();
            match it.next() {
                Some(param) => {
                    proof {
                        param.lemma_wf();
                        assert(p < before[0] < nodes.len());
                        assert forall|k: int| 0 <= k < it.rest().len() implies p < #[trigger] it.rest()[k]
                            < nodes.len() by {
                            assert(it.rest()[k] == before[k + 1]);
                        }
                    }
                    let pat_syntax = param.pat();
                    proof {
                        lemma_found::<ast::Pat>(pat_syntax, param.node(), 0);
                    }
                    let pat = if let Some(pat) = pat_syntax {
                        pat
                    } else {
                        continue ;
                    };
                    let id = self.collect_pat(pat);
                    out.push(id);
                },
                None => {
                    return out;
                },
            }
        }
    }

    /// The body with its maps, of what was made: with the given argument
    /// patterns and the given expression as the body.
    pub fn into_body_syntax_mapping(self, args: Vec<PatId>, body_expr: ExprId) -> (r: BodySyntaxMapping)
        requires
            self.inv(),
            pats_ok(args@, 0, self@.pats.len()),
            body_expr.0 < self@.exprs.len(),
        ensures
            r.wf(),
            r.lowering() == self@,
            r.spec_body()@.args == args@,
            r.spec_body()@.body_expr == body_expr,
    {
        BodySyntaxMapping::from_parts(
            self.exprs,
            self.pats,
            args,
            body_expr,
            self.expr_syntax_mapping,
            self.expr_syntax_mapping_back,
            self.pat_syntax_mapping,
            self.pat_syntax_mapping_back,
            self.fresh,
        )
    }
}

/// Lowers the body of a function: its argument patterns, the binding of
/// `self` first where the function has a `self` parameter, and its block.
/// Every function gives a body: what the syntax lacks is missing in it.
pub fn collect_fn_body_syntax(node: ast::FnDef) -> (r: BodySyntaxMapping)
    requires
        node.wf(),
    ensures
        r.wf(),
        (r.lowering(), r.spec_body()@.args, r.spec_body()@.body_expr) == lower_fn(
            node.node().tree()@,
            node.node().index(),
        ),
{
    let ghost nodes = node.node().tree()@;
    let ghost i = node.node().index();
    proof {
        node.lemma_wf();
    }
    let mut collector = ExprCollector::new();
    let list = node.param_list();
    let block = node.body();
    proof {
        lemma_found::<ast::ParamList>(list, node.node(), 0);
        lemma_found::<ast::Block>(block, node.node(), 0);
    }
    let args = if let Some(param_list) = list {
        proof {
            param_list.lemma_wf();
        }
        let mut args: Vec<PatId> = Vec::new();
        let sp = param_list.self_param();
        proof {
            lemma_found::<ast::SelfParam>(sp, param_list.node(), 0);
        }
        if let Some(self_param) = sp {
            proof {
                self_param.lemma_wf();
            }
            let kw = self_param.self_kw();
            proof {
                lemma_found::<ast::SelfKw>(kw, self_param.node(), 0);
            }
            let arg = match kw {
                Some(kw) => {
                    proof {
                        kw.lemma_wf();
                    }
                    let self_ptr = LocalSyntaxPtr::new(kw.syntax());
                    collector.alloc_pat(Pat::Bind { name: Name::self_param() }, self_ptr)
                },
                // a `self` parameter without its keyword: the binding has no pointer
                None => collector.alloc_pat_bare(Pat::Bind { name: Name::self_param() }),
            };
            args.push(arg);
            assert(args@ =~= seq![arg]);
        }
        collector.collect_fn_params(param_list.params(), args)
    } else {
        Vec::new()
    };
    let body = collector.collect_block_opt(Ghost(nodes), Ghost(i), block);
    collector.into_body_syntax_mapping(args, body)
}

} // verus!
