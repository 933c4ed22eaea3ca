//! Bodies of items, with the maps between their syntax and their ids.

use vstd::prelude::*;
use crate::ast::AstNode;
use std::sync::Arc;
use crate::ast;
use crate::expr::{Expr, ExprId, ExprView, Pat, PatId, PatView};
use crate::lower::{expr_ok, lv_inv, pat_ok, pats_ok};
use crate::lower_spec::LoweringView;
use crate::ptr_map::PtrMap;
use crate::syntax_ptr::LocalSyntaxPtr;

verus! {

/// The body of an item (function, const etc.).
#[derive(Debug, Eq, PartialEq)]
pub struct Body {
    exprs: Vec<Expr>,
    pats: Vec<Pat>,
    /// The patterns for the function's arguments. While the argument types are
    /// part of the function signature, the patterns are not (they don't change
    /// the external type of the function).
    ///
    /// If this `Body` is for the body of a constant, this will just be
    /// empty.
    args: Vec<PatId>,
    /// The `ExprId` of the actual body expression.
    body_expr: ExprId,
}

/// A body as a mathematical value.
pub struct BodyView {
    pub exprs: Seq<ExprView>,
    pub pats: Seq<PatView>,
    pub args: Seq<PatId>,
    pub body_expr: ExprId,
}

/// Every id that the body holds is a valid index into its arenas, and an
/// expression or a pattern holds ids of later ones only: nothing holds itself.
pub open spec fn body_wf(b: BodyView) -> bool {
    &&& forall|k: int|
        0 <= k < b.exprs.len() ==> expr_ok(#[trigger] b.exprs[k], (k + 1) as nat, b.exprs.len(), b.pats.len())
    &&& forall|k: int| 0 <= k < b.pats.len() ==> pat_ok(#[trigger] b.pats[k], (k + 1) as nat, b.pats.len())
    &&& pats_ok(b.args, 0, b.pats.len())
    &&& b.body_expr.0 < b.exprs.len()
}

impl View for Body {
    type V = BodyView;

    closed spec fn view(&self) -> BodyView {
        BodyView {
            exprs: self.exprs@.map_values(|e: Expr| e@),
            pats: self.pats@.map_values(|p: Pat| p@),
            args: self.args@,
            body_expr: self.body_expr,
        }
    }
}

impl Body {
    pub open spec fn wf(&self) -> bool {
        body_wf(self@)
    }

    pub fn args(&self) -> (r: &[PatId])
        ensures
            r@ == self@.args,
    {
        self.args.as_slice()
    }

    pub fn body_expr(&self) -> (r: ExprId)
        ensures
            r == self@.body_expr,
    {
        self.body_expr
    }

    /// The expression with the given id.
    pub fn expr(&self, expr: ExprId) -> (r: &Expr)
        requires
            expr.0 < self@.exprs.len(),
        ensures
            r@ == self@.exprs[expr.0 as int],
    {
        &self.exprs[expr.0]
    }

    /// The pattern with the given id.
    pub fn pat(&self, pat: PatId) -> (r: &Pat)
        requires
            pat.0 < self@.pats.len(),
        ensures
            r@ == self@.pats[pat.0 as int],
    {
        &self.pats[pat.0]
    }

    /// The number of expressions in the arena.
    pub fn expr_count(&self) -> (r: usize)
        ensures
            r == self@.exprs.len(),
    {
        self.exprs.len()
    }

    /// The number of patterns in the arena.
    pub fn pat_count(&self) -> (r: usize)
        ensures
            r == self@.pats.len(),
    {
        self.pats.len()
    }
}

/// An item body together with the mapping from syntax nodes to HIR expression
/// IDs. This is needed to go from e.g. a position in a file to the HIR
/// expression containing it; but for type inference etc., we want to operate on
/// a structure that is agnostic to the actual positions of expressions in the
/// file, so that we don't recompute the type inference whenever some whitespace
/// is typed.
#[derive(Debug, Eq, PartialEq)]
pub struct BodySyntaxMapping {
    body: Arc<Body>,
    expr_syntax_mapping: PtrMap<ExprId>,
    expr_syntax_mapping_back: Vec<Option<LocalSyntaxPtr>>,
    pat_syntax_mapping: PtrMap<PatId>,
    pat_syntax_mapping_back: Vec<Option<LocalSyntaxPtr>>,
    fresh: bool,
}

impl BodySyntaxMapping {
    /// The body.
    pub closed spec fn spec_body(&self) -> Body {
        *self.body
    }

    /// The arenas of the body and the maps between pointers and ids.
    pub closed spec fn lowering(&self) -> LoweringView {
        LoweringView {
            exprs: self.spec_body()@.exprs,
            pats: self.spec_body()@.pats,
            expr_map: self.expr_syntax_mapping@,
            expr_back: self.expr_syntax_mapping_back@,
            pat_map: self.pat_syntax_mapping@,
            pat_back: self.pat_syntax_mapping_back@,
            fresh: self.fresh,
        }
    }

    /// The body holds valid ids only, and so do the maps.
    pub open spec fn wf(&self) -> bool {
        &&& self.spec_body().wf()
        &&& lv_inv(self.lowering())
        &&& self.lowering().exprs == self.spec_body()@.exprs
        &&& self.lowering().pats == self.spec_body()@.pats
    }

    /// The pointer of the syntax that expression `expr` was made from.
    pub open spec fn spec_expr_syntax(&self, expr: ExprId) -> Option<LocalSyntaxPtr> {
        if expr.0 < self.lowering().expr_back.len() {
            self.lowering().expr_back[expr.0 as int]
        } else {
            None
        }
    }

    /// The expression that the syntax at `ptr` leads to.
    pub open spec fn spec_syntax_expr(&self, ptr: LocalSyntaxPtr) -> Option<ExprId> {
        if self.lowering().expr_map.contains_key(ptr) {
            Some(self.lowering().expr_map[ptr])
        } else {
            None
        }
    }

    /// The pointer of the syntax that pattern `pat` was made from.
    pub open spec fn spec_pat_syntax(&self, pat: PatId) -> Option<LocalSyntaxPtr> {
        if pat.0 < self.lowering().pat_back.len() {
            self.lowering().pat_back[pat.0 as int]
        } else {
            None
        }
    }

    /// The pattern that the syntax at `ptr` leads to.
    pub open spec fn spec_syntax_pat(&self, ptr: LocalSyntaxPtr) -> Option<PatId> {
        if self.lowering().pat_map.contains_key(ptr) {
            Some(self.lowering().pat_map[ptr])
        } else {
            None
        }
    }

    /// Puts together what a lowering has made.
    pub(crate) fn from_parts(
        exprs: Vec<Expr>,
        pats: Vec<Pat>,
        args: Vec<PatId>,
        body_expr: ExprId,
        expr_syntax_mapping: PtrMap<ExprId>,
        expr_syntax_mapping_back: Vec<Option<LocalSyntaxPtr>>,
        pat_syntax_mapping: PtrMap<PatId>,
        pat_syntax_mapping_back: Vec<Option<LocalSyntaxPtr>>,
        fresh: bool,
    ) -> (r: BodySyntaxMapping)
        requires
            lv_inv(
                LoweringView {
                    exprs: exprs@.map_values(|e: Expr| e@),
                    pats: pats@.map_values(|p: Pat| p@),
                    expr_map: expr_syntax_mapping@,
                    expr_back: expr_syntax_mapping_back@,
                    pat_map: pat_syntax_mapping@,
                    pat_back: pat_syntax_mapping_back@,
                    fresh,
                },
            ),
            pats_ok(args@, 0, pats@.len()),
            body_expr.0 < exprs@.len(),
        ensures
            r.wf(),
            r.lowering() == (LoweringView {
                exprs: exprs@.map_values(|e: Expr| e@),
                pats: pats@.map_values(|p: Pat| p@),
                expr_map: expr_syntax_mapping@,
                expr_back: expr_syntax_mapping_back@,
                pat_map: pat_syntax_mapping@,
                pat_back: pat_syntax_mapping_back@,
                fresh,
            }),
            r.spec_body()@.args == args@,
            r.spec_body()@.body_expr == body_expr,
    {
        let body = Body { exprs, pats, args, body_expr };
        BodySyntaxMapping {
            body: Arc::new(body),
            expr_syntax_mapping,
            expr_syntax_mapping_back,
            pat_syntax_mapping,
            pat_syntax_mapping_back,
            fresh,
        }
    }

    /// Tells whether the lowering entered no pointer twice: then no two
    /// expressions and no two patterns have one pointer, and the pointer of
    /// each leads back to it.
    pub fn is_fresh(&self) -> (r: bool)
        ensures
            r == self.lowering().fresh,
    {
        self.fresh
    }

    pub fn expr_syntax(&self, expr: ExprId) -> (r: Option<LocalSyntaxPtr>)
        ensures
            r == self.spec_expr_syntax(expr),
    {
        if expr.0 < self.expr_syntax_mapping_back.len() {
            self.expr_syntax_mapping_back[expr.0]
        } else {
            None
        }
    }

    pub fn syntax_expr(&self, ptr: LocalSyntaxPtr) -> (r: Option<ExprId>)
        ensures
            r == self.spec_syntax_expr(ptr),
    {
        match self.expr_syntax_mapping.get(ptr) {
            Some(id) => Some(*id),
            None => None,
        }
    }

    pub fn node_expr(&self, node: ast::Expr) -> (r: Option<ExprId>)
        requires
            node.wf(),
        ensures
            r == self.spec_syntax_expr(LocalSyntaxPtr::of(node.node().tree()@, node.node().index())),
    {
        self.syntax_expr(LocalSyntaxPtr::new(node.syntax()))
    }

    pub fn pat_syntax(&self, pat: PatId) -> (r: Option<LocalSyntaxPtr>)
        ensures
            r == self.spec_pat_syntax(pat),
    {
        if pat.0 < self.pat_syntax_mapping_back.len() {
            self.pat_syntax_mapping_back[pat.0]
        } else {
            None
        }
    }

    pub fn syntax_pat(&self, ptr: LocalSyntaxPtr) -> (r: Option<PatId>)
        ensures
            r == self.spec_syntax_pat(ptr),
    {
        match self.pat_syntax_mapping.get(ptr) {
            Some(id) => Some(*id),
            None => None,
        }
    }

    pub fn node_pat(&self, node: ast::Pat) -> (r: Option<PatId>)
        requires
            node.wf(),
        ensures
            r == self.spec_syntax_pat(LocalSyntaxPtr::of(node.node().tree()@, node.node().index())),
    {
        self.syntax_pat(LocalSyntaxPtr::new(node.syntax()))
    }

    pub fn body(&self) -> (r: &Arc<Body>)
        ensures
            **r == self.spec_body(),
    {
        &self.body
    }
}

/// No two expressions of the lowering have one pointer.
pub open spec fn expr_pointers_distinct(st: LoweringView) -> bool {
    forall|i: int, j: int|
        0 <= i < st.expr_back.len() && 0 <= j < st.expr_back.len() && i != j && (#[trigger] st.expr_back[i]) is Some
            ==> st.expr_back[i] != #[trigger] st.expr_back[j]
}

/// No two patterns of the lowering have one pointer.
pub open spec fn pat_pointers_distinct(st: LoweringView) -> bool {
    forall|i: int, j: int|
        0 <= i < st.pat_back.len() && 0 <= j < st.pat_back.len() && i != j && (#[trigger] st.pat_back[i]) is Some
            ==> st.pat_back[i] != #[trigger] st.pat_back[j]
}

/// The pointer that an expression was made from leads back to that
/// expression, where no other expression was made from syntax with the
/// same range and kind.
pub proof fn lemma_expr_round_trip(m: BodySyntaxMapping, expr: ExprId, ptr: LocalSyntaxPtr)
    requires
        m.wf(),
        expr_pointers_distinct(m.lowering()),
        m.spec_expr_syntax(expr) == Some(ptr),
    ensures
        m.spec_syntax_expr(ptr) == Some(expr),
{
    let st = m.lowering();
    assert(st.expr_back[expr.0 as int] == Some(ptr));
    assert(st.expr_map.contains_key(ptr));
    let found = st.expr_map[ptr];
    assert(st.expr_back[found.0 as int] == Some(ptr));
    if found.0 != expr.0 {
        assert(st.expr_back[expr.0 as int] != st.expr_back[found.0 as int]);
    }
}

/// The pointer that a pattern was made from leads back to that pattern,
/// where no other pattern was made from syntax with the same range and kind.
pub proof fn lemma_pat_round_trip(m: BodySyntaxMapping, pat: PatId, ptr: LocalSyntaxPtr)
    requires
        m.wf(),
        pat_pointers_distinct(m.lowering()),
        m.spec_pat_syntax(pat) == Some(ptr),
    ensures
        m.spec_syntax_pat(ptr) == Some(pat),
{
    let st = m.lowering();
    assert(st.pat_back[pat.0 as int] == Some(ptr));
    assert(st.pat_map.contains_key(ptr));
    let found = st.pat_map[ptr];
    assert(st.pat_back[found.0 as int] == Some(ptr));
    if found.0 != pat.0 {
        assert(st.pat_back[pat.0 as int] != st.pat_back[found.0 as int]);
    }
}

/// The arenas of a body are no longer than a machine can count.
proof fn lemma_lens_fit(m: BodySyntaxMapping)
    ensures
        m.lowering().expr_back.len() <= usize::MAX,
        m.lowering().pat_back.len() <= usize::MAX,
{
    vstd::std_specs::vec::axiom_spec_len(&m.expr_syntax_mapping_back);
    vstd::std_specs::vec::axiom_spec_len(&m.pat_syntax_mapping_back);
}

/// The pointer of every expression leads back to the expression.
pub open spec fn exprs_round_trip(m: BodySyntaxMapping) -> bool {
    forall|e: ExprId| (#[trigger] m.spec_expr_syntax(e)) matches Some(p) ==> m.spec_syntax_expr(p) == Some(e)
}

/// The pointer of every pattern leads back to the pattern.
pub open spec fn pats_round_trip(m: BodySyntaxMapping) -> bool {
    forall|q: PatId| (#[trigger] m.spec_pat_syntax(q)) matches Some(p) ==> m.spec_syntax_pat(p) == Some(q)
}

/// The pointers of all expressions lead back to them exactly where no
/// two expressions have one pointer.
pub proof fn lemma_expr_round_trip_exactly(m: BodySyntaxMapping)
    requires
        m.wf(),
    ensures
        exprs_round_trip(m) == expr_pointers_distinct(m.lowering()),
{
    let st = m.lowering();
    lemma_lens_fit(m);
    if expr_pointers_distinct(st) {
        assert forall|e: ExprId| (#[trigger] m.spec_expr_syntax(e)) is Some implies m.spec_syntax_expr(
            m.spec_expr_syntax(e).unwrap(),
        ) == Some(e) by {
            lemma_expr_round_trip(m, e, m.spec_expr_syntax(e).unwrap());
        }
    }
    if exprs_round_trip(m) {
        assert forall|i: int, j: int|
            0 <= i < st.expr_back.len() && 0 <= j < st.expr_back.len() && i != j && (
            #[trigger] st.expr_back[i]) is Some implies st.expr_back[i] != #[trigger] st.expr_back[j] by {
            let p = st.expr_back[i].unwrap();
            assert(m.spec_expr_syntax(ExprId(i as usize)) == Some(p));
            if st.expr_back[j] == Some(p) {
                assert(m.spec_expr_syntax(ExprId(j as usize)) == Some(p));
            }
        }
    }
}

/// The pointers of all patterns lead back to them exactly where no two
/// patterns have one pointer.
pub proof fn lemma_pat_round_trip_exactly(m: BodySyntaxMapping)
    requires
        m.wf(),
    ensures
        pats_round_trip(m) == pat_pointers_distinct(m.lowering()),
{
    let st = m.lowering();
    lemma_lens_fit(m);
    if pat_pointers_distinct(st) {
        assert forall|q: PatId| (#[trigger] m.spec_pat_syntax(q)) is Some implies m.spec_syntax_pat(
            m.spec_pat_syntax(q).unwrap(),
        ) == Some(q) by {
            lemma_pat_round_trip(m, q, m.spec_pat_syntax(q).unwrap());
        }
    }
    if pats_round_trip(m) {
        assert forall|i: int, j: int|
            0 <= i < st.pat_back.len() && 0 <= j < st.pat_back.len() && i != j && (#[trigger] st.pat_back[i]) is Some implies st.pat_back[i]
            != #[trigger] st.pat_back[j] by {
            let p = st.pat_back[i].unwrap();
            assert(m.spec_pat_syntax(PatId(i as usize)) == Some(p));
            if st.pat_back[j] == Some(p) {
                assert(m.spec_pat_syntax(PatId(j as usize)) == Some(p));
            }
        }
    }
}

/// Where the lowering entered no pointer twice, no two expressions and
/// no two patterns have one pointer.
pub proof fn lemma_fresh_pointers_distinct(m: BodySyntaxMapping)
    requires
        m.wf(),
        m.lowering().fresh,
    ensures
        expr_pointers_distinct(m.lowering()),
        pat_pointers_distinct(m.lowering()),
{
    let st = m.lowering();
    lemma_lens_fit(m);
    assert forall|i: int, j: int|
        0 <= i < st.expr_back.len() && 0 <= j < st.expr_back.len() && i != j && (#[trigger] st.expr_back[i]) is Some implies st.expr_back[i]
        != #[trigger] st.expr_back[j] by {
        let p = st.expr_back[i].unwrap();
        assert(st.expr_map[p] == ExprId(i as usize));
        if st.expr_back[j] == Some(p) {
            assert(st.expr_map[p] == ExprId(j as usize));
        }
    }
    assert forall|i: int, j: int|
        0 <= i < st.pat_back.len() && 0 <= j < st.pat_back.len() && i != j && (#[trigger] st.pat_back[i]) is Some implies st.pat_back[i]
        != #[trigger] st.pat_back[j] by {
        let p = st.pat_back[i].unwrap();
        assert(st.pat_map[p] == PatId(i as usize));
        if st.pat_back[j] == Some(p) {
            assert(st.pat_map[p] == PatId(j as usize));
        }
    }
}

/// The expression that a pointer leads to has that pointer, unless the
/// pointer is that of parentheses, which leads to what stands inside.
pub proof fn lemma_syntax_expr_leads_back(m: BodySyntaxMapping, ptr: LocalSyntaxPtr, expr: ExprId)
    requires
        m.wf(),
        m.spec_syntax_expr(ptr) == Some(expr),
        ptr.kind != crate::syntax_kind::SyntaxKind::PAREN_EXPR,
    ensures
        m.spec_expr_syntax(expr) == Some(ptr),
{
    assert(m.lowering().expr_map.contains_key(ptr));
}

/// The pattern that a pointer leads to has that pointer.
pub proof fn lemma_syntax_pat_leads_back(m: BodySyntaxMapping, ptr: LocalSyntaxPtr, pat: PatId)
    requires
        m.wf(),
        m.spec_syntax_pat(ptr) == Some(pat),
    ensures
        m.spec_pat_syntax(pat) == Some(ptr),
{
    assert(m.lowering().pat_map.contains_key(ptr));
}

/// The pointer of an expression or a pattern leads to an expression or a
/// pattern with that pointer.
pub proof fn lemma_pointers_are_entered(m: BodySyntaxMapping, ptr: LocalSyntaxPtr)
    requires
        m.wf(),
    ensures
        forall|e: ExprId| #[trigger]
            m.spec_expr_syntax(e) == Some(ptr) ==> (m.spec_syntax_expr(ptr) matches Some(found)
                && m.spec_expr_syntax(found) == Some(ptr)),
        forall|q: PatId| #[trigger]
            m.spec_pat_syntax(q) == Some(ptr) ==> (m.spec_syntax_pat(ptr) matches Some(found) && m.spec_pat_syntax(
                found,
            ) == Some(ptr)),
{
    let st = m.lowering();
    assert forall|e: ExprId| #[trigger] m.spec_expr_syntax(e) == Some(ptr) implies (m.spec_syntax_expr(
        ptr,
    ) matches Some(found) && m.spec_expr_syntax(found) == Some(ptr)) by {
        assert(st.expr_back[e.0 as int] == Some(ptr));
        assert(st.expr_map.contains_key(ptr));
    }
    assert forall|q: PatId| #[trigger] m.spec_pat_syntax(q) == Some(ptr) implies (m.spec_syntax_pat(
        ptr,
    ) matches Some(found) && m.spec_pat_syntax(found) == Some(ptr)) by {
        assert(st.pat_back[q.0 as int] == Some(ptr));
        assert(st.pat_map.contains_key(ptr));
    }
}

/// Every id that a pointer leads to is a valid index into the arenas of the body.
pub proof fn lemma_maps_lead_to_ids(m: BodySyntaxMapping, ptr: LocalSyntaxPtr)
    requires
        m.wf(),
    ensures
        m.spec_syntax_expr(ptr) matches Some(id) ==> id.0 < m.spec_body()@.exprs.len(),
        m.spec_syntax_pat(ptr) matches Some(id) ==> id.0 < m.spec_body()@.pats.len(),
{
}

} // verus!
