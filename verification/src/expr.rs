//! Expressions and patterns of a body: each holds its parts by their ids.

use vstd::prelude::*;
use crate::ast::{BinOp, PrefixOp};
use crate::path::{Path, PathView};
use crate::name::Name;
use crate::type_ref::{Mutability, TypeRef, TypeRefView};

verus! {

/// The place of an expression in the arena of its body.
#[derive(Debug, Clone, Copy, PartialEq, Eq, Structural, PartialOrd, Ord, Hash)]
pub struct ExprId(pub usize);

/// The place of a pattern in the arena of its body.
#[derive(Debug, Clone, Copy, PartialEq, Eq, Structural, PartialOrd, Ord, Hash)]
pub struct PatId(pub usize);

pub type UnaryOp = PrefixOp;

pub type BinaryOp = BinOp;

#[derive(Debug, Eq, PartialEq)]
pub enum Expr {
    /// This is produced if syntax tree does not have a required expression piece.
    Missing,
    Path(Path),
    If { condition: ExprId, then_branch: ExprId, else_branch: Option<ExprId> },
    Block { statements: Vec<Statement>, tail: Option<ExprId> },
    Loop { body: ExprId },
    While { condition: ExprId, body: ExprId },
    For { iterable: ExprId, pat: PatId, body: ExprId },
    Call { callee: ExprId, args: Vec<ExprId> },
    MethodCall { receiver: ExprId, method_name: Name, args: Vec<ExprId> },
    Match { expr: ExprId, arms: Vec<MatchArm> },
    Continue,
    Break { expr: Option<ExprId> },
    Return { expr: Option<ExprId> },
    StructLit { path: Option<Path>, fields: Vec<StructLitField>, spread: Option<ExprId> },
    Field { expr: ExprId, name: Name },
    Try { expr: ExprId },
    Cast { expr: ExprId, type_ref: TypeRef },
    Ref { expr: ExprId, mutability: Mutability },
    UnaryOp { expr: ExprId, op: Option<UnaryOp> },
    BinaryOp { lhs: ExprId, rhs: ExprId, op: Option<BinaryOp> },
    Lambda { args: Vec<PatId>, arg_types: Vec<Option<TypeRef>>, body: ExprId },
}

#[derive(Debug, Eq, PartialEq)]
pub struct MatchArm {
    pub pats: Vec<PatId>,
    pub expr: ExprId,
}

#[derive(Debug, Eq, PartialEq)]
pub struct StructLitField {
    pub name: Name,
    pub expr: ExprId,
}

#[derive(Debug, Eq, PartialEq)]
pub enum Statement {
    Let { pat: PatId, type_ref: Option<TypeRef>, initializer: Option<ExprId> },
    Expr(ExprId),
}

#[derive(Debug, Eq, PartialEq)]
pub enum Pat {
    Missing,
    Bind { name: Name },
    TupleStruct { path: Option<Path>, args: Vec<PatId> },
}

/// A match arm as a mathematical value.
pub struct MatchArmView {
    pub pats: Seq<PatId>,
    pub expr: ExprId,
}

/// A field of a struct literal as a mathematical value.
pub struct StructLitFieldView {
    pub name: Seq<char>,
    pub expr: ExprId,
}

/// A statement as a mathematical value.
pub enum StatementView {
    Let { pat: PatId, type_ref: Option<TypeRefView>, initializer: Option<ExprId> },
    Expr(ExprId),
}

/// An expression as a mathematical value.
pub enum ExprView {
    Missing,
    Path(PathView),
    If { condition: ExprId, then_branch: ExprId, else_branch: Option<ExprId> },
    Block { statements: Seq<StatementView>, tail: Option<ExprId> },
    Loop { body: ExprId },
    While { condition: ExprId, body: ExprId },
    For { iterable: ExprId, pat: PatId, body: ExprId },
    Call { callee: ExprId, args: Seq<ExprId> },
    MethodCall { receiver: ExprId, method_name: Seq<char>, args: Seq<ExprId> },
    Match { expr: ExprId, arms: Seq<MatchArmView> },
    Continue,
    Break { expr: Option<ExprId> },
    Return { expr: Option<ExprId> },
    StructLit { path: Option<PathView>, fields: Seq<StructLitFieldView>, spread: Option<ExprId> },
    Field { expr: ExprId, name: Seq<char> },
    Try { expr: ExprId },
    Cast { expr: ExprId, type_ref: TypeRefView },
    Ref { expr: ExprId, mutability: Mutability },
    UnaryOp { expr: ExprId, op: Option<UnaryOp> },
    BinaryOp { lhs: ExprId, rhs: ExprId, op: Option<BinaryOp> },
    Lambda { args: Seq<PatId>, arg_types: Seq<Option<TypeRefView>>, body: ExprId },
}

/// A pattern as a mathematical value.
pub enum PatView {
    Missing,
    Bind { name: Seq<char> },
    TupleStruct { path: Option<PathView>, args: Seq<PatId> },
}

/// The view of a type that may be missing.
pub open spec fn opt_type_view(t: Option<TypeRef>) -> Option<TypeRefView> {
    match t {
        Some(t) => Some(t@),
        None => None,
    }
}

/// The view of a path that may be missing.
pub open spec fn opt_path_view(p: Option<Path>) -> Option<PathView> {
    match p {
        Some(p) => Some(p@),
        None => None,
    }
}

/// The views of match arms.
pub open spec fn arm_views(v: Seq<MatchArm>) -> Seq<MatchArmView> {
    v.map_values(|a: MatchArm| a@)
}

/// The views of the fields of a struct literal.
pub open spec fn field_views(v: Seq<StructLitField>) -> Seq<StructLitFieldView> {
    v.map_values(|f: StructLitField| f@)
}

/// The views of statements.
pub open spec fn stmt_views(v: Seq<Statement>) -> Seq<StatementView> {
    v.map_values(|s: Statement| s@)
}

/// The views of types that may be missing.
pub open spec fn type_views(v: Seq<Option<TypeRef>>) -> Seq<Option<TypeRefView>> {
    v.map_values(|t: Option<TypeRef>| opt_type_view(t))
}

impl View for MatchArm {
    type V = MatchArmView;

    open spec fn view(&self) -> MatchArmView {
        MatchArmView { pats: self.pats@, expr: self.expr }
    }
}

impl View for StructLitField {
    type V = StructLitFieldView;

    open spec fn view(&self) -> StructLitFieldView {
        StructLitFieldView { name: self.name@, expr: self.expr }
    }
}

impl View for Statement {
    type V = StatementView;

    open spec fn view(&self) -> StatementView {
        match self {
            Statement::Let { pat, type_ref, initializer } => StatementView::Let {
                pat: *pat,
                type_ref: opt_type_view(*type_ref),
                initializer: *initializer,
            },
            Statement::Expr(e) => StatementView::Expr(*e),
        }
    }
}

impl View for Expr {
    type V = ExprView;

    open spec fn view(&self) -> ExprView {
        match self {
            Expr::Missing => ExprView::Missing,
            Expr::Path(p) => ExprView::Path(p@),
            Expr::If { condition, then_branch, else_branch } => ExprView::If {
                condition: *condition,
                then_branch: *then_branch,
                else_branch: *else_branch,
            },
            Expr::Block { statements, tail } => ExprView::Block {
                statements: stmt_views(statements@),
                tail: *tail,
            },
            Expr::Loop { body } => ExprView::Loop { body: *body },
            Expr::While { condition, body } => ExprView::While { condition: *condition, body: *body },
            Expr::For { iterable, pat, body } => ExprView::For { iterable: *iterable, pat: *pat, body: *body },
            Expr::Call { callee, args } => ExprView::Call { callee: *callee, args: args@ },
            Expr::MethodCall { receiver, method_name, args } => ExprView::MethodCall {
                receiver: *receiver,
                method_name: method_name@,
                args: args@,
            },
            Expr::Match { expr, arms } => ExprView::Match {
                expr: *expr,
                arms: arm_views(arms@),
            },
            Expr::Continue => ExprView::Continue,
            Expr::Break { expr } => ExprView::Break { expr: *expr },
            Expr::Return { expr } => ExprView::Return { expr: *expr },
            Expr::StructLit { path, fields, spread } => ExprView::StructLit {
                path: opt_path_view(*path),
                fields: field_views(fields@),
                spread: *spread,
            },
            Expr::Field { expr, name } => ExprView::Field { expr: *expr, name: name@ },
            Expr::Try { expr } => ExprView::Try { expr: *expr },
            Expr::Cast { expr, type_ref } => ExprView::Cast { expr: *expr, type_ref: type_ref@ },
            Expr::Ref { expr, mutability } => ExprView::Ref { expr: *expr, mutability: *mutability },
            Expr::UnaryOp { expr, op } => ExprView::UnaryOp { expr: *expr, op: *op },
            Expr::BinaryOp { lhs, rhs, op } => ExprView::BinaryOp { lhs: *lhs, rhs: *rhs, op: *op },
            Expr::Lambda { args, arg_types, body } => ExprView::Lambda {
                args: args@,
                arg_types: type_views(arg_types@),
                body: *body,
            },
        }
    }
}

impl View for Pat {
    type V = PatView;

    open spec fn view(&self) -> PatView {
        match self {
            Pat::Missing => PatView::Missing,
            Pat::Bind { name } => PatView::Bind { name: name@ },
            Pat::TupleStruct { path, args } => PatView::TupleStruct { path: opt_path_view(*path), args: args@ },
        }
    }
}

/// The expressions that a sequence of statements holds, in order: the
/// initializer of a `let`, where it has one, and each expression statement.
pub open spec fn stmt_exprs(stmts: Seq<StatementView>) -> Seq<ExprId>
    decreases stmts.len(),
{
    if stmts.len() == 0 {
        Seq::empty()
    } else {
        let rest = stmt_exprs(stmts.drop_last());
        match stmts.last() {
            StatementView::Let { initializer: Some(e), .. } => rest.push(e),
            StatementView::Let { initializer: None, .. } => rest,
            StatementView::Expr(e) => rest.push(e),
        }
    }
}

/// The one expression of an optional expression, or none.
pub open spec fn opt_expr(e: Option<ExprId>) -> Seq<ExprId> {
    match e {
        Some(e) => seq![e],
        None => Seq::empty(),
    }
}

impl ExprView {
    /// The expressions directly below this one, from left to right as the
    /// source has them: the condition before the branches, the callee or
    /// the receiver before the arguments.
    pub open spec fn child_exprs(self) -> Seq<ExprId> {
        match self {
            ExprView::Missing => Seq::empty(),
            ExprView::Path(_) => Seq::empty(),
            ExprView::If { condition, then_branch, else_branch } => seq![condition, then_branch] + opt_expr(
                else_branch,
            ),
            ExprView::Block { statements, tail } => stmt_exprs(statements) + opt_expr(tail),
            ExprView::Loop { body } => seq![body],
            ExprView::While { condition, body } => seq![condition, body],
            ExprView::For { iterable, body, .. } => seq![iterable, body],
            ExprView::Call { callee, args } => seq![callee] + args,
            ExprView::MethodCall { receiver, args, .. } => seq![receiver] + args,
            ExprView::Match { expr, arms } => seq![expr] + arms.map_values(|a: MatchArmView| a.expr),
            ExprView::Continue => Seq::empty(),
            ExprView::Break { expr } => opt_expr(expr),
            ExprView::Return { expr } => opt_expr(expr),
            ExprView::StructLit { fields, spread, .. } => fields.map_values(|f: StructLitFieldView| f.expr)
                + opt_expr(spread),
            ExprView::Lambda { body, .. } => seq![body],
            ExprView::BinaryOp { lhs, rhs, .. } => seq![lhs, rhs],
            ExprView::Field { expr, .. } => seq![expr],
            ExprView::Try { expr } => seq![expr],
            ExprView::Cast { expr, .. } => seq![expr],
            ExprView::Ref { expr, .. } => seq![expr],
            ExprView::UnaryOp { expr, .. } => seq![expr],
        }
    }
}

impl PatView {
    /// The patterns directly below this one, from left to right.
    pub open spec fn child_pats(self) -> Seq<PatId> {
        match self {
            PatView::Missing => Seq::empty(),
            PatView::Bind { .. } => Seq::empty(),
            PatView::TupleStruct { args, .. } => args,
        }
    }
}

fn push_all(out: &mut Vec<ExprId>, more: &Vec<ExprId>)
    ensures
        final(out)@ == old(out)@ + more@,
{
    let mut i: usize = 0;
    while i < more.len()
        invariant
            i <= more.len(),
            out@ == old(out)@ + more@.take(i as int),
        decreases more.len() - i,
    {
        out.push(more[i]);
        assert(more@.take(i + 1) =~= more@.take(i as int).push(more@[i as int]));
        assert(out@ =~= old(out)@ + more@.take(i + 1));
        i += 1;
    }
    assert(more@.take(more.len() as int) =~= more@);
}

fn push_opt(out: &mut Vec<ExprId>, e: &Option<ExprId>)
    ensures
        final(out)@ == old(out)@ + opt_expr(*e),
{
    if let Some(e) = e {
        out.push(*e);
        assert(out@ =~= old(out)@ + seq![*e]);
    } else {
        assert(out@ =~= old(out)@ + Seq::<ExprId>::empty());
    }
}

impl Expr {
    /// The expressions directly below this one, from left to right as the
    /// source has them.
    pub fn walk_child_exprs(&self) -> (r: Vec<ExprId>)
        ensures
            r@ == self@.child_exprs(),
    {
        let mut out: Vec<ExprId> = Vec::new();
        match self {
            Expr::Missing => {},
            Expr::Path(_) => {},
            Expr::If { condition, then_branch, else_branch } => {
                out.push(*condition);
                out.push(*then_branch);
                assert(out@ =~= seq![*condition, *then_branch]);
                push_opt(&mut out, else_branch);
            },
            Expr::Block { statements, tail } => {
                let ghost views = stmt_views(statements@);
                let mut i: usize = 0;
                while i < statements.len()
                    invariant
                        i <= statements.len(),
                        views == stmt_views(statements@),
                        out@ == stmt_exprs(views.take(i as int)),
                    decreases statements.len() - i,
                {
                    proof {
                        assert(views.take(i + 1).drop_last() =~= views.take(i as int));
                        assert(views.take(i + 1).last() == statements@[i as int]@);
                    }
                    match &statements[i] {
                        Statement::Let { initializer, .. } => {
                            if let Some(expr) = initializer {
                                out.push(*expr);
                            }
                        },
                        Statement::Expr(e) => {
                            out.push(*e);
                        },
                    }
                    i += 1;
                }
                assert(views.take(statements.len() as int) =~= views);
                push_opt(&mut out, tail);
            },
            Expr::Loop { body } => {
                out.push(*body);
                assert(out@ =~= seq![*body]);
            },
            Expr::While { condition, body } => {
                out.push(*condition);
                out.push(*body);
                assert(out@ =~= seq![*condition, *body]);
            },
            Expr::For { iterable, body, .. } => {
                out.push(*iterable);
                out.push(*body);
                assert(out@ =~= seq![*iterable, *body]);
            },
            Expr::Call { callee, args } => {
                out.push(*callee);
                assert(out@ =~= seq![*callee]);
                push_all(&mut out, args);
            },
            Expr::MethodCall { receiver, args, .. } => {
                out.push(*receiver);
                assert(out@ =~= seq![*receiver]);
                push_all(&mut out, args);
            },
            Expr::Match { expr, arms } => {
                out.push(*expr);
                let ghost views = arm_views(arms@).map_values(|a: MatchArmView| a.expr);
                let mut i: usize = 0;
                while i < arms.len()
                    invariant
                        i <= arms.len(),
                        views == arm_views(arms@).map_values(|a: MatchArmView| a.expr),
                        out@ == seq![*expr] + views.take(i as int),
                    decreases arms.len() - i,
                {
                    out.push(arms[i].expr);
                    assert(out@ =~= seq![*expr] + views.take(i + 1));
                    i += 1;
                }
                assert(views.take(arms.len() as int) =~= views);
            },
            Expr::Continue => {},
            Expr::Break { expr } => {
                push_opt(&mut out, expr);
                assert(out@ =~= opt_expr(*expr));
            },
            Expr::Return { expr } => {
                push_opt(&mut out, expr);
                assert(out@ =~= opt_expr(*expr));
            },
            Expr::StructLit { fields, spread, .. } => {
                let ghost views = field_views(fields@).map_values(
                    |f: StructLitFieldView| f.expr,
                );
                let mut i: usize = 0;
                while i < fields.len()
                    invariant
                        i <= fields.len(),
                        views == field_views(fields@).map_values(
                            |f: StructLitFieldView| f.expr,
                        ),
                        out@ == views.take(i as int),
                    decreases fields.len() - i,
                {
                    out.push(fields[i].expr);
                    assert(out@ =~= views.take(i + 1));
                    i += 1;
                }
                assert(views.take(fields.len() as int) =~= views);
                push_opt(&mut out, spread);
            },
            Expr::Lambda { body, .. } => {
                out.push(*body);
                assert(out@ =~= seq![*body]);
            },
            Expr::BinaryOp { lhs, rhs, .. } => {
                out.push(*lhs);
                out.push(*rhs);
                assert(out@ =~= seq![*lhs, *rhs]);
            },
            Expr::Field { expr, .. } => {
                out.push(*expr);
                assert(out@ =~= seq![*expr]);
            },
            Expr::Try { expr } => {
                out.push(*expr);
                assert(out@ =~= seq![*expr]);
            },
            Expr::Cast { expr, .. } => {
                out.push(*expr);
                assert(out@ =~= seq![*expr]);
            },
            Expr::Ref { expr, .. } => {
                out.push(*expr);
                assert(out@ =~= seq![*expr]);
            },
            Expr::UnaryOp { expr, .. } => {
                out.push(*expr);
                assert(out@ =~= seq![*expr]);
            },
        }
        out
    }
}

impl Pat {
    /// The patterns directly below this one, from left to right.
    pub fn walk_child_pats(&self) -> (r: Vec<PatId>)
        ensures
            r@ == self@.child_pats(),
    {
        let mut out: Vec<PatId> = Vec::new();
        match self {
            Pat::Missing => {},
            Pat::Bind { .. } => {},
            Pat::TupleStruct { args, .. } => {
                let mut i: usize = 0;
                while i < args.len()
                    invariant
                        i <= args.len(),
                        out@ == args@.take(i as int),
                    decreases args.len() - i,
                {
                    out.push(args[i]);
                    assert(out@ =~= args@.take(i + 1));
                    i += 1;
                }
                assert(args@.take(args.len() as int) =~= args@);
            },
        }
        out
    }
}

} // verus!
