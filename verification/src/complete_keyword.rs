//! The keywords that a completion request is answered with.

use vstd::prelude::*;
use crate::ast;
use crate::ast::{AstNode, LoopBodyOwner, kids, nth_kid};
use crate::completion::{CompletionContext, CompletionItem, CompletionItemKind, CompletionItemView, CompletionKind, Completions};
use crate::syntax::{NodeView, SyntaxNodeRef, node_wf};
use crate::syntax_kind::SyntaxKind;
use crate::text_range::TextRange;

verus! {

/// A keyword that is looked up by its own text and inserted as it is.
pub open spec fn plain_keyword(kw: Seq<char>) -> CompletionItemView {
    CompletionItemView {
        completion_kind: CompletionKind::Keyword,
        label: kw,
        lookup: Some(kw),
        snippet: None,
        kind: Some(CompletionItemKind::Keyword),
    }
}

/// A keyword that is inserted as the snippet `snippet`.
pub open spec fn spec_keyword(kw: Seq<char>, snippet: Seq<char>) -> CompletionItemView {
    CompletionItemView {
        completion_kind: CompletionKind::Keyword,
        label: kw,
        lookup: None,
        snippet: Some(snippet),
        kind: Some(CompletionItemKind::Keyword),
    }
}

/// The keywords offered in a `use` item: `crate`, `self` and `super` at
/// the start of the path, `self` and `super` after a prefix, and nothing
/// outside a `use` item.
pub open spec fn use_tree_keywords(in_use_item: bool, has_prefix: bool) -> Seq<CompletionItemView> {
    if in_use_item && !has_prefix {
        seq![
            CompletionItemView { snippet: Some("crate::"@), ..plain_keyword("crate"@) },
            plain_keyword("self"@),
            plain_keyword("super"@),
        ]
    } else if in_use_item {
        seq![plain_keyword("self"@), plain_keyword("super"@)]
    } else {
        Seq::empty()
    }
}

pub fn complete_use_tree_keyword(acc: &mut Completions, ctx: &CompletionContext)
    ensures
        final(acc)@ == old(acc)@ + use_tree_keywords(ctx.use_item_syntax.is_some(), ctx.path_prefix.is_some()),
{
    // complete keyword "crate" in use stmt
    match (ctx.use_item_syntax.as_ref(), ctx.path_prefix.as_ref()) {
        (Some(_), None) => {
            CompletionItem::new(CompletionKind::Keyword, "crate").kind(CompletionItemKind::Keyword).lookup_by(
                "crate",
            ).snippet("crate::").add_to(acc);
            CompletionItem::new(CompletionKind::Keyword, "self").kind(CompletionItemKind::Keyword).lookup_by(
                "self",
            ).add_to(acc);
            CompletionItem::new(CompletionKind::Keyword, "super").kind(CompletionItemKind::Keyword).lookup_by(
                "super",
            ).add_to(acc);
            assert(acc@ =~= old(acc)@ + use_tree_keywords(true, false));
        },
        (Some(_), Some(_)) => {
            CompletionItem::new(CompletionKind::Keyword, "self").kind(CompletionItemKind::Keyword).lookup_by(
                "self",
            ).add_to(acc);
            CompletionItem::new(CompletionKind::Keyword, "super").kind(CompletionItemKind::Keyword).lookup_by(
                "super",
            ).add_to(acc);
            assert(acc@ =~= old(acc)@ + use_tree_keywords(true, true));
        },
        _ => {
            assert(acc@ =~= old(acc)@ + Seq::<CompletionItemView>::empty());
        },
    }
}

pub fn keyword(kw: &str, snippet: &str) -> (r: CompletionItem)
    ensures
        r@ == spec_keyword(kw@, snippet@),
{
    CompletionItem::new(CompletionKind::Keyword, kw).kind(CompletionItemKind::Keyword).snippet(snippet).build()
}

/// The kind is that of a function or a lambda: control flow does not
/// cross such a node.
pub open spec fn is_boundary(kind: SyntaxKind) -> bool {
    kind == SyntaxKind::FN_DEF || kind == SyntaxKind::LAMBDA_EXPR
}

/// The kind is that of a `for`, a `while` or a `loop`.
pub open spec fn is_loop(kind: SyntaxKind) -> bool {
    kind == SyntaxKind::FOR_EXPR || kind == SyntaxKind::WHILE_EXPR || kind == SyntaxKind::LOOP_EXPR
}

/// Node `n` is a loop whose body covers `range`.
pub open spec fn loop_body_covers(nodes: Seq<NodeView>, n: int, range: TextRange) -> bool {
    is_loop(nodes[n].kind) && (nth_kid::<ast::Block>(nodes, n, 0) matches Some(b) && range.spec_is_subrange(
        &nodes[b].range,
    ))
}

/// Node `n`, or one of the nodes above it up to the nearest function or
/// lambda, is a loop whose body covers `range`.
pub open spec fn in_loop_body(nodes: Seq<NodeView>, range: TextRange, n: int) -> bool
    decreases n,
{
    if is_boundary(nodes[n].kind) {
        false
    } else if loop_body_covers(nodes, n, range) {
        true
    } else {
        match nodes[n].parent {
            Some(p) => if 0 <= p < n {
                in_loop_body(nodes, range, p)
            } else {
                false
            },
            None => false,
        }
    }
}

/// The search for a loop ends at a function or a lambda: what lies
/// above such a node makes no difference.
pub proof fn lemma_in_loop_body_stops_at_boundary(nodes: Seq<NodeView>, range: TextRange, n: int)
    requires
        is_boundary(nodes[n].kind),
    ensures
        !in_loop_body(nodes, range, n),
{
}

/// Below a node from which no loop is found, a loop is found only by
/// means of the nodes below it: a node whose parent is a function or a
/// lambda, and which is no loop around the range itself, is in no loop,
/// whatever loops stand around that function or lambda.
pub proof fn lemma_lambda_isolates_loops(nodes: Seq<NodeView>, range: TextRange, n: int)
    requires
        nodes[n].parent matches Some(p) && 0 <= p < n && is_boundary(nodes[p].kind),
        !is_boundary(nodes[n].kind),
        !loop_body_covers(nodes, n, range),
    ensures
        !in_loop_body(nodes, range, n),
{
    reveal_with_fuel(in_loop_body, 2);
}

pub fn is_in_loop_body(leaf: SyntaxNodeRef) -> (r: bool)
    requires
        leaf.wf(),
    ensures
        r == in_loop_body(leaf.tree()@, leaf.data().range, leaf.index()),
{
    let range = leaf.range();
    let mut node = leaf;
    loop
        invariant
            node.wf(),
            leaf.wf(),
            node.tree() == leaf.tree(),
            range == leaf.data().range,
            in_loop_body(leaf.tree()@, range, node.index()) == in_loop_body(leaf.tree()@, range, leaf.index()),
        decreases node.index(),
    {
        let kind = node.kind();
        if kind == SyntaxKind::FN_DEF || kind == SyntaxKind::LAMBDA_EXPR {
            return false;
        }
        let loop_body = if kind == SyntaxKind::FOR_EXPR {
            match ast::ForExpr::cast(node) {
                Some(e) => e.loop_body(),
                None => None,
            }
        } else if kind == SyntaxKind::WHILE_EXPR {
            match ast::WhileExpr::cast(node) {
                Some(e) => e.loop_body(),
                None => None,
            }
        } else if kind == SyntaxKind::LOOP_EXPR {
            match ast::LoopExpr::cast(node) {
                Some(e) => e.loop_body(),
                None => None,
            }
        } else {
            None
        };
        if let Some(body) = loop_body {
            proof {
                body.lemma_wf();
            }
            if range.is_subrange(&body.syntax().range()) {
                return true;
            }
        }
        proof {
            assert(node_wf(node.tree()@, node.index()));
        }
        match node.parent() {
            Some(p) => {
                node = p;
            },
            None => {
                return false;
            },
        }
    }
}

/// The snippet for `return`: with a place for the value where the
/// function returns one that is not unit, and with a semicolon where a
/// statement can stand.
pub open spec fn return_snippet(can_be_stmt: bool, returns_value: bool) -> Seq<char> {
    match (can_be_stmt, returns_value) {
        (true, true) => "return $0;"@,
        (true, false) => "return;"@,
        (false, true) => "return $0"@,
        (false, false) => "return"@,
    }
}

/// The function at node `f` returns a value: it has a return type, and
/// that is not the unit type, the tuple type without fields.
pub open spec fn returns_value(nodes: Seq<NodeView>, f: int) -> bool {
    match nth_kid::<ast::RetType>(nodes, f, 0) {
        Some(rt) => match nth_kid::<ast::TypeRef>(nodes, rt, 0) {
            Some(t) => !(nodes[t].kind == SyntaxKind::TUPLE_TYPE && kids::<ast::TypeRef>(nodes, t).len() == 0),
            None => true,
        },
        None => false,
    }
}

/// Tells whether a function returns a value that is not unit.
pub fn fn_returns_value(fn_def: ast::FnDef) -> (r: bool)
    requires
        fn_def.wf(),
    ensures
        r == returns_value(fn_def.node().tree()@, fn_def.node().index()),
{
    match fn_def.ret_type() {
        Some(ret_type) => match ret_type.type_ref() {
            Some(ast::TypeRef::TupleType(tuple)) => {
                let mut fields = tuple.fields();
                fields.next().is_some()
            },
            Some(other) => {
                proof {
                    other.lemma_wf();
                }
                true
            },
            None => true,
        },
        None => false,
    }
}

pub fn complete_return(fn_def: ast::FnDef, can_be_stmt: bool) -> (r: Option<CompletionItem>)
    requires
        fn_def.wf(),
    ensures
        r matches Some(item) && item@ == spec_keyword(
            "return"@,
            return_snippet(can_be_stmt, returns_value(fn_def.node().tree()@, fn_def.node().index())),
        ),
{
    let snip = match (can_be_stmt, fn_returns_value(fn_def)) {
        (true, true) => "return $0;",
        (true, false) => "return;",
        (false, true) => "return $0",
        (false, false) => "return",
    };
    Some(keyword("return", snip))
}

/// The keywords offered where an expression can stand in a function:
/// `if`, `match`, `while` and `loop`; `else` and `else if` after an `if`;
/// `continue` and `break` inside the body of a loop, with a semicolon
/// where a statement can stand; and `return`.
pub open spec fn expr_keywords(after_if: bool, in_loop: bool, can_be_stmt: bool, returns_value: bool) -> Seq<
    CompletionItemView,
> {
    seq![
        spec_keyword("if"@, "if $0 {}"@),
        spec_keyword("match"@, "match $0 {}"@),
        spec_keyword("while"@, "while $0 {}"@),
        spec_keyword("loop"@, "loop {$0}"@),
    ] + (if after_if {
        seq![spec_keyword("else"@, "else {$0}"@), spec_keyword("else if"@, "else if $0 {}"@)]
    } else {
        Seq::empty()
    }) + (if in_loop {
        if can_be_stmt {
            seq![spec_keyword("continue"@, "continue;"@), spec_keyword("break"@, "break;"@)]
        } else {
            seq![spec_keyword("continue"@, "continue"@), spec_keyword("break"@, "break"@)]
        }
    } else {
        Seq::empty()
    }) + seq![spec_keyword("return"@, return_snippet(can_be_stmt, returns_value))]
}

pub fn complete_expr_keyword(acc: &mut Completions, ctx: &CompletionContext)
    requires
        ctx.wf(),
    ensures
        final(acc)@ == old(acc)@ + (match ctx.function_syntax {
            Some(f) => if ctx.is_trivial_path {
                expr_keywords(
                    ctx.after_if,
                    in_loop_body(ctx.leaf.tree()@, ctx.leaf.data().range, ctx.leaf.index()),
                    ctx.can_be_stmt,
                    returns_value(f.node().tree()@, f.node().index()),
                )
            } else {
                Seq::empty()
            },
            None => Seq::empty(),
        }),
{
    if !ctx.is_trivial_path {
        assert(acc@ =~= old(acc)@ + Seq::<CompletionItemView>::empty());
        return ;
    }
    let fn_def = match ctx.function_syntax {
        Some(it) => it,
        None => {
            assert(acc@ =~= old(acc)@ + Seq::<CompletionItemView>::empty());
            return ;
        },
    };
    acc.add(keyword("if", "if $0 {}"));
    acc.add(keyword("match", "match $0 {}"));
    acc.add(keyword("while", "while $0 {}"));
    acc.add(keyword("loop", "loop {$0}"));

    if ctx.after_if {
        acc.add(keyword("else", "else {$0}"));
        acc.add(keyword("else if", "else if $0 {}"));
    }
    let in_loop = is_in_loop_body(ctx.leaf);
    if in_loop {
        if ctx.can_be_stmt {
            acc.add(keyword("continue", "continue;"));
            acc.add(keyword("break", "break;"));
        } else {
            acc.add(keyword("continue", "continue"));
            acc.add(keyword("break", "break"));
        }
    }
    acc.add_all(complete_return(fn_def, ctx.can_be_stmt));
    proof {
        let value = returns_value(fn_def.node().tree()@, fn_def.node().index());
        assert(acc@ =~= old(acc)@ + expr_keywords(ctx.after_if, in_loop, ctx.can_be_stmt, value));
    }
}

} // verus!
