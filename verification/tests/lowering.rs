use ra_core::ast::{AstNode, BinOp, Block, Expr, FnDef, Pat as AstPat, PrefixOp};
use ra_core::body::BodySyntaxMapping;
use ra_core::expr::{Expr as HirExpr, ExprId, MatchArm, Pat, PatId, Statement};
use ra_core::ids::DefId;
use ra_core::impl_block::{Canceled, Function};
use ra_core::lower::{ExprCollector, collect_fn_body_syntax};
use ra_core::name::Name;
use ra_core::path::{Path, PathKind};
use ra_core::query_definitions::{Def, body_hir, body_syntax_mapping};
use ra_core::syntax_ptr::LocalSyntaxPtr;
use ra_core::type_ref::{Mutability, TypeRef};
use ra_core::syntax::{SyntaxNodeRef, SyntaxTree};
use ra_core::syntax_kind::SyntaxKind;
use ra_core::syntax_kind::SyntaxKind::{AMP, ARG_LIST, ARRAY_EXPR, AS_KW, BIND_PAT, BIN_EXPR, BLOCK, BREAK_EXPR, BREAK_KW, CALL_EXPR, CAST_EXPR, COLON, COMMA, CONDITION, CONTINUE_EXPR, CONTINUE_KW, DOT, DOTDOT, ELSE_KW, EQ, EXPR_STMT, FAT_ARROW, FIELD_EXPR, FN_DEF, FN_KW, FOR_EXPR, FOR_KW, IDENT, IF_EXPR, IF_KW, INDEX_EXPR, INT_NUMBER, IN_KW, LABEL, LAMBDA_EXPR, LET_KW, LET_STMT, LIFETIME, LITERAL, LOOP_EXPR, LOOP_KW, L_ANGLE, L_BRACK, L_CURLY, L_PAREN, MATCH_ARM, MATCH_ARM_LIST, MATCH_EXPR, MATCH_KW, METHOD_CALL_EXPR, MINUS, MUT_KW, NAME, NAMED_FIELD, NAMED_FIELD_LIST, NAME_REF, PARAM, PARAM_LIST, PAREN_EXPR, PATH, PATH_EXPR, PATH_SEGMENT, PATH_TYPE, PIPE, PLACEHOLDER_PAT, PREFIX_EXPR, QUESTION, RANGE_EXPR, REF_EXPR, RETURN_EXPR, RETURN_KW, R_BRACK, R_CURLY, R_PAREN, SELF_KW, SELF_PARAM, SEMI, SOURCE_FILE, STRUCT_LIT, TRY_EXPR, TUPLE_EXPR, TUPLE_STRUCT_PAT, UNDERSCORE, WHILE_EXPR, WHILE_KW, WHITESPACE};
use ra_core::tree_builder::TreeBuilder;

#[allow(dead_code)]
enum El {
    N(SyntaxKind, Vec<El>),
    T(SyntaxKind, &'static str),
}

#[allow(dead_code)]
fn n(kind: SyntaxKind, children: Vec<El>) -> El {
    El::N(kind, children)
}

#[allow(dead_code)]
fn t(kind: SyntaxKind, text: &'static str) -> El {
    El::T(kind, text)
}

#[allow(dead_code)]
fn ws(text: &'static str) -> El {
    El::T(WHITESPACE, text)
}

#[allow(dead_code)]
fn add(builder: &mut TreeBuilder, el: &El) {
    match el {
        El::N(kind, children) => {
            assert!(builder.start_node(*kind));
            for child in children {
                add(builder, child);
            }
            assert!(builder.finish_node());
        }
        El::T(kind, text) => {
            assert!(builder.token(*kind, text));
        }
    }
}

#[allow(dead_code)]
fn build(root: El) -> SyntaxTree {
    let mut builder = TreeBuilder::new();
    add(&mut builder, &root);
    builder.finish().unwrap()
}

/// The `nth` node of the given kind, in the order of the source.
#[allow(dead_code)]
fn find(tree: &SyntaxTree, kind: SyntaxKind, nth: usize) -> SyntaxNodeRef<'_> {
    let mut seen = 0;
    for i in 0..tree.len() {
        let node = tree.node(i).unwrap();
        if node.kind() == kind {
            if seen == nth {
                return node;
            }
            seen += 1;
        }
    }
    panic!("no such node: {:?} #{}", kind, nth)
}

/// The text that a node covers.
#[allow(dead_code)]
fn text_of(node: SyntaxNodeRef) -> String {
    match node.leaf_text() {
        Some(text) => text.clone(),
        None => {
            let mut out = String::new();
            for child in node.children() {
                out.push_str(&text_of(child));
            }
            out
        }
    }
}

fn name(text: &'static str) -> El {
    n(NAME, vec![t(IDENT, text)])
}

fn name_ref(text: &'static str) -> El {
    n(NAME_REF, vec![t(IDENT, text)])
}

fn path(text: &'static str) -> El {
    n(PATH, vec![n(PATH_SEGMENT, vec![name_ref(text)])])
}

fn path_expr(text: &'static str) -> El {
    n(PATH_EXPR, vec![path(text)])
}

fn path_type(text: &'static str) -> El {
    n(PATH_TYPE, vec![path(text)])
}

fn block(mut inner: Vec<El>) -> El {
    let mut children = vec![t(L_CURLY, "{")];
    children.append(&mut inner);
    children.push(t(R_CURLY, "}"));
    n(BLOCK, children)
}

fn file(items: Vec<El>) -> SyntaxTree {
    build(n(SOURCE_FILE, items))
}

/// `fn f(PARAMS) BODY`
fn fn_def(params: Vec<El>, body: Option<El>) -> El {
    let mut list = vec![t(L_PAREN, "(")];
    list.extend(params);
    list.push(t(R_PAREN, ")"));
    let mut children = vec![t(FN_KW, "fn"), ws(" "), name("f"), n(PARAM_LIST, list), ws(" ")];
    children.extend(body);
    n(FN_DEF, children)
}

/// The tree of `fn f() { BODY }`.
fn body_of(inner: Vec<El>) -> SyntaxTree {
    file(vec![fn_def(vec![], Some(block(inner)))])
}

fn lower(tree: &SyntaxTree) -> BodySyntaxMapping {
    let m = collect_fn_body_syntax(FnDef::cast(find(tree, FN_DEF, 0)).unwrap());
    check_maps(tree, &m);
    m
}

/// What a pointer leads to has that pointer, unless the pointer is that
/// of parentheses; and the pointer of each id leads to an id with it.
fn check_maps(tree: &SyntaxTree, m: &BodySyntaxMapping) {
    for i in 0..tree.len() {
        let p = LocalSyntaxPtr::new(tree.node(i).unwrap());
        if let Some(e) = m.syntax_expr(p) {
            assert!(e.0 < m.body().expr_count());
            if p.kind() != PAREN_EXPR {
                assert_eq!(m.expr_syntax(e), Some(p));
            }
        }
        if let Some(q) = m.syntax_pat(p) {
            assert!(q.0 < m.body().pat_count());
            assert_eq!(m.pat_syntax(q), Some(p));
        }
    }
    for i in 0..m.body().expr_count() {
        if let Some(p) = m.expr_syntax(ExprId(i)) {
            assert_ne!(p.kind(), PAREN_EXPR);
            assert_eq!(m.expr_syntax(m.syntax_expr(p).unwrap()), Some(p));
        }
    }
    for i in 0..m.body().pat_count() {
        if let Some(p) = m.pat_syntax(PatId(i)) {
            assert_eq!(m.pat_syntax(m.syntax_pat(p).unwrap()), Some(p));
        }
    }
}

fn ptr(tree: &SyntaxTree, kind: SyntaxKind, nth: usize) -> LocalSyntaxPtr {
    LocalSyntaxPtr::new(find(tree, kind, nth))
}

fn plain(text: &str) -> Path {
    Path { kind: PathKind::Plain, segments: vec![Name::new(text.to_string())] }
}

fn path_of(text: &str) -> HirExpr {
    HirExpr::Path(plain(text))
}

fn call(callee: El, args: Vec<El>) -> El {
    let mut list = vec![t(L_PAREN, "(")];
    list.extend(args);
    list.push(t(R_PAREN, ")"));
    n(CALL_EXPR, vec![callee, n(ARG_LIST, list)])
}

fn lit(text: &'static str) -> El {
    n(LITERAL, vec![t(INT_NUMBER, text)])
}

/// Every id that an expression or a pattern holds is one of the body's
/// ids, and the pointer of every id leads back to it.
fn check_consistent(m: &BodySyntaxMapping) {
    assert!(m.is_fresh());
    check_consistent_but_fresh(m);
}

fn check_consistent_but_fresh(m: &BodySyntaxMapping) {
    let body = m.body();
    assert!(body.body_expr().0 < body.expr_count());
    for arg in body.args() {
        assert!(arg.0 < body.pat_count());
    }
    for i in 0..body.expr_count() {
        let id = ExprId(i);
        for child in body.expr(id).walk_child_exprs() {
            assert!(child.0 > i && child.0 < body.expr_count(), "an expression comes before what it holds");
        }
        if let Some(p) = m.expr_syntax(id) {
            assert_eq!(m.syntax_expr(p), Some(id));
        }
    }
    for i in 0..body.pat_count() {
        let id = PatId(i);
        for child in body.pat(id).walk_child_pats() {
            assert!(child.0 > i && child.0 < body.pat_count());
        }
        if let Some(p) = m.pat_syntax(id) {
            assert_eq!(m.syntax_pat(p), Some(id));
        }
    }
    assert_eq!(m.expr_syntax(ExprId(body.expr_count())), None);
    assert_eq!(m.pat_syntax(PatId(body.pat_count())), None);
}

#[test]
fn lowers_a_tail_expression() {
    let tree = body_of(vec![ws(" "), path_expr("x"), ws(" ")]);
    let m = lower(&tree);
    check_consistent(&m);
    let body = m.body();
    assert_eq!(body.expr_count(), 2);
    assert_eq!(body.pat_count(), 0);
    assert!(body.args().is_empty());
    // the ids follow the order of the source: the block, then what it holds
    assert_eq!(body.body_expr(), ExprId(0));
    assert_eq!(body.expr(ExprId(0)), &HirExpr::Block { statements: vec![], tail: Some(ExprId(1)) });
    assert_eq!(body.expr(ExprId(1)), &path_of("x"));
    assert_eq!(m.expr_syntax(ExprId(0)), Some(ptr(&tree, BLOCK, 0)));
    assert_eq!(m.expr_syntax(ExprId(1)), Some(ptr(&tree, PATH_EXPR, 0)));
    assert_eq!(m.syntax_expr(ptr(&tree, BLOCK, 0)), Some(ExprId(0)));
    assert_eq!(m.syntax_expr(ptr(&tree, FN_DEF, 0)), None);
    assert_eq!(m.node_expr(Expr::cast(find(&tree, PATH_EXPR, 0)).unwrap()), Some(ExprId(1)));
}

#[test]
fn a_function_without_a_body_has_a_missing_body() {
    let tree = file(vec![fn_def(vec![], None)]);
    let m = lower(&tree);
    check_consistent(&m);
    assert_eq!(m.body().expr_count(), 1);
    assert_eq!(m.body().expr(m.body().body_expr()), &HirExpr::Missing);
    assert_eq!(m.expr_syntax(ExprId(0)), None);
}

#[test]
fn parentheses_are_transparent() {
    // { (x) }
    let paren = n(PAREN_EXPR, vec![t(L_PAREN, "("), path_expr("x"), t(R_PAREN, ")")]);
    let tree = body_of(vec![paren]);
    let m = lower(&tree);
    check_consistent(&m);
    // { x }
    let bare_tree = body_of(vec![path_expr("x")]);
    let bare = lower(&bare_tree);
    assert_eq!(m.body().expr_count(), bare.body().expr_count());
    for i in 0..m.body().expr_count() {
        assert_eq!(m.body().expr(ExprId(i)), bare.body().expr(ExprId(i)));
    }
    let inner = m.syntax_expr(ptr(&tree, PATH_EXPR, 0)).unwrap();
    assert_eq!(inner, bare.syntax_expr(ptr(&bare_tree, PATH_EXPR, 0)).unwrap());
    assert_eq!(m.syntax_expr(ptr(&tree, PAREN_EXPR, 0)), Some(inner));
    assert_eq!(m.expr_syntax(inner), Some(ptr(&tree, PATH_EXPR, 0)));
    assert_eq!(m.node_expr(Expr::cast(find(&tree, PAREN_EXPR, 0)).unwrap()), Some(inner));
    // empty parentheses hold a missing expression
    let tree = body_of(vec![n(PAREN_EXPR, vec![t(L_PAREN, "("), t(R_PAREN, ")")])]);
    let m = lower(&tree);
    let inner = m.syntax_expr(ptr(&tree, PAREN_EXPR, 0)).unwrap();
    assert_eq!(m.body().expr(inner), &HirExpr::Missing);
    assert_eq!(m.expr_syntax(inner), None);
}

fn if_let(with_else: bool) -> El {
    // if let Some(y) = x { a } else { b }
    let mut children = vec![
        t(IF_KW, "if"),
        ws(" "),
        n(
            CONDITION,
            vec![
                t(LET_KW, "let"),
                ws(" "),
                n(
                    TUPLE_STRUCT_PAT,
                    vec![path("Some"), t(L_PAREN, "("), n(BIND_PAT, vec![name("y")]), t(R_PAREN, ")")],
                ),
                ws(" "),
                t(EQ, "="),
                ws(" "),
                path_expr("x"),
            ],
        ),
        ws(" "),
        block(vec![path_expr("a")]),
    ];
    if with_else {
        children.extend(vec![ws(" "), t(ELSE_KW, "else"), ws(" "), block(vec![path_expr("b")])]);
    }
    n(IF_EXPR, children)
}

#[test]
fn if_let_becomes_a_match() {
    let tree = body_of(vec![if_let(true)]);
    let m = lower(&tree);
    check_consistent(&m);
    let body = m.body();
    let id = m.syntax_expr(ptr(&tree, IF_EXPR, 0)).unwrap();
    let scrutinee = m.syntax_expr(ptr(&tree, PATH_EXPR, 0)).unwrap();
    let then_branch = m.syntax_expr(ptr(&tree, BLOCK, 1)).unwrap();
    let else_branch = m.syntax_expr(ptr(&tree, BLOCK, 2)).unwrap();
    let pat = m.syntax_pat(ptr(&tree, TUPLE_STRUCT_PAT, 0)).unwrap();
    let placeholder = PatId(body.pat_count() - 1);
    assert_eq!(
        body.expr(id),
        &HirExpr::Match {
            expr: scrutinee,
            arms: vec![
                MatchArm { pats: vec![pat], expr: then_branch },
                MatchArm { pats: vec![placeholder], expr: else_branch },
            ],
        }
    );
    assert_eq!(body.pat(placeholder), &Pat::Missing);
    assert_eq!(m.pat_syntax(placeholder), None);
    assert_eq!(body.expr(scrutinee), &path_of("x"));
    let bind = m.syntax_pat(ptr(&tree, BIND_PAT, 0)).unwrap();
    assert_eq!(body.pat(pat), &Pat::TupleStruct { path: Some(plain("Some")), args: vec![bind] });
    assert_eq!(body.pat(bind), &Pat::Bind { name: Name::new("y".to_string()) });
    assert_eq!(m.node_pat(AstPat::cast(find(&tree, BIND_PAT, 0)).unwrap()), Some(bind));
    assert_eq!(body.pat(pat).walk_child_pats(), vec![bind]);
    assert_eq!(body.expr(id).walk_child_exprs(), vec![scrutinee, then_branch, else_branch]);
}

#[test]
fn if_let_without_else_gets_an_empty_block() {
    let tree = body_of(vec![if_let(false)]);
    let m = lower(&tree);
    check_consistent(&m);
    let body = m.body();
    let id = m.syntax_expr(ptr(&tree, IF_EXPR, 0)).unwrap();
    match body.expr(id) {
        HirExpr::Match { arms, .. } => {
            assert_eq!(arms.len(), 2);
            assert_eq!(body.expr(arms[1].expr), &HirExpr::Block { statements: vec![], tail: None });
            assert_eq!(m.expr_syntax(arms[1].expr), None);
        }
        other => panic!("no match: {:?}", other),
    }
}

#[test]
fn plain_if_stays_an_if() {
    // if c { a }
    let tree = body_of(vec![n(
        IF_EXPR,
        vec![t(IF_KW, "if"), ws(" "), n(CONDITION, vec![path_expr("c")]), ws(" "), block(vec![path_expr("a")])],
    )]);
    let m = lower(&tree);
    check_consistent(&m);
    let id = m.syntax_expr(ptr(&tree, IF_EXPR, 0)).unwrap();
    let condition = m.syntax_expr(ptr(&tree, PATH_EXPR, 0)).unwrap();
    let then_branch = m.syntax_expr(ptr(&tree, BLOCK, 1)).unwrap();
    assert_eq!(m.body().expr(id), &HirExpr::If { condition, then_branch, else_branch: None });
    assert_eq!(m.body().expr(id).walk_child_exprs(), vec![condition, then_branch]);
    // if c { a } else { b }
    let tree = body_of(vec![n(
        IF_EXPR,
        vec![
            t(IF_KW, "if"),
            ws(" "),
            n(CONDITION, vec![path_expr("c")]),
            ws(" "),
            block(vec![path_expr("a")]),
            t(ELSE_KW, "else"),
            block(vec![path_expr("b")]),
        ],
    )]);
    let m = lower(&tree);
    check_consistent(&m);
    let id = m.syntax_expr(ptr(&tree, IF_EXPR, 0)).unwrap();
    let condition = m.syntax_expr(ptr(&tree, PATH_EXPR, 0)).unwrap();
    let then_branch = m.syntax_expr(ptr(&tree, BLOCK, 1)).unwrap();
    let else_branch = m.syntax_expr(ptr(&tree, BLOCK, 2)).unwrap();
    assert_eq!(m.body().expr(id), &HirExpr::If { condition, then_branch, else_branch: Some(else_branch) });
    assert!(id < condition && condition < then_branch && then_branch < else_branch);
    // an `if` without anything has missing parts
    let tree = body_of(vec![n(IF_EXPR, vec![t(IF_KW, "if")])]);
    let m = lower(&tree);
    let id = m.syntax_expr(ptr(&tree, IF_EXPR, 0)).unwrap();
    match m.body().expr(id) {
        HirExpr::If { condition, then_branch, else_branch: None } => {
            assert_eq!(m.body().expr(*condition), &HirExpr::Missing);
            assert_eq!(m.body().expr(*then_branch), &HirExpr::Missing);
        }
        other => panic!("no if: {:?}", other),
    }
}

#[test]
fn field_shorthand_is_a_path_under_the_name() {
    // Foo { x, y: z, ..w }
    let tree = body_of(vec![n(
        STRUCT_LIT,
        vec![
            path("Foo"),
            ws(" "),
            n(
                NAMED_FIELD_LIST,
                vec![
                    t(L_CURLY, "{"),
                    ws(" "),
                    n(NAMED_FIELD, vec![name_ref("x")]),
                    t(COMMA, ","),
                    ws(" "),
                    n(NAMED_FIELD, vec![name_ref("y"), t(COLON, ":"), ws(" "), path_expr("z")]),
                    t(COMMA, ","),
                    ws(" "),
                    n(NAMED_FIELD, vec![]),
                    t(R_CURLY, "}"),
                ],
            ),
            t(DOTDOT, ".."),
            path_expr("w"),
        ],
    )]);
    let m = lower(&tree);
    check_consistent(&m);
    let body = m.body();
    let id = m.syntax_expr(ptr(&tree, STRUCT_LIT, 0)).unwrap();
    match body.expr(id) {
        HirExpr::StructLit { path, fields, spread } => {
            assert_eq!(path, &Some(plain("Foo")));
            assert_eq!(fields.len(), 3);
            assert_eq!(fields[0].name, Name::new("x".to_string()));
            assert_eq!(body.expr(fields[0].expr), &path_of("x"));
            // the pointer is that of the name reference `x`, the second of the tree
            let x = find(&tree, NAME_REF, 1);
            assert_eq!(text_of(x), "x");
            assert_eq!(m.expr_syntax(fields[0].expr), Some(LocalSyntaxPtr::new(x)));
            assert_eq!(m.syntax_expr(LocalSyntaxPtr::new(x)), Some(fields[0].expr));
            assert_eq!(fields[1].name, Name::new("y".to_string()));
            assert_eq!(body.expr(fields[1].expr), &path_of("z"));
            assert_eq!(m.expr_syntax(fields[1].expr), Some(ptr(&tree, PATH_EXPR, 0)));
            assert_eq!(fields[2].name, Name::missing());
            assert_eq!(body.expr(fields[2].expr), &HirExpr::Missing);
            assert_eq!(m.expr_syntax(fields[2].expr), None);
            assert_eq!(body.expr(spread.unwrap()), &path_of("w"));
            assert_eq!(
                body.expr(id).walk_child_exprs(),
                vec![fields[0].expr, fields[1].expr, fields[2].expr, spread.unwrap()]
            );
        }
        other => panic!("no struct literal: {:?}", other),
    }
}

#[test]
fn whiles_and_loops() {
    // while c { a }
    let tree = body_of(vec![n(
        WHILE_EXPR,
        vec![t(WHILE_KW, "while"), n(CONDITION, vec![path_expr("c")]), block(vec![path_expr("a")])],
    )]);
    let m = lower(&tree);
    check_consistent(&m);
    let id = m.syntax_expr(ptr(&tree, WHILE_EXPR, 0)).unwrap();
    let condition = m.syntax_expr(ptr(&tree, PATH_EXPR, 0)).unwrap();
    let body = m.syntax_expr(ptr(&tree, BLOCK, 1)).unwrap();
    assert_eq!(m.body().expr(id), &HirExpr::While { condition, body });
    // while let p = c { a } has no model: nothing below it is lowered
    let tree = body_of(vec![n(
        WHILE_EXPR,
        vec![
            t(WHILE_KW, "while"),
            n(CONDITION, vec![t(LET_KW, "let"), n(BIND_PAT, vec![name("p")]), t(EQ, "="), path_expr("c")]),
            block(vec![path_expr("a")]),
        ],
    )]);
    let m = lower(&tree);
    check_consistent(&m);
    let id = m.syntax_expr(ptr(&tree, WHILE_EXPR, 0)).unwrap();
    assert_eq!(m.body().expr(id), &HirExpr::Missing);
    assert_eq!(m.body().expr_count(), 2);
    assert_eq!(m.body().pat_count(), 0);
    assert_eq!(m.syntax_expr(ptr(&tree, PATH_EXPR, 0)), None);
    // while { } has a missing condition
    let tree = body_of(vec![n(WHILE_EXPR, vec![t(WHILE_KW, "while"), block(vec![])])]);
    let m = lower(&tree);
    match m.body().expr(m.syntax_expr(ptr(&tree, WHILE_EXPR, 0)).unwrap()) {
        HirExpr::While { condition, .. } => assert_eq!(m.body().expr(*condition), &HirExpr::Missing),
        other => panic!("no while: {:?}", other),
    }
    // loop { a }
    let tree = body_of(vec![n(LOOP_EXPR, vec![t(LOOP_KW, "loop"), block(vec![path_expr("a")])])]);
    let m = lower(&tree);
    let body = m.syntax_expr(ptr(&tree, BLOCK, 1)).unwrap();
    assert_eq!(m.body().expr(m.syntax_expr(ptr(&tree, LOOP_EXPR, 0)).unwrap()), &HirExpr::Loop { body });
    // for p in c { a }: the iterable comes before the pattern
    let tree = body_of(vec![n(
        FOR_EXPR,
        vec![
            t(FOR_KW, "for"),
            n(BIND_PAT, vec![name("p")]),
            t(IN_KW, "in"),
            path_expr("c"),
            block(vec![path_expr("a")]),
        ],
    )]);
    let m = lower(&tree);
    check_consistent(&m);
    let iterable = m.syntax_expr(ptr(&tree, PATH_EXPR, 0)).unwrap();
    let pat = m.syntax_pat(ptr(&tree, BIND_PAT, 0)).unwrap();
    let body = m.syntax_expr(ptr(&tree, BLOCK, 1)).unwrap();
    let id = m.syntax_expr(ptr(&tree, FOR_EXPR, 0)).unwrap();
    assert_eq!(m.body().expr(id), &HirExpr::For { iterable, pat, body });
    assert_eq!(m.body().expr(id).walk_child_exprs(), vec![iterable, body]);
}

#[test]
fn calls_take_the_callee_before_the_arguments() {
    // f(a, (b)).g(c)
    let inner = call(path_expr("f"), vec![path_expr("a"), t(COMMA, ","), n(PAREN_EXPR, vec![path_expr("b")])]);
    let tree = body_of(vec![n(
        METHOD_CALL_EXPR,
        vec![
            inner,
            t(DOT, "."),
            name_ref("g"),
            n(ARG_LIST, vec![t(L_PAREN, "("), path_expr("c"), t(R_PAREN, ")")]),
        ],
    )]);
    let m = lower(&tree);
    let body = m.body();
    let f = m.syntax_expr(ptr(&tree, PATH_EXPR, 0)).unwrap();
    let a = m.syntax_expr(ptr(&tree, PATH_EXPR, 1)).unwrap();
    let b = m.syntax_expr(ptr(&tree, PATH_EXPR, 2)).unwrap();
    let c = m.syntax_expr(ptr(&tree, PATH_EXPR, 3)).unwrap();
    let call_id = m.syntax_expr(ptr(&tree, CALL_EXPR, 0)).unwrap();
    let method = m.syntax_expr(ptr(&tree, METHOD_CALL_EXPR, 0)).unwrap();
    assert_eq!(body.expr(call_id), &HirExpr::Call { callee: f, args: vec![a, b] });
    assert_eq!(
        body.expr(method),
        &HirExpr::MethodCall { receiver: call_id, method_name: Name::new("g".to_string()), args: vec![c] }
    );
    assert_eq!(vec![method, call_id, f, a, b, c], (1..7).map(ExprId).collect::<Vec<_>>());
    assert_eq!(body.expr(call_id).walk_child_exprs(), vec![f, a, b]);
    assert_eq!(body.expr(method).walk_child_exprs(), vec![call_id, c]);
    // the pointer of the paren expression is the one pointer that has no id of its own
    assert!(!m.is_fresh() || m.syntax_expr(ptr(&tree, PAREN_EXPR, 0)) == Some(b));
}

#[test]
fn statements_of_a_block() {
    // { let a: T = x; let _; y; z }
    let tree = body_of(vec![
        n(
            LET_STMT,
            vec![
                t(LET_KW, "let"),
                n(BIND_PAT, vec![name("a")]),
                t(COLON, ":"),
                path_type("T"),
                t(EQ, "="),
                path_expr("x"),
                t(SEMI, ";"),
            ],
        ),
        n(LET_STMT, vec![t(LET_KW, "let"), n(PLACEHOLDER_PAT, vec![t(UNDERSCORE, "_")]), t(SEMI, ";")]),
        n(EXPR_STMT, vec![path_expr("y"), t(SEMI, ";")]),
        n(EXPR_STMT, vec![t(SEMI, ";")]),
        path_expr("z"),
    ]);
    let m = lower(&tree);
    check_consistent(&m);
    let body = m.body();
    let a = m.syntax_pat(ptr(&tree, BIND_PAT, 0)).unwrap();
    let underscore = m.syntax_pat(ptr(&tree, PLACEHOLDER_PAT, 0)).unwrap();
    let x = m.syntax_expr(ptr(&tree, PATH_EXPR, 0)).unwrap();
    let y = m.syntax_expr(ptr(&tree, PATH_EXPR, 1)).unwrap();
    let z = m.syntax_expr(ptr(&tree, PATH_EXPR, 2)).unwrap();
    assert_eq!(body.pat(underscore), &Pat::Missing);
    match body.expr(body.body_expr()) {
        HirExpr::Block { statements, tail } => {
            assert_eq!(statements.len(), 4);
            assert_eq!(
                statements[0],
                Statement::Let { pat: a, type_ref: Some(TypeRef::Path(plain("T"))), initializer: Some(x) }
            );
            assert_eq!(statements[1], Statement::Let { pat: underscore, type_ref: None, initializer: None });
            assert_eq!(statements[2], Statement::Expr(y));
            match &statements[3] {
                Statement::Expr(e) => {
                    assert_eq!(body.expr(*e), &HirExpr::Missing);
                    assert_eq!(body.expr(body.body_expr()).walk_child_exprs(), vec![x, y, *e, z]);
                }
                other => panic!("no expression statement: {:?}", other),
            }
            assert_eq!(tail, &Some(z));
        }
        other => panic!("no block: {:?}", other),
    }
}

#[test]
fn match_arms() {
    // match x { A | B => a, c => b, }
    let tree = body_of(vec![n(
        MATCH_EXPR,
        vec![
            t(MATCH_KW, "match"),
            path_expr("x"),
            n(
                MATCH_ARM_LIST,
                vec![
                    t(L_CURLY, "{"),
                    n(
                        MATCH_ARM,
                        vec![
                            n(BIND_PAT, vec![name("A")]),
                            t(PIPE, "|"),
                            n(BIND_PAT, vec![name("B")]),
                            t(FAT_ARROW, "=>"),
                            path_expr("a"),
                        ],
                    ),
                    t(COMMA, ","),
                    n(MATCH_ARM, vec![n(BIND_PAT, vec![name("c")]), t(FAT_ARROW, "=>")]),
                    t(R_CURLY, "}"),
                ],
            ),
        ],
    )]);
    let m = lower(&tree);
    check_consistent(&m);
    let body = m.body();
    let id = m.syntax_expr(ptr(&tree, MATCH_EXPR, 0)).unwrap();
    match body.expr(id) {
        HirExpr::Match { expr, arms } => {
            assert_eq!(body.expr(*expr), &path_of("x"));
            assert_eq!(arms.len(), 2);
            assert_eq!(arms[0].pats, vec![PatId(0), PatId(1)]);
            assert_eq!(body.expr(arms[0].expr), &path_of("a"));
            assert_eq!(arms[1].pats, vec![PatId(2)]);
            assert_eq!(body.expr(arms[1].expr), &HirExpr::Missing);
            assert_eq!(body.expr(id).walk_child_exprs(), vec![*expr, arms[0].expr, arms[1].expr]);
        }
        other => panic!("no match: {:?}", other),
    }
    // a match without arms
    let tree = body_of(vec![n(MATCH_EXPR, vec![t(MATCH_KW, "match"), path_expr("x")])]);
    let m = lower(&tree);
    let id = m.syntax_expr(ptr(&tree, MATCH_EXPR, 0)).unwrap();
    assert_eq!(m.body().expr(id), &HirExpr::Match { expr: ExprId(2), arms: vec![] });
}

#[test]
fn small_forms() {
    // { x?; x.f; x as T; &mut x; -x; a < b; return a; break; continue; return; break b }
    let tree = body_of(vec![
        n(EXPR_STMT, vec![n(TRY_EXPR, vec![path_expr("x"), t(QUESTION, "?")])]),
        n(EXPR_STMT, vec![n(FIELD_EXPR, vec![path_expr("x"), t(DOT, "."), name_ref("f")])]),
        n(EXPR_STMT, vec![n(CAST_EXPR, vec![path_expr("x"), t(AS_KW, "as"), path_type("T")])]),
        n(EXPR_STMT, vec![n(REF_EXPR, vec![t(AMP, "&"), t(MUT_KW, "mut"), path_expr("x")])]),
        n(EXPR_STMT, vec![n(PREFIX_EXPR, vec![t(MINUS, "-"), path_expr("x")])]),
        n(EXPR_STMT, vec![n(BIN_EXPR, vec![path_expr("a"), t(L_ANGLE, "<"), path_expr("b")])]),
        n(EXPR_STMT, vec![n(RETURN_EXPR, vec![t(RETURN_KW, "return"), path_expr("a")])]),
        n(EXPR_STMT, vec![n(BREAK_EXPR, vec![t(BREAK_KW, "break")])]),
        n(EXPR_STMT, vec![n(CONTINUE_EXPR, vec![t(CONTINUE_KW, "continue")])]),
        n(EXPR_STMT, vec![n(RETURN_EXPR, vec![t(RETURN_KW, "return")])]),
        n(BREAK_EXPR, vec![t(BREAK_KW, "break"), path_expr("b")]),
    ]);
    let m = lower(&tree);
    check_consistent(&m);
    let body = m.body();
    let at = |kind: SyntaxKind, nth: usize| body.expr(m.syntax_expr(ptr(&tree, kind, nth)).unwrap());
    let x = |nth: usize| m.syntax_expr(ptr(&tree, PATH_EXPR, nth)).unwrap();
    assert_eq!(at(TRY_EXPR, 0), &HirExpr::Try { expr: x(0) });
    assert_eq!(at(FIELD_EXPR, 0), &HirExpr::Field { expr: x(1), name: Name::new("f".to_string()) });
    assert_eq!(at(CAST_EXPR, 0), &HirExpr::Cast { expr: x(2), type_ref: TypeRef::Path(plain("T")) });
    assert_eq!(at(REF_EXPR, 0), &HirExpr::Ref { expr: x(3), mutability: Mutability::Mut });
    assert_eq!(at(PREFIX_EXPR, 0), &HirExpr::UnaryOp { expr: x(4), op: Some(PrefixOp::Neg) });
    assert_eq!(at(BIN_EXPR, 0), &HirExpr::BinaryOp { lhs: x(5), rhs: x(6), op: Some(BinOp::LesserTest) });
    assert_eq!(at(RETURN_EXPR, 0), &HirExpr::Return { expr: Some(x(7)) });
    assert_eq!(at(BREAK_EXPR, 0), &HirExpr::Break { expr: None });
    assert_eq!(at(CONTINUE_EXPR, 0), &HirExpr::Continue);
    assert_eq!(at(RETURN_EXPR, 1), &HirExpr::Return { expr: None });
    assert_eq!(at(BREAK_EXPR, 1), &HirExpr::Break { expr: Some(x(8)) });
    assert!(at(CONTINUE_EXPR, 0).walk_child_exprs().is_empty());
    assert_eq!(at(BIN_EXPR, 0).walk_child_exprs(), vec![x(5), x(6)]);
    assert_eq!(at(RETURN_EXPR, 0).walk_child_exprs(), vec![x(7)]);
}

#[test]
fn forms_without_a_model_are_missing() {
    let tree = body_of(vec![
        n(EXPR_STMT, vec![lit("1")]),
        n(EXPR_STMT, vec![n(TUPLE_EXPR, vec![t(L_PAREN, "("), path_expr("a"), t(COMMA, ","), t(R_PAREN, ")")])]),
        n(EXPR_STMT, vec![n(ARRAY_EXPR, vec![t(L_BRACK, "["), path_expr("b"), t(R_BRACK, "]")])]),
        n(EXPR_STMT, vec![n(INDEX_EXPR, vec![path_expr("c"), t(L_BRACK, "["), lit("0"), t(R_BRACK, "]")])]),
        n(EXPR_STMT, vec![n(RANGE_EXPR, vec![lit("2"), t(DOTDOT, ".."), lit("3")])]),
        n(EXPR_STMT, vec![n(LABEL, vec![t(LIFETIME, "'a"), t(COLON, ":")])]),
        n(PATH_EXPR, vec![]),
    ]);
    let m = lower(&tree);
    check_consistent(&m);
    for (kind, nth) in
        [(LITERAL, 0), (TUPLE_EXPR, 0), (ARRAY_EXPR, 0), (INDEX_EXPR, 0), (RANGE_EXPR, 0), (LABEL, 0), (PATH_EXPR, 3)]
    {
        let id = m.syntax_expr(ptr(&tree, kind, nth)).unwrap();
        assert_eq!(m.body().expr(id), &HirExpr::Missing);
        assert_eq!(m.expr_syntax(id), Some(ptr(&tree, kind, nth)));
    }
    // what stands inside is not lowered
    assert_eq!(m.syntax_expr(ptr(&tree, PATH_EXPR, 0)), None);
    assert_eq!(m.body().expr_count(), 8);
}

#[test]
fn lambdas() {
    // |a, b: T| a
    let tree = body_of(vec![n(
        LAMBDA_EXPR,
        vec![
            n(
                PARAM_LIST,
                vec![
                    t(PIPE, "|"),
                    n(PARAM, vec![n(BIND_PAT, vec![name("a")])]),
                    t(COMMA, ","),
                    n(PARAM, vec![n(BIND_PAT, vec![name("b")]), t(COLON, ":"), path_type("T")]),
                    t(COMMA, ","),
                    n(PARAM, vec![]),
                    t(PIPE, "|"),
                ],
            ),
            path_expr("a"),
        ],
    )]);
    let m = lower(&tree);
    check_consistent(&m);
    let body = m.body();
    let id = m.syntax_expr(ptr(&tree, LAMBDA_EXPR, 0)).unwrap();
    let inner = m.syntax_expr(ptr(&tree, PATH_EXPR, 0)).unwrap();
    assert_eq!(
        body.expr(id),
        &HirExpr::Lambda {
            args: vec![PatId(0), PatId(1), PatId(2)],
            arg_types: vec![None, Some(TypeRef::Path(plain("T"))), None],
            body: inner,
        }
    );
    assert_eq!(body.pat(PatId(2)), &Pat::Missing);
    assert_eq!(m.pat_syntax(PatId(2)), None);
    assert_eq!(body.expr(id).walk_child_exprs(), vec![inner]);
}

#[test]
fn the_self_parameter_comes_first() {
    // fn f(&self, a: T, : U, b) {}
    let tree = file(vec![fn_def(
        vec![
            n(SELF_PARAM, vec![t(AMP, "&"), t(SELF_KW, "self")]),
            t(COMMA, ","),
            n(PARAM, vec![n(BIND_PAT, vec![name("a")]), t(COLON, ":"), path_type("T")]),
            t(COMMA, ","),
            n(PARAM, vec![t(COLON, ":"), path_type("U")]),
            t(COMMA, ","),
            n(PARAM, vec![n(BIND_PAT, vec![name("b")])]),
        ],
        Some(block(vec![])),
    )]);
    let m = lower(&tree);
    check_consistent(&m);
    let body = m.body();
    assert_eq!(body.args(), &[PatId(0), PatId(1), PatId(2)]);
    assert_eq!(body.pat(PatId(0)), &Pat::Bind { name: Name::self_param() });
    assert_eq!(body.pat(PatId(0)), &Pat::Bind { name: Name::new("self".to_string()) });
    assert_eq!(m.pat_syntax(PatId(0)), Some(ptr(&tree, SELF_KW, 0)));
    assert_eq!(m.syntax_pat(ptr(&tree, SELF_KW, 0)), Some(PatId(0)));
    assert_eq!(body.pat(PatId(1)), &Pat::Bind { name: Name::new("a".to_string()) });
    assert_eq!(body.pat(PatId(2)), &Pat::Bind { name: Name::new("b".to_string()) });
    assert_eq!(body.pat_count(), 3);
}

#[test]
fn a_self_parameter_without_the_keyword_is_bound_without_a_pointer() {
    // fn f(&, a) {}
    let tree = file(vec![fn_def(
        vec![n(SELF_PARAM, vec![t(AMP, "&")]), t(COMMA, ","), n(PARAM, vec![n(BIND_PAT, vec![name("a")])])],
        Some(block(vec![])),
    )]);
    let m = lower(&tree);
    check_consistent(&m);
    let body = m.body();
    assert_eq!(body.args(), &[PatId(0), PatId(1)]);
    assert_eq!(body.pat(PatId(0)), &Pat::Bind { name: Name::self_param() });
    assert_eq!(m.pat_syntax(PatId(0)), None);
    assert_eq!(m.pat_syntax(PatId(1)), Some(ptr(&tree, BIND_PAT, 0)));
    // a function without a parameter list has no arguments
    let tree = file(vec![n(FN_DEF, vec![t(FN_KW, "fn"), name("f")])]);
    let m = lower(&tree);
    assert!(m.body().args().is_empty());
    assert_eq!(m.body().pat_count(), 0);
}

#[test]
fn where_two_expressions_have_one_pointer_it_leads_to_the_outer_one() {
    // a `?` expression that is nothing but a `?` expression has the
    // pointer of the one inside it
    let tree = body_of(vec![n(TRY_EXPR, vec![n(TRY_EXPR, vec![path_expr("x")])])]);
    let m = lower(&tree);
    assert!(!m.is_fresh());
    let p = ptr(&tree, TRY_EXPR, 0);
    assert_eq!(p, ptr(&tree, TRY_EXPR, 1));
    assert_eq!(m.expr_syntax(ExprId(1)), Some(p));
    assert_eq!(m.expr_syntax(ExprId(2)), Some(p));
    assert_eq!(m.body().expr(ExprId(1)), &HirExpr::Try { expr: ExprId(2) });
    assert_eq!(m.body().expr(ExprId(2)), &HirExpr::Try { expr: ExprId(3) });
    // the pointer leads to the outer of the two, and so does not lead back
    // to the inner one
    assert_eq!(m.syntax_expr(p), Some(ExprId(1)));
    // parentheses around parentheses of the same range spoil nothing
    let tree = body_of(vec![n(PAREN_EXPR, vec![n(PAREN_EXPR, vec![path_expr("x")])])]);
    let m = lower(&tree);
    assert!(!m.is_fresh());
    check_consistent_but_fresh(&m);
    assert_eq!(m.syntax_expr(ptr(&tree, PAREN_EXPR, 0)), m.syntax_expr(ptr(&tree, PATH_EXPR, 0)));
}

#[test]
fn the_collector_lowers_single_expressions() {
    // ((x))
    let tree = file(vec![n(
        PAREN_EXPR,
        vec![
            t(L_PAREN, "("),
            n(PAREN_EXPR, vec![t(L_PAREN, "("), path_expr("x"), t(R_PAREN, ")")]),
            t(R_PAREN, ")"),
        ],
    )]);
    let mut collector = ExprCollector::new();
    let outer = Expr::cast(find(&tree, PAREN_EXPR, 0)).unwrap();
    let id = collector.collect_expr(outer);
    assert_eq!(id, ExprId(0));
    let m = collector.into_body_syntax_mapping(vec![], id);
    assert_eq!(m.body().expr_count(), 1);
    assert_eq!(m.body().expr(id), &path_of("x"));
    assert_eq!(m.expr_syntax(id), Some(ptr(&tree, PATH_EXPR, 0)));
    assert_eq!(m.syntax_expr(ptr(&tree, PATH_EXPR, 0)), Some(id));
    assert_eq!(m.syntax_expr(ptr(&tree, PAREN_EXPR, 0)), Some(id));
    assert_eq!(m.syntax_expr(ptr(&tree, PAREN_EXPR, 1)), Some(id));
    // a pattern and a block
    let tree = file(vec![
        n(TUPLE_STRUCT_PAT, vec![path("Some"), t(L_PAREN, "("), n(BIND_PAT, vec![name("y")]), t(R_PAREN, ")")]),
        block(vec![path_expr("z")]),
    ]);
    let mut collector = ExprCollector::new();
    let pat = collector.collect_pat(AstPat::cast(find(&tree, TUPLE_STRUCT_PAT, 0)).unwrap());
    let body = collector.collect_block(Block::cast(find(&tree, BLOCK, 0)).unwrap());
    let m = collector.into_body_syntax_mapping(vec![pat], body);
    assert_eq!(m.body().args(), &[PatId(0)]);
    assert_eq!(m.body().pat(PatId(0)), &Pat::TupleStruct { path: Some(plain("Some")), args: vec![PatId(1)] });
    assert_eq!(m.syntax_pat(ptr(&tree, TUPLE_STRUCT_PAT, 0)), Some(PatId(0)));
    assert_eq!(m.body().expr(body), &HirExpr::Block { statements: vec![], tail: Some(ExprId(1)) });
    assert_eq!(m.syntax_expr(ptr(&tree, BLOCK, 0)), Some(body));
}

#[test]
fn queries_on_bodies() {
    let tree = body_of(vec![path_expr("x")]);
    let f = FnDef::cast(find(&tree, FN_DEF, 0)).unwrap();
    let m = body_syntax_mapping(Ok(Def::Function(Function::new(DefId(0)))), f).unwrap();
    assert_eq!(*m, lower(&tree));
    let body = body_hir(Ok(m.clone())).unwrap();
    assert_eq!(&body, m.body());
    assert_eq!(body_syntax_mapping(Err(Canceled), f), Err(Canceled));
    assert_eq!(body_hir(Err(Canceled)), Err(Canceled));
}
