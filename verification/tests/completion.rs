use ra_core::ast::{AstNode, FnDef, Path as AstPath, UseItem};
use ra_core::complete_keyword::{complete_expr_keyword, complete_return, complete_use_tree_keyword, fn_returns_value, is_in_loop_body, keyword};
use ra_core::completion::{CompletionContext, CompletionItem, CompletionItemKind, CompletionKind, Completions, InsertText};
use ra_core::path::Path;
use ra_core::syntax::{SyntaxNodeRef, SyntaxTree};
use ra_core::syntax_kind::SyntaxKind;
use ra_core::syntax_kind::SyntaxKind::{BIND_PAT, BLOCK, BLOCK_EXPR, COLONCOLON, COMMA, CONDITION, EQ, EXCL, EXPR_STMT, FAT_ARROW, FN_DEF, FN_KW, FOR_EXPR, FOR_KW, IDENT, IF_EXPR, IF_KW, INT_NUMBER, IN_KW, LAMBDA_EXPR, LET_KW, LET_STMT, LITERAL, LOOP_EXPR, LOOP_KW, L_CURLY, L_PAREN, MATCH_ARM, MATCH_ARM_LIST, MATCH_EXPR, MATCH_KW, NAME, NAME_REF, NEVER_TYPE, PARAM_LIST, PATH, PATH_EXPR, PATH_SEGMENT, PATH_TYPE, PIPE, RET_TYPE, R_CURLY, R_PAREN, SEMI, SOURCE_FILE, THIN_ARROW, TRUE_KW, TUPLE_EXPR, TUPLE_PAT, TUPLE_TYPE, USE_ITEM, USE_KW, USE_TREE, USE_TREE_LIST, WHILE_EXPR, WHILE_KW, WHITESPACE};
use ra_core::tree_builder::TreeBuilder;

#[allow(dead_code)]
enum El {
    N(SyntaxKind, Vec<El>),
    T(SyntaxKind, &'static str),
}

#[allow(dead_code)]
fn n(kind: SyntaxKind, children: Vec<El>) -> El {
    El::N(kind, children)
}

#[allow(dead_code)]
fn t(kind: SyntaxKind, text: &'static str) -> El {
    El::T(kind, text)
}

#[allow(dead_code)]
fn ws(text: &'static str) -> El {
    El::T(WHITESPACE, text)
}

#[allow(dead_code)]
fn add(builder: &mut TreeBuilder, el: &El) {
    match el {
        El::N(kind, children) => {
            assert!(builder.start_node(*kind));
            for child in children {
                add(builder, child);
            }
            assert!(builder.finish_node());
        }
        El::T(kind, text) => {
            assert!(builder.token(*kind, text));
        }
    }
}

#[allow(dead_code)]
fn build(root: El) -> SyntaxTree {
    let mut builder = TreeBuilder::new();
    add(&mut builder, &root);
    builder.finish().unwrap()
}

/// The `nth` node of the given kind, in the order of the source.
#[allow(dead_code)]
fn find(tree: &SyntaxTree, kind: SyntaxKind, nth: usize) -> SyntaxNodeRef<'_> {
    let mut seen = 0;
    for i in 0..tree.len() {
        let node = tree.node(i).unwrap();
        if node.kind() == kind {
            if seen == nth {
                return node;
            }
            seen += 1;
        }
    }
    panic!("no such node: {:?} #{}", kind, nth)
}

/// The text that a node covers.
#[allow(dead_code)]
fn text_of(node: SyntaxNodeRef) -> String {
    match node.leaf_text() {
        Some(text) => text.clone(),
        None => {
            let mut out = String::new();
            for child in node.children() {
                out.push_str(&text_of(child));
            }
            out
        }
    }
}

fn name(text: &'static str) -> El {
    n(NAME, vec![t(IDENT, text)])
}

fn name_ref(text: &'static str) -> El {
    n(NAME_REF, vec![t(IDENT, text)])
}

fn path(text: &'static str) -> El {
    n(PATH, vec![n(PATH_SEGMENT, vec![name_ref(text)])])
}

fn path_expr(text: &'static str) -> El {
    n(PATH_EXPR, vec![path(text)])
}

fn block(mut inner: Vec<El>) -> El {
    let mut children = vec![t(L_CURLY, "{")];
    children.append(&mut inner);
    children.push(t(R_CURLY, "}"));
    n(BLOCK, children)
}

/// `fn quux() BODY` or `fn quux() -> i32 BODY`.
fn fn_def(name_text: &'static str, returns_value: bool, body: El) -> El {
    let mut children = vec![
        t(FN_KW, "fn"),
        ws(" "),
        name(name_text),
        n(PARAM_LIST, vec![t(L_PAREN, "("), t(R_PAREN, ")")]),
        ws(" "),
    ];
    if returns_value {
        children.push(n(RET_TYPE, vec![t(THIN_ARROW, "->"), ws(" "), n(PATH_TYPE, vec![path("i32")])]));
        children.push(ws(" "));
    }
    children.push(body);
    n(FN_DEF, children)
}

fn file(items: Vec<El>) -> SyntaxTree {
    build(n(SOURCE_FILE, items))
}

fn render(item: &CompletionItem) -> String {
    let mut out = item.label().to_string();
    if let Some(lookup) = item.own_lookup() {
        out.push_str(&format!(" {:?}", lookup));
    }
    if let Some(snippet) = item.snippet() {
        out.push_str(&format!(" {:?}", snippet));
    }
    out
}

fn lines(text: &str) -> Vec<String> {
    text.lines().map(|l| l.trim().to_string()).filter(|l| !l.is_empty()).collect()
}

/// Runs the keyword completions for a context and holds the completions
/// of kind `Keyword` against the expected ones, one on each line.
fn check_keyword_completion(ctx: &CompletionContext, expected_completions: &str) {
    let mut acc = Completions::new();
    complete_use_tree_keyword(&mut acc, ctx);
    complete_expr_keyword(&mut acc, ctx);
    let items = acc.into_vec();
    let got: Vec<String> =
        items.iter().filter(|c| c.completion_kind() == CompletionKind::Keyword).map(render).collect();
    assert_eq!(got, lines(expected_completions));
}

fn context<'a>(tree: &'a SyntaxTree, leaf: SyntaxNodeRef<'a>) -> CompletionContext<'a> {
    let mut function_syntax = None;
    let mut use_item_syntax = None;
    let mut node = Some(leaf);
    while let Some(n) = node {
        if function_syntax.is_none() {
            function_syntax = FnDef::cast(n);
        }
        if use_item_syntax.is_none() {
            use_item_syntax = UseItem::cast(n);
        }
        node = n.parent();
    }
    assert!(tree.len() > 0);
    CompletionContext {
        leaf,
        function_syntax,
        use_item_syntax,
        path_prefix: None,
        is_trivial_path: false,
        can_be_stmt: false,
        is_new_item: false,
        dot_receiver: None,
        is_method_call: false,
        after_if: false,
    }
}

/// The context of a cursor at the white space with number `nth` in a function.
fn in_function<'a>(tree: &'a SyntaxTree, leaf: SyntaxNodeRef<'a>, can_be_stmt: bool) -> CompletionContext<'a> {
    let mut ctx = context(tree, leaf);
    ctx.is_trivial_path = true;
    ctx.can_be_stmt = can_be_stmt;
    ctx
}

#[test]
fn completes_keywords_in_use_stmt() {
    // use <|>
    let tree = file(vec![n(USE_ITEM, vec![t(USE_KW, "use"), ws(" ")])]);
    let ctx = context(&tree, find(&tree, WHITESPACE, 0));
    check_keyword_completion(
        &ctx,
        r#"
        crate "crate" "crate::"
        self "self"
        super "super"
        "#,
    );

    // use a::<|>
    let tree = file(vec![n(
        USE_ITEM,
        vec![
            t(USE_KW, "use"),
            ws(" "),
            n(USE_TREE, vec![n(PATH, vec![path("a"), t(COLONCOLON, "::"), n(PATH_SEGMENT, vec![])])]),
        ],
    )]);
    let mut ctx = context(&tree, find(&tree, COLONCOLON, 0));
    ctx.path_prefix = Path::from_ast(AstPath::cast(find(&tree, PATH, 1)).unwrap());
    assert!(ctx.path_prefix.is_some());
    check_keyword_completion(
        &ctx,
        r#"
        self "self"
        super "super"
        "#,
    );

    // use a::{b, <|>}
    let tree = file(vec![n(
        USE_ITEM,
        vec![
            t(USE_KW, "use"),
            ws(" "),
            n(
                USE_TREE,
                vec![
                    path("a"),
                    t(COLONCOLON, "::"),
                    n(
                        USE_TREE_LIST,
                        vec![
                            t(L_CURLY, "{"),
                            n(USE_TREE, vec![path("b")]),
                            t(COMMA, ","),
                            ws(" "),
                            t(R_CURLY, "}"),
                        ],
                    ),
                ],
            ),
        ],
    )]);
    let mut ctx = context(&tree, find(&tree, WHITESPACE, 1));
    ctx.path_prefix = Path::from_ast(AstPath::cast(find(&tree, PATH, 0)).unwrap());
    assert!(ctx.path_prefix.is_some());
    check_keyword_completion(
        &ctx,
        r#"
        self "self"
        super "super"
        "#,
    );
}

#[test]
fn completes_various_keywords_in_function() {
    // fn quux() {
    //     <|>
    // }
    let tree = file(vec![fn_def("quux", false, block(vec![ws("\n    \n")]))]);
    let ctx = in_function(&tree, find(&tree, WHITESPACE, 2), true);
    check_keyword_completion(
        &ctx,
        r#"
        if "if $0 {}"
        match "match $0 {}"
        while "while $0 {}"
        loop "loop {$0}"
        return "return;"
        "#,
    );
}

#[test]
fn completes_else_after_if() {
    // fn quux() {
    //     if true {
    //         ()
    //     } <|>
    // }
    let tree = file(vec![fn_def(
        "quux",
        false,
        block(vec![
            ws("\n    "),
            n(
                IF_EXPR,
                vec![
                    t(IF_KW, "if"),
                    ws(" "),
                    n(CONDITION, vec![n(LITERAL, vec![t(TRUE_KW, "true")])]),
                    ws(" "),
                    block(vec![
                        ws("\n        "),
                        n(TUPLE_EXPR, vec![t(L_PAREN, "("), t(R_PAREN, ")")]),
                        ws("\n    "),
                    ]),
                ],
            ),
            ws(" \n"),
        ]),
    )]);
    let leaf = find(&tree, WHITESPACE, 7);
    assert_eq!(text_of(leaf), " \n");
    let mut ctx = in_function(&tree, leaf, true);
    ctx.after_if = true;
    check_keyword_completion(
        &ctx,
        r#"
        if "if $0 {}"
        match "match $0 {}"
        while "while $0 {}"
        loop "loop {$0}"
        else "else {$0}"
        else if "else if $0 {}"
        return "return;"
        "#,
    );
}

#[test]
fn test_completion_return_value() {
    // fn quux() -> i32 {
    //     <|>
    //     92
    // }
    let tree = file(vec![fn_def(
        "quux",
        true,
        block(vec![ws("\n    \n    "), n(LITERAL, vec![t(INT_NUMBER, "92")]), ws("\n")]),
    )]);
    let leaf = find(&tree, WHITESPACE, 4);
    assert_eq!(text_of(leaf), "\n    \n    ");
    let ctx = in_function(&tree, leaf, true);
    check_keyword_completion(
        &ctx,
        r#"
        if "if $0 {}"
        match "match $0 {}"
        while "while $0 {}"
        loop "loop {$0}"
        return "return $0;"
        "#,
    );
    // fn quux() {
    //     <|>
    //     92
    // }
    let tree = file(vec![fn_def(
        "quux",
        false,
        block(vec![ws("\n    \n    "), n(LITERAL, vec![t(INT_NUMBER, "92")]), ws("\n")]),
    )]);
    let leaf = find(&tree, WHITESPACE, 2);
    assert_eq!(text_of(leaf), "\n    \n    ");
    let ctx = in_function(&tree, leaf, true);
    check_keyword_completion(
        &ctx,
        r#"
        if "if $0 {}"
        match "match $0 {}"
        while "while $0 {}"
        loop "loop {$0}"
        return "return;"
        "#,
    );
}

/// `match () { () => ARM }`
fn match_unit(arm: Vec<El>) -> El {
    let mut arm_children =
        vec![n(TUPLE_PAT, vec![t(L_PAREN, "("), t(R_PAREN, ")")]), ws(" "), t(FAT_ARROW, "=>"), ws(" ")];
    arm_children.extend(arm);
    n(
        MATCH_EXPR,
        vec![
            t(MATCH_KW, "match"),
            ws(" "),
            n(TUPLE_EXPR, vec![t(L_PAREN, "("), t(R_PAREN, ")")]),
            ws(" "),
            n(
                MATCH_ARM_LIST,
                vec![t(L_CURLY, "{"), ws("\n"), n(MATCH_ARM, arm_children), t(R_CURLY, "}")],
            ),
        ],
    )
}

#[test]
fn dont_add_semi_after_return_if_not_a_statement() {
    // fn quux() -> i32 {
    //     match () {
    //         () => <|>
    //     }
    // }
    let tree = file(vec![fn_def("quux", true, block(vec![ws("\n"), match_unit(vec![ws("\n")]), ws("\n")]))]);
    let leaf = find(&tree, WHITESPACE, 10);
    assert_eq!(find(&tree, MATCH_ARM, 0).child_count(), 5);
    assert_eq!(leaf.parent().unwrap().kind(), MATCH_ARM);
    let ctx = in_function(&tree, leaf, false);
    check_keyword_completion(
        &ctx,
        r#"
        if "if $0 {}"
        match "match $0 {}"
        while "while $0 {}"
        loop "loop {$0}"
        return "return $0"
        "#,
    );
}

/// `if condition { <|> }`
fn if_condition() -> El {
    n(
        IF_EXPR,
        vec![
            t(IF_KW, "if"),
            ws(" "),
            n(CONDITION, vec![path_expr("condition")]),
            ws(" "),
            block(vec![ws("\n        \n    ")]),
        ],
    )
}

#[test]
fn last_return_in_block_has_semi() {
    // fn quux() -> i32 {
    //     if condition {
    //         <|>
    //     }
    // }
    let tree = file(vec![fn_def("quux", true, block(vec![ws("\n    "), if_condition(), ws("\n")]))]);
    let leaf = find(&tree, WHITESPACE, 7);
    assert_eq!(text_of(leaf), "\n        \n    ");
    let ctx = in_function(&tree, leaf, true);
    check_keyword_completion(
        &ctx,
        r#"
        if "if $0 {}"
        match "match $0 {}"
        while "while $0 {}"
        loop "loop {$0}"
        return "return $0;"
        "#,
    );
    // fn quux() -> i32 {
    //     if condition {
    //         <|>
    //     }
    //     let x = 92;
    //     x
    // }
    let tree = file(vec![fn_def(
        "quux",
        true,
        block(vec![
            ws("\n    "),
            n(EXPR_STMT, vec![if_condition()]),
            ws("\n    "),
            n(
                LET_STMT,
                vec![
                    t(LET_KW, "let"),
                    ws(" "),
                    n(BIND_PAT, vec![name("x")]),
                    ws(" "),
                    t(EQ, "="),
                    ws(" "),
                    n(LITERAL, vec![t(INT_NUMBER, "92")]),
                    t(SEMI, ";"),
                ],
            ),
            ws("\n    "),
            path_expr("x"),
            ws("\n"),
        ]),
    )]);
    let leaf = find(&tree, WHITESPACE, 7);
    assert_eq!(text_of(leaf), "\n        \n    ");
    let ctx = in_function(&tree, leaf, true);
    check_keyword_completion(
        &ctx,
        r#"
        if "if $0 {}"
        match "match $0 {}"
        while "while $0 {}"
        loop "loop {$0}"
        return "return $0;"
        "#,
    );
}

#[test]
fn completes_break_and_continue_in_loops() {
    // fn quux() -> i32 {
    //     loop { <|> }
    // }
    let tree = file(vec![fn_def(
        "quux",
        true,
        block(vec![
            ws("\n    "),
            n(LOOP_EXPR, vec![t(LOOP_KW, "loop"), ws(" "), block(vec![ws("  ")])]),
            ws("\n"),
        ]),
    )]);
    let leaf = find(&tree, WHITESPACE, 6);
    assert_eq!(text_of(leaf), "  ");
    assert!(is_in_loop_body(leaf));
    let ctx = in_function(&tree, leaf, true);
    check_keyword_completion(
        &ctx,
        r#"
        if "if $0 {}"
        match "match $0 {}"
        while "while $0 {}"
        loop "loop {$0}"
        continue "continue;"
        break "break;"
        return "return $0;"
        "#,
    );
    // No completion: lambda isolates control flow
    // fn quux() -> i32 {
    //     loop { || { <|> } }
    // }
    let tree = file(vec![fn_def(
        "quux",
        true,
        block(vec![
            ws("\n    "),
            n(
                LOOP_EXPR,
                vec![
                    t(LOOP_KW, "loop"),
                    ws(" "),
                    block(vec![
                        ws(" "),
                        n(
                            LAMBDA_EXPR,
                            vec![
                                n(PARAM_LIST, vec![t(PIPE, "|"), t(PIPE, "|")]),
                                ws(" "),
                                n(BLOCK_EXPR, vec![block(vec![ws("  ")])]),
                            ],
                        ),
                        ws(" "),
                    ]),
                ],
            ),
            ws("\n"),
        ]),
    )]);
    let leaf = find(&tree, WHITESPACE, 8);
    assert_eq!(text_of(leaf), "  ");
    assert!(!is_in_loop_body(leaf));
    let ctx = in_function(&tree, leaf, true);
    check_keyword_completion(
        &ctx,
        r#"
        if "if $0 {}"
        match "match $0 {}"
        while "while $0 {}"
        loop "loop {$0}"
        return "return $0;"
        "#,
    );
}

#[test]
fn no_semi_after_break_continue_in_expr() {
    // fn f() {
    //     loop {
    //         match () {
    //             () => br<|>
    //         }
    //     }
    // }
    let tree = file(vec![fn_def(
        "f",
        false,
        block(vec![
            ws("\n    "),
            n(
                LOOP_EXPR,
                vec![
                    t(LOOP_KW, "loop"),
                    ws(" "),
                    block(vec![ws("\n"), match_unit(vec![path_expr("br"), ws("\n")]), ws("\n")]),
                ],
            ),
            ws("\n"),
        ]),
    )]);
    let leaf = find(&tree, IDENT, 1);
    assert_eq!(text_of(leaf), "br");
    let ctx = in_function(&tree, leaf, false);
    check_keyword_completion(
        &ctx,
        r#"
        if "if $0 {}"
        match "match $0 {}"
        while "while $0 {}"
        loop "loop {$0}"
        continue "continue"
        break "break"
        return "return"
        "#,
    )
}

#[test]
fn keywords_need_a_trivial_path_and_a_function() {
    let tree = file(vec![fn_def("quux", false, block(vec![ws(" ")]))]);
    let leaf = find(&tree, WHITESPACE, 2);
    let mut ctx = in_function(&tree, leaf, true);
    ctx.is_trivial_path = false;
    check_keyword_completion(&ctx, "");
    let mut ctx = in_function(&tree, leaf, true);
    ctx.function_syntax = None;
    check_keyword_completion(&ctx, "");
}

#[test]
fn loop_search_takes_while_and_for_and_stops_at_functions() {
    // fn f() { while c { } }
    let tree = file(vec![fn_def(
        "f",
        false,
        block(vec![n(
            WHILE_EXPR,
            vec![t(WHILE_KW, "while"), ws(" "), n(CONDITION, vec![path_expr("c")]), ws(" "), block(vec![ws(" ")])],
        )]),
    )]);
    assert!(is_in_loop_body(find(&tree, WHITESPACE, 4)));
    // the condition is no part of the body
    assert!(!is_in_loop_body(find(&tree, IDENT, 1)));
    // fn f() { for x in c { } }
    let tree = file(vec![fn_def(
        "f",
        false,
        block(vec![n(
            FOR_EXPR,
            vec![
                t(FOR_KW, "for"),
                ws(" "),
                n(BIND_PAT, vec![name("x")]),
                ws(" "),
                t(IN_KW, "in"),
                ws(" "),
                path_expr("c"),
                ws(" "),
                block(vec![ws(" ")]),
            ],
        )]),
    )]);
    assert!(is_in_loop_body(find(&tree, WHITESPACE, 6)));
    // loop { fn f() { } }
    let tree = build(n(
        LOOP_EXPR,
        vec![t(LOOP_KW, "loop"), block(vec![fn_def("f", false, block(vec![ws(" ")]))])],
    ));
    assert!(!is_in_loop_body(find(&tree, WHITESPACE, 2)));
    assert!(!is_in_loop_body(find(&tree, FN_KW, 0)));
    assert!(is_in_loop_body(find(&tree, L_CURLY, 0)));
}

#[test]
fn return_snippets() {
    let with_value = file(vec![fn_def("f", true, block(vec![]))]);
    let without = file(vec![fn_def("f", false, block(vec![]))]);
    let f = |tree: &SyntaxTree, stmt: bool| {
        let item = complete_return(FnDef::cast(find(tree, FN_DEF, 0)).unwrap(), stmt).unwrap();
        assert_eq!(item.label(), "return");
        assert_eq!(item.kind(), Some(CompletionItemKind::Keyword));
        item.snippet().unwrap().to_string()
    };
    assert_eq!(f(&with_value, true), "return $0;");
    assert_eq!(f(&with_value, false), "return $0");
    assert_eq!(f(&without, true), "return;");
    assert_eq!(f(&without, false), "return");
}

/// `fn f() -> RET BODY`
fn fn_returning(ret: Vec<El>, body: El) -> El {
    let mut children = vec![
        t(FN_KW, "fn"),
        ws(" "),
        name("f"),
        n(PARAM_LIST, vec![t(L_PAREN, "("), t(R_PAREN, ")")]),
        ws(" "),
    ];
    let mut ret_type = vec![t(THIN_ARROW, "->"), ws(" ")];
    ret_type.extend(ret);
    children.push(n(RET_TYPE, ret_type));
    children.push(ws(" "));
    children.push(body);
    n(FN_DEF, children)
}

#[test]
fn no_value_is_offered_to_a_function_that_returns_unit() {
    // fn f() -> () { <|> }
    let unit = n(TUPLE_TYPE, vec![t(L_PAREN, "("), t(R_PAREN, ")")]);
    let tree = file(vec![fn_returning(vec![unit], block(vec![ws(" ")]))]);
    let f = FnDef::cast(find(&tree, FN_DEF, 0)).unwrap();
    assert!(!fn_returns_value(f));
    assert_eq!(complete_return(f, true).unwrap().snippet(), Some("return;"));
    assert_eq!(complete_return(f, false).unwrap().snippet(), Some("return"));
    let ctx = in_function(&tree, find(&tree, WHITESPACE, 4), true);
    check_keyword_completion(
        &ctx,
        r#"
        if "if $0 {}"
        match "match $0 {}"
        while "while $0 {}"
        loop "loop {$0}"
        return "return;"
        "#,
    );
    // fn f() -> (i32, u8) { } and fn f() -> (i32,) { } return values
    let pair = n(
        TUPLE_TYPE,
        vec![t(L_PAREN, "("), n(PATH_TYPE, vec![path("i32")]), t(COMMA, ","), n(PATH_TYPE, vec![path("u8")]), t(R_PAREN, ")")],
    );
    let tree = file(vec![fn_returning(vec![pair], block(vec![]))]);
    let f = FnDef::cast(find(&tree, FN_DEF, 0)).unwrap();
    assert!(fn_returns_value(f));
    assert_eq!(complete_return(f, true).unwrap().snippet(), Some("return $0;"));
    // fn f() -> ! { } and a return type that is not written out
    let tree = file(vec![fn_returning(vec![n(NEVER_TYPE, vec![t(EXCL, "!")])], block(vec![]))]);
    assert!(fn_returns_value(FnDef::cast(find(&tree, FN_DEF, 0)).unwrap()));
    let tree = file(vec![fn_returning(vec![], block(vec![]))]);
    assert!(fn_returns_value(FnDef::cast(find(&tree, FN_DEF, 0)).unwrap()));
    let tree = file(vec![fn_def("f", false, block(vec![]))]);
    assert!(!fn_returns_value(FnDef::cast(find(&tree, FN_DEF, 0)).unwrap()));
}

#[test]
fn keyword_items() {
    let item = keyword("loop", "loop {$0}");
    assert_eq!(item.label(), "loop");
    assert_eq!(item.lookup(), "loop");
    assert_eq!(item.own_lookup(), None);
    assert_eq!(item.snippet(), Some("loop {$0}"));
    assert_eq!(item.insert_text(), InsertText::Snippet { text: "loop {$0}".to_string() });
    assert_eq!(item.completion_kind(), CompletionKind::Keyword);
    let plain = CompletionItem::new(CompletionKind::Reference, "foo").lookup_by("bar").build();
    assert_eq!(plain.lookup(), "bar");
    assert_eq!(plain.insert_text(), InsertText::PlainText { text: "foo".to_string() });
    assert_eq!(plain.kind(), None);
}
