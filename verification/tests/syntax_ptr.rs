use ra_core::ast::{AstNode, NamedFieldDef};
use ra_core::syntax_ptr::LocalSyntaxPtr;
use ra_core::text_range::TextRange;
use ra_core::syntax::{SyntaxNodeRef, SyntaxTree};
use ra_core::syntax_kind::SyntaxKind;
use ra_core::syntax_kind::SyntaxKind::{ARG_LIST, BLOCK, COLON, COMMA, COMMENT, ERROR, FN_DEF, IDENT, L_CURLY, NAME, NAMED_FIELD_DEF, NAMED_FIELD_DEF_LIST, NAME_REF, PAREN_EXPR, PATH, PATH_SEGMENT, PATH_TYPE, R_CURLY, SEMI, SOURCE_FILE, STRUCT_DEF, STRUCT_KW, WHITESPACE};
use ra_core::tree_builder::TreeBuilder;

#[allow(dead_code)]
enum El {
    N(SyntaxKind, Vec<El>),
    T(SyntaxKind, &'static str),
}

#[allow(dead_code)]
fn n(kind: SyntaxKind, children: Vec<El>) -> El {
    El::N(kind, children)
}

#[allow(dead_code)]
fn t(kind: SyntaxKind, text: &'static str) -> El {
    El::T(kind, text)
}

#[allow(dead_code)]
fn ws(text: &'static str) -> El {
    El::T(WHITESPACE, text)
}

#[allow(dead_code)]
fn add(builder: &mut TreeBuilder, el: &El) {
    match el {
        El::N(kind, children) => {
            assert!(builder.start_node(*kind));
            for child in children {
                add(builder, child);
            }
            assert!(builder.finish_node());
        }
        El::T(kind, text) => {
            assert!(builder.token(*kind, text));
        }
    }
}

#[allow(dead_code)]
fn build(root: El) -> SyntaxTree {
    let mut builder = TreeBuilder::new();
    add(&mut builder, &root);
    builder.finish().unwrap()
}

/// The `nth` node of the given kind, in the order of the source.
#[allow(dead_code)]
fn find(tree: &SyntaxTree, kind: SyntaxKind, nth: usize) -> SyntaxNodeRef<'_> {
    let mut seen = 0;
    for i in 0..tree.len() {
        let node = tree.node(i).unwrap();
        if node.kind() == kind {
            if seen == nth {
                return node;
            }
            seen += 1;
        }
    }
    panic!("no such node: {:?} #{}", kind, nth)
}

/// The text that a node covers.
#[allow(dead_code)]
fn text_of(node: SyntaxNodeRef) -> String {
    match node.leaf_text() {
        Some(text) => text.clone(),
        None => {
            let mut out = String::new();
            for child in node.children() {
                out.push_str(&text_of(child));
            }
            out
        }
    }
}

fn name(text: &'static str) -> El {
    n(NAME, vec![t(IDENT, text)])
}

fn path_type(text: &'static str) -> El {
    n(PATH_TYPE, vec![n(PATH, vec![n(PATH_SEGMENT, vec![n(NAME_REF, vec![t(IDENT, text)])])])])
}

/// `struct Foo { f: u32, }`
fn struct_foo() -> SyntaxTree {
    build(n(
        SOURCE_FILE,
        vec![n(
            STRUCT_DEF,
            vec![
                t(STRUCT_KW, "struct"),
                ws(" "),
                name("Foo"),
                ws(" "),
                n(
                    NAMED_FIELD_DEF_LIST,
                    vec![
                        t(L_CURLY, "{"),
                        ws(" "),
                        n(NAMED_FIELD_DEF, vec![name("f"), t(COLON, ":"), ws(" "), path_type("u32")]),
                        t(COMMA, ","),
                        ws(" "),
                        t(R_CURLY, "}"),
                    ],
                ),
            ],
        )],
    ))
}

#[test]
fn test_local_syntax_ptr() {
    let file = struct_foo();
    assert_eq!(text_of(file.root()), "struct Foo { f: u32, }");
    let field = (0..file.len()).find_map(|i| NamedFieldDef::cast(file.node(i).unwrap())).unwrap();
    let ptr = LocalSyntaxPtr::new(field.syntax());
    let field_syntax = ptr.resolve(&file);
    assert_eq!(field.syntax(), field_syntax);
}

#[test]
fn pointer_holds_range_and_kind() {
    let file = struct_foo();
    let field = find(&file, NAMED_FIELD_DEF, 0);
    let ptr = LocalSyntaxPtr::new(field);
    assert_eq!(ptr.kind(), NAMED_FIELD_DEF);
    assert_eq!(ptr.range(), TextRange::from_to(13, 19));
    assert_eq!(ptr.range().start(), 13);
    assert_eq!(ptr.range().end(), 19);
    assert_eq!(ptr.range().len(), 6);
    assert_eq!(ptr, LocalSyntaxPtr { range: TextRange { start: 13, end: 19 }, kind: NAMED_FIELD_DEF });
    assert_ne!(ptr, LocalSyntaxPtr::new(find(&file, NAME, 1)));
}

#[test]
fn pointer_round_trips_for_nodes_with_text() {
    let file = struct_foo();
    for i in 0..file.len() {
        let node = file.node(i).unwrap();
        let ptr = LocalSyntaxPtr::new(node);
        assert_eq!(ptr.try_resolve(&file), Some(node));
        assert_eq!(ptr.resolve(&file).idx(), i);
    }
}

#[test]
fn pointer_resolves_in_a_tree_of_the_same_shape() {
    let first = struct_foo();
    let second = struct_foo();
    let ptr = LocalSyntaxPtr::new(find(&first, COLON, 0));
    let found = ptr.resolve(&second);
    assert_eq!(found.kind(), COLON);
    assert_eq!(found.idx(), find(&first, COLON, 0).idx());
}

#[test]
fn pointer_does_not_resolve_in_another_tree() {
    let file = struct_foo();
    let other = build(n(SOURCE_FILE, vec![n(STRUCT_DEF, vec![t(STRUCT_KW, "struct"), ws(" "), name("Foo")])]));
    let ptr = LocalSyntaxPtr::new(find(&file, NAMED_FIELD_DEF, 0));
    assert_eq!(ptr.try_resolve(&other), None);
    // the kind matters as well as the range
    let wrong_kind = LocalSyntaxPtr { range: TextRange::from_to(13, 19), kind: BLOCK };
    assert_eq!(wrong_kind.try_resolve(&file), None);
}

#[test]
fn pointer_to_a_node_that_fills_its_parent_of_the_same_kind_finds_the_parent() {
    let file = build(n(SOURCE_FILE, vec![n(PAREN_EXPR, vec![n(PAREN_EXPR, vec![t(IDENT, "x")])])]));
    let inner = find(&file, PAREN_EXPR, 1);
    let outer = find(&file, PAREN_EXPR, 0);
    assert_eq!(LocalSyntaxPtr::new(inner), LocalSyntaxPtr::new(outer));
    assert_eq!(LocalSyntaxPtr::new(inner).resolve(&file), outer);
}

#[test]
fn subranges() {
    let outer = TextRange::from_to(2, 10);
    assert!(TextRange::from_to(2, 10).is_subrange(&outer));
    assert!(TextRange::from_to(3, 4).is_subrange(&outer));
    assert!(TextRange::from_to(10, 10).is_subrange(&outer));
    assert!(!TextRange::from_to(1, 4).is_subrange(&outer));
    assert!(!TextRange::from_to(9, 11).is_subrange(&outer));
}

#[test]
fn builder_numbers_nodes_in_the_order_of_the_source() {
    let file = struct_foo();
    assert_eq!(file.root().kind(), SOURCE_FILE);
    assert_eq!(file.root().idx(), 0);
    assert_eq!(file.root().parent(), None);
    let def = find(&file, STRUCT_DEF, 0);
    assert_eq!(def.idx(), 1);
    assert_eq!(def.parent(), Some(file.root()));
    assert_eq!(def.child_count(), 5);
    assert_eq!(def.first_child().unwrap().kind(), STRUCT_KW);
    assert_eq!(def.last_child().unwrap().kind(), NAMED_FIELD_DEF_LIST);
    assert_eq!(def.child(2).kind(), NAME);
    assert_eq!(def.range(), TextRange::from_to(0, 22));
    let kw = find(&file, STRUCT_KW, 0);
    assert_eq!(kw.leaf_text().map(|s| s.as_str()), Some("struct"));
    assert_eq!(kw.range(), TextRange::from_to(0, 6));
    assert_eq!(def.leaf_text(), None);
    assert!(def.has_child_of_kind(NAME));
    assert!(!def.has_child_of_kind(COLON));
    assert!(kw.same_node(def.child(0)));
    assert!(file.node(file.len()).is_none());
}

#[test]
fn builder_refuses_what_makes_no_tree() {
    let mut b = TreeBuilder::new();
    // no token without an open node, no token kind for a node
    assert!(!b.token(IDENT, "x"));
    assert!(!b.start_node(IDENT));
    assert!(!b.finish_node());
    assert!(b.start_node(SOURCE_FILE));
    // no node kind for a token
    assert!(!b.token(SOURCE_FILE, "x"));
    assert!(b.token(IDENT, "x"));
    assert!(b.finish_node());
    // the root is finished: nothing more can come
    assert!(!b.start_node(SOURCE_FILE));
    assert!(!b.token(IDENT, "y"));
    assert!(!b.finish_node());
    let tree = b.finish().unwrap();
    assert_eq!(tree.len(), 2);
    let mut open = TreeBuilder::new();
    assert!(open.start_node(SOURCE_FILE));
    assert!(open.finish().is_none());
    assert!(TreeBuilder::new().finish().is_none());
}

#[test]
fn ranges_count_bytes() {
    let tree = build(n(SOURCE_FILE, vec![t(COMMENT, "// é"), ws("\n"), n(ERROR, vec![])]));
    assert_eq!(find(&tree, COMMENT, 0).range(), TextRange::from_to(0, 5));
    assert_eq!(find(&tree, WHITESPACE, 0).range(), TextRange::from_to(5, 6));
    assert_eq!(find(&tree, ERROR, 0).range(), TextRange::from_to(6, 6));
    assert_eq!(tree.root().range(), TextRange::from_to(0, 6));
}

#[test]
fn kinds_have_codes_of_their_own() {
    assert_eq!(SEMI.code(), 0);
    assert!(SEMI.is_token());
    assert!(WHITESPACE.is_token());
    assert!(COMMENT.is_token());
    assert!(!ERROR.is_token());
    assert!(!SOURCE_FILE.is_token());
    assert!(!ARG_LIST.is_token());
    assert_ne!(FN_DEF.code(), STRUCT_DEF.code());
    assert_eq!(ARG_LIST.code(), 210);
}
