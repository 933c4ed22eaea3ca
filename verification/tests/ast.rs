use ra_core::ast::{Attr, AstNode, BinExpr, BinOp, Byte, ByteString, Char, Comment, CommentFlavor, DocCommentsOwner, EnumVariant, Expr, FnDef, FnDefOwner, AttrsOwner, IfExpr, ImplBlock as AstImplBlock, LetStmt, Lifetime, Module, ModuleItem, ModuleItemOwner, Name, NameOwner, NameRef, NamedFieldDefList, Path as AstPath, PathSegment, PathSegmentKind, PointerType, PosFieldList, PrefixExpr, PrefixOp, RefExpr, ReferenceType, SelfParam, SelfParamFlavor, SourceFile, StructDef, StructFlavor, UseTree, UseTreeList, VisibilityOwner, Whitespace};
use ra_core::ast::generated::String as StringLit;
use ra_core::text::join_lines;
use ra_core::syntax::{SyntaxNodeRef, SyntaxTree};
use ra_core::syntax_kind::SyntaxKind;
use ra_core::syntax_kind::SyntaxKind::{AMP, AMPAMP, ATTR, BIND_PAT, BIN_EXPR, BLOCK, BYTE, BYTE_STRING, CHAR, COLONCOLON, COMMA, COMMENT, CONDITION, CONST_KW, CRATE_KW, ELSE_KW, ENUM_VARIANT, EQ, EQEQ, EXCL, FN_DEF, FN_KW, FOR_KW, GTEQ, IDENT, IF_EXPR, IF_KW, IMPL_BLOCK, IMPL_KW, INT_NUMBER, ITEM_LIST, LET_KW, LET_STMT, LIFETIME, LTEQ, L_ANGLE, L_BRACK, L_CURLY, L_PAREN, MINUS, MODULE, MOD_KW, MUT_KW, NAME, NAMED_FIELD_DEF_LIST, NAME_REF, PATH, PATH_EXPR, PATH_SEGMENT, PATH_TYPE, PIPEPIPE, PLUS, POINTER_TYPE, POS_FIELD_LIST, POUND, PREFIX_EXPR, REFERENCE_TYPE, REF_EXPR, R_ANGLE, R_BRACK, R_CURLY, R_PAREN, SELF_KW, SELF_PARAM, SEMI, SOURCE_FILE, STAR, STRING, STRUCT_DEF, STRUCT_KW, SUPER_KW, TOKEN_TREE, USE_ITEM, USE_KW, USE_TREE, USE_TREE_LIST, WHITESPACE};
use ra_core::tree_builder::TreeBuilder;

#[allow(dead_code)]
enum El {
    N(SyntaxKind, Vec<El>),
    T(SyntaxKind, &'static str),
}

#[allow(dead_code)]
fn n(kind: SyntaxKind, children: Vec<El>) -> El {
    El::N(kind, children)
}

#[allow(dead_code)]
fn t(kind: SyntaxKind, text: &'static str) -> El {
    El::T(kind, text)
}

#[allow(dead_code)]
fn ws(text: &'static str) -> El {
    El::T(WHITESPACE, text)
}

#[allow(dead_code)]
fn add(builder: &mut TreeBuilder, el: &El) {
    match el {
        El::N(kind, children) => {
            assert!(builder.start_node(*kind));
            for child in children {
                add(builder, child);
            }
            assert!(builder.finish_node());
        }
        El::T(kind, text) => {
            assert!(builder.token(*kind, text));
        }
    }
}

#[allow(dead_code)]
fn build(root: El) -> SyntaxTree {
    let mut builder = TreeBuilder::new();
    add(&mut builder, &root);
    builder.finish().unwrap()
}

/// The `nth` node of the given kind, in the order of the source.
#[allow(dead_code)]
fn find(tree: &SyntaxTree, kind: SyntaxKind, nth: usize) -> SyntaxNodeRef<'_> {
    let mut seen = 0;
    for i in 0..tree.len() {
        let node = tree.node(i).unwrap();
        if node.kind() == kind {
            if seen == nth {
                return node;
            }
            seen += 1;
        }
    }
    panic!("no such node: {:?} #{}", kind, nth)
}

/// The text that a node covers.
#[allow(dead_code)]
fn text_of(node: SyntaxNodeRef) -> String {
    match node.leaf_text() {
        Some(text) => text.clone(),
        None => {
            let mut out = String::new();
            for child in node.children() {
                out.push_str(&text_of(child));
            }
            out
        }
    }
}

fn name(text: &'static str) -> El {
    n(NAME, vec![t(IDENT, text)])
}

fn name_ref(text: &'static str) -> El {
    n(NAME_REF, vec![t(IDENT, text)])
}

fn path(text: &'static str) -> El {
    n(PATH, vec![n(PATH_SEGMENT, vec![name_ref(text)])])
}

fn path_expr(text: &'static str) -> El {
    n(PATH_EXPR, vec![path(text)])
}

fn path_type(text: &'static str) -> El {
    n(PATH_TYPE, vec![path(text)])
}

fn block(mut inner: Vec<El>) -> El {
    let mut children = vec![t(L_CURLY, "{")];
    children.append(&mut inner);
    children.push(t(R_CURLY, "}"));
    n(BLOCK, children)
}

fn file(items: Vec<El>) -> SyntaxTree {
    build(n(SOURCE_FILE, items))
}

#[test]
fn test_doc_comment_of_items() {
    //! doc
    // non-doc
    // mod foo {}
    let file = file(vec![
        ws("\n        "),
        n(
            MODULE,
            vec![
                t(COMMENT, "//! doc"),
                ws("\n        "),
                t(COMMENT, "// non-doc"),
                ws("\n        "),
                t(MOD_KW, "mod"),
                ws(" "),
                name("foo"),
                ws(" "),
                n(ITEM_LIST, vec![t(L_CURLY, "{"), t(R_CURLY, "}")]),
            ],
        ),
        ws("\n        "),
    ]);
    let module = (0..file.len()).find_map(|i| Module::cast(file.node(i).unwrap())).unwrap();
    assert_eq!("doc", module.doc_comment_text());
}

#[test]
fn doc_comments_are_joined_by_line_feeds() {
    let file = file(vec![n(
        FN_DEF,
        vec![
            t(COMMENT, "/// first line "),
            ws("\n"),
            t(COMMENT, "/* not a doc comment */"),
            ws("\n"),
            t(COMMENT, "///second"),
            ws("\n"),
            t(COMMENT, "// plain"),
            ws("\n"),
            t(COMMENT, "//!   third"),
            ws("\n"),
            t(FN_KW, "fn"),
            ws(" "),
            name("f"),
        ],
    )]);
    let f = FnDef::cast(find(&file, FN_DEF, 0)).unwrap();
    assert_eq!(f.doc_comment_text(), "first line\nsecond\nthird");
    let mut comments = f.doc_comments();
    assert_eq!(comments.next().unwrap().text(), "/// first line ");
    assert_eq!(comments.nth(1).unwrap().text(), "///second");
    let bare = FnDef::cast(find(&build(n(FN_DEF, vec![t(FN_KW, "fn")])), FN_DEF, 0))
        .map(|f| f.doc_comment_text());
    assert_eq!(bare, Some(String::new()));
    assert_eq!(join_lines(&vec![String::from("a"), String::from("b"), String::from("")]), "a\nb\n");
    assert_eq!(join_lines(&vec![String::from("a")]), "a");
    assert_eq!(join_lines(&vec![]), "");
}

fn comment(text: &'static str) -> SyntaxTree {
    build(n(SOURCE_FILE, vec![t(COMMENT, text)]))
}

#[test]
fn comment_flavors() {
    let cases = [
        ("/// doc", CommentFlavor::Doc, "///", true),
        ("//! module doc", CommentFlavor::ModuleDoc, "//!", true),
        ("// line", CommentFlavor::Line, "//", false),
        ("//", CommentFlavor::Line, "//", false),
        ("/* multi\nline */", CommentFlavor::Multiline, "/*", false),
        ("/", CommentFlavor::Multiline, "/*", false),
        ("//// four", CommentFlavor::Doc, "///", true),
    ];
    for (text, flavor, prefix, is_doc) in cases {
        let tree = comment(text);
        let c = Comment::cast(find(&tree, COMMENT, 0)).unwrap();
        assert_eq!(c.text(), text);
        assert_eq!(c.flavor(), flavor);
        assert_eq!(c.prefix(), prefix);
        assert_eq!(c.is_doc_comment(), is_doc);
        assert_eq!(flavor.prefix(), prefix);
        assert_eq!(flavor.is_doc_comment(), is_doc);
    }
}

#[test]
fn newlines_are_counted() {
    let tree = comment("/* a\nb\n\nc */");
    let c = Comment::cast(find(&tree, COMMENT, 0)).unwrap();
    assert_eq!(c.count_newlines_lazy(), 3);
    assert!(c.has_newlines());
    let tree = comment("// é none");
    let c = Comment::cast(find(&tree, COMMENT, 0)).unwrap();
    assert_eq!(c.count_newlines_lazy(), 0);
    assert!(!c.has_newlines());
    let tree = file(vec![ws(" \n\t\n"), ws("  ")]);
    let w = Whitespace::cast(find(&tree, WHITESPACE, 0)).unwrap();
    assert_eq!(w.text(), " \n\t\n");
    assert_eq!(w.count_newlines_lazy(), 2);
    assert!(w.has_newlines());
    let w = Whitespace::cast(find(&tree, WHITESPACE, 1)).unwrap();
    assert_eq!(w.count_newlines_lazy(), 0);
    assert!(!w.has_newlines());
}

#[test]
fn casts_go_by_kind() {
    let tree = file(vec![n(FN_DEF, vec![t(FN_KW, "fn"), ws(" "), name("f")])]);
    let f = find(&tree, FN_DEF, 0);
    assert!(FnDef::cast(f).is_some());
    assert!(StructDef::cast(f).is_none());
    assert!(matches!(ModuleItem::cast(f), Some(ModuleItem::FnDef(_))));
    assert!(Expr::cast(f).is_none());
    assert_eq!(FnDef::cast(f).unwrap().syntax(), f);
    assert_eq!(ModuleItem::cast(f).unwrap().syntax(), f);
    assert_eq!(FnDef::cast(f).unwrap().name().unwrap().text(), "f");
    assert!(FnDef::cast(f).unwrap().visibility().is_none());
    assert!(FnDef::cast(f).unwrap().body().is_none());
    let root = SourceFile::cast(tree.root()).unwrap();
    assert_eq!(root.functions().next().unwrap().syntax(), f);
    let mut items = root.items();
    assert!(items.next().is_some());
    assert!(items.next().is_none());
    assert!(items.next().is_none());
}

fn attr(inner: Vec<El>) -> El {
    let mut tt = vec![t(L_BRACK, "[")];
    tt.extend(inner);
    tt.push(t(R_BRACK, "]"));
    n(ATTR, vec![t(POUND, "#"), n(TOKEN_TREE, tt)])
}

#[test]
fn attributes() {
    let tree = file(vec![n(
        FN_DEF,
        vec![
            attr(vec![t(IDENT, "inline")]),
            attr(vec![
                t(IDENT, "derive"),
                n(TOKEN_TREE, vec![t(L_PAREN, "("), t(IDENT, "Debug"), t(R_PAREN, ")")]),
            ]),
            attr(vec![t(IDENT, "a"), t(EQ, "="), t(STRING, "\"b\"")]),
            attr(vec![t(INT_NUMBER, "1")]),
            n(ATTR, vec![t(POUND, "#")]),
            t(FN_KW, "fn"),
        ],
    )]);
    let f = FnDef::cast(find(&tree, FN_DEF, 0)).unwrap();
    let attrs: Vec<Attr> = (0..5).map(|i| Attr::cast(find(&tree, ATTR, i)).unwrap()).collect();
    assert_eq!(attrs[0].as_atom(), Some(String::from("inline")));
    assert_eq!(attrs[0].as_call(), None);
    assert_eq!(attrs[1].as_atom(), None);
    let (word, args) = attrs[1].as_call().unwrap();
    assert_eq!(word, "derive");
    assert_eq!(args.syntax(), find(&tree, TOKEN_TREE, 2));
    assert_eq!(attrs[2].as_atom(), None);
    assert_eq!(attrs[2].as_call(), None);
    assert_eq!(attrs[3].as_atom(), None);
    assert_eq!(attrs[4].as_atom(), None);
    assert_eq!(attrs[4].as_call(), None);
    assert!(f.has_atom_attr("inline"));
    assert!(!f.has_atom_attr("derive"));
    assert!(!f.has_atom_attr("test"));
    let mut it = f.attrs();
    assert_eq!(it.nth(1).unwrap().syntax(), attrs[1].syntax());
}

#[test]
fn token_texts() {
    let tree = file(vec![
        t(LIFETIME, "'a"),
        t(CHAR, "'c'"),
        t(BYTE, "b'x'"),
        t(BYTE_STRING, "b\"xy\""),
        t(STRING, "\"hello\""),
        name("foo"),
        name_ref("bar"),
        n(NAME, vec![]),
    ]);
    assert_eq!(Lifetime::cast(find(&tree, LIFETIME, 0)).unwrap().text(), "'a");
    assert_eq!(Char::cast(find(&tree, CHAR, 0)).unwrap().text(), "'c'");
    assert_eq!(Byte::cast(find(&tree, BYTE, 0)).unwrap().text(), "b'x'");
    assert_eq!(ByteString::cast(find(&tree, BYTE_STRING, 0)).unwrap().text(), "b\"xy\"");
    assert_eq!(StringLit::cast(find(&tree, STRING, 0)).unwrap().text(), "\"hello\"");
    assert_eq!(Name::cast(find(&tree, NAME, 0)).unwrap().text(), "foo");
    assert_eq!(NameRef::cast(find(&tree, NAME_REF, 0)).unwrap().text(), "bar");
    assert_eq!(Name::cast(find(&tree, NAME, 1)).unwrap().text(), "");
}

#[test]
fn impl_targets() {
    // impl T for S {}
    let tree = file(vec![n(
        IMPL_BLOCK,
        vec![
            t(IMPL_KW, "impl"),
            ws(" "),
            path_type("T"),
            ws(" "),
            t(FOR_KW, "for"),
            ws(" "),
            path_type("S"),
            ws(" "),
            n(ITEM_LIST, vec![t(L_CURLY, "{"), t(R_CURLY, "}")]),
        ],
    )]);
    let block = AstImplBlock::cast(find(&tree, IMPL_BLOCK, 0)).unwrap();
    assert_eq!(block.target_trait().unwrap().syntax(), find(&tree, PATH_TYPE, 0));
    assert_eq!(block.target_type().unwrap().syntax(), find(&tree, PATH_TYPE, 1));
    assert!(block.item_list().is_some());
    // impl S {}
    let tree = file(vec![n(IMPL_BLOCK, vec![t(IMPL_KW, "impl"), ws(" "), path_type("S")])]);
    let block = AstImplBlock::cast(find(&tree, IMPL_BLOCK, 0)).unwrap();
    assert!(block.target_trait().is_none());
    assert_eq!(block.target_type().unwrap().syntax(), find(&tree, PATH_TYPE, 0));
    // impl {}
    let tree = file(vec![n(IMPL_BLOCK, vec![t(IMPL_KW, "impl")])]);
    let block = AstImplBlock::cast(find(&tree, IMPL_BLOCK, 0)).unwrap();
    assert!(block.target_trait().is_none());
    assert!(block.target_type().is_none());
}

#[test]
fn semicolons() {
    let tree = file(vec![
        n(MODULE, vec![t(MOD_KW, "mod"), ws(" "), name("a"), t(SEMI, ";")]),
        n(MODULE, vec![t(MOD_KW, "mod"), ws(" "), name("b"), n(ITEM_LIST, vec![])]),
        n(MODULE, vec![]),
        n(LET_STMT, vec![t(LET_KW, "let"), ws(" "), n(BIND_PAT, vec![name("x")]), t(SEMI, ";")]),
        n(LET_STMT, vec![t(LET_KW, "let"), ws(" "), n(BIND_PAT, vec![name("x")])]),
    ]);
    assert!(Module::cast(find(&tree, MODULE, 0)).unwrap().has_semi());
    assert!(!Module::cast(find(&tree, MODULE, 1)).unwrap().has_semi());
    assert!(!Module::cast(find(&tree, MODULE, 2)).unwrap().has_semi());
    assert!(LetStmt::cast(find(&tree, LET_STMT, 0)).unwrap().has_semi());
    assert!(!LetStmt::cast(find(&tree, LET_STMT, 1)).unwrap().has_semi());
}

#[test]
fn branches_of_an_if() {
    let tree = file(vec![n(
        IF_EXPR,
        vec![
            t(IF_KW, "if"),
            n(CONDITION, vec![path_expr("c")]),
            block(vec![path_expr("a")]),
            t(ELSE_KW, "else"),
            block(vec![path_expr("b")]),
        ],
    )]);
    let e = IfExpr::cast(find(&tree, IF_EXPR, 0)).unwrap();
    assert_eq!(e.then_branch().unwrap().syntax(), find(&tree, BLOCK, 0));
    assert_eq!(e.else_branch().unwrap().syntax(), find(&tree, BLOCK, 1));
    assert_eq!(e.condition().unwrap().expr().unwrap().syntax(), find(&tree, PATH_EXPR, 0));
    assert!(e.condition().unwrap().pat().is_none());
    let tree = file(vec![n(IF_EXPR, vec![t(IF_KW, "if"), block(vec![])])]);
    let e = IfExpr::cast(find(&tree, IF_EXPR, 0)).unwrap();
    assert!(e.then_branch().is_some());
    assert!(e.else_branch().is_none());
    assert!(e.condition().is_none());
}

#[test]
fn segments_of_paths() {
    // self::a::super::crate
    let seg = |inner: El| n(PATH_SEGMENT, vec![inner]);
    let tree = file(vec![n(
        PATH,
        vec![
            n(
                PATH,
                vec![
                    n(
                        PATH,
                        vec![n(PATH, vec![seg(t(SELF_KW, "self"))]), t(COLONCOLON, "::"), seg(name_ref("a"))],
                    ),
                    t(COLONCOLON, "::"),
                    seg(t(SUPER_KW, "super")),
                ],
            ),
            t(COLONCOLON, "::"),
            seg(t(CRATE_KW, "crate")),
        ],
    ), n(PATH_SEGMENT, vec![t(STAR, "*")]), n(PATH_SEGMENT, vec![])]);
    let segment = |i: usize| PathSegment::cast(find(&tree, PATH_SEGMENT, i)).unwrap();
    assert_eq!(segment(0).kind(), Some(PathSegmentKind::SelfKw));
    assert_eq!(
        segment(1).kind(),
        Some(PathSegmentKind::Name(NameRef::cast(find(&tree, NAME_REF, 0)).unwrap()))
    );
    assert_eq!(segment(2).kind(), Some(PathSegmentKind::SuperKw));
    assert_eq!(segment(3).kind(), Some(PathSegmentKind::CrateKw));
    assert_eq!(segment(4).kind(), None);
    assert_eq!(segment(5).kind(), None);
    assert_eq!(segment(0).parent_path().syntax(), find(&tree, PATH, 3));
    assert_eq!(segment(3).parent_path().syntax(), find(&tree, PATH, 0));
    let p = |i: usize| AstPath::cast(find(&tree, PATH, i)).unwrap();
    assert_eq!(p(0).parent_path(), None);
    assert_eq!(p(1).parent_path(), Some(p(0)));
    assert_eq!(p(3).parent_path(), Some(p(2)));
    assert_eq!(p(0).qualifier(), Some(p(1)));
    assert_eq!(p(3).qualifier(), None);
    assert_eq!(p(0).segment(), Some(segment(3)));
}

#[test]
fn use_trees() {
    // use a::{b, c::*};
    let tree = file(vec![n(
        USE_ITEM,
        vec![
            t(USE_KW, "use"),
            n(
                USE_TREE,
                vec![
                    path("a"),
                    t(COLONCOLON, "::"),
                    n(
                        USE_TREE_LIST,
                        vec![
                            t(L_CURLY, "{"),
                            n(USE_TREE, vec![path("b")]),
                            t(COMMA, ","),
                            n(USE_TREE, vec![path("c"), t(COLONCOLON, "::"), t(STAR, "*")]),
                            t(R_CURLY, "}"),
                        ],
                    ),
                ],
            ),
        ],
    )]);
    let tree_at = |i: usize| UseTree::cast(find(&tree, USE_TREE, i)).unwrap();
    assert!(!tree_at(0).has_star());
    assert!(!tree_at(1).has_star());
    assert!(tree_at(2).has_star());
    let list = UseTreeList::cast(find(&tree, USE_TREE_LIST, 0)).unwrap();
    assert_eq!(list.parent_use_tree(), tree_at(0));
    assert_eq!(tree_at(0).use_tree_list(), Some(list));
    let mut trees = list.use_trees();
    assert_eq!(trees.next(), Some(tree_at(1)));
    assert_eq!(trees.next(), Some(tree_at(2)));
    assert_eq!(trees.next(), None);
}

#[test]
fn struct_flavors() {
    let tree = file(vec![
        n(STRUCT_DEF, vec![t(STRUCT_KW, "struct"), name("A"), n(NAMED_FIELD_DEF_LIST, vec![])]),
        n(STRUCT_DEF, vec![t(STRUCT_KW, "struct"), name("B"), n(POS_FIELD_LIST, vec![]), t(SEMI, ";")]),
        n(STRUCT_DEF, vec![t(STRUCT_KW, "struct"), name("C"), t(SEMI, ";")]),
        n(ENUM_VARIANT, vec![name("V"), n(POS_FIELD_LIST, vec![])]),
    ]);
    let def = |i: usize| StructDef::cast(find(&tree, STRUCT_DEF, i)).unwrap();
    assert_eq!(
        def(0).flavor(),
        StructFlavor::Named(NamedFieldDefList::cast(find(&tree, NAMED_FIELD_DEF_LIST, 0)).unwrap())
    );
    assert_eq!(def(1).flavor(), StructFlavor::Tuple(PosFieldList::cast(find(&tree, POS_FIELD_LIST, 0)).unwrap()));
    assert_eq!(def(2).flavor(), StructFlavor::Unit);
    assert_eq!(StructFlavor::from_node(&def(2)), StructFlavor::Unit);
    let variant = EnumVariant::cast(find(&tree, ENUM_VARIANT, 0)).unwrap();
    assert_eq!(variant.flavor(), StructFlavor::Tuple(PosFieldList::cast(find(&tree, POS_FIELD_LIST, 1)).unwrap()));
}

#[test]
fn mutability_of_references() {
    let tree = file(vec![
        n(REF_EXPR, vec![t(AMP, "&"), t(MUT_KW, "mut"), ws(" "), path_expr("x")]),
        n(REF_EXPR, vec![t(AMP, "&"), path_expr("x")]),
        n(REFERENCE_TYPE, vec![t(AMP, "&"), t(MUT_KW, "mut"), ws(" "), path_type("T")]),
        n(REFERENCE_TYPE, vec![t(AMP, "&"), path_type("T")]),
        n(POINTER_TYPE, vec![t(STAR, "*"), t(MUT_KW, "mut"), ws(" "), path_type("T")]),
        n(POINTER_TYPE, vec![t(STAR, "*"), t(CONST_KW, "const"), ws(" "), path_type("T")]),
    ]);
    assert!(RefExpr::cast(find(&tree, REF_EXPR, 0)).unwrap().is_mut());
    assert!(!RefExpr::cast(find(&tree, REF_EXPR, 1)).unwrap().is_mut());
    assert!(ReferenceType::cast(find(&tree, REFERENCE_TYPE, 0)).unwrap().is_mut());
    assert!(!ReferenceType::cast(find(&tree, REFERENCE_TYPE, 1)).unwrap().is_mut());
    assert!(PointerType::cast(find(&tree, POINTER_TYPE, 0)).unwrap().is_mut());
    assert!(!PointerType::cast(find(&tree, POINTER_TYPE, 1)).unwrap().is_mut());
}

#[test]
fn operators() {
    let prefix = |kind: SyntaxKind, text: &'static str| {
        let tree = file(vec![n(PREFIX_EXPR, vec![t(kind, text), path_expr("x")])]);
        PrefixExpr::cast(find(&tree, PREFIX_EXPR, 0)).unwrap().op()
    };
    assert_eq!(prefix(STAR, "*"), Some(PrefixOp::Deref));
    assert_eq!(prefix(EXCL, "!"), Some(PrefixOp::Not));
    assert_eq!(prefix(MINUS, "-"), Some(PrefixOp::Neg));
    assert_eq!(prefix(AMP, "&"), None);
    let empty = file(vec![n(PREFIX_EXPR, vec![])]);
    assert_eq!(PrefixExpr::cast(find(&empty, PREFIX_EXPR, 0)).unwrap().op(), None);
    let bin = |kind: SyntaxKind, text: &'static str| {
        let tree = file(vec![n(BIN_EXPR, vec![path_expr("a"), ws(" "), t(kind, text), ws(" "), path_expr("b")])]);
        BinExpr::cast(find(&tree, BIN_EXPR, 0)).unwrap().op()
    };
    assert_eq!(bin(PIPEPIPE, "||"), Some(BinOp::BooleanOr));
    assert_eq!(bin(AMPAMP, "&&"), Some(BinOp::BooleanAnd));
    assert_eq!(bin(EQEQ, "=="), Some(BinOp::EqualityTest));
    assert_eq!(bin(LTEQ, "<="), Some(BinOp::LesserEqualTest));
    assert_eq!(bin(GTEQ, ">="), Some(BinOp::GreaterEqualTest));
    assert_eq!(bin(L_ANGLE, "<"), Some(BinOp::LesserTest));
    assert_eq!(bin(R_ANGLE, ">"), Some(BinOp::GreaterTest));
    assert_eq!(bin(PLUS, "+"), None);
    let tree = file(vec![n(BIN_EXPR, vec![path_expr("a"), t(PLUS, "+"), t(EQEQ, "=="), t(L_ANGLE, "<"), path_expr("b")])]);
    let e = BinExpr::cast(find(&tree, BIN_EXPR, 0)).unwrap();
    assert_eq!(e.op(), Some(BinOp::EqualityTest));
    assert_eq!(e.lhs().unwrap().syntax(), find(&tree, PATH_EXPR, 0));
    assert_eq!(e.rhs().unwrap().syntax(), find(&tree, PATH_EXPR, 1));
    assert_eq!(e.sub_exprs(), (e.lhs(), e.rhs()));
    let one = file(vec![n(BIN_EXPR, vec![path_expr("a"), t(EQEQ, "==")])]);
    let e = BinExpr::cast(find(&one, BIN_EXPR, 0)).unwrap();
    assert!(e.lhs().is_some());
    assert!(e.rhs().is_none());
}

#[test]
fn self_params() {
    let flavor = |children: Vec<El>| {
        let tree = file(vec![n(SELF_PARAM, children)]);
        SelfParam::cast(find(&tree, SELF_PARAM, 0)).unwrap().flavor()
    };
    assert_eq!(flavor(vec![t(SELF_KW, "self")]), SelfParamFlavor::Owned);
    assert_eq!(flavor(vec![t(AMP, "&"), t(SELF_KW, "self")]), SelfParamFlavor::Ref);
    assert_eq!(flavor(vec![t(AMP, "&"), t(MUT_KW, "mut"), ws(" "), t(SELF_KW, "self")]), SelfParamFlavor::MutRef);
    // `mut self` is owned, and `mut &self` is no `&mut self`
    assert_eq!(flavor(vec![t(MUT_KW, "mut"), ws(" "), t(SELF_KW, "self")]), SelfParamFlavor::Owned);
    assert_eq!(flavor(vec![t(MUT_KW, "mut"), ws(" "), t(AMP, "&"), t(SELF_KW, "self")]), SelfParamFlavor::Ref);
    assert_eq!(
        flavor(vec![t(AMP, "&"), t(LIFETIME, "'a"), ws(" "), t(MUT_KW, "mut"), ws(" "), t(SELF_KW, "self")]),
        SelfParamFlavor::MutRef
    );
    assert_eq!(flavor(vec![]), SelfParamFlavor::Owned);
}
