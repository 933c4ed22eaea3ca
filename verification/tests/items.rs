use ra_core::adt::{EnumData, StructData, StructField, VariantData};
use ra_core::ast::{AstNode, EnumDef, ImplBlock as AstImplBlock, Module as Module_, NameRef, Path as AstPath, SourceFile, StructDef, TypeRef as AstTypeRef};
use ra_core::completion::{CompletionItem, CompletionItemKind, CompletionKind};
use ra_core::conv::{Conv, InsertTextFormat, ProtocolCompletionItem, ProtocolCompletionKind, SymbolKind};
use ra_core::ids::{DefId, DefKind, DefLoc, HirFileId, Location, LocationInterner, MacroCallId, MacroCallLoc, ModuleId, SourceFileItemId, SourceFileItems, SourceItemId};
use ra_core::impl_block::{Canceled, Function, ImplBlock, ImplData, ImplId, ImplItem, Module, ModuleImplBlocks, impls_in_module};
use ra_core::input::{FileId, SourceRootId};
use ra_core::name::Name;
use ra_core::nameres::{MacroExpansion, ModuleItem, ModuleSource, Vis, macro_calls};
use ra_core::path::{Path, PathKind};
use ra_core::query_definitions::{enum_data, file_item, file_items, input_module_items, struct_data};
use ra_core::type_ref::{Mutability, TypeRef};
use ra_core::syntax::{SyntaxNodeRef, SyntaxTree};
use ra_core::syntax_kind::SyntaxKind;
use ra_core::syntax_kind::SyntaxKind::{AMP, ARRAY_TYPE, BLOCK, COLON, COLONCOLON, COMMA, CONST_DEF, CONST_KW, CRATE_KW, DYN_KW, DYN_TRAIT_TYPE, ENUM_DEF, ENUM_KW, ENUM_VARIANT, ENUM_VARIANT_LIST, EXCL, EXTERN_CRATE_ITEM, FN_DEF, FN_KW, FN_POINTER_TYPE, FOR_KW, FOR_TYPE, IDENT, IMPL_BLOCK, IMPL_KW, IMPL_TRAIT_TYPE, INT_NUMBER, ITEM_LIST, LITERAL, L_BRACK, L_CURLY, L_PAREN, MACRO_CALL, MODULE, MOD_KW, MUT_KW, NAME, NAMED_FIELD_DEF, NAMED_FIELD_DEF_LIST, NAME_REF, NEVER_TYPE, PARAM, PARAM_LIST, PAREN_TYPE, PATH, PATH_EXPR, PATH_SEGMENT, PATH_TYPE, PLACEHOLDER_TYPE, POINTER_TYPE, POS_FIELD, POS_FIELD_LIST, REFERENCE_TYPE, RET_TYPE, R_BRACK, R_CURLY, R_PAREN, SELF_KW, SEMI, SLICE_TYPE, SOURCE_FILE, STAR, STATIC_DEF, STRUCT_DEF, STRUCT_KW, SUPER_KW, THIN_ARROW, TOKEN_TREE, TRAIT_DEF, TUPLE_TYPE, TYPE_DEF, TYPE_KW, UNDERSCORE, USE_ITEM, USE_KW, USE_TREE, WHITESPACE};
use ra_core::tree_builder::TreeBuilder;

#[allow(dead_code)]
enum El {
    N(SyntaxKind, Vec<El>),
    T(SyntaxKind, &'static str),
}

#[allow(dead_code)]
fn n(kind: SyntaxKind, children: Vec<El>) -> El {
    El::N(kind, children)
}

#[allow(dead_code)]
fn t(kind: SyntaxKind, text: &'static str) -> El {
    El::T(kind, text)
}

#[allow(dead_code)]
fn ws(text: &'static str) -> El {
    El::T(WHITESPACE, text)
}

#[allow(dead_code)]
fn add(builder: &mut TreeBuilder, el: &El) {
    match el {
        El::N(kind, children) => {
            assert!(builder.start_node(*kind));
            for child in children {
                add(builder, child);
            }
            assert!(builder.finish_node());
        }
        El::T(kind, text) => {
            assert!(builder.token(*kind, text));
        }
    }
}

#[allow(dead_code)]
fn build(root: El) -> SyntaxTree {
    let mut builder = TreeBuilder::new();
    add(&mut builder, &root);
    builder.finish().unwrap()
}

/// The `nth` node of the given kind, in the order of the source.
#[allow(dead_code)]
fn find(tree: &SyntaxTree, kind: SyntaxKind, nth: usize) -> SyntaxNodeRef<'_> {
    let mut seen = 0;
    for i in 0..tree.len() {
        let node = tree.node(i).unwrap();
        if node.kind() == kind {
            if seen == nth {
                return node;
            }
            seen += 1;
        }
    }
    panic!("no such node: {:?} #{}", kind, nth)
}

/// The text that a node covers.
#[allow(dead_code)]
fn text_of(node: SyntaxNodeRef) -> String {
    match node.leaf_text() {
        Some(text) => text.clone(),
        None => {
            let mut out = String::new();
            for child in node.children() {
                out.push_str(&text_of(child));
            }
            out
        }
    }
}

fn name(text: &'static str) -> El {
    n(NAME, vec![t(IDENT, text)])
}

fn name_ref(text: &'static str) -> El {
    n(NAME_REF, vec![t(IDENT, text)])
}

fn path(text: &'static str) -> El {
    n(PATH, vec![n(PATH_SEGMENT, vec![name_ref(text)])])
}

fn path_expr(text: &'static str) -> El {
    n(PATH_EXPR, vec![path(text)])
}

fn path_type(text: &'static str) -> El {
    n(PATH_TYPE, vec![path(text)])
}

fn block(mut inner: Vec<El>) -> El {
    let mut children = vec![t(L_CURLY, "{")];
    children.append(&mut inner);
    children.push(t(R_CURLY, "}"));
    n(BLOCK, children)
}

fn file(items: Vec<El>) -> SyntaxTree {
    build(n(SOURCE_FILE, items))
}

fn plain(text: &str) -> Path {
    Path { kind: PathKind::Plain, segments: vec![Name::new(text.to_string())] }
}

fn fn_item(name_text: &'static str) -> El {
    n(FN_DEF, vec![t(FN_KW, "fn"), ws(" "), name(name_text), n(PARAM_LIST, vec![t(L_PAREN, "("), t(R_PAREN, ")")])])
}

fn impl_block(types: Vec<El>, items: Vec<El>) -> El {
    let mut children = vec![t(IMPL_KW, "impl"), ws(" ")];
    children.extend(types);
    let mut list = vec![t(L_CURLY, "{")];
    list.extend(items);
    list.push(t(R_CURLY, "}"));
    children.push(n(ITEM_LIST, list));
    n(IMPL_BLOCK, children)
}

fn macro_call(name_text: &'static str) -> El {
    n(MACRO_CALL, vec![path(name_text), t(EXCL, "!"), n(TOKEN_TREE, vec![t(L_PAREN, "("), t(R_PAREN, ")")])])
}

/// fn a() impl T for S { fn m() const C type X } m!() struct B; impl S { fn n() }
fn sample() -> SyntaxTree {
    file(vec![
        fn_item("a"),
        ws("\n"),
        impl_block(
            vec![path_type("T"), ws(" "), t(FOR_KW, "for"), ws(" "), path_type("S"), ws(" ")],
            vec![
                fn_item("m"),
                n(CONST_DEF, vec![t(CONST_KW, "const"), ws(" "), name("C")]),
                n(TYPE_DEF, vec![t(TYPE_KW, "type"), ws(" "), name("X")]),
            ],
        ),
        ws("\n"),
        macro_call("m"),
        ws("\n"),
        n(STRUCT_DEF, vec![t(STRUCT_KW, "struct"), ws(" "), name("B"), t(SEMI, ";")]),
        ws("\n"),
        impl_block(vec![path_type("S"), ws(" ")], vec![fn_item("n")]),
    ])
}

const FILE: HirFileId = HirFileId::File(FileId(7));

fn module_loc() -> DefLoc {
    DefLoc {
        kind: DefKind::Module,
        source_root_id: SourceRootId(1),
        module_id: ModuleId(3),
        source_item_id: SourceItemId { file_id: FILE, item_id: None },
    }
}

#[test]
fn items_of_a_file_in_the_order_of_the_source() {
    let tree = sample();
    let source_file = SourceFile::cast(tree.root()).unwrap();
    let items = SourceFileItems::new(FILE, source_file);
    assert_eq!(items.file_id(), FILE);
    let kinds: Vec<SyntaxKind> = (0..items.len()).map(|i| items.get(SourceFileItemId(i)).kind()).collect();
    assert_eq!(
        kinds,
        vec![FN_DEF, IMPL_BLOCK, FN_DEF, CONST_DEF, TYPE_DEF, MACRO_CALL, STRUCT_DEF, IMPL_BLOCK, FN_DEF]
    );
    for i in 0..items.len() {
        let node = items.get(SourceFileItemId(i));
        assert_eq!(items.id_of_unchecked(node), SourceFileItemId(i));
        assert_eq!(items.id_of(node), Some(SourceFileItemId(i)));
    }
    assert_eq!(items.id_of(tree.root()), None);
    assert_eq!(items.id_of(find(&tree, NAME, 0)), None);
    let shared = file_items(FILE, source_file);
    assert_eq!(*shared, items);
    // the address of an item, and that of the whole file
    let at = |item_id| file_item(&items, source_file, SourceItemId { file_id: FILE, item_id });
    assert_eq!(at(None), tree.root());
    assert_eq!(at(Some(SourceFileItemId(6))), find(&tree, STRUCT_DEF, 0));
    assert_eq!(HirFileId::from_file(FileId(7)), FILE);
    assert_eq!(FILE.original_file(), Some(FileId(7)));
    assert_eq!(HirFileId::from_macro_call(MacroCallId(2)).original_file(), None);
}

#[test]
fn interner_gives_each_location_one_number() {
    let mut db: LocationInterner<DefLoc> = LocationInterner::new();
    assert_eq!(db.len(), 0);
    let a = module_loc();
    let b = DefLoc { kind: DefKind::Function, ..a };
    let c = DefLoc { module_id: ModuleId(4), ..a };
    assert_eq!(db.loc2id(&a), 0);
    assert_eq!(db.loc2id(&b), 1);
    assert_eq!(db.loc2id(&a), 0);
    assert_eq!(db.loc2id(&c), 2);
    assert_eq!(db.loc2id(&b), 1);
    assert_eq!(db.len(), 3);
    assert_eq!(db.id2loc(0), a);
    assert_eq!(db.id2loc(1), b);
    assert_eq!(db.id2loc(2), c);
    assert!(a.same(&module_loc()));
    assert!(!a.same(&b));
}

#[test]
fn impl_blocks_of_a_module() {
    let tree = sample();
    let source_file = SourceFile::cast(tree.root()).unwrap();
    let items = SourceFileItems::new(FILE, source_file);
    let mut db: LocationInterner<DefLoc> = LocationInterner::new();
    let module = Module { def_id: DefId(db.loc2id(&module_loc())) };
    let blocks = impls_in_module(&mut db, &items, &module, Ok(tree.root())).unwrap();
    // the members got the ids 1 to 4, in the order of the source
    assert_eq!(db.len(), 5);
    let member = |kind, item| DefLoc {
        kind,
        source_item_id: SourceItemId { file_id: FILE, item_id: Some(SourceFileItemId(item)) },
        ..module_loc()
    };
    assert_eq!(db.id2loc(1), member(DefKind::Function, 2));
    assert_eq!(db.id2loc(2), member(DefKind::Item, 3));
    assert_eq!(db.id2loc(3), member(DefKind::Item, 4));
    assert_eq!(db.id2loc(4), member(DefKind::Function, 8));

    let first = ImplBlock::containing(blocks.clone(), DefId(1)).unwrap();
    assert_eq!(
        first.items(),
        &[ImplItem::Method(Function::new(DefId(1))), ImplItem::Const(DefId(2)), ImplItem::Type(DefId(3))]
    );
    assert_eq!(first.target_trait(), Some(&TypeRef::Path(plain("T"))));
    assert_eq!(first.target_type(), &TypeRef::Path(plain("S")));
    assert_eq!(ImplBlock::containing(blocks.clone(), DefId(2)), Some(first));
    assert_eq!(
        ImplBlock::containing(blocks.clone(), DefId(3)),
        ImplBlock::containing(blocks.clone(), DefId(1))
    );
    let second = ImplBlock::containing(blocks.clone(), DefId(4)).unwrap();
    assert_eq!(second.items(), &[ImplItem::Method(Function::new(DefId(4)))]);
    assert_eq!(second.target_trait(), None);
    assert_eq!(second.target_type(), &TypeRef::Path(plain("S")));
    assert_ne!(Some(second), ImplBlock::containing(blocks.clone(), DefId(1)));
    // the module itself, and what no block holds
    assert_eq!(ImplBlock::containing(blocks.clone(), DefId(0)), None);
    assert_eq!(ImplBlock::containing(blocks.clone(), DefId(5)), None);
    assert_eq!(ImplItem::Const(DefId(9)).def_id(), DefId(9));
    assert_eq!(ImplItem::Type(DefId(8)).def_id(), DefId(8));
    assert_eq!(ImplItem::Method(Function::new(DefId(7))).def_id(), DefId(7));

    // collecting again gives the same ids
    let again = impls_in_module(&mut db, &items, &module, Ok(tree.root())).unwrap();
    assert_eq!(again, blocks);
    assert_eq!(db.len(), 5);
    // a cancelled source is passed on
    assert_eq!(impls_in_module(&mut db, &items, &module, Err(Canceled)), Err(Canceled));
}

#[test]
fn an_impl_block_without_a_type_is_for_the_error_type() {
    let tree = file(vec![n(IMPL_BLOCK, vec![t(IMPL_KW, "impl")])]);
    let items = SourceFileItems::new(FILE, SourceFile::cast(tree.root()).unwrap());
    let mut db: LocationInterner<DefLoc> = LocationInterner::new();
    let module = Module { def_id: DefId(db.loc2id(&module_loc())) };
    let block = AstImplBlock::cast(find(&tree, IMPL_BLOCK, 0)).unwrap();
    let data = ImplData::from_ast(&mut db, &items, &module, block);
    assert_eq!(data.target_type(), &TypeRef::Error);
    assert_eq!(data.target_trait(), None);
    assert!(data.items().is_empty());
    let mut blocks = ModuleImplBlocks::new();
    assert_eq!(blocks.add_impl(data), ImplId(0));
    blocks.collect(&mut db, &items, &module, tree.root());
    assert_eq!(db.len(), 1);
}

fn input(id: usize, text: &str, kind: SyntaxKind, file_id: HirFileId) -> ModuleItem {
    ModuleItem {
        id: SourceItemId { file_id, item_id: Some(SourceFileItemId(id)) },
        name: Name::new(text.to_string()),
        kind,
        vis: Vis::Other,
    }
}

#[test]
fn input_items_with_one_level_of_expansion() {
    let tree = sample();
    let source_file = SourceFile::cast(tree.root()).unwrap();
    let items = SourceFileItems::new(FILE, source_file);
    let mut macros: LocationInterner<MacroCallLoc> = LocationInterner::new();
    let source = ModuleSource::SourceFile(source_file);
    let calls = macro_calls(&mut macros, SourceRootId(1), ModuleId(3), FILE, &items, source);
    assert_eq!(calls, vec![MacroCallId(0)]);
    assert_eq!(
        macros.id2loc(0),
        MacroCallLoc {
            source_root_id: SourceRootId(1),
            module_id: ModuleId(3),
            source_item_id: SourceItemId { file_id: FILE, item_id: Some(SourceFileItemId(5)) },
        }
    );
    // the expansion: `fn generated() inner!() mod m;`
    let expanded = file(vec![
        fn_item("generated"),
        macro_call("inner"),
        n(MODULE, vec![t(MOD_KW, "mod"), ws(" "), name("m"), t(SEMI, ";")]),
    ]);
    let expanded_file = SourceFile::cast(expanded.root()).unwrap();
    let macro_file = HirFileId::from_macro_call(calls[0]);
    let expanded_items = SourceFileItems::new(macro_file, expanded_file);
    let expansions =
        vec![MacroExpansion { file_id: macro_file, file_items: &expanded_items, source_file: expanded_file }];
    let got = input_module_items(FILE, &items, source, &expansions).unwrap();
    assert_eq!(
        got.items(),
        &vec![
            input(0, "a", FN_DEF, FILE),
            // the impl block gives nothing; the macro call gives what it expands to
            input(0, "generated", FN_DEF, macro_file),
            input(2, "m", MODULE, macro_file),
            input(6, "B", STRUCT_DEF, FILE),
        ]
    );
    // without the expansion, the macro call gives nothing
    let got = input_module_items(FILE, &items, source, &vec![]).unwrap();
    assert_eq!(got.items(), &vec![input(0, "a", FN_DEF, FILE), input(6, "B", STRUCT_DEF, FILE)]);
}

#[test]
fn input_items_of_an_inline_module() {
    // mod m { fn a() use b; extern crate c; }  and  mod n;
    let tree = file(vec![
        n(
            MODULE,
            vec![
                t(MOD_KW, "mod"),
                ws(" "),
                name("m"),
                n(
                    ITEM_LIST,
                    vec![
                        t(L_CURLY, "{"),
                        fn_item("a"),
                        n(USE_ITEM, vec![t(USE_KW, "use"), n(USE_TREE, vec![path("b")])]),
                        n(EXTERN_CRATE_ITEM, vec![t(CRATE_KW, "crate"), name("c")]),
                        n(FN_DEF, vec![t(FN_KW, "fn")]),
                        t(R_CURLY, "}"),
                    ],
                ),
            ],
        ),
        n(MODULE, vec![t(MOD_KW, "mod"), ws(" "), name("n"), t(SEMI, ";")]),
    ]);
    let items = SourceFileItems::new(FILE, SourceFile::cast(tree.root()).unwrap());
    let inline = ModuleSource::Module(Module_::cast(find(&tree, MODULE, 0)).unwrap());
    let got = input_module_items(FILE, &items, inline, &vec![]).unwrap();
    assert_eq!(got.items(), &vec![input(1, "a", FN_DEF, FILE)]);
    let declared = ModuleSource::Module(Module_::cast(find(&tree, MODULE, 1)).unwrap());
    assert!(declared.items_with_macros().is_none());
    let got = input_module_items(FILE, &items, declared, &vec![]).unwrap();
    assert!(got.items().is_empty());
    let mut macros: LocationInterner<MacroCallLoc> = LocationInterner::new();
    assert!(macro_calls(&mut macros, SourceRootId(1), ModuleId(3), FILE, &items, declared).is_empty());
    assert_eq!(macros.len(), 0);
}

#[test]
fn layouts_of_structs_and_enums() {
    // struct A { x: T, : U }  struct B(T, U);  struct C;  enum E { V, W(T), X { y: U }, }
    let named = |name_el: Option<El>, ty: &'static str| {
        let mut c = vec![];
        c.extend(name_el);
        c.push(t(COLON, ":"));
        c.push(path_type(ty));
        n(NAMED_FIELD_DEF, c)
    };
    let tree = file(vec![
        n(
            STRUCT_DEF,
            vec![
                t(STRUCT_KW, "struct"),
                name("A"),
                n(NAMED_FIELD_DEF_LIST, vec![named(Some(name("x")), "T"), named(None, "U")]),
            ],
        ),
        n(
            STRUCT_DEF,
            vec![
                t(STRUCT_KW, "struct"),
                name("B"),
                n(POS_FIELD_LIST, vec![n(POS_FIELD, vec![path_type("T")]), n(POS_FIELD, vec![])]),
            ],
        ),
        n(STRUCT_DEF, vec![t(STRUCT_KW, "struct"), t(SEMI, ";")]),
        n(
            ENUM_DEF,
            vec![
                t(ENUM_KW, "enum"),
                name("E"),
                n(
                    ENUM_VARIANT_LIST,
                    vec![
                        n(ENUM_VARIANT, vec![name("V")]),
                        n(ENUM_VARIANT, vec![name("W"), n(POS_FIELD_LIST, vec![n(POS_FIELD, vec![path_type("T")])])]),
                        n(ENUM_VARIANT, vec![n(POS_FIELD_LIST, vec![])]),
                        n(
                            ENUM_VARIANT,
                            vec![name("X"), n(NAMED_FIELD_DEF_LIST, vec![named(Some(name("y")), "U")])],
                        ),
                    ],
                ),
            ],
        ),
        n(ENUM_DEF, vec![t(ENUM_KW, "enum")]),
    ]);
    let field = |text: &str, ty: TypeRef| StructField { name: Name::new(text.to_string()), type_ref: ty };
    let ty = |text: &str| TypeRef::Path(plain(text));
    let a = StructData::new(StructDef::cast(find(&tree, STRUCT_DEF, 0)).unwrap());
    assert_eq!(a.name(), Some(&Name::new("A".to_string())));
    assert_eq!(
        **a.variant_data(),
        VariantData::Struct(vec![field("x", ty("T")), StructField { name: Name::missing(), type_ref: ty("U") }])
    );
    let b = StructData::new(StructDef::cast(find(&tree, STRUCT_DEF, 1)).unwrap());
    assert_eq!(**b.variant_data(), VariantData::Tuple(vec![field("0", ty("T")), field("1", TypeRef::Error)]));
    assert_eq!(b.variant_data().fields().len(), 2);
    let c = StructData::new(StructDef::cast(find(&tree, STRUCT_DEF, 2)).unwrap());
    assert_eq!(c.name(), None);
    assert_eq!(**c.variant_data(), VariantData::Unit);
    assert!(c.variant_data().fields().is_empty());
    let e = EnumData::new(EnumDef::cast(find(&tree, ENUM_DEF, 0)).unwrap());
    assert_eq!(e.name(), Some(&Name::new("E".to_string())));
    let variants: Vec<(&str, &VariantData)> = e.variants().iter().map(|(n, d)| (n.text().as_str(), &**d)).collect();
    assert_eq!(
        variants,
        vec![
            ("V", &VariantData::Unit),
            ("W", &VariantData::Tuple(vec![field("0", ty("T"))])),
            ("X", &VariantData::Struct(vec![field("y", ty("U"))])),
        ]
    );
    let empty = EnumData::new(EnumDef::cast(find(&tree, ENUM_DEF, 1)).unwrap());
    assert_eq!(empty.name(), None);
    assert!(empty.variants().is_empty());
    assert_eq!(Name::tuple_field_name(12), Name::new("12".to_string()));

    // through the queries
    let items = SourceFileItems::new(FILE, SourceFile::cast(tree.root()).unwrap());
    let mut db: LocationInterner<DefLoc> = LocationInterner::new();
    let at = |kind, item| DefLoc {
        kind,
        source_item_id: SourceItemId { file_id: FILE, item_id: Some(SourceFileItemId(item)) },
        ..module_loc()
    };
    let s = DefId(db.loc2id(&at(DefKind::Struct, 1)));
    let en = DefId(db.loc2id(&at(DefKind::Enum, 3)));
    assert_eq!(*struct_data(&db, &items, s).unwrap(), b);
    assert_eq!(*enum_data(&db, &items, en).unwrap(), e);
}

#[test]
fn type_references() {
    let lower = |el: El| {
        let tree = file(vec![el]);
        TypeRef::from_ast(AstTypeRef::cast(tree.node(1).unwrap()).unwrap())
    };
    let ty = |text: &str| TypeRef::Path(plain(text));
    assert_eq!(lower(path_type("T")), ty("T"));
    assert_eq!(lower(n(PATH_TYPE, vec![])), TypeRef::Error);
    assert_eq!(lower(n(NEVER_TYPE, vec![t(EXCL, "!")])), TypeRef::Never);
    assert_eq!(lower(n(PLACEHOLDER_TYPE, vec![t(UNDERSCORE, "_")])), TypeRef::Placeholder);
    assert_eq!(lower(n(PAREN_TYPE, vec![t(L_PAREN, "("), path_type("T"), t(R_PAREN, ")")])), ty("T"));
    assert_eq!(lower(n(PAREN_TYPE, vec![])), TypeRef::Error);
    assert_eq!(
        lower(n(TUPLE_TYPE, vec![t(L_PAREN, "("), path_type("T"), t(COMMA, ","), path_type("U"), t(R_PAREN, ")")])),
        TypeRef::Tuple(vec![ty("T"), ty("U")])
    );
    assert_eq!(lower(n(TUPLE_TYPE, vec![t(L_PAREN, "("), t(R_PAREN, ")")])), TypeRef::unit());
    assert_eq!(
        lower(n(POINTER_TYPE, vec![t(STAR, "*"), t(MUT_KW, "mut"), path_type("T")])),
        TypeRef::RawPtr(Box::new(ty("T")), Mutability::Mut)
    );
    assert_eq!(
        lower(n(POINTER_TYPE, vec![t(STAR, "*"), t(CONST_KW, "const"), path_type("T")])),
        TypeRef::RawPtr(Box::new(ty("T")), Mutability::Shared)
    );
    assert_eq!(
        lower(n(REFERENCE_TYPE, vec![t(AMP, "&"), n(SLICE_TYPE, vec![t(L_BRACK, "["), path_type("T"), t(R_BRACK, "]")])])),
        TypeRef::Reference(Box::new(TypeRef::Slice(Box::new(ty("T")))), Mutability::Shared)
    );
    assert_eq!(
        lower(n(ARRAY_TYPE, vec![t(L_BRACK, "["), path_type("T"), t(SEMI, ";"), n(LITERAL, vec![t(INT_NUMBER, "2")])])),
        TypeRef::Array(Box::new(ty("T")))
    );
    assert_eq!(lower(n(FOR_TYPE, vec![t(FOR_KW, "for"), path_type("T")])), ty("T"));
    assert_eq!(lower(n(IMPL_TRAIT_TYPE, vec![t(IMPL_KW, "impl")])), TypeRef::Error);
    assert_eq!(lower(n(DYN_TRAIT_TYPE, vec![t(DYN_KW, "dyn")])), TypeRef::Error);
    // fn(T, ) -> U: the return type comes last
    assert_eq!(
        lower(n(
            FN_POINTER_TYPE,
            vec![
                t(FN_KW, "fn"),
                n(PARAM_LIST, vec![n(PARAM, vec![path_type("T")]), n(PARAM, vec![])]),
                n(RET_TYPE, vec![t(THIN_ARROW, "->"), path_type("U")]),
            ],
        )),
        TypeRef::Fn(vec![ty("T"), TypeRef::Error, ty("U")])
    );
    assert_eq!(lower(n(FN_POINTER_TYPE, vec![t(FN_KW, "fn")])), TypeRef::Fn(vec![TypeRef::Error]));
    assert_eq!(TypeRef::from_ast_opt(None), TypeRef::Error);
    assert_eq!(Mutability::from_mutable(true), Mutability::Mut);
    assert_eq!(Mutability::from_mutable(false), Mutability::Shared);
}

#[test]
fn paths() {
    let seg = |inner: El| n(PATH_SEGMENT, vec![inner]);
    let lower = |el: El| {
        let tree = file(vec![el]);
        Path::from_ast(AstPath::cast(tree.node(1).unwrap()).unwrap())
    };
    let names = |kind, texts: &[&str]| {
        Some(Path { kind, segments: texts.iter().map(|t| Name::new(t.to_string())).collect() })
    };
    assert_eq!(lower(path("a")), names(PathKind::Plain, &["a"]));
    // a::b::c
    let abc =
        n(PATH, vec![n(PATH, vec![path("a"), t(COLONCOLON, "::"), seg(name_ref("b"))]), t(COLONCOLON, "::"), seg(name_ref("c"))]);
    assert_eq!(lower(abc), names(PathKind::Plain, &["a", "b", "c"]));
    // self::a, super::a, crate::a
    for (kw, text, kind) in
        [(SELF_KW, "self", PathKind::Self_), (SUPER_KW, "super", PathKind::Super), (CRATE_KW, "crate", PathKind::Crate)]
    {
        let p = n(PATH, vec![n(PATH, vec![seg(t(kw, text))]), t(COLONCOLON, "::"), seg(name_ref("a"))]);
        assert_eq!(lower(p), names(kind, &["a"]));
        assert_eq!(lower(n(PATH, vec![seg(t(kw, text))])), names(kind, &[]));
    }
    // a path that ends in a keyword is that keyword alone
    let p = n(PATH, vec![path("a"), t(COLONCOLON, "::"), seg(t(SELF_KW, "self"))]);
    assert_eq!(lower(p), names(PathKind::Self_, &[]));
    // no segment, or a segment that is neither a name nor a keyword
    assert_eq!(lower(n(PATH, vec![])), None);
    assert_eq!(lower(n(PATH, vec![seg(t(STAR, "*"))])), None);
    assert_eq!(lower(n(PATH, vec![n(PATH, vec![]), t(COLONCOLON, "::"), seg(name_ref("a"))])), None);
    let tree = file(vec![name_ref("x")]);
    let p = Path::from_name_ref(NameRef::cast(find(&tree, NAME_REF, 0)).unwrap());
    assert_eq!(Some(p), names(PathKind::Plain, &["x"]));
    assert!(plain("x").is_ident());
    assert!(!Path { kind: PathKind::Crate, segments: vec![] }.is_ident());
    assert_eq!(Name::from_name_ref(NameRef::cast(find(&tree, NAME_REF, 0)).unwrap()).text(), "x");
    assert_eq!(Name::missing().text(), "[missing name]");
}

#[test]
fn conversions() {
    for (kind, symbol) in [
        (FN_DEF, SymbolKind::Function),
        (STRUCT_DEF, SymbolKind::Struct),
        (ENUM_DEF, SymbolKind::Enum),
        (TRAIT_DEF, SymbolKind::Interface),
        (MODULE, SymbolKind::Module),
        (TYPE_DEF, SymbolKind::TypeParameter),
        (STATIC_DEF, SymbolKind::Constant),
        (CONST_DEF, SymbolKind::Constant),
        (IMPL_BLOCK, SymbolKind::Object),
        (USE_ITEM, SymbolKind::Variable),
        (IDENT, SymbolKind::Variable),
    ] {
        assert_eq!(kind.conv(), symbol);
    }
    for (kind, protocol) in [
        (CompletionItemKind::Keyword, ProtocolCompletionKind::Keyword),
        (CompletionItemKind::Snippet, ProtocolCompletionKind::Snippet),
        (CompletionItemKind::Module, ProtocolCompletionKind::Module),
        (CompletionItemKind::Function, ProtocolCompletionKind::Function),
        (CompletionItemKind::Struct, ProtocolCompletionKind::Struct),
        (CompletionItemKind::Enum, ProtocolCompletionKind::Enum),
        (CompletionItemKind::EnumVariant, ProtocolCompletionKind::EnumMember),
        (CompletionItemKind::Binding, ProtocolCompletionKind::Variable),
        (CompletionItemKind::Field, ProtocolCompletionKind::Field),
    ] {
        assert_eq!(kind.conv(), protocol);
    }
    let item = CompletionItem::new(CompletionKind::Keyword, "crate")
        .kind(CompletionItemKind::Keyword)
        .lookup_by("crat")
        .snippet("crate::")
        .build();
    assert_eq!(
        item.conv(),
        ProtocolCompletionItem {
            label: String::from("crate"),
            filter_text: Some(String::from("crat")),
            kind: Some(ProtocolCompletionKind::Keyword),
            insert_text: Some(String::from("crate::")),
            insert_text_format: Some(InsertTextFormat::Snippet),
        }
    );
    let item = CompletionItem::new(CompletionKind::Reference, "foo").build();
    assert_eq!(
        item.conv(),
        ProtocolCompletionItem {
            label: String::from("foo"),
            filter_text: Some(String::from("foo")),
            kind: None,
            insert_text: Some(String::from("foo")),
            insert_text_format: Some(InsertTextFormat::PlainText),
        }
    );
}
