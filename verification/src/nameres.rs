//! The items of a module as name resolution takes them in.

use vstd::prelude::*;
use crate::ast;
use crate::ast::{AstChildren, AstNode, ModuleItemOwner, NameOwner, first_token_text, kids};
use crate::ids::{HirFileId, LocationInterner, MacroCallId, MacroCallLoc, ModuleId, SourceFileItemId, SourceFileItems, SourceItemId, spec_intern};
use crate::input::SourceRootId;
use crate::lower::lemma_found;
use crate::lower_spec::kid;
use crate::name::Name;
use crate::syntax::NodeView;
use crate::syntax_kind::SyntaxKind;

verus! {

#[derive(Debug, Clone, Copy, PartialEq, Eq, Structural)]
pub enum Vis {
    // Priv,
    Other,
}

/// An item of a module as name resolution takes it in: its address, its
/// name, the kind of its syntax and its visibility.
#[derive(Debug, PartialEq, Eq)]
pub struct ModuleItem {
    pub id: SourceItemId,
    pub name: Name,
    pub kind: SyntaxKind,
    pub vis: Vis,
}

/// An input item as a mathematical value.
pub struct ModuleItemView {
    pub id: SourceItemId,
    pub name: Seq<char>,
    pub kind: SyntaxKind,
    pub vis: Vis,
}

impl View for ModuleItem {
    type V = ModuleItemView;

    open spec fn view(&self) -> ModuleItemView {
        ModuleItemView { id: self.id, name: self.name@, kind: self.kind, vis: self.vis }
    }
}

/// The kind is that of an item that defines a name: impl blocks, `use`
/// items and declarations of outside crates define none.
pub open spec fn defines_name(kind: SyntaxKind) -> bool {
    match kind {
        SyntaxKind::STRUCT_DEF
        | SyntaxKind::ENUM_DEF
        | SyntaxKind::FN_DEF
        | SyntaxKind::TRAIT_DEF
        | SyntaxKind::TYPE_DEF
        | SyntaxKind::CONST_DEF
        | SyntaxKind::STATIC_DEF
        | SyntaxKind::MODULE => true,
        _ => false,
    }
}

/// The input item for the item at node `n` of the file `file_id`: none
/// where the item defines no name or has none.
pub open spec fn input_item(nodes: Seq<NodeView>, file_id: HirFileId, file_items: Seq<int>, n: int) -> Option<
    ModuleItemView,
> {
    if defines_name(nodes[n].kind) {
        match kid::<ast::Name>(nodes, n, 0) {
            Some(name) => Some(
                ModuleItemView {
                    id: SourceItemId {
                        file_id,
                        item_id: Some(SourceFileItemId(file_items.index_of(n) as usize)),
                    },
                    name: first_token_text(nodes, name),
                    kind: nodes[n].kind,
                    vis: Vis::Other,
                },
            ),
            None => None,
        }
    } else {
        None
    }
}

/// The input items for the items at the nodes `ks`, after those of `acc`.
pub open spec fn input_items(
    nodes: Seq<NodeView>,
    file_id: HirFileId,
    file_items: Seq<int>,
    ks: Seq<int>,
    acc: Seq<ModuleItemView>,
) -> Seq<ModuleItemView>
    decreases ks.len(),
{
    if ks.len() == 0 {
        acc
    } else {
        input_items(
            nodes,
            file_id,
            file_items,
            ks.drop_first(),
            match input_item(nodes, file_id, file_items, ks[0]) {
                Some(item) => acc.push(item),
                None => acc,
            },
        )
    }
}

/// The items of a module as name resolution takes them in.
#[derive(Debug, PartialEq, Eq)]
pub struct InputModuleItems {
    items: Vec<ModuleItem>,
}

impl View for InputModuleItems {
    type V = Seq<ModuleItemView>;

    closed spec fn view(&self) -> Seq<ModuleItemView> {
        self.items@.map_values(|i: ModuleItem| i@)
    }
}

impl ModuleItem {
    fn new<'a, N: NameOwner<'a>>(file_id: HirFileId, file_items: &SourceFileItems, item: &N) -> (r: Option<
        ModuleItem,
    >)
        requires
            file_items.wf(),
            item.wf(),
            item.node().tree() == file_items.tree(),
            defines_name(item.node().data().kind),
        ensures
            opt_item_view(r) == input_item(
                item.node().tree()@,
                file_id,
                file_items.items(),
                item.node().index(),
            ),
    {
        proof {
            item.lemma_wf();
        }
        let name_syntax = item.name();
        proof {
            lemma_found::<ast::Name>(name_syntax, item.node(), 0);
        }
        let name = match name_syntax {
            Some(n) => Name::from_name(n),
            None => {
                return None;
            },
        };
        let kind = item.syntax().kind();
        let vis = Vis::Other;
        let item_id = Some(file_items.id_of_unchecked(item.syntax()));
        let id = SourceItemId { file_id, item_id };
        Some(ModuleItem { id, name, kind, vis })
    }
}

/// The view of an input item that may be missing.
pub open spec fn opt_item_view(i: Option<ModuleItem>) -> Option<ModuleItemView> {
    match i {
        Some(i) => Some(i@),
        None => None,
    }
}

impl InputModuleItems {
    pub fn new() -> (r: InputModuleItems)
        ensures
            r@.len() == 0,
    {
        InputModuleItems { items: Vec::new() }
    }

    /// The items, in the order in which they were added.
    pub fn items(&self) -> (r: &Vec<ModuleItem>)
        ensures
            r@.map_values(|i: ModuleItem| i@) == self@,
    {
        &self.items
    }

    fn push(&mut self, item: Option<ModuleItem>)
        ensures
            final(self)@ == (match item {
                Some(i) => old(self)@.push(i@),
                None => old(self)@,
            }),
    {
        match item {
            Some(i) => {
                let ghost v = i@;
                self.items.push(i);
                assert(self@ =~= old(self)@.push(v));
            },
            None => {},
        }
    }

    /// Takes in one item: an item that defines a name comes with it, and
    /// any other item leaves nothing.
    pub fn add_item(&mut self, file_id: HirFileId, file_items: &SourceFileItems, item: ast::ModuleItem)
        requires
            file_items.wf(),
            item.wf(),
            item.node().tree() == file_items.tree(),
        ensures
            final(self)@ == (match input_item(
                item.node().tree()@,
                file_id,
                file_items.items(),
                item.node().index(),
            ) {
                Some(i) => old(self)@.push(i),
                None => old(self)@,
            }),
    {
        proof {
            item.lemma_wf();
        }
        match item {
            ast::ModuleItem::StructDef(it) => {
                self.push(ModuleItem::new(file_id, file_items, &it));
            },
            ast::ModuleItem::EnumDef(it) => {
                self.push(ModuleItem::new(file_id, file_items, &it));
            },
            ast::ModuleItem::FnDef(it) => {
                self.push(ModuleItem::new(file_id, file_items, &it));
            },
            ast::ModuleItem::TraitDef(it) => {
                self.push(ModuleItem::new(file_id, file_items, &it));
            },
            ast::ModuleItem::TypeDef(it) => {
                self.push(ModuleItem::new(file_id, file_items, &it));
            },
            ast::ModuleItem::ImplBlock(_) => {
                // impls don't define items
            },
            ast::ModuleItem::UseItem(_) => {
                // imports define no item of their own
            },
            ast::ModuleItem::ExternCrateItem(_) => {
                // a crate from outside defines no item here
            },
            ast::ModuleItem::ConstDef(it) => {
                self.push(ModuleItem::new(file_id, file_items, &it));
            },
            ast::ModuleItem::StaticDef(it) => {
                self.push(ModuleItem::new(file_id, file_items, &it));
            },
            ast::ModuleItem::Module(it) => {
                self.push(ModuleItem::new(file_id, file_items, &it));
            },
        }
    }

    /// Takes in the items that `children` hands out.
    pub fn add_items<'a>(
        &mut self,
        file_id: HirFileId,
        file_items: &SourceFileItems,
        children: AstChildren<'a, ast::ModuleItem<'a>>,
    )
        requires
            file_items.wf(),
            children.wf(),
            children.parent().tree() == file_items.tree(),
        ensures
            final(self)@ == input_items(
                children.parent().tree()@,
                file_id,
                file_items.items(),
                children.rest(),
                old(self)@,
            ),
    {
        let ghost nodes = children.parent().tree()@;
        let mut it = children;
        loop
            invariant
                file_items.wf(),
                it.wf(),
                it.parent().tree() == file_items.tree(),
                nodes == children.parent().tree()@,
                it.parent().tree()@ == nodes,
                input_items(nodes, file_id, file_items.items(), it.rest(), self@) == input_items(
                    nodes,
                    file_id,
                    file_items.items(),
                    children.rest(),
                    old(self)@,
                ),
            decreases it.rest().len(),
        {
            match it.next() {
                Some(item) => {
                    self.add_item(file_id, file_items, item);
                },
                None => {
                    return ;
                },
            }
        }
    }
}

/// The source of a module: a whole file, or a module with its items in braces.
#[derive(Debug, Clone, Copy, PartialEq, Eq)]
pub enum ModuleSource<'a> {
    SourceFile(ast::SourceFile<'a>),
    Module(ast::Module<'a>),
}

impl<'a> ModuleSource<'a> {
    pub open spec fn wf(&self) -> bool {
        match self {
            ModuleSource::SourceFile(f) => f.wf(),
            ModuleSource::Module(m) => m.wf(),
        }
    }

    /// The tree that the source is a part of.
    pub open spec fn tree(&self) -> crate::syntax::SyntaxTree {
        match self {
            ModuleSource::SourceFile(f) => f.node().tree(),
            ModuleSource::Module(m) => m.node().tree(),
        }
    }

    /// The node whose children the items are, if there is one: the file
    /// itself, or the item list of the module.
    pub open spec fn holder(&self) -> Option<int> {
        match self {
            ModuleSource::SourceFile(f) => Some(f.node().index()),
            ModuleSource::Module(m) => kid::<ast::ItemList>(m.node().tree()@, m.node().index(), 0),
        }
    }

    /// The items of the module and the macro calls among them.
    pub fn items_with_macros(&self) -> (r: Option<AstChildren<'a, ast::ItemOrMacro<'a>>>)
        requires
            self.wf(),
        ensures
            r.is_some() == self.holder().is_some(),
            r matches Some(it) ==> {
                &&& it.wf()
                &&& it.pos() == 0
                &&& it.parent().tree() == self.tree()
                &&& Some(it.parent().index()) == self.holder()
            },
    {
        match self {
            ModuleSource::SourceFile(it) => Some(it.items_with_macros()),
            ModuleSource::Module(it) => {
                proof {
                    it.lemma_wf();
                }
                let list = it.item_list();
                proof {
                    lemma_found::<ast::ItemList>(list, it.node(), 0);
                }
                match list {
                    Some(item_list) => {
                        proof {
                            item_list.lemma_wf();
                        }
                        Some(item_list.items_with_macros())
                    },
                    None => None,
                }
            },
        }
    }
}

/// The location of the macro call at node `n` of a module.
pub open spec fn macro_call_loc(
    source_root_id: SourceRootId,
    module_id: ModuleId,
    file_id: HirFileId,
    file_items: Seq<int>,
    n: int,
) -> MacroCallLoc {
    MacroCallLoc {
        source_root_id,
        module_id,
        source_item_id: SourceItemId { file_id, item_id: Some(SourceFileItemId(file_items.index_of(n) as usize)) },
    }
}

/// The ids of the macro calls among the nodes `ks`, after those of `acc`,
/// and the locations of macro calls that have a number afterwards.
pub open spec fn macro_calls_of(
    nodes: Seq<NodeView>,
    source_root_id: SourceRootId,
    module_id: ModuleId,
    file_id: HirFileId,
    file_items: Seq<int>,
    ks: Seq<int>,
    db: Seq<MacroCallLoc>,
    acc: Seq<MacroCallId>,
) -> (Seq<MacroCallLoc>, Seq<MacroCallId>)
    decreases ks.len(),
{
    if ks.len() == 0 {
        (db, acc)
    } else if nodes[ks[0]].kind == SyntaxKind::MACRO_CALL {
        let (db2, id) = spec_intern(db, macro_call_loc(source_root_id, module_id, file_id, file_items, ks[0]));
        macro_calls_of(
            nodes,
            source_root_id,
            module_id,
            file_id,
            file_items,
            ks.drop_first(),
            db2,
            acc.push(MacroCallId(id as usize)),
        )
    } else {
        macro_calls_of(nodes, source_root_id, module_id, file_id, file_items, ks.drop_first(), db, acc)
    }
}

/// The macro calls among the items of a module, in the order of the
/// source: each gets its id, and its expansion is to be read as a file.
pub fn macro_calls(
    db: &mut LocationInterner<MacroCallLoc>,
    source_root_id: SourceRootId,
    module_id: ModuleId,
    file_id: HirFileId,
    file_items: &SourceFileItems,
    source: ModuleSource,
) -> (r: Vec<MacroCallId>)
    requires
        old(db).wf(),
        file_items.wf(),
        source.wf(),
        source.tree() == file_items.tree(),
    ensures
        final(db).wf(),
        (final(db)@, r@) == (match source.holder() {
            Some(h) => macro_calls_of(
                source.tree()@,
                source_root_id,
                module_id,
                file_id,
                file_items.items(),
                kids::<ast::ItemOrMacro>(source.tree()@, h),
                old(db)@,
                Seq::empty(),
            ),
            None => (old(db)@, Seq::empty()),
        }),
{
    let mut out: Vec<MacroCallId> = Vec::new();
    let children = match source.items_with_macros() {
        Some(it) => it,
        None => {
            return out;
        },
    };
    let ghost nodes = source.tree()@;
    let ghost all = children.rest();
    let mut it = children;
    loop
        invariant
            db.wf(),
            file_items.wf(),
            it.wf(),
            it.parent().tree() == file_items.tree(),
            nodes == source.tree()@,
            it.parent().tree()@ == nodes,
            source.holder() matches Some(h) && all == kids::<ast::ItemOrMacro>(nodes, h),
            macro_calls_of(
                nodes,
                source_root_id,
                module_id,
                file_id,
                file_items.items(),
                it.rest(),
                db@,
                out@,
            ) == macro_calls_of(
                nodes,
                source_root_id,
                module_id,
                file_id,
                file_items.items(),
                all,
                old(db)@,
                Seq::empty(),
            ),
        decreases it.rest().len(),
    {
        match it.next() {
            Some(item) => {
                proof {
                    item.lemma_wf();
                }
                match item {
                    ast::ItemOrMacro::Item(_) => {},
                    ast::ItemOrMacro::Macro(macro_call) => {
                        let item_id = file_items.id_of_unchecked(macro_call.syntax());
                        let loc = MacroCallLoc {
                            source_root_id,
                            module_id,
                            source_item_id: SourceItemId { file_id, item_id: Some(item_id) },
                        };
                        let id = MacroCallId(db.loc2id(&loc));
                        out.push(id);
                    },
                }
            },
            None => {
                return out;
            },
        }
    }
}

/// The expansion of one macro call, read as a file: the id of the file,
/// its items and its syntax.
pub struct MacroExpansion<'a> {
    pub file_id: HirFileId,
    pub file_items: &'a SourceFileItems<'a>,
    pub source_file: ast::SourceFile<'a>,
}

impl<'a> MacroExpansion<'a> {
    pub open spec fn wf(&self) -> bool {
        &&& self.file_items.wf()
        &&& self.source_file.wf()
        &&& self.source_file.node().tree() == self.file_items.tree()
    }

    /// The input items that the expansion gives, after those of `acc`:
    /// those of the items of the expanded file. Macro calls in the
    /// expansion are not expanded in turn.
    pub open spec fn items_after(&self, acc: Seq<ModuleItemView>) -> Seq<ModuleItemView> {
        input_items(
            self.source_file.node().tree()@,
            self.file_id,
            self.file_items.items(),
            kids::<ast::ModuleItem>(self.source_file.node().tree()@, self.source_file.node().index()),
            acc,
        )
    }
}

/// The input items for the nodes `ks` of a module, after those of `acc`:
/// each item gives its own input item, and the `k`-th macro call gives
/// the input items of the `k`-th expansion, counted from `next`. A macro
/// call for which no expansion is left gives nothing.
pub open spec fn items_with_expansions(
    nodes: Seq<NodeView>,
    file_id: HirFileId,
    file_items: Seq<int>,
    ks: Seq<int>,
    expansions: Seq<MacroExpansion>,
    next: int,
    acc: Seq<ModuleItemView>,
) -> Seq<ModuleItemView>
    decreases ks.len(),
{
    if ks.len() == 0 {
        acc
    } else if nodes[ks[0]].kind == SyntaxKind::MACRO_CALL {
        items_with_expansions(
            nodes,
            file_id,
            file_items,
            ks.drop_first(),
            expansions,
            if 0 <= next < expansions.len() {
                next + 1
            } else {
                next
            },
            if 0 <= next < expansions.len() {
                expansions[next].items_after(acc)
            } else {
                acc
            },
        )
    } else {
        items_with_expansions(
            nodes,
            file_id,
            file_items,
            ks.drop_first(),
            expansions,
            next,
            match input_item(nodes, file_id, file_items, ks[0]) {
                Some(item) => acc.push(item),
                None => acc,
            },
        )
    }
}

} // verus!
