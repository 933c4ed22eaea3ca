//! Addresses of definitions: ids of locations, and the items of a file by
//! their numbers.

use vstd::prelude::*;
use crate::ast::AstNode;
use crate::ast;
use crate::input::{FileId, SourceRootId};
use crate::syntax::{NodeView, SyntaxNodeRef, SyntaxTree};
use crate::syntax_kind::SyntaxKind;

verus! {

/// The place of a module in the module tree of its source root.
#[derive(Debug, Clone, Copy, PartialEq, Eq, Structural, PartialOrd, Ord, Hash)]
pub struct ModuleId(pub usize);

/// The id of a macro call whose expansion serves as a file.
#[derive(Debug, Clone, Copy, PartialEq, Eq, Structural, Hash)]
pub struct MacroCallId(pub usize);

/// A file of source text, or the expansion of a macro call, which is
/// read as a file of its own.
#[derive(Debug, Clone, Copy, PartialEq, Eq, Structural, Hash)]
pub enum HirFileId {
    File(FileId),
    Macro(MacroCallId),
}

impl HirFileId {
    pub fn from_file(file_id: FileId) -> (r: HirFileId)
        ensures
            r == HirFileId::File(file_id),
    {
        HirFileId::File(file_id)
    }

    pub fn from_macro_call(id: MacroCallId) -> (r: HirFileId)
        ensures
            r == HirFileId::Macro(id),
    {
        HirFileId::Macro(id)
    }

    /// The file of source text; for a macro expansion there is none.
    pub fn original_file(self) -> (r: Option<FileId>)
        ensures
            r == (match self {
                HirFileId::File(f) => Some(f),
                HirFileId::Macro(_) => None,
            }),
    {
        match self {
            HirFileId::File(f) => Some(f),
            HirFileId::Macro(_) => None,
        }
    }
}

/// Identifier of item within a specific file. This is stable over reparses, so
/// it's OK to use it as a salsa key/value.
#[derive(Debug, Clone, Copy, PartialEq, Eq, Structural, PartialOrd, Ord, Hash)]
pub struct SourceFileItemId(pub usize);

/// The address of a declaration: its file and its number among the items
/// of the file. Without a number it is the whole file.
#[derive(Debug, Clone, Copy, PartialEq, Eq, Structural, Hash)]
pub struct SourceItemId {
    pub file_id: HirFileId,
    /// None for the whole file.
    pub item_id: Option<SourceFileItemId>,
}

#[derive(Debug, Clone, Copy, PartialEq, Eq, Structural, Hash)]
pub enum DefKind {
    Module,
    Function,
    Struct,
    Enum,
    EnumVariant,
    Item,
    StructCtor,
}

/// Where a definition stands: in which module of which source root, and
/// at which address in the source.
#[derive(Debug, Clone, Copy, PartialEq, Eq, Structural, Hash)]
pub struct DefLoc {
    pub kind: DefKind,
    pub source_root_id: SourceRootId,
    pub module_id: ModuleId,
    pub source_item_id: SourceItemId,
}

/// Def's are a core concept of hir. A `Def` is an Item (function, module, etc)
/// in a specific module.
#[derive(Debug, Clone, Copy, PartialEq, Eq, Structural, PartialOrd, Ord, Hash)]
pub struct DefId(pub usize);

/// Where a macro call stands.
#[derive(Debug, Clone, Copy, PartialEq, Eq, Structural, Hash)]
pub struct MacroCallLoc {
    pub source_root_id: SourceRootId,
    pub module_id: ModuleId,
    pub source_item_id: SourceItemId,
}

/// A location that an interner can hold.
pub trait Location: Copy + Sized {
    /// Tells whether two locations are the same.
    fn same(&self, other: &Self) -> (r: bool)
        ensures
            r == (*self == *other),
    ;
}

impl Location for DefLoc {
    fn same(&self, other: &Self) -> (r: bool) {
        *self == *other
    }
}

impl Location for MacroCallLoc {
    fn same(&self, other: &Self) -> (r: bool) {
        *self == *other
    }
}

/// What interning `loc` does to the locations `s` that have numbers, and
/// the number of `loc`: the one it has, or else the next free one.
pub open spec fn spec_intern<LOC>(s: Seq<LOC>, loc: LOC) -> (Seq<LOC>, int) {
    if s.contains(loc) {
        (s, s.index_of(loc))
    } else {
        (s.push(loc), s.len() as int)
    }
}

/// Gives each location a number of its own: the first location that comes
/// gets 0, the next new one 1, and a location that came before gets the
/// number that it got then.
#[derive(Debug)]
pub struct LocationInterner<LOC> {
    id2loc: Vec<LOC>,
}

impl<LOC> View for LocationInterner<LOC> {
    type V = Seq<LOC>;

    closed spec fn view(&self) -> Seq<LOC> {
        self.id2loc@
    }
}

impl<LOC: Location> LocationInterner<LOC> {
    /// No location has two numbers.
    pub open spec fn wf(&self) -> bool {
        self@.no_duplicates()
    }

    pub fn new() -> (r: Self)
        ensures
            r.wf(),
            r@.len() == 0,
    {
        LocationInterner { id2loc: Vec::new() }
    }

    /// The number of locations that have a number.
    pub fn len(&self) -> (r: usize)
        ensures
            r == self@.len(),
    {
        self.id2loc.len()
    }

    /// The number of `loc`: the one it has, or the next free one.
    pub fn loc2id(&mut self, loc: &LOC) -> (id: usize)
        requires
            old(self).wf(),
        ensures
            final(self).wf(),
            id < final(self)@.len(),
            final(self)@[id as int] == *loc,
            (final(self)@, id as int) == spec_intern(old(self)@, *loc),
    {
        let mut i: usize = 0;
        while i < self.id2loc.len()
            invariant
                self@ == old(self)@,
                self@.no_duplicates(),
                i <= self@.len(),
                forall|k: int| 0 <= k < i ==> self@[k] != *loc,
            decreases self.id2loc.len() - i,
        {
            if self.id2loc[i].same(loc) {
                proof {
                    let j = self@.index_of(*loc);
                    assert(self@[i as int] == *loc);
                    assert(self@.contains(*loc));
                }
                return i;
            }
            i += 1;
        }
        self.id2loc.push(*loc);
        i
    }

    /// The location with number `id`.
    pub fn id2loc(&self, id: usize) -> (r: LOC)
        requires
            id < self@.len(),
        ensures
            r == self@[id as int],
    {
        self.id2loc[id]
    }
}

/// The kind is that of an item of a module, or of a macro call.
pub open spec fn is_item_kind(kind: SyntaxKind) -> bool {
    ast::ModuleItem::can_cast(kind) || kind == SyntaxKind::MACRO_CALL
}

/// The numbers of the item nodes of a tree below number `n`, in growing order.
pub open spec fn item_nodes(nodes: Seq<NodeView>, n: int) -> Seq<int>
    decreases n,
{
    if n <= 0 {
        Seq::empty()
    } else if is_item_kind(nodes[n - 1].kind) {
        item_nodes(nodes, n - 1).push(n - 1)
    } else {
        item_nodes(nodes, n - 1)
    }
}

/// An item node below `n` stands in the list of item nodes below `n`.
pub proof fn lemma_item_nodes_complete(nodes: Seq<NodeView>, n: int, i: int)
    requires
        0 <= i < n,
        is_item_kind(nodes[i].kind),
    ensures
        item_nodes(nodes, n).contains(i),
    decreases n,
{
    if i == n - 1 {
        assert(item_nodes(nodes, n).last() == i);
    } else {
        lemma_item_nodes_complete(nodes, n - 1, i);
        let prev = item_nodes(nodes, n - 1);
        let k = choose|k: int| 0 <= k < prev.len() && prev[k] == i;
        if is_item_kind(nodes[n - 1].kind) {
            assert(item_nodes(nodes, n)[k] == i);
        }
    }
}

/// The list of item nodes grows strictly.
pub proof fn lemma_item_nodes_sorted(nodes: Seq<NodeView>, n: int)
    requires
        0 <= n <= nodes.len(),
    ensures
        forall|a: int, b: int|
            0 <= a < b < item_nodes(nodes, n).len() ==> (#[trigger] item_nodes(nodes, n)[a]) < (
            #[trigger] item_nodes(nodes, n)[b]),
    decreases n,
{
    if n > 0 {
        lemma_item_nodes_sorted(nodes, n - 1);
        lemma_item_nodes_sound(nodes, n - 1);
    }
}

/// Every listed node is an item node below `n`.
pub proof fn lemma_item_nodes_sound(nodes: Seq<NodeView>, n: int)
    requires
        0 <= n <= nodes.len(),
    ensures
        forall|k: int|
            0 <= k < item_nodes(nodes, n).len() ==> 0 <= #[trigger] item_nodes(nodes, n)[k] < n && is_item_kind(
                nodes[item_nodes(nodes, n)[k]].kind,
            ),
        item_nodes(nodes, n).len() <= n,
    decreases n,
{
    if n > 0 {
        lemma_item_nodes_sound(nodes, n - 1);
    }
}

/// Maps item's `SyntaxNode`s to `SourceFileItemId` and back: the items of
/// a file, in the order of the source, each under a small number.
#[derive(Debug, PartialEq, Eq)]
pub struct SourceFileItems<'a> {
    file_id: HirFileId,
    tree: &'a SyntaxTree,
    arena: Vec<usize>,
}

impl<'a> SourceFileItems<'a> {
    /// The file whose items these are.
    pub closed spec fn spec_file_id(&self) -> HirFileId {
        self.file_id
    }

    /// The tree of the file.
    pub closed spec fn tree(&self) -> SyntaxTree {
        *self.tree
    }

    /// The numbers of the item nodes, by item id.
    pub closed spec fn items(&self) -> Seq<int> {
        self.arena@.map_values(|i: usize| i as int)
    }

    /// The items are all the item nodes of a well-formed tree, in the
    /// order of the source.
    pub open spec fn wf(&self) -> bool {
        &&& self.tree().wf()
        &&& self.items() == item_nodes(self.tree()@, self.tree()@.len() as int)
    }

    pub fn new(file_id: HirFileId, source_file: ast::SourceFile<'a>) -> (r: SourceFileItems<'a>)
        requires
            source_file.wf(),
        ensures
            r.wf(),
            r.spec_file_id() == file_id,
            r.tree() == source_file.node().tree(),
    {
        let tree = source_file.syntax().owner();
        let n = tree.len();
        let mut arena: Vec<usize> = Vec::new();
        let mut i: usize = 0;
        while i < n
            invariant
                tree.wf(),
                n == tree@.len(),
                i <= n,
                arena@.map_values(|i: usize| i as int) =~= item_nodes(tree@, i as int),
            decreases n - i,
        {
            let node = tree.node(i).unwrap();
            let is_item = ast::ModuleItem::cast(node).is_some() || ast::MacroCall::cast(node).is_some();
            if is_item {
                arena.push(i);
            }
            i += 1;
        }
        SourceFileItems { file_id, tree, arena }
    }

    /// The file whose items these are.
    pub fn file_id(&self) -> (r: HirFileId)
        ensures
            r == self.spec_file_id(),
    {
        self.file_id
    }

    /// The number of items.
    pub fn len(&self) -> (r: usize)
        ensures
            r == self.items().len(),
    {
        self.arena.len()
    }

    /// The id of the item at node `n`.
    pub open spec fn spec_id_of(&self, n: int) -> SourceFileItemId {
        SourceFileItemId(self.items().index_of(n) as usize)
    }

    /// The id of an item node of the file.
    pub fn id_of_unchecked(&self, item: SyntaxNodeRef) -> (r: SourceFileItemId)
        requires
            self.wf(),
            item.wf(),
            item.tree() == self.tree(),
            is_item_kind(item.data().kind),
        ensures
            r.0 < self.items().len(),
            self.items()[r.0 as int] == item.index(),
            r == self.spec_id_of(item.index()),
    {
        proof {
            lemma_item_nodes_complete(self.tree()@, self.tree()@.len() as int, item.index());
            lemma_item_nodes_sorted(self.tree()@, self.tree()@.len() as int);
        }
        let target = item.idx();
        let mut i: usize = 0;
        while i < self.arena.len()
            invariant
                i <= self.arena.len(),
                target == item.index(),
                self.items().contains(target as int),
                forall|a: int, b: int|
                    0 <= a < b < self.items().len() ==> (#[trigger] self.items()[a]) < (#[trigger] self.items()[b]),
                forall|k: int| 0 <= k < i ==> self.items()[k] != target,
            decreases self.arena.len() - i,
        {
            if self.arena[i] == target {
                proof {
                    assert(self.items()[i as int] == self.arena@[i as int] as int);
                    let j = self.items().index_of(target as int);
                    assert(self.items()[j] == target);
                    if j < i {
                        assert(self.items()[j] < self.items()[i as int]);
                    }
                    if i < j {
                        assert(self.items()[i as int] < self.items()[j]);
                    }
                }
                return SourceFileItemId(i);
            }
            assert(self.items()[i as int] == self.arena@[i as int] as int);
            i += 1;
        }
        proof {
            let items = self.items();
            let k = choose|k: int| 0 <= k < items.len() && items[k] == target;
        }
        vstd::pervasive::unreached()
    }

    /// The id of an item node of the file; `None` for a node that is no item.
    pub fn id_of(&self, item: SyntaxNodeRef) -> (r: Option<SourceFileItemId>)
        requires
            self.wf(),
            item.wf(),
            item.tree() == self.tree(),
        ensures
            r.is_some() == is_item_kind(item.data().kind),
            r matches Some(id) ==> id.0 < self.items().len() && self.items()[id.0 as int] == item.index(),
    {
        if ast::ModuleItem::cast(item).is_some() || ast::MacroCall::cast(item).is_some() {
            Some(self.id_of_unchecked(item))
        } else {
            None
        }
    }

    /// The node of the item with the given id.
    pub fn get(&self, id: SourceFileItemId) -> (r: SyntaxNodeRef<'a>)
        requires
            self.wf(),
            id.0 < self.items().len(),
        ensures
            r.wf(),
            r.tree() == self.tree(),
            r.index() == self.items()[id.0 as int],
            is_item_kind(r.data().kind),
    {
        proof {
            lemma_item_nodes_sound(self.tree()@, self.tree()@.len() as int);
            let items = item_nodes(self.tree()@, self.tree()@.len() as int);
            assert(items[id.0 as int] == self.arena@[id.0 as int] as int);
            assert(0 <= items[id.0 as int] < self.tree()@.len());
        }
        self.tree.node(self.arena[id.0]).unwrap()
    }
}

} // verus!
