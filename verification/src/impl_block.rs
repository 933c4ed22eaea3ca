//! The impl blocks of a module, and for each member the block that holds it.

use vstd::prelude::*;
use std::sync::Arc;
use rustc_hash::FxHashMap;
use crate::ast;
use crate::ast::{AstNode, kids, nth_kid};
use crate::fx::{fx_map_get, fx_map_insert, fx_map_new};
use crate::ids::{DefId, DefKind, DefLoc, LocationInterner, SourceFileItemId, SourceFileItems, SourceItemId, spec_intern};
use crate::lower::lemma_found;
use crate::lower_spec::{kid, type_of, type_or_error};
use crate::syntax::{NodeView, SyntaxNodeRef};
use crate::syntax_kind::SyntaxKind;
use crate::type_ref::{TypeRef, TypeRefView};
use crate::expr::opt_type_view;

verus! {

/// The outcome of a computation that newer input has made pointless.
#[derive(Debug, Clone, Copy, PartialEq, Eq, Structural, Hash)]
pub struct Canceled;

/// What a computation gives that can be cancelled.
pub type Cancelable<T> = Result<T, Canceled>;

/// A module, by the id of its definition.
#[derive(Debug, Clone, Copy, PartialEq, Eq, Structural, Hash)]
pub struct Module {
    pub def_id: DefId,
}

/// A function, by the id of its definition.
#[derive(Debug, Clone, Copy, PartialEq, Eq, Structural, Hash)]
pub struct Function {
    pub def_id: DefId,
}

impl Function {
    pub fn new(def_id: DefId) -> (r: Function)
        ensures
            r.def_id == def_id,
    {
        Function { def_id }
    }

    pub fn def_id(&self) -> (r: DefId)
        ensures
            r == self.def_id,
    {
        self.def_id
    }
}

#[derive(Debug, Clone, Copy, PartialEq, Eq, Structural)]
pub enum ImplItem {
    Method(Function),
    // these don't have their own types yet
    Const(DefId),
    Type(DefId),
}

impl ImplItem {
    pub open spec fn spec_def_id(&self) -> DefId {
        match self {
            ImplItem::Method(f) => f.def_id,
            ImplItem::Const(def_id) => *def_id,
            ImplItem::Type(def_id) => *def_id,
        }
    }

    #[verifier::when_used_as_spec(spec_def_id)]
    pub fn def_id(&self) -> (r: DefId)
        ensures
            r == self.spec_def_id(),
    {
        match self {
            ImplItem::Method(f) => f.def_id(),
            ImplItem::Const(def_id) => *def_id,
            ImplItem::Type(def_id) => *def_id,
        }
    }
}

#[derive(Debug, PartialEq, Eq)]
pub struct ImplData {
    target_trait: Option<TypeRef>,
    target_type: TypeRef,
    items: Vec<ImplItem>,
}

/// An impl block as a mathematical value.
pub struct ImplDataView {
    pub target_trait: Option<TypeRefView>,
    pub target_type: TypeRefView,
    pub items: Seq<ImplItem>,
}

impl View for ImplData {
    type V = ImplDataView;

    closed spec fn view(&self) -> ImplDataView {
        ImplDataView {
            target_trait: opt_type_view(self.target_trait),
            target_type: self.target_type@,
            items: self.items@,
        }
    }
}

/// The type position of the impl block at node `i` that names the type
/// implemented for: the second where there are two, else the first.
pub open spec fn target_type_of(nodes: Seq<NodeView>, i: int) -> Option<int> {
    if kids::<ast::TypeRef>(nodes, i).len() >= 2 {
        nth_kid::<ast::TypeRef>(nodes, i, 1)
    } else {
        nth_kid::<ast::TypeRef>(nodes, i, 0)
    }
}

/// The type position of the impl block at node `i` that names the trait:
/// the first, where there are two.
pub open spec fn target_trait_of(nodes: Seq<NodeView>, i: int) -> Option<int> {
    if kids::<ast::TypeRef>(nodes, i).len() >= 2 {
        nth_kid::<ast::TypeRef>(nodes, i, 0)
    } else {
        None
    }
}

/// The location of the member at node `n` of an impl block of the module
/// at `module_loc`: the module's, but for the kind and the address.
pub open spec fn impl_item_loc(nodes: Seq<NodeView>, item_id: SourceFileItemId, module_loc: DefLoc, n: int) -> DefLoc {
    DefLoc {
        kind: if nodes[n].kind == SyntaxKind::FN_DEF {
            DefKind::Function
        } else {
            DefKind::Item
        },
        source_item_id: SourceItemId { file_id: module_loc.source_item_id.file_id, item_id: Some(item_id) },
        ..module_loc
    }
}

/// The member for node `n`, once its definition has the id `def_id`.
pub open spec fn impl_item_of(nodes: Seq<NodeView>, n: int, def_id: DefId) -> ImplItem {
    match nodes[n].kind {
        SyntaxKind::FN_DEF => ImplItem::Method(Function { def_id }),
        SyntaxKind::CONST_DEF => ImplItem::Const(def_id),
        _ => ImplItem::Type(def_id),
    }
}

/// The members for the nodes `ks`, after those of `acc`, and the
/// locations that have a number afterwards.
pub open spec fn impl_items_of(
    nodes: Seq<NodeView>,
    file_items: Seq<int>,
    module_loc: DefLoc,
    ks: Seq<int>,
    db: Seq<DefLoc>,
    acc: Seq<ImplItem>,
) -> (Seq<DefLoc>, Seq<ImplItem>)
    decreases ks.len(),
{
    if ks.len() == 0 {
        (db, acc)
    } else {
        let n = ks[0];
        let item_id = SourceFileItemId(file_items.index_of(n) as usize);
        let (db2, id) = spec_intern(db, impl_item_loc(nodes, item_id, module_loc, n));
        impl_items_of(
            nodes,
            file_items,
            module_loc,
            ks.drop_first(),
            db2,
            acc.push(impl_item_of(nodes, n, DefId(id as usize))),
        )
    }
}

/// The impl block that the syntax at node `i` stands for, and the
/// locations that have a number afterwards. The type implemented for is
/// the error type where the syntax names none.
pub open spec fn impl_data_of(
    nodes: Seq<NodeView>,
    file_items: Seq<int>,
    module_loc: DefLoc,
    i: int,
    db: Seq<DefLoc>,
) -> (Seq<DefLoc>, ImplDataView) {
    let (db2, items) = match kid::<ast::ItemList>(nodes, i, 0) {
        Some(l) => impl_items_of(nodes, file_items, module_loc, kids::<ast::ImplItem>(nodes, l), db, Seq::empty()),
        None => (db, Seq::empty()),
    };
    (
        db2,
        ImplDataView {
            target_trait: type_of(nodes, target_trait_of(nodes, i)),
            target_type: type_or_error(nodes, target_type_of(nodes, i)),
            items,
        },
    )
}

impl ImplData {
    pub fn from_ast(
        db: &mut LocationInterner<DefLoc>,
        file_items: &SourceFileItems,
        module: &Module,
        node: ast::ImplBlock,
    ) -> (r: ImplData)
        requires
            old(db).wf(),
            file_items.wf(),
            node.wf(),
            node.node().tree() == file_items.tree(),
            module.def_id.0 < old(db)@.len(),
        ensures
            final(db).wf(),
            old(db)@.len() <= final(db)@.len(),
            (final(db)@, r@) == impl_data_of(
                node.node().tree()@,
                file_items.items(),
                old(db)@[module.def_id.0 as int],
                node.node().index(),
                old(db)@,
            ),
    {
        let ghost nodes = node.node().tree()@;
        let ghost i = node.node().index();
        proof {
            node.lemma_wf();
        }
        let trait_syntax = node.target_trait();
        let type_syntax = node.target_type();
        let target_trait = match trait_syntax {
            Some(t) => Some(TypeRef::from_ast(t)),
            None => None,
        };
        let target_type = TypeRef::from_ast_opt(type_syntax);
        let module_loc = db.id2loc(module.def_id.0);
        let list = node.item_list();
        proof {
            lemma_found::<ast::ItemList>(list, node.node(), 0);
        }
        let items = if let Some(item_list) = list {
            proof {
                item_list.lemma_wf();
            }
            ImplData::impl_items(db, file_items, module_loc, item_list.impl_items())
        } else {
            Vec::new()
        };
        ImplData { target_trait, target_type, items }
    }

    fn impl_items<'a>(
        db: &mut LocationInterner<DefLoc>,
        file_items: &SourceFileItems,
        module_loc: DefLoc,
        children: ast::AstChildren<'a, ast::ImplItem<'a>>,
    ) -> (items: Vec<ImplItem>)
        requires
            old(db).wf(),
            file_items.wf(),
            children.wf(),
            children.parent().tree() == file_items.tree(),
        ensures
            final(db).wf(),
            old(db)@.len() <= final(db)@.len(),
            (final(db)@, items@) == impl_items_of(
                children.parent().tree()@,
                file_items.items(),
                module_loc,
                children.rest(),
                old(db)@,
                Seq::empty(),
            ),
    {
        let ghost nodes = children.parent().tree()@;
        let mut items: Vec<ImplItem> = Vec::new();
        let mut it = children;
        loop
            invariant
                db.wf(),
                file_items.wf(),
                it.wf(),
                it.parent().tree() == file_items.tree(),
                it.parent().tree()@ == nodes,
                nodes == children.parent().tree()@,
                old(db)@.len() <= db@.len(),
                impl_items_of(nodes, file_items.items(), module_loc, it.rest(), db@, items@) == impl_items_of(
                    nodes,
                    file_items.items(),
                    module_loc,
                    children.rest(),
                    old(db)@,
                    Seq::empty(),
                ),
            decreases it.rest().len(),
        {
            match it.next() {
                Some(item_node) => {
                    proof {
                        item_node.lemma_wf();
                    }
                    let kind = match item_node {
                        ast::ImplItem::FnDef(_) => DefKind::Function,
                        ast::ImplItem::ConstDef(_) => DefKind::Item,
                        ast::ImplItem::TypeDef(_) => DefKind::Item,
                    };
                    let item_id = file_items.id_of_unchecked(item_node.syntax());
                    let source_item_id = SourceItemId {
                        file_id: module_loc.source_item_id.file_id,
                        item_id: Some(item_id),
                    };
                    let def_loc = DefLoc {
                        kind,
                        source_root_id: module_loc.source_root_id,
                        module_id: module_loc.module_id,
                        source_item_id,
                    };
                    let def_id = DefId(db.loc2id(&def_loc));
                    let item = match item_node {
                        ast::ImplItem::FnDef(_) => ImplItem::Method(Function::new(def_id)),
                        ast::ImplItem::ConstDef(_) => ImplItem::Const(def_id),
                        ast::ImplItem::TypeDef(_) => ImplItem::Type(def_id),
                    };
                    items.push(item);
                },
                None => {
                    return items;
                },
            }
        }
    }

    pub fn target_trait(&self) -> (r: Option<&TypeRef>)
        ensures
            r.is_some() == self@.target_trait.is_some(),
            r matches Some(t) ==> Some(t@) == self@.target_trait,
    {
        self.target_trait.as_ref()
    }

    pub fn target_type(&self) -> (r: &TypeRef)
        ensures
            r@ == self@.target_type,
    {
        &self.target_type
    }

    pub fn items(&self) -> (r: &[ImplItem])
        ensures
            r@ == self@.items,
    {
        self.items.as_slice()
    }
}

#[derive(Debug, Clone, Copy, PartialEq, Eq, Structural, PartialOrd, Ord, Hash)]
pub struct ImplId(pub usize);

/// Collection of impl blocks is a two-step process: First we collect the blocks
/// per-module; then we build an index of all impl blocks in the crate. This
/// way, we avoid having to do this process for the whole crate whenever someone
/// types in any file; as long as the impl blocks in the file don't change, we
/// don't need to do the second step again.
///
/// (The second step does not yet exist currently.)
#[derive(Debug, PartialEq, Eq)]
pub struct ModuleImplBlocks {
    impls: Vec<ImplData>,
    impls_by_def: FxHashMap<usize, ImplId>,
}

/// The impl blocks of a module as a mathematical value: the blocks by
/// their ids, and the block of each member by the id of its definition.
pub struct ModuleImplBlocksView {
    pub impls: Seq<ImplDataView>,
    pub by_def: Map<usize, ImplId>,
}

/// Block `id` holds a member whose definition has the id `def`.
pub open spec fn holds_def(impls: Seq<ImplDataView>, id: ImplId, def: usize) -> bool {
    id.0 < impls.len() && exists|j: int|
        0 <= j < impls[id.0 as int].items.len() && (#[trigger] impls[id.0 as int].items[j]).spec_def_id().0 == def
}

/// The index leads from the definition of every member to a block that
/// holds that member.
pub open spec fn index_wf(v: ModuleImplBlocksView) -> bool {
    &&& forall|d: usize| #[trigger] v.by_def.contains_key(d) ==> holds_def(v.impls, v.by_def[d], d)
    &&& forall|k: int, j: int|
        0 <= k < v.impls.len() && 0 <= j < v.impls[k].items.len() ==> v.by_def.contains_key(
            (#[trigger] v.impls[k].items[j]).spec_def_id().0,
        )
}

impl View for ModuleImplBlocks {
    type V = ModuleImplBlocksView;

    closed spec fn view(&self) -> ModuleImplBlocksView {
        ModuleImplBlocksView { impls: self.impls@.map_values(|d: ImplData| d@), by_def: self.impls_by_def@ }
    }
}

/// The index after the members `items` of block `id` were entered.
pub open spec fn index_with(by_def: Map<usize, ImplId>, items: Seq<ImplItem>, id: ImplId) -> Map<usize, ImplId>
    decreases items.len(),
{
    if items.len() == 0 {
        by_def
    } else {
        index_with(by_def, items.drop_last(), id).insert(items.last().spec_def_id().0, id)
    }
}

/// Every member entered is in the index, and what was there stays.
pub proof fn lemma_index_with(by_def: Map<usize, ImplId>, items: Seq<ImplItem>, id: ImplId)
    ensures
        forall|j: int|
            0 <= j < items.len() ==> index_with(by_def, items, id).contains_key(
                (#[trigger] items[j]).spec_def_id().0,
            ),
        forall|d: usize| #[trigger] by_def.contains_key(d) ==> index_with(by_def, items, id).contains_key(d),
        forall|d: usize| #[trigger]
            index_with(by_def, items, id).contains_key(d) ==> (index_with(by_def, items, id)[d] == id && exists|
                j: int,
            |
                0 <= j < items.len() && (#[trigger] items[j]).spec_def_id().0 == d) || (by_def.contains_key(d)
                && index_with(by_def, items, id)[d] == by_def[d]),
    decreases items.len(),
{
    if items.len() > 0 {
        lemma_index_with(by_def, items.drop_last(), id);
        let prev = index_with(by_def, items.drop_last(), id);
        let now = index_with(by_def, items, id);
        assert forall|j: int| 0 <= j < items.len() implies now.contains_key(
            (#[trigger] items[j]).spec_def_id().0,
        ) by {
            if j < items.len() - 1 {
                assert(items.drop_last()[j] == items[j]);
            }
        }
        assert forall|d: usize| #[trigger] now.contains_key(d) implies (now[d] == id && exists|j: int|
            0 <= j < items.len() && (#[trigger] items[j]).spec_def_id().0 == d) || (by_def.contains_key(d)
            && now[d] == by_def[d]) by {
            if d == items.last().spec_def_id().0 {
                assert(items[items.len() - 1].spec_def_id().0 == d);
            } else {
                assert(prev.contains_key(d));
                if prev[d] == id && exists|j: int|
                    0 <= j < items.drop_last().len() && (#[trigger] items.drop_last()[j]).spec_def_id().0 == d {
                    let j = choose|j: int|
                        0 <= j < items.drop_last().len() && (#[trigger] items.drop_last()[j]).spec_def_id().0 == d;
                    assert(items[j].spec_def_id().0 == d);
                }
            }
        }
    }
}

impl ModuleImplBlocks {
    /// The index is consistent with the blocks.
    pub open spec fn wf(&self) -> bool {
        index_wf(self@)
    }

    pub fn new() -> (r: Self)
        ensures
            r.wf(),
            r@.impls.len() == 0,
            r@.by_def.dom() == Set::<usize>::empty(),
    {
        let r = ModuleImplBlocks { impls: Vec::new(), impls_by_def: fx_map_new() };
        assert(r@.impls =~= Seq::empty());
        r
    }

    /// Adds one impl block with its members, under the next free id.
    pub fn add_impl(&mut self, data: ImplData) -> (id: ImplId)
        requires
            old(self).wf(),
        ensures
            final(self).wf(),
            id.0 == old(self)@.impls.len(),
            final(self)@.impls == old(self)@.impls.push(data@),
            final(self)@.by_def == index_with(old(self)@.by_def, data@.items, id),
    {
        broadcast use vstd::std_specs::hash::group_hash_axioms;
        let id = ImplId(self.impls.len());
        let ghost view = data@;
        self.impls.push(data);
        assert(self@.impls =~= old(self)@.impls.push(view));
        let n = self.impls[id.0].items.len();
        let mut j: usize = 0;
        while j < n
            invariant
                id.0 == old(self)@.impls.len(),
                self@.impls == old(self)@.impls.push(view),
                self.impls@.len() == id.0 + 1,
                self.impls@[id.0 as int]@ == view,
                n == view.items.len(),
                j <= n,
                self@.by_def == index_with(old(self)@.by_def, view.items.take(j as int), id),
            decreases n - j,
        {
            let def_id = self.impls[id.0].items[j].def_id();
            let _ = fx_map_insert(&mut self.impls_by_def, def_id.0, id);
            proof {
                assert(view.items.take(j + 1).drop_last() =~= view.items.take(j as int));
                assert(view.items.take(j + 1).last() == view.items[j as int]);
                assert(self.impls@.map_values(|d: ImplData| d@) =~= old(self)@.impls.push(view));
            }
            j += 1;
        }
        proof {
            assert(view.items.take(n as int) =~= view.items);
            lemma_index_with(old(self)@.by_def, view.items, id);
            let a = old(self)@;
            let b = self@;
            assert forall|d: usize| #[trigger] b.by_def.contains_key(d) implies holds_def(b.impls, b.by_def[d], d) by {
                if b.by_def[d] == id && exists|j: int|
                    0 <= j < view.items.len() && (#[trigger] view.items[j]).spec_def_id().0 == d {
                    let j = choose|j: int| 0 <= j < view.items.len() && (#[trigger] view.items[j]).spec_def_id().0 == d;
                    assert(b.impls[id.0 as int].items[j].spec_def_id().0 == d);
                } else {
                    assert(holds_def(a.impls, a.by_def[d], d));
                    let k = a.by_def[d];
                    let j = choose|j: int|
                        0 <= j < a.impls[k.0 as int].items.len() && (#[trigger] a.impls[k.0 as int].items[j]).spec_def_id().0
                            == d;
                    assert(b.impls[k.0 as int].items[j].spec_def_id().0 == d);
                }
            }
            assert forall|k: int, j: int|
                0 <= k < b.impls.len() && 0 <= j < b.impls[k].items.len() implies b.by_def.contains_key(
                (#[trigger] b.impls[k].items[j]).spec_def_id().0,
            ) by {
                if k < a.impls.len() {
                    assert(a.by_def.contains_key(a.impls[k].items[j].spec_def_id().0));
                }
            }
        }
        id
    }

    /// Collects the impl blocks among the children of `node`, the source
    /// of the module, in the order of the source.
    pub fn collect(
        &mut self,
        db: &mut LocationInterner<DefLoc>,
        file_items: &SourceFileItems,
        module: &Module,
        node: SyntaxNodeRef,
    )
        requires
            old(self).wf(),
            old(db).wf(),
            file_items.wf(),
            node.wf(),
            node.tree() == file_items.tree(),
            module.def_id.0 < old(db)@.len(),
        ensures
            final(self).wf(),
            final(db).wf(),
            old(db)@.len() <= final(db)@.len(),
            (final(db)@, final(self)@) == collect_impls(
                node.tree()@,
                file_items.items(),
                old(db)@[module.def_id.0 as int],
                kids::<ast::ImplBlock>(node.tree()@, node.index()),
                old(db)@,
                old(self)@,
            ),
    {
        let ghost nodes = node.tree()@;
        let ghost module_loc = db@[module.def_id.0 as int];
        let ghost all = kids::<ast::ImplBlock>(nodes, node.index());
        let mut it: ast::AstChildren<ast::ImplBlock> = ast::AstChildren::new(node);
        loop
            invariant
                self.wf(),
                db.wf(),
                file_items.wf(),
                it.wf(),
                it.parent().tree() == file_items.tree(),
                it.parent().tree()@ == nodes,
                nodes == node.tree()@,
                all == kids::<ast::ImplBlock>(nodes, node.index()),
                module.def_id.0 < old(db)@.len(),
                old(db)@.len() <= db@.len(),
                db@[module.def_id.0 as int] == module_loc,
                module_loc == old(db)@[module.def_id.0 as int],
                collect_impls(nodes, file_items.items(), module_loc, it.rest(), db@, self@) == collect_impls(
                    nodes,
                    file_items.items(),
                    module_loc,
                    all,
                    old(db)@,
                    old(self)@,
                ),
            decreases it.rest().len(),
        {
            let ghost before_db = db@;
            match it.next() {
                Some(impl_block_ast) => {
                    let impl_block = ImplData::from_ast(db, file_items, module, impl_block_ast);
                    proof {
                        lemma_intern_keeps(nodes, file_items.items(), module_loc, impl_block_ast.node().index(), before_db, module.def_id.0 as int);
                    }
                    let _ = self.add_impl(impl_block);
                },
                None => {
                    return ;
                },
            }
        }
    }
}

/// The impl blocks and the index after the blocks at the nodes `ks` were
/// collected, and the locations that have a number afterwards.
pub open spec fn collect_impls(
    nodes: Seq<NodeView>,
    file_items: Seq<int>,
    module_loc: DefLoc,
    ks: Seq<int>,
    db: Seq<DefLoc>,
    st: ModuleImplBlocksView,
) -> (Seq<DefLoc>, ModuleImplBlocksView)
    decreases ks.len(),
{
    if ks.len() == 0 {
        (db, st)
    } else {
        let (db2, data) = impl_data_of(nodes, file_items, module_loc, ks[0], db);
        let id = ImplId(st.impls.len() as usize);
        collect_impls(
            nodes,
            file_items,
            module_loc,
            ks.drop_first(),
            db2,
            ModuleImplBlocksView { impls: st.impls.push(data), by_def: index_with(st.by_def, data.items, id) },
        )
    }
}

/// Interning keeps the numbers that locations have.
pub proof fn lemma_intern_items_keep(
    nodes: Seq<NodeView>,
    file_items: Seq<int>,
    module_loc: DefLoc,
    ks: Seq<int>,
    db: Seq<DefLoc>,
    acc: Seq<ImplItem>,
    k: int,
)
    requires
        0 <= k < db.len(),
    ensures
        k < impl_items_of(nodes, file_items, module_loc, ks, db, acc).0.len(),
        impl_items_of(nodes, file_items, module_loc, ks, db, acc).0[k] == db[k],
    decreases ks.len(),
{
    if ks.len() > 0 {
        let n = ks[0];
        let item_id = SourceFileItemId(file_items.index_of(n) as usize);
        let (db2, id) = spec_intern(db, impl_item_loc(nodes, item_id, module_loc, n));
        lemma_intern_items_keep(
            nodes,
            file_items,
            module_loc,
            ks.drop_first(),
            db2,
            acc.push(impl_item_of(nodes, n, DefId(id as usize))),
            k,
        );
    }
}

/// Lowering an impl block keeps the numbers that locations have.
pub proof fn lemma_intern_keeps(
    nodes: Seq<NodeView>,
    file_items: Seq<int>,
    module_loc: DefLoc,
    i: int,
    db: Seq<DefLoc>,
    k: int,
)
    requires
        0 <= k < db.len(),
    ensures
        k < impl_data_of(nodes, file_items, module_loc, i, db).0.len(),
        impl_data_of(nodes, file_items, module_loc, i, db).0[k] == db[k],
{
    match kid::<ast::ItemList>(nodes, i, 0) {
        Some(l) => {
            lemma_intern_items_keep(
                nodes,
                file_items,
                module_loc,
                kids::<ast::ImplItem>(nodes, l),
                db,
                Seq::empty(),
                k,
            );
        },
        None => {},
    }
}

#[derive(Debug, PartialEq, Eq)]
pub struct ImplBlock {
    module_impl_blocks: Arc<ModuleImplBlocks>,
    impl_id: ImplId,
}

impl ImplBlock {
    /// The impl blocks of the module.
    pub closed spec fn blocks(&self) -> ModuleImplBlocks {
        *self.module_impl_blocks
    }

    /// The id of the block.
    pub closed spec fn id(&self) -> ImplId {
        self.impl_id
    }

    /// The id is that of a block of the module.
    pub open spec fn wf(&self) -> bool {
        self.id().0 < self.blocks()@.impls.len()
    }

    /// What the block holds.
    pub open spec fn data(&self) -> ImplDataView {
        self.blocks()@.impls[self.id().0 as int]
    }

    /// The impl block that holds the member whose definition has the id
    /// `def_id`, if one of the module's blocks holds it.
    pub fn containing(module_impl_blocks: Arc<ModuleImplBlocks>, def_id: DefId) -> (r: Option<ImplBlock>)
        requires
            module_impl_blocks.wf(),
        ensures
            r.is_some() == module_impl_blocks@.by_def.contains_key(def_id.0),
            r matches Some(b) ==> {
                &&& b.wf()
                &&& b.blocks() == *module_impl_blocks
                &&& b.id() == module_impl_blocks@.by_def[def_id.0]
                &&& holds_def(module_impl_blocks@.impls, b.id(), def_id.0)
            },
    {
        broadcast use vstd::std_specs::hash::group_hash_axioms;
        let impl_id = match fx_map_get(&module_impl_blocks.impls_by_def, &def_id.0) {
            Some(id) => *id,
            None => {
                return None;
            },
        };
        proof {
            assert(module_impl_blocks@.by_def.contains_key(def_id.0));
            assert(holds_def(module_impl_blocks@.impls, impl_id, def_id.0));
        }
        Some(ImplBlock { module_impl_blocks, impl_id })
    }

    fn impl_data(&self) -> (r: &ImplData)
        requires
            self.wf(),
        ensures
            r@ == self.data(),
    {
        &self.module_impl_blocks.impls[self.impl_id.0]
    }

    pub fn target_trait(&self) -> (r: Option<&TypeRef>)
        requires
            self.wf(),
        ensures
            r.is_some() == self.data().target_trait.is_some(),
            r matches Some(t) ==> Some(t@) == self.data().target_trait,
    {
        self.impl_data().target_trait()
    }

    pub fn target_type(&self) -> (r: &TypeRef)
        requires
            self.wf(),
        ensures
            r@ == self.data().target_type,
    {
        self.impl_data().target_type()
    }

    pub fn items(&self) -> (r: &[ImplItem])
        requires
            self.wf(),
        ensures
            r@ == self.data().items,
    {
        self.impl_data().items()
    }
}

/// The impl blocks of a module whose source is `source`. A cancelled
/// computation of the source is passed on, and nothing is collected.
pub fn impls_in_module(
    db: &mut LocationInterner<DefLoc>,
    file_items: &SourceFileItems,
    module: &Module,
    source: Cancelable<SyntaxNodeRef>,
) -> (r: Cancelable<Arc<ModuleImplBlocks>>)
    requires
        old(db).wf(),
        file_items.wf(),
        module.def_id.0 < old(db)@.len(),
        source matches Ok(node) ==> node.wf() && node.tree() == file_items.tree(),
    ensures
        final(db).wf(),
        match source {
            Ok(node) => r matches Ok(blocks) && blocks.wf() && (final(db)@, blocks@) == collect_impls(
                node.tree()@,
                file_items.items(),
                old(db)@[module.def_id.0 as int],
                kids::<ast::ImplBlock>(node.tree()@, node.index()),
                old(db)@,
                ModuleImplBlocksView { impls: Seq::empty(), by_def: Map::empty() },
            ),
            Err(_) => r.is_err() && final(db)@ == old(db)@,
        },
{
    let node = match source {
        Ok(node) => node,
        Err(e) => {
            return Err(e);
        },
    };
    let mut result = ModuleImplBlocks::new();
    proof {
        assert(result@.impls =~= Seq::empty());
        assert(result@.by_def =~= Map::empty());
    }
    result.collect(db, file_items, module, node);
    Ok(Arc::new(result))
}

} // verus!
