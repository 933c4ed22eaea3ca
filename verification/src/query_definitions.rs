//! The queries of the core: each computes from plain values what the
//! engine remembers.

use vstd::prelude::*;
use std::sync::Arc;
use crate::ast;
use crate::ast::{AstNode, ModuleItemOwner, kids};
use crate::adt::{EnumData, EnumDataView, StructData, StructDataView, name_text, variant_data_of, variants_of};
use crate::ast::nth_kid;
use crate::body::{Body, BodySyntaxMapping};
use crate::ids::{DefId, DefKind, DefLoc, LocationInterner};
use crate::ids::{HirFileId, SourceFileItems, SourceItemId};
use crate::impl_block::{Cancelable, Function};
use crate::lower::collect_fn_body_syntax;
use crate::lower_spec::lower_fn;
use crate::nameres::{InputModuleItems, MacroExpansion, ModuleSource, items_with_expansions};
use crate::syntax::SyntaxNodeRef;
use crate::syntax_kind::SyntaxKind;

verus! {

/// What a definition is.
#[derive(Debug, Clone, Copy, PartialEq, Eq, Structural)]
pub enum Def {
    Module,
    Function(Function),
    Struct,
    Enum,
    EnumVariant,
    Item,
}

/// The body of the function `def` with the maps between its syntax and
/// its ids, from the syntax of the function. A cancelled resolution of the
/// definition is passed on. Only a function has a body.
pub fn body_syntax_mapping(def: Cancelable<Def>, node: ast::FnDef) -> (r: Cancelable<Arc<BodySyntaxMapping>>)
    requires
        node.wf(),
        def matches Ok(d) ==> d is Function,
    ensures
        r.is_ok() == def.is_ok(),
        r matches Ok(m) ==> m.wf() && (m.lowering(), m.spec_body()@.args, m.spec_body()@.body_expr) == lower_fn(
            node.node().tree()@,
            node.node().index(),
        ),
{
    let def = match def {
        Ok(d) => d,
        Err(e) => {
            return Err(e);
        },
    };
    // only a function has a body
    let body_syntax_mapping = match def {
        Def::Function(_) => collect_fn_body_syntax(node),
        _ => vstd::pervasive::unreached(),
    };
    Ok(Arc::new(body_syntax_mapping))
}

/// The body alone, from the body with its maps. A cancelled computation
/// is passed on.
pub fn body_hir(mapping: Cancelable<Arc<BodySyntaxMapping>>) -> (r: Cancelable<Arc<Body>>)
    ensures
        r.is_ok() == mapping.is_ok(),
        r matches Ok(b) ==> *b == mapping.unwrap().spec_body(),
{
    match mapping {
        Ok(m) => Ok(Arc::clone(m.body())),
        Err(e) => Err(e),
    }
}

/// The layout of the struct whose definition has the id `def_id`, from
/// the items of its file.
pub fn struct_data(db: &LocationInterner<DefLoc>, file_items: &SourceFileItems, def_id: DefId) -> (r: Cancelable<
    Arc<StructData>,
>)
    requires
        file_items.wf(),
        def_id.0 < db@.len(),
        db@[def_id.0 as int].kind == DefKind::Struct,
        db@[def_id.0 as int].source_item_id.item_id matches Some(id) && id.0 < file_items.items().len()
            && file_items.tree()@[file_items.items()[id.0 as int]].kind == SyntaxKind::STRUCT_DEF,
    ensures
        r matches Ok(data) && data@ == ({
            let nodes = file_items.tree()@;
            let n = file_items.items()[db@[def_id.0 as int].source_item_id.item_id.unwrap().0 as int];
            StructDataView {
                name: name_text(nodes, nth_kid::<ast::Name>(nodes, n, 0)),
                variant_data: variant_data_of(nodes, n),
            }
        }),
{
    let def_loc = db.id2loc(def_id.0);
    let syntax = file_items.get(def_loc.source_item_id.item_id.unwrap());
    let struct_def = ast::StructDef::cast(syntax).unwrap();
    Ok(Arc::new(StructData::new(struct_def)))
}

/// The layout of the enum whose definition has the id `def_id`, from the
/// items of its file.
pub fn enum_data(db: &LocationInterner<DefLoc>, file_items: &SourceFileItems, def_id: DefId) -> (r: Cancelable<
    Arc<EnumData>,
>)
    requires
        file_items.wf(),
        def_id.0 < db@.len(),
        db@[def_id.0 as int].kind == DefKind::Enum,
        db@[def_id.0 as int].source_item_id.item_id matches Some(id) && id.0 < file_items.items().len()
            && file_items.tree()@[file_items.items()[id.0 as int]].kind == SyntaxKind::ENUM_DEF,
    ensures
        r matches Ok(data) && data@ == ({
            let nodes = file_items.tree()@;
            let n = file_items.items()[db@[def_id.0 as int].source_item_id.item_id.unwrap().0 as int];
            EnumDataView {
                name: name_text(nodes, nth_kid::<ast::Name>(nodes, n, 0)),
                variants: match nth_kid::<ast::EnumVariantList>(nodes, n, 0) {
                    Some(l) => variants_of(nodes, kids::<ast::EnumVariant>(nodes, l), Seq::empty()),
                    None => Seq::empty(),
                },
            }
        }),
{
    let def_loc = db.id2loc(def_id.0);
    let syntax = file_items.get(def_loc.source_item_id.item_id.unwrap());
    let enum_def = ast::EnumDef::cast(syntax).unwrap();
    Ok(Arc::new(EnumData::new(enum_def)))
}

/// The items of a file, each under its id.
pub fn file_items<'a>(file_id: HirFileId, source_file: ast::SourceFile<'a>) -> (r: Arc<SourceFileItems<'a>>)
    requires
        source_file.wf(),
    ensures
        r.wf(),
        r.spec_file_id() == file_id,
        r.tree() == source_file.node().tree(),
{
    let res = SourceFileItems::new(file_id, source_file);
    Arc::new(res)
}

/// The syntax at an address: the item with the id, or the whole file
/// where the address has none.
pub fn file_item<'a>(
    file_items: &SourceFileItems<'a>,
    source_file: ast::SourceFile<'a>,
    source_item_id: SourceItemId,
) -> (r: SyntaxNodeRef<'a>)
    requires
        file_items.wf(),
        source_file.wf(),
        source_file.node().tree() == file_items.tree(),
        source_item_id.item_id matches Some(id) ==> id.0 < file_items.items().len(),
    ensures
        r.wf(),
        r.tree() == file_items.tree(),
        r.index() == (match source_item_id.item_id {
            Some(id) => file_items.items()[id.0 as int],
            None => source_file.node().index(),
        }),
{
    match source_item_id.item_id {
        Some(id) => file_items.get(id),
        None => source_file.syntax(),
    }
}

/// The items of a module as name resolution takes them in: the input
/// item of each item, and for each macro call the input items of its
/// expansion, in the order of the source. The expansions come in the
/// order of the macro calls. What a macro call in an expansion would
/// expand to is left out: there is one level of expansion.
pub fn input_module_items(
    file_id: HirFileId,
    file_items: &SourceFileItems,
    source: ModuleSource,
    expansions: &Vec<MacroExpansion>,
) -> (r: Cancelable<Arc<InputModuleItems>>)
    requires
        file_items.wf(),
        source.wf(),
        source.tree() == file_items.tree(),
        forall|k: int| 0 <= k < expansions@.len() ==> (#[trigger] expansions@[k]).wf(),
    ensures
        r matches Ok(items) && items@ == (match source.holder() {
            Some(h) => items_with_expansions(
                source.tree()@,
                file_id,
                file_items.items(),
                kids::<ast::ItemOrMacro>(source.tree()@, h),
                expansions@,
                0,
                Seq::empty(),
            ),
            None => Seq::empty(),
        }),
{
    let mut res = InputModuleItems::new();
    let children = match source.items_with_macros() {
        Some(it) => it,
        None => {
            assert(res@ =~= Seq::empty());
            return Ok(Arc::new(res));
        },
    };
    let ghost nodes = source.tree()@;
    let ghost all = children.rest();
    let mut it = children;
    let mut next: usize = 0;
    assert(res@ =~= Seq::empty());
    loop
        invariant
            file_items.wf(),
            it.wf(),
            it.parent().tree() == file_items.tree(),
            nodes == source.tree()@,
            it.parent().tree()@ == nodes,
            source.holder() matches Some(h) && all == kids::<ast::ItemOrMacro>(nodes, h),
            forall|k: int| 0 <= k < expansions@.len() ==> (#[trigger] expansions@[k]).wf(),
            next <= expansions@.len(),
            items_with_expansions(
                nodes,
                file_id,
                file_items.items(),
                it.rest(),
                expansions@,
                next as int,
                res@,
            ) == items_with_expansions(nodes, file_id, file_items.items(), all, expansions@, 0, Seq::empty()),
        decreases it.rest().len(),
    {
        match it.next() {
            Some(item) => {
                proof {
                    item.lemma_wf();
                }
                match item {
                    ast::ItemOrMacro::Item(it) => {
                        proof {
                            it.lemma_wf();
                        }
                        res.add_item(file_id, file_items, it);
                    },
                    ast::ItemOrMacro::Macro(_) => {
                        if next < expansions.len() {
                            let expansion = &expansions[next];
                            res.add_items(expansion.file_id, expansion.file_items, expansion.source_file.items());
                            next += 1;
                        }
                    },
                }
            },
            None => {
                return Ok(Arc::new(res));
            },
        }
    }
}

} // verus!
