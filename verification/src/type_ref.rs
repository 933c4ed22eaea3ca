//! The syntax of types, apart from where it stands in a file.

use vstd::prelude::*;
use crate::ast;
use crate::ast::{AstNode, kids, lemma_kids_from, lemma_nth_kid, nth_kid};
use crate::path::{Path, PathView, lower_path};
use crate::syntax::{NodeView, has_child_of_kind, node_wf};
use crate::syntax_kind::SyntaxKind;

verus! {

#[derive(Debug, Clone, Copy, PartialEq, Eq, Structural, Hash)]
pub enum Mutability {
    Shared,
    Mut,
}

impl Mutability {
    pub open spec fn spec_from_mutable(mutable: bool) -> Mutability {
        if mutable {
            Mutability::Mut
        } else {
            Mutability::Shared
        }
    }

    #[verifier::when_used_as_spec(spec_from_mutable)]
    pub fn from_mutable(mutable: bool) -> (r: Mutability)
        ensures
            r == Mutability::spec_from_mutable(mutable),
    {
        if mutable {
            Mutability::Mut
        } else {
            Mutability::Shared
        }
    }
}

/// The syntax of a type, apart from where in a file it stood.
#[derive(Debug, PartialEq, Eq)]
pub enum TypeRef {
    Never,
    Placeholder,
    Tuple(Vec<TypeRef>),
    Path(Path),
    RawPtr(Box<TypeRef>, Mutability),
    Reference(Box<TypeRef>, Mutability),
    Array(Box<TypeRef>),
    Slice(Box<TypeRef>),
    /// A function pointer. The last element is the return type.
    Fn(Vec<TypeRef>),
    Error,
}

/// A type reference as a mathematical value.
pub enum TypeRefView {
    Never,
    Placeholder,
    Tuple(Seq<TypeRefView>),
    Path(PathView),
    RawPtr(Box<TypeRefView>, Mutability),
    Reference(Box<TypeRefView>, Mutability),
    Array(Box<TypeRefView>),
    Slice(Box<TypeRefView>),
    Fn(Seq<TypeRefView>),
    Error,
}

impl View for TypeRef {
    type V = TypeRefView;

    open spec fn view(&self) -> TypeRefView
        decreases self,
    {
        match self {
            TypeRef::Never => TypeRefView::Never,
            TypeRef::Placeholder => TypeRefView::Placeholder,
            TypeRef::Tuple(v) => TypeRefView::Tuple(
                Seq::new(
                    v@.len(),
                    |k: int|
                        if 0 <= k < v@.len() {
                            v@[k]@
                        } else {
                            TypeRefView::Error
                        },
                ),
            ),
            TypeRef::Path(p) => TypeRefView::Path(p@),
            TypeRef::RawPtr(t, m) => TypeRefView::RawPtr(Box::new((**t)@), *m),
            TypeRef::Reference(t, m) => TypeRefView::Reference(Box::new((**t)@), *m),
            TypeRef::Array(t) => TypeRefView::Array(Box::new((**t)@)),
            TypeRef::Slice(t) => TypeRefView::Slice(Box::new((**t)@)),
            TypeRef::Fn(v) => TypeRefView::Fn(
                Seq::new(
                    v@.len(),
                    |k: int|
                        if 0 <= k < v@.len() {
                            v@[k]@
                        } else {
                            TypeRefView::Error
                        },
                ),
            ),
            TypeRef::Error => TypeRefView::Error,
        }
    }
}

/// The type that the type syntax at node `i` stands for.
pub open spec fn lower_type(nodes: Seq<NodeView>, i: int) -> TypeRefView
    decreases nodes.len() - i, 2int,
{
    match nodes[i].kind {
        SyntaxKind::PAREN_TYPE | SyntaxKind::FOR_TYPE => lower_type_opt(
            nodes,
            i,
            nth_kid::<ast::TypeRef>(nodes, i, 0),
        ),
        SyntaxKind::TUPLE_TYPE => TypeRefView::Tuple(lower_types(nodes, i, kids::<ast::TypeRef>(nodes, i))),
        SyntaxKind::NEVER_TYPE => TypeRefView::Never,
        SyntaxKind::PATH_TYPE => match nth_kid::<ast::Path>(nodes, i, 0) {
            Some(p) => match lower_path(nodes, p) {
                Some(path) => TypeRefView::Path(path),
                None => TypeRefView::Error,
            },
            None => TypeRefView::Error,
        },
        SyntaxKind::POINTER_TYPE => TypeRefView::RawPtr(
            Box::new(lower_type_opt(nodes, i, nth_kid::<ast::TypeRef>(nodes, i, 0))),
            Mutability::spec_from_mutable(has_child_of_kind(nodes, i, SyntaxKind::MUT_KW)),
        ),
        SyntaxKind::ARRAY_TYPE => TypeRefView::Array(
            Box::new(lower_type_opt(nodes, i, nth_kid::<ast::TypeRef>(nodes, i, 0))),
        ),
        SyntaxKind::SLICE_TYPE => TypeRefView::Slice(
            Box::new(lower_type_opt(nodes, i, nth_kid::<ast::TypeRef>(nodes, i, 0))),
        ),
        SyntaxKind::REFERENCE_TYPE => TypeRefView::Reference(
            Box::new(lower_type_opt(nodes, i, nth_kid::<ast::TypeRef>(nodes, i, 0))),
            Mutability::spec_from_mutable(has_child_of_kind(nodes, i, SyntaxKind::MUT_KW)),
        ),
        SyntaxKind::PLACEHOLDER_TYPE => TypeRefView::Placeholder,
        SyntaxKind::FN_POINTER_TYPE => TypeRefView::Fn(
            lower_param_types(nodes, i).push(lower_ret_type(nodes, i)),
        ),
        _ => TypeRefView::Error,
    }
}

/// The type that the syntax at node `t` below node `parent` stands for;
/// the error type where there is no such syntax.
pub open spec fn lower_type_opt(nodes: Seq<NodeView>, parent: int, t: Option<int>) -> TypeRefView
    decreases nodes.len() - parent, 0int,
{
    match t {
        Some(c) => if 0 <= parent < c < nodes.len() {
            lower_type(nodes, c)
        } else {
            TypeRefView::Error
        },
        None => TypeRefView::Error,
    }
}

/// The types that the nodes `ts` below node `parent` stand for.
pub open spec fn lower_types(nodes: Seq<NodeView>, parent: int, ts: Seq<int>) -> Seq<TypeRefView>
    decreases nodes.len() - parent, 0int,
{
    Seq::new(
        ts.len(),
        |k: int|
            if 0 <= k < ts.len() && 0 <= parent < ts[k] < nodes.len() {
                lower_type(nodes, ts[k])
            } else {
                TypeRefView::Error
            },
    )
}

/// The type that a parameter or a return type at node `holder` holds.
pub open spec fn held_type(nodes: Seq<NodeView>, parent: int, holder: int) -> TypeRefView
    decreases nodes.len() - parent, 0int,
{
    if 0 <= parent < holder < nodes.len() {
        lower_type_opt(nodes, holder, nth_kid::<ast::TypeRef>(nodes, holder, 0))
    } else {
        TypeRefView::Error
    }
}

/// The return type of the function pointer type at node `i`.
pub open spec fn lower_ret_type(nodes: Seq<NodeView>, i: int) -> TypeRefView
    decreases nodes.len() - i, 1int,
{
    match nth_kid::<ast::RetType>(nodes, i, 0) {
        Some(rt) => held_type(nodes, i, rt),
        None => TypeRefView::Error,
    }
}

/// The parameter types of the function pointer type at node `i`.
pub open spec fn lower_param_types(nodes: Seq<NodeView>, i: int) -> Seq<TypeRefView>
    decreases nodes.len() - i, 1int,
{
    match nth_kid::<ast::ParamList>(nodes, i, 0) {
        Some(pl) => if 0 <= i < pl < nodes.len() {
            let params = kids::<ast::Param>(nodes, pl);
            Seq::new(
                params.len(),
                |k: int|
                    if 0 <= k < params.len() {
                        held_type(nodes, pl, params[k])
                    } else {
                        TypeRefView::Error
                    },
            )
        } else {
            Seq::empty()
        },
        None => Seq::empty(),
    }
}

/// The view of a vector of types is the sequence of the views.
pub open spec fn views(v: Seq<TypeRef>) -> Seq<TypeRefView> {
    Seq::new(
        v.len(),
        |k: int|
            if 0 <= k < v.len() {
                v[k]@
            } else {
                TypeRefView::Error
            },
    )
}

/// The view of a tuple type is the tuple of the views of its fields.
pub proof fn lemma_view_tuple(v: Vec<TypeRef>)
    ensures
        TypeRef::Tuple(v)@ == TypeRefView::Tuple(views(v@)),
{
    assert(TypeRef::Tuple(v)@->Tuple_0 =~= views(v@));
}

/// The view of a function pointer type holds the views of its types.
pub proof fn lemma_view_fn(v: Vec<TypeRef>)
    ensures
        TypeRef::Fn(v)@ == TypeRefView::Fn(views(v@)),
{
    assert(TypeRef::Fn(v)@->Fn_0 =~= views(v@));
}

impl TypeRef {
    /// Converts an `ast::TypeRef` to a `TypeRef`.
    pub fn from_ast(node: ast::TypeRef) -> (r: TypeRef)
        requires
            node.wf(),
        ensures
            r@ == lower_type(node.node().tree()@, node.node().index()),
        decreases node.node().tree()@.len() - node.node().index(), 3int,
    {
        let ghost nodes = node.node().tree()@;
        let ghost i = node.node().index();
        proof {
            node.lemma_wf();
            assert(node_wf(nodes, i));
            lemma_nth_kid::<ast::TypeRef>(nodes, i, 0);
        }
        match node {
            ast::TypeRef::ParenType(inner) => TypeRef::from_ast_opt(inner.type_ref()),
            ast::TypeRef::TupleType(inner) => {
                let fields = TypeRef::tuple_fields(inner);
                proof {
                    lemma_view_tuple(fields);
                }
                TypeRef::Tuple(fields)
            },
            ast::TypeRef::NeverType(_) => TypeRef::Never,
            ast::TypeRef::PathType(inner) => match inner.path() {
                Some(p) => match Path::from_ast(p) {
                    Some(path) => TypeRef::Path(path),
                    None => TypeRef::Error,
                },
                None => TypeRef::Error,
            },
            ast::TypeRef::PointerType(inner) => {
                let inner_ty = TypeRef::from_ast_opt(inner.type_ref());
                let mutability = Mutability::from_mutable(inner.is_mut());
                TypeRef::RawPtr(Box::new(inner_ty), mutability)
            },
            ast::TypeRef::ArrayType(inner) => TypeRef::Array(Box::new(TypeRef::from_ast_opt(inner.type_ref()))),
            ast::TypeRef::SliceType(inner) => TypeRef::Slice(Box::new(TypeRef::from_ast_opt(inner.type_ref()))),
            ast::TypeRef::ReferenceType(inner) => {
                let inner_ty = TypeRef::from_ast_opt(inner.type_ref());
                let mutability = Mutability::from_mutable(inner.is_mut());
                TypeRef::Reference(Box::new(inner_ty), mutability)
            },
            ast::TypeRef::PlaceholderType(_) => TypeRef::Placeholder,
            ast::TypeRef::FnPointerType(inner) => {
                let ret_ty = TypeRef::ret_type(inner);
                let mut params = TypeRef::param_types(inner);
                let ghost before = views(params@);
                params.push(ret_ty);
                proof {
                    assert(views(params@) =~= before.push(ret_ty@));
                    lemma_view_fn(params);
                }
                TypeRef::Fn(params)
            },
            // for types are close enough for our purposes to the inner type for now
            ast::TypeRef::ForType(inner) => TypeRef::from_ast_opt(inner.type_ref()),
            ast::TypeRef::ImplTraitType(_) => TypeRef::Error,
            ast::TypeRef::DynTraitType(_) => TypeRef::Error,
        }
    }

    fn tuple_fields(inner: ast::TupleType) -> (out: Vec<TypeRef>)
        requires
            inner.wf(),
        ensures
            views(out@) == lower_types(
                inner.node().tree()@,
                inner.node().index(),
                kids::<ast::TypeRef>(inner.node().tree()@, inner.node().index()),
            ),
        decreases inner.node().tree()@.len() - inner.node().index(), 2int,
    {
        let ghost nodes = inner.node().tree()@;
        let ghost i = inner.node().index();
        let ghost all = kids::<ast::TypeRef>(nodes, i);
        proof {
            inner.lemma_wf();
            assert(node_wf(nodes, i));
            lemma_kids_from::<ast::TypeRef>(nodes, i, 0);
        }
        let mut it = inner.fields();
        let mut out: Vec<TypeRef> = Vec::new();
        loop
            invariant
                inner.wf(),
                it.wf(),
                it.parent() == inner.node(),
                nodes == inner.node().tree()@,
                i == inner.node().index(),
                all == kids::<ast::TypeRef>(nodes, i),
                forall|k: int| 0 <= k < all.len() ==> i < #[trigger] all[k] < nodes.len(),
                out@.len() <= all.len(),
                it.rest() =~= all.skip(out@.len() as int),
                forall|k: int| 0 <= k < out@.len() ==> (#[trigger] out@[k])@ == lower_type(nodes, all[k]),
            decreases it.rest().len(),
        {
            let ghost before = it.rest();
            match it.next() {
                Some(t) => {
                    proof {
                        assert(before[0] == all[out@.len() as int]);
                        assert(before.drop_first() =~= all.skip(out@.len() as int + 1));
                    }
                    let ty = TypeRef::from_ast(t);
                    out.push(ty);
                },
                None => {
                    proof {
                        assert(before.len() == 0);
                        assert(views(out@) =~= lower_types(nodes, i, all));
                    }
                    return out;
                },
            }
        }
    }

    fn ret_type(inner: ast::FnPointerType) -> (r: TypeRef)
        requires
            inner.wf(),
        ensures
            r@ == lower_ret_type(inner.node().tree()@, inner.node().index()),
        decreases inner.node().tree()@.len() - inner.node().index(), 2int,
    {
        let ghost nodes = inner.node().tree()@;
        let ghost i = inner.node().index();
        proof {
            inner.lemma_wf();
            assert(node_wf(nodes, i));
            lemma_nth_kid::<ast::RetType>(nodes, i, 0);
        }
        match inner.ret_type() {
            Some(rt) => {
                proof {
                    rt.lemma_wf();
                    assert(node_wf(nodes, rt.node().index()));
                    lemma_nth_kid::<ast::TypeRef>(nodes, rt.node().index(), 0);
                }
                TypeRef::from_ast_opt(rt.type_ref())
            },
            None => TypeRef::Error,
        }
    }

    fn param_types(inner: ast::FnPointerType) -> (params: Vec<TypeRef>)
        requires
            inner.wf(),
        ensures
            views(params@) == lower_param_types(inner.node().tree()@, inner.node().index()),
        decreases inner.node().tree()@.len() - inner.node().index(), 2int,
    {
        let ghost nodes = inner.node().tree()@;
        let ghost i = inner.node().index();
        proof {
            inner.lemma_wf();
            assert(node_wf(nodes, i));
            lemma_nth_kid::<ast::ParamList>(nodes, i, 0);
        }
        let mut params: Vec<TypeRef> = Vec::new();
        let pl = match inner.param_list() {
            Some(pl) => pl,
            None => {
                proof {
                    assert(views(params@) =~= lower_param_types(nodes, i));
                }
                return params;
            },
        };
        let ghost pli = pl.node().index();
        let ghost all = kids::<ast::Param>(nodes, pli);
        proof {
            pl.lemma_wf();
            assert(node_wf(nodes, pli));
            lemma_kids_from::<ast::Param>(nodes, pli, 0);
        }
        let mut it = pl.params();
        loop
            invariant
                pl.wf(),
                it.wf(),
                it.parent() == pl.node(),
                nodes == pl.node().tree()@,
                nodes == inner.node().tree()@,
                i == inner.node().index(),
                nth_kid::<ast::ParamList>(nodes, i, 0) == Some(pli),
                pli == pl.node().index(),
                0 <= i < pli < nodes.len(),
                all == kids::<ast::Param>(nodes, pli),
                forall|k: int| 0 <= k < all.len() ==> pli < #[trigger] all[k] < nodes.len(),
                params@.len() <= all.len(),
                it.rest() =~= all.skip(params@.len() as int),
                forall|k: int|
                    0 <= k < params@.len() ==> (#[trigger] params@[k])@ == held_type(nodes, pli, all[k]),
            decreases it.rest().len(),
        {
            let ghost before = it.rest();
            match it.next() {
                Some(p) => {
                    proof {
                        p.lemma_wf();
                        assert(before[0] == all[params@.len() as int]);
                        assert(before.drop_first() =~= all.skip(params@.len() as int + 1));
                        assert(node_wf(nodes, p.node().index()));
                        lemma_nth_kid::<ast::TypeRef>(nodes, p.node().index(), 0);
                    }
                    let ty = TypeRef::from_ast_opt(p.type_ref());
                    params.push(ty);
                },
                None => {
                    proof {
                        assert(before.len() == 0);
                        assert(views(params@) =~= lower_param_types(nodes, i));
                    }
                    return params;
                },
            }
        }
    }

    /// Converts the type syntax, if there is any; the error type stands in
    /// for missing syntax.
    pub fn from_ast_opt(node: Option<ast::TypeRef>) -> (r: TypeRef)
        requires
            node matches Some(t) ==> t.wf(),
        ensures
            r@ == (match node {
                Some(t) => lower_type(t.node().tree()@, t.node().index()),
                None => TypeRefView::Error,
            }),
        decreases
                (match node {
                    Some(t) => t.node().tree()@.len() - t.node().index(),
                    None => 0,
                }),
                4int,
    {
        match node {
            Some(node) => TypeRef::from_ast(node),
            None => TypeRef::Error,
        }
    }

    pub fn unit() -> (r: TypeRef)
        ensures
            r@ == TypeRefView::Tuple(Seq::empty()),
    {
        let v: Vec<TypeRef> = Vec::new();
        proof {
            lemma_view_tuple(v);
            assert(views(v@) =~= Seq::empty());
        }
        TypeRef::Tuple(v)
    }
}

} // verus!
