//! Paths of names.

use vstd::prelude::*;
use crate::ast;
use crate::ast::{AstNode, PathSegmentKind, first_child_kind, first_token_text, nth_kid};
use crate::name::Name;
use crate::syntax::{NodeView, node_wf};
use crate::syntax_kind::SyntaxKind;

verus! {

#[derive(Debug, Clone, Copy, PartialEq, Eq, Structural, Hash)]
pub enum PathKind {
    Plain,
    Self_,
    Super,
    Crate,
}

/// A path of names, with the keyword that it may begin with.
#[derive(Debug, Clone, PartialEq, Eq, Hash)]
pub struct Path {
    pub kind: PathKind,
    pub segments: Vec<Name>,
}

/// A path as a mathematical value.
pub struct PathView {
    pub kind: PathKind,
    pub segments: Seq<Seq<char>>,
}

impl View for Path {
    type V = PathView;

    open spec fn view(&self) -> PathView {
        PathView { kind: self.kind, segments: self.segments@.map_values(|n: Name| n@) }
    }
}

/// What the path segment at node `seg` is: a name, which comes with its
/// text, or a keyword, which comes with the kind of path that it begins.
pub open spec fn segment_of(nodes: Seq<NodeView>, seg: int) -> Option<(PathKind, Option<Seq<char>>)> {
    match nth_kid::<ast::NameRef>(nodes, seg, 0) {
        Some(n) => Some((PathKind::Plain, Some(first_token_text(nodes, n)))),
        None => match first_child_kind(nodes, seg) {
            Some(SyntaxKind::SELF_KW) => Some((PathKind::Self_, None)),
            Some(SyntaxKind::SUPER_KW) => Some((PathKind::Super, None)),
            Some(SyntaxKind::CRATE_KW) => Some((PathKind::Crate, None)),
            _ => None,
        },
    }
}

/// The path that the path syntax at node `i` stands for: the names of
/// its qualifier and then its own. A path that ends in a keyword is that
/// keyword alone. There is none where a segment is missing or is neither
/// a name nor one of the keywords.
pub open spec fn lower_path(nodes: Seq<NodeView>, i: int) -> Option<PathView>
    decreases nodes.len() - i,
{
    match nth_kid::<ast::PathSegment>(nodes, i, 0) {
        None => None,
        Some(seg) => match segment_of(nodes, seg) {
            None => None,
            Some((kind, None)) => Some(PathView { kind, segments: Seq::empty() }),
            Some((_, Some(text))) => match nth_kid::<ast::Path>(nodes, i, 0) {
                Some(q) => if 0 <= i < q < nodes.len() {
                    match lower_path(nodes, q) {
                        Some(p) => Some(PathView { kind: p.kind, segments: p.segments.push(text) }),
                        None => None,
                    }
                } else {
                    None
                },
                None => Some(PathView { kind: PathKind::Plain, segments: seq![text] }),
            },
        },
    }
}

impl Path {
    /// Converts an `ast::Path` to `Path`.
    pub fn from_ast(path: ast::Path) -> (r: Option<Path>)
        requires
            path.wf(),
        ensures
            r.is_some() == lower_path(path.node().tree()@, path.node().index()).is_some(),
            r matches Some(p) ==> Some(p@) == lower_path(path.node().tree()@, path.node().index()),
        decreases path.node().tree()@.len() - path.node().index(),
    {
        let ghost nodes = path.node().tree()@;
        let segment = match path.segment() {
            Some(s) => s,
            None => {
                return None;
            },
        };
        let kind = match segment.kind() {
            Some(k) => k,
            None => {
                return None;
            },
        };
        match kind {
            PathSegmentKind::Name(name_ref) => {
                let name = Name::from_name_ref(name_ref);
                match path.qualifier() {
                    Some(q) => {
                        proof {
                            path.lemma_wf();
                            q.lemma_wf();
                            assert(node_wf(nodes, q.node().index()));
                            crate::ast::lemma_kids_from::<ast::Path>(nodes, path.node().index(), 0);
                        }
                        match Path::from_ast(q) {
                            Some(mut p) => {
                                let ghost before = p@;
                                p.segments.push(name);
                                assert(p@.segments =~= before.segments.push(name@));
                                Some(p)
                            },
                            None => None,
                        }
                    },
                    None => {
                        let mut segments: Vec<Name> = Vec::new();
                        segments.push(name);
                        let p = Path { kind: PathKind::Plain, segments };
                        assert(p@.segments =~= seq![name@]);
                        Some(p)
                    },
                }
            },
            PathSegmentKind::CrateKw => Some(Path::keyword(PathKind::Crate)),
            PathSegmentKind::SelfKw => Some(Path::keyword(PathKind::Self_)),
            PathSegmentKind::SuperKw => Some(Path::keyword(PathKind::Super)),
        }
    }

    fn keyword(kind: PathKind) -> (r: Path)
        ensures
            r@ == (PathView { kind, segments: Seq::empty() }),
    {
        let p = Path { kind, segments: Vec::new() };
        assert(p@.segments =~= Seq::empty());
        p
    }

    /// Converts an `ast::NameRef` into a single-identifier `Path`.
    pub fn from_name_ref(name_ref: ast::NameRef) -> (r: Path)
        requires
            name_ref.wf(),
        ensures
            r@ == (PathView {
                kind: PathKind::Plain,
                segments: seq![first_token_text(name_ref.node().tree()@, name_ref.node().index())],
            }),
    {
        let name = Name::from_name_ref(name_ref);
        let mut segments: Vec<Name> = Vec::new();
        segments.push(name);
        let p = Path { kind: PathKind::Plain, segments };
        assert(p@.segments =~= seq![name@]);
        p
    }

    /// `true` if this path is a single identifier, like `foo`.
    pub fn is_ident(&self) -> (r: bool)
        ensures
            r == (self@.kind == PathKind::Plain && self@.segments.len() == 1),
    {
        self.kind == PathKind::Plain && self.segments.len() == 1
    }
}

} // verus!
