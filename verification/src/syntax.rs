//! Syntax trees: what a tree holds, when it is well-formed, and nodes as
//! handles into a tree.

use vstd::prelude::*;
use vstd::utf8::encode_utf8;
use crate::syntax_kind::SyntaxKind;
use crate::text_range::TextRange;

verus! {

/// What a syntax tree holds for one node, as a mathematical value.
///
/// Nodes are numbered in the order in which they were opened, so a parent
/// always has a smaller number than its children, and the numbers of a
/// node's children grow from left to right.
pub struct NodeView {
    pub kind: SyntaxKind,
    pub range: TextRange,
    pub parent: Option<int>,
    pub children: Seq<int>,
    pub text: Option<Seq<char>>,
}

/// Every child of node `i` comes after it, names `i` as its parent and
/// covers a part of the range of `i`.
pub open spec fn children_linked(nodes: Seq<NodeView>, i: int) -> bool {
    forall|j: int|
        0 <= j < nodes[i].children.len() ==> {
            &&& i < #[trigger] nodes[i].children[j] < nodes.len()
            &&& nodes[nodes[i].children[j]].parent == Some(i)
            &&& nodes[nodes[i].children[j]].range.spec_is_subrange(&nodes[i].range)
        }
}

/// The children of node `i` stand in growing order, and one that stands
/// further left ends before the other begins.
pub open spec fn children_ordered(nodes: Seq<NodeView>, i: int) -> bool {
    forall|j: int, k: int|
        0 <= j < k < nodes[i].children.len() ==> {
            &&& (#[trigger] nodes[i].children[j]) < (#[trigger] nodes[i].children[k])
            &&& nodes[nodes[i].children[j]].range.end <= nodes[nodes[i].children[k]].range.start
        }
}

/// The nodes with text are those whose kind is a token's. A token has no
/// children, and its range is as long as its text in bytes.
pub open spec fn token_text(nodes: Seq<NodeView>, i: int) -> bool {
    &&& nodes[i].text.is_some() == nodes[i].kind.spec_is_token()
    &&& nodes[i].text matches Some(t) ==> {
        &&& nodes[i].children.len() == 0
        &&& encode_utf8(t).len() == nodes[i].range.end - nodes[i].range.start
    }
}

/// Node `i` is the root, or has a parent before it that lists it as a child.
pub open spec fn parent_linked(nodes: Seq<NodeView>, i: int) -> bool {
    &&& i > 0 ==> nodes[i].parent.is_some()
    &&& nodes[i].parent matches Some(p) ==> 0 <= p < i && nodes[p].children.contains(i)
}

/// All that a well-formed tree asks of its node `i`.
pub open spec fn node_wf(nodes: Seq<NodeView>, i: int) -> bool {
    &&& nodes[i].range.start <= nodes[i].range.end
    &&& parent_linked(nodes, i)
    &&& children_linked(nodes, i)
    &&& children_ordered(nodes, i)
    &&& token_text(nodes, i)
}

/// A well-formed tree: node 0 is the root, every other node hangs below an
/// earlier one, and the children of a node cover parts of its range, from
/// left to right and without overlap.
pub open spec fn tree_wf(nodes: Seq<NodeView>) -> bool {
    &&& nodes.len() > 0
    &&& forall|i: int| 0 <= i < nodes.len() ==> #[trigger] node_wf(nodes, i)
}

/// Node `a` is `d` or one of its ancestors.
pub open spec fn is_ancestor_or_self(nodes: Seq<NodeView>, a: int, d: int) -> bool
    decreases d,
{
    if a == d {
        true
    } else if 0 < d < nodes.len() && nodes[d].parent.is_some() && 0 <= nodes[d].parent.unwrap()
        < d {
        is_ancestor_or_self(nodes, a, nodes[d].parent.unwrap())
    } else {
        false
    }
}

/// One node as the tree stores it.
#[derive(Clone, Debug, PartialEq, Eq)]
pub struct NodeData {
    pub kind: SyntaxKind,
    pub range: TextRange,
    pub parent: Option<usize>,
    pub children: Vec<usize>,
    pub text: Option<String>,
}

impl View for NodeData {
    type V = NodeView;

    open spec fn view(&self) -> NodeView {
        NodeView {
            kind: self.kind,
            range: self.range,
            parent: match self.parent {
                Some(p) => Some(p as int),
                None => None,
            },
            children: self.children@.map_values(|c: usize| c as int),
            text: match self.text {
                Some(s) => Some(s@),
                None => None,
            },
        }
    }
}

/// An immutable syntax tree: tokens with their text, and composite nodes
/// over them, each with its kind and the range of text it covers.
#[derive(Clone, Debug, PartialEq, Eq)]
pub struct SyntaxTree {
    nodes: Vec<NodeData>,
}

impl View for SyntaxTree {
    type V = Seq<NodeView>;

    closed spec fn view(&self) -> Seq<NodeView> {
        self.nodes@.map_values(|n: NodeData| n@)
    }
}

impl SyntaxTree {
    /// Takes the nodes of a finished, well-formed tree.
    pub(crate) fn from_nodes(nodes: Vec<NodeData>) -> (r: SyntaxTree)
        requires
            tree_wf(nodes@.map_values(|n: NodeData| n@)),
        ensures
            r.wf(),
            r@ == nodes@.map_values(|n: NodeData| n@),
    {
        SyntaxTree { nodes }
    }

    /// The tree is well-formed.
    pub open spec fn wf(&self) -> bool {
        tree_wf(self@)
    }

    /// The number of nodes, tokens included.
    pub fn len(&self) -> (r: usize)
        ensures
            r == self@.len(),
    {
        self.nodes.len()
    }

    /// The root node.
    pub fn root(&self) -> (r: SyntaxNodeRef<'_>)
        requires
            self.wf(),
        ensures
            r.wf(),
            r.tree() == *self,
            r.index() == 0,
    {
        SyntaxNodeRef { tree: self, idx: 0 }
    }

    /// The node with the given number.
    pub fn node(&self, index: usize) -> (r: Option<SyntaxNodeRef<'_>>)
        requires
            self.wf(),
        ensures
            r.is_some() == (index < self@.len()),
            r matches Some(n) ==> n.wf() && n.tree() == *self && n.index() == index,
    {
        if index < self.nodes.len() {
            Some(SyntaxNodeRef { tree: self, idx: index })
        } else {
            None
        }
    }
}

/// A node of a syntax tree: the tree and the node's number in it.
#[derive(Clone, Copy, Debug, PartialEq, Eq)]
pub struct SyntaxNodeRef<'a> {
    tree: &'a SyntaxTree,
    idx: usize,
}

impl<'a> SyntaxNodeRef<'a> {
    /// The tree that the node belongs to.
    pub closed spec fn tree(self) -> SyntaxTree {
        *self.tree
    }

    /// The node's number in its tree.
    pub closed spec fn index(self) -> int {
        self.idx as int
    }

    /// The node names a node of a well-formed tree.
    pub open spec fn wf(self) -> bool {
        &&& self.tree().wf()
        &&& 0 <= self.index() < self.tree()@.len()
    }

    /// What the tree holds for this node.
    pub open spec fn data(self) -> NodeView {
        self.tree()@[self.index()]
    }

    /// The node's number in its tree.
    pub fn idx(self) -> (r: usize)
        ensures
            r == self.index(),
    {
        self.idx
    }

    /// The tree that the node belongs to.
    pub fn owner(self) -> (r: &'a SyntaxTree)
        ensures
            *r == self.tree(),
    {
        self.tree
    }

    /// The kind of the node.
    pub fn kind(self) -> (r: SyntaxKind)
        requires
            self.wf(),
        ensures
            r == self.data().kind,
    {
        self.tree.nodes[self.idx].kind
    }

    /// The range of text that the node covers.
    pub fn range(self) -> (r: TextRange)
        requires
            self.wf(),
        ensures
            r == self.data().range,
    {
        self.tree.nodes[self.idx].range
    }

    /// The text of a token; `None` for a composite node.
    pub fn leaf_text(self) -> (r: Option<&'a String>)
        requires
            self.wf(),
        ensures
            r.is_some() == self.data().text.is_some(),
            r matches Some(s) ==> s@ == self.data().text.unwrap(),
    {
        self.tree.nodes[self.idx].text.as_ref()
    }

    /// The parent of the node; `None` for the root.
    pub fn parent(self) -> (r: Option<SyntaxNodeRef<'a>>)
        requires
            self.wf(),
        ensures
            r.is_some() == self.data().parent.is_some(),
            r.is_some() == (self.index() > 0),
            r matches Some(p) ==> {
                &&& p.wf()
                &&& p.tree() == self.tree()
                &&& p.index() == self.data().parent.unwrap()
                &&& p.index() < self.index()
            },
    {
        proof {
            assert(node_wf(self.tree@, self.idx as int));
        }
        match self.tree.nodes[self.idx].parent {
            Some(p) => Some(SyntaxNodeRef { tree: self.tree, idx: p }),
            None => None,
        }
    }

    /// The number of children of the node.
    pub fn child_count(self) -> (r: usize)
        requires
            self.wf(),
        ensures
            r == self.data().children.len(),
    {
        self.tree.nodes[self.idx].children.len()
    }

    /// The `i`-th child of the node, counted from the left and from zero.
    pub fn child(self, i: usize) -> (r: SyntaxNodeRef<'a>)
        requires
            self.wf(),
            i < self.data().children.len(),
        ensures
            r.wf(),
            r.tree() == self.tree(),
            r.index() == self.data().children[i as int],
            r.index() > self.index(),
    {
        proof {
            assert(node_wf(self.tree@, self.idx as int));
            let c = self.tree@[self.idx as int].children[i as int];
        }
        SyntaxNodeRef { tree: self.tree, idx: self.tree.nodes[self.idx].children[i] }
    }

    /// The leftmost child of the node, if it has children.
    pub fn first_child(self) -> (r: Option<SyntaxNodeRef<'a>>)
        requires
            self.wf(),
        ensures
            r.is_some() == (self.data().children.len() > 0),
            r matches Some(c) ==> {
                &&& c.wf()
                &&& c.tree() == self.tree()
                &&& c.index() == self.data().children[0]
            },
    {
        if self.child_count() > 0 {
            Some(self.child(0))
        } else {
            None
        }
    }

    /// The rightmost child of the node, if it has children.
    pub fn last_child(self) -> (r: Option<SyntaxNodeRef<'a>>)
        requires
            self.wf(),
        ensures
            r.is_some() == (self.data().children.len() > 0),
            r matches Some(c) ==> {
                &&& c.wf()
                &&& c.tree() == self.tree()
                &&& c.index() == self.data().children[self.data().children.len() - 1]
            },
    {
        let n = self.child_count();
        if n > 0 {
            Some(self.child(n - 1))
        } else {
            None
        }
    }

    /// Tells whether two nodes are the same node of the same tree, given
    /// that they belong to one tree.
    pub fn same_node(self, other: SyntaxNodeRef<'a>) -> (r: bool)
        ensures
            r == (self.index() == other.index()),
    {
        self.idx == other.idx
    }

    /// The children of the node, from left to right.
    pub fn children(self) -> (r: Vec<SyntaxNodeRef<'a>>)
        requires
            self.wf(),
        ensures
            r@.len() == self.data().children.len(),
            forall|j: int|
                0 <= j < r@.len() ==> {
                    &&& (#[trigger] r@[j]).wf()
                    &&& r@[j].tree() == self.tree()
                    &&& r@[j].index() == self.data().children[j]
                },
    {
        let n = self.child_count();
        let mut out: Vec<SyntaxNodeRef<'a>> = Vec::new();
        let mut j: usize = 0;
        while j < n
            invariant
                self.wf(),
                n == self.data().children.len(),
                j <= n,
                out@.len() == j,
                forall|k: int|
                    0 <= k < j ==> {
                        &&& (#[trigger] out@[k]).wf()
                        &&& out@[k].tree() == self.tree()
                        &&& out@[k].index() == self.data().children[k]
                    },
            decreases n - j,
        {
            out.push(self.child(j));
            j += 1;
        }
        out
    }

    /// Tells whether one of the children of the node, from position `from`
    /// on, is of kind `kind`.
    pub fn has_child_of_kind_from(self, kind: SyntaxKind, from: usize) -> (r: bool)
        requires
            self.wf(),
        ensures
            r == has_child_of_kind_from(self.tree()@, self.index(), kind, from as int),
    {
        let n = self.child_count();
        let mut j: usize = from;
        while j < n
            invariant
                self.wf(),
                n == self.data().children.len(),
                from <= j,
                forall|k: int| from <= k < j && k < n ==> kind_of_child(self.tree()@, self.index(), k) != kind,
            decreases n - j,
        {
            if self.child(j).kind() == kind {
                assert(kind_of_child(self.tree()@, self.index(), j as int) == kind);
                return true;
            }
            j += 1;
        }
        false
    }

    /// Tells whether one of the children of the node is of kind `kind`.
    pub fn has_child_of_kind(self, kind: SyntaxKind) -> (r: bool)
        requires
            self.wf(),
        ensures
            r == has_child_of_kind(self.tree()@, self.index(), kind),
    {
        self.has_child_of_kind_from(kind, 0)
    }
}

/// The kind of the child of node `i` at position `j`.
pub open spec fn kind_of_child(nodes: Seq<NodeView>, i: int, j: int) -> SyntaxKind {
    nodes[nodes[i].children[j]].kind
}

/// One of the children of node `i`, from position `from` on, is of kind `kind`.
pub open spec fn has_child_of_kind_from(nodes: Seq<NodeView>, i: int, kind: SyntaxKind, from: int) -> bool {
    exists|j: int| from <= j < nodes[i].children.len() && #[trigger] kind_of_child(nodes, i, j) == kind
}

/// One of the children of node `i` is of kind `kind`.
pub open spec fn has_child_of_kind(nodes: Seq<NodeView>, i: int, kind: SyntaxKind) -> bool {
    has_child_of_kind_from(nodes, i, kind, 0)
}

} // verus!
