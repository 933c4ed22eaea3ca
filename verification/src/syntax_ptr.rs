//! Pointers to syntax nodes that hold no reference to a tree, and the walk
//! that resolves them.

use vstd::prelude::*;
use crate::syntax::{NodeView, SyntaxNodeRef, SyntaxTree, is_ancestor_or_self, node_wf, tree_wf};
use crate::syntax_kind::SyntaxKind;
use crate::text_range::TextRange;

verus! {

/// A pointer to a syntax node inside a file: the node's range and kind.
/// It holds no reference to the tree, and can be resolved against any
/// tree of the same shape.
#[derive(Debug, Clone, Copy, PartialEq, Eq, Structural, Hash)]
pub struct LocalSyntaxPtr {
    pub range: TextRange,
    pub kind: SyntaxKind,
}

/// The first child of node `i`, from position `from` on, whose range
/// covers `range`.
pub open spec fn first_child_over(nodes: Seq<NodeView>, i: int, range: TextRange, from: int) -> Option<int>
    decreases nodes[i].children.len() - from,
{
    if from < 0 || from >= nodes[i].children.len() {
        None
    } else if range.spec_is_subrange(&nodes[nodes[i].children[from]].range) {
        Some(nodes[i].children[from])
    } else {
        first_child_over(nodes, i, range, from + 1)
    }
}

/// No proper ancestor of node `n` has both the range and the kind of `n`.
pub open spec fn unshadowed(nodes: Seq<NodeView>, n: int) -> bool {
    forall|a: int|
        0 <= a < n && #[trigger] is_ancestor_or_self(nodes, a, n) ==> !(nodes[a].range
            == nodes[n].range && nodes[a].kind == nodes[n].kind)
}

impl LocalSyntaxPtr {
    /// The pointer to node `i` of a tree.
    pub open spec fn of(nodes: Seq<NodeView>, i: int) -> LocalSyntaxPtr {
        LocalSyntaxPtr { range: nodes[i].range, kind: nodes[i].kind }
    }

    /// Node `i` has the range and the kind of the pointer.
    pub open spec fn matches(self, nodes: Seq<NodeView>, i: int) -> bool {
        nodes[i].range == self.range && nodes[i].kind == self.kind
    }

    /// The node that the walk from node `cur` down ends in: `cur` itself
    /// where it matches, else what the walk from the first child of `cur`
    /// that covers the pointer's range ends in; `None` where no child does.
    pub open spec fn walk(self, nodes: Seq<NodeView>, cur: int) -> Option<int>
        decreases nodes.len() - cur,
    {
        if cur < 0 || cur >= nodes.len() {
            None
        } else if self.matches(nodes, cur) {
            Some(cur)
        } else {
            match first_child_over(nodes, cur, self.range, 0) {
                Some(c) => if cur < c < nodes.len() {
                    self.walk(nodes, c)
                } else {
                    None
                },
                None => None,
            }
        }
    }

    /// The node that the pointer resolves to in a tree: where the walk
    /// from the root ends.
    pub open spec fn spec_resolve(self, nodes: Seq<NodeView>) -> Option<int> {
        self.walk(nodes, 0)
    }

    /// The pointer to `node`.
    pub fn new(node: SyntaxNodeRef) -> (r: LocalSyntaxPtr)
        requires
            node.wf(),
        ensures
            r == LocalSyntaxPtr::of(node.tree()@, node.index()),
    {
        LocalSyntaxPtr { range: node.range(), kind: node.kind() }
    }

    /// The node of `file` that the pointer resolves to; `None` where the
    /// walk from the root finds no node with the pointer's range and kind.
    pub fn try_resolve<'a>(self, file: &'a SyntaxTree) -> (r: Option<SyntaxNodeRef<'a>>)
        requires
            file.wf(),
        ensures
            r.is_some() == self.spec_resolve(file@).is_some(),
            r matches Some(n) ==> {
                &&& n.wf()
                &&& n.tree() == *file
                &&& n.index() == self.spec_resolve(file@).unwrap()
                &&& self.matches(file@, n.index())
            },
    {
        let mut curr = file.root();
        loop
            invariant
                file.wf(),
                curr.wf(),
                curr.tree() == *file,
                self.walk(file@, curr.index()) == self.spec_resolve(file@),
            decreases file@.len() - curr.index(),
        {
            if curr.range() == self.range && curr.kind() == self.kind {
                return Some(curr);
            }
            let n = curr.child_count();
            let mut j: usize = 0;
            let mut next: Option<SyntaxNodeRef<'a>> = None;
            while j < n && next.is_none()
                invariant
                    file.wf(),
                    curr.wf(),
                    curr.tree() == *file,
                    n == curr.data().children.len(),
                    j <= n,
                    next.is_none() ==> first_child_over(file@, curr.index(), self.range, j as int)
                        == first_child_over(file@, curr.index(), self.range, 0),
                    next matches Some(c) ==> {
                        &&& c.wf()
                        &&& c.tree() == *file
                        &&& c.index() > curr.index()
                        &&& first_child_over(file@, curr.index(), self.range, 0) == Some(c.index())
                    },
                decreases n - j + (if next.is_none() { 1int } else { 0int }),
            {
                let c = curr.child(j);
                if self.range.is_subrange(&c.range()) {
                    next = Some(c);
                } else {
                    j += 1;
                }
            }
            match next {
                Some(c) => {
                    curr = c;
                },
                None => {
                    return None;
                },
            }
        }
    }

    /// The node of `file` that the pointer resolves to.
    pub fn resolve<'a>(self, file: &'a SyntaxTree) -> (r: SyntaxNodeRef<'a>)
        requires
            file.wf(),
            self.spec_resolve(file@).is_some(),
        ensures
            r.wf(),
            r.tree() == *file,
            r.index() == self.spec_resolve(file@).unwrap(),
            self.matches(file@, r.index()),
    {
        self.try_resolve(file).unwrap()
    }

    /// The range of the node pointed to.
    pub fn range(self) -> (r: TextRange)
        ensures
            r == self.range,
    {
        self.range
    }

    /// The kind of the node pointed to.
    pub fn kind(self) -> (r: SyntaxKind)
        ensures
            r == self.kind,
    {
        self.kind
    }
}

/// The range of a node lies inside the range of each of its ancestors.
pub proof fn lemma_ancestor_covers(nodes: Seq<NodeView>, a: int, n: int)
    requires
        tree_wf(nodes),
        0 <= n < nodes.len(),
        is_ancestor_or_self(nodes, a, n),
    ensures
        0 <= a <= n,
        nodes[n].range.spec_is_subrange(&nodes[a].range),
    decreases n,
{
    if a != n {
        assert(node_wf(nodes, n));
        let p = nodes[n].parent.unwrap();
        lemma_ancestor_covers(nodes, a, p);
        assert(node_wf(nodes, p));
        let w = choose|w: int| 0 <= w < nodes[p].children.len() && nodes[p].children[w] == n;
        assert(nodes[nodes[p].children[w]].range.spec_is_subrange(&nodes[p].range));
    }
}

/// A proper ancestor of `n` has a child that is `n` or an ancestor of `n`.
pub proof fn lemma_step_down(nodes: Seq<NodeView>, a: int, n: int) -> (c: int)
    requires
        tree_wf(nodes),
        0 <= n < nodes.len(),
        is_ancestor_or_self(nodes, a, n),
        a != n,
    ensures
        a < c <= n,
        nodes[c].parent == Some(a),
        is_ancestor_or_self(nodes, c, n),
    decreases n,
{
    assert(node_wf(nodes, n));
    let p = nodes[n].parent.unwrap();
    if p == a {
        n
    } else {
        lemma_ancestor_covers(nodes, a, p);
        lemma_step_down(nodes, a, p)
    }
}

/// Among the children of `a`, the first one that covers a non-empty range
/// inside child `c` is `c` itself.
proof fn lemma_first_child_over(nodes: Seq<NodeView>, a: int, c: int, range: TextRange, from: int)
    requires
        tree_wf(nodes),
        0 <= a < nodes.len(),
        0 <= from < nodes[a].children.len(),
        range.start < range.end,
        range.spec_is_subrange(&nodes[c].range),
        exists|w: int| from <= w < nodes[a].children.len() && nodes[a].children[w] == c,
    ensures
        first_child_over(nodes, a, range, from) == Some(c),
    decreases nodes[a].children.len() - from,
{
    assert(node_wf(nodes, a));
    let w = choose|w: int| from <= w < nodes[a].children.len() && nodes[a].children[w] == c;
    if nodes[a].children[from] != c {
        assert(from < w);
        assert(nodes[nodes[a].children[from]].range.end <= nodes[nodes[a].children[w]].range.start);
        lemma_first_child_over(nodes, a, c, range, from + 1);
    }
}

/// The walk for the pointer to `n`, begun at `n` or at an ancestor of
/// `n`, ends in `n`.
proof fn lemma_walk_reaches(nodes: Seq<NodeView>, a: int, n: int)
    requires
        tree_wf(nodes),
        0 <= n < nodes.len(),
        is_ancestor_or_self(nodes, a, n),
        nodes[n].range.start < nodes[n].range.end,
        unshadowed(nodes, n),
    ensures
        LocalSyntaxPtr::of(nodes, n).walk(nodes, a) == Some(n),
    decreases n - a,
{
    let ptr = LocalSyntaxPtr::of(nodes, n);
    lemma_ancestor_covers(nodes, a, n);
    if a != n {
        assert(!ptr.matches(nodes, a));
        let c = lemma_step_down(nodes, a, n);
        lemma_ancestor_covers(nodes, c, n);
        assert(node_wf(nodes, c));
        let w = choose|w: int| 0 <= w < nodes[a].children.len() && nodes[a].children[w] == c;
        lemma_first_child_over(nodes, a, c, ptr.range, 0);
        lemma_walk_reaches(nodes, c, n);
    }
}

/// A pointer made from a node of a tree resolves, in that tree, to the
/// node it was made from, provided that the node covers some text and
/// that none of its ancestors has both its range and its kind.
pub proof fn lemma_resolve_new(tree: SyntaxTree, node: SyntaxNodeRef)
    requires
        node.wf(),
        node.tree() == tree,
        node.data().range.start < node.data().range.end,
        unshadowed(tree@, node.index()),
    ensures
        LocalSyntaxPtr::of(tree@, node.index()).spec_resolve(tree@) == Some(node.index()),
{
    lemma_root_is_ancestor(tree@, node.index());
    lemma_walk_reaches(tree@, 0, node.index());
}

/// The root is an ancestor of every node.
pub proof fn lemma_root_is_ancestor(nodes: Seq<NodeView>, n: int)
    requires
        tree_wf(nodes),
        0 <= n < nodes.len(),
    ensures
        is_ancestor_or_self(nodes, 0, n),
    decreases n,
{
    if n != 0 {
        assert(node_wf(nodes, n));
        lemma_root_is_ancestor(nodes, nodes[n].parent.unwrap());
    }
}

/// The walk for the pointer to node `t` comes from the root to node `c`:
/// at each node above `c` it finds no match and turns to the child that
/// lies above `c`, or is `c`.
pub open spec fn leads_to(nodes: Seq<NodeView>, t: int, c: int) -> bool
    decreases c,
{
    if c <= 0 {
        c == 0
    } else {
        match nodes[c].parent {
            Some(p) => 0 <= p < c && leads_to(nodes, t, p) && !LocalSyntaxPtr::of(nodes, t).matches(nodes, p)
                && first_child_over(nodes, p, nodes[t].range, 0) == Some(c),
            None => false,
        }
    }
}

/// What `first_child_over` finds is a child.
proof fn lemma_first_child_over_is_child(nodes: Seq<NodeView>, a: int, range: TextRange, from: int)
    requires
        0 <= from,
    ensures
        first_child_over(nodes, a, range, from) matches Some(c) ==> exists|w: int|
            from <= w < nodes[a].children.len() && #[trigger] nodes[a].children[w] == c,
    decreases nodes[a].children.len() - from,
{
    if from < nodes[a].children.len() {
        if range.spec_is_subrange(&nodes[nodes[a].children[from]].range) {
            assert(nodes[a].children[from] == first_child_over(nodes, a, range, from).unwrap());
        } else {
            lemma_first_child_over_is_child(nodes, a, range, from + 1);
            if first_child_over(nodes, a, range, from) is Some {
                let c = first_child_over(nodes, a, range, from + 1).unwrap();
                let w = choose|w: int| from + 1 <= w < nodes[a].children.len() && #[trigger] nodes[a].children[w] == c;
                assert(nodes[a].children[w] == c);
            }
        }
    }
}

/// Where the walk comes to `c`, it goes on from the root as it goes on from `c`.
proof fn lemma_walk_from_root(nodes: Seq<NodeView>, t: int, c: int)
    requires
        tree_wf(nodes),
        0 <= t < nodes.len(),
        0 <= c < nodes.len(),
        leads_to(nodes, t, c),
    ensures
        LocalSyntaxPtr::of(nodes, t).walk(nodes, 0) == LocalSyntaxPtr::of(nodes, t).walk(nodes, c),
    decreases c,
{
    if c > 0 {
        let p = nodes[c].parent.unwrap();
        lemma_walk_from_root(nodes, t, p);
    }
}

/// Where the walk that has come to `cur` ends in `t`, it comes to `t`.
proof fn lemma_walk_leads(nodes: Seq<NodeView>, t: int, cur: int)
    requires
        tree_wf(nodes),
        0 <= t < nodes.len(),
        0 <= cur < nodes.len(),
        leads_to(nodes, t, cur),
        LocalSyntaxPtr::of(nodes, t).walk(nodes, cur) == Some(t),
    ensures
        leads_to(nodes, t, t),
    decreases nodes.len() - cur,
{
    let ptr = LocalSyntaxPtr::of(nodes, t);
    if !ptr.matches(nodes, cur) {
        let c = first_child_over(nodes, cur, ptr.range, 0).unwrap();
        lemma_first_child_over_is_child(nodes, cur, ptr.range, 0);
        let w = choose|w: int| 0 <= w < nodes[cur].children.len() && #[trigger] nodes[cur].children[w] == c;
        assert(node_wf(nodes, cur));
        assert(nodes[nodes[cur].children[w]].parent == Some(cur));
        lemma_walk_leads(nodes, t, c);
    }
}

/// A pointer made from a node of a tree resolves, in that tree, to the
/// node it was made from exactly where the walk from the root comes to
/// that node: where no node above it has both its range and its kind,
/// and where, at each node above it, no child further left covers its range.
pub proof fn lemma_resolve_new_exactly(tree: SyntaxTree, node: SyntaxNodeRef)
    requires
        node.wf(),
        node.tree() == tree,
    ensures
        (LocalSyntaxPtr::of(tree@, node.index()).spec_resolve(tree@) == Some(node.index())) == leads_to(
            tree@,
            node.index(),
            node.index(),
        ),
{
    let nodes = tree@;
    let t = node.index();
    if leads_to(nodes, t, t) {
        lemma_walk_from_root(nodes, t, t);
    }
    if LocalSyntaxPtr::of(nodes, t).spec_resolve(nodes) == Some(t) {
        lemma_walk_leads(nodes, t, 0);
    }
}

} // verus!
