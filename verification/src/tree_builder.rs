//! Building a syntax tree from the left, with the proof that what is built
//! is well-formed.

use vstd::prelude::*;
use crate::syntax::{NodeData, NodeView, SyntaxTree, tree_wf, node_wf, children_linked, children_ordered, token_text};
use crate::syntax_kind::SyntaxKind;
use crate::text_range::TextRange;

verus! {

/// A tree under construction, as a mathematical value: the nodes made so
/// far, the numbers of the nodes that are still open, outermost first, and
/// the offset at which the next token begins.
///
/// An open node holds an empty range at its start until it is finished.
pub struct BuilderView {
    pub nodes: Seq<NodeView>,
    pub open: Seq<int>,
    pub pos: u32,
}

impl BuilderView {
    /// A node of kind `kind` can be opened: the kind is that of a composite
    /// node, and nothing was built yet or a node is open.
    pub open spec fn can_start(self, kind: SyntaxKind) -> bool {
        !kind.spec_is_token() && (self.nodes.len() == 0 || self.open.len() > 0)
    }

    /// The nodes after `child` was added as the last child of the innermost open node.
    pub open spec fn with_child(self, child: int) -> Seq<NodeView> {
        if self.open.len() > 0 {
            let p = self.open.last();
            self.nodes.update(
                p,
                NodeView { children: self.nodes[p].children.push(child), ..self.nodes[p] },
            )
        } else {
            self.nodes
        }
    }

    /// The parent that a node made now gets.
    pub open spec fn next_parent(self) -> Option<int> {
        if self.open.len() > 0 {
            Some(self.open.last())
        } else {
            None
        }
    }

    /// The state after a node of kind `kind` was opened.
    pub open spec fn start_node(self, kind: SyntaxKind) -> BuilderView {
        let n = self.nodes.len() as int;
        let fresh = NodeView {
            kind,
            range: TextRange { start: self.pos, end: self.pos },
            parent: self.next_parent(),
            children: Seq::empty(),
            text: None,
        };
        BuilderView {
            nodes: self.with_child(n).push(fresh),
            open: self.open.push(n),
            pos: self.pos,
        }
    }

    /// A token of kind `kind` with `len` bytes of text can be added: the
    /// kind is that of a token, a node is open and the text ends within
    /// reach of a 32-bit offset.
    pub open spec fn can_token(self, kind: SyntaxKind, len: nat) -> bool {
        kind.spec_is_token() && self.open.len() > 0 && self.pos + len <= u32::MAX
    }

    /// The state after a token of kind `kind` with text `text` was added.
    pub open spec fn token(self, kind: SyntaxKind, text: Seq<char>) -> BuilderView {
        let n = self.nodes.len() as int;
        let end = (self.pos + vstd::utf8::encode_utf8(text).len()) as u32;
        let fresh = NodeView {
            kind,
            range: TextRange { start: self.pos, end },
            parent: self.next_parent(),
            children: Seq::empty(),
            text: Some(text),
        };
        BuilderView { nodes: self.with_child(n).push(fresh), open: self.open, pos: end }
    }

    /// The state after the innermost open node was finished.
    pub open spec fn finish_node(self) -> BuilderView {
        let t = self.open.last();
        let done = NodeView {
            range: TextRange { start: self.nodes[t].range.start, end: self.pos },
            ..self.nodes[t]
        };
        BuilderView { nodes: self.nodes.update(t, done), open: self.open.drop_last(), pos: self.pos }
    }

    /// The root was opened and every node is finished.
    pub open spec fn is_complete(self) -> bool {
        self.nodes.len() > 0 && self.open.len() == 0
    }
}

/// The nodes as they would be if every open node were finished now.
spec fn closed_now(nodes: Seq<NodeView>, flags: Seq<bool>, pos: u32) -> Seq<NodeView> {
    Seq::new(
        nodes.len(),
        |i: int|
            if flags[i] {
                NodeView {
                    range: TextRange { start: nodes[i].range.start, end: pos },
                    ..nodes[i]
                }
            } else {
                nodes[i]
            },
    )
}

/// The open node at depth `k + 1` is the last child of the one at depth `k`.
spec fn stack_link(b: BuilderView, k: int) -> bool {
    &&& b.nodes[b.open[k]].children.len() > 0
    &&& b.nodes[b.open[k]].children.last() == b.open[k + 1]
}

/// The stack lists open nodes from the root down, each the last child of
/// the one before it.
spec fn stack_inv(b: BuilderView, flags: Seq<bool>) -> bool {
    &&& forall|k: int|
        0 <= k < b.open.len() ==> 0 <= #[trigger] b.open[k] < b.nodes.len() && flags[b.open[k]]
    &&& forall|k: int, m: int|
        0 <= k < m < b.open.len() ==> (#[trigger] b.open[k]) < (#[trigger] b.open[m])
    &&& forall|k: int| 0 <= k < b.open.len() - 1 ==> #[trigger] stack_link(b, k)
    &&& b.open.len() > 0 ==> b.open[0] == 0
    &&& b.nodes.len() > 0 && b.open.len() == 0 ==> !flags[0]
}

/// An open child is the last child of an open node.
spec fn open_child_inv(nodes: Seq<NodeView>, flags: Seq<bool>, i: int) -> bool {
    forall|j: int|
        0 <= j < nodes[i].children.len() && flags[#[trigger] nodes[i].children[j]] ==> flags[i]
            && j == nodes[i].children.len() - 1
}

/// The children of the innermost open node are all finished.
spec fn top_inv(b: BuilderView, flags: Seq<bool>) -> bool {
    b.open.len() > 0 ==> forall|j: int|
        0 <= j < b.nodes[b.open.last()].children.len() ==> !flags[#[trigger] b.nodes[b.open.last()].children[j]]
}

/// No open node is a token.
spec fn open_is_composite(nodes: Seq<NodeView>, flags: Seq<bool>) -> bool {
    forall|i: int| 0 <= i < nodes.len() && #[trigger] flags[i] ==> nodes[i].text.is_none()
}

spec fn builder_inv(b: BuilderView, flags: Seq<bool>) -> bool {
    &&& flags.len() == b.nodes.len()
    &&& b.nodes.len() == 0 ==> b.open.len() == 0
    &&& b.nodes.len() > 0 ==> tree_wf(closed_now(b.nodes, flags, b.pos))
    &&& stack_inv(b, flags)
    &&& top_inv(b, flags)
    &&& open_is_composite(b.nodes, flags)
    &&& forall|i: int| 0 <= i < b.nodes.len() ==> #[trigger] open_child_inv(b.nodes, flags, i)
}

/// What adding node `n` below the innermost open node `p` does to the
/// nodes before `n`, seen as if every open node were finished at `pos2`.
spec fn grown(
    e: Seq<NodeView>,
    e2: Seq<NodeView>,
    flags: Seq<bool>,
    p: int,
    n: int,
    pos2: u32,
) -> bool {
    &&& e.len() == n
    &&& e2.len() == n + 1
    &&& forall|i: int|
        0 <= i < n ==> {
            &&& (#[trigger] e2[i]).kind == e[i].kind
            &&& e2[i].parent == e[i].parent
            &&& e2[i].text == e[i].text
            &&& e2[i].range.start == e[i].range.start
            &&& e2[i].range.end == (if flags[i] {
                pos2
            } else {
                e[i].range.end
            })
            &&& e2[i].children == (if i == p {
                e[i].children.push(n)
            } else {
                e[i].children
            })
        }
}

/// A tree that is well-formed as of offset `pos` stays so when a finished
/// or just opened node `n` over `pos..pos2` is hung below the innermost
/// open node `p` and every open node is stretched to `pos2`.
proof fn lemma_grown_wf(
    e: Seq<NodeView>,
    e2: Seq<NodeView>,
    flags: Seq<bool>,
    p: int,
    n: int,
    pos: u32,
    pos2: u32,
)
    requires
        tree_wf(e),
        grown(e, e2, flags, p, n, pos2),
        flags.len() == n,
        0 <= p < n,
        flags[p],
        pos <= pos2,
        forall|i: int| 0 <= i < n && flags[i] ==> (#[trigger] e[i]).range.end == pos,
        forall|i: int| 0 <= i < n && flags[i] ==> (#[trigger] e[i]).text.is_none(),
        forall|i: int| 0 <= i < n ==> #[trigger] open_child_inv(e, flags, i),
        forall|j: int| 0 <= j < e[p].children.len() ==> !flags[#[trigger] e[p].children[j]],
        e2[n].parent == Some(p),
        e2[n].children.len() == 0,
        e2[n].range.start == pos,
        e2[n].range.end == pos2,
        token_text(e2, n),
    ensures
        tree_wf(e2),
{
    assert(node_wf(e, p));
    assert forall|i: int| 0 <= i < e2.len() implies #[trigger] node_wf(e2, i) by {
        if i == n {
            assert(e2[p].children[e[p].children.len() as int] == n);
            assert(e2[p].children.contains(n));
        } else {
            assert(node_wf(e, i));
            assert(open_child_inv(e, flags, i));
            lemma_grown_children(e, e2, flags, p, n, pos, pos2, i);
            match e[i].parent {
                Some(q) => {
                    let w = choose|w: int| 0 <= w < e[q].children.len() && e[q].children[w] == i;
                    assert(e2[q].children[w] == i);
                },
                None => {},
            }
        }
    }
}

proof fn lemma_grown_children(
    e: Seq<NodeView>,
    e2: Seq<NodeView>,
    flags: Seq<bool>,
    p: int,
    n: int,
    pos: u32,
    pos2: u32,
    i: int,
)
    requires
        node_wf(e, i),
        node_wf(e, p),
        0 <= i < n,
        grown(e, e2, flags, p, n, pos2),
        flags.len() == n,
        0 <= p < n,
        flags[p],
        pos <= pos2,
        forall|i: int| 0 <= i < n && flags[i] ==> (#[trigger] e[i]).range.end == pos,
        open_child_inv(e, flags, i),
        forall|j: int| 0 <= j < e[p].children.len() ==> !flags[#[trigger] e[p].children[j]],
        e2[n].parent == Some(p),
        e2[n].range.start == pos,
        e2[n].range.end == pos2,
    ensures
        children_linked(e2, i),
        children_ordered(e2, i),
{
    let old_len = e[i].children.len() as int;
    assert forall|j: int| 0 <= j < e2[i].children.len() implies {
        &&& i < #[trigger] e2[i].children[j] < e2.len()
        &&& e2[e2[i].children[j]].parent == Some(i)
        &&& e2[e2[i].children[j]].range.spec_is_subrange(&e2[i].range)
    } by {
        if j < old_len {
            let c = e[i].children[j];
            assert(e2[i].children[j] == c);
            assert(e2[c].parent == e[c].parent);
        }
    }
    assert forall|j: int, k: int| 0 <= j < k < e2[i].children.len() implies {
        &&& (#[trigger] e2[i].children[j]) < (#[trigger] e2[i].children[k])
        &&& e2[e2[i].children[j]].range.end <= e2[e2[i].children[k]].range.start
    } by {
        let cj = e[i].children[j];
        assert(e2[i].children[j] == cj);
        assert(e2[cj].range.start == e[cj].range.start);
        if k < old_len {
            let ck = e[i].children[k];
            assert(e2[i].children[k] == ck);
            assert(e2[ck].range.start == e[ck].range.start);
            assert(!flags[cj]);
        } else {
            assert(!flags[cj]);
        }
    }
}

proof fn lemma_start_node(b: BuilderView, flags: Seq<bool>, kind: SyntaxKind)
    requires
        builder_inv(b, flags),
        b.can_start(kind),
    ensures
        builder_inv(b.start_node(kind), flags.push(true)),
{
    let b2 = b.start_node(kind);
    let f2 = flags.push(true);
    let n = b.nodes.len() as int;
    let e = closed_now(b.nodes, flags, b.pos);
    let e2 = closed_now(b2.nodes, f2, b2.pos);
    if b.open.len() > 0 {
        let p = b.open.last();
        assert(b.open[b.open.len() - 1] == p);
        assert forall|i: int| 0 <= i < n implies #[trigger] open_child_inv(e, flags, i) by {
            assert(open_child_inv(b.nodes, flags, i));
        }
        assert(grown(e, e2, flags, p, n, b.pos));
        lemma_grown_wf(e, e2, flags, p, n, b.pos, b.pos);
        assert forall|i: int| 0 <= i < b2.nodes.len() implies #[trigger] open_child_inv(
            b2.nodes,
            f2,
            i,
        ) by {
            if i < n {
                assert(open_child_inv(b.nodes, flags, i));
                assert(node_wf(e, i));
                assert forall|j: int|
                    0 <= j < b2.nodes[i].children.len() && f2[#[trigger] b2.nodes[i].children[j]] implies f2[i]
                    && j == b2.nodes[i].children.len() - 1 by {
                    if j < b.nodes[i].children.len() {
                        assert(b.nodes[i].children[j] == b2.nodes[i].children[j]);
                        assert(e[i].children[j] == b.nodes[i].children[j]);
                    }
                }
            }
        }
        assert(stack_inv(b2, f2)) by {
            assert forall|k: int| 0 <= k < b2.open.len() - 1 implies #[trigger] stack_link(b2, k) by {
                if k < b.open.len() - 1 {
                    assert(stack_link(b, k));
                    assert(b.open[k] < b.open[b.open.len() - 1]);
                    assert(b2.open[k] == b.open[k]);
                    assert(b2.open[k + 1] == b.open[k + 1]);
                } else {
                    assert(b2.open[k] == p);
                }
            }
        }
    } else {
        assert(node_wf(e2, 0));
        assert(stack_inv(b2, f2));
        assert(open_child_inv(b2.nodes, f2, 0));
    }
}

proof fn lemma_token(b: BuilderView, flags: Seq<bool>, kind: SyntaxKind, text: Seq<char>)
    requires
        builder_inv(b, flags),
        b.can_token(kind, vstd::utf8::encode_utf8(text).len()),
    ensures
        builder_inv(b.token(kind, text), flags.push(false)),
{
    let b2 = b.token(kind, text);
    let f2 = flags.push(false);
    let n = b.nodes.len() as int;
    let e = closed_now(b.nodes, flags, b.pos);
    let e2 = closed_now(b2.nodes, f2, b2.pos);
    let p = b.open.last();
    assert(b.open[b.open.len() - 1] == p);
    assert forall|i: int| 0 <= i < n implies #[trigger] open_child_inv(e, flags, i) by {
        assert(open_child_inv(b.nodes, flags, i));
    }
    assert(grown(e, e2, flags, p, n, b2.pos));
    lemma_grown_wf(e, e2, flags, p, n, b.pos, b2.pos);
    assert forall|i: int| 0 <= i < b2.nodes.len() implies #[trigger] open_child_inv(b2.nodes, f2, i) by {
        if i < n {
            assert(open_child_inv(b.nodes, flags, i));
            assert(node_wf(e, i));
            assert forall|j: int|
                0 <= j < b2.nodes[i].children.len() && f2[#[trigger] b2.nodes[i].children[j]] implies f2[i]
                && j == b2.nodes[i].children.len() - 1 by {
                if j < b.nodes[i].children.len() {
                    assert(b.nodes[i].children[j] == b2.nodes[i].children[j]);
                    assert(e[i].children[j] == b.nodes[i].children[j]);
                }
            }
        }
    }
    assert(stack_inv(b2, f2)) by {
        assert forall|k: int| 0 <= k < b2.open.len() - 1 implies #[trigger] stack_link(b2, k) by {
            assert(stack_link(b, k));
            assert(b.open[k] < b.open[b.open.len() - 1]);
        }
    }
    assert(top_inv(b2, f2)) by {
        assert forall|j: int| 0 <= j < b2.nodes[p].children.len() implies !f2[#[trigger] b2.nodes[p].children[j]] by {
            if j < b.nodes[p].children.len() {
                assert(b.nodes[p].children[j] == b2.nodes[p].children[j]);
                assert(node_wf(e, p));
                assert(e[p].children[j] == b.nodes[p].children[j]);
            }
        }
    }
}

proof fn lemma_finish_node(b: BuilderView, flags: Seq<bool>)
    requires
        builder_inv(b, flags),
        b.open.len() > 0,
    ensures
        builder_inv(b.finish_node(), flags.update(b.open.last(), false)),
{
    let b2 = b.finish_node();
    let t = b.open.last();
    let f2 = flags.update(t, false);
    let e = closed_now(b.nodes, flags, b.pos);
    let e2 = closed_now(b2.nodes, f2, b2.pos);
    assert(b.open[b.open.len() - 1] == t);
    assert(e2 =~= e);
    assert forall|i: int| 0 <= i < b2.nodes.len() implies #[trigger] open_child_inv(b2.nodes, f2, i) by {
        assert(open_child_inv(b.nodes, flags, i));
        assert(node_wf(e, i));
        assert forall|j: int|
            0 <= j < b2.nodes[i].children.len() && f2[#[trigger] b2.nodes[i].children[j]] implies f2[i]
            && j == b2.nodes[i].children.len() - 1 by {
            assert(b.nodes[i].children[j] == b2.nodes[i].children[j]);
            assert(e[i].children[j] == b.nodes[i].children[j]);
            if i == t {
                assert(!flags[b.nodes[b.open.last()].children[j]]);
            }
        }
    }
    if b.open.len() > 1 {
        let p = b.open[b.open.len() - 2];
        assert(b2.open.last() == p);
        assert(stack_link(b, b.open.len() - 2));
        assert(open_child_inv(b.nodes, flags, p));
        assert(p < t);
        assert(top_inv(b2, f2)) by {
            assert(node_wf(e, p));
            assert forall|j: int| 0 <= j < b2.nodes[p].children.len() implies !f2[#[trigger] b2.nodes[p].children[j]] by {
                assert(b.nodes[p].children[j] == b2.nodes[p].children[j]);
                assert(e[p].children[j] == b.nodes[p].children[j]);
            }
        }
    }
    assert(stack_inv(b2, f2)) by {
        assert forall|k: int| 0 <= k < b2.open.len() implies 0 <= #[trigger] b2.open[k] < b2.nodes.len()
            && f2[b2.open[k]] by {
            assert(b.open[k] == b2.open[k]);
            assert(b.open[k] < b.open[b.open.len() - 1]);
        }
        assert forall|k: int, m: int| 0 <= k < m < b2.open.len() implies (#[trigger] b2.open[k]) < (
        #[trigger] b2.open[m]) by {
            assert(b.open[k] == b2.open[k]);
            assert(b.open[m] == b2.open[m]);
        }
        assert forall|k: int| 0 <= k < b2.open.len() - 1 implies #[trigger] stack_link(b2, k) by {
            assert(stack_link(b, k));
            assert(b.open[k] == b2.open[k]);
            assert(b.open[k + 1] == b2.open[k + 1]);
            assert(b.open[k] < b.open[b.open.len() - 1]);
        }
    }
}

/// Once the root is finished, every node is.
proof fn lemma_all_closed(b: BuilderView, flags: Seq<bool>, i: int)
    requires
        builder_inv(b, flags),
        b.is_complete(),
        0 <= i < b.nodes.len(),
    ensures
        !flags[i],
    decreases i,
{
    let e = closed_now(b.nodes, flags, b.pos);
    if i > 0 {
        assert(node_wf(e, i));
        let p = e[i].parent.unwrap();
        lemma_all_closed(b, flags, p);
        assert(open_child_inv(b.nodes, flags, p));
        let w = choose|w: int| 0 <= w < e[p].children.len() && e[p].children[w] == i;
        assert(b.nodes[p].children[w] == i);
    }
}

/// Builds a syntax tree from the left: open a node, add tokens and nodes
/// below it, finish it.
pub struct TreeBuilder {
    nodes: Vec<NodeData>,
    open: Vec<usize>,
    pos: u32,
    is_open: Ghost<Seq<bool>>,
}

impl View for TreeBuilder {
    type V = BuilderView;

    closed spec fn view(&self) -> BuilderView {
        BuilderView {
            nodes: self.nodes@.map_values(|n: NodeData| n@),
            open: self.open@.map_values(|i: usize| i as int),
            pos: self.pos,
        }
    }
}

impl TreeBuilder {
    /// What was built so far is consistent.
    pub closed spec fn wf(&self) -> bool {
        builder_inv(self@, self.is_open@)
    }

    /// A builder with nothing built.
    pub fn new() -> (r: TreeBuilder)
        ensures
            r.wf(),
            r@.nodes.len() == 0,
            r@.open.len() == 0,
            r@.pos == 0,
    {
        TreeBuilder { nodes: Vec::new(), open: Vec::new(), pos: 0, is_open: Ghost(Seq::empty()) }
    }

    /// Opens a node of kind `kind` at the current offset, below the
    /// innermost open node. Does nothing and returns `false` when the kind
    /// is a token's or the root is already finished.
    pub fn start_node(&mut self, kind: SyntaxKind) -> (r: bool)
        requires
            old(self).wf(),
        ensures
            final(self).wf(),
            r == old(self)@.can_start(kind),
            r ==> final(self)@ == old(self)@.start_node(kind),
            !r ==> final(self)@ == old(self)@,
    {
        if kind.is_token() || (self.nodes.len() > 0 && self.open.len() == 0) {
            return false;
        }
        let n = self.nodes.len();
        let mut parent: Option<usize> = None;
        if self.open.len() > 0 {
            let p = self.open[self.open.len() - 1];
            assert(old(self)@.open[old(self)@.open.len() - 1] == p);
            self.nodes[p].children.push(n);
            parent = Some(p);
        }
        self.nodes.push(
            NodeData {
                kind,
                range: TextRange { start: self.pos, end: self.pos },
                parent,
                children: Vec::new(),
                text: None,
            },
        );
        self.open.push(n);
        proof {
            self.is_open@ = self.is_open@.push(true);
            lemma_start_node(old(self)@, old(self).is_open@, kind);
            let want = old(self)@.start_node(kind);
            assert(self@.open =~= want.open);
            assert(self@.nodes.len() == want.nodes.len());
            assert forall|i: int| 0 <= i < want.nodes.len() implies self@.nodes[i] == want.nodes[i] by {
                assert(self@.nodes[i].children =~= want.nodes[i].children);
            }
            assert(self@.nodes =~= want.nodes);
        }
        true
    }

    /// Adds a token of kind `kind` with text `text` at the current offset,
    /// as the next child of the innermost open node, and moves the offset
    /// past it. Does nothing and returns `false` when the kind is not a
    /// token's, no node is open or the text would end beyond the last
    /// 32-bit offset.
    pub fn token(&mut self, kind: SyntaxKind, text: &str) -> (r: bool)
        requires
            old(self).wf(),
        ensures
            final(self).wf(),
            r == old(self)@.can_token(kind, vstd::utf8::encode_utf8(text@).len()),
            r ==> final(self)@ == old(self)@.token(kind, text@),
            !r ==> final(self)@ == old(self)@,
    {
        if !kind.is_token() || self.open.len() == 0 {
            return false;
        }
        let len = text.as_bytes().len();
        if len > (u32::MAX - self.pos) as usize {
            return false;
        }
        let end: u32 = self.pos + len as u32;
        let n = self.nodes.len();
        let p = self.open[self.open.len() - 1];
        assert(old(self)@.open[old(self)@.open.len() - 1] == p);
        self.nodes[p].children.push(n);
        self.nodes.push(
            NodeData {
                kind,
                range: TextRange { start: self.pos, end },
                parent: Some(p),
                children: Vec::new(),
                text: Some(text.to_owned()),
            },
        );
        self.pos = end;
        proof {
            self.is_open@ = self.is_open@.push(false);
            lemma_token(old(self)@, old(self).is_open@, kind, text@);
            let want = old(self)@.token(kind, text@);
            assert(self@.open =~= want.open);
            assert(self@.nodes.len() == want.nodes.len());
            assert forall|i: int| 0 <= i < want.nodes.len() implies self@.nodes[i] == want.nodes[i] by {
                assert(self@.nodes[i].children =~= want.nodes[i].children);
            }
            assert(self@.nodes =~= want.nodes);
        }
        true
    }

    /// Finishes the innermost open node: it ends at the current offset.
    /// Does nothing and returns `false` when no node is open.
    pub fn finish_node(&mut self) -> (r: bool)
        requires
            old(self).wf(),
        ensures
            final(self).wf(),
            r == (old(self)@.open.len() > 0),
            r ==> final(self)@ == old(self)@.finish_node(),
            !r ==> final(self)@ == old(self)@,
    {
        if self.open.len() == 0 {
            return false;
        }
        let t = self.open[self.open.len() - 1];
        assert(old(self)@.open[old(self)@.open.len() - 1] == t);
        let _ = self.open.pop();
        self.nodes[t].range.end = self.pos;
        proof {
            self.is_open@ = self.is_open@.update(t as int, false);
            lemma_finish_node(old(self)@, old(self).is_open@);
            let want = old(self)@.finish_node();
            assert(self@.open =~= want.open);
            assert(self@.nodes.len() == want.nodes.len());
            assert forall|i: int| 0 <= i < want.nodes.len() implies self@.nodes[i] == want.nodes[i] by {
                assert(self@.nodes[i].children =~= want.nodes[i].children);
            }
            assert(self@.nodes =~= want.nodes);
        }
        true
    }

    /// The finished tree, once the root was opened and every node is
    /// finished; `None` before that.
    pub fn finish(self) -> (r: Option<SyntaxTree>)
        requires
            self.wf(),
        ensures
            r.is_some() == self@.is_complete(),
            r matches Some(t) ==> t.wf() && t@ == self@.nodes,
    {
        if self.nodes.len() > 0 && self.open.len() == 0 {
            proof {
                let e = closed_now(self@.nodes, self.is_open@, self@.pos);
                assert forall|i: int| 0 <= i < self@.nodes.len() implies e[i] == self@.nodes[i] by {
                    lemma_all_closed(self@, self.is_open@, i);
                }
                assert(e =~= self@.nodes);
            }
            Some(SyntaxTree::from_nodes(self.nodes))
        } else {
            None
        }
    }
}

} // verus!
