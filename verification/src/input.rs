//! The input to the analysis: files, source roots and the graph of crates,
//! which never holds a cycle.

use vstd::prelude::*;
use rustc_hash::FxHashMap;
use rustc_hash::FxHashSet;
use relative_path::RelativePathBuf;
use crate::fx::{fx_map_get, fx_map_get_mut, fx_map_insert, fx_map_keys, fx_map_len, fx_map_new, fx_set_insert, fx_set_new};

verus! {

/// `FileId` is an integer which uniquely identifies a file. File paths are
/// messy and system-dependent, so most of the code works directly with
/// `FileId`, without inspecting the path. A rename is a deletion and a
/// creation.
#[derive(Debug, Clone, Copy, PartialEq, Eq, Structural, PartialOrd, Ord, Hash)]
pub struct FileId(pub u32);

/// Files are grouped into source roots. Paths to files are always relative
/// to a source root, so a file of one source root cannot refer to a file
/// of another by path.
#[derive(Debug, Clone, Copy, PartialEq, Eq, Structural, Hash, PartialOrd, Ord)]
pub struct SourceRootId(pub u32);

/// A path relative to a source root, as `relative_path` has it.
#[verifier::external_type_specification]
#[verifier::external_body]
pub struct ExRelativePathBuf(relative_path::RelativePathBuf);

/// The files of a source root, each under its path relative to the root.
#[derive(Default, Clone, Debug, PartialEq, Eq)]
pub struct SourceRoot {
    pub files: FxHashMap<RelativePathBuf, FileId>,
}

/// A crate is the `FileId` of its root module and the set of its
/// dependencies. It has no name of its own: names stand on the edges.
#[derive(Debug, Clone, Copy, PartialEq, Eq, Structural, PartialOrd, Ord, Hash)]
pub struct CrateId(pub u32);

/// One edge of the crate graph: the crate depended on, and the name under
/// which the dependent crate knows it.
#[derive(Debug, Clone, PartialEq, Eq)]
pub struct Dependency {
    pub crate_id: CrateId,
    pub name: String,
}

impl Dependency {
    pub fn crate_id(&self) -> (r: CrateId)
        ensures
            r == self.crate_id,
    {
        self.crate_id
    }
}

#[derive(Debug, Clone, PartialEq, Eq)]
pub struct CrateData {
    pub file_id: FileId,
    pub dependencies: Vec<Dependency>,
}

impl CrateData {
    pub fn new(file_id: FileId) -> (r: CrateData)
        ensures
            r@ == (CrateView { file_id, dependencies: Seq::empty() }),
    {
        let r = CrateData { file_id, dependencies: Vec::new() };
        assert(r@.dependencies =~= Seq::empty());
        r
    }

    pub fn add_dep(&mut self, name: String, crate_id: CrateId)
        ensures
            final(self)@ == (CrateView {
                file_id: old(self)@.file_id,
                dependencies: old(self)@.dependencies.push(DependencyView { crate_id, name: name@ }),
            }),
    {
        self.dependencies.push(Dependency { name, crate_id });
        assert(self@.dependencies =~= old(self)@.dependencies.push(
            DependencyView { crate_id, name: name@ },
        ));
    }
}

/// A dependency as a mathematical value.
pub struct DependencyView {
    pub crate_id: CrateId,
    pub name: Seq<char>,
}

impl View for Dependency {
    type V = DependencyView;

    open spec fn view(&self) -> DependencyView {
        DependencyView { crate_id: self.crate_id, name: self.name@ }
    }
}

/// A crate as a mathematical value: its root module and its
/// dependencies in the order in which they were added.
pub struct CrateView {
    pub file_id: FileId,
    pub dependencies: Seq<DependencyView>,
}

impl View for CrateData {
    type V = CrateView;

    open spec fn view(&self) -> CrateView {
        CrateView {
            file_id: self.file_id,
            dependencies: self.dependencies@.map_values(|d: Dependency| d@),
        }
    }
}

/// The crates of a graph, each under the number of its id.
pub type Crates = Map<u32, CrateView>;

/// Crate `a` depends directly on crate `b`.
pub open spec fn edge(g: Crates, a: u32, b: u32) -> bool {
    g.contains_key(a) && exists|k: int|
        0 <= k < g[a].dependencies.len() && (#[trigger] g[a].dependencies[k]).crate_id.0 == b
}

/// Step `i` of `p` follows an edge.
pub open spec fn edge_at(g: Crates, p: Seq<u32>, i: int) -> bool {
    edge(g, p[i], p[i + 1])
}

/// `p` lists crates of which each depends directly on the next.
pub open spec fn is_path(g: Crates, p: Seq<u32>) -> bool {
    p.len() >= 1 && forall|i: int| 0 <= i < p.len() - 1 ==> #[trigger] edge_at(g, p, i)
}

/// Crate `a` depends on crate `b`, directly or through other crates.
pub open spec fn reaches(g: Crates, a: u32, b: u32) -> bool {
    exists|p: Seq<u32>| #[trigger] is_path(g, p) && p.len() >= 2 && p[0] == a && p.last() == b
}

/// No crate depends on itself, directly or through other crates.
pub open spec fn acyclic(g: Crates) -> bool {
    forall|a: u32| !#[trigger] reaches(g, a, a)
}

/// The ids are the numbers below the number of crates, every dependency
/// leads to a crate of the graph, and the graph has no cycle.
pub open spec fn graph_wf(g: Crates) -> bool {
    &&& g.dom().finite()
    &&& forall|k: u32| #[trigger] g.contains_key(k) <==> (k as nat) < g.dom().len()
    &&& forall|a: u32, b: u32| #[trigger] edge(g, a, b) ==> g.contains_key(b)
    &&& acyclic(g)
}

/// The graph with one more dependency of crate `from`, at the end of its list.
pub open spec fn with_dep(g: Crates, from: u32, dep: DependencyView) -> Crates {
    g.insert(
        from,
        CrateView { file_id: g[from].file_id, dependencies: g[from].dependencies.push(dep) },
    )
}

/// `CrateGraph` is a bit of information which turns a set of text files
/// into a number of Rust crates. Each crate is the `FileId` of its root
/// module and the set of its dependencies; several crates may share one
/// root file. The graph never holds a cycle.
#[derive(Debug, Clone, PartialEq, Eq)]
pub struct CrateGraph {
    arena: FxHashMap<u32, CrateData>,
}

impl View for CrateGraph {
    type V = Crates;

    closed spec fn view(&self) -> Crates {
        Map::new(|k: u32| self.arena@.contains_key(k), |k: u32| self.arena@[k]@)
    }
}

impl Default for CrateGraph {
    /// A graph without crates.
    fn default() -> (r: CrateGraph)
        ensures
            r.wf(),
            r@.dom() == Set::<u32>::empty(),
    {
        CrateGraph::new()
    }
}

/// A path that follows edges of `g` follows edges of a graph with more edges.
proof fn lemma_path_mono(g: Crates, g2: Crates, p: Seq<u32>)
    requires
        is_path(g, p),
        forall|a: u32, b: u32| #[trigger] edge(g, a, b) ==> edge(g2, a, b),
    ensures
        is_path(g2, p),
{
    assert forall|i: int| 0 <= i < p.len() - 1 implies #[trigger] edge_at(g2, p, i) by {
        assert(edge_at(g, p, i));
    }
}

/// An edge followed by a path is a path.
proof fn lemma_path_cons(g: Crates, a: u32, p: Seq<u32>)
    requires
        is_path(g, p),
        edge(g, a, p[0]),
    ensures
        is_path(g, seq![a] + p),
        (seq![a] + p).len() == p.len() + 1,
        (seq![a] + p)[0] == a,
        (seq![a] + p).last() == p.last(),
{
    let q = seq![a] + p;
    assert forall|i: int| 0 <= i < q.len() - 1 implies #[trigger] edge_at(g, q, i) by {
        if i > 0 {
            assert(edge_at(g, p, i - 1));
            assert(q[i] == p[i - 1]);
            assert(q[i + 1] == p[i]);
        } else {
            assert(q[1] == p[0]);
        }
    }
}

/// An edge reaches.
proof fn lemma_edge_reaches(g: Crates, a: u32, b: u32)
    requires
        edge(g, a, b),
    ensures
        reaches(g, a, b),
{
    let p = seq![a, b];
    assert(edge_at(g, p, 0));
    assert(is_path(g, p));
}

/// An edge followed by a way on is a way.
proof fn lemma_step_reaches(g: Crates, a: u32, b: u32, c: u32)
    requires
        edge(g, a, b),
        reaches(g, b, c),
    ensures
        reaches(g, a, c),
{
    let p = choose|p: Seq<u32>| #[trigger] is_path(g, p) && p.len() >= 2 && p[0] == b && p.last() == c;
    lemma_path_cons(g, a, p);
    assert(is_path(g, seq![a] + p));
}

/// The tail of a path of two or more crates is a path.
proof fn lemma_path_tail(g: Crates, p: Seq<u32>)
    requires
        is_path(g, p),
        p.len() >= 2,
    ensures
        is_path(g, p.subrange(1, p.len() as int)),
        edge(g, p[0], p[1]),
{
    let q = p.subrange(1, p.len() as int);
    assert(edge_at(g, p, 0));
    assert forall|i: int| 0 <= i < q.len() - 1 implies #[trigger] edge_at(g, q, i) by {
        assert(edge_at(g, p, i + 1));
    }
}

/// Inside a set that is closed under the edges, and from which no edge
/// leads to `target`, no path reaches `target`.
proof fn lemma_closed_set(g: Crates, s: Set<u32>, target: u32, p: Seq<u32>)
    requires
        is_path(g, p),
        p.len() >= 2,
        s.contains(p[0]),
        forall|x: u32, y: u32| s.contains(x) && #[trigger] edge(g, x, y) ==> s.contains(y) && y != target,
    ensures
        p.last() != target,
    decreases p.len(),
{
    lemma_path_tail(g, p);
    let q = p.subrange(1, p.len() as int);
    assert(q[0] == p[1]);
    assert(q.last() == p.last());
    if q.len() >= 2 {
        lemma_closed_set(g, s, target, q);
    }
}

/// A path of the graph with one more edge `from -> to` is a path of the
/// graph without it, or leads from its start to `from` and from `to` to
/// its end without that edge.
proof fn lemma_new_edge_path(g: Crates, g2: Crates, from: u32, to: u32, p: Seq<u32>)
    requires
        is_path(g2, p),
        forall|a: u32, b: u32| #[trigger] edge(g2, a, b) ==> edge(g, a, b) || (a == from && b == to),
    ensures
        is_path(g, p) || ((p[0] == from || reaches(g, p[0], from)) && (p.last() == to || reaches(
            g,
            to,
            p.last(),
        ))),
    decreases p.len(),
{
    if p.len() >= 2 {
        lemma_path_tail(g2, p);
        let q = p.subrange(1, p.len() as int);
        assert(q[0] == p[1]);
        assert(q.last() == p.last());
        lemma_new_edge_path(g, g2, from, to, q);
        if edge(g, p[0], p[1]) {
            if is_path(g, q) {
                lemma_path_cons(g, p[0], q);
                assert(seq![p[0]] + q =~= p);
            } else {
                if q[0] == from {
                    lemma_edge_reaches(g, p[0], from);
                } else {
                    lemma_step_reaches(g, p[0], q[0], from);
                }
            }
        } else {
            if is_path(g, q) {
                if q.len() >= 2 {
                    assert(reaches(g, to, p.last()));
                }
            }
        }
    }
}

/// Two ways, one after the other, are a way.
proof fn lemma_reaches_trans(g: Crates, a: u32, b: u32, c: u32)
    requires
        reaches(g, a, b),
        reaches(g, b, c),
    ensures
        reaches(g, a, c),
{
    let p = choose|p: Seq<u32>| #[trigger] is_path(g, p) && p.len() >= 2 && p[0] == a && p.last() == b;
    lemma_path_then(g, p, c);
}

proof fn lemma_path_then(g: Crates, p: Seq<u32>, c: u32)
    requires
        is_path(g, p),
        p.len() >= 2,
        reaches(g, p.last(), c),
    ensures
        reaches(g, p[0], c),
    decreases p.len(),
{
    lemma_path_tail(g, p);
    let q = p.subrange(1, p.len() as int);
    assert(q[0] == p[1]);
    assert(q.last() == p.last());
    if q.len() >= 2 {
        lemma_path_then(g, q, c);
    }
    lemma_step_reaches(g, p[0], p[1], c);
}

/// A graph without cycles stays so when it gets an edge `from -> to`,
/// where `to` is not `from` and does not reach `from`.
proof fn lemma_add_edge_acyclic(g: Crates, g2: Crates, from: u32, to: u32)
    requires
        acyclic(g),
        from != to,
        !reaches(g, to, from),
        forall|a: u32, b: u32| #[trigger] edge(g2, a, b) ==> edge(g, a, b) || (a == from && b == to),
    ensures
        acyclic(g2),
{
    assert forall|a: u32| !#[trigger] reaches(g2, a, a) by {
        if reaches(g2, a, a) {
            let p = choose|p: Seq<u32>| #[trigger] is_path(g2, p) && p.len() >= 2 && p[0] == a && p.last() == a;
            lemma_new_edge_path(g, g2, from, to, p);
            if is_path(g, p) {
                assert(reaches(g, a, a));
            } else {
                if a != from && a != to {
                    lemma_reaches_trans(g, to, a, from);
                }
            }
        }
    }
}

impl CrateGraph {
    /// The graph is well-formed.
    pub open spec fn wf(&self) -> bool {
        graph_wf(self@)
    }

    /// A graph without crates.
    pub fn new() -> (r: CrateGraph)
        ensures
            r.wf(),
            r@.dom() == Set::<u32>::empty(),
    {
        let g = CrateGraph { arena: fx_map_new() };
        proof {
            assert(g@.dom() =~= Set::empty());
            assert forall|a: u32| !#[trigger] reaches(g@, a, a) by {
                if reaches(g@, a, a) {
                    let p = choose|p: Seq<u32>| #[trigger] is_path(g@, p) && p.len() >= 2 && p[0] == a && p.last() == a;
                    assert(edge_at(g@, p, 0));
                }
            }
        }
        g
    }

    /// Tells whether `crate_id` is a crate of the graph.
    pub fn contains(&self, crate_id: CrateId) -> (r: bool)
        ensures
            r == self@.contains_key(crate_id.0),
    {
        broadcast use vstd::std_specs::hash::group_hash_axioms;
        fx_map_get(&self.arena, &crate_id.0).is_some()
    }

    /// The number of crates.
    pub fn len(&self) -> (r: usize)
        ensures
            r == self@.dom().len(),
    {
        broadcast use vstd::std_specs::hash::group_hash_axioms;
        assert(self@.dom() =~= self.arena@.dom());
        fx_map_len(&self.arena)
    }

    /// Adds a crate whose root module is `file_id`, without dependencies.
    /// Its id is the number of crates that the graph held.
    pub fn add_crate_root(&mut self, file_id: FileId) -> (r: CrateId)
        requires
            old(self).wf(),
            old(self)@.dom().len() <= u32::MAX,
        ensures
            final(self).wf(),
            r.0 == old(self)@.dom().len(),
            final(self)@ == old(self)@.insert(
                r.0,
                CrateView { file_id, dependencies: Seq::empty() },
            ),
    {
        broadcast use vstd::std_specs::hash::group_hash_axioms;
        assert(self@.dom() =~= self.arena@.dom());
        let crate_id = CrateId(fx_map_len(&self.arena) as u32);
        let data = CrateData::new(file_id);
        let _ = fx_map_insert(&mut self.arena, crate_id.0, data);
        proof {
            let g = old(self)@;
            let g2 = self@;
            assert(g2 =~= g.insert(crate_id.0, CrateView { file_id, dependencies: Seq::empty() }));
            assert(g.dom() =~= old(self).arena@.dom());
            assert(g2.dom() =~= g.dom().insert(crate_id.0));
            assert(!g.contains_key(crate_id.0));
            assert forall|a: u32, b: u32| #[trigger] edge(g2, a, b) implies edge(g, a, b) by {
                if a == crate_id.0 {
                    
                }
            }
            assert forall|a: u32| !#[trigger] reaches(g2, a, a) by {
                if reaches(g2, a, a) {
                    let p = choose|p: Seq<u32>| #[trigger] is_path(g2, p) && p.len() >= 2 && p[0] == a && p.last() == a;
                    lemma_path_mono(g2, g, p);
                    assert(reaches(g, a, a));
                }
            }
            assert forall|a: u32, b: u32| #[trigger] edge(g2, a, b) implies g2.contains_key(b) by {
                assert(edge(g, a, b));
            }
        }
        crate_id
    }

    pub fn is_empty(&self) -> (r: bool)
        ensures
            r == (self@.dom().len() == 0),
    {
        broadcast use vstd::std_specs::hash::group_hash_axioms;
        assert(self@.dom() =~= self.arena@.dom());
        fx_map_len(&self.arena) == 0
    }

    /// The root module of a crate of the graph.
    pub fn crate_root(&self, crate_id: CrateId) -> (r: FileId)
        requires
            self@.contains_key(crate_id.0),
        ensures
            r == self@[crate_id.0].file_id,
    {
        broadcast use vstd::std_specs::hash::group_hash_axioms;
        fx_map_get(&self.arena, &crate_id.0).unwrap().file_id
    }

    /// A crate whose root module is `file_id`, if there is one. Where
    /// several crates share the root, which of them comes is not said.
    pub fn crate_id_for_crate_root(&self, file_id: FileId) -> (r: Option<CrateId>)
        ensures
            r matches Some(id) ==> self@.contains_key(id.0) && self@[id.0].file_id == file_id,
            r.is_none() <==> forall|k: u32| #[trigger] self@.contains_key(k) ==> self@[k].file_id != file_id,
    {
        broadcast use vstd::std_specs::hash::group_hash_axioms;
        let keys = fx_map_keys(&self.arena);
        let mut i: usize = 0;
        while i < keys.len()
            invariant
                i <= keys.len(),
                keys@.to_set() == self.arena@.dom(),
                forall|j: int| 0 <= j < i ==> self@[#[trigger] keys@[j]].file_id != file_id,
            decreases keys.len() - i,
        {
            let k = keys[i];
            assert(keys@.to_set().contains(keys@[i as int]));
            let data = fx_map_get(&self.arena, &k).unwrap();
            if data.file_id == file_id {
                assert(self@.contains_key(k) && self@[k].file_id == file_id);
                return Some(CrateId(k));
            }
            i += 1;
        }
        proof {
            assert forall|k: u32| #[trigger] self@.contains_key(k) implies self@[k].file_id != file_id by {
                assert(keys@.to_set().contains(k));
                let j = choose|j: int| 0 <= j < keys@.len() && keys@[j] == k;
            }
        }
        None
    }

    /// Tells whether a dependency of crate `from` on crate `to` would close
    /// a cycle: whether `to` is `from`, or depends on `from` already.
    pub fn creates_cycle(&self, from: CrateId, to: CrateId) -> (r: bool)
        requires
            self.wf(),
            self@.contains_key(to.0),
        ensures
            r == (from == to || reaches(self@, to.0, from.0)),
    {
        if from == to {
            return true;
        }
        let mut visited: FxHashSet<u32> = fx_set_new();
        if self.dfs_find(from, to, &mut visited) {
            return true;
        }
        proof {
            let g = self@;
            if reaches(g, to.0, from.0) {
                let p = choose|p: Seq<u32>| #[trigger] is_path(g, p) && p.len() >= 2 && p[0] == to.0 && p.last() == from.0;
                lemma_closed_set(g, visited@, from.0, p);
            }
        }
        false
    }

    /// Adds the dependency of crate `from` on crate `to`, under `name`, at
    /// the end of the dependencies of `from`. A dependency that would close
    /// a cycle is no input: the graph never holds a cycle.
    pub fn add_dep(&mut self, from: CrateId, name: String, to: CrateId)
        requires
            old(self).wf(),
            old(self)@.contains_key(from.0),
            old(self)@.contains_key(to.0),
            from != to,
            !reaches(old(self)@, to.0, from.0),
        ensures
            final(self).wf(),
            final(self)@ == with_dep(old(self)@, from.0, DependencyView { crate_id: to, name: name@ }),
    {
        broadcast use vstd::std_specs::hash::group_hash_axioms;
        assert(self@.dom() =~= self.arena@.dom());
        match fx_map_get_mut(&mut self.arena, &from.0) {
            Some(data) => {
                data.add_dep(name, to);
            },
            None => {},
        }
        proof {
            let g = old(self)@;
            let g2 = self@;
            let dep = DependencyView { crate_id: to, name: name@ };
            assert(g2 =~= with_dep(g, from.0, dep));
            assert(g2.dom() =~= g.dom());
            assert forall|a: u32, b: u32| #[trigger] edge(g2, a, b) implies edge(g, a, b) || (a == from.0
                && b == to.0) by {
                if a == from.0 {
                    let k = choose|k: int| 0 <= k < g2[a].dependencies.len() && (#[trigger] g2[a].dependencies[k]).crate_id.0 == b;
                    if k < g[a].dependencies.len() {
                        assert(g[a].dependencies[k].crate_id.0 == b);
                    }
                } else {
                    let k = choose|k: int| 0 <= k < g2[a].dependencies.len() && (#[trigger] g2[a].dependencies[k]).crate_id.0 == b;
                    assert(g[a].dependencies[k].crate_id.0 == b);
                }
            }
            lemma_add_edge_acyclic(g, g2, from.0, to.0);
        }
    }

    /// Walks the dependencies of `from`, and theirs, in search of
    /// `target`, and notes in `visited` every crate it comes to. It passes
    /// by a crate that `visited` holds already.
    fn dfs_find(&self, target: CrateId, from: CrateId, visited: &mut FxHashSet<u32>) -> (r: bool)
        requires
            self.wf(),
            self@.contains_key(from.0),
            old(visited)@.finite(),
        ensures
            final(visited)@.finite(),
            old(visited)@.subset_of(final(visited)@),
            final(visited)@.contains(from.0),
            r ==> reaches(self@, from.0, target.0),
            !r ==> forall|x: u32, y: u32|
                final(visited)@.contains(x) && !old(visited)@.contains(x) && #[trigger] edge(self@, x, y)
                    ==> final(visited)@.contains(y) && y != target.0,
        decreases self@.dom().difference(old(visited)@).len(),
    {
        broadcast use vstd::std_specs::hash::group_hash_axioms;
        if !fx_set_insert(visited, from.0) {
            return false;
        }
        let deps = self.dependencies(from);
        let mut i: usize = 0;
        while i < deps.len()
            invariant
                self.wf(),
                self@.contains_key(from.0),
                deps@.map_values(|d: Dependency| d@) == self@[from.0].dependencies,
                i <= deps.len(),
                visited@.finite(),
                old(visited)@.insert(from.0).subset_of(visited@),
                !old(visited)@.contains(from.0),
                forall|x: u32, y: u32|
                    visited@.contains(x) && !old(visited)@.contains(x) && x != from.0 && #[trigger] edge(
                        self@,
                        x,
                        y,
                    ) ==> visited@.contains(y) && y != target.0,
                forall|k: int|
                    0 <= k < i ==> visited@.contains((#[trigger] deps@[k]).crate_id.0) && deps@[k].crate_id.0
                        != target.0,
            decreases deps.len() - i,
        {
            let crate_id = deps[i].crate_id();
            proof {
                assert(self@[from.0].dependencies[i as int] == deps@[i as int]@);
                assert(edge(self@, from.0, crate_id.0));
            }
            if crate_id == target {
                proof {
                    lemma_edge_reaches(self@, from.0, target.0);
                }
                return true;
            }
            proof {
                let all = self@.dom();
                let before = all.difference(old(visited)@);
                let now = all.difference(visited@);
                assert(now.subset_of(before));
                vstd::set_lib::lemma_len_subset(before, all);
                now.lemma_subset_not_in_lt(before, from.0);
            }
            if self.dfs_find(target, crate_id, visited) {
                proof {
                    if crate_id.0 != target.0 {
                        lemma_step_reaches(self@, from.0, crate_id.0, target.0);
                    }
                }
                return true;
            }
            i += 1;
        }
        proof {
            assert forall|x: u32, y: u32|
                visited@.contains(x) && !old(visited)@.contains(x) && #[trigger] edge(self@, x, y) implies visited@.contains(
                y,
            ) && y != target.0 by {
                if x == from.0 {
                    let k = choose|k: int| 0 <= k < self@[x].dependencies.len() && (#[trigger] self@[x].dependencies[k]).crate_id.0 == y;
                    assert(self@[x].dependencies[k] == deps@[k]@);
                }
            }
        }
        false
    }

    /// The dependencies of a crate of the graph, in the order in which
    /// they were added.
    pub fn dependencies(&self, crate_id: CrateId) -> (r: &Vec<Dependency>)
        requires
            self@.contains_key(crate_id.0),
        ensures
            r@.map_values(|d: Dependency| d@) == self@[crate_id.0].dependencies,
    {
        broadcast use vstd::std_specs::hash::group_hash_axioms;
        &fx_map_get(&self.arena, &crate_id.0).unwrap().dependencies
    }
}

} // verus!
