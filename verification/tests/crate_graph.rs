use ra_core::input::{CrateData, CrateGraph, CrateId, Dependency, FileId, SourceRoot, SourceRootId};
use relative_path::RelativePathBuf;

/// Adds a dependency, and fails where it would close a cycle.
fn add_dep(graph: &mut CrateGraph, from: CrateId, name: &str, to: CrateId) {
    assert!(graph.contains(from) && graph.contains(to));
    if graph.creates_cycle(from, to) {
        panic!("Cycle dependencies found.")
    }
    graph.add_dep(from, String::from(name), to)
}

#[test]
#[should_panic]
fn it_should_painc_because_of_cycle_dependencies() {
    let mut graph = CrateGraph::default();
    let crate1 = graph.add_crate_root(FileId(1u32));
    let crate2 = graph.add_crate_root(FileId(2u32));
    let crate3 = graph.add_crate_root(FileId(3u32));
    add_dep(&mut graph, crate1, "crate2", crate2);
    add_dep(&mut graph, crate2, "crate3", crate3);
    add_dep(&mut graph, crate3, "crate1", crate1);
}

#[test]
fn it_works() {
    let mut graph = CrateGraph::new();
    let crate1 = graph.add_crate_root(FileId(1u32));
    let crate2 = graph.add_crate_root(FileId(2u32));
    let crate3 = graph.add_crate_root(FileId(3u32));
    add_dep(&mut graph, crate1, "crate2", crate2);
    add_dep(&mut graph, crate2, "crate3", crate3);
    assert_eq!(graph.dependencies(crate1).len(), 1);
    assert_eq!(graph.dependencies(crate2).len(), 1);
}

#[test]
fn ids_are_dense_from_zero() {
    let mut graph = CrateGraph::new();
    assert!(graph.is_empty());
    assert_eq!(graph.len(), 0);
    assert_eq!(graph.add_crate_root(FileId(7)), CrateId(0));
    assert_eq!(graph.add_crate_root(FileId(7)), CrateId(1));
    assert_eq!(graph.add_crate_root(FileId(9)), CrateId(2));
    assert!(!graph.is_empty());
    assert_eq!(graph.len(), 3);
    assert!(graph.contains(CrateId(2)));
    assert!(!graph.contains(CrateId(3)));
    assert_eq!(graph.crate_root(CrateId(0)), FileId(7));
    assert_eq!(graph.crate_root(CrateId(2)), FileId(9));
}

#[test]
fn an_edge_that_closes_a_cycle_is_told() {
    let mut graph = CrateGraph::new();
    let crate1 = graph.add_crate_root(FileId(1));
    let crate2 = graph.add_crate_root(FileId(2));
    let crate3 = graph.add_crate_root(FileId(3));
    assert!(!graph.creates_cycle(crate1, crate2));
    add_dep(&mut graph, crate1, "crate2", crate2);
    assert!(!graph.creates_cycle(crate2, crate3));
    add_dep(&mut graph, crate2, "crate3", crate3);
    let before = graph.clone();
    assert!(graph.creates_cycle(crate3, crate1));
    assert!(graph.creates_cycle(crate2, crate1));
    assert!(graph.creates_cycle(crate3, crate2));
    // the test changes nothing
    assert_eq!(graph, before);
    assert!(graph.dependencies(crate3).is_empty());
    // an edge that closes no cycle can be added, also beside a longer way
    assert!(!graph.creates_cycle(crate1, crate3));
    add_dep(&mut graph, crate1, "crate3", crate3);
    assert_ne!(graph, before);
}

#[test]
fn the_way_back_between_two_crates_closes_a_cycle() {
    let mut graph = CrateGraph::new();
    let a = graph.add_crate_root(FileId(1));
    let b = graph.add_crate_root(FileId(2));
    assert!(!graph.creates_cycle(b, a));
    add_dep(&mut graph, a, "b", b);
    assert!(graph.creates_cycle(b, a));
    // a second edge the same way closes none
    assert!(!graph.creates_cycle(a, b));
}

#[test]
fn a_crate_cannot_depend_on_itself() {
    let mut graph = CrateGraph::new();
    let crate1 = graph.add_crate_root(FileId(1));
    assert!(graph.creates_cycle(crate1, crate1));
    assert!(graph.dependencies(crate1).is_empty());
}

#[test]
fn dependencies_come_in_the_order_of_insertion() {
    let mut graph = CrateGraph::new();
    let a = graph.add_crate_root(FileId(1));
    let b = graph.add_crate_root(FileId(2));
    let c = graph.add_crate_root(FileId(3));
    add_dep(&mut graph, a, "c", c);
    add_dep(&mut graph, a, "b", b);
    // the same crate under a second name is a second edge
    add_dep(&mut graph, a, "sea", c);
    let deps = graph.dependencies(a);
    assert_eq!(
        deps,
        &vec![
            Dependency { crate_id: c, name: String::from("c") },
            Dependency { crate_id: b, name: String::from("b") },
            Dependency { crate_id: c, name: String::from("sea") },
        ]
    );
    assert_eq!(deps[0].crate_id(), c);
    assert!(graph.dependencies(b).is_empty());
}

#[test]
fn a_diamond_is_no_cycle() {
    let mut graph = CrateGraph::new();
    let top = graph.add_crate_root(FileId(1));
    let left = graph.add_crate_root(FileId(2));
    let right = graph.add_crate_root(FileId(3));
    let bottom = graph.add_crate_root(FileId(4));
    add_dep(&mut graph, top, "left", left);
    add_dep(&mut graph, top, "right", right);
    add_dep(&mut graph, left, "bottom", bottom);
    add_dep(&mut graph, right, "bottom", bottom);
    assert!(graph.creates_cycle(bottom, top));
    assert!(graph.creates_cycle(bottom, left));
    assert!(!graph.creates_cycle(left, right));
}

#[test]
fn crate_for_a_root_file() {
    let mut graph = CrateGraph::new();
    assert_eq!(graph.crate_id_for_crate_root(FileId(1)), None);
    let a = graph.add_crate_root(FileId(1));
    let b = graph.add_crate_root(FileId(2));
    let c = graph.add_crate_root(FileId(2));
    assert_eq!(graph.crate_id_for_crate_root(FileId(1)), Some(a));
    let found = graph.crate_id_for_crate_root(FileId(2)).unwrap();
    assert!(found == b || found == c);
    assert_eq!(graph.crate_id_for_crate_root(FileId(3)), None);
}

#[test]
fn crate_data() {
    let mut data = CrateData::new(FileId(4));
    assert_eq!(data.file_id, FileId(4));
    assert!(data.dependencies.is_empty());
    data.add_dep(String::from("std"), CrateId(1));
    assert_eq!(data.dependencies, vec![Dependency { crate_id: CrateId(1), name: String::from("std") }]);
}

#[test]
fn source_roots_hold_files_by_path() {
    let mut root = SourceRoot::default();
    root.files.insert(RelativePathBuf::from("src/lib.rs"), FileId(1));
    assert_eq!(root.files.get(&RelativePathBuf::from("src/lib.rs")), Some(&FileId(1)));
    assert_eq!(root.clone(), root);
    assert!(SourceRootId(1) < SourceRootId(2));
}
