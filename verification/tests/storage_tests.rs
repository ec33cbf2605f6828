use libjp::Digle;
use libjp::Edge;
use libjp::INode;
use libjp::LineId;
use libjp::Storage;

fn line(n: u64) -> LineId {
    LineId { n }
}

fn inode(n: u64) -> INode {
    INode { n }
}

#[test]
fn contents_round_trip() {
    let mut s = Storage::new();
    s.add_contents(line(1), b"first line".to_vec());
    s.add_contents(line(2), Vec::new());
    assert_eq!(s.contents(line(1)), b"first line".to_vec());
    assert_eq!(s.contents(line(2)), Vec::<u8>::new());
}

#[test]
fn unknown_branch_is_ordinary_absence() {
    let s = Storage::new();
    assert_eq!(s.inode("main"), None);
}

#[test]
fn pointer_history_returns_previous_head() {
    let mut s = Storage::new();
    assert_eq!(s.set_inode("b", inode(1)), None);
    assert_eq!(s.set_inode("b", inode(2)), Some(inode(1)));
    assert_eq!(s.inode("b"), Some(inode(2)));
}

#[test]
fn branches_move_independently() {
    let mut s = Storage::new();
    s.set_inode("main", inode(1));
    s.set_inode("topic", inode(2));
    assert_eq!(s.set_inode("topic", inode(3)), Some(inode(2)));
    assert_eq!(s.inode("main"), Some(inode(1)));
    assert_eq!(s.inode("topic"), Some(inode(3)));
}

#[test]
fn published_snapshots_are_structurally_independent() {
    let mut s = Storage::new();
    let d0 = Digle::new().add_node(line(1)).add_node(line(2)).add_node(line(3));
    let d1 = d0.add_edge(line(1), line(2));
    let d2 = d0.add_edge(line(1), line(3));
    s.add_digle(inode(0), d0);
    s.add_digle(inode(1), d1);
    s.add_digle(inode(2), d2);

    assert_eq!(s.digle(inode(0)).out_edges(line(1)), vec![]);
    assert_eq!(s.digle(inode(0)).in_edges(line(2)), vec![]);
    assert_eq!(
        s.digle(inode(1)).out_edges(line(1)),
        vec![Edge { dest: line(2) }]
    );
    assert_eq!(
        s.digle(inode(2)).out_edges(line(1)),
        vec![Edge { dest: line(3) }]
    );
}

#[test]
fn end_to_end_branch_scenario() {
    let mut s = Storage::new();
    let d0 = Digle::new().add_node(line(1)).add_node(line(2));
    let d1 = d0.add_edge(line(1), line(2));
    s.add_digle(inode(1), d1);
    s.set_inode("main", inode(1));

    let head = s.inode("main").unwrap();
    let graph = s.digle(head);
    assert_eq!(graph.out_edges(line(1)), vec![Edge { dest: line(2) }]);
    assert_eq!(graph.in_edges(line(2)), vec![Edge { dest: line(1) }]);
}

#[test]
fn snapshot_reads_back_whole_graph() {
    let mut s = Storage::new();
    let d = Digle::new().add_node(line(1)).add_node(line(2));
    let d = d.add_edge(line(1), line(2)).add_edge(line(2), line(1));
    s.add_digle(inode(7), d);

    let back = s.digle(inode(7));
    assert!(back.contains_line(&line(1)));
    assert!(back.contains_line(&line(2)));
    assert!(!back.contains_line(&line(3)));
    assert_eq!(back.out_edges(line(1)), vec![Edge { dest: line(2) }]);
    assert_eq!(back.out_edges(line(2)), vec![Edge { dest: line(1) }]);
    assert_eq!(back.in_edges(line(1)), vec![Edge { dest: line(2) }]);
    assert_eq!(back.in_edges(line(2)), vec![Edge { dest: line(1) }]);
}
