use libjp::Digle;
use libjp::Edge;
use libjp::LineId;

fn line(n: u64) -> LineId {
    LineId { n }
}

#[test]
fn empty_graph_has_no_edges() {
    let d = Digle::new();
    assert_eq!(d.out_edges(line(1)), vec![]);
    assert_eq!(d.in_edges(line(1)), vec![]);
    assert!(!d.contains_line(&line(1)));
}

#[test]
fn unregistered_line_yields_empty_sequences() {
    let d = Digle::new().add_node(line(1)).add_node(line(2));
    let d = d.add_edge(line(1), line(2));
    assert!(!d.contains_line(&line(9)));
    assert_eq!(d.out_edges(line(9)), vec![]);
    assert_eq!(d.in_edges(line(9)), vec![]);
}

#[test]
fn add_edge_shows_forward_and_mirrored_backward() {
    let d = Digle::new().add_node(line(1)).add_node(line(2));
    let d2 = d.add_edge(line(1), line(2));
    assert!(d2.out_edges(line(1)).contains(&Edge { dest: line(2) }));
    assert!(d2.in_edges(line(2)).contains(&Edge { dest: line(1) }));
}

#[test]
fn add_node_is_idempotent() {
    let once = Digle::new().add_node(line(5));
    let twice = once.add_node(line(5));
    assert!(once.contains_line(&line(5)));
    assert!(twice.contains_line(&line(5)));
    assert_eq!(once.out_edges(line(5)), twice.out_edges(line(5)));
    assert_eq!(once.in_edges(line(5)), twice.in_edges(line(5)));
}

#[test]
fn derivation_leaves_parent_unchanged() {
    let base = Digle::new().add_node(line(1)).add_node(line(2)).add_node(line(3));
    let parent = base.add_edge(line(1), line(2));
    let before_out = parent.out_edges(line(1));
    let before_in = parent.in_edges(line(2));

    let child_edge = parent.add_edge(line(1), line(3));
    let child_node = parent.add_node(line(4));

    assert_eq!(parent.out_edges(line(1)), before_out);
    assert_eq!(parent.in_edges(line(2)), before_in);
    assert!(!parent.contains_line(&line(4)));
    assert_eq!(parent.out_edges(line(3)), vec![]);

    assert_eq!(child_edge.out_edges(line(1)).len(), 2);
    assert!(child_node.contains_line(&line(4)));
    assert_eq!(child_node.out_edges(line(1)), before_out);
    assert_eq!(child_node.in_edges(line(2)), before_in);
}

#[test]
fn divergent_successors_accumulate_in_insertion_order() {
    let d = Digle::new().add_node(line(1)).add_node(line(2)).add_node(line(3));
    let d = d.add_edge(line(1), line(2)).add_edge(line(1), line(3));
    assert_eq!(
        d.out_edges(line(1)),
        vec![Edge { dest: line(2) }, Edge { dest: line(3) }]
    );
    assert_eq!(d.in_edges(line(2)), vec![Edge { dest: line(1) }]);
    assert_eq!(d.in_edges(line(3)), vec![Edge { dest: line(1) }]);
}

#[test]
fn duplicate_edge_accumulates() {
    let d = Digle::new().add_node(line(1)).add_node(line(2));
    let d = d.add_edge(line(1), line(2)).add_edge(line(1), line(2));
    assert_eq!(
        d.out_edges(line(1)),
        vec![Edge { dest: line(2) }, Edge { dest: line(2) }]
    );
    assert_eq!(
        d.in_edges(line(2)),
        vec![Edge { dest: line(1) }, Edge { dest: line(1) }]
    );
}

#[test]
fn self_edge_is_mirrored_on_the_same_line() {
    let d = Digle::new().add_node(line(1));
    let d = d.add_edge(line(1), line(1));
    assert_eq!(d.out_edges(line(1)), vec![Edge { dest: line(1) }]);
    assert_eq!(d.in_edges(line(1)), vec![Edge { dest: line(1) }]);
}
