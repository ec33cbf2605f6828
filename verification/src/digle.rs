//! The digle: an immutable directed graph of lines with mirrored
//! forward and backward edge multimaps. Every transformation returns a
//! new value that structurally shares what it did not change; a value,
//! once produced, is never mutated.

use vstd::prelude::*;

use crate::ids::Edge;
use crate::ids::LineId;
use crate::mmap::edges_at;
use crate::mmap::EdgeMultimap;
use crate::persist::line_set_contains;
use crate::persist::line_set_insert;
use crate::persist::line_set_new;
use crate::persist::line_set_view;
use crate::persist::LineSet;

verus! {

/// The mathematical content of a digle: its live lines and, for each
/// direction, a map from line to the edges recorded at it.
pub ghost struct DigleView {
    pub lines: Set<LineId>,
    pub edges: Map<LineId, Seq<Edge>>,
    pub back_edges: Map<LineId, Seq<Edge>>,
}

/// How many edges in `s` point at `d`.
pub open spec fn count_to(s: Seq<Edge>, d: LineId) -> nat
    decreases s.len(),
{
    if s.len() == 0 {
        0
    } else {
        count_to(s.drop_last(), d) + (if s.last().dest == d {
            1nat
        } else {
            0nat
        })
    }
}

impl DigleView {
    /// The graph with no lines and no edges.
    pub open spec fn empty() -> DigleView {
        DigleView { lines: Set::empty(), edges: Map::empty(), back_edges: Map::empty() }
    }

    /// Forward edges leaving `l`, in insertion order.
    pub open spec fn out_edges(self, l: LineId) -> Seq<Edge> {
        edges_at(self.edges, l)
    }

    /// Backward edges arriving at `l`; each holds the source line as
    /// its `dest`.
    pub open spec fn in_edges(self, l: LineId) -> Seq<Edge> {
        edges_at(self.back_edges, l)
    }

    /// The graph with `id` live; everything else as in `self`.
    pub open spec fn add_node(self, id: LineId) -> DigleView {
        DigleView { lines: self.lines.insert(id), ..self }
    }

    /// The graph with one more forward edge `from -> to` and its
    /// mirrored backward edge, both appended together.
    pub open spec fn add_edge(self, from: LineId, to: LineId) -> DigleView {
        DigleView {
            lines: self.lines,
            edges: self.edges.insert(from, self.out_edges(from).push(Edge { dest: to })),
            back_edges: self.back_edges.insert(to, self.in_edges(to).push(Edge { dest: from })),
        }
    }

    /// Well-formedness: every line with an edge is live, every edge
    /// points at a live line, and the two directions mirror each other
    /// exactly: there are as many forward edges `a -> b` as backward
    /// edges recorded at `b` pointing back at `a`.
    pub open spec fn wf(self) -> bool {
        &&& (forall|a: LineId| #![trigger self.out_edges(a)]
            self.out_edges(a).len() > 0 ==> self.lines.contains(a))
        &&& (forall|a: LineId| #![trigger self.in_edges(a)]
            self.in_edges(a).len() > 0 ==> self.lines.contains(a))
        &&& (forall|a: LineId, i: int| #![trigger self.out_edges(a)[i]]
            0 <= i < self.out_edges(a).len() ==> self.lines.contains(self.out_edges(a)[i].dest))
        &&& (forall|a: LineId, i: int| #![trigger self.in_edges(a)[i]]
            0 <= i < self.in_edges(a).len() ==> self.lines.contains(self.in_edges(a)[i].dest))
        &&& (forall|a: LineId, b: LineId|
            #![trigger count_to(self.out_edges(a), b)]
            #![trigger count_to(self.in_edges(b), a)]
            count_to(self.out_edges(a), b) == count_to(self.in_edges(b), a))
    }
}

/// Appending one edge changes the count only for the line it points at.
proof fn lemma_count_push(s: Seq<Edge>, e: Edge, d: LineId)
    ensures
        count_to(s.push(e), d) == count_to(s, d) + (if e.dest == d {
            1nat
        } else {
            0nat
        }),
{
    assert(s.push(e).drop_last() =~= s);
    assert(s.push(e).last() == e);
}

/// The empty graph is well formed.
proof fn lemma_empty_wf()
    ensures
        DigleView::empty().wf(),
{
    let d = DigleView::empty();
    assert(forall|a: LineId| d.out_edges(a) == Seq::<Edge>::empty());
    assert(forall|a: LineId| d.in_edges(a) == Seq::<Edge>::empty());
    assert forall|a: LineId, b: LineId|
        count_to(d.out_edges(a), b) == count_to(d.in_edges(b), a) by {
        assert(count_to(Seq::<Edge>::empty(), b) == 0);
        assert(count_to(Seq::<Edge>::empty(), a) == 0);
    }
}

/// Making a line live adds no edge, so well-formedness is kept.
proof fn lemma_add_node_wf(d: DigleView, id: LineId)
    requires
        d.wf(),
    ensures
        d.add_node(id).wf(),
{
    let d2 = d.add_node(id);
    assert forall|a: LineId| d2.out_edges(a).len() > 0 implies d2.lines.contains(a) by {
        assert(d2.out_edges(a) == d.out_edges(a));
    }
    assert forall|a: LineId| d2.in_edges(a).len() > 0 implies d2.lines.contains(a) by {
        assert(d2.in_edges(a) == d.in_edges(a));
    }
    assert forall|a: LineId, i: int| 0 <= i < d2.out_edges(a).len() implies d2.lines.contains(
        d2.out_edges(a)[i].dest,
    ) by {
        assert(d2.out_edges(a) == d.out_edges(a));
        assert(d.lines.contains(d.out_edges(a)[i].dest));
    }
    assert forall|a: LineId, i: int| 0 <= i < d2.in_edges(a).len() implies d2.lines.contains(
        d2.in_edges(a)[i].dest,
    ) by {
        assert(d2.in_edges(a) == d.in_edges(a));
        assert(d.lines.contains(d.in_edges(a)[i].dest));
    }
    assert forall|a: LineId, b: LineId|
        count_to(d2.out_edges(a), b) == count_to(d2.in_edges(b), a) by {
        assert(d2.out_edges(a) == d.out_edges(a));
        assert(d2.in_edges(b) == d.in_edges(b));
        assert(count_to(d.out_edges(a), b) == count_to(d.in_edges(b), a));
    }
}

/// Appending a mirrored pair of edges between live lines keeps the
/// graph well formed.
proof fn lemma_add_edge_wf(d: DigleView, from: LineId, to: LineId)
    requires
        d.wf(),
        d.lines.contains(from),
        d.lines.contains(to),
    ensures
        d.add_edge(from, to).wf(),
{
    let d2 = d.add_edge(from, to);
    assert forall|a: LineId| d2.out_edges(a).len() > 0 implies d2.lines.contains(a) by {
        if a != from {
            assert(d2.out_edges(a) == d.out_edges(a));
        }
    }
    assert forall|a: LineId| d2.in_edges(a).len() > 0 implies d2.lines.contains(a) by {
        if a != to {
            assert(d2.in_edges(a) == d.in_edges(a));
        }
    }
    assert forall|a: LineId, i: int| 0 <= i < d2.out_edges(a).len() implies d2.lines.contains(
        d2.out_edges(a)[i].dest,
    ) by {
        if a == from {
            assert(d2.out_edges(a) == d.out_edges(from).push(Edge { dest: to }));
            if i < d.out_edges(from).len() {
                assert(d2.out_edges(a)[i] == d.out_edges(from)[i]);
                assert(d.lines.contains(d.out_edges(from)[i].dest));
            } else {
                assert(d2.out_edges(a)[i] == Edge { dest: to });
            }
        } else {
            assert(d2.out_edges(a) == d.out_edges(a));
            assert(d.lines.contains(d.out_edges(a)[i].dest));
        }
    }
    assert forall|a: LineId, i: int| 0 <= i < d2.in_edges(a).len() implies d2.lines.contains(
        d2.in_edges(a)[i].dest,
    ) by {
        if a == to {
            assert(d2.in_edges(a) == d.in_edges(to).push(Edge { dest: from }));
            if i < d.in_edges(to).len() {
                assert(d2.in_edges(a)[i] == d.in_edges(to)[i]);
                assert(d.lines.contains(d.in_edges(to)[i].dest));
            } else {
                assert(d2.in_edges(a)[i] == Edge { dest: from });
            }
        } else {
            assert(d2.in_edges(a) == d.in_edges(a));
            assert(d.lines.contains(d.in_edges(a)[i].dest));
        }
    }
    assert forall|a: LineId, b: LineId|
        count_to(d2.out_edges(a), b) == count_to(d2.in_edges(b), a) by {
        if a == from {
            assert(d2.out_edges(a) == d.out_edges(from).push(Edge { dest: to }));
            lemma_count_push(d.out_edges(from), Edge { dest: to }, b);
        } else {
            assert(d2.out_edges(a) == d.out_edges(a));
        }
        if b == to {
            assert(d2.in_edges(b) == d.in_edges(to).push(Edge { dest: from }));
            lemma_count_push(d.in_edges(to), Edge { dest: from }, a);
        } else {
            assert(d2.in_edges(b) == d.in_edges(b));
        }
        assert(count_to(d.out_edges(a), b) == count_to(d.in_edges(b), a));
    }
}


/// A line that is not live has no edges in either direction.
pub proof fn lemma_absent_line_has_no_edges(d: DigleView, l: LineId)
    requires
        d.wf(),
        !d.lines.contains(l),
    ensures
        d.out_edges(l) == Seq::<Edge>::empty(),
        d.in_edges(l) == Seq::<Edge>::empty(),
{
    if d.out_edges(l).len() > 0 {
        assert(d.lines.contains(l));
    }
    if d.in_edges(l).len() > 0 {
        assert(d.lines.contains(l));
    }
    assert(d.out_edges(l) =~= Seq::<Edge>::empty());
    assert(d.in_edges(l) =~= Seq::<Edge>::empty());
}

/// After `add_edge(a, b)` the new graph shows the edge: forward at `a`
/// and mirrored backward at `b`.
pub proof fn lemma_add_edge_connects(d: DigleView, a: LineId, b: LineId)
    requires
        d.lines.contains(a),
        d.lines.contains(b),
    ensures
        d.add_edge(a, b).out_edges(a).contains(Edge { dest: b }),
        d.add_edge(a, b).in_edges(b).contains(Edge { dest: a }),
{
    let d2 = d.add_edge(a, b);
    assert(d2.out_edges(a) == d.out_edges(a).push(Edge { dest: b }));
    assert(d2.out_edges(a)[d.out_edges(a).len() as int] == Edge { dest: b });
    assert(d2.in_edges(b) == d.in_edges(b).push(Edge { dest: a }));
    assert(d2.in_edges(b)[d.in_edges(b).len() as int] == Edge { dest: a });
}

/// `add_node` is idempotent: adding a line a second time leaves the
/// lines exactly as after the first time.
pub proof fn lemma_add_node_idempotent(d: DigleView, x: LineId)
    ensures
        d.add_node(x).lines == d.add_node(x).add_node(x).lines,
{
    assert(d.add_node(x).lines =~= d.add_node(x).add_node(x).lines);
}

/// Derivation is pure: the derived graph differs from its parent only
/// where the operation says, so everything recorded in the parent
/// reads back unchanged through the derived value.
pub proof fn lemma_derived_graph_frame(d: DigleView, from: LineId, to: LineId, l: LineId)
    ensures
        d.add_edge(from, to).lines == d.lines,
        l != from ==> d.add_edge(from, to).out_edges(l) == d.out_edges(l),
        l != to ==> d.add_edge(from, to).in_edges(l) == d.in_edges(l),
        d.add_node(from).out_edges(l) == d.out_edges(l),
        d.add_node(from).in_edges(l) == d.in_edges(l),
{
}

/// An immutable directed graph of lines. Derivations (`add_node`,
/// `add_edge`) return a new graph and leave `self` exactly as it was;
/// the two values share the substructure that did not change.
#[derive(Clone)]
pub struct Digle {
    lines: LineSet,
    edges: EdgeMultimap,
    back_edges: EdgeMultimap,
}

impl View for Digle {
    type V = DigleView;

    closed spec fn view(&self) -> DigleView {
        DigleView {
            lines: line_set_view(self.lines),
            edges: self.edges@,
            back_edges: self.back_edges@,
        }
    }
}

impl Digle {
    /// The empty graph: no lines, no edges.
    pub fn new() -> (r: Digle)
        ensures
            r@ == DigleView::empty(),
            r@.wf(),
    {
        let r = Digle {
            lines: line_set_new(),
            edges: EdgeMultimap::new(),
            back_edges: EdgeMultimap::new(),
        };
        proof {
            lemma_empty_wf();
        }
        r
    }

    /// Whether `id` is a live line of this graph. `add_edge` demands
    /// live ends, so callers validate ids here before connecting them.
    pub fn contains_line(&self, id: &LineId) -> (r: bool)
        ensures
            r == self@.lines.contains(*id),
    {
        line_set_contains(&self.lines, id)
    }

    /// All forward edges leaving `line`, in insertion order; empty when
    /// `line` has none or is not even live.
    pub fn out_edges(&self, line: LineId) -> (r: Vec<Edge>)
        ensures
            r@ == self@.out_edges(line),
    {
        self.edges.get(&line)
    }

    /// All backward edges arriving at `line`, each holding its source
    /// line as `dest`; empty when `line` has none or is not even live.
    pub fn in_edges(&self, line: LineId) -> (r: Vec<Edge>)
        ensures
            r@ == self@.in_edges(line),
    {
        self.back_edges.get(&line)
    }

    /// A new graph with `id` live and the edges unchanged; `self` is
    /// untouched. Adding a line that is already live changes nothing
    /// (set semantics), so the operation is idempotent.
    pub fn add_node(&self, id: LineId) -> (r: Digle)
        ensures
            r@ == self@.add_node(id),
            self@.wf() ==> r@.wf(),
    {
        let r = Digle {
            lines: line_set_insert(&self.lines, id),
            edges: self.edges.duplicate(),
            back_edges: self.back_edges.duplicate(),
        };
        proof {
            if self@.wf() {
                lemma_add_node_wf(self@, id);
            }
        }
        r
    }

    /// A new graph with a forward edge `from -> to` and its mirrored
    /// backward edge appended together, so the mirror invariant never
    /// breaks, even transiently; `self` is untouched. Both ends must
    /// already be live. Repeating a pair accumulates another copy of
    /// the edge.
    pub fn add_edge(&self, from: LineId, to: LineId) -> (r: Digle)
        requires
            self@.lines.contains(from),
            self@.lines.contains(to),
        ensures
            r@ == self@.add_edge(from, to),
            self@.wf() ==> r@.wf(),
    {
        if !self.contains_line(&from) || !self.contains_line(&to) {
            vstd::pervasive::unreached()
        } else {
            let r = Digle {
                lines: self.lines.clone(),
                edges: self.edges.insert(from, Edge { dest: to }),
                back_edges: self.back_edges.insert(to, Edge { dest: from }),
            };
            proof {
                if self@.wf() {
                    lemma_add_edge_wf(self@, from, to);
                }
            }
            r
        }
    }
}

} // verus!

