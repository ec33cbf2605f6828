//! A persistent multimap from source line to edges: the edge-list side
//! of a digle. One key maps to the whole collection of edges inserted
//! for it; inserting produces a new value and never touches the old
//! one, so two graphs derived from a common ancestor share what they
//! have not changed.

use vstd::prelude::*;

use crate::ids::Edge;
use crate::ids::LineId;
use crate::persist::edge_table_empty;
use crate::persist::edge_table_get;
use crate::persist::edge_table_insert;
use crate::persist::edge_table_new;
use crate::persist::edge_table_view;
use crate::persist::EdgeTable;

verus! {

/// The edges recorded at `l` in `m`: the stored sequence, or the empty
/// sequence when `l` was never inserted for. Querying an unknown key
/// is ordinary, not an error.
pub open spec fn edges_at(m: Map<LineId, Seq<Edge>>, l: LineId) -> Seq<Edge> {
    if m.dom().contains(l) {
        m[l]
    } else {
        Seq::empty()
    }
}

/// Persistent multimap from line to edges. Its view is a map from each
/// inserted-for line to the sequence of its edges, in insertion order;
/// duplicate insertions accumulate.
#[derive(Clone)]
pub struct EdgeMultimap {
    table: EdgeTable,
}

impl View for EdgeMultimap {
    type V = Map<LineId, Seq<Edge>>;

    closed spec fn view(&self) -> Map<LineId, Seq<Edge>> {
        edge_table_view(self.table)
    }
}

impl EdgeMultimap {
    /// The empty multimap.
    pub fn new() -> (r: EdgeMultimap)
        ensures
            r@ == edge_table_empty(),
    {
        EdgeMultimap { table: edge_table_new() }
    }

    /// All edges recorded at `l`, in insertion order; empty when none
    /// were.
    pub fn get(&self, l: &LineId) -> (r: Vec<Edge>)
        ensures
            r@ == edges_at(self@, *l),
    {
        match edge_table_get(&self.table, l) {
            Some(v) => v,
            None => Vec::new(),
        }
    }

    /// A new multimap with `e` appended to the edges at `l`; `self` is
    /// unchanged.
    pub fn insert(&self, l: LineId, e: Edge) -> (r: EdgeMultimap)
        ensures
            r@ == self@.insert(l, edges_at(self@, l).push(e)),
    {
        let mut v: Vec<Edge> = self.get(&l);
        v.push(e);
        EdgeMultimap { table: edge_table_insert(&self.table, l, v) }
    }

    /// A copy that shares its whole structure with `self` and holds the
    /// same edges.
    pub fn duplicate(&self) -> (r: EdgeMultimap)
        ensures
            r@ == self@,
    {
        EdgeMultimap { table: self.table.clone() }
    }
}

} // verus!
