//! The trusted boundary around `rpds`, the persistent-collection crate
//! that gives this layer copy-on-write maps and sets with structural
//! sharing. Every function here is `external_body`: Verus believes the
//! stated contract and does not look at the call. Each struct hides one
//! concrete `rpds` collection; what it holds is named by an
//! uninterpreted view function, and the wrappers state over that view
//! what the `rpds` source shows: `insert` returns a fresh collection
//! with one association added and leaves the old value untouched, `get`
//! and `contains` report exactly what is associated.

use vstd::prelude::*;

use crate::digle::Digle;
use crate::digle::DigleView;
use crate::ids::Edge;
use crate::ids::INode;
use crate::ids::LineId;

verus! {

/// Persistent set of live lines, backed by `rpds::RedBlackTreeSet`.
#[verifier::external_body]
pub struct LineSet {
    set: rpds::RedBlackTreeSet<LineId>,
}

/// The lines a `LineSet` holds.
pub uninterp spec fn line_set_view(s: LineSet) -> Set<LineId>;

impl Clone for LineSet {
    /// Relies on `Clone` for `rpds::RedBlackTreeSet`: a cheap handle
    /// copy that holds the same elements.
    #[verifier::external_body]
    fn clone(&self) -> (r: Self)
        ensures
            line_set_view(r) == line_set_view(*self),
    {
        LineSet { set: self.set.clone() }
    }
}

/// Relies on `rpds::RedBlackTreeSet::new`: the empty set.
#[verifier::external_body]
pub(crate) fn line_set_new() -> (r: LineSet)
    ensures
        line_set_view(r) == Set::<LineId>::empty(),
{
    LineSet { set: rpds::RedBlackTreeSet::new() }
}

/// Relies on `rpds::RedBlackTreeSet::insert`: a fresh set holding the
/// old elements plus `id`; the old set is not touched.
#[verifier::external_body]
pub(crate) fn line_set_insert(s: &LineSet, id: LineId) -> (r: LineSet)
    ensures
        line_set_view(r) == line_set_view(*s).insert(id),
{
    LineSet { set: s.set.insert(id) }
}

/// Relies on `rpds::RedBlackTreeSet::contains`.
#[verifier::external_body]
pub(crate) fn line_set_contains(s: &LineSet, id: &LineId) -> (r: bool)
    ensures
        r == line_set_view(*s).contains(*id),
{
    s.set.contains(id)
}

/// Persistent map from source line to its recorded edge list, backed by
/// `rpds::RedBlackTreeMap`; one of these carries one direction of a
/// digle's edges.
#[verifier::external_body]
pub struct EdgeTable {
    map: rpds::RedBlackTreeMap<LineId, Vec<Edge>>,
}

impl Clone for EdgeTable {
    /// Relies on `Clone` for `rpds::RedBlackTreeMap`: a cheap handle
    /// copy that holds the same associations.
    #[verifier::external_body]
    fn clone(&self) -> (r: Self)
        ensures
            edge_table_view(r) == edge_table_view(*self),
    {
        EdgeTable { map: self.map.clone() }
    }
}

/// The associations an `EdgeTable` holds, each edge list as a sequence.
pub uninterp spec fn edge_table_view(t: EdgeTable) -> Map<LineId, Seq<Edge>>;

/// The view of an edge table with nothing in it.
pub open spec fn edge_table_empty() -> Map<LineId, Seq<Edge>> {
    Map::empty()
}

/// Relies on `rpds::RedBlackTreeMap::new`: the empty map.
#[verifier::external_body]
pub(crate) fn edge_table_new() -> (r: EdgeTable)
    ensures
        edge_table_view(r) == edge_table_empty(),
{
    EdgeTable { map: rpds::RedBlackTreeMap::new() }
}

/// Relies on `rpds::RedBlackTreeMap::get`: the value associated with
/// `k`, if there is one (returned as a copy).
#[verifier::external_body]
pub(crate) fn edge_table_get(t: &EdgeTable, k: &LineId) -> (r: Option<Vec<Edge>>)
    ensures
        match r {
            Some(v) => edge_table_view(*t).dom().contains(*k) && v@ == edge_table_view(*t)[*k],
            None => !edge_table_view(*t).dom().contains(*k),
        },
{
    t.map.get(k).cloned()
}

/// Relies on `rpds::RedBlackTreeMap::insert`: a fresh map in which `k`
/// is associated with `v` and every other key keeps its association;
/// the old map is not touched.
#[verifier::external_body]
pub(crate) fn edge_table_insert(t: &EdgeTable, k: LineId, v: Vec<Edge>) -> (r: EdgeTable)
    ensures
        edge_table_view(r) == edge_table_view(*t).insert(k, v@),
{
    EdgeTable { map: t.map.insert(k, v) }
}

/// Persistent map from line to its registered byte contents, backed by
/// `rpds::RedBlackTreeMap`.
#[verifier::external_body]
pub struct ContentTable {
    map: rpds::RedBlackTreeMap<LineId, Vec<u8>>,
}

/// The associations a `ContentTable` holds.
pub uninterp spec fn content_table_view(t: ContentTable) -> Map<LineId, Seq<u8>>;

/// The view of a content table with nothing in it.
pub open spec fn content_table_empty() -> Map<LineId, Seq<u8>> {
    Map::empty()
}

/// Relies on `rpds::RedBlackTreeMap::new`: the empty map.
#[verifier::external_body]
pub(crate) fn content_table_new() -> (r: ContentTable)
    ensures
        content_table_view(r) == content_table_empty(),
{
    ContentTable { map: rpds::RedBlackTreeMap::new() }
}

/// Relies on `rpds::RedBlackTreeMap::get`: the value associated with
/// `k`, if there is one (returned as a copy).
#[verifier::external_body]
pub(crate) fn content_table_get(t: &ContentTable, k: &LineId) -> (r: Option<Vec<u8>>)
    ensures
        match r {
            Some(v) => content_table_view(*t).dom().contains(*k) && v@ == content_table_view(
                *t,
            )[*k],
            None => !content_table_view(*t).dom().contains(*k),
        },
{
    t.map.get(k).cloned()
}

/// Relies on `rpds::RedBlackTreeMap::contains_key`.
#[verifier::external_body]
pub(crate) fn content_table_contains(t: &ContentTable, k: &LineId) -> (r: bool)
    ensures
        r == content_table_view(*t).dom().contains(*k),
{
    t.map.contains_key(k)
}

/// Relies on `rpds::RedBlackTreeMap::insert`: a fresh map in which `k`
/// is associated with `v` and every other key keeps its association;
/// the old map is not touched.
#[verifier::external_body]
pub(crate) fn content_table_insert(t: &ContentTable, k: LineId, v: Vec<u8>) -> (r: ContentTable)
    ensures
        content_table_view(r) == content_table_view(*t).insert(k, v@),
{
    ContentTable { map: t.map.insert(k, v) }
}

/// Persistent map from branch name to the snapshot its head points at,
/// backed by `rpds::RedBlackTreeMap`.
#[verifier::external_body]
pub struct BranchTable {
    map: rpds::RedBlackTreeMap<String, INode>,
}

/// The associations a `BranchTable` holds.
pub uninterp spec fn branch_table_view(t: BranchTable) -> Map<Seq<char>, INode>;

/// The view of a branch table with nothing in it.
pub open spec fn branch_table_empty() -> Map<Seq<char>, INode> {
    Map::empty()
}

/// Relies on `rpds::RedBlackTreeMap::new`: the empty map.
#[verifier::external_body]
pub(crate) fn branch_table_new() -> (r: BranchTable)
    ensures
        branch_table_view(r) == branch_table_empty(),
{
    BranchTable { map: rpds::RedBlackTreeMap::new() }
}

/// Relies on `rpds::RedBlackTreeMap::get`: the value associated with
/// `k`, if there is one.
#[verifier::external_body]
pub(crate) fn branch_table_get(t: &BranchTable, k: &str) -> (r: Option<INode>)
    ensures
        match r {
            Some(i) => branch_table_view(*t).dom().contains(k@) && i == branch_table_view(*t)[k@],
            None => !branch_table_view(*t).dom().contains(k@),
        },
{
    t.map.get(k).copied()
}

/// Relies on `rpds::RedBlackTreeMap::insert`: a fresh map in which `k`
/// is associated with `v` and every other key keeps its association;
/// the old map is not touched.
#[verifier::external_body]
pub(crate) fn branch_table_insert(t: &BranchTable, k: &str, v: INode) -> (r: BranchTable)
    ensures
        branch_table_view(r) == branch_table_view(*t).insert(k@, v),
{
    BranchTable { map: t.map.insert(k.to_owned(), v) }
}

/// Persistent map from snapshot handle to the published graph, backed
/// by `rpds::RedBlackTreeMap`.
#[verifier::external_body]
pub struct SnapshotTable {
    map: rpds::RedBlackTreeMap<INode, Digle>,
}

/// The associations a `SnapshotTable` holds, each graph by its view.
pub uninterp spec fn snapshot_table_view(t: SnapshotTable) -> Map<INode, DigleView>;

/// The view of a snapshot table with nothing in it.
pub open spec fn snapshot_table_empty() -> Map<INode, DigleView> {
    Map::empty()
}

/// Relies on `rpds::RedBlackTreeMap::new`: the empty map.
#[verifier::external_body]
pub(crate) fn snapshot_table_new() -> (r: SnapshotTable)
    ensures
        snapshot_table_view(r) == snapshot_table_empty(),
{
    SnapshotTable { map: rpds::RedBlackTreeMap::new() }
}

/// Relies on `rpds::RedBlackTreeMap::get` and on `Clone` for the stored
/// graph (a handle copy with the same contents): the graph associated
/// with `k`, if there is one.
#[verifier::external_body]
pub(crate) fn snapshot_table_get(t: &SnapshotTable, k: &INode) -> (r: Option<Digle>)
    ensures
        match r {
            Some(d) => snapshot_table_view(*t).dom().contains(*k) && d@ == snapshot_table_view(
                *t,
            )[*k],
            None => !snapshot_table_view(*t).dom().contains(*k),
        },
{
    t.map.get(k).cloned()
}

/// Relies on `rpds::RedBlackTreeMap::contains_key`.
#[verifier::external_body]
pub(crate) fn snapshot_table_contains(t: &SnapshotTable, k: &INode) -> (r: bool)
    ensures
        r == snapshot_table_view(*t).dom().contains(*k),
{
    t.map.contains_key(k)
}

/// Relies on `rpds::RedBlackTreeMap::insert`: a fresh map in which `k`
/// is associated with `v` and every other key keeps its association;
/// the old map is not touched.
#[verifier::external_body]
pub(crate) fn snapshot_table_insert(t: &SnapshotTable, k: INode, v: Digle) -> (r: SnapshotTable)
    ensures
        snapshot_table_view(r) == snapshot_table_view(*t).insert(k, v@),
{
    SnapshotTable { map: t.map.insert(k, v) }
}

} // verus!
