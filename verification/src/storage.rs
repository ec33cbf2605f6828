//! The repository root: a content table (line to bytes), a branch
//! table (name to snapshot handle) and a snapshot table (handle to
//! digle). Only these top-level pointers ever change; every value they
//! point at is immutable, so readers never observe a partial write.
//! Contents are write-once and the snapshot table is append-only; a
//! branch pointer is the one entry that may be overwritten.

use vstd::prelude::*;

use crate::digle::Digle;
use crate::digle::DigleView;
use crate::ids::INode;
use crate::ids::LineId;
use crate::persist::branch_table_empty;
use crate::persist::branch_table_get;
use crate::persist::branch_table_insert;
use crate::persist::branch_table_new;
use crate::persist::branch_table_view;
use crate::persist::content_table_contains;
use crate::persist::content_table_empty;
use crate::persist::content_table_get;
use crate::persist::content_table_insert;
use crate::persist::content_table_new;
use crate::persist::content_table_view;
use crate::persist::snapshot_table_contains;
use crate::persist::snapshot_table_empty;
use crate::persist::snapshot_table_get;
use crate::persist::snapshot_table_insert;
use crate::persist::snapshot_table_new;
use crate::persist::snapshot_table_view;
use crate::persist::BranchTable;
use crate::persist::ContentTable;
use crate::persist::SnapshotTable;

verus! {

/// The mathematical content of a repository: its three tables.
pub ghost struct StorageView {
    pub contents: Map<LineId, Seq<u8>>,
    pub branches: Map<Seq<char>, INode>,
    pub digles: Map<INode, DigleView>,
}

impl StorageView {
    /// The repository with nothing in it.
    pub open spec fn empty() -> StorageView {
        StorageView {
            contents: content_table_empty(),
            branches: branch_table_empty(),
            digles: snapshot_table_empty(),
        }
    }

    /// The current head of `name`: absent when the branch is unknown,
    /// which is ordinary data, not an error.
    pub open spec fn branch_head(self, name: Seq<char>) -> Option<INode> {
        if self.branches.dom().contains(name) {
            Some(self.branches[name])
        } else {
            None
        }
    }

    /// The repository with `bytes` registered for `id`.
    pub open spec fn add_contents(self, id: LineId, bytes: Seq<u8>) -> StorageView {
        StorageView { contents: self.contents.insert(id, bytes), ..self }
    }

    /// The repository with `name` pointing at `inode`.
    pub open spec fn set_inode(self, name: Seq<char>, inode: INode) -> StorageView {
        StorageView { branches: self.branches.insert(name, inode), ..self }
    }

    /// The repository with `d` published under `inode`.
    pub open spec fn add_digle(self, inode: INode, d: DigleView) -> StorageView {
        StorageView { digles: self.digles.insert(inode, d), ..self }
    }
}

/// The repository root, and the only object in this layer whose value
/// changes over time. Each mutation replaces one table with a derived
/// persistent value; the old table values live on inside any reader
/// that still holds them.
pub struct Storage {
    contents: ContentTable,
    branches: BranchTable,
    digles: SnapshotTable,
}

impl View for Storage {
    type V = StorageView;

    closed spec fn view(&self) -> StorageView {
        StorageView {
            contents: content_table_view(self.contents),
            branches: branch_table_view(self.branches),
            digles: snapshot_table_view(self.digles),
        }
    }
}

impl Storage {
    /// An empty repository.
    pub fn new() -> (r: Storage)
        ensures
            r@ == StorageView::empty(),
    {
        Storage {
            contents: content_table_new(),
            branches: branch_table_new(),
            digles: snapshot_table_new(),
        }
    }

    /// The bytes registered for `id`, exactly as they were registered.
    /// `id` must have been registered: callers are expected to have
    /// validated existence through the graph before dereferencing.
    pub fn contents(&self, id: LineId) -> (r: Vec<u8>)
        requires
            self@.contents.dom().contains(id),
        ensures
            r@ == self@.contents[id],
    {
        match content_table_get(&self.contents, &id) {
            Some(v) => v,
            None => vstd::pervasive::unreached(),
        }
    }

    /// Registers `contents` for `id`. A line's contents are write-once:
    /// `id` must not have contents yet, since the same line may be
    /// referenced from many snapshots and must never change under them.
    pub fn add_contents(&mut self, id: LineId, contents: Vec<u8>)
        requires
            !old(self)@.contents.dom().contains(id),
        ensures
            final(self)@ == old(self)@.add_contents(id, contents@),
    {
        if content_table_contains(&self.contents, &id) {
            vstd::pervasive::unreached()
        } else {
            self.contents = content_table_insert(&self.contents, id, contents);
        }
    }

    /// The current head of `branch`, or nothing when the branch is
    /// unknown; absence is ordinary data here.
    pub fn inode(&self, branch: &str) -> (r: Option<INode>)
        ensures
            r == self@.branch_head(branch@),
    {
        branch_table_get(&self.branches, branch)
    }

    /// Repoints `branch` at `inode` and returns the previous head, or
    /// nothing when the branch was new. The returned value is the
    /// primitive for optimistic concurrency: a caller can compare it
    /// against the head it derived from to detect a racing writer.
    pub fn set_inode(&mut self, branch: &str, inode: INode) -> (r: Option<INode>)
        ensures
            r == old(self)@.branch_head(branch@),
            final(self)@ == old(self)@.set_inode(branch@, inode),
    {
        let ret = self.inode(branch);
        self.branches = branch_table_insert(&self.branches, branch, inode);
        ret
    }

    /// Publishes `digle` under `inode`. The snapshot table is
    /// append-only, so `inode` must be fresh; every handle ever handed
    /// out stays resolvable for the life of the repository.
    pub fn add_digle(&mut self, inode: INode, digle: Digle)
        requires
            !old(self)@.digles.dom().contains(inode),
        ensures
            final(self)@ == old(self)@.add_digle(inode, digle@),
    {
        if snapshot_table_contains(&self.digles, &inode) {
            vstd::pervasive::unreached()
        } else {
            self.digles = snapshot_table_insert(&self.digles, inode, digle);
        }
    }

    /// The snapshot published under `inode`, which must have been
    /// published into this same repository.
    pub fn digle(&self, inode: INode) -> (r: Digle)
        requires
            self@.digles.dom().contains(inode),
        ensures
            r@ == self@.digles[inode],
    {
        match snapshot_table_get(&self.digles, &inode) {
            Some(d) => d,
            None => vstd::pervasive::unreached(),
        }
    }
}

/// Registered contents read back exactly, and registering disturbs no
/// other entry.
pub proof fn lemma_content_round_trip(s: StorageView, id: LineId, bytes: Seq<u8>, other: LineId)
    requires
        !s.contents.dom().contains(id),
    ensures
        s.add_contents(id, bytes).contents.dom().contains(id),
        s.add_contents(id, bytes).contents[id] == bytes,
        other != id && s.contents.dom().contains(other) ==> s.add_contents(
            id,
            bytes,
        ).contents[other] == s.contents[other],
{
}

/// Moving a branch pointer twice: after the first move the head is the
/// first handle (so a second move returns it), and after the second
/// move a lookup sees the second handle.
pub proof fn lemma_pointer_history(s: StorageView, name: Seq<char>, i1: INode, i2: INode)
    ensures
        s.set_inode(name, i1).branch_head(name) == Some(i1),
        s.set_inode(name, i1).set_inode(name, i2).branch_head(name) == Some(i2),
{
}

/// Publishing a snapshot never alters a snapshot already published:
/// graphs derived from a shared ancestor stay independent of each
/// other and of the ancestor.
pub proof fn lemma_publish_preserves_snapshots(s: StorageView, fresh: INode, d: DigleView, j: INode)
    requires
        j != fresh,
    ensures
        s.add_digle(fresh, d).digles.dom().contains(j) == s.digles.dom().contains(j),
        s.digles.dom().contains(j) ==> s.add_digle(fresh, d).digles[j] == s.digles[j],
{
}

} // verus!
