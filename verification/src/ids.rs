use vstd::prelude::*;

verus! {

/// Opaque key naming one immutable line of content. Callers allocate
/// these; the storage layer only compares them.
#[derive(Clone, Copy, Debug, PartialEq, Eq, PartialOrd, Ord, Hash, Structural)]
pub struct LineId {
    pub n: u64,
}

/// A directed ordering relation between two lines: the source is the
/// key the edge is filed under, the target is `dest`.
#[derive(Clone, Copy, Debug, PartialEq, Eq, PartialOrd, Ord, Hash, Structural)]
pub struct Edge {
    pub dest: LineId,
}

/// Opaque 64-bit handle naming one immutable graph snapshot inside a
/// repository; purely a lookup key, it carries no graph data itself.
#[derive(Clone, Copy, Debug, PartialEq, Eq, PartialOrd, Ord, Hash, Structural)]
pub struct INode {
    pub n: u64,
}

} // verus!
