//! Storage core of a patch-based version-control system: immutable,
//! content-addressable line contents joined by versioned directed graphs
//! ("digles"), plus a branch-pointer table naming graph snapshots.

pub mod digle;
pub mod ids;
pub mod mmap;
pub mod persist;
pub mod storage;

pub use digle::Digle;
pub use digle::DigleView;
pub use ids::Edge;
pub use ids::INode;
pub use ids::LineId;
pub use storage::Storage;
pub use storage::StorageView;
