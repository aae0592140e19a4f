//! The node layer of a hierarchical similarity-search index over compact
//! sequence sketches. A tree entry ([`node::Node`]) pairs an identity with a
//! write-once cell that materializes its sketch lazily from a keyed blob
//! store, internal entries are built by folding child datasets into a parent
//! sketch, and search ranks entries by an exact rational similarity score.

pub mod codec;
pub mod node;
pub mod sketch;
pub mod storage;

use vstd::prelude::*;

verus! {

/// The error kinds that the read, update and comparison paths can surface.
#[derive(Clone, Copy, Debug, PartialEq, Eq, Structural)]
pub enum ReadDataError {
    /// No realized sketch and no storage to fetch one from.
    LoadError,
    /// The storage backend failed to produce bytes for the key.
    StorageError,
    /// The fetched bytes were not a valid serialized sketch.
    DecodeError,
    /// A protocol corner whose resolution policy is deliberately undefined.
    UnsupportedOperation,
}

} // verus!
