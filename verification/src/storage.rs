use vstd::prelude::*;

verus! {

/// A keyed blob store failed to produce the bytes for a key.
#[derive(Clone, Copy, Debug, PartialEq, Eq, Structural)]
pub struct StorageError;

/// A keyed blob store. Backends (a filesystem, an archive, a remote store)
/// implement this outside the core; the core only pulls bytes by key and
/// never assumes exclusive ownership of the backend, so a handle type may
/// internally share one backend among many nodes.
pub trait Storage {
    fn load(&self, key: &str) -> Result<Vec<u8>, StorageError>;
}

} // verus!
