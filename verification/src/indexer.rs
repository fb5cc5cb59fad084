//! Packfile indexing progress and its callback surface.
use vstd::prelude::*;

verus! {

/// Progress reported while a packfile is downloaded and indexed
/// (`git_indexer_progress`).
#[derive(Clone, Copy, Debug, PartialEq, Eq, Structural)]
pub struct IndexerProgress {
    /// Number of objects in the packfile being indexed.
    pub total_objects: u32,
    /// Received objects that have been hashed.
    pub indexed_objects: u32,
    /// Received objects: the downloaded ones.
    pub received_objects: u32,
    /// Locally-available objects injected to complete a thin pack.
    pub local_objects: u32,
    /// Number of deltas in the packfile being indexed.
    pub total_deltas: u32,
    /// Received deltas that have been indexed.
    pub indexed_deltas: u32,
    /// Size of the packfile received so far.
    pub received_bytes: usize,
}

/// A shared borrow of indexer progress.
pub type IndexerProgressRef<'a> = &'a IndexerProgress;

/// An exclusive borrow of indexer progress.
pub type IndexerProgressMut<'a> = &'a mut IndexerProgress;

impl IndexerProgress {
    /// Returns the number of objects in the packfile being indexed.
    pub fn total_objects(&self) -> (value: u32)
        ensures
            value == self.total_objects,
    {
        self.total_objects
    }

    /// Returns the number of received objects that have been hashed.
    pub fn indexed_objects(&self) -> (value: u32)
        ensures
            value == self.indexed_objects,
    {
        self.indexed_objects
    }

    /// Returns the number of objects downloaded so far.
    pub fn received_objects(&self) -> (value: u32)
        ensures
            value == self.received_objects,
    {
        self.received_objects
    }

    /// Returns the number of locally available objects injected to complete a thin pack.
    pub fn local_objects(&self) -> (value: u32)
        ensures
            value == self.local_objects,
    {
        self.local_objects
    }

    /// Returns the number of deltas in the packfile being indexed.
    pub fn total_deltas(&self) -> (value: u32)
        ensures
            value == self.total_deltas,
    {
        self.total_deltas
    }

    /// Returns the number of received deltas that have been indexed.
    pub fn indexed_deltas(&self) -> (value: u32)
        ensures
            value == self.indexed_deltas,
    {
        self.indexed_deltas
    }

    /// Returns the number of packfile bytes received so far.
    pub fn received_bytes(&self) -> (value: usize)
        ensures
            value == self.received_bytes,
    {
        self.received_bytes
    }

    /// Sets the number of objects in the packfile being indexed.
    pub fn set_total_objects(&mut self, value: u32)
        ensures
            final(self).total_objects == value,
            final(self).indexed_objects == old(self).indexed_objects,
            final(self).received_objects == old(self).received_objects,
            final(self).local_objects == old(self).local_objects,
            final(self).total_deltas == old(self).total_deltas,
            final(self).indexed_deltas == old(self).indexed_deltas,
            final(self).received_bytes == old(self).received_bytes,
    {
        self.total_objects = value;
    }

    /// Sets the number of received objects that have been hashed.
    pub fn set_indexed_objects(&mut self, value: u32)
        ensures
            final(self).indexed_objects == value,
            final(self).total_objects == old(self).total_objects,
            final(self).received_objects == old(self).received_objects,
            final(self).local_objects == old(self).local_objects,
            final(self).total_deltas == old(self).total_deltas,
            final(self).indexed_deltas == old(self).indexed_deltas,
            final(self).received_bytes == old(self).received_bytes,
    {
        self.indexed_objects = value;
    }

    /// Sets the number of objects downloaded so far.
    pub fn set_received_objects(&mut self, value: u32)
        ensures
            final(self).received_objects == value,
            final(self).total_objects == old(self).total_objects,
            final(self).indexed_objects == old(self).indexed_objects,
            final(self).local_objects == old(self).local_objects,
            final(self).total_deltas == old(self).total_deltas,
            final(self).indexed_deltas == old(self).indexed_deltas,
            final(self).received_bytes == old(self).received_bytes,
    {
        self.received_objects = value;
    }

    /// Sets the number of locally available objects injected to complete a thin pack.
    pub fn set_local_objects(&mut self, value: u32)
        ensures
            final(self).local_objects == value,
            final(self).total_objects == old(self).total_objects,
            final(self).indexed_objects == old(self).indexed_objects,
            final(self).received_objects == old(self).received_objects,
            final(self).total_deltas == old(self).total_deltas,
            final(self).indexed_deltas == old(self).indexed_deltas,
            final(self).received_bytes == old(self).received_bytes,
    {
        self.local_objects = value;
    }

    /// Sets the number of deltas in the packfile being indexed.
    pub fn set_total_deltas(&mut self, value: u32)
        ensures
            final(self).total_deltas == value,
            final(self).total_objects == old(self).total_objects,
            final(self).indexed_objects == old(self).indexed_objects,
            final(self).received_objects == old(self).received_objects,
            final(self).local_objects == old(self).local_objects,
            final(self).indexed_deltas == old(self).indexed_deltas,
            final(self).received_bytes == old(self).received_bytes,
    {
        self.total_deltas = value;
    }

    /// Sets the number of received deltas that have been indexed.
    pub fn set_indexed_deltas(&mut self, value: u32)
        ensures
            final(self).indexed_deltas == value,
            final(self).total_objects == old(self).total_objects,
            final(self).indexed_objects == old(self).indexed_objects,
            final(self).received_objects == old(self).received_objects,
            final(self).local_objects == old(self).local_objects,
            final(self).total_deltas == old(self).total_deltas,
            final(self).received_bytes == old(self).received_bytes,
    {
        self.indexed_deltas = value;
    }

    /// Sets the number of packfile bytes received so far.
    pub fn set_received_bytes(&mut self, value: usize)
        ensures
            final(self).received_bytes == value,
            final(self).total_objects == old(self).total_objects,
            final(self).indexed_objects == old(self).indexed_objects,
            final(self).received_objects == old(self).received_objects,
            final(self).local_objects == old(self).local_objects,
            final(self).total_deltas == old(self).total_deltas,
            final(self).indexed_deltas == old(self).indexed_deltas,
    {
        self.received_bytes = value;
    }
}

/// Safe callable surface for transient indexer progress notifications.
pub trait GitIndexerProgressCallback {
    /// Returns zero to continue or a nonzero status to cancel indexing.
    fn call(&mut self, progress: &IndexerProgress) -> i32;
}

} // verus!
