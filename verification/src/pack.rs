//! Callback surfaces of the packbuilder.
use vstd::prelude::*;

verus! {

/// `GIT_PACKBUILDER_ADDING_OBJECTS`.
pub const GIT_PACKBUILDER_ADDING_OBJECTS: u32 = 0;
/// `GIT_PACKBUILDER_DELTAFICATION`.
pub const GIT_PACKBUILDER_DELTAFICATION: u32 = 1;

/// The stage a packbuilder reports progress for.
#[derive(Clone, Copy, Debug, PartialEq, Eq, Hash, Structural)]
pub enum GitPackbuilderStage {
    /// Objects are being added to the pack.
    AddingObjects,
    /// Deltas are being computed.
    Deltafication,
}

impl GitPackbuilderStage {
    /// The stage a C scalar denotes, if it is a published one.
    pub fn from_raw(raw: u32) -> (stage: Option<GitPackbuilderStage>)
        ensures
            stage == (if raw == GIT_PACKBUILDER_ADDING_OBJECTS {
                Some(GitPackbuilderStage::AddingObjects)
            } else if raw == GIT_PACKBUILDER_DELTAFICATION {
                Some(GitPackbuilderStage::Deltafication)
            } else {
                None::<GitPackbuilderStage>
            }),
    {
        if raw == GIT_PACKBUILDER_ADDING_OBJECTS {
            Some(GitPackbuilderStage::AddingObjects)
        } else if raw == GIT_PACKBUILDER_DELTAFICATION {
            Some(GitPackbuilderStage::Deltafication)
        } else {
            None
        }
    }

    /// The C scalar of this stage.
    pub fn as_raw(self) -> (raw: u32)
        ensures
            raw == (match self {
                GitPackbuilderStage::AddingObjects => GIT_PACKBUILDER_ADDING_OBJECTS,
                GitPackbuilderStage::Deltafication => GIT_PACKBUILDER_DELTAFICATION,
            }),
    {
        match self {
            GitPackbuilderStage::AddingObjects => GIT_PACKBUILDER_ADDING_OBJECTS,
            GitPackbuilderStage::Deltafication => GIT_PACKBUILDER_DELTAFICATION,
        }
    }
}

/// Safe callable surface for chunks emitted by a packbuilder.
///
/// The chunk is storage libgit2 keeps and reads again after the call, so it
/// is lent read-only.
pub trait GitPackbuilderForeachCallback {
    /// Receives a transient pack-data chunk. Nonzero stops iteration.
    fn call(&mut self, buffer: &[u8]) -> i32;
}

/// Safe callable surface for packbuilder stage progress.
pub trait GitPackbuilderProgressCallback {
    /// Reports the checked stage plus current and total object counts.
    fn call(&mut self, stage: GitPackbuilderStage, current: u32, total: u32) -> i32;
}

} // verus!
