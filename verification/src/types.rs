//! The kinds of Git objects as libgit2 numbers them.
use vstd::prelude::*;

verus! {

/// `GIT_OBJECT_ANY`: a lookup that accepts every kind.
pub const GIT_OBJECT_ANY: i32 = -2;

/// `GIT_OBJECT_INVALID`: no kind, or an unknown one.
pub const GIT_OBJECT_INVALID: i32 = -1;

/// `GIT_OBJECT_COMMIT`.
pub const GIT_OBJECT_COMMIT: i32 = 1;

/// `GIT_OBJECT_TREE`.
pub const GIT_OBJECT_TREE: i32 = 2;

/// `GIT_OBJECT_BLOB`.
pub const GIT_OBJECT_BLOB: i32 = 3;

/// `GIT_OBJECT_TAG`.
pub const GIT_OBJECT_TAG: i32 = 4;

/// `GIT_OBJECT_OFS_DELTA`: a delta whose base is given by an offset.
pub const GIT_OBJECT_OFS_DELTA: i32 = 6;

/// `GIT_OBJECT_REF_DELTA`: a delta whose base is given by an object ID.
pub const GIT_OBJECT_REF_DELTA: i32 = 7;

/// A published `git_object_t` value.
#[derive(Clone, Copy, Debug, PartialEq, Eq, Structural)]
pub enum GitObjectType {
    Any,
    Invalid,
    Commit,
    Tree,
    Blob,
    Tag,
    OfsDelta,
    RefDelta,
}

/// The C scalar of each kind.
pub open spec fn spec_object_type_raw(kind: GitObjectType) -> i32 {
    match kind {
        GitObjectType::Any => GIT_OBJECT_ANY,
        GitObjectType::Invalid => GIT_OBJECT_INVALID,
        GitObjectType::Commit => GIT_OBJECT_COMMIT,
        GitObjectType::Tree => GIT_OBJECT_TREE,
        GitObjectType::Blob => GIT_OBJECT_BLOB,
        GitObjectType::Tag => GIT_OBJECT_TAG,
        GitObjectType::OfsDelta => GIT_OBJECT_OFS_DELTA,
        GitObjectType::RefDelta => GIT_OBJECT_REF_DELTA,
    }
}

/// The kind a C scalar denotes, if it is a published one.
pub open spec fn spec_object_type_from_raw(raw: i32) -> Option<GitObjectType> {
    if raw == GIT_OBJECT_ANY {
        Some(GitObjectType::Any)
    } else if raw == GIT_OBJECT_INVALID {
        Some(GitObjectType::Invalid)
    } else if raw == GIT_OBJECT_COMMIT {
        Some(GitObjectType::Commit)
    } else if raw == GIT_OBJECT_TREE {
        Some(GitObjectType::Tree)
    } else if raw == GIT_OBJECT_BLOB {
        Some(GitObjectType::Blob)
    } else if raw == GIT_OBJECT_TAG {
        Some(GitObjectType::Tag)
    } else if raw == GIT_OBJECT_OFS_DELTA {
        Some(GitObjectType::OfsDelta)
    } else if raw == GIT_OBJECT_REF_DELTA {
        Some(GitObjectType::RefDelta)
    } else {
        None
    }
}

impl GitObjectType {
    /// Checks a C scalar against the published kinds.
    pub fn from_raw(raw: i32) -> (kind: Option<GitObjectType>)
        ensures
            kind == spec_object_type_from_raw(raw),
    {
        if raw == GIT_OBJECT_ANY {
            Some(GitObjectType::Any)
        } else if raw == GIT_OBJECT_INVALID {
            Some(GitObjectType::Invalid)
        } else if raw == GIT_OBJECT_COMMIT {
            Some(GitObjectType::Commit)
        } else if raw == GIT_OBJECT_TREE {
            Some(GitObjectType::Tree)
        } else if raw == GIT_OBJECT_BLOB {
            Some(GitObjectType::Blob)
        } else if raw == GIT_OBJECT_TAG {
            Some(GitObjectType::Tag)
        } else if raw == GIT_OBJECT_OFS_DELTA {
            Some(GitObjectType::OfsDelta)
        } else if raw == GIT_OBJECT_REF_DELTA {
            Some(GitObjectType::RefDelta)
        } else {
            None
        }
    }

    /// The C scalar passed to libgit2 for this kind.
    pub fn as_raw(self) -> (raw: i32)
        ensures
            raw == spec_object_type_raw(self),
    {
        match self {
            GitObjectType::Any => GIT_OBJECT_ANY,
            GitObjectType::Invalid => GIT_OBJECT_INVALID,
            GitObjectType::Commit => GIT_OBJECT_COMMIT,
            GitObjectType::Tree => GIT_OBJECT_TREE,
            GitObjectType::Blob => GIT_OBJECT_BLOB,
            GitObjectType::Tag => GIT_OBJECT_TAG,
            GitObjectType::OfsDelta => GIT_OBJECT_OFS_DELTA,
            GitObjectType::RefDelta => GIT_OBJECT_REF_DELTA,
        }
    }
}

/// Converting a kind to its scalar and back gives the kind, and every
/// scalar that is accepted is the scalar of the kind it gives.
pub proof fn lemma_object_type_round_trip(kind: GitObjectType, raw: i32)
    ensures
        spec_object_type_from_raw(spec_object_type_raw(kind)) == Some(kind),
        spec_object_type_from_raw(raw) matches Some(k) ==> spec_object_type_raw(k) == raw,
{
}

} // verus!
