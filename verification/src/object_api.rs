//! Blobs and commits tied to the repository that backs their object cache.
use core::marker::PhantomData;
use vstd::prelude::*;

use crate::status::spec_owner_result;

verus! {

/// An owned blob `B` tied to the repository that backs its object cache.
pub struct RepositoryBlob<'repo, B> {
    inner: B,
    _repository: PhantomData<&'repo ()>,
}

impl<'repo, B> RepositoryBlob<'repo, B> {
    /// The owned blob this value holds.
    pub closed spec fn spec_inner(&self) -> B {
        self.inner
    }

    /// Borrows the blob.
    pub fn as_ref(&self) -> (blob: &B)
        ensures
            *blob == self.spec_inner(),
    {
        &self.inner
    }

    /// Borrows the blob exclusively.
    pub fn as_mut(&mut self) -> (blob: &mut B)
        ensures
            *blob == old(self).spec_inner(),
            final(self).spec_inner() == *final(blob),
    {
        &mut self.inner
    }
}

/// An owned commit `C` tied to the repository that backs its object cache.
pub struct RepositoryCommit<'repo, C> {
    inner: C,
    _repository: PhantomData<&'repo ()>,
}

impl<'repo, C> RepositoryCommit<'repo, C> {
    /// The owned commit this value holds.
    pub closed spec fn spec_inner(&self) -> C {
        self.inner
    }

    /// Borrows the commit.
    pub fn as_ref(&self) -> (commit: &C)
        ensures
            *commit == self.spec_inner(),
    {
        &self.inner
    }

    /// Borrows the commit exclusively.
    pub fn as_mut(&mut self) -> (commit: &mut C)
        ensures
            *commit == old(self).spec_inner(),
            final(self).spec_inner() == *final(commit),
    {
        &mut self.inner
    }
}

/// Interprets a blob lookup (`git_blob_lookup`, `git_blob_lookup_prefix`):
/// the owned blob tied to its repository exactly when the call succeeded and
/// produced one.
pub fn blob_lookup_result<'repo, B>(status: i32, inner: Option<B>) -> (r: Result<
    RepositoryBlob<'repo, B>,
    i32,
>)
    ensures
        match spec_owner_result(status, inner) {
            Ok(blob) => r matches Ok(b) && b.spec_inner() == blob,
            Err(e) => r matches Err(f) && f == e,
        },
{
    match crate::status::owner_result(status, inner) {
        Ok(inner) => Ok(RepositoryBlob { inner, _repository: PhantomData }),
        Err(e) => Err(e),
    }
}

/// Interprets a commit lookup (`git_commit_lookup`,
/// `git_commit_lookup_prefix`): the owned commit tied to its repository
/// exactly when the call succeeded and produced one.
pub fn commit_lookup_result<'repo, C>(status: i32, inner: Option<C>) -> (r: Result<
    RepositoryCommit<'repo, C>,
    i32,
>)
    ensures
        match spec_owner_result(status, inner) {
            Ok(commit) => r matches Ok(c) && c.spec_inner() == commit,
            Err(e) => r matches Err(f) && f == e,
        },
{
    match crate::status::owner_result(status, inner) {
        Ok(inner) => Ok(RepositoryCommit { inner, _repository: PhantomData }),
        Err(e) => Err(e),
    }
}

} // verus!
