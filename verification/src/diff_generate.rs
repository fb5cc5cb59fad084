//! Generated diffs tied to the repository they were produced from.
use core::marker::PhantomData;
use vstd::prelude::*;

use crate::status::spec_owner_result;

verus! {

/// A generated diff tied to the repository it was generated from.
///
/// The diff keeps an uncounted pointer to its repository, so the value
/// carries the repository's lifetime `'repo` and cannot outlive it; `D` is the
/// owned diff itself.
pub struct RepositoryDiff<'repo, D> {
    inner: D,
    _repository: PhantomData<&'repo ()>,
}

impl<'repo, D> RepositoryDiff<'repo, D> {
    /// The owned diff this value holds.
    pub closed spec fn spec_inner(&self) -> D {
        self.inner
    }

    /// Borrows the diff for read-only operations.
    pub fn as_ref(&self) -> (diff: &D)
        ensures
            *diff == self.spec_inner(),
    {
        &self.inner
    }

    /// Borrows the diff exclusively for transformations and traversal.
    pub fn as_mut(&mut self) -> (diff: &mut D)
        ensures
            *diff == old(self).spec_inner(),
            final(self).spec_inner() == *final(diff),
    {
        &mut self.inner
    }
}

/// Interprets a diff constructor's status and output: the owned diff, tied to
/// its repository, exactly when the call succeeded and produced one.
pub fn diff_result<'repo, D>(status: i32, inner: Option<D>) -> (r: Result<RepositoryDiff<'repo, D>, i32>)
    ensures
        match spec_owner_result(status, inner) {
            Ok(diff) => r matches Ok(d) && d.spec_inner() == diff,
            Err(e) => r matches Err(f) && f == e,
        },
{
    match crate::status::owner_result(status, inner) {
        Ok(inner) => Ok(RepositoryDiff { inner, _repository: PhantomData }),
        Err(e) => Err(e),
    }
}

} // verus!
