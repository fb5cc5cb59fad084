//! Notes iteration tied to the repository it walks.
use core::marker::PhantomData;
use vstd::prelude::*;

use crate::status::spec_owner_result;

verus! {

/// A notes iterator `I` whose repository is kept live by its lifetime.
pub struct GitNoteIterator<'repo, I> {
    inner: I,
    _repository: PhantomData<&'repo ()>,
}

impl<'repo, I> GitNoteIterator<'repo, I> {
    /// The owned iterator this value holds.
    pub closed spec fn spec_inner(&self) -> I {
        self.inner
    }

    /// Borrows the iterator exclusively.
    pub fn as_mut(&mut self) -> (iterator: &mut I)
        ensures
            *iterator == old(self).spec_inner(),
            final(self).spec_inner() == *final(iterator),
    {
        &mut self.inner
    }
}

/// Interprets `git_note_iterator_new` and `git_note_commit_iterator_new`:
/// the status on failure, else the iterator the call produced, tied to its
/// repository. A successful call always produces one.
pub fn note_iterator_result<'repo, I>(status: i32, inner: Option<I>) -> (r: Result<
    GitNoteIterator<'repo, I>,
    i32,
>)
    requires
        status == 0 ==> inner is Some,
    ensures
        match spec_owner_result(status, inner) {
            Ok(it) => r matches Ok(n) && n.spec_inner() == it,
            Err(e) => r matches Err(f) && f == e,
        },
{
    match crate::status::owner_result(status, inner) {
        Ok(inner) => Ok(GitNoteIterator { inner, _repository: PhantomData }),
        Err(e) => Err(e),
    }
}

} // verus!
