//! libgit2's process-global initialization count and runtime version.
use vstd::prelude::*;

verus! {

/// One owned count in libgit2's process-global initialization state.
///
/// A token exists only for a successful initialization, so the count it
/// reports is always positive.
#[derive(Debug)]
pub struct Libgit2Init {
    initial_count: usize,
}

impl Libgit2Init {
    /// The type invariant: the recorded count is positive.
    #[verifier::type_invariant]
    closed spec fn wf(self) -> bool {
        self.initial_count > 0
    }

    /// The initialization count reported when this token was acquired.
    pub closed spec fn spec_initial_count(self) -> nat {
        self.initial_count as nat
    }

    /// Returns the initialization count reported when this token was
    /// acquired.
    pub fn initial_count(&self) -> (count: usize)
        ensures
            count == self.spec_initial_count(),
            count > 0,
    {
        proof {
            use_type_invariant(self);
        }
        self.initial_count
    }
}

/// Interprets the count `git_libgit2_init` returns: a positive count is one
/// owned initialization, anything else is the error it reports.
pub fn init_result(count: i32) -> (r: Result<Libgit2Init, i32>)
    ensures
        count <= 0 ==> r == Err::<Libgit2Init, i32>(count),
        count > 0 ==> (r matches Ok(token) && token.spec_initial_count() == count),
{
    if count <= 0 {
        Err(count)
    } else {
        Ok(Libgit2Init { initial_count: count as usize })
    }
}

/// Interprets the count `git_libgit2_shutdown` returns once the token is
/// consumed: the number of counts left, or the negative error.
pub fn shutdown_result(remaining: i32) -> (r: Result<usize, i32>)
    ensures
        remaining < 0 ==> r == Err::<usize, i32>(remaining),
        remaining >= 0 ==> r == Ok::<usize, i32>(remaining as usize),
{
    if remaining < 0 {
        Err(remaining)
    } else {
        Ok(remaining as usize)
    }
}

/// Runtime version of the linked libgit2 library.
#[derive(Clone, Copy, Debug, PartialEq, Eq, Hash, Structural)]
pub struct Libgit2Version {
    /// The major version.
    pub major: i32,
    /// The minor version.
    pub minor: i32,
    /// The revision.
    pub revision: i32,
}

/// Interprets `git_libgit2_version`: the three out-slots on a zero status,
/// else the status.
pub fn version_result(status: i32, major: i32, minor: i32, revision: i32) -> (r: Result<
    Libgit2Version,
    i32,
>)
    ensures
        r == (if status == 0 {
            Ok::<Libgit2Version, i32>(Libgit2Version { major, minor, revision })
        } else {
            Err::<Libgit2Version, i32>(status)
        }),
{
    if status == 0 {
        Ok(Libgit2Version { major, minor, revision })
    } else {
        Err(status)
    }
}

} // verus!
