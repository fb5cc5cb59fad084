//! libgit2 status codes and the interpretation of a C call's status.
use vstd::prelude::*;

verus! {

/// `GIT_OK`: the call succeeded.
pub const GIT_OK: i32 = 0;

/// `GIT_ERROR`: the generic failure code.
pub const GIT_ERROR: i32 = -1;

/// `GIT_EINVALID`: an invalid operation or input.
pub const GIT_EINVALID: i32 = -21;

/// The result a status-only C call stands for: success exactly on zero,
/// otherwise the status itself as the error.
pub open spec fn spec_status_result(status: i32) -> Result<(), i32> {
    if status == 0 {
        Ok(())
    } else {
        Err(status)
    }
}

/// Interprets the status of a C call that reports nothing else.
pub fn status_result(status: i32) -> (r: Result<(), i32>)
    ensures
        r == spec_status_result(status),
{
    if status == 0 {
        Ok(())
    } else {
        Err(status)
    }
}

/// The result of a constructor that reports a status and hands back an
/// optional owner: a nonzero status is the error (and any owner is dropped),
/// a successful status without an owner is `GIT_ERROR`.
pub open spec fn spec_owner_result<T>(status: i32, inner: Option<T>) -> Result<T, i32> {
    if status != 0 {
        Err(status)
    } else {
        match inner {
            Some(owner) => Ok(owner),
            None => Err(GIT_ERROR),
        }
    }
}

/// Interprets a constructor's status together with the owner it produced.
pub fn owner_result<T>(status: i32, inner: Option<T>) -> (r: Result<T, i32>)
    ensures
        r == spec_owner_result(status, inner),
{
    if status != 0 {
        return Err(status);
    }
    match inner {
        Some(owner) => Ok(owner),
        None => Err(GIT_ERROR),
    }
}

/// Interprets a call that fills plain out-slots (`git_graph_ahead_behind`,
/// `git_note_next`, `git_note_commit_create` and their kin): what the slots
/// hold on a zero status, else the status.
pub fn output_result<T>(status: i32, output: T) -> (r: Result<T, i32>)
    ensures
        r == (if status == 0 {
            Ok::<T, i32>(output)
        } else {
            Err::<T, i32>(status)
        }),
{
    if status == 0 {
        Ok(output)
    } else {
        Err(status)
    }
}

/// Interprets a C predicate that reports through its status alone
/// (`git_graph_descendant_of`, `git_graph_reachable_from_any`): `0` is false,
/// `1` is true, anything else is the error.
pub fn bool_status_result(status: i32) -> (r: Result<bool, i32>)
    ensures
        r == (if status == 0 {
            Ok::<bool, i32>(false)
        } else if status == 1 {
            Ok::<bool, i32>(true)
        } else {
            Err::<bool, i32>(status)
        }),
{
    if status == 0 {
        Ok(false)
    } else if status == 1 {
        Ok(true)
    } else {
        Err(status)
    }
}

/// Interprets a C predicate that reports its answer in an integer out-slot
/// (`git_ignore_path_is_ignored`, `git_object_rawcontent_is_valid`): on a
/// zero status the answer is whether the slot is nonzero.
pub fn flag_result(status: i32, flag: i32) -> (r: Result<bool, i32>)
    ensures
        r == (if status == 0 {
            Ok::<bool, i32>(flag != 0)
        } else {
            Err::<bool, i32>(status)
        }),
{
    if status == 0 {
        Ok(flag != 0)
    } else {
        Err(status)
    }
}

} // verus!
