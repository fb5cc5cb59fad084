//! The loose-object backend's argument check.
use vstd::prelude::*;

use crate::status::GIT_EINVALID;

verus! {

/// The check `git_odb_backend_loose` makes before calling C, which indexes
/// the last byte of the directory name: an empty directory is
/// `GIT_EINVALID`.
pub fn check_loose_objects_dir(objects_dir: &[u8]) -> (r: Result<(), i32>)
    ensures
        r == (if objects_dir@.len() == 0 {
            Err::<(), i32>(GIT_EINVALID)
        } else {
            Ok::<(), i32>(())
        }),
{
    if objects_dir.len() == 0 {
        Err(GIT_EINVALID)
    } else {
        Ok(())
    }
}

} // verus!
