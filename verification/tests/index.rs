use core::mem::{align_of, size_of};

use libgit2::index::{
    conflict_iterator_result, conflict_result, GitIndexMatchedPathCallback, IndexTime,
    IndexTimeMut, IndexTimeRef,
};
use libgit2::status::GIT_ERROR;
use libgit2_sys as ffi;
use libgit2::index::check_extension_signature;
use libgit2::index::{
    git_index_entry_is_conflict, git_index_entry_stage, GitIndexEntryExtendedFlags, GitIndexStage,
    IndexEntry,
};
use libgit2::oid::OidType;
use libgit2::status::GIT_EINVALID;

#[test]
fn index_time_wrapper_preserves_the_c_layout() {
    assert_eq!(size_of::<IndexTime>(), size_of::<ffi::git_index_time>());
    assert_eq!(align_of::<IndexTime>(), align_of::<ffi::git_index_time>());
    assert_eq!(
        size_of::<IndexTimeRef<'_>>(),
        size_of::<&ffi::git_index_time>()
    );
    assert_eq!(
        size_of::<IndexTimeMut<'_>>(),
        size_of::<&mut ffi::git_index_time>()
    );
}

#[test]
fn borrowed_handles_read_and_write_both_components() {
    let mut raw = IndexTime {
        seconds: -2,
        nanoseconds: 3,
    };

    let time: IndexTimeMut<'_> = &mut raw;
    assert_eq!(time.seconds(), -2);
    assert_eq!(time.nanoseconds(), 3);

    time.set_seconds(4);
    time.set_nanoseconds(5);
    assert_eq!(time.seconds(), 4);
    assert_eq!(time.nanoseconds(), 5);
}

struct ExpectSpec;

impl GitIndexMatchedPathCallback for ExpectSpec {
    fn call(&mut self, path: &[u8], matched_pathspec: Option<&[u8]>) -> i32 {
        assert_eq!(path, b"src/lib.rs");
        assert_eq!(matched_pathspec, Some(&b"src/*"[..]));
        1
    }
}

#[test]
fn matched_path_callback_preserves_control_result() {
    let mut callback = ExpectSpec;
    assert_eq!(
        GitIndexMatchedPathCallback::call(&mut callback, b"src/lib.rs", Some(b"src/*")),
        1
    );
}

struct RecordAbsence(Option<bool>);

impl GitIndexMatchedPathCallback for RecordAbsence {
    fn call(&mut self, path: &[u8], matched_pathspec: Option<&[u8]>) -> i32 {
        self.0 = Some(matched_pathspec.is_none());
        assert_eq!(path, b"src/lib.rs");
        0
    }
}

#[test]
fn matched_path_callback_accepts_an_absent_pathspec() {
    let mut callback = RecordAbsence(None);
    assert_eq!(
        GitIndexMatchedPathCallback::call(&mut callback, b"src/lib.rs", None),
        0
    );
    assert_eq!(callback.0, Some(true));
}

#[test]
fn conflicts_carry_each_present_side() {
    let conflict = conflict_result(0, None, Some("ours"), Some("theirs")).unwrap();
    assert_eq!(conflict.ancestor, None);
    assert_eq!(conflict.ours, Some("ours"));
    assert_eq!(conflict.theirs, Some("theirs"));
    assert!(matches!(conflict_result::<u8>(-3, None, None, None), Err(-3)));
}

#[test]
fn conflict_iterators_hold_their_index_borrow() {
    let mut iterator = conflict_iterator_result::<'static, u32>(0, Some(7)).unwrap();
    assert_eq!(*iterator.as_ref(), 7);
    *iterator.as_mut() = 8;
    assert_eq!(*iterator.as_ref(), 8);
    assert!(matches!(
        conflict_iterator_result::<'static, u32>(0, None),
        Err(GIT_ERROR)
    ));
}

#[test]
fn extension_signatures_are_checked_before_the_call() {
    assert_eq!(check_extension_signature(b"TREE"), Ok(()));
    assert_eq!(check_extension_signature(b"BAD"), Err(GIT_EINVALID));
    assert_eq!(check_extension_signature(b"LONGER"), Err(GIT_EINVALID));
    assert_eq!(check_extension_signature(b""), Err(GIT_EINVALID));
}

#[test]
fn borrowed_handles_access_every_entry_field() {
    let mut raw = IndexEntry::zeroed();
    let entry = &mut raw;

    entry.set_borrowed_path(Some(b"src/lib.rs"));
    entry.set_mode(0o100644);
    entry.set_flags(0x1234);
    entry.set_file_size(42);
    entry.set_uid(1000);
    entry.set_flags_extended(GitIndexEntryExtendedFlags::skip_worktree());
    entry.set_gid(1001);
    entry.set_ino(7);
    entry.set_dev(8);
    entry.mtime_mut().set_seconds(9);
    entry.mtime_mut().set_nanoseconds(10);
    entry.ctime_mut().set_seconds(11);
    entry.ctime_mut().set_nanoseconds(12);
    entry.id_mut().set_oid_type(OidType::Sha256);

    let entry = &*entry;
    assert_eq!(entry.path(), Some(&b"src/lib.rs"[..]));
    assert_eq!(entry.mode(), 0o100644);
    assert_eq!(entry.flags(), 0x1234);
    assert_eq!(entry.file_size(), 42);
    assert_eq!(entry.uid(), 1000);
    assert_eq!(
        entry.flags_extended(),
        Ok(GitIndexEntryExtendedFlags::skip_worktree())
    );
    assert_eq!(entry.gid(), 1001);
    assert_eq!(entry.ino(), 7);
    assert_eq!(entry.dev(), 8);
    assert_eq!(entry.mtime().seconds(), 9);
    assert_eq!(entry.mtime().nanoseconds(), 10);
    assert_eq!(entry.ctime().seconds(), 11);
    assert_eq!(entry.ctime().nanoseconds(), 12);
    assert_eq!(entry.id().oid_type(), Ok(OidType::Sha256));
}

#[test]
fn zeroed_entry_has_no_path_and_can_be_cleared() {
    let mut raw = IndexEntry::zeroed();
    let entry = &mut raw;
    assert_eq!(entry.path(), None);
    entry.set_borrowed_path(Some(b"temporary"));
    entry.clear_path();
    assert_eq!(entry.path(), None);
}

#[test]
fn stage_and_conflict_wrappers_decode_entry_flags() {
    let mut raw = IndexEntry::zeroed();
    raw.flags = (GitIndexStage::Ours.as_raw() as u16) << 12;
    let entry = &raw;
    assert_eq!(git_index_entry_stage(entry), GitIndexStage::Ours);
    assert!(git_index_entry_is_conflict(entry));
}

#[test]
fn stages_and_extended_flags_follow_the_c_values() {
    let mut entry = IndexEntry::zeroed();
    assert_eq!(git_index_entry_stage(&entry), GitIndexStage::Normal);
    assert!(!git_index_entry_is_conflict(&entry));
    entry.set_flags(0x3fff);
    assert_eq!(git_index_entry_stage(&entry), GitIndexStage::Theirs);
    entry.set_flags(0x1000 | 0x0fff | 0x8000);
    assert_eq!(git_index_entry_stage(&entry), GitIndexStage::Ancestor);
    assert!(git_index_entry_is_conflict(&entry));

    assert_eq!(GitIndexStage::from_raw(-1), Some(GitIndexStage::Any));
    assert_eq!(GitIndexStage::from_raw(3), Some(GitIndexStage::Theirs));
    assert_eq!(GitIndexStage::from_raw(4), None);

    assert_eq!(
        GitIndexEntryExtendedFlags::intent_to_add().bits(),
        ffi::GIT_INDEX_ENTRY_INTENT_TO_ADD as u32
    );
    assert_eq!(
        GitIndexEntryExtendedFlags::skip_worktree().bits(),
        ffi::GIT_INDEX_ENTRY_SKIP_WORKTREE as u32
    );
    assert_eq!(
        GitIndexEntryExtendedFlags::uptodate().bits(),
        ffi::GIT_INDEX_ENTRY_UPTODATE as u32
    );
    assert_eq!(GitIndexEntryExtendedFlags::from_bits(0x8000), None);
    entry.flags_extended = 0x8000;
    assert_eq!(entry.flags_extended(), Err(0x8000));
    assert!(GitIndexEntryExtendedFlags::empty().bits() == 0);
}
