//! Index conflicts, conflict iteration and the pathspec callback surface.
use core::marker::PhantomData;
use vstd::prelude::*;

use crate::oid::{Oid, RAW_DIGEST_LEN};
use crate::status::{spec_owner_result, GIT_EINVALID};
pub use crate::status::status_result;

verus! {

/// Safe callable surface for pathspec matches during index updates.
///
/// `matched_pathspec` is `None` when the caller supplied no pathspec; both
/// strings are handed over without their NUL terminator.
pub trait GitIndexMatchedPathCallback {
    /// Returns zero to apply, positive to skip, or negative to abort.
    fn call(&mut self, path: &[u8], matched_pathspec: Option<&[u8]>) -> i32;
}

/// A seconds-and-nanoseconds timestamp stored in an index entry
/// (`git_index_time`).
#[derive(Clone, Copy, Debug, PartialEq, Eq, Hash, Structural)]
pub struct IndexTime {
    /// The whole-second component.
    pub seconds: i32,
    /// The subsecond nanosecond component.
    pub nanoseconds: u32,
}

/// A shared borrow of an index timestamp.
pub type IndexTimeRef<'a> = &'a IndexTime;

/// An exclusive borrow of an index timestamp.
pub type IndexTimeMut<'a> = &'a mut IndexTime;

impl IndexTime {
    /// Returns the whole-second component of this timestamp.
    pub fn seconds(&self) -> (seconds: i32)
        ensures
            seconds == self.seconds,
    {
        self.seconds
    }

    /// Returns the subsecond nanosecond component of this timestamp.
    pub fn nanoseconds(&self) -> (nanoseconds: u32)
        ensures
            nanoseconds == self.nanoseconds,
    {
        self.nanoseconds
    }

    /// Sets the whole-second component of this timestamp.
    pub fn set_seconds(&mut self, value: i32)
        ensures
            final(self).seconds == value,
            final(self).nanoseconds == old(self).nanoseconds,
    {
        self.seconds = value;
    }

    /// Sets the subsecond nanosecond component of this timestamp.
    pub fn set_nanoseconds(&mut self, value: u32)
        ensures
            final(self).nanoseconds == value,
            final(self).seconds == old(self).seconds,
    {
        self.nanoseconds = value;
    }
}

/// The three optional index entries `E` representing one conflict.
pub struct GitIndexConflict<E> {
    /// Common ancestor entry.
    pub ancestor: Option<E>,
    /// Entry from our side.
    pub ours: Option<E>,
    /// Entry from their side.
    pub theirs: Option<E>,
}

/// Interprets a conflict lookup (`git_index_conflict_get`,
/// `git_index_conflict_next`): the three sides, each possibly missing, on a
/// zero status, else the status.
pub fn conflict_result<E>(status: i32, ancestor: Option<E>, ours: Option<E>, theirs: Option<E>) -> (r: Result<
    GitIndexConflict<E>,
    i32,
>)
    ensures
        status != 0 ==> (r matches Err(e) && e == status),
        status == 0 ==> (r matches Ok(c) && c.ancestor == ancestor && c.ours == ours && c.theirs
            == theirs),
{
    if status != 0 {
        return Err(status);
    }
    Ok(GitIndexConflict { ancestor, ours, theirs })
}

/// An owned conflict iterator `I` carrying its exclusive index borrow.
pub struct GitIndexConflicts<'index, I> {
    inner: I,
    _index: PhantomData<&'index mut ()>,
}

impl<'index, I> GitIndexConflicts<'index, I> {
    /// The owned iterator this value holds.
    pub closed spec fn spec_inner(&self) -> I {
        self.inner
    }

    /// Borrows the iterator.
    pub fn as_ref(&self) -> (iterator: &I)
        ensures
            *iterator == self.spec_inner(),
    {
        &self.inner
    }

    /// Borrows the iterator exclusively.
    pub fn as_mut(&mut self) -> (iterator: &mut I)
        ensures
            *iterator == old(self).spec_inner(),
            final(self).spec_inner() == *final(iterator),
    {
        &mut self.inner
    }
}

/// Interprets `git_index_conflict_iterator_new`: the owned iterator, holding
/// the index borrow, exactly when the call succeeded and produced one.
pub fn conflict_iterator_result<'index, I>(status: i32, inner: Option<I>) -> (r: Result<
    GitIndexConflicts<'index, I>,
    i32,
>)
    ensures
        match spec_owner_result(status, inner) {
            Ok(it) => r matches Ok(c) && c.spec_inner() == it,
            Err(e) => r matches Err(f) && f == e,
        },
{
    match crate::status::owner_result(status, inner) {
        Ok(inner) => Ok(GitIndexConflicts { inner, _index: PhantomData }),
        Err(e) => Err(e),
    }
}

/// The check `git_index_extension_add`, `git_index_extension_lookup` and
/// `git_index_extension_remove` make before calling C: an extension
/// signature is exactly four bytes, else `GIT_EINVALID`.
pub fn check_extension_signature(signature: &[u8]) -> (r: Result<(), i32>)
    ensures
        r == (if signature@.len() == 4 {
            Ok::<(), i32>(())
        } else {
            Err::<(), i32>(GIT_EINVALID)
        }),
{
    if signature.len() != 4 {
        Err(GIT_EINVALID)
    } else {
        Ok(())
    }
}

/// `GIT_INDEX_ENTRY_STAGEMASK`: the bits of an entry's flags that hold its
/// stage.
pub const GIT_INDEX_ENTRY_STAGEMASK: u16 = 0x3000;

/// `GIT_INDEX_ENTRY_STAGESHIFT`: where the stage bits start.
pub const GIT_INDEX_ENTRY_STAGESHIFT: u16 = 12;

/// `GIT_INDEX_STAGE_ANY`.
pub const GIT_INDEX_STAGE_ANY: i32 = -1;
/// `GIT_INDEX_STAGE_NORMAL`.
pub const GIT_INDEX_STAGE_NORMAL: i32 = 0;
/// `GIT_INDEX_STAGE_ANCESTOR`.
pub const GIT_INDEX_STAGE_ANCESTOR: i32 = 1;
/// `GIT_INDEX_STAGE_OURS`.
pub const GIT_INDEX_STAGE_OURS: i32 = 2;
/// `GIT_INDEX_STAGE_THEIRS`.
pub const GIT_INDEX_STAGE_THEIRS: i32 = 3;

/// An index stage (`git_index_stage_t`).
#[derive(Clone, Copy, Debug, PartialEq, Eq, Hash, Structural)]
pub enum GitIndexStage {
    /// Any stage, when searching.
    Any,
    /// A normal staged file.
    Normal,
    /// The ancestor side of a conflict.
    Ancestor,
    /// The "ours" side of a conflict.
    Ours,
    /// The "theirs" side of a conflict.
    Theirs,
}

/// The C scalar of each stage.
pub open spec fn spec_stage_raw(stage: GitIndexStage) -> i32 {
    match stage {
        GitIndexStage::Any => GIT_INDEX_STAGE_ANY,
        GitIndexStage::Normal => GIT_INDEX_STAGE_NORMAL,
        GitIndexStage::Ancestor => GIT_INDEX_STAGE_ANCESTOR,
        GitIndexStage::Ours => GIT_INDEX_STAGE_OURS,
        GitIndexStage::Theirs => GIT_INDEX_STAGE_THEIRS,
    }
}

/// The stage a C scalar denotes, if it is a published one.
pub open spec fn spec_stage_from_raw(raw: i32) -> Option<GitIndexStage> {
    if raw == GIT_INDEX_STAGE_ANY {
        Some(GitIndexStage::Any)
    } else if raw == GIT_INDEX_STAGE_NORMAL {
        Some(GitIndexStage::Normal)
    } else if raw == GIT_INDEX_STAGE_ANCESTOR {
        Some(GitIndexStage::Ancestor)
    } else if raw == GIT_INDEX_STAGE_OURS {
        Some(GitIndexStage::Ours)
    } else if raw == GIT_INDEX_STAGE_THEIRS {
        Some(GitIndexStage::Theirs)
    } else {
        None
    }
}

impl GitIndexStage {
    /// Checks a C scalar against the published stages.
    pub fn from_raw(raw: i32) -> (stage: Option<GitIndexStage>)
        ensures
            stage == spec_stage_from_raw(raw),
    {
        if raw == GIT_INDEX_STAGE_ANY {
            Some(GitIndexStage::Any)
        } else if raw == GIT_INDEX_STAGE_NORMAL {
            Some(GitIndexStage::Normal)
        } else if raw == GIT_INDEX_STAGE_ANCESTOR {
            Some(GitIndexStage::Ancestor)
        } else if raw == GIT_INDEX_STAGE_OURS {
            Some(GitIndexStage::Ours)
        } else if raw == GIT_INDEX_STAGE_THEIRS {
            Some(GitIndexStage::Theirs)
        } else {
            None
        }
    }

    /// The C scalar of this stage.
    pub fn as_raw(self) -> (raw: i32)
        ensures
            raw == spec_stage_raw(self),
    {
        match self {
            GitIndexStage::Any => GIT_INDEX_STAGE_ANY,
            GitIndexStage::Normal => GIT_INDEX_STAGE_NORMAL,
            GitIndexStage::Ancestor => GIT_INDEX_STAGE_ANCESTOR,
            GitIndexStage::Ours => GIT_INDEX_STAGE_OURS,
            GitIndexStage::Theirs => GIT_INDEX_STAGE_THEIRS,
        }
    }
}

/// `GIT_INDEX_ENTRY_INTENT_TO_ADD`.
pub const GIT_INDEX_ENTRY_INTENT_TO_ADD: u32 = 0x2000;
/// `GIT_INDEX_ENTRY_SKIP_WORKTREE`.
pub const GIT_INDEX_ENTRY_SKIP_WORKTREE: u32 = 0x4000;
/// `GIT_INDEX_ENTRY_UPTODATE`.
pub const GIT_INDEX_ENTRY_UPTODATE: u32 = 0x4;
/// Every published extended entry flag.
pub const GIT_INDEX_ENTRY_EXTENDED_ALL: u32 = 0x6004;

/// A set of extended index-entry flags, holding only published bits.
#[derive(Clone, Copy, Debug, PartialEq, Eq, Hash, Structural)]
pub struct GitIndexEntryExtendedFlags(u32);

impl View for GitIndexEntryExtendedFlags {
    type V = u32;

    closed spec fn view(&self) -> u32 {
        self.0
    }
}

/// Whether `bits` holds only published extended entry flags.
pub open spec fn spec_published_extended_flags(bits: u32) -> bool {
    bits & !GIT_INDEX_ENTRY_EXTENDED_ALL == 0
}

impl GitIndexEntryExtendedFlags {
    /// The type invariant: no unpublished bit is ever set.
    #[verifier::type_invariant]
    closed spec fn published(self) -> bool {
        self.0 & !GIT_INDEX_ENTRY_EXTENDED_ALL == 0
    }

    /// No flag set.
    pub fn empty() -> (r: GitIndexEntryExtendedFlags)
        ensures
            r@ == 0,
    {
        assert(0u32 & !0x6004u32 == 0) by (bit_vector);
        GitIndexEntryExtendedFlags(0)
    }

    /// `INTENT_TO_ADD`: the entry was added with `git add -N`.
    pub fn intent_to_add() -> (r: GitIndexEntryExtendedFlags)
        ensures
            r@ == GIT_INDEX_ENTRY_INTENT_TO_ADD,
    {
        assert(0x2000u32 & !0x6004u32 == 0) by (bit_vector);
        GitIndexEntryExtendedFlags(GIT_INDEX_ENTRY_INTENT_TO_ADD)
    }

    /// `SKIP_WORKTREE`: the entry is skipped in the work tree.
    pub fn skip_worktree() -> (r: GitIndexEntryExtendedFlags)
        ensures
            r@ == GIT_INDEX_ENTRY_SKIP_WORKTREE,
    {
        assert(0x4000u32 & !0x6004u32 == 0) by (bit_vector);
        GitIndexEntryExtendedFlags(GIT_INDEX_ENTRY_SKIP_WORKTREE)
    }

    /// `UPTODATE`: the entry is known to match the work tree.
    pub fn uptodate() -> (r: GitIndexEntryExtendedFlags)
        ensures
            r@ == GIT_INDEX_ENTRY_UPTODATE,
    {
        assert(0x4u32 & !0x6004u32 == 0) by (bit_vector);
        GitIndexEntryExtendedFlags(GIT_INDEX_ENTRY_UPTODATE)
    }

    /// The flag set `bits` denotes, if every bit in it is published.
    pub fn from_bits(bits: u32) -> (r: Option<GitIndexEntryExtendedFlags>)
        ensures
            spec_published_extended_flags(bits) ==> (r matches Some(f) && f@ == bits),
            !spec_published_extended_flags(bits) ==> r is None,
    {
        if bits & !GIT_INDEX_ENTRY_EXTENDED_ALL == 0 {
            Some(GitIndexEntryExtendedFlags(bits))
        } else {
            None
        }
    }

    /// The C bits of this set.
    pub fn bits(self) -> (bits: u32)
        ensures
            bits == self@,
            spec_published_extended_flags(bits),
    {
        proof {
            use_type_invariant(&self);
        }
        self.0
    }
}

/// One entry of an index (`git_index_entry`): its timestamps, stat data,
/// object ID, flags and path. The path is borrowed for `'a`.
#[derive(Clone, Copy, Debug)]
pub struct IndexEntry<'a> {
    /// The status-change time.
    pub ctime: IndexTime,
    /// The modification time.
    pub mtime: IndexTime,
    /// The device.
    pub dev: u32,
    /// The inode.
    pub ino: u32,
    /// The file mode.
    pub mode: u32,
    /// The owner's user ID.
    pub uid: u32,
    /// The owner's group ID.
    pub gid: u32,
    /// The file size, truncated to 32 bits.
    pub file_size: u32,
    /// The ID of the staged object.
    pub id: Oid,
    /// The flags, including the stage bits.
    pub flags: u16,
    /// The raw extended flags.
    pub flags_extended: u16,
    /// The path, without its terminator.
    pub path: Option<&'a [u8]>,
}

/// A shared borrow of an index entry.
pub type IndexEntryRef<'e, 'a> = &'e IndexEntry<'a>;

/// An exclusive borrow of an index entry.
pub type IndexEntryMut<'e, 'a> = &'e mut IndexEntry<'a>;

impl<'a> IndexEntry<'a> {
    /// The all-zero entry: no path, zero stat data, a zeroed ID.
    pub fn zeroed() -> (entry: IndexEntry<'a>)
        ensures
            entry == (IndexEntry {
                ctime: IndexTime { seconds: 0, nanoseconds: 0 },
                mtime: IndexTime { seconds: 0, nanoseconds: 0 },
                dev: 0,
                ino: 0,
                mode: 0,
                uid: 0,
                gid: 0,
                file_size: 0,
                id: Oid { kind: 0, id: entry.id.id },
                flags: 0,
                flags_extended: 0,
                path: None,
            }),
            forall|i: int| 0 <= i < RAW_DIGEST_LEN ==> entry.id.id@[i] == 0,
    {
        IndexEntry {
            ctime: IndexTime { seconds: 0, nanoseconds: 0 },
            mtime: IndexTime { seconds: 0, nanoseconds: 0 },
            dev: 0,
            ino: 0,
            mode: 0,
            uid: 0,
            gid: 0,
            file_size: 0,
            id: Oid::zeroed(),
            flags: 0,
            flags_extended: 0,
            path: None,
        }
    }

    /// The path, or `None` when the entry has none.
    pub fn path(&self) -> (path: Option<&'a [u8]>)
        ensures
            path == self.path,
    {
        self.path
    }

    /// The file mode.
    pub fn mode(&self) -> (mode: u32)
        ensures
            mode == self.mode,
    {
        self.mode
    }

    /// The flags, including the stage bits.
    pub fn flags(&self) -> (flags: u16)
        ensures
            flags == self.flags,
    {
        self.flags
    }

    /// The file size.
    pub fn file_size(&self) -> (size: u32)
        ensures
            size == self.file_size,
    {
        self.file_size
    }

    /// Borrows the staged object's ID.
    pub fn id(&self) -> (id: &Oid)
        ensures
            *id == self.id,
    {
        &self.id
    }

    /// Borrows the modification time.
    pub fn mtime(&self) -> (time: &IndexTime)
        ensures
            *time == self.mtime,
    {
        &self.mtime
    }

    /// Borrows the status-change time.
    pub fn ctime(&self) -> (time: &IndexTime)
        ensures
            *time == self.ctime,
    {
        &self.ctime
    }

    /// The owner's user ID.
    pub fn uid(&self) -> (uid: u32)
        ensures
            uid == self.uid,
    {
        self.uid
    }

    /// The extended flags, or the raw value when it holds an unpublished
    /// bit.
    pub fn flags_extended(&self) -> (r: Result<GitIndexEntryExtendedFlags, u16>)
        ensures
            spec_published_extended_flags(self.flags_extended as u32) ==> (r matches Ok(f) && f@
                == self.flags_extended as u32),
            !spec_published_extended_flags(self.flags_extended as u32) ==> r == Err::<
                GitIndexEntryExtendedFlags,
                u16,
            >(self.flags_extended),
    {
        match GitIndexEntryExtendedFlags::from_bits(self.flags_extended as u32) {
            Some(flags) => Ok(flags),
            None => Err(self.flags_extended),
        }
    }

    /// The owner's group ID.
    pub fn gid(&self) -> (gid: u32)
        ensures
            gid == self.gid,
    {
        self.gid
    }

    /// The inode.
    pub fn ino(&self) -> (ino: u32)
        ensures
            ino == self.ino,
    {
        self.ino
    }

    /// The device.
    pub fn dev(&self) -> (dev: u32)
        ensures
            dev == self.dev,
    {
        self.dev
    }

    /// Stores a borrowed path; nothing else changes.
    pub fn set_borrowed_path(&mut self, path: Option<&'a [u8]>)
        ensures
            *final(self) == (IndexEntry { path, ..*old(self) }),
    {
        self.path = path;
    }

    /// Clears the path; nothing else changes.
    pub fn clear_path(&mut self)
        ensures
            *final(self) == (IndexEntry { path: None, ..*old(self) }),
    {
        self.set_borrowed_path(None);
    }

    /// Sets the file mode; nothing else changes.
    pub fn set_mode(&mut self, value: u32)
        ensures
            *final(self) == (IndexEntry { mode: value, ..*old(self) }),
    {
        self.mode = value;
    }

    /// Sets the flags; nothing else changes.
    pub fn set_flags(&mut self, value: u16)
        ensures
            *final(self) == (IndexEntry { flags: value, ..*old(self) }),
    {
        self.flags = value;
    }

    /// Sets the file size; nothing else changes.
    pub fn set_file_size(&mut self, value: u32)
        ensures
            *final(self) == (IndexEntry { file_size: value, ..*old(self) }),
    {
        self.file_size = value;
    }

    /// Borrows the staged object's ID exclusively; what is written through
    /// the borrow is the entry's new ID, and nothing else changes.
    pub fn id_mut(&mut self) -> (id: &mut Oid)
        ensures
            *id == old(self).id,
            *final(self) == (IndexEntry { id: *final(id), ..*old(self) }),
    {
        &mut self.id
    }

    /// Borrows the modification time exclusively; nothing else changes.
    pub fn mtime_mut(&mut self) -> (time: &mut IndexTime)
        ensures
            *time == old(self).mtime,
            *final(self) == (IndexEntry { mtime: *final(time), ..*old(self) }),
    {
        &mut self.mtime
    }

    /// Borrows the status-change time exclusively; nothing else changes.
    pub fn ctime_mut(&mut self) -> (time: &mut IndexTime)
        ensures
            *time == old(self).ctime,
            *final(self) == (IndexEntry { ctime: *final(time), ..*old(self) }),
    {
        &mut self.ctime
    }

    /// Sets the owner's user ID; nothing else changes.
    pub fn set_uid(&mut self, value: u32)
        ensures
            *final(self) == (IndexEntry { uid: value, ..*old(self) }),
    {
        self.uid = value;
    }

    /// Stores the extended flags; nothing else changes.
    pub fn set_flags_extended(&mut self, value: GitIndexEntryExtendedFlags)
        ensures
            final(self).flags_extended as u32 == value@,
            *final(self) == (IndexEntry { flags_extended: final(self).flags_extended, ..*old(self) }),
    {
        let bits = value.bits();
        assert(bits & !0x6004u32 == 0 ==> bits < 0x10000) by (bit_vector);
        self.flags_extended = bits as u16;
    }

    /// Sets the owner's group ID; nothing else changes.
    pub fn set_gid(&mut self, value: u32)
        ensures
            *final(self) == (IndexEntry { gid: value, ..*old(self) }),
    {
        self.gid = value;
    }

    /// Sets the inode; nothing else changes.
    pub fn set_ino(&mut self, value: u32)
        ensures
            *final(self) == (IndexEntry { ino: value, ..*old(self) }),
    {
        self.ino = value;
    }

    /// Sets the device; nothing else changes.
    pub fn set_dev(&mut self, value: u32)
        ensures
            *final(self) == (IndexEntry { dev: value, ..*old(self) }),
    {
        self.dev = value;
    }
}

/// The stage number an entry's flags hold (`GIT_INDEX_ENTRY_STAGE`).
pub open spec fn spec_entry_stage_bits(flags: u16) -> u16 {
    (flags & GIT_INDEX_ENTRY_STAGEMASK) >> GIT_INDEX_ENTRY_STAGESHIFT
}

/// The stage an entry's flags hold.
pub open spec fn spec_entry_stage(flags: u16) -> GitIndexStage {
    let bits = spec_entry_stage_bits(flags);
    if bits == 0 {
        GitIndexStage::Normal
    } else if bits == 1 {
        GitIndexStage::Ancestor
    } else if bits == 2 {
        GitIndexStage::Ours
    } else {
        GitIndexStage::Theirs
    }
}

/// `git_index_entry_stage`: the stage an entry's flags hold.
pub fn git_index_entry_stage(entry: &IndexEntry<'_>) -> (stage: GitIndexStage)
    ensures
        stage == spec_entry_stage(entry.flags),
        spec_entry_stage_bits(entry.flags) <= 3,
{
    let flags = entry.flags;
    let bits = (flags & GIT_INDEX_ENTRY_STAGEMASK) >> GIT_INDEX_ENTRY_STAGESHIFT;
    assert((flags & 0x3000u16) >> 12u16 <= 3) by (bit_vector);
    if bits == 0 {
        GitIndexStage::Normal
    } else if bits == 1 {
        GitIndexStage::Ancestor
    } else if bits == 2 {
        GitIndexStage::Ours
    } else {
        GitIndexStage::Theirs
    }
}

/// `git_index_entry_is_conflict`: whether the entry sits in a conflict
/// stage, that is, in any stage but the normal one.
pub fn git_index_entry_is_conflict(entry: &IndexEntry<'_>) -> (conflict: bool)
    ensures
        conflict == (spec_entry_stage_bits(entry.flags) > 0),
        conflict == (spec_entry_stage(entry.flags) != GitIndexStage::Normal),
{
    let stage = git_index_entry_stage(entry);
    match stage {
        GitIndexStage::Normal => false,
        _ => true,
    }
}

} // verus!
