//! Object-database streams, writepacks, lookup flags and the interpretation
//! of object-database calls.
use core::marker::PhantomData;
use vstd::prelude::*;

use crate::indexer::GitIndexerProgressCallback;
use crate::oid::Oid;
use crate::status::{spec_owner_result, GIT_ERROR};
use crate::types::{spec_object_type_from_raw, spec_object_type_raw, GitObjectType};
pub use crate::status::status_result;

verus! {

/// Safe callable surface for object IDs visited by an object database.
pub trait GitOdbForeachCallback {
    /// Receives one transient object ID. Nonzero stops iteration.
    fn call(&mut self, oid: &Oid) -> i32;
}

/// `GIT_ODB_LOOKUP_NO_REFRESH`.
pub const GIT_ODB_LOOKUP_NO_REFRESH: u32 = 1;

/// Flags controlling an object-database lookup, holding only published bits.
#[derive(Clone, Copy, Debug, PartialEq, Eq, Hash, Structural)]
pub struct GitOdbLookupFlags(u32);

impl View for GitOdbLookupFlags {
    type V = u32;

    closed spec fn view(&self) -> u32 {
        self.0
    }
}

impl GitOdbLookupFlags {
    /// The type invariant: no unpublished bit is ever set.
    #[verifier::type_invariant]
    closed spec fn published(self) -> bool {
        self.0 & !GIT_ODB_LOOKUP_NO_REFRESH == 0
    }

    /// The default lookup behavior (`DEFAULT`): no flag set.
    pub fn default_lookup() -> (r: GitOdbLookupFlags)
        ensures
            r@ == 0,
    {
        assert(0u32 & !1u32 == 0) by (bit_vector);
        GitOdbLookupFlags(0)
    }

    /// Do not refresh the object database when the lookup fails
    /// (`NO_REFRESH`).
    pub fn no_refresh() -> (r: GitOdbLookupFlags)
        ensures
            r@ == GIT_ODB_LOOKUP_NO_REFRESH,
    {
        assert(1u32 & !1u32 == 0) by (bit_vector);
        GitOdbLookupFlags(GIT_ODB_LOOKUP_NO_REFRESH)
    }

    /// Converts raw bits when they contain only published flags.
    pub fn from_bits(bits: u32) -> (r: Option<GitOdbLookupFlags>)
        ensures
            bits & !GIT_ODB_LOOKUP_NO_REFRESH == 0 ==> (r matches Some(f) && f@ == bits),
            bits & !GIT_ODB_LOOKUP_NO_REFRESH != 0 ==> r is None,
    {
        if bits & !GIT_ODB_LOOKUP_NO_REFRESH == 0 {
            Some(GitOdbLookupFlags(bits))
        } else {
            None
        }
    }

    /// Returns the underlying C flag bits.
    pub fn bits(self) -> (bits: u32)
        ensures
            bits == self@,
            bits & !GIT_ODB_LOOKUP_NO_REFRESH == 0,
    {
        proof {
            use_type_invariant(&self);
        }
        self.0
    }
}

/// A stream `S` whose backend remains protected by an exclusive borrow of the
/// object database it was opened from.
pub struct GitOdbScopedStream<'odb, S> {
    inner: S,
    _odb: PhantomData<&'odb mut ()>,
}

impl<'odb, S> GitOdbScopedStream<'odb, S> {
    /// The owned stream this value holds.
    pub closed spec fn spec_inner(&self) -> S {
        self.inner
    }

    /// Exclusively reborrows the underlying stream.
    pub fn as_mut(&mut self) -> (stream: &mut S)
        ensures
            *stream == old(self).spec_inner(),
            final(self).spec_inner() == *final(stream),
    {
        &mut self.inner
    }
}

/// Interprets `git_odb_open_wstream`: a successful call always hands back
/// the stream, which then holds the database borrow.
pub fn wstream_result<'odb, S>(status: i32, stream: Option<S>) -> (r: Result<
    GitOdbScopedStream<'odb, S>,
    i32,
>)
    requires
        status == 0 ==> stream is Some,
    ensures
        status != 0 ==> (r matches Err(e) && e == status),
        status == 0 ==> (r matches Ok(s) && Some(s.spec_inner()) == stream),
{
    if status != 0 {
        return Err(status);
    }
    match stream {
        Some(inner) => Ok(GitOdbScopedStream { inner, _odb: PhantomData }),
        None => Err(GIT_ERROR),
    }
}

/// What `git_odb_stream_read` reports for a buffer of `buffer_len` bytes: a
/// negative status is the error, a count that fits the buffer is the number
/// of bytes read, and a larger count is `GIT_ERROR`.
pub open spec fn spec_stream_read_result(status: i32, buffer_len: usize) -> Result<usize, i32> {
    if status < 0 {
        Err(status)
    } else if status <= buffer_len {
        Ok(status as usize)
    } else {
        Err(GIT_ERROR)
    }
}

/// Interprets the status `git_odb_stream_read` returns for a buffer of
/// `buffer_len` bytes.
pub fn stream_read_result(status: i32, buffer_len: usize) -> (r: Result<usize, i32>)
    ensures
        r == spec_stream_read_result(status, buffer_len),
        r matches Ok(count) ==> count <= buffer_len,
{
    if status < 0 {
        Err(status)
    } else {
        let count = status as usize;
        if count <= buffer_len {
            Ok(count)
        } else {
            Err(GIT_ERROR)
        }
    }
}

/// A successful C call returned an unknown object kind.
#[derive(Clone, Copy, Debug, PartialEq, Eq, Structural)]
pub struct InvalidOdbObjectType(pub i32);

/// Interprets the kind `git_odb_object_type` reports: a published kind, or
/// the unknown scalar as the error.
pub fn object_type_result(raw: i32) -> (r: Result<GitObjectType, InvalidOdbObjectType>)
    ensures
        r == (match spec_object_type_from_raw(raw) {
            Some(kind) => Ok::<GitObjectType, InvalidOdbObjectType>(kind),
            None => Err::<GitObjectType, InvalidOdbObjectType>(InvalidOdbObjectType(raw)),
        }),
{
    match GitObjectType::from_raw(raw) {
        Some(kind) => Ok(kind),
        None => Err(InvalidOdbObjectType(raw)),
    }
}

/// What `git_odb_read_header` reports: the status on failure; on success the
/// length and kind, or `GIT_ERROR` when the kind is not a published one.
pub open spec fn spec_read_header_result(status: i32, len: usize, raw_kind: i32) -> Result<
    (usize, GitObjectType),
    i32,
> {
    if status != 0 {
        Err(status)
    } else {
        match spec_object_type_from_raw(raw_kind) {
            Some(kind) => Ok((len, kind)),
            None => Err(GIT_ERROR),
        }
    }
}

/// What reading an object's header (and opening a read stream) reports: a
/// nonzero status is the error; with a zero status, every published kind
/// (-2 any, -1 invalid, 1 commit, 2 tree, 3 blob, 4 tag, 6 offset delta,
/// 7 reference delta) gives the length and that kind, and only an
/// unpublished kind gives `GIT_ERROR`. A reported kind always has the C value
/// that was handed back.
pub proof fn lemma_read_header_kinds(status: i32, len: usize, raw_kind: i32)
    ensures
        status != 0 ==> spec_read_header_result(status, len, raw_kind) == Err::<
            (usize, GitObjectType),
            i32,
        >(status),
        status == 0 && raw_kind == -2 ==> spec_read_header_result(status, len, raw_kind) == Ok::<
            (usize, GitObjectType),
            i32,
        >((len, GitObjectType::Any)),
        status == 0 && raw_kind == -1 ==> spec_read_header_result(status, len, raw_kind) == Ok::<
            (usize, GitObjectType),
            i32,
        >((len, GitObjectType::Invalid)),
        status == 0 && raw_kind == 1 ==> spec_read_header_result(status, len, raw_kind) == Ok::<
            (usize, GitObjectType),
            i32,
        >((len, GitObjectType::Commit)),
        status == 0 && raw_kind == 2 ==> spec_read_header_result(status, len, raw_kind) == Ok::<
            (usize, GitObjectType),
            i32,
        >((len, GitObjectType::Tree)),
        status == 0 && raw_kind == 3 ==> spec_read_header_result(status, len, raw_kind) == Ok::<
            (usize, GitObjectType),
            i32,
        >((len, GitObjectType::Blob)),
        status == 0 && raw_kind == 4 ==> spec_read_header_result(status, len, raw_kind) == Ok::<
            (usize, GitObjectType),
            i32,
        >((len, GitObjectType::Tag)),
        status == 0 && raw_kind == 6 ==> spec_read_header_result(status, len, raw_kind) == Ok::<
            (usize, GitObjectType),
            i32,
        >((len, GitObjectType::OfsDelta)),
        status == 0 && raw_kind == 7 ==> spec_read_header_result(status, len, raw_kind) == Ok::<
            (usize, GitObjectType),
            i32,
        >((len, GitObjectType::RefDelta)),
        status == 0 && !(raw_kind == -2 || raw_kind == -1 || (1 <= raw_kind <= 4) || raw_kind == 6
            || raw_kind == 7) ==> spec_read_header_result(status, len, raw_kind) == Err::<
            (usize, GitObjectType),
            i32,
        >(-1i32),
        spec_read_header_result(status, len, raw_kind) matches Ok((l, kind)) ==> l == len
            && spec_object_type_raw(kind) == raw_kind,
{
}

/// Interprets the status, length and kind `git_odb_read_header` hands back.
pub fn read_header_result(status: i32, len: usize, raw_kind: i32) -> (r: Result<
    (usize, GitObjectType),
    i32,
>)
    ensures
        r == spec_read_header_result(status, len, raw_kind),
{
    if status != 0 {
        return Err(status);
    }
    match GitObjectType::from_raw(raw_kind) {
        Some(kind) => Ok((len, kind)),
        None => Err(GIT_ERROR),
    }
}

/// Interprets `git_odb_open_rstream`: on success the stream, tied to the
/// database, with the object's length and kind. A successful call that
/// reports an unknown kind still handed over its stream, which is dropped
/// here before `GIT_ERROR` is returned.
pub fn rstream_result<'odb, S>(status: i32, stream: Option<S>, len: usize, raw_kind: i32) -> (r:
    Result<(GitOdbScopedStream<'odb, S>, usize, GitObjectType), i32>)
    requires
        status == 0 ==> stream is Some,
    ensures
        spec_read_header_result(status, len, raw_kind) matches Err(e) ==> (r matches Err(f)
            && f == e),
        spec_read_header_result(status, len, raw_kind) matches Ok((l, kind)) ==> (r matches Ok(
            (s, l2, kind2),
        ) && Some(s.spec_inner()) == stream && l2 == l && kind2 == kind),
{
    if status != 0 {
        return Err(status);
    }
    let kind = match GitObjectType::from_raw(raw_kind) {
        Some(kind) => kind,
        None => return Err(GIT_ERROR),
    };
    match stream {
        Some(inner) => Ok((GitOdbScopedStream { inner, _odb: PhantomData }, len, kind)),
        None => Err(GIT_ERROR),
    }
}

/// An owned writepack `W` together with the database borrow and the
/// progress callback `C` it may call until it is dropped.
///
/// The writepack is dropped before the boxed callback, so its destructor can
/// still use the registered payload.
pub struct GitOdbWritepack<'db, W, C: GitIndexerProgressCallback> {
    inner: W,
    callback: Box<C>,
    _database: PhantomData<&'db ()>,
}

impl<'db, W, C: GitIndexerProgressCallback> GitOdbWritepack<'db, W, C> {
    /// The owned writepack this value holds.
    pub closed spec fn spec_inner(&self) -> W {
        self.inner
    }

    /// The callback this value retains.
    pub closed spec fn spec_callback(&self) -> C {
        *self.callback
    }

    /// Borrows the writepack.
    pub fn as_ref(&self) -> (writepack: &W)
        ensures
            *writepack == self.spec_inner(),
    {
        &self.inner
    }

    /// Borrows the writepack exclusively.
    pub fn as_mut(&mut self) -> (writepack: &mut W)
        ensures
            *writepack == old(self).spec_inner(),
            final(self).spec_inner() == *final(writepack),
            final(self).spec_callback() == old(self).spec_callback(),
    {
        &mut self.inner
    }

    /// Borrows the callback retained for later append and commit operations.
    pub fn callback(&self) -> (callback: &C)
        ensures
            *callback == self.spec_callback(),
    {
        &self.callback
    }
}

/// Interprets `git_odb_write_pack`: on success the writepack and the boxed
/// callback it was registered with travel together; otherwise the callback
/// is dropped with the error.
pub fn writepack_result<'db, W, C: GitIndexerProgressCallback>(
    status: i32,
    inner: Option<W>,
    callback: Box<C>,
) -> (r: Result<GitOdbWritepack<'db, W, C>, i32>)
    ensures
        match spec_owner_result(status, inner) {
            Ok(w) => r matches Ok(p) && p.spec_inner() == w && p.spec_callback() == *callback,
            Err(e) => r matches Err(f) && f == e,
        },
{
    match crate::status::owner_result(status, inner) {
        Ok(inner) => Ok(GitOdbWritepack { inner, callback, _database: PhantomData }),
        Err(e) => Err(e),
    }
}

} // verus!
