//! Object-ID algorithms and the plain object-ID value.
use core::cmp::Ordering;
use vstd::prelude::*;

use crate::status::{GIT_EINVALID, GIT_ERROR};

verus! {

/// The inline digest capacity of an object ID, C's `GIT_OID_MAX_SIZE`.
pub const RAW_DIGEST_LEN: usize = 32;

/// `GIT_OID_SHA1`, the C value of [`OidType::Sha1`].
pub const GIT_OID_SHA1: u32 = 1;

/// `GIT_OID_SHA256`, the C value of [`OidType::Sha256`].
pub const GIT_OID_SHA256: u32 = 2;

/// The hash algorithm identifying an object ID's byte width.
#[derive(Clone, Copy, Debug, PartialEq, Eq, Hash, Structural)]
pub enum OidType {
    /// A 20-byte SHA-1 object ID.
    Sha1,
    /// A 32-byte SHA-256 object ID.
    Sha256,
}

/// A raw value that is not a published [`OidType`].
#[derive(Clone, Copy, Debug, PartialEq, Eq, Structural)]
pub struct InvalidOidType(pub u32);

/// The digest width in bytes of each published algorithm.
pub open spec fn spec_digest_len(t: OidType) -> nat {
    match t {
        OidType::Sha1 => 20,
        OidType::Sha256 => 32,
    }
}

/// The C value of each published algorithm.
pub open spec fn spec_oid_type_raw(t: OidType) -> u32 {
    match t {
        OidType::Sha1 => GIT_OID_SHA1,
        OidType::Sha256 => GIT_OID_SHA256,
    }
}

/// Decodes a C algorithm value: the two published values and nothing else.
pub open spec fn spec_oid_type_from_raw(raw: u32) -> Result<OidType, InvalidOidType> {
    if raw == GIT_OID_SHA1 {
        Ok(OidType::Sha1)
    } else if raw == GIT_OID_SHA256 {
        Ok(OidType::Sha256)
    } else {
        Err(InvalidOidType(raw))
    }
}

impl InvalidOidType {
    /// Returns the unrecognized C value.
    pub fn value(self) -> (v: u32)
        ensures
            v == self.0,
    {
        self.0
    }
}

impl OidType {
    /// Returns the significant digest width in bytes, C's `git_oid_size`.
    pub fn digest_len(self) -> (len: usize)
        ensures
            len == spec_digest_len(self),
    {
        match self {
            OidType::Sha1 => 20,
            OidType::Sha256 => 32,
        }
    }

    /// Returns the hexadecimal width, C's `git_oid_hexsize`.
    pub fn hex_len(self) -> (len: usize)
        ensures
            len == 2 * spec_digest_len(self),
    {
        self.digest_len() * 2
    }
}

impl From<OidType> for u32 {
    fn from(oid_type: OidType) -> (raw: u32) {
        match oid_type {
            OidType::Sha1 => GIT_OID_SHA1,
            OidType::Sha256 => GIT_OID_SHA256,
        }
    }
}

impl vstd::std_specs::convert::FromSpecImpl<OidType> for u32 {
    open spec fn obeys_from_spec() -> bool {
        true
    }

    open spec fn from_spec(v: OidType) -> u32 {
        spec_oid_type_raw(v)
    }
}

impl TryFrom<u32> for OidType {
    type Error = InvalidOidType;

    fn try_from(raw: u32) -> (r: Result<OidType, InvalidOidType>) {
        if raw == GIT_OID_SHA1 {
            Ok(OidType::Sha1)
        } else if raw == GIT_OID_SHA256 {
            Ok(OidType::Sha256)
        } else {
            Err(InvalidOidType(raw))
        }
    }
}

impl vstd::std_specs::convert::TryFromSpecImpl<u32> for OidType {
    open spec fn obeys_try_from_spec() -> bool {
        true
    }

    open spec fn try_from_spec(v: u32) -> Result<OidType, InvalidOidType> {
        spec_oid_type_from_raw(v)
    }
}

/// Every algorithm survives the trip through its C value, and every other C
/// value is refused as itself.
pub proof fn lemma_oid_type_round_trip(oid_type: OidType, raw: u32)
    ensures
        spec_oid_type_from_raw(spec_oid_type_raw(oid_type)) == Ok::<OidType, InvalidOidType>(
            oid_type,
        ),
        raw != GIT_OID_SHA1 && raw != GIT_OID_SHA256 ==> spec_oid_type_from_raw(raw) == Err::<
            OidType,
            InvalidOidType,
        >(InvalidOidType(raw)),
{
}

/// A Git object identifier: the C algorithm byte and the inline digest array,
/// of which only the algorithm's leading [`OidType::digest_len`] bytes are
/// significant.
#[derive(Clone, Copy, Debug, PartialEq, Eq, Hash)]
pub struct Oid {
    /// The C algorithm value (`git_oid.type`).
    pub kind: u8,
    /// The inline digest storage (`git_oid.id`).
    pub id: [u8; RAW_DIGEST_LEN],
}

impl Oid {
    /// The object ID whose every byte is zero, as C zero-initializes one.
    pub fn zeroed() -> (oid: Oid)
        ensures
            oid.kind == 0,
            forall|i: int| 0 <= i < RAW_DIGEST_LEN ==> oid.id[i] == 0,
    {
        Oid { kind: 0, id: [0u8; RAW_DIGEST_LEN] }
    }

    /// Returns the object ID's hash algorithm, or the unpublished C value.
    pub fn oid_type(&self) -> (r: Result<OidType, InvalidOidType>)
        ensures
            r == spec_oid_type_from_raw(self.kind as u32),
    {
        OidType::try_from(self.kind as u32)
    }

    /// Returns a copy of the whole inline digest field, unused bytes included.
    pub fn raw_bytes(&self) -> (bytes: [u8; RAW_DIGEST_LEN])
        ensures
            bytes@ == self.id@,
    {
        self.id
    }

    /// Returns a copy of the digest bytes significant for the stored
    /// algorithm, or the unpublished C value when there is no such run.
    pub fn digest(&self) -> (r: Result<Vec<u8>, InvalidOidType>)
        ensures
            match spec_oid_type_from_raw(self.kind as u32) {
                Ok(t) => r matches Ok(d) && d@ == self.id@.take(spec_digest_len(t) as int),
                Err(e) => r == Err::<Vec<u8>, InvalidOidType>(e),
            },
    {
        let len = match self.oid_type() {
            Ok(t) => t.digest_len(),
            Err(e) => return Err(e),
        };
        let mut out: Vec<u8> = Vec::new();
        let mut i: usize = 0;
        while i < len
            invariant
                len <= RAW_DIGEST_LEN,
                i <= len,
                out@ == self.id@.take(i as int),
            decreases len - i,
        {
            out.push(self.id[i]);
            i = i + 1;
            assert(out@ =~= self.id@.take(i as int));
        }
        Ok(out)
    }

    /// Sets the object ID's hash algorithm, leaving the digest array as is.
    pub fn set_oid_type(&mut self, oid_type: OidType)
        ensures
            final(self).kind as u32 == spec_oid_type_raw(oid_type),
            final(self).id == old(self).id,
    {
        self.kind = match oid_type {
            OidType::Sha1 => 1u8,
            OidType::Sha256 => 2u8,
        };
    }

    /// Borrows the whole inline digest field exclusively.
    pub fn raw_bytes_mut(&mut self) -> (bytes: &mut [u8; RAW_DIGEST_LEN])
        ensures
            *bytes == old(self).id,
            final(self).id == *final(bytes),
            final(self).kind == old(self).kind,
    {
        &mut self.id
    }

    /// Overwrites the digest bytes significant for the stored algorithm with
    /// `digest`, which must have exactly their width; the trailing bytes that
    /// carry no digest are never touched. Returns whether anything was copied.
    pub fn copy_digest_from(&mut self, digest: &[u8]) -> (r: Result<bool, InvalidOidType>)
        ensures
            final(self).kind == old(self).kind,
            match spec_oid_type_from_raw(old(self).kind as u32) {
                Ok(t) => {
                    &&& r == Ok::<bool, InvalidOidType>(digest@.len() == spec_digest_len(t))
                    &&& if digest@.len() == spec_digest_len(t) {
                        final(self).id@ == digest@ + old(self).id@.skip(spec_digest_len(t) as int)
                    } else {
                        final(self).id == old(self).id
                    }
                },
                Err(e) => r == Err::<bool, InvalidOidType>(e) && final(self).id == old(self).id,
            },
    {
        let len = match self.oid_type() {
            Ok(t) => t.digest_len(),
            Err(e) => return Err(e),
        };
        if digest.len() != len {
            return Ok(false);
        }
        let ghost old_id = self.id@;
        let ghost old_kind = self.kind;
        let mut i: usize = 0;
        while i < len
            invariant
                len <= RAW_DIGEST_LEN,
                digest@.len() == len,
                i <= len,
                self.id@.len() == RAW_DIGEST_LEN,
                self.kind == old_kind,
                old_id.len() == RAW_DIGEST_LEN,
                self.id@ == digest@.take(i as int) + old_id.skip(i as int),
            decreases len - i,
        {
            self.id[i] = digest[i];
            i = i + 1;
            assert(self.id@ =~= digest@.take(i as int) + old_id.skip(i as int));
        }
        assert(digest@.take(len as int) =~= digest@);
        Ok(true)
    }
}

/// C's `git_oid_size` of a raw algorithm byte: the digest width of a
/// published algorithm, zero for any other value.
pub open spec fn spec_oid_size(kind: u8) -> int {
    if kind == 1u8 {
        20
    } else if kind == 2u8 {
        32
    } else {
        0
    }
}

/// The lexicographic order of `a` and `b` over the positions `i..n`, as
/// `memcmp` orders unsigned bytes.
pub open spec fn lex_order_from(a: Seq<u8>, b: Seq<u8>, i: int, n: int) -> Ordering
    decreases n - i,
{
    if i >= n {
        Ordering::Equal
    } else if a[i] < b[i] {
        Ordering::Less
    } else if a[i] > b[i] {
        Ordering::Greater
    } else {
        lex_order_from(a, b, i + 1, n)
    }
}

/// The order `git_oid_cmp` defines: first by algorithm byte, then by the
/// significant digest bytes of that algorithm.
pub open spec fn oid_order(a: Oid, b: Oid) -> Ordering {
    if a.kind < b.kind {
        Ordering::Less
    } else if a.kind > b.kind {
        Ordering::Greater
    } else {
        lex_order_from(a.id@, b.id@, 0, spec_oid_size(a.kind))
    }
}

/// The opposite of an ordering.
pub open spec fn reversed_order(o: Ordering) -> Ordering {
    match o {
        Ordering::Less => Ordering::Greater,
        Ordering::Equal => Ordering::Equal,
        Ordering::Greater => Ordering::Less,
    }
}

/// The significant digest width of an object ID's stored algorithm.
fn significant_len(kind: u8) -> (len: usize)
    ensures
        len == spec_oid_size(kind),
{
    if kind == 1u8 {
        20
    } else if kind == 2u8 {
        32
    } else {
        0
    }
}

/// Compares object IDs by algorithm and digest bytes (`git_oid_cmp`).
pub fn git_oid_cmp(a: &Oid, b: &Oid) -> (order: Ordering)
    ensures
        order == oid_order(*a, *b),
{
    if a.kind < b.kind {
        return Ordering::Less;
    }
    if a.kind > b.kind {
        return Ordering::Greater;
    }
    let n = significant_len(a.kind);
    let mut i: usize = 0;
    while i < n
        invariant
            n <= RAW_DIGEST_LEN,
            i <= n,
            a.kind == b.kind,
            n == spec_oid_size(a.kind),
            lex_order_from(a.id@, b.id@, 0, spec_oid_size(a.kind)) == lex_order_from(a.id@, b.id@, i + 0, spec_oid_size(a.kind)),
        decreases n - i,
    {
        if a.id[i] < b.id[i] {
            return Ordering::Less;
        }
        if a.id[i] > b.id[i] {
            return Ordering::Greater;
        }
        i = i + 1;
    }
    Ordering::Equal
}

/// Comparing in the other direction gives the opposite order.
proof fn lemma_lex_reversed(a: Seq<u8>, b: Seq<u8>, i: int, n: int)
    ensures
        lex_order_from(a, b, i, n) == reversed_order(lex_order_from(b, a, i, n)),
    decreases n - i,
{
    if i < n && a[i] == b[i] {
        lemma_lex_reversed(a, b, i + 1, n);
    }
}

/// Two runs are equal in order exactly when they agree on every position.
proof fn lemma_lex_equal(a: Seq<u8>, b: Seq<u8>, i: int, n: int)
    ensures
        lex_order_from(a, b, i, n) == Ordering::Equal <==> forall|j: int|
            i <= j < n ==> a[j] == b[j],
    decreases n - i,
{
    if i < n {
        lemma_lex_equal(a, b, i + 1, n);
        if a[i] == b[i] {
            assert forall|j: int| i <= j < n && (forall|k: int| i + 1 <= k < n ==> a[k] == b[k])
                implies a[j] == b[j] by {
                if j > i {
                }
            }
        }
    }
}

/// Lexicographic order is transitive.
proof fn lemma_lex_transitive(a: Seq<u8>, b: Seq<u8>, c: Seq<u8>, i: int, n: int)
    requires
        lex_order_from(a, b, i, n) == Ordering::Less,
        lex_order_from(b, c, i, n) == Ordering::Less,
    ensures
        lex_order_from(a, c, i, n) == Ordering::Less,
    decreases n - i,
{
    if i < n && a[i] == b[i] && b[i] == c[i] {
        lemma_lex_transitive(a, b, c, i + 1, n);
    }
}

/// The order of object IDs is transitive: if `a` sorts before `b` and `b`
/// before `c`, then `a` sorts before `c`.
pub proof fn lemma_oid_order_transitive(a: Oid, b: Oid, c: Oid)
    requires
        oid_order(a, b) == Ordering::Less,
        oid_order(b, c) == Ordering::Less,
    ensures
        oid_order(a, c) == Ordering::Less,
{
    if a.kind == b.kind && b.kind == c.kind {
        lemma_lex_transitive(a.id@, b.id@, c.id@, 0, spec_oid_size(a.kind));
    }
}

/// Comparing two runs from position `i` is decided by their first
/// differing position `j`: less exactly when `a`'s byte there is the smaller
/// unsigned number.
proof fn lemma_lex_first_difference(a: Seq<u8>, b: Seq<u8>, i: int, j: int, n: int)
    requires
        0 <= i <= j < n,
        forall|k: int| i <= k < j ==> a[k] == b[k],
        a[j] != b[j],
    ensures
        lex_order_from(a, b, i, n) == (if a[j] < b[j] {
            Ordering::Less
        } else {
            Ordering::Greater
        }),
    decreases j - i,
{
    if i < j {
        lemma_lex_first_difference(a, b, i + 1, j, n);
    }
}

/// How `git_oid_cmp` orders object IDs, as `memcmp` does after the
/// algorithm: an ID of a smaller algorithm number sorts first; two IDs of one
/// published algorithm (SHA-1, 20 significant bytes; SHA-256, 32) that first
/// differ at digest byte `j` sort by that byte read as an unsigned number; and
/// IDs agreeing on every significant byte are equal.
pub proof fn lemma_oid_order_first_difference(a: Oid, b: Oid, j: int)
    ensures
        a.kind < b.kind ==> oid_order(a, b) == Ordering::Less,
        a.kind > b.kind ==> oid_order(a, b) == Ordering::Greater,
        a.kind == b.kind && ((a.kind == 1u8 && 0 <= j < 20) || (a.kind == 2u8 && 0 <= j < 32))
            && (forall|i: int| 0 <= i < j ==> a.id@[i] == b.id@[i]) && a.id@[j] != b.id@[j]
            ==> oid_order(a, b) == (if a.id@[j] < b.id@[j] {
            Ordering::Less
        } else {
            Ordering::Greater
        }),
        a.kind == b.kind && a.kind == 1u8 && (forall|i: int| 0 <= i < 20 ==> a.id@[i] == b.id@[i])
            ==> oid_order(a, b) == Ordering::Equal,
        a.kind == b.kind && a.kind == 2u8 && (forall|i: int| 0 <= i < 32 ==> a.id@[i] == b.id@[i])
            ==> oid_order(a, b) == Ordering::Equal,
{
    let n = spec_oid_size(a.kind);
    lemma_lex_equal(a.id@, b.id@, 0, n);
    if a.kind == b.kind && ((a.kind == 1u8 && 0 <= j < 20) || (a.kind == 2u8 && 0 <= j < 32))
        && (forall|i: int| 0 <= i < j ==> a.id@[i] == b.id@[i]) && a.id@[j] != b.id@[j] {
        lemma_lex_first_difference(a.id@, b.id@, 0, j, n);
    }
}

/// Every object ID is equal to itself.
pub proof fn lemma_oid_order_reflexive(a: Oid)
    ensures
        oid_order(a, a) == Ordering::Equal,
{
    lemma_lex_equal(a.id@, a.id@, 0, spec_oid_size(a.kind));
}

/// Comparing two object IDs in the other direction gives the opposite order.
pub proof fn lemma_oid_order_antisymmetric(a: Oid, b: Oid)
    ensures
        oid_order(a, b) == reversed_order(oid_order(b, a)),
{
    lemma_lex_reversed(a.id@, b.id@, 0, spec_oid_size(a.kind));
}

/// Two object IDs are equal exactly when they have the same algorithm and
/// the same significant digest bytes; the unused trailing bytes play no
/// part.
pub proof fn lemma_oid_equal_iff_same_digest(a: Oid, b: Oid)
    ensures
        oid_order(a, b) == Ordering::Equal <==> (a.kind == b.kind && a.id@.take(
            spec_oid_size(a.kind),
        ) == b.id@.take(spec_oid_size(a.kind))),
{
    let n = spec_oid_size(a.kind);
    lemma_lex_equal(a.id@, b.id@, 0, n);
    if a.kind == b.kind {
        if oid_order(a, b) == Ordering::Equal {
            assert(a.id@.take(n) =~= b.id@.take(n));
        }
        if a.id@.take(n) == b.id@.take(n) {
            assert forall|j: int| 0 <= j < n implies a.id@[j] == b.id@[j] by {
                assert(a.id@.take(n)[j] == b.id@.take(n)[j]);
            }
        }
    }
}

/// Reports whether two object IDs are identical (`git_oid_equal`).
pub fn git_oid_equal(a: &Oid, b: &Oid) -> (equal: bool)
    ensures
        equal == (oid_order(*a, *b) == Ordering::Equal),
{
    match git_oid_cmp(a, b) {
        Ordering::Equal => true,
        _ => false,
    }
}

/// Whether an object ID is zero (`git_oid_is_zero`): an ID without an
/// algorithm is zero, one with an unpublished algorithm is not, and otherwise
/// its significant digest bytes are all zero.
pub open spec fn spec_oid_is_zero(oid: Oid) -> bool {
    if oid.kind == 0u8 {
        true
    } else if spec_oid_size(oid.kind) == 0 {
        false
    } else {
        forall|j: int| 0 <= j < spec_oid_size(oid.kind) ==> oid.id@[j] == 0u8
    }
}

/// Which object IDs are zero: an ID of a published algorithm is zero
/// exactly when each of its significant digest bytes (20 for SHA-1, 32 for
/// SHA-256) is zero, whatever its unused bytes hold; so an ID built from an
/// all-zero digest of either algorithm is zero.
pub proof fn lemma_zero_ids(oid: Oid, oid_type: OidType, digest: Seq<u8>)
    ensures
        oid.kind == 1u8 ==> (spec_oid_is_zero(oid) <==> forall|i: int|
            0 <= i < 20 ==> oid.id@[i] == 0u8),
        oid.kind == 2u8 ==> (spec_oid_is_zero(oid) <==> forall|i: int|
            0 <= i < 32 ==> oid.id@[i] == 0u8),
        digest.len() == spec_digest_len(oid_type) && (forall|i: int|
            0 <= i < digest.len() ==> digest[i] == 0u8) && oid.kind as u32 == spec_oid_type_raw(
            oid_type,
        ) && oid.id@ == zero_padded(digest) ==> spec_oid_is_zero(oid),
{
    if digest.len() == spec_digest_len(oid_type) && (forall|i: int|
        0 <= i < digest.len() ==> digest[i] == 0u8) && oid.kind as u32 == spec_oid_type_raw(
        oid_type,
    ) && oid.id@ == zero_padded(digest) {
        assert forall|j: int| 0 <= j < spec_oid_size(oid.kind) implies oid.id@[j] == 0u8 by {
            assert(zero_padded(digest)[j] == digest[j]);
        }
    }
}

/// Reports whether an object ID is zero (`git_oid_is_zero`).
pub fn git_oid_is_zero(id: &Oid) -> (zero: bool)
    ensures
        zero == spec_oid_is_zero(*id),
{
    if id.kind == 0u8 {
        return true;
    }
    let n = significant_len(id.kind);
    if n == 0 {
        return false;
    }
    let mut i: usize = 0;
    while i < n
        invariant
            n <= RAW_DIGEST_LEN,
            i <= n,
            n == spec_oid_size(id.kind),
            forall|j: int| 0 <= j < i ==> id.id@[j] == 0u8,
        decreases n - i,
    {
        if id.id[i] != 0u8 {
            return false;
        }
        i = i + 1;
    }
    true
}

/// A digest run padded with zero bytes to the inline capacity.
pub open spec fn zero_padded(digest: Seq<u8>) -> Seq<u8> {
    digest + Seq::new((RAW_DIGEST_LEN - digest.len()) as nat, |i: int| 0u8)
}

/// Builds an object ID of `oid_type` whose significant bytes are `digest`
/// and whose unused bytes are zero.
fn oid_from_digest(digest: &[u8], oid_type: OidType) -> (oid: Oid)
    requires
        digest@.len() == spec_digest_len(oid_type),
    ensures
        oid.kind as u32 == spec_oid_type_raw(oid_type),
        oid.id@ == zero_padded(digest@),
{
    let mut oid = Oid::zeroed();
    oid.set_oid_type(oid_type);
    let len = oid_type.digest_len();
    let mut i: usize = 0;
    while i < len
        invariant
            len == digest@.len(),
            len <= RAW_DIGEST_LEN,
            i <= len,
            oid.kind as u32 == spec_oid_type_raw(oid_type),
            forall|j: int| 0 <= j < i ==> oid.id@[j] == digest@[j],
            forall|j: int| i <= j < RAW_DIGEST_LEN ==> oid.id@[j] == 0u8,
        decreases len - i,
    {
        oid.id[i] = digest[i];
        i = i + 1;
    }
    assert(oid.id@ =~= zero_padded(digest@));
    oid
}

/// Constructs a SHA-1 object ID from its 20 raw digest bytes
/// (`git_oid_fromraw`).
pub fn git_oid_fromraw(raw: &[u8; 20]) -> (r: Result<Oid, i32>)
    ensures
        r matches Ok(oid) && oid.kind as u32 == GIT_OID_SHA1 && oid.id@ == zero_padded(raw@),
{
    Ok(oid_from_digest(raw.as_slice(), OidType::Sha1))
}

/// Constructs an object ID from a complete raw digest (`git_oid_from_raw`):
/// a digest of any other width than the algorithm's is `GIT_EINVALID`.
pub fn git_oid_from_raw(raw: &[u8], oid_type: OidType) -> (r: Result<Oid, i32>)
    ensures
        raw@.len() != spec_digest_len(oid_type) ==> r == Err::<Oid, i32>(GIT_EINVALID),
        raw@.len() == spec_digest_len(oid_type) ==> (r matches Ok(oid) && oid.kind as u32
            == spec_oid_type_raw(oid_type) && oid.id@ == zero_padded(raw@)),
{
    if raw.len() != oid_type.digest_len() {
        return Err(GIT_EINVALID);
    }
    Ok(oid_from_digest(raw, oid_type))
}

/// Copies an object ID into a new value (`git_oid_cpy`): its algorithm and
/// significant digest bytes, with zero unused bytes.
pub fn git_oid_cpy(source: &Oid) -> (copy: Oid)
    requires
        spec_oid_size(source.kind) > 0,
    ensures
        copy.kind == source.kind,
        copy.id@ == zero_padded(source.id@.take(spec_oid_size(source.kind))),
{
    let mut copy = Oid::zeroed();
    copy.kind = source.kind;
    let len = significant_len(source.kind);
    let mut i: usize = 0;
    while i < len
        invariant
            len == spec_oid_size(source.kind),
            len <= RAW_DIGEST_LEN,
            i <= len,
            copy.kind == source.kind,
            forall|j: int| 0 <= j < i ==> copy.id@[j] == source.id@[j],
            forall|j: int| i <= j < RAW_DIGEST_LEN ==> copy.id@[j] == 0u8,
        decreases len - i,
    {
        copy.id[i] = source.id[i];
        i = i + 1;
    }
    assert(copy.id@ =~= zero_padded(source.id@.take(len as int)));
    copy
}

/// The value of a hexadecimal digit, either case, or `-1` (`git__fromhex`).
pub open spec fn spec_hex_value(c: u8) -> int {
    if 48 <= c <= 57 {
        c - 48
    } else if 97 <= c <= 102 {
        c - 87
    } else if 65 <= c <= 70 {
        c - 55
    } else {
        -1
    }
}

/// The lowercase hexadecimal digit of a nibble.
pub open spec fn spec_hex_digit(v: int) -> u8 {
    if v < 10 {
        (48 + v) as u8
    } else {
        (87 + v) as u8
    }
}

/// The `k`-th hexadecimal character of a digest: high nibble first.
pub open spec fn spec_hex_char(id: Seq<u8>, k: int) -> u8 {
    if k % 2 == 0 {
        spec_hex_digit(id[k / 2] as int / 16)
    } else {
        spec_hex_digit(id[k / 2] as int % 16)
    }
}

/// The full lowercase hexadecimal form of an object ID: two characters for
/// each significant digest byte.
pub open spec fn spec_oid_hex(oid: Oid) -> Seq<u8> {
    Seq::new((2 * spec_oid_size(oid.kind)) as nat, |k: int| spec_hex_char(oid.id@, k))
}

/// Whether `hex` is a parseable prefix for an algorithm of `size` digest
/// bytes: nonempty, at most twice `size` characters, all hexadecimal.
pub open spec fn spec_hex_prefix_ok(hex: Seq<u8>, size: int) -> bool {
    &&& 0 < hex.len() <= 2 * size
    &&& forall|k: int| 0 <= k < hex.len() ==> spec_hex_value(hex[k]) >= 0
}

/// The `i`-th digest byte a hexadecimal prefix stands for: its two digits,
/// a missing low digit read as zero, and zero past the prefix.
pub open spec fn spec_parsed_byte(hex: Seq<u8>, i: int) -> u8 {
    if 2 * i < hex.len() {
        let low = if 2 * i + 1 < hex.len() {
            spec_hex_value(hex[2 * i + 1])
        } else {
            0
        };
        (spec_hex_value(hex[2 * i]) * 16 + low) as u8
    } else {
        0u8
    }
}

/// The inline digest array a hexadecimal prefix parses to.
pub open spec fn spec_parsed_id(hex: Seq<u8>) -> Seq<u8> {
    Seq::new(RAW_DIGEST_LEN as nat, |i: int| spec_parsed_byte(hex, i))
}

/// The hexadecimal text of `hex` with every uppercase letter `A`..`F`
/// replaced by its lowercase form.
pub open spec fn spec_lowercase_hex(hex: Seq<u8>) -> Seq<u8> {
    Seq::new(hex.len(), |k: int| if 65 <= hex[k] <= 70 { (hex[k] + 32) as u8 } else { hex[k] })
}

/// Hexadecimal digits decode in either case, as `git__fromhex` reads them:
/// `0`..`9` to 0..9, `a`..`f` and `A`..`F` to 10..15, each uppercase letter
/// to the value of its lowercase form; every other byte is no digit. So a
/// text and its lowercase form parse alike: both or neither are valid, to
/// the same digest bytes.
pub proof fn lemma_hex_either_case(c: u8, hex: Seq<u8>, size: int)
    ensures
        48 <= c <= 57 ==> spec_hex_value(c) == c - 48,
        97 <= c <= 102 ==> spec_hex_value(c) == c - 87,
        65 <= c <= 70 ==> spec_hex_value(c) == c - 55 && spec_hex_value(c) == spec_hex_value(
            (c + 32) as u8,
        ),
        !(48 <= c <= 57 || 97 <= c <= 102 || 65 <= c <= 70) ==> spec_hex_value(c) < 0,
        spec_hex_prefix_ok(hex, size) == spec_hex_prefix_ok(spec_lowercase_hex(hex), size),
        spec_parsed_id(hex) == spec_parsed_id(spec_lowercase_hex(hex)),
{
    let low = spec_lowercase_hex(hex);
    assert forall|k: int| 0 <= k < hex.len() implies spec_hex_value(hex[k]) == spec_hex_value(
        #[trigger] low[k],
    ) by {}
    assert forall|i: int| 0 <= i < RAW_DIGEST_LEN implies spec_parsed_id(hex)[i] == spec_parsed_id(
        low,
    )[i] by {
        if 2 * i < hex.len() {
            assert(spec_hex_value(hex[2 * i]) == spec_hex_value(low[2 * i]));
            if 2 * i + 1 < hex.len() {
                assert(spec_hex_value(hex[2 * i + 1]) == spec_hex_value(low[2 * i + 1]));
            }
        }
    }
    assert(spec_parsed_id(hex) =~= spec_parsed_id(low));
    if spec_hex_prefix_ok(hex, size) {
        assert forall|k: int| 0 <= k < low.len() implies spec_hex_value(low[k]) >= 0 by {
            assert(spec_hex_value(hex[k]) == spec_hex_value(low[k]));
        }
    }
    if spec_hex_prefix_ok(low, size) {
        assert forall|k: int| 0 <= k < hex.len() implies spec_hex_value(hex[k]) >= 0 by {
            assert(spec_hex_value(hex[k]) == spec_hex_value(low[k]));
        }
    }
}

/// Reading back a written digit gives the nibble.
proof fn lemma_hex_digit_value(v: int)
    requires
        0 <= v < 16,
    ensures
        spec_hex_value(spec_hex_digit(v)) == v,
{
}

/// Formatting an object ID with a published algorithm and parsing the text
/// back for the same algorithm succeeds and yields the same significant
/// digest bytes, with zero past them: `git_oid_from_prefix` undoes
/// `git_oid_fmt`.
pub proof fn lemma_hex_round_trip(oid: Oid)
    requires
        spec_oid_size(oid.kind) > 0,
    ensures
        spec_hex_prefix_ok(spec_oid_hex(oid), spec_oid_size(oid.kind)),
        spec_parsed_id(spec_oid_hex(oid)) == zero_padded(oid.id@.take(spec_oid_size(oid.kind))),
{
    let size = spec_oid_size(oid.kind);
    let hex = spec_oid_hex(oid);
    assert forall|k: int| 0 <= k < hex.len() implies spec_hex_value(hex[k]) >= 0 by {
        let b = oid.id@[k / 2] as int;
        assert(0 <= b / 16 < 16 && 0 <= b % 16 < 16) by (nonlinear_arith)
            requires
                0 <= b < 256,
        ;
        lemma_hex_digit_value(b / 16);
        lemma_hex_digit_value(b % 16);
    }
    assert forall|i: int| 0 <= i < RAW_DIGEST_LEN implies spec_parsed_id(hex)[i] == zero_padded(
        oid.id@.take(size),
    )[i] by {
        if i < size {
            let b = oid.id@[i] as int;
            assert(0 <= b / 16 < 16 && 0 <= b % 16 < 16 && (b / 16) * 16 + b % 16 == b)
                by (nonlinear_arith)
                requires
                    0 <= b < 256,
            ;
            lemma_hex_digit_value(b / 16);
            lemma_hex_digit_value(b % 16);
            assert((2 * i) % 2 == 0 && (2 * i) / 2 == i);
            assert((2 * i + 1) % 2 == 1 && (2 * i + 1) / 2 == i);
            assert(hex[2 * i] == spec_hex_digit(b / 16));
            assert(hex[2 * i + 1] == spec_hex_digit(b % 16));
        }
    }
    assert(spec_parsed_id(hex) =~= zero_padded(oid.id@.take(size)));
}

/// Whether a character is a lowercase hexadecimal digit, the form
/// `git_oid_fmt` writes.
pub open spec fn spec_is_lower_hex(c: u8) -> bool {
    (48 <= c <= 57) || (97 <= c <= 102)
}

/// Parsing a full-width lowercase hexadecimal text and formatting the
/// object ID it gives writes the same text back: `git_oid_fmt` undoes
/// `git_oid_from_string` on the text it would itself produce.
pub proof fn lemma_parse_format_round_trip(hex: Seq<u8>, oid: Oid)
    requires
        spec_oid_size(oid.kind) > 0,
        hex.len() == 2 * spec_oid_size(oid.kind),
        forall|k: int| 0 <= k < hex.len() ==> spec_is_lower_hex(#[trigger] hex[k]),
        oid.id@ == spec_parsed_id(hex),
    ensures
        spec_oid_hex(oid) == hex,
{
    let size = spec_oid_size(oid.kind);
    assert forall|k: int| 0 <= k < hex.len() implies #[trigger] spec_oid_hex(oid)[k] == hex[k] by {
        let i = k / 2;
        assert(0 <= i < size && 2 * i + 1 < hex.len() && (k == 2 * i || k == 2 * i + 1));
        let hi = spec_hex_value(hex[2 * i]);
        let lo = spec_hex_value(hex[2 * i + 1]);
        assert(spec_is_lower_hex(hex[2 * i]) && spec_is_lower_hex(hex[2 * i + 1]));
        assert(0 <= hi < 16 && 0 <= lo < 16);
        assert(spec_hex_digit(hi) == hex[2 * i] && spec_hex_digit(lo) == hex[2 * i + 1]);
        let b = hi * 16 + lo;
        assert(0 <= b < 256 && b / 16 == hi && b % 16 == lo) by (nonlinear_arith)
            requires
                0 <= hi < 16,
                0 <= lo < 16,
                b == hi * 16 + lo,
        ;
        assert(oid.id@[i] == spec_parsed_byte(hex, i));
        assert(spec_parsed_byte(hex, i) as int == b);
    }
    assert(spec_oid_hex(oid) =~= hex);
}

/// The value of one hexadecimal digit.
fn hex_value(c: u8) -> (v: Option<u8>)
    ensures
        spec_hex_value(c) < 0 ==> v is None,
        spec_hex_value(c) >= 0 ==> (v matches Some(x) && x == spec_hex_value(c) && x < 16),
{
    if 48 <= c && c <= 57 {
        Some(c - 48)
    } else if 97 <= c && c <= 102 {
        Some(c - 87)
    } else if 65 <= c && c <= 70 {
        Some(c - 55)
    } else {
        None
    }
}

/// The lowercase hexadecimal digit of a nibble.
fn hex_digit(v: u8) -> (c: u8)
    requires
        v < 16,
    ensures
        c == spec_hex_digit(v as int),
{
    if v < 10 {
        48 + v
    } else {
        87 + v
    }
}

/// Parses a counted hexadecimal prefix for `oid_type`
/// (`git_oid_from_prefix`): an empty, overlong or non-hexadecimal prefix is
/// `GIT_ERROR`; otherwise the digits fill the digest from its first byte and
/// every byte they do not reach is zero.
pub fn git_oid_from_prefix(hex: &[u8], oid_type: OidType) -> (r: Result<Oid, i32>)
    ensures
        spec_hex_prefix_ok(hex@, spec_digest_len(oid_type) as int) ==> (r matches Ok(oid)
            && oid.kind as u32 == spec_oid_type_raw(oid_type) && oid.id@ == spec_parsed_id(hex@)),
        !spec_hex_prefix_ok(hex@, spec_digest_len(oid_type) as int) ==> r == Err::<Oid, i32>(
            GIT_ERROR,
        ),
{
    let size = oid_type.digest_len();
    let len = hex.len();
    if len == 0 || len > 2 * size {
        return Err(GIT_ERROR);
    }
    let mut oid = Oid::zeroed();
    oid.set_oid_type(oid_type);
    let bytes = (len + 1) / 2;
    let mut i: usize = 0;
    while i < bytes
        invariant
            len == hex@.len(),
            0 < len <= 2 * size,
            size == spec_digest_len(oid_type),
            bytes == (len + 1) / 2,
            bytes <= size <= RAW_DIGEST_LEN,
            i <= bytes,
            oid.kind as u32 == spec_oid_type_raw(oid_type),
            forall|j: int| 0 <= j < i ==> oid.id@[j] == spec_parsed_byte(hex@, j),
            forall|j: int| i <= j < RAW_DIGEST_LEN ==> oid.id@[j] == 0u8,
            forall|k: int| 0 <= k < 2 * i && k < len ==> spec_hex_value(hex@[k]) >= 0,
        decreases bytes - i,
    {
        let high = match hex_value(hex[2 * i]) {
            Some(v) => v,
            None => return Err(GIT_ERROR),
        };
        let low = if 2 * i + 1 < len {
            match hex_value(hex[2 * i + 1]) {
                Some(v) => v,
                None => return Err(GIT_ERROR),
            }
        } else {
            0u8
        };
        oid.id[i] = high * 16 + low;
        i = i + 1;
    }
    assert(oid.id@ =~= spec_parsed_id(hex@));
    Ok(oid)
}

/// Parses a counted SHA-1 hexadecimal prefix (`git_oid_fromstrn`).
pub fn git_oid_fromstrn(hex: &[u8]) -> (r: Result<Oid, i32>)
    ensures
        spec_hex_prefix_ok(hex@, 20) ==> (r matches Ok(oid) && oid.kind as u32 == GIT_OID_SHA1
            && oid.id@ == spec_parsed_id(hex@)),
        !spec_hex_prefix_ok(hex@, 20) ==> r == Err::<Oid, i32>(GIT_ERROR),
{
    git_oid_from_prefix(hex, OidType::Sha1)
}

/// Parses a SHA-1 hexadecimal prefix given as the bytes of a C string before
/// its terminator (`git_oid_fromstrp`).
pub fn git_oid_fromstrp(hex: &[u8]) -> (r: Result<Oid, i32>)
    ensures
        spec_hex_prefix_ok(hex@, 20) ==> (r matches Ok(oid) && oid.kind as u32 == GIT_OID_SHA1
            && oid.id@ == spec_parsed_id(hex@)),
        !spec_hex_prefix_ok(hex@, 20) ==> r == Err::<Oid, i32>(GIT_ERROR),
{
    git_oid_from_prefix(hex, OidType::Sha1)
}

/// Parses one complete object ID of `oid_type` (`git_oid_from_string`): a
/// string of any other width than the algorithm's is `GIT_EINVALID`, a
/// non-hexadecimal one `GIT_ERROR`.
pub fn git_oid_from_string(hex: &[u8], oid_type: OidType) -> (r: Result<Oid, i32>)
    ensures
        hex@.len() != 2 * spec_digest_len(oid_type) ==> r == Err::<Oid, i32>(GIT_EINVALID),
        hex@.len() == 2 * spec_digest_len(oid_type) && spec_hex_prefix_ok(
            hex@,
            spec_digest_len(oid_type) as int,
        ) ==> (r matches Ok(oid) && oid.kind as u32 == spec_oid_type_raw(oid_type) && oid.id@
            == spec_parsed_id(hex@)),
        hex@.len() == 2 * spec_digest_len(oid_type) && !spec_hex_prefix_ok(
            hex@,
            spec_digest_len(oid_type) as int,
        ) ==> r == Err::<Oid, i32>(GIT_ERROR),
{
    if hex.len() != oid_type.hex_len() {
        return Err(GIT_EINVALID);
    }
    git_oid_from_prefix(hex, oid_type)
}

/// Parses one complete SHA-1 object ID (`git_oid_fromstr`).
pub fn git_oid_fromstr(hex: &[u8]) -> (r: Result<Oid, i32>)
    ensures
        hex@.len() != 40 ==> r == Err::<Oid, i32>(GIT_EINVALID),
        hex@.len() == 40 && spec_hex_prefix_ok(hex@, 20) ==> (r matches Ok(oid) && oid.kind as u32
            == GIT_OID_SHA1 && oid.id@ == spec_parsed_id(hex@)),
        hex@.len() == 40 && !spec_hex_prefix_ok(hex@, 20) ==> r == Err::<Oid, i32>(GIT_ERROR),
{
    git_oid_from_string(hex, OidType::Sha1)
}

/// Writes the lowercase hexadecimal form of `oid` into the front of `out`,
/// without a terminator (`git_oid_fmt`). Returns the number of characters
/// written, or `None` — with `out` untouched — when the algorithm is
/// unpublished or `out` is too short.
pub fn git_oid_fmt(out: &mut [u8], oid: &Oid) -> (r: Option<usize>)
    ensures
        final(out)@.len() == old(out)@.len(),
        spec_oid_size(oid.kind) == 0 || old(out)@.len() < 2 * spec_oid_size(oid.kind) ==> (r is None
            && final(out)@ == old(out)@),
        spec_oid_size(oid.kind) > 0 && old(out)@.len() >= 2 * spec_oid_size(oid.kind) ==> (r
            matches Some(n) && n == 2 * spec_oid_size(oid.kind) && final(out)@.take(n as int)
            == spec_oid_hex(*oid) && final(out)@.skip(n as int) == old(out)@.skip(n as int)),
{
    let size = significant_len(oid.kind);
    if size == 0 || out.len() < 2 * size {
        return None;
    }
    let n = 2 * size;
    write_hex(out, oid, n);
    Some(n)
}

/// Writes the first `n` lowercase hexadecimal characters of `oid` into the
/// front of `out`.
fn write_hex(out: &mut [u8], oid: &Oid, n: usize)
    requires
        n <= 2 * spec_oid_size(oid.kind),
        n <= old(out)@.len(),
    ensures
        final(out)@.len() == old(out)@.len(),
        forall|k: int| 0 <= k < n ==> final(out)@[k] == spec_hex_char(oid.id@, k),
        final(out)@.skip(n as int) == old(out)@.skip(n as int),
{
    let ghost before = out@;
    let mut k: usize = 0;
    while k < n
        invariant
            n <= 2 * spec_oid_size(oid.kind),
            spec_oid_size(oid.kind) <= RAW_DIGEST_LEN,
            n <= before.len(),
            out@.len() == before.len(),
            k <= n,
            forall|j: int| 0 <= j < k ==> out@[j] == spec_hex_char(oid.id@, j),
            forall|j: int| k <= j < before.len() ==> out@[j] == before[j],
        decreases n - k,
    {
        let byte = oid.id[k / 2];
        let c = if k % 2 == 0 {
            hex_digit(byte / 16)
        } else {
            hex_digit(byte % 16)
        };
        out[k] = c;
        k = k + 1;
    }
    assert(out@.skip(n as int) =~= before.skip(n as int));
}

/// Formats an object ID as a C string into a nonempty caller-owned buffer
/// (`git_oid_tostr`): as many leading hexadecimal characters as fit before
/// the terminator, which is written right after them. Returns the string's
/// length, or `None` for an empty buffer.
pub fn git_oid_tostr(out: &mut [u8], oid: &Oid) -> (r: Option<usize>)
    ensures
        final(out)@.len() == old(out)@.len(),
        old(out)@.len() == 0 ==> r is None,
        old(out)@.len() > 0 ==> (r matches Some(n) && n == (if old(out)@.len() - 1 < 2
            * spec_oid_size(oid.kind) {
            old(out)@.len() - 1
        } else {
            2 * spec_oid_size(oid.kind)
        }) && final(out)@.take(n as int) == spec_oid_hex(*oid).take(n as int)
            && final(out)@[n as int] == 0u8),
{
    if out.len() == 0 {
        return None;
    }
    let size = significant_len(oid.kind);
    let n = if out.len() - 1 < 2 * size {
        out.len() - 1
    } else {
        2 * size
    };
    write_hex(out, oid, n);
    out[n] = 0u8;
    assert(out@.take(n as int) =~= spec_oid_hex(*oid).take(n as int));
    Some(n)
}

} // verus!
