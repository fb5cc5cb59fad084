//! Objects tied to the repository that keeps them valid.
use core::marker::PhantomData;
use vstd::prelude::*;
use vstd::string::StringSliceAdditionalSpecFns;

use crate::types::GitObjectType;

verus! {

/// An owned object `O` whose repository is guaranteed to remain live.
pub struct RepositoryObject<'repo, O> {
    inner: O,
    _repository: PhantomData<&'repo ()>,
}

impl<'repo, O> RepositoryObject<'repo, O> {
    /// The owned object this value holds.
    pub closed spec fn spec_inner(&self) -> O {
        self.inner
    }

    /// Attaches an already-owned object to the repository that keeps it
    /// valid.
    pub fn from_owned(inner: O) -> (object: RepositoryObject<'repo, O>)
        ensures
            object.spec_inner() == inner,
    {
        RepositoryObject { inner, _repository: PhantomData }
    }

    /// Borrows the object.
    pub fn as_ref(&self) -> (object: &O)
        ensures
            *object == self.spec_inner(),
    {
        &self.inner
    }

    /// Borrows the object exclusively.
    pub fn as_mut(&mut self) -> (object: &mut O)
        ensures
            *object == old(self).spec_inner(),
            final(self).spec_inner() == *final(object),
    {
        &mut self.inner
    }
}

/// `git_object_dup`: another owned reference to the same repository-backed
/// object, tied to the same repository. The owner's `Clone` acquires the
/// new reference.
pub fn git_object_dup<'repo, O: Clone>(source: &RepositoryObject<'repo, O>) -> (duplicate:
    RepositoryObject<'repo, O>)
    ensures
        vstd::pervasive::cloned(source.spec_inner(), duplicate.spec_inner()),
{
    RepositoryObject { inner: source.inner.clone(), _repository: PhantomData }
}

/// Interprets an object constructor (`git_object_lookup` and its kin): a
/// nonzero status is the error; a successful call always hands back an
/// object, which is tied to its repository.
pub fn adopt_repository_object<'repo, O>(status: i32, inner: Option<O>) -> (r: Result<
    RepositoryObject<'repo, O>,
    i32,
>)
    requires
        status == 0 ==> inner is Some,
    ensures
        status != 0 ==> r == Err::<RepositoryObject<'repo, O>, i32>(status),
        status == 0 ==> (r matches Ok(o) && Some(o.spec_inner()) == inner),
{
    if status != 0 {
        return Err(status);
    }
    match inner {
        Some(inner) => Ok(RepositoryObject { inner, _repository: PhantomData }),
        None => Err(status),
    }
}

/// The name libgit2's object table gives each kind; the kinds outside the
/// table of loose and delta objects have the empty name.
pub open spec fn spec_object_type_name(kind: GitObjectType) -> Seq<u8> {
    match kind {
        GitObjectType::Commit => seq![99u8, 111u8, 109u8, 109u8, 105u8, 116u8],
        GitObjectType::Tree => seq![116u8, 114u8, 101u8, 101u8],
        GitObjectType::Blob => seq![98u8, 108u8, 111u8, 98u8],
        GitObjectType::Tag => seq![116u8, 97u8, 103u8],
        GitObjectType::OfsDelta => seq![79u8, 70u8, 83u8, 95u8, 68u8, 69u8, 76u8, 84u8, 65u8],
        GitObjectType::RefDelta => seq![82u8, 69u8, 70u8, 95u8, 68u8, 69u8, 76u8, 84u8, 65u8],
        _ => Seq::empty(),
    }
}

/// Whether `prefix` is a prefix of `s`.
pub open spec fn spec_has_prefix(s: Seq<u8>, prefix: Seq<u8>) -> bool {
    prefix.len() <= s.len() && forall|i: int| 0 <= i < prefix.len() ==> s[i] == prefix[i]
}

/// The kind `git_object_string2type` returns: the first named kind, in
/// table order, whose name is a prefix of the input; `Invalid` for an absent
/// or empty input and for one that no name prefixes.
pub open spec fn spec_object_type_from_name(name: Option<Seq<u8>>) -> GitObjectType {
    match name {
        None => GitObjectType::Invalid,
        Some(s) => if s.len() == 0 {
            GitObjectType::Invalid
        } else if spec_has_prefix(s, spec_object_type_name(GitObjectType::Commit)) {
            GitObjectType::Commit
        } else if spec_has_prefix(s, spec_object_type_name(GitObjectType::Tree)) {
            GitObjectType::Tree
        } else if spec_has_prefix(s, spec_object_type_name(GitObjectType::Blob)) {
            GitObjectType::Blob
        } else if spec_has_prefix(s, spec_object_type_name(GitObjectType::Tag)) {
            GitObjectType::Tag
        } else if spec_has_prefix(s, spec_object_type_name(GitObjectType::OfsDelta)) {
            GitObjectType::OfsDelta
        } else if spec_has_prefix(s, spec_object_type_name(GitObjectType::RefDelta)) {
            GitObjectType::RefDelta
        } else {
            GitObjectType::Invalid
        },
    }
}

/// The bytes of an optional name.
pub open spec fn spec_optional_bytes(name: Option<&[u8]>) -> Option<Seq<u8>> {
    match name {
        Some(s) => Some(s@),
        None => None,
    }
}

/// `git_object_type2string`: the static name of an object kind.
pub fn git_object_type2string(kind: GitObjectType) -> (name: &'static [u8])
    ensures
        name@ == spec_object_type_name(kind),
{
    broadcast use vstd::string::is_ascii_spec_bytes;

    let text: &'static str = match kind {
        GitObjectType::Commit => "commit",
        GitObjectType::Tree => "tree",
        GitObjectType::Blob => "blob",
        GitObjectType::Tag => "tag",
        GitObjectType::OfsDelta => "OFS_DELTA",
        GitObjectType::RefDelta => "REF_DELTA",
        _ => "",
    };
    proof {
        reveal_strlit("commit");
        reveal_strlit("tree");
        reveal_strlit("blob");
        reveal_strlit("tag");
        reveal_strlit("OFS_DELTA");
        reveal_strlit("REF_DELTA");
        reveal_strlit("");
        assert(vstd::string::is_ascii(text));
        assert(text.spec_bytes() =~= spec_object_type_name(kind));
    }
    text.as_bytes()
}

/// Whether `prefix` is a prefix of `s`.
fn has_prefix(s: &[u8], prefix: &[u8]) -> (r: bool)
    ensures
        r == spec_has_prefix(s@, prefix@),
{
    if prefix.len() > s.len() {
        return false;
    }
    let mut i: usize = 0;
    while i < prefix.len()
        invariant
            prefix.len() <= s.len(),
            i <= prefix.len(),
            forall|j: int| 0 <= j < i ==> s@[j] == prefix@[j],
        decreases prefix.len() - i,
    {
        if s[i] != prefix[i] {
            return false;
        }
        i = i + 1;
    }
    true
}

/// `git_object_string2type`: the kind whose name is a prefix of `name`, as
/// libgit2 matches it, or `Invalid`.
pub fn git_object_string2type(name: Option<&[u8]>) -> (kind: GitObjectType)
    ensures
        kind == spec_object_type_from_name(spec_optional_bytes(name)),
{
    let s = match name {
        None => return GitObjectType::Invalid,
        Some(s) => s,
    };
    if s.len() == 0 {
        return GitObjectType::Invalid;
    }
    if has_prefix(s, git_object_type2string(GitObjectType::Commit)) {
        GitObjectType::Commit
    } else if has_prefix(s, git_object_type2string(GitObjectType::Tree)) {
        GitObjectType::Tree
    } else if has_prefix(s, git_object_type2string(GitObjectType::Blob)) {
        GitObjectType::Blob
    } else if has_prefix(s, git_object_type2string(GitObjectType::Tag)) {
        GitObjectType::Tag
    } else if has_prefix(s, git_object_type2string(GitObjectType::OfsDelta)) {
        GitObjectType::OfsDelta
    } else if has_prefix(s, git_object_type2string(GitObjectType::RefDelta)) {
        GitObjectType::RefDelta
    } else {
        GitObjectType::Invalid
    }
}

/// Whether a kind is stored as a loose object: commits, trees, blobs and
/// tags.
pub open spec fn spec_object_type_is_loose(kind: GitObjectType) -> bool {
    kind is Commit || kind is Tree || kind is Blob || kind is Tag
}

/// `git_object_typeisloose`: whether the kind is a concrete loose-object
/// type.
pub fn git_object_typeisloose(kind: GitObjectType) -> (loose: bool)
    ensures
        loose == spec_object_type_is_loose(kind),
{
    match kind {
        GitObjectType::Commit | GitObjectType::Tree | GitObjectType::Blob | GitObjectType::Tag => true,
        _ => false,
    }
}

/// Each named kind is recovered from its own name, and a kind without a name
/// names nothing: the empty name gives `Invalid`.
pub proof fn lemma_object_type_name_round_trip(kind: GitObjectType)
    ensures
        spec_object_type_name(kind).len() > 0 ==> spec_object_type_from_name(
            Some(spec_object_type_name(kind)),
        ) == kind,
        spec_object_type_name(kind).len() == 0 ==> spec_object_type_from_name(
            Some(spec_object_type_name(kind)),
        ) == GitObjectType::Invalid,
{
    let commit = spec_object_type_name(GitObjectType::Commit);
    let tree = spec_object_type_name(GitObjectType::Tree);
    let blob = spec_object_type_name(GitObjectType::Blob);
    let tag = spec_object_type_name(GitObjectType::Tag);
    let ofs = spec_object_type_name(GitObjectType::OfsDelta);
    let s = spec_object_type_name(kind);
    if s.len() > 0 {
        assert(spec_has_prefix(s, s));
        if !(kind is Commit) {
            assert(s[0] != commit[0]);
        }
        if !(kind is Commit || kind is Tree) {
            assert(s[0] != tree[0] || s[1] != tree[1]);
        }
        if !(kind is Commit || kind is Tree || kind is Blob) {
            assert(s[0] != blob[0]);
        }
        if !(kind is Commit || kind is Tree || kind is Blob || kind is Tag) {
            assert(s[0] != tag[0]);
        }
        if kind is RefDelta {
            assert(s[0] != ofs[0]);
        }
    }
}

} // verus!
