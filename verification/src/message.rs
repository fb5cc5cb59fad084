//! Commit-message trailers (`git_message_trailer` and its array).
use vstd::prelude::*;

verus! {

/// A key/value pair borrowed from the storage of the trailer array that
/// produced it.
#[derive(Clone, Copy)]
pub struct GitMessageTrailer<'a> {
    key: &'a [u8],
    value: &'a [u8],
}

impl<'a> GitMessageTrailer<'a> {
    /// The key's bytes.
    pub closed spec fn spec_key(&self) -> Seq<u8> {
        self.key@
    }

    /// The value's bytes.
    pub closed spec fn spec_value(&self) -> Seq<u8> {
        self.value@
    }

    /// A trailer with the given key and value.
    pub fn new(key: &'a [u8], value: &'a [u8]) -> (trailer: GitMessageTrailer<'a>)
        ensures
            trailer.spec_key() == key@,
            trailer.spec_value() == value@,
    {
        GitMessageTrailer { key, value }
    }

    /// `git_message_trailer.key`: the trailer key.
    pub fn key(&self) -> (key: &'a [u8])
        ensures
            key@ == self.spec_key(),
    {
        self.key
    }

    /// `git_message_trailer.value`: the trailer value.
    pub fn value(&self) -> (value: &'a [u8])
        ensures
            value@ == self.spec_value(),
    {
        self.value
    }

    /// Stores a borrowed key; the value is unchanged.
    pub fn set_key(&mut self, key: &'a [u8])
        ensures
            final(self).spec_key() == key@,
            final(self).spec_value() == old(self).spec_value(),
    {
        self.key = key;
    }

    /// Stores a borrowed value; the key is unchanged.
    pub fn set_value(&mut self, value: &'a [u8])
        ensures
            final(self).spec_value() == value@,
            final(self).spec_key() == old(self).spec_key(),
    {
        self.value = value;
    }
}

/// The trailers parsed from one message, and whether the private block that
/// backs their strings is installed. No descriptor run is the empty state.
pub struct GitMessageTrailerArray<'a> {
    trailers: Option<Vec<GitMessageTrailer<'a>>>,
    trailer_block: bool,
}

impl<'a> GitMessageTrailerArray<'a> {
    /// The descriptors, if a run is installed.
    pub closed spec fn spec_trailers(&self) -> Option<Seq<GitMessageTrailer<'a>>> {
        match self.trailers {
            Some(v) => Some(v@),
            None => None,
        }
    }

    /// Whether the backing block is installed.
    pub closed spec fn spec_has_trailer_block(&self) -> bool {
        self.trailer_block
    }

    /// The number of descriptors.
    pub open spec fn spec_len(&self) -> nat {
        match self.spec_trailers() {
            Some(t) => t.len(),
            None => 0,
        }
    }

    /// An array with no descriptors and no backing block.
    pub fn new() -> (array: GitMessageTrailerArray<'a>)
        ensures
            array.spec_trailers() is None,
            !array.spec_has_trailer_block(),
    {
        GitMessageTrailerArray { trailers: None, trailer_block: false }
    }

    /// An array holding the descriptors a parse produced.
    pub fn from_parts(trailers: Option<Vec<GitMessageTrailer<'a>>>, has_trailer_block: bool) -> (array:
        GitMessageTrailerArray<'a>)
        ensures
            array.spec_trailers() == (match trailers {
                Some(v) => Some(v@),
                None => None,
            }),
            array.spec_has_trailer_block() == has_trailer_block,
    {
        GitMessageTrailerArray { trailers, trailer_block: has_trailer_block }
    }

    /// `git_message_trailer_array.count`: the number of trailers.
    pub fn len(&self) -> (len: usize)
        ensures
            len == self.spec_len(),
    {
        match &self.trailers {
            Some(t) => t.len(),
            None => 0,
        }
    }

    /// Whether the array holds no trailers.
    pub fn is_empty(&self) -> (empty: bool)
        ensures
            empty == (self.spec_len() == 0),
    {
        self.len() == 0
    }

    /// Whether the private backing block is installed.
    pub fn has_trailer_block(&self) -> (installed: bool)
        ensures
            installed == self.spec_has_trailer_block(),
    {
        self.trailer_block
    }

    /// Borrows the descriptors, or `None` when no run is installed.
    pub fn trailers(&self) -> (trailers: Option<&[GitMessageTrailer<'a>]>)
        ensures
            trailers is None <==> self.spec_trailers() is None,
            trailers matches Some(t) ==> self.spec_trailers() == Some(t@),
    {
        match &self.trailers {
            Some(t) => Some(t.as_slice()),
            None => None,
        }
    }

    /// Borrows the descriptors exclusively, or `None` when no run is
    /// installed; the backing block is unchanged.
    pub fn trailers_mut(&mut self) -> (trailers: Option<&mut Vec<GitMessageTrailer<'a>>>)
        ensures
            trailers is None <==> old(self).spec_trailers() is None,
            trailers is None ==> final(self).spec_trailers() is None,
            trailers matches Some(v) ==> old(self).spec_trailers() == Some(v@),
            trailers matches Some(v) ==> final(self).spec_trailers() == Some(final(v)@),
            final(self).spec_has_trailer_block() == old(self).spec_has_trailer_block(),
    {
        self.trailers.as_mut()
    }
}

} // verus!
