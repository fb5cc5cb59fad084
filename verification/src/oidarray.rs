//! An owned, counted run of object IDs (`git_oidarray`).
use vstd::prelude::*;

use crate::oid::Oid;

verus! {

/// The contents of an optional run of IDs.
pub open spec fn spec_optional_ids(ids: Option<Vec<Oid>>) -> Option<Seq<Oid>> {
    match ids {
        Some(v) => Some(v@),
        None => None,
    }
}

/// An inline header owning a counted run of object IDs. No run is the empty
/// state; a present run may still hold no IDs.
pub struct OidArray {
    ids: Option<Vec<Oid>>,
}

impl OidArray {
    /// The run the header owns, if any.
    pub closed spec fn spec_ids(&self) -> Option<Seq<Oid>> {
        spec_optional_ids(self.ids)
    }

    /// The number of IDs the header reports: the length of its run, or zero
    /// without one.
    pub open spec fn spec_count(&self) -> nat {
        match self.spec_ids() {
            Some(ids) => ids.len(),
            None => 0,
        }
    }

    /// An empty header that owns no run.
    pub fn new() -> (array: OidArray)
        ensures
            array.spec_ids() is None,
            array.spec_count() == 0,
    {
        OidArray { ids: None }
    }

    /// `git_oidarray.count`: the number of IDs in the array.
    pub fn count(&self) -> (count: usize)
        ensures
            count == self.spec_count(),
    {
        match &self.ids {
            Some(ids) => ids.len(),
            None => 0,
        }
    }

    /// `git_oidarray.ids`: borrows the run, or `None` when there is none.
    pub fn ids(&self) -> (ids: Option<&[Oid]>)
        ensures
            ids is None <==> self.spec_ids() is None,
            ids matches Some(s) ==> self.spec_ids() == Some(s@),
    {
        match &self.ids {
            Some(ids) => Some(ids.as_slice()),
            None => None,
        }
    }

    /// Borrows the run exclusively, or `None` when there is none. What is
    /// written through the borrow is what the array then holds.
    pub fn ids_mut(&mut self) -> (ids: Option<&mut Vec<Oid>>)
        ensures
            ids is None <==> old(self).spec_ids() is None,
            ids is None ==> final(self).spec_ids() is None,
            ids matches Some(v) ==> old(self).spec_ids() == Some(v@),
            ids matches Some(v) ==> final(self).spec_ids() == Some(final(v)@),
    {
        self.ids.as_mut()
    }

    /// Moves the run out, leaving the header empty.
    pub fn take_ids(&mut self) -> (ids: Option<Vec<Oid>>)
        ensures
            spec_optional_ids(ids) == old(self).spec_ids(),
            final(self).spec_ids() is None,
            final(self).spec_count() == 0,
    {
        self.replace_ids(None)
    }

    /// Installs `ids` and returns the run the header owned before.
    pub fn replace_ids(&mut self, ids: Option<Vec<Oid>>) -> (previous: Option<Vec<Oid>>)
        ensures
            spec_optional_ids(previous) == old(self).spec_ids(),
            final(self).spec_ids() == spec_optional_ids(ids),
    {
        let previous = self.ids.take();
        self.ids = ids;
        previous
    }

    /// Installs `ids`, dropping the run the header owned before.
    pub fn set_ids(&mut self, ids: Option<Vec<Oid>>)
        ensures
            final(self).spec_ids() == spec_optional_ids(ids),
    {
        let _previous = self.replace_ids(ids);
    }
}

} // verus!
