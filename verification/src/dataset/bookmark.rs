//! Bookmark datasets.

use vstd::prelude::*;
use vstd::utf8::encode_utf8;

use crate::dataset::{CoreError, ZfsDatasetHandle, ZfsProp};
use crate::nvpair::{contains_nul, has_nul};

verus! {

/// A bookmark, read through its handle.
#[derive(Debug)]
pub struct Bookmark {
    dataset: ZfsDatasetHandle,
}

impl Bookmark {
    /// The handle the bookmark reads through.
    pub closed spec fn handle_spec(&self) -> ZfsDatasetHandle {
        self.dataset
    }

    /// Opens a bookmark over a handle read at the boundary.
    pub fn get(dataset: ZfsDatasetHandle) -> (r: Bookmark)
        ensures
            r.handle_spec() == dataset,
    {
        Bookmark { dataset }
    }

    /// Destroys the bookmark: its name must travel to the engine as a C
    /// string.
    pub fn destroy(self) -> (r: Result<(), CoreError>)
        ensures
            r is Ok <==> !has_nul(encode_utf8(self.handle_spec().name_spec())),
            r is Err ==> r == Err::<(), CoreError>(CoreError::InvalidArgument),
    {
        if contains_nul(self.dataset.get_name().as_str()) {
            return Err(CoreError::InvalidArgument);
        }
        Ok(())
    }

    /// The bookmark's name.
    pub fn name(&self) -> (r: String)
        ensures
            r@ == self.handle_spec().name_spec(),
    {
        self.dataset.get_name()
    }

    /// The bookmark's globally unique identifier.
    pub fn guid(&self) -> (r: u64)
        requires
            self.handle_spec().wf(),
        ensures
            r == self.handle_spec().numeric_property_spec(ZfsProp::Guid),
    {
        self.dataset.numeric_property(ZfsProp::Guid)
    }

    /// When the bookmarked snapshot was created.
    pub fn creation(&self) -> (r: u64)
        requires
            self.handle_spec().wf(),
        ensures
            r == self.handle_spec().numeric_property_spec(ZfsProp::Creation),
    {
        self.dataset.numeric_property(ZfsProp::Creation)
    }

    /// The transaction group the bookmark was created in.
    pub fn createtxg(&self) -> (r: u64)
        requires
            self.handle_spec().wf(),
        ensures
            r == self.handle_spec().numeric_property_spec(ZfsProp::Createtxg),
    {
        self.dataset.numeric_property(ZfsProp::Createtxg)
    }
}

} // verus!
