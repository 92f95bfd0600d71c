//! Volume datasets.
//!
//! A volume is read through its handle; the builder gathers the
//! properties of a volume to be created, always including the volume's
//! size and block size.

use vstd::prelude::*;
use vstd::utf8::encode_utf8;

use crate::dataset::{CoreError, ZfsDatasetHandle, ZfsProp};
use crate::nvpair::{contains_nul, has_nul, NvFlag, NvList, NvListError, ValueView};
use crate::zfs_property::{CheckSumAlgo, CompressionAlgo, VolModeId};

verus! {

/// The block size a volume is created with when none is chosen.
pub const DEFAULT_VOLBLOCKSIZE: u64 = 8192;

/// A volume dataset, read through its handle.
#[derive(Debug)]
pub struct Volume {
    dataset: ZfsDatasetHandle,
}

impl Volume {
    /// The handle the volume reads through.
    pub closed spec fn handle_spec(&self) -> ZfsDatasetHandle {
        self.dataset
    }

    /// Opens a volume over a handle read at the boundary.
    pub fn get_volume(dataset: ZfsDatasetHandle) -> (r: Volume)
        ensures
            r.handle_spec() == dataset,
    {
        Volume { dataset }
    }

    /// Destroys the volume: its name must travel to the engine as a C
    /// string.
    pub fn destroy(self) -> (r: Result<(), CoreError>)
        ensures
            r is Ok <==> !has_nul(encode_utf8(self.handle_spec().name_spec())),
            r is Err ==> r == Err::<(), CoreError>(CoreError::InvalidArgument),
    {
        if contains_nul(self.dataset.get_name().as_str()) {
            return Err(CoreError::InvalidArgument);
        }
        Ok(())
    }

    /// The volume's name.
    pub fn name(&self) -> (r: String)
        ensures
            r@ == self.handle_spec().name_spec(),
    {
        self.dataset.get_name()
    }

    /// The space available to the volume.
    pub fn available(&self) -> (r: u64)
        requires
            self.handle_spec().wf(),
        ensures
            r == self.handle_spec().numeric_property_spec(ZfsProp::Available),
    {
        self.dataset.numeric_property(ZfsProp::Available)
    }

    /// The volume's size.
    pub fn volsize(&self) -> (r: u64)
        requires
            self.handle_spec().wf(),
        ensures
            r == self.handle_spec().numeric_property_spec(ZfsProp::Volsize),
    {
        self.dataset.numeric_property(ZfsProp::Volsize)
    }

    /// The volume's block size.
    pub fn volblocksize(&self) -> (r: u64)
        requires
            self.handle_spec().wf(),
        ensures
            r == self.handle_spec().numeric_property_spec(ZfsProp::Volblocksize),
    {
        self.dataset.numeric_property(ZfsProp::Volblocksize)
    }

    /// The space the volume's data would take uncompressed.
    pub fn logicalused(&self) -> (r: u64)
        requires
            self.handle_spec().wf(),
        ensures
            r == self.handle_spec().numeric_property_spec(ZfsProp::Logicalused),
    {
        self.dataset.numeric_property(ZfsProp::Logicalused)
    }

    /// The volume's checksum algorithm.
    pub fn checksum(&self) -> (r: CheckSumAlgo)
        requires
            self.handle_spec().wf(),
        ensures
            r == CheckSumAlgo::from_u64_spec(
                self.handle_spec().numeric_property_spec(ZfsProp::Checksum),
            ),
    {
        CheckSumAlgo::from_u64(self.dataset.numeric_property(ZfsProp::Checksum))
    }

    /// The volume's compression algorithm.
    pub fn compression(&self) -> (r: CompressionAlgo)
        requires
            self.handle_spec().wf(),
        ensures
            r == CompressionAlgo::from_u64_spec(
                self.handle_spec().numeric_property_spec(ZfsProp::Compression),
            ),
    {
        CompressionAlgo::from_u64(self.dataset.numeric_property(ZfsProp::Compression))
    }

    /// The volume's globally unique identifier.
    pub fn guid(&self) -> (r: u64)
        requires
            self.handle_spec().wf(),
        ensures
            r == self.handle_spec().numeric_property_spec(ZfsProp::Guid),
    {
        self.dataset.numeric_property(ZfsProp::Guid)
    }

    /// When the volume was created.
    pub fn creation(&self) -> (r: u64)
        requires
            self.handle_spec().wf(),
        ensures
            r == self.handle_spec().numeric_property_spec(ZfsProp::Creation),
    {
        self.dataset.numeric_property(ZfsProp::Creation)
    }

    /// The transaction group the volume was created in.
    pub fn createtxg(&self) -> (r: u64)
        requires
            self.handle_spec().wf(),
        ensures
            r == self.handle_spec().numeric_property_spec(ZfsProp::Createtxg),
    {
        self.dataset.numeric_property(ZfsProp::Createtxg)
    }

    /// The volume's compression ratio.
    pub fn compressratio(&self) -> (r: u64)
        requires
            self.handle_spec().wf(),
        ensures
            r == self.handle_spec().numeric_property_spec(ZfsProp::Compressratio),
    {
        self.dataset.numeric_property(ZfsProp::Compressratio)
    }

    /// The space the volume takes.
    pub fn used(&self) -> (r: u64)
        requires
            self.handle_spec().wf(),
        ensures
            r == self.handle_spec().numeric_property_spec(ZfsProp::Used),
    {
        self.dataset.numeric_property(ZfsProp::Used)
    }

    /// The space the volume's data references.
    pub fn referenced(&self) -> (r: u64)
        requires
            self.handle_spec().wf(),
        ensures
            r == self.handle_spec().numeric_property_spec(ZfsProp::Referenced),
    {
        self.dataset.numeric_property(ZfsProp::Referenced)
    }

    /// The space the referenced data would take uncompressed.
    pub fn logicalreferenced(&self) -> (r: u64)
        requires
            self.handle_spec().wf(),
        ensures
            r == self.handle_spec().numeric_property_spec(ZfsProp::Logicalreferenced),
    {
        self.dataset.numeric_property(ZfsProp::Logicalreferenced)
    }

    /// The object-set identifier of the volume.
    pub fn objsetid(&self) -> (r: u64)
        requires
            self.handle_spec().wf(),
        ensures
            r == self.handle_spec().numeric_property_spec(ZfsProp::Objsetid),
    {
        self.dataset.numeric_property(ZfsProp::Objsetid)
    }
}

/// Gathers the properties of a volume to be created.
#[derive(Debug)]
pub struct VolumeBuilder {
    nvlist: NvList,
    volblocksize: u64,
    err: Option<NvListError>,
}

impl VolumeBuilder {
    /// The value gathered under `name`, if any.
    pub closed spec fn prop_of(&self, name: Seq<char>) -> Option<ValueView> {
        self.nvlist.value_of(name)
    }

    /// The block size the volume will be created with.
    pub closed spec fn volblocksize_spec(&self) -> u64 {
        self.volblocksize
    }

    /// Whether a property failure has been latched.
    pub closed spec fn has_error(&self) -> bool {
        self.err is Some
    }

    /// The gathered properties are consistent.
    pub closed spec fn wf(&self) -> bool {
        self.nvlist.wf()
    }

    /// Starts gathering properties, with the default block size.
    pub fn new() -> (r: VolumeBuilder)
        ensures
            r.wf(),
            !r.has_error(),
            r.volblocksize_spec() == DEFAULT_VOLBLOCKSIZE,
            forall|n: Seq<char>| #[trigger] r.prop_of(n) is None,
    {
        VolumeBuilder {
            nvlist: NvList::new(NvFlag::UniqueName),
            volblocksize: Self::calculate_default_volblocksize(),
            err: None,
        }
    }

    /// The block size a volume gets when none is chosen.
    fn calculate_default_volblocksize() -> (r: u64)
        ensures
            r == DEFAULT_VOLBLOCKSIZE,
    {
        8192
    }

    /// Gathers the checksum property, latching the first failure.
    pub fn checksum(self, v: CheckSumAlgo) -> (r: Self)
        requires
            self.wf(),
        ensures
            r.wf(),
            r.volblocksize_spec() == self.volblocksize_spec(),
            self.has_error() ==> r.has_error(),
            !self.has_error() && !has_nul(encode_utf8("checksum"@)) && !has_nul(
                encode_utf8(v.as_str_spec()),
            ) ==> {
                &&& !r.has_error()
                &&& r.prop_of("checksum"@) == Some(ValueView::Str(v.as_str_spec()))
                &&& forall|n: Seq<char>|
                    n != "checksum"@ ==> #[trigger] r.prop_of(n) == self.prop_of(n)
            },
    {
        let mut this = self;
        if matches!(this.err, None) {
            match this.nvlist.add_string("checksum", v.as_str()) {
                Ok(()) => (),
                Err(e) => {
                    this.err = Some(e);
                },
            }
        }
        this
    }

    /// Gathers the compression property, latching the first failure.
    pub fn compression(self, v: CompressionAlgo) -> (r: Self)
        requires
            self.wf(),
        ensures
            r.wf(),
            r.volblocksize_spec() == self.volblocksize_spec(),
            self.has_error() ==> r.has_error(),
            !self.has_error() && !has_nul(encode_utf8("compression"@)) && !has_nul(
                encode_utf8(v.as_str_spec()),
            ) ==> {
                &&& !r.has_error()
                &&& r.prop_of("compression"@) == Some(ValueView::Str(v.as_str_spec()))
                &&& forall|n: Seq<char>|
                    n != "compression"@ ==> #[trigger] r.prop_of(n) == self.prop_of(n)
            },
    {
        let mut this = self;
        if matches!(this.err, None) {
            match this.nvlist.add_string("compression", v.as_str()) {
                Ok(()) => (),
                Err(e) => {
                    this.err = Some(e);
                },
            }
        }
        this
    }

    /// Chooses the block size the volume will be created with.
    pub fn blocksize(self, v: u64) -> (r: Self)
        requires
            self.wf(),
        ensures
            r.wf(),
            r.volblocksize_spec() == v,
            r.has_error() == self.has_error(),
            forall|n: Seq<char>| #[trigger] r.prop_of(n) == self.prop_of(n),
    {
        let mut this = self;
        this.volblocksize = v;
        this
    }

    /// Gathers the volume-mode property, latching the first failure.
    pub fn volmode(self, v: VolModeId) -> (r: Self)
        requires
            self.wf(),
        ensures
            r.wf(),
            r.volblocksize_spec() == self.volblocksize_spec(),
            self.has_error() ==> r.has_error(),
            !self.has_error() && !has_nul(encode_utf8("volmode"@)) ==> {
                &&& !r.has_error()
                &&& r.prop_of("volmode"@) == Some(ValueView::U64(v.as_u64_spec()))
                &&& forall|n: Seq<char>|
                    n != "volmode"@ ==> #[trigger] r.prop_of(n) == self.prop_of(n)
            },
    {
        let mut this = self;
        if matches!(this.err, None) {
            match this.nvlist.add_uint64("volmode", v.as_u64()) {
                Ok(()) => (),
                Err(e) => {
                    this.err = Some(e);
                },
            }
        }
        this
    }

    /// Creates the volume: a latched property failure is reported first;
    /// then the size and block size join the gathered properties, and
    /// the name must travel to the engine as a C string.
    pub fn create(self, name: &str, size: u64) -> (r: Result<Volume, CoreError>)
        requires
            self.wf(),
        ensures
            self.has_error() ==> r is Err,
            !self.has_error() ==> {
                &&& r is Ok <==> !has_nul(encode_utf8(name@)) && !has_nul(
                    encode_utf8("volsize"@),
                ) && !has_nul(encode_utf8("volblocksize"@))
                &&& (r matches Ok(vol) ==> {
                    &&& vol.handle_spec().wf()
                    &&& vol.handle_spec().name_spec() == name@
                    &&& vol.handle_spec().prop_of("volsize"@) == Some(ValueView::U64(size))
                    &&& vol.handle_spec().prop_of("volblocksize"@) == Some(
                        ValueView::U64(self.volblocksize_spec()),
                    )
                })
            },
    {
        let VolumeBuilder { mut nvlist, volblocksize, err } = self;
        match err {
            Some(e) => Err(CoreError::from_nvlist(e)),
            None => {
                if contains_nul(name) {
                    return Err(CoreError::InvalidArgument);
                }
                proof {
                    reveal_strlit("volsize");
                    reveal_strlit("volblocksize");
                }
                match nvlist.add_uint64("volsize", size) {
                    Err(e) => Err(CoreError::from_nvlist(e)),
                    Ok(()) => {
                        match nvlist.add_uint64("volblocksize", volblocksize) {
                            Err(e) => Err(CoreError::from_nvlist(e)),
                            Ok(()) => {
                                let handle = ZfsDatasetHandle::new(
                                    name.to_owned(),
                                    nvlist,
                                    None,
                                );
                                Ok(Volume { dataset: handle })
                            },
                        }
                    },
                }
            },
        }
    }
}

impl Default for VolumeBuilder {
    /// As [`VolumeBuilder::new`].
    fn default() -> (r: Self)
        ensures
            r.wf(),
            !r.has_error(),
            r.volblocksize_spec() == DEFAULT_VOLBLOCKSIZE,
    {
        Self::new()
    }
}

} // verus!
