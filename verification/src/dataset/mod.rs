//! Datasets: properties, handles, and the dataset builder.
//!
//! A native dataset handle is opaque; what the service reads from it —
//! the dataset's name, its stored properties, its mount-table entry — is
//! carried here as plain values, converted at the boundary.  The builder
//! gathers a property list for a dataset to be created; the creating call
//! itself belongs to the storage engine, and the model keeps exactly the
//! validation the request path performs.

use vstd::prelude::*;
use vstd::string::StringSliceAdditionalSpecFns;
use vstd::utf8::encode_utf8;

use crate::mnttab::{has_mnt_option, Mnttab};
use crate::nvpair::{has_nul, NvFlag, NvList, NvListError, Value, ValueView};
use crate::zfs_property::{IntoOnOff, IntoOnOffNoAuto};

pub mod bookmark;
pub mod filesystem;
pub mod volume;

verus! {

/// The dataset properties the service reads numerically.
#[derive(Clone, Copy, Debug, PartialEq, Eq, Structural)]
pub enum ZfsProp {
    Atime,
    Available,
    Canmount,
    Checksum,
    Compression,
    Compressratio,
    Creation,
    Createtxg,
    Guid,
    Logicalreferenced,
    Logicalused,
    Mounted,
    Objsetid,
    Referenced,
    Type,
    Used,
    Volblocksize,
    Volmode,
    Volsize,
}

impl ZfsProp {
    /// The canonical name the engine stores the property under.
    pub open spec fn name_spec(&self) -> Seq<char> {
        match self {
            ZfsProp::Atime => "atime"@,
            ZfsProp::Available => "available"@,
            ZfsProp::Canmount => "canmount"@,
            ZfsProp::Checksum => "checksum"@,
            ZfsProp::Compression => "compression"@,
            ZfsProp::Compressratio => "compressratio"@,
            ZfsProp::Creation => "creation"@,
            ZfsProp::Createtxg => "createtxg"@,
            ZfsProp::Guid => "guid"@,
            ZfsProp::Logicalreferenced => "logicalreferenced"@,
            ZfsProp::Logicalused => "logicalused"@,
            ZfsProp::Mounted => "mounted"@,
            ZfsProp::Objsetid => "objsetid"@,
            ZfsProp::Referenced => "referenced"@,
            ZfsProp::Type => "type"@,
            ZfsProp::Used => "used"@,
            ZfsProp::Volblocksize => "volblocksize"@,
            ZfsProp::Volmode => "volmode"@,
            ZfsProp::Volsize => "volsize"@,
        }
    }

    /// The canonical name the engine stores the property under.
    pub fn name(&self) -> (r: &'static str)
        ensures
            r@ == self.name_spec(),
    {
        match self {
            ZfsProp::Atime => "atime",
            ZfsProp::Available => "available",
            ZfsProp::Canmount => "canmount",
            ZfsProp::Checksum => "checksum",
            ZfsProp::Compression => "compression",
            ZfsProp::Compressratio => "compressratio",
            ZfsProp::Creation => "creation",
            ZfsProp::Createtxg => "createtxg",
            ZfsProp::Guid => "guid",
            ZfsProp::Logicalreferenced => "logicalreferenced",
            ZfsProp::Logicalused => "logicalused",
            ZfsProp::Mounted => "mounted",
            ZfsProp::Objsetid => "objsetid",
            ZfsProp::Referenced => "referenced",
            ZfsProp::Type => "type",
            ZfsProp::Used => "used",
            ZfsProp::Volblocksize => "volblocksize",
            ZfsProp::Volmode => "volmode",
            ZfsProp::Volsize => "volsize",
        }
    }

    /// The value the model takes for a property the dataset does not
    /// store: access time and mountability default to on, everything
    /// else to zero.
    pub open spec fn default_numeric_spec(&self) -> u64 {
        match self {
            ZfsProp::Atime => 1,
            ZfsProp::Canmount => 1,
            _ => 0,
        }
    }

    /// The value the model takes for a property the dataset does not
    /// store.
    pub fn default_numeric(&self) -> (r: u64)
        ensures
            r == self.default_numeric_spec(),
    {
        match self {
            ZfsProp::Atime => 1,
            ZfsProp::Canmount => 1,
            _ => 0,
        }
    }
}

/// The ways a dataset operation can fail.
#[derive(Clone, Debug, PartialEq)]
pub enum CoreError {
    /// The named dataset does not exist.
    DatasetNotExist,
    /// A name or value could not be handed to the engine.
    InvalidArgument,
    /// The engine ran out of memory.
    InsufficientMemory,
}

impl CoreError {
    /// Carries a property-list failure over to a dataset failure.
    pub fn from_nvlist(e: NvListError) -> (r: CoreError)
        ensures
            e == NvListError::InsufficientMemory ==> r == CoreError::InsufficientMemory,
            e != NvListError::InsufficientMemory ==> r == CoreError::InvalidArgument,
    {
        match e {
            NvListError::InsufficientMemory => CoreError::InsufficientMemory,
            _ => CoreError::InvalidArgument,
        }
    }
}

/// What the service reads from an open dataset handle: the dataset's
/// name, its stored properties, and its mount-table entry when mounted.
#[derive(Debug)]
pub struct ZfsDatasetHandle {
    name: String,
    props: NvList,
    mnttab: Option<Mnttab>,
}

impl ZfsDatasetHandle {
    /// The dataset's name.
    pub closed spec fn name_spec(&self) -> Seq<char> {
        self.name@
    }

    /// The value stored under `name`, if any.
    pub closed spec fn prop_of(&self, name: Seq<char>) -> Option<ValueView> {
        self.props.value_of(name)
    }

    /// The dataset's mount options hold `opt`.
    pub closed spec fn mnt_option_spec(&self, opt: Seq<char>) -> bool {
        match self.mnttab {
            Some(ref m) => has_mnt_option(encode_utf8(m@.mntopts), encode_utf8(opt)),
            None => false,
        }
    }

    /// The stored properties are consistent.
    pub closed spec fn wf(&self) -> bool {
        self.props.wf()
    }

    /// The numeric reading of a property: the stored value, or the
    /// model's default where none is stored numerically.
    pub open spec fn numeric_property_spec(&self, prop: ZfsProp) -> u64 {
        match self.prop_of(prop.name_spec()) {
            Some(ValueView::U64(v)) => v,
            _ => prop.default_numeric_spec(),
        }
    }

    /// Builds a handle from what was read at the boundary.
    pub fn new(name: String, props: NvList, mnttab: Option<Mnttab>) -> (r: ZfsDatasetHandle)
        requires
            props.wf(),
        ensures
            r.wf(),
            r.name_spec() == name@,
            forall|n: Seq<char>| #[trigger] r.prop_of(n) == props.value_of(n),
            forall|opt: Seq<char>| #[trigger]
                r.mnt_option_spec(opt) == match mnttab {
                    Some(ref m) => has_mnt_option(encode_utf8(m@.mntopts), encode_utf8(opt)),
                    None => false,
                },
    {
        ZfsDatasetHandle { name, props, mnttab }
    }

    /// The dataset's name.
    pub fn get_name(&self) -> (r: String)
        ensures
            r@ == self.name_spec(),
    {
        self.name.clone()
    }

    /// The numeric reading of a property.
    pub fn numeric_property(&self, prop: ZfsProp) -> (r: u64)
        requires
            self.wf(),
        ensures
            r == self.numeric_property_spec(prop),
    {
        match self.props.get(prop.name()) {
            Some(value) => match value {
                Value::U64(v) => *v,
                _ => prop.default_numeric(),
            },
            None => prop.default_numeric(),
        }
    }

    /// The stored value of the named property, if any.
    pub fn search_property(&self, name: &str) -> (r: Option<&Value>)
        requires
            self.wf(),
        ensures
            r matches Some(v) ==> self.prop_of(name@) == Some(v@),
            r is None ==> self.prop_of(name@) is None,
    {
        self.props.get(name)
    }

    /// Whether the dataset's mount options hold `opt`.
    pub fn check_mnt_option(&self, opt: &str) -> (r: bool)
        ensures
            r == self.mnt_option_spec(opt@),
    {
        match &self.mnttab {
            Some(m) => m.hasmntopt(opt),
            None => false,
        }
    }
}

/// A dataset being assembled: a name and the gathered properties, ready
/// for one of the creating calls.
#[derive(Debug)]
pub struct Dataset {
    name: String,
    nvlist: NvList,
}

impl Dataset {
    /// The dataset's name.
    pub closed spec fn name_spec(&self) -> Seq<char> {
        self.name@
    }

    /// The value gathered under `name`, if any.
    pub closed spec fn prop_of(&self, name: Seq<char>) -> Option<ValueView> {
        self.nvlist.value_of(name)
    }

    /// The gathered properties are consistent.
    pub closed spec fn wf(&self) -> bool {
        self.nvlist.wf()
    }

    /// Starts assembling the named dataset, with no properties gathered.
    pub fn new(name: &str) -> (r: Result<Dataset, CoreError>)
        ensures
            r matches Ok(d) && d.wf() && d.name_spec() == name@ && forall|n: Seq<char>| #[trigger]
                d.prop_of(n) is None,
    {
        Ok(Dataset { name: name.to_owned(), nvlist: NvList::new(NvFlag::UniqueName) })
    }

    /// Gathers the access-time property.  Accepted exactly when the
    /// canonical text of the value can travel to the engine.
    pub fn atime<V: IntoOnOff>(self, v: V) -> (r: Result<Dataset, CoreError>)
        requires
            self.wf(),
        ensures
            r matches Ok(d) ==> {
                &&& d.wf()
                &&& d.name_spec() == self.name_spec()
                &&& d.prop_of("atime"@) == Some(
                    ValueView::Str(v.as_on_off().as_str_spec()),
                )
                &&& forall|n: Seq<char>|
                    n != "atime"@ ==> #[trigger] d.prop_of(n) == self.prop_of(n)
            },
            r is Err ==> r == Err::<Dataset, CoreError>(CoreError::InvalidArgument),
            r is Ok <==> !has_nul(encode_utf8("atime"@)) && !has_nul(
                encode_utf8(v.as_on_off().as_str_spec()),
            ),
    {
        let value = v.to_on_off();
        let mut this = self;
        match this.nvlist.add_string("atime", value.as_str()) {
            Ok(()) => Ok(this),
            Err(e) => Err(CoreError::from_nvlist(e)),
        }
    }

    /// Gathers the mountability property.  Accepted exactly when the
    /// canonical text of the value can travel to the engine.
    pub fn canmount<V: IntoOnOffNoAuto>(self, v: V) -> (r: Result<Dataset, CoreError>)
        requires
            self.wf(),
        ensures
            r matches Ok(d) ==> {
                &&& d.wf()
                &&& d.name_spec() == self.name_spec()
                &&& d.prop_of("canmount"@) == Some(
                    ValueView::Str(v.as_on_off_no_auto().as_str_spec()),
                )
                &&& forall|n: Seq<char>|
                    n != "canmount"@ ==> #[trigger] d.prop_of(n) == self.prop_of(n)
            },
            r is Err ==> r == Err::<Dataset, CoreError>(CoreError::InvalidArgument),
            r is Ok <==> !has_nul(encode_utf8("canmount"@)) && !has_nul(
                encode_utf8(v.as_on_off_no_auto().as_str_spec()),
            ),
    {
        let value = v.to_on_off_no_auto();
        let mut this = self;
        match this.nvlist.add_string("canmount", value.as_str()) {
            Ok(()) => Ok(this),
            Err(e) => Err(CoreError::from_nvlist(e)),
        }
    }

    /// Creates the dataset as a filesystem: the name must travel to the
    /// engine as a C string, and the new handle carries the gathered
    /// properties.
    pub fn create_filesystem(self) -> (r: Result<ZfsDatasetHandle, CoreError>)
        requires
            self.wf(),
        ensures
            r is Ok <==> !has_nul(encode_utf8(self.name_spec())),
            r matches Ok(h) ==> h.wf() && h.name_spec() == self.name_spec() && forall|
                n: Seq<char>,
            | #[trigger] h.prop_of(n) == self.prop_of(n),
            r is Err ==> r == Err::<ZfsDatasetHandle, CoreError>(CoreError::InvalidArgument),
    {
        self.create_with_kind()
    }

    /// Creates the dataset as a volume of `size` bytes: the name and the
    /// size property must travel to the engine, and the new handle
    /// carries the gathered properties with the volume size.
    pub fn create_volume(self, size: u64) -> (r: Result<ZfsDatasetHandle, CoreError>)
        requires
            self.wf(),
        ensures
            r is Ok <==> !has_nul(encode_utf8(self.name_spec())) && !has_nul(
                encode_utf8("volsize"@),
            ),
            r matches Ok(h) ==> {
                &&& h.wf()
                &&& h.name_spec() == self.name_spec()
                &&& h.prop_of("volsize"@) == Some(ValueView::U64(size))
                &&& forall|n: Seq<char>|
                    n != "volsize"@ ==> #[trigger] h.prop_of(n) == self.prop_of(n)
            },
            r is Err ==> r == Err::<ZfsDatasetHandle, CoreError>(CoreError::InvalidArgument),
    {
        let mut this = self;
        match this.nvlist.add_uint64("volsize", size) {
            Ok(()) => this.create_with_kind(),
            Err(e) => Err(CoreError::from_nvlist(e)),
        }
    }

    /// Creates the dataset as a snapshot of its name's base dataset.
    pub fn create_snapshot(self) -> (r: Result<ZfsDatasetHandle, CoreError>)
        requires
            self.wf(),
        ensures
            r is Ok <==> !has_nul(encode_utf8(self.name_spec())),
            r matches Ok(h) ==> h.wf() && h.name_spec() == self.name_spec() && forall|
                n: Seq<char>,
            | #[trigger] h.prop_of(n) == self.prop_of(n),
            r is Err ==> r == Err::<ZfsDatasetHandle, CoreError>(CoreError::InvalidArgument),
    {
        self.create_with_kind()
    }

    /// Creates a bookmark under the dataset's name.
    pub fn create_bookmark(self) -> (r: Result<ZfsDatasetHandle, CoreError>)
        requires
            self.wf(),
        ensures
            r is Ok <==> !has_nul(encode_utf8(self.name_spec())),
            r matches Ok(h) ==> h.wf() && h.name_spec() == self.name_spec() && forall|
                n: Seq<char>,
            | #[trigger] h.prop_of(n) == self.prop_of(n),
            r is Err ==> r == Err::<ZfsDatasetHandle, CoreError>(CoreError::InvalidArgument),
    {
        self.create_with_kind()
    }

    /// The shared creating path: validates the name and hands the
    /// gathered properties to the new handle.
    fn create_with_kind(self) -> (r: Result<ZfsDatasetHandle, CoreError>)
        requires
            self.wf(),
        ensures
            r is Ok <==> !has_nul(encode_utf8(self.name_spec())),
            r matches Ok(h) ==> h.wf() && h.name_spec() == self.name_spec() && forall|
                n: Seq<char>,
            | #[trigger] h.prop_of(n) == self.prop_of(n),
            r is Err ==> r == Err::<ZfsDatasetHandle, CoreError>(CoreError::InvalidArgument),
    {
        if crate::nvpair::contains_nul(self.name.as_str()) {
            return Err(CoreError::InvalidArgument);
        }
        Ok(ZfsDatasetHandle::new(self.name, self.nvlist, None))
    }
}

} // verus!
