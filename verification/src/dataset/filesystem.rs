//! Filesystem datasets.
//!
//! A filesystem is read through its handle; the builder gathers the
//! properties of a filesystem to be created.  A property setter never
//! fails the chain by itself: the first failure is latched and reported
//! when the filesystem is finally created.

use vstd::prelude::*;
use vstd::utf8::encode_utf8;

use crate::dataset::{CoreError, ZfsDatasetHandle, ZfsProp};
use crate::nvpair::{contains_nul, has_nul, NvFlag, NvList, NvListError, Value, ValueView};
use crate::zfs_property::{CheckSumAlgo, CompressionAlgo, IntoOnOff, IntoOnOffNoAuto, OnOff};

verus! {

/// A filesystem dataset, read through its handle.
#[derive(Debug)]
pub struct Filesystem {
    dataset_handler: ZfsDatasetHandle,
}

/// Whether the handle's stored access-time property, if any, is numeric
/// — the only form the reading understands.
pub open spec fn atime_readable(h: &ZfsDatasetHandle) -> bool {
    match h.prop_of("atime"@) {
        Some(v) => v is U64,
        None => true,
    }
}

/// The access-time reading of a handle: the stored numeric value if one
/// is there; otherwise the engine default, corrected by the mount
/// options when they contradict it.
pub open spec fn atime_spec(h: &ZfsDatasetHandle) -> OnOff {
    match h.prop_of("atime"@) {
        Some(ValueView::U64(v)) => if v == 0 {
            OnOff::Off
        } else {
            OnOff::On
        },
        _ => {
            let default = ZfsProp::Atime.default_numeric_spec();
            if h.mnt_option_spec("atime"@) && default == 0 {
                OnOff::On
            } else if h.mnt_option_spec("noatime"@) && default != 0 {
                OnOff::Off
            } else if default == 0 {
                OnOff::Off
            } else {
                OnOff::On
            }
        },
    }
}

impl Filesystem {
    /// Destroys the filesystem: its name must travel to the engine as a
    /// C string.
    pub fn destroy(self) -> (r: Result<(), CoreError>)
        ensures
            r is Ok <==> !has_nul(encode_utf8(self.handle_spec().name_spec())),
            r is Err ==> r == Err::<(), CoreError>(CoreError::InvalidArgument),
    {
        if contains_nul(self.dataset_handler.get_name().as_str()) {
            return Err(CoreError::InvalidArgument);
        }
        Ok(())
    }

    /// The filesystem's name.
    pub fn name(&self) -> (r: String)
        ensures
            r@ == self.handle_spec().name_spec(),
    {
        self.dataset_handler.get_name()
    }

    /// The space available to the filesystem.
    pub fn available(&self) -> (r: u64)
        requires
            self.handle_spec().wf(),
        ensures
            r == self.handle_spec().numeric_property_spec(ZfsProp::Available),
    {
        self.dataset_handler.numeric_property(ZfsProp::Available)
    }

    /// The filesystem's access-time setting: the stored value if one is
    /// there, otherwise the default corrected by the mount options.
    pub fn atime(&self) -> (r: OnOff)
        requires
            self.handle_spec().wf(),
            atime_readable(&self.handle_spec()),
        ensures
            r == atime_spec(&self.handle_spec()),
    {
        match self.dataset_handler.search_property("atime") {
            Some(value) => match value {
                Value::U64(v) => {
                    if *v == 0 {
                        OnOff::Off
                    } else {
                        OnOff::On
                    }
                },
                _ => OnOff::Off,
            },
            None => {
                let default = ZfsProp::Atime.default_numeric();
                if self.dataset_handler.check_mnt_option("atime") && default == 0 {
                    OnOff::On
                } else if self.dataset_handler.check_mnt_option("noatime") && default != 0 {
                    OnOff::Off
                } else if default == 0 {
                    OnOff::Off
                } else {
                    OnOff::On
                }
            },
        }
    }

    /// Opens a filesystem over a handle read at the boundary.
    pub fn get_filesystem(dataset_handler: ZfsDatasetHandle) -> (r: Filesystem)
        ensures
            r.handle_spec() == dataset_handler,
    {
        Filesystem { dataset_handler }
    }

    /// The handle the filesystem reads through.
    pub closed spec fn handle_spec(&self) -> ZfsDatasetHandle {
        self.dataset_handler
    }
}

/// Holds when `after` is `before` with the string property `name` set to
/// `value`: a latched failure is kept, a fresh failure latches
/// `InvalidArgument` exactly when the name or the value cannot travel to
/// the engine, and every other property is untouched.
pub open spec fn prop_set_outcome(
    before: &FileSystemBuilder,
    after: &FileSystemBuilder,
    name: Seq<char>,
    value: Seq<char>,
) -> bool {
    &&& after.name_spec() == before.name_spec()
    &&& before.has_error() ==> after.has_error() && after.error_spec() == before.error_spec()
    &&& !before.has_error() && !has_nul(encode_utf8(name)) && !has_nul(encode_utf8(value)) ==> {
        &&& !after.has_error()
        &&& after.prop_of(name) == Some(ValueView::Str(value))
        &&& forall|n: Seq<char>| n != name ==> #[trigger] after.prop_of(n) == before.prop_of(n)
    }
    &&& !before.has_error() && (has_nul(encode_utf8(name)) || has_nul(encode_utf8(value))) ==> {
        &&& after.has_error()
        &&& after.error_spec() == NvListError::InvalidArgument
    }
}

/// Gathers the properties of a filesystem to be created.
#[derive(Debug)]
pub struct FileSystemBuilder {
    nvlist: Result<NvList, NvListError>,
    name: String,
}

impl FileSystemBuilder {
    /// The name the filesystem will be created under.
    pub closed spec fn name_spec(&self) -> Seq<char> {
        self.name@
    }

    /// Whether a property failure has been latched.
    pub closed spec fn has_error(&self) -> bool {
        self.nvlist is Err
    }

    /// The latched failure.
    pub closed spec fn error_spec(&self) -> NvListError {
        match self.nvlist {
            Err(ref e) => *e,
            Ok(_) => NvListError::InvalidArgument,
        }
    }

    /// The value gathered under `name`, if any.
    pub closed spec fn prop_of(&self, name: Seq<char>) -> Option<ValueView> {
        match self.nvlist {
            Ok(ref l) => l.value_of(name),
            Err(_) => None,
        }
    }

    /// The gathered properties are consistent.
    pub closed spec fn wf(&self) -> bool {
        match self.nvlist {
            Ok(ref l) => l.wf(),
            Err(_) => true,
        }
    }

    /// Starts gathering properties for the named filesystem.
    pub fn new(name: &str) -> (r: FileSystemBuilder)
        ensures
            r.wf(),
            r.name_spec() == name@,
            !r.has_error(),
            forall|n: Seq<char>| #[trigger] r.prop_of(n) is None,
    {
        FileSystemBuilder {
            nvlist: Ok(NvList::new(NvFlag::UniqueName)),
            name: name.to_owned(),
        }
    }

    /// Sets one string property, latching the first failure.
    fn add_string_prop(self, prop: &str, value: &str) -> (r: Self)
        requires
            self.wf(),
        ensures
            r.wf(),
            prop_set_outcome(&self, &r, prop@, value@),
    {
        let FileSystemBuilder { nvlist, name } = self;
        match nvlist {
            Ok(mut l) => {
                match l.add_string(prop, value) {
                    Ok(()) => FileSystemBuilder { nvlist: Ok(l), name },
                    Err(e) => FileSystemBuilder { nvlist: Err(e), name },
                }
            },
            Err(e) => FileSystemBuilder { nvlist: Err(e), name },
        }
    }

    /// Gathers the access-time property.
    pub fn atime<V: IntoOnOff>(self, v: V) -> (r: Self)
        requires
            self.wf(),
        ensures
            r.wf(),
            prop_set_outcome(&self, &r, "atime"@, v.as_on_off().as_str_spec()),
    {
        let value = v.to_on_off();
        self.add_string_prop("atime", value.as_str())
    }

    /// Gathers the mountability property.
    pub fn canmount<V: IntoOnOffNoAuto>(self, v: V) -> (r: Self)
        requires
            self.wf(),
        ensures
            r.wf(),
            prop_set_outcome(&self, &r, "canmount"@, v.as_on_off_no_auto().as_str_spec()),
    {
        let value = v.to_on_off_no_auto();
        self.add_string_prop("canmount", value.as_str())
    }

    /// Gathers the checksum property.
    pub fn checksum(self, v: CheckSumAlgo) -> (r: Self)
        requires
            self.wf(),
        ensures
            r.wf(),
            prop_set_outcome(&self, &r, "checksum"@, v.as_str_spec()),
    {
        self.add_string_prop("checksum", v.as_str())
    }

    /// Gathers the device-files property.
    pub fn devices<V: IntoOnOff>(self, v: V) -> (r: Self)
        requires
            self.wf(),
        ensures
            r.wf(),
            prop_set_outcome(&self, &r, "devices"@, v.as_on_off().as_str_spec()),
    {
        let value = v.to_on_off();
        self.add_string_prop("devices", value.as_str())
    }

    /// Gathers the non-blocking-mandatory-locks property.
    pub fn nbmand<V: IntoOnOff>(self, v: V) -> (r: Self)
        requires
            self.wf(),
        ensures
            r.wf(),
            prop_set_outcome(&self, &r, "nbmand"@, v.as_on_off().as_str_spec()),
    {
        let value = v.to_on_off();
        self.add_string_prop("nbmand", value.as_str())
    }

    /// Gathers the overlay-mount property.
    pub fn overlay<V: IntoOnOff>(self, v: V) -> (r: Self)
        requires
            self.wf(),
        ensures
            r.wf(),
            prop_set_outcome(&self, &r, "overlay"@, v.as_on_off().as_str_spec()),
    {
        let value = v.to_on_off();
        self.add_string_prop("overlay", value.as_str())
    }

    /// Gathers the read-only property.
    pub fn readonly<V: IntoOnOff>(self, v: V) -> (r: Self)
        requires
            self.wf(),
        ensures
            r.wf(),
            prop_set_outcome(&self, &r, "readonly"@, v.as_on_off().as_str_spec()),
    {
        let value = v.to_on_off();
        self.add_string_prop("readonly", value.as_str())
    }

    /// Gathers the relative-access-time property.
    pub fn relatime<V: IntoOnOff>(self, v: V) -> (r: Self)
        requires
            self.wf(),
        ensures
            r.wf(),
            prop_set_outcome(&self, &r, "relatime"@, v.as_on_off().as_str_spec()),
    {
        let value = v.to_on_off();
        self.add_string_prop("relatime", value.as_str())
    }

    /// Gathers the set-user-identity property.
    pub fn setuid<V: IntoOnOff>(self, v: V) -> (r: Self)
        requires
            self.wf(),
        ensures
            r.wf(),
            prop_set_outcome(&self, &r, "setuid"@, v.as_on_off().as_str_spec()),
    {
        let value = v.to_on_off();
        self.add_string_prop("setuid", value.as_str())
    }

    /// Gathers the virus-scan property.
    pub fn vscan<V: IntoOnOff>(self, v: V) -> (r: Self)
        requires
            self.wf(),
        ensures
            r.wf(),
            prop_set_outcome(&self, &r, "vscan"@, v.as_on_off().as_str_spec()),
    {
        let value = v.to_on_off();
        self.add_string_prop("vscan", value.as_str())
    }

    /// Gathers the zone-visibility property.
    pub fn zoned<V: IntoOnOff>(self, v: V) -> (r: Self)
        requires
            self.wf(),
        ensures
            r.wf(),
            prop_set_outcome(&self, &r, "zoned"@, v.as_on_off().as_str_spec()),
    {
        let value = v.to_on_off();
        self.add_string_prop("zoned", value.as_str())
    }

    /// Gathers the compression property.
    pub fn compression(self, v: CompressionAlgo) -> (r: Self)
        requires
            self.wf(),
        ensures
            r.wf(),
            prop_set_outcome(&self, &r, "compression"@, v.as_str_spec()),
    {
        self.add_string_prop("compression", v.as_str())
    }

    /// Gathers the executable-files property.
    pub fn exec<V: IntoOnOff>(self, v: V) -> (r: Self)
        requires
            self.wf(),
        ensures
            r.wf(),
            prop_set_outcome(&self, &r, "exec"@, v.as_on_off().as_str_spec()),
    {
        let value = v.to_on_off();
        self.add_string_prop("exec", value.as_str())
    }

    /// Creates the filesystem: a latched property failure is reported
    /// first, then the name must travel to the engine as a C string, and
    /// the new filesystem's handle carries the gathered properties.
    pub fn create(self) -> (r: Result<Filesystem, CoreError>)
        requires
            self.wf(),
        ensures
            self.has_error() ==> (r matches Err(e) && e == spec_core_error(self.error_spec())),
            !self.has_error() ==> {
                &&& r is Ok <==> !has_nul(encode_utf8(self.name_spec()))
                &&& (r matches Ok(f) ==> f.handle_spec().wf() && f.handle_spec().name_spec()
                    == self.name_spec() && forall|n: Seq<char>| #[trigger]
                    f.handle_spec().prop_of(n) == self.prop_of(n))
                &&& r is Err ==> r == Err::<Filesystem, CoreError>(CoreError::InvalidArgument)
            },
    {
        match self.nvlist {
            Err(e) => Err(CoreError::from_nvlist(e)),
            Ok(l) => {
                if contains_nul(self.name.as_str()) {
                    return Err(CoreError::InvalidArgument);
                }
                let handle = ZfsDatasetHandle::new(self.name, l, None);
                Ok(Filesystem { dataset_handler: handle })
            },
        }
    }
}

/// The dataset failure a latched property failure is reported as.
pub open spec fn spec_core_error(e: NvListError) -> CoreError {
    if e == NvListError::InsufficientMemory {
        CoreError::InsufficientMemory
    } else {
        CoreError::InvalidArgument
    }
}

} // verus!
