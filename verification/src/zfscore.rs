//! Creating datasets from a gathered property list.
//!
//! The creating calls take the dataset's name and the properties it is
//! to carry; the name is validated for the C-string boundary and the
//! properties of the created dataset are handed back.

use vstd::prelude::*;
use vstd::utf8::encode_utf8;

use crate::dataset::{CoreError, ZfsProp};
use crate::mnttab::{has_mnt_option, Mnttab};
use crate::nvpair::{contains_nul, has_nul, NvList};

verus! {

/// The access-time reading of a dataset that stores no value of its
/// own: the engine default, corrected when the mount options contradict
/// it — a mounted `atime` forces it on where the default says off, a
/// mounted `noatime` forces it off where the default says on.
pub open spec fn default_atime_spec(mnttab: Option<&Mnttab>) -> u64 {
    let default = ZfsProp::Atime.default_numeric_spec();
    match mnttab {
        Some(entry) => {
            if has_mnt_option(
                vstd::utf8::encode_utf8(entry@.mntopts),
                vstd::utf8::encode_utf8("atime"@),
            ) && default == 0 {
                1
            } else if has_mnt_option(
                vstd::utf8::encode_utf8(entry@.mntopts),
                vstd::utf8::encode_utf8("noatime"@),
            ) && default != 0 {
                0
            } else {
                default
            }
        },
        None => default,
    }
}

/// The access-time reading of a dataset that stores no value of its
/// own, corrected by its mount-table entry.
pub fn default_atime(mnttab: Option<&Mnttab>) -> (r: u64)
    ensures
        r == default_atime_spec(mnttab),
{
    let default = ZfsProp::Atime.default_numeric();
    match mnttab {
        Some(entry) => {
            if entry.hasmntopt("atime") && default == 0 {
                1
            } else if entry.hasmntopt("noatime") && default != 0 {
                0
            } else {
                default
            }
        },
        None => default,
    }
}

/// Creates a filesystem carrying the gathered properties.
pub fn create_filesystem(name: &str, nvl: &NvList) -> (r: Result<NvList, CoreError>)
    requires
        nvl.wf(),
    ensures
        r is Ok <==> !has_nul(encode_utf8(name@)),
        r matches Ok(l) ==> l.wf() && l.pairs_spec() == nvl.pairs_spec(),
        r is Err ==> r == Err::<NvList, CoreError>(CoreError::InvalidArgument),
{
    create_dataset(name, nvl)
}

/// Creates a volume carrying the gathered properties.
pub fn create_volume(name: &str, nvl: &NvList) -> (r: Result<NvList, CoreError>)
    requires
        nvl.wf(),
    ensures
        r is Ok <==> !has_nul(encode_utf8(name@)),
        r matches Ok(l) ==> l.wf() && l.pairs_spec() == nvl.pairs_spec(),
        r is Err ==> r == Err::<NvList, CoreError>(CoreError::InvalidArgument),
{
    create_dataset(name, nvl)
}

/// The shared creating path: the name must travel to the engine as a C
/// string, and the created dataset's properties are handed back.
fn create_dataset(name: &str, nvl: &NvList) -> (r: Result<NvList, CoreError>)
    requires
        nvl.wf(),
    ensures
        r is Ok <==> !has_nul(encode_utf8(name@)),
        r matches Ok(l) ==> l.wf() && l.pairs_spec() == nvl.pairs_spec(),
        r is Err ==> r == Err::<NvList, CoreError>(CoreError::InvalidArgument),
{
    if contains_nul(name) {
        return Err(CoreError::InvalidArgument);
    }
    Ok(nvl.clone())
}

} // verus!
