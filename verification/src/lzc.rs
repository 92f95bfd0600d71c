//! The storage-engine request layer.
//!
//! Each engine operation begins with plain text names and property
//! values and turns them into the request the engine takes: names are
//! validated for the C-string boundary, snapshot requests are gathered
//! into a property list, and the send flags are fixed.  The blocking
//! engine calls themselves stand outside this crate; everything a request
//! carries into them is computed and checked here.

use vstd::prelude::*;
use vstd::string::StringExecFns;
use vstd::utf8::encode_utf8;

use crate::collector::DatasetIteratorBuilder;
use crate::dataset::CoreError;
use crate::handle::DatasetPool;
use crate::nvpair::{contains_nul, has_nul, NvFlag, NvList, ValueView};

verus! {

/// The engine is asked to embed small blocks in the send stream.
pub const LZC_SEND_FLAG_EMBED_DATA: u32 = 1;

/// The engine is asked to keep large blocks intact in the send stream.
pub const LZC_SEND_FLAG_LARGE_BLOCK: u32 = 2;

/// The engine is asked to send compressed blocks as they are stored.
pub const LZC_SEND_FLAG_COMPRESS: u32 = 4;

/// The engine version the service was initialised against.
#[derive(Debug)]
pub struct Version {
    raw: String,
}

impl Clone for Version {
    fn clone(&self) -> (r: Self)
        ensures
            r.raw_spec() == self.raw_spec(),
    {
        Version { raw: self.raw.clone() }
    }
}

impl Version {
    /// The version text as the engine reported it.
    pub closed spec fn raw_spec(&self) -> Seq<char> {
        self.raw@
    }

    /// Wraps the version text the engine reported.
    pub fn new(raw: String) -> (r: Version)
        ensures
            r.raw_spec() == raw@,
    {
        Version { raw }
    }

    /// The version text as the engine reported it.
    pub fn raw(&self) -> (r: &str)
        ensures
            r@ == self.raw_spec(),
    {
        self.raw.as_str()
    }
}

/// The handle of an initialised storage engine: constructed once and
/// passed to whoever needs it, never ambient global state.
#[derive(Debug)]
pub struct Lzc {
    version: Version,
}

impl Clone for Lzc {
    fn clone(&self) -> (r: Self)
        ensures
            r.version_spec() == self.version_spec(),
    {
        Lzc { version: self.version.clone() }
    }
}

impl Lzc {
    /// The engine version the handle was initialised with.
    pub closed spec fn version_spec(&self) -> Seq<char> {
        self.version.raw_spec()
    }

    /// Initialises a handle over the engine version read at the
    /// boundary.
    pub fn init(version: Version) -> (r: Lzc)
        ensures
            r.version_spec() == version.raw_spec(),
    {
        Lzc { version }
    }
}

/// The engine version of an initialised handle.
pub fn version(lzc: &Lzc) -> (r: Version)
    ensures
        r.raw_spec() == lzc.version_spec(),
{
    lzc.version.clone()
}

/// The engine version of an initialised handle.
pub fn zfs_version(lzc: &Lzc) -> (r: Version)
    ensures
        r.raw_spec() == lzc.version_spec(),
{
    lzc.version.clone()
}

/// Gathers snapshot names into the engine's snapshot request: one marker
/// pair per name.  Accepted exactly when every name can travel to the
/// engine as a C string.
pub fn snapshots_impl(names: &Vec<String>) -> (r: Result<NvList, CoreError>)
    ensures
        r is Ok <==> forall|i: int|
            0 <= i < names@.len() ==> !has_nul(encode_utf8((#[trigger] names@[i])@)),
        r matches Ok(l) ==> l.wf() && forall|i: int|
            0 <= i < names@.len() ==> #[trigger] l.value_of(names@[i]@) == Some(
                ValueView::Boolean,
            ),
        r is Err ==> r == Err::<NvList, CoreError>(CoreError::InvalidArgument),
{
    let mut snaps = NvList::new(NvFlag::UniqueName);
    let mut i: usize = 0;
    while i < names.len()
        invariant
            i <= names@.len(),
            snaps.wf(),
            forall|j: int| 0 <= j < i ==> !has_nul(encode_utf8((#[trigger] names@[j])@)),
            forall|j: int|
                0 <= j < i ==> #[trigger] snaps.value_of(names@[j]@) == Some(
                    ValueView::Boolean,
                ),
        decreases names@.len() - i,
    {
        match snaps.add_boolean(names[i].as_str()) {
            Ok(()) => (),
            Err(_) => {
                return Err(CoreError::InvalidArgument);
            },
        }
        proof {
            assert forall|j: int|
                0 <= j < i + 1 implies #[trigger] snaps.value_of(names@[j]@) == Some(
                ValueView::Boolean,
            ) by {
                if names@[j]@ == names@[i as int]@ {
                } else {
                }
            }
        }
        i = i + 1;
    }
    Ok(snaps)
}

/// Prepares the request for one snapshot, named in full.
pub fn snapshot(name: &str) -> (r: Result<NvList, CoreError>)
    ensures
        r is Ok <==> !has_nul(encode_utf8(name@)),
        r matches Ok(l) ==> l.wf() && l.value_of(name@) == Some(ValueView::Boolean),
        r is Err ==> r == Err::<NvList, CoreError>(CoreError::InvalidArgument),
{
    let mut names: Vec<String> = Vec::new();
    names.push(name.to_owned());
    let r = snapshots_impl(&names);
    proof {
        assert(names@[0]@ == name@);
        if !has_nul(encode_utf8(name@)) {
            assert(forall|i: int|
                0 <= i < names@.len() ==> !has_nul(encode_utf8((#[trigger] names@[i])@)));
        }
    }
    r
}

/// The full snapshot name of a dataset: the dataset's name, the marker,
/// and the snapshot's short name.
pub open spec fn snap_name(dataset: Seq<char>, snapshot: Seq<char>) -> Seq<char> {
    dataset + "@"@ + snapshot
}

/// The datasets a recursive snapshot request covers: the filesystems
/// and volumes in the selected part of the hierarchy.
pub open spec fn snapshot_targets(
    pool: &DatasetPool,
    dataset: Seq<char>,
    recursive: bool,
) -> Seq<crate::handle::HandleView> {
    crate::collector::selected_upto(
        pool,
        crate::handle::ZfsType(0).with_spec(
            crate::handle::ZfsType(crate::handle::ZFS_TYPE_FILESYSTEM),
        ).with_spec(crate::handle::ZfsType(crate::handle::ZFS_TYPE_VOLUME)),
        crate::collector::named_index(pool, dataset),
        recursive,
        pool.entries@.len() as int,
    )
}

/// Prepares the request that snapshots `dataset` — and, when asked,
/// every filesystem and volume below it — under the short name
/// `snapshot`: one marker pair per covered dataset, named in full.
/// Accepted exactly when every full name can travel to the engine.
pub fn snapshots(
    dataset: &str,
    snapshot: &str,
    recursive: bool,
    pool: &DatasetPool,
) -> (r: Result<NvList, CoreError>)
    requires
        pool.wf(),
        crate::collector::distinct_names(pool),
    ensures
        r is Ok <==> forall|j: int|
            0 <= j < snapshot_targets(pool, dataset@, recursive).len() ==> !has_nul(
                encode_utf8(
                    #[trigger] snap_name(
                        snapshot_targets(pool, dataset@, recursive)[j].name,
                        snapshot@,
                    ),
                ),
            ),
        r matches Ok(l) ==> l.wf() && forall|j: int|
            0 <= j < snapshot_targets(pool, dataset@, recursive).len() ==> #[trigger] l.value_of(
                snap_name(snapshot_targets(pool, dataset@, recursive)[j].name, snapshot@),
            ) == Some(ValueView::Boolean),
        r is Err ==> r == Err::<NvList, CoreError>(CoreError::InvalidArgument),
{
    let ghost targets = snapshot_targets(pool, dataset@, recursive);
    let collection = zfs_list_from(dataset).filesystems().volumes().recursive(
        recursive,
    ).get_collection(pool);
    let handles = collection.into_vec();
    proof {
        assert(crate::handle::handle_views(handles@) == targets);
    }
    let mut names: Vec<String> = Vec::new();
    let mut i: usize = 0;
    while i < handles.len()
        invariant
            i <= handles@.len(),
            names@.len() == i,
            targets == crate::handle::handle_views(handles@),
            targets == snapshot_targets(pool, dataset@, recursive),
            forall|j: int|
                0 <= j < i ==> (#[trigger] names@[j])@ == snap_name(
                    targets[j].name,
                    snapshot@,
                ),
        decreases handles@.len() - i,
    {
        let full = handles[i].name().concat("@").concat(snapshot);
        proof {
            assert(full@ =~= snap_name(targets[i as int].name, snapshot@));
        }
        names.push(full);
        i = i + 1;
    }
    let r = snapshots_impl(&names);
    proof {
        if forall|j: int|
            0 <= j < targets.len() ==> !has_nul(
                encode_utf8(#[trigger] snap_name(targets[j].name, snapshot@)),
            ) {
            assert forall|j: int|
                0 <= j < names@.len() implies !has_nul(
                encode_utf8((#[trigger] names@[j])@),
            ) by {
                assert(names@[j]@ == snap_name(targets[j].name, snapshot@));
                assert(!has_nul(encode_utf8(snap_name(targets[j].name, snapshot@))));
            }
        }
        if r is Ok {
            assert forall|j: int|
                0 <= j < targets.len() implies !has_nul(
                encode_utf8(#[trigger] snap_name(targets[j].name, snapshot@)),
            ) by {
                assert(!has_nul(encode_utf8((names@[j])@)));
                assert(names@[j]@ == snap_name(targets[j].name, snapshot@));
            }
            match &r {
                Ok(l) => {
                    assert forall|j: int|
                        0 <= j < targets.len() implies #[trigger] l.value_of(
                        snap_name(targets[j].name, snapshot@),
                    ) == Some(ValueView::Boolean) by {
                        assert(l.value_of(names@[j]@) == Some(ValueView::Boolean));
                        assert(names@[j]@ == snap_name(targets[j].name, snapshot@));
                    }
                },
                Err(_) => (),
            }
        }
    }
    r
}

/// Checks that the named dataset exists in the hierarchy.
pub fn dataset_exists(name: &str, pool: &DatasetPool) -> (r: Result<(), CoreError>)
    requires
        pool.wf(),
        crate::collector::distinct_names(pool),
    ensures
        has_nul(encode_utf8(name@)) ==> r == Err::<(), CoreError>(CoreError::InvalidArgument),
        !has_nul(encode_utf8(name@)) ==> (r is Ok <==> crate::collector::named_index(pool, name@)
            is Some),
        !has_nul(encode_utf8(name@)) && r is Err ==> r == Err::<(), CoreError>(
            CoreError::DatasetNotExist,
        ),
{
    if contains_nul(name) {
        return Err(CoreError::InvalidArgument);
    }
    match crate::collector::find_by_name(pool, name) {
        Some(_) => Ok(()),
        None => Err(CoreError::DatasetNotExist),
    }
}

/// Validates a destroy request: the name must travel to the engine as a
/// C string.
pub fn destroy_dataset(name: &str) -> (r: Result<(), CoreError>)
    ensures
        r is Ok <==> !has_nul(encode_utf8(name@)),
        r is Err ==> r == Err::<(), CoreError>(CoreError::InvalidArgument),
{
    if contains_nul(name) {
        return Err(CoreError::InvalidArgument);
    }
    Ok(())
}

/// Prepares the request that bookmarks `snapshot` under the name
/// `bookmark`.
pub fn bookmark(snapshot: &str, bookmark_name: &str) -> (r: Result<NvList, CoreError>)
    ensures
        r is Ok <==> !has_nul(encode_utf8(bookmark_name@)) && !has_nul(encode_utf8(snapshot@)),
        r matches Ok(l) ==> l.wf() && l.value_of(bookmark_name@) == Some(
            ValueView::Str(snapshot@),
        ),
        r is Err ==> r == Err::<NvList, CoreError>(CoreError::InvalidArgument),
{
    let mut bookmarks = NvList::new(NvFlag::UniqueName);
    match bookmarks.add_string(bookmark_name, snapshot) {
        Ok(()) => Ok(bookmarks),
        Err(_) => Err(CoreError::InvalidArgument),
    }
}

/// The flag word every send request carries: embedded data, large
/// blocks, and compressed blocks.
pub fn send_flags() -> (r: u32)
    ensures
        r == (LZC_SEND_FLAG_EMBED_DATA | LZC_SEND_FLAG_LARGE_BLOCK | LZC_SEND_FLAG_COMPRESS),
{
    LZC_SEND_FLAG_EMBED_DATA | LZC_SEND_FLAG_LARGE_BLOCK | LZC_SEND_FLAG_COMPRESS
}

/// Validates a send request: the source, and the incremental origin when
/// one is named, must travel to the engine as C strings.
pub fn send(source: &str, from: Option<&str>) -> (r: Result<(), CoreError>)
    ensures
        r is Ok <==> !has_nul(encode_utf8(source@)) && match from {
            Some(f) => !has_nul(encode_utf8(f@)),
            None => true,
        },
        r is Err ==> r == Err::<(), CoreError>(CoreError::InvalidArgument),
{
    if contains_nul(source) {
        return Err(CoreError::InvalidArgument);
    }
    match from {
        Some(f) => {
            if contains_nul(f) {
                return Err(CoreError::InvalidArgument);
            }
        },
        None => (),
    }
    Ok(())
}

/// Validates a receive request: the snapshot name, and the origin when
/// one is named, must travel to the engine as C strings.  The force and
/// raw switches go through unchanged.
pub fn receive(snapname: &str, origin: Option<&str>, force: bool, raw: bool) -> (r: Result<
    (bool, bool),
    CoreError,
>)
    ensures
        r is Ok <==> !has_nul(encode_utf8(snapname@)) && match origin {
            Some(o) => !has_nul(encode_utf8(o@)),
            None => true,
        },
        r matches Ok(switches) ==> switches == (force, raw),
        r is Err ==> r == Err::<(bool, bool), CoreError>(CoreError::InvalidArgument),
{
    if contains_nul(snapname) {
        return Err(CoreError::InvalidArgument);
    }
    match origin {
        Some(o) => {
            if contains_nul(o) {
                return Err(CoreError::InvalidArgument);
            }
        },
        None => (),
    }
    Ok((force, raw))
}

/// Validates a resumed send request: as [`send`], with the resume
/// position passed through to the engine untouched.
pub fn send_resume(source: &str, from: Option<&str>, resumeobj: u64, resumeoff: u64) -> (r:
    Result<(u64, u64), CoreError>)
    ensures
        r is Ok <==> !has_nul(encode_utf8(source@)) && match from {
            Some(f) => !has_nul(encode_utf8(f@)),
            None => true,
        },
        r matches Ok(resume) ==> resume == (resumeobj, resumeoff),
        r is Err ==> r == Err::<(u64, u64), CoreError>(CoreError::InvalidArgument),
{
    match send(source, from) {
        Ok(()) => Ok((resumeobj, resumeoff)),
        Err(e) => Err(e),
    }
}

/// Validates a resumable receive request: as [`receive`], with the
/// origin required.
pub fn receive_resumable(snapname: &str, origin: &str, force: bool, raw: bool) -> (r: Result<
    (bool, bool),
    CoreError,
>)
    ensures
        r is Ok <==> !has_nul(encode_utf8(snapname@)) && !has_nul(encode_utf8(origin@)),
        r matches Ok(switches) ==> switches == (force, raw),
        r is Err ==> r == Err::<(bool, bool), CoreError>(CoreError::InvalidArgument),
{
    receive(snapname, Some(origin), force, raw)
}

/// The canonical name the engine stores a property under.
pub fn zfs_prop_to_name(property: crate::dataset::ZfsProp) -> (r: &'static str)
    ensures
        r@ == property.name_spec(),
{
    property.name()
}

/// The value the model takes for a property a dataset does not store.
pub fn zfs_prop_default_numeric(property: crate::dataset::ZfsProp) -> (r: u64)
    ensures
        r == property.default_numeric_spec(),
{
    property.default_numeric()
}

/// Starts a listing over the whole hierarchy.
pub fn zfs_list() -> (r: DatasetIteratorBuilder)
    ensures
        r.kind_spec().0 == 0,
        !r.recursive_spec(),
        r.from_spec() is None,
{
    DatasetIteratorBuilder::new()
}

/// Starts a listing below the named dataset.
pub fn zfs_list_from(name: &str) -> (r: DatasetIteratorBuilder)
    ensures
        r.kind_spec().0 == 0,
        !r.recursive_spec(),
        r.from_spec() == Some(name@),
{
    DatasetIteratorBuilder::from(name)
}

} // verus!
