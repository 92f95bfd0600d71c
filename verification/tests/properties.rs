use zfsrpc::bunch::{Bunch, RawProperty};
use zfsrpc::dataset::bookmark::Bookmark;
use zfsrpc::dataset::filesystem::{FileSystemBuilder, Filesystem};
use zfsrpc::dataset::volume::{Volume, VolumeBuilder, DEFAULT_VOLBLOCKSIZE};
use zfsrpc::dataset::{CoreError, Dataset, ZfsDatasetHandle, ZfsProp};
use zfsrpc::mnttab::Mnttab;
use zfsrpc::nvpair::{contains_nul, value_or_err, NvFlag, NvList, NvListError, Value};
use zfsrpc::zfs_property::{CheckSumAlgo, CompressionAlgo, OnOff, OnOffNoAuto, VolModeId};

fn handle_with(props: Vec<(&str, u64)>, name: &str) -> ZfsDatasetHandle {
    let mut list = NvList::new(NvFlag::UniqueName);
    for (prop, value) in props {
        list.add_uint64(prop, value).unwrap();
    }
    ZfsDatasetHandle::new(name.to_string(), list, None)
}

#[test]
fn nvlist_stores_and_replaces_uniquely_named_pairs() {
    let mut list = NvList::new(NvFlag::UniqueName);
    assert_eq!(list.len(), 0);
    list.add_string("atime", "on").unwrap();
    list.add_uint64("volsize", 1024).unwrap();
    assert_eq!(list.len(), 2);
    match list.get("atime") {
        Some(Value::Str(s)) => assert_eq!(s, "on"),
        other => panic!("unexpected value {:?}", other),
    }
    // A second pair under the same name replaces the first.
    list.add_string("atime", "off").unwrap();
    assert_eq!(list.len(), 2);
    match list.get("atime") {
        Some(Value::Str(s)) => assert_eq!(s, "off"),
        other => panic!("unexpected value {:?}", other),
    }
    assert!(list.get("missing").is_none());
}

#[test]
fn nvlist_rejects_embedded_nul() {
    let mut list = NvList::new(NvFlag::UniqueName);
    assert_eq!(
        list.add_string("at\0ime", "on"),
        Err(NvListError::InvalidArgument)
    );
    assert_eq!(
        list.add_string("atime", "o\0n"),
        Err(NvListError::InvalidArgument)
    );
    assert_eq!(list.len(), 0);
    assert!(contains_nul("a\0b"));
    assert!(!contains_nul("ab"));
}

#[test]
fn value_or_err_maps_the_native_codes() {
    assert_eq!(value_or_err(7u32, 0), Ok(7));
    assert_eq!(value_or_err((), 22), Err(NvListError::InvalidArgument));
    assert_eq!(value_or_err((), 12), Err(NvListError::InsufficientMemory));
}

#[test]
fn filesystem_builder_gathers_properties() {
    let fs = FileSystemBuilder::new("tank/home")
        .atime(true)
        .canmount(OnOffNoAuto::NoAuto)
        .checksum(CheckSumAlgo::Sha256)
        .compression(CompressionAlgo::Lz4)
        .readonly(false)
        .create()
        .unwrap();
    assert_eq!(fs.name(), "tank/home");
}

#[test]
fn filesystem_builder_rejects_bad_name_at_create() {
    let outcome = FileSystemBuilder::new("tank/\0home").atime(OnOff::On).create();
    assert_eq!(outcome.err(), Some(CoreError::InvalidArgument));
}

#[test]
fn filesystem_atime_prefers_the_stored_value() {
    let fs = Filesystem::get_filesystem(handle_with(vec![("atime", 0)], "tank/a"));
    assert_eq!(fs.atime(), OnOff::Off);
    let fs = Filesystem::get_filesystem(handle_with(vec![("atime", 7)], "tank/b"));
    assert_eq!(fs.atime(), OnOff::On);
    // Nothing stored: the engine default for atime is on.
    let fs = Filesystem::get_filesystem(handle_with(vec![], "tank/c"));
    assert_eq!(fs.atime(), OnOff::On);
    assert_eq!(fs.available(), 0);
}

#[test]
fn filesystem_atime_heeds_the_mount_options() {
    let mnttab = Mnttab::from_entry(
        "zfs".to_string(),
        "rw,noatime,xattr".to_string(),
        "/tank/d".to_string(),
        "tank/d".to_string(),
    );
    let list = NvList::new(NvFlag::UniqueName);
    let handle = ZfsDatasetHandle::new("tank/d".to_string(), list, Some(mnttab));
    let fs = Filesystem::get_filesystem(handle);
    // The default says on, but the dataset is mounted with noatime.
    assert_eq!(fs.atime(), OnOff::Off);
}

#[test]
fn volume_reads_its_numeric_properties() {
    let volume = Volume::get_volume(handle_with(
        vec![
            ("volsize", 4096),
            ("volblocksize", 512),
            ("guid", 42),
            ("used", 1000),
            ("checksum", 8),
            ("compression", 15),
        ],
        "tank/vol",
    ));
    assert_eq!(volume.name(), "tank/vol");
    assert_eq!(volume.volsize(), 4096);
    assert_eq!(volume.volblocksize(), 512);
    assert_eq!(volume.guid(), 42);
    assert_eq!(volume.used(), 1000);
    assert_eq!(volume.available(), 0);
    assert_eq!(volume.referenced(), 0);
    assert_eq!(volume.checksum(), CheckSumAlgo::Sha256);
    assert_eq!(volume.compression(), CompressionAlgo::Lz4);
}

#[test]
fn volume_builder_carries_size_and_block_size() {
    let volume = VolumeBuilder::new()
        .checksum(CheckSumAlgo::Fletcher4)
        .compression(CompressionAlgo::Zstd)
        .volmode(VolModeId::Dev)
        .create("tank/vol0", 1 << 20)
        .unwrap();
    assert_eq!(volume.volsize(), 1 << 20);
    assert_eq!(volume.volblocksize(), DEFAULT_VOLBLOCKSIZE);

    let volume = VolumeBuilder::new()
        .blocksize(4096)
        .create("tank/vol1", 8192)
        .unwrap();
    assert_eq!(volume.volblocksize(), 4096);

    assert!(VolumeBuilder::new().create("tank/\0vol", 1).is_err());
}

#[test]
fn bookmark_reads_through_its_handle() {
    let bookmark = Bookmark::get(handle_with(
        vec![("guid", 9), ("creation", 77), ("createtxg", 5)],
        "tank/data#mark",
    ));
    assert_eq!(bookmark.name(), "tank/data#mark");
    assert_eq!(bookmark.guid(), 9);
    assert_eq!(bookmark.creation(), 77);
    assert_eq!(bookmark.createtxg(), 5);
    assert!(bookmark.destroy().is_ok());
}

#[test]
fn dataset_builder_rejects_bad_names() {
    let outcome = Dataset::new("bad\0name").unwrap().create_filesystem();
    assert_eq!(outcome.err(), Some(CoreError::InvalidArgument));
}

#[test]
fn checksum_and_compression_values_read_back() {
    assert_eq!(CheckSumAlgo::from_u64(2), CheckSumAlgo::Off);
    assert_eq!(CheckSumAlgo::from_u64(7), CheckSumAlgo::Fletcher4);
    assert_eq!(CheckSumAlgo::from_u64(1), CheckSumAlgo::On);
    assert_eq!(CompressionAlgo::from_u64(2), CompressionAlgo::Off);
    assert_eq!(CompressionAlgo::from_u64(9), CompressionAlgo::Gzip);
    assert_eq!(CompressionAlgo::from_u64(16), CompressionAlgo::Zstd);
    assert_eq!(OnOff::On.as_str(), "on");
    assert_eq!(OnOffNoAuto::NoAuto.as_str(), "noauto");
    assert_eq!(VolModeId::Disabled.as_u64(), 3);
    assert_eq!(ZfsProp::Volsize.name(), "volsize");
    assert_eq!(ZfsProp::Atime.default_numeric(), 1);
    assert_eq!(ZfsProp::Used.default_numeric(), 0);
}

#[test]
fn mnttab_option_lookup_is_exact() {
    let entry = Mnttab::from_entry(
        "zfs".to_string(),
        "rw,relatime,xattr,noacl".to_string(),
        "/tank".to_string(),
        "tank".to_string(),
    );
    assert_eq!(entry._fstype(), "zfs");
    assert_eq!(entry.mntopts(), "rw,relatime,xattr,noacl");
    assert_eq!(entry._mountp(), "/tank");
    assert_eq!(entry._special(), "tank");
    assert!(entry.hasmntopt("rw"));
    assert!(entry.hasmntopt("relatime"));
    assert!(entry.hasmntopt("noacl"));
    // "atime" appears inside "relatime" but is not an option of its own.
    assert!(!entry.hasmntopt("atime"));
    assert!(!entry.hasmntopt("acl"));
    assert!(!entry.hasmntopt(""));
}

#[test]
fn default_atime_heeds_the_mount_options() {
    // The engine default for atime is on; a noatime mount turns it off.
    assert_eq!(zfsrpc::zfscore::default_atime(None), 1);
    let noatime = Mnttab::from_entry(
        "zfs".to_string(),
        "rw,noatime".to_string(),
        "/t".to_string(),
        "t".to_string(),
    );
    assert_eq!(zfsrpc::zfscore::default_atime(Some(&noatime)), 0);
    let plain = Mnttab::from_entry(
        "zfs".to_string(),
        "rw,atime".to_string(),
        "/t".to_string(),
        "t".to_string(),
    );
    assert_eq!(zfsrpc::zfscore::default_atime(Some(&plain)), 1);
}

#[test]
fn mnttab_find_returns_the_first_match() {
    let entries = vec![
        Mnttab::from_entry(
            "zfs".to_string(),
            "rw".to_string(),
            "/a".to_string(),
            "tank/a".to_string(),
        ),
        Mnttab::from_entry(
            "zfs".to_string(),
            "ro".to_string(),
            "/b".to_string(),
            "tank/b".to_string(),
        ),
    ];
    let found = Mnttab::find(&entries, "tank/b").unwrap();
    assert_eq!(found.mntopts(), "ro");
    assert!(Mnttab::find(&entries, "tank/c").is_none());
}

#[test]
fn bunch_keeps_the_last_property_per_name() {
    let mut bunch = Bunch::new();
    bunch.insert(RawProperty { property: "atime".to_string(), value: "on".to_string() });
    bunch.insert(RawProperty { property: "quota".to_string(), value: "none".to_string() });
    bunch.insert(RawProperty { property: "atime".to_string(), value: "off".to_string() });
    let stored = bunch.get("atime").unwrap();
    assert_eq!(stored.value, "off");
    assert_eq!(bunch.get("quota").unwrap().value, "none");
    assert!(bunch.get("recordsize").is_none());
}
