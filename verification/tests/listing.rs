use zfsrpc::collector;
use zfsrpc::handle::{
    DatasetPool, ZfsHandle, ZfsType, ZFS_TYPE_BOOKMARK, ZFS_TYPE_FILESYSTEM, ZFS_TYPE_SNAPSHOT,
    ZFS_TYPE_VOLUME,
};
use zfsrpc::iterator;
use zfsrpc::list::{List, Type};
use zfsrpc::lzc;
use zfsrpc::nvpair::Value;

fn fs(name: &str) -> ZfsHandle {
    ZfsHandle::new(name.to_string(), ZfsType(ZFS_TYPE_FILESYSTEM))
}

fn sample_pool() -> DatasetPool {
    let mut pool = DatasetPool::new();
    let tank = pool.add_root(fs("tank"));
    let home = pool.add_child(tank, fs("tank/home"));
    pool.add_child(
        tank,
        ZfsHandle::new("tank/vol".to_string(), ZfsType(ZFS_TYPE_VOLUME)),
    );
    pool.add_child(
        home,
        ZfsHandle::new("tank/home@snap".to_string(), ZfsType(ZFS_TYPE_SNAPSHOT)),
    );
    pool.add_child(
        home,
        ZfsHandle::new("tank/home#mark".to_string(), ZfsType(ZFS_TYPE_BOOKMARK)),
    );
    pool.add_root(fs("dozer"));
    pool
}

fn names(handles: Vec<ZfsHandle>) -> Vec<String> {
    handles.into_iter().map(|h| h.name()).collect()
}

#[test]
fn type_flags_are_bit_tests() {
    let both = ZfsType(ZFS_TYPE_FILESYSTEM).with(ZfsType(ZFS_TYPE_VOLUME));
    assert!(both.is_filesystem());
    assert!(both.is_volume());
    assert!(!both.is_snapshot());
    assert!(!both.is_bookmark());
    assert!(!both.is_pool());
    assert!(both.contains(ZfsType(ZFS_TYPE_VOLUME)));
    assert!(!both.contains(ZfsType(ZFS_TYPE_SNAPSHOT)));
    assert_eq!(ZfsType(ZFS_TYPE_FILESYSTEM).name(), "filesystem");
    assert_eq!(ZfsType(ZFS_TYPE_SNAPSHOT).name(), "snapshot");
}

#[test]
fn collector_lists_roots_without_a_start() {
    let pool = sample_pool();
    let collection = collector::DatasetIteratorBuilder::new()
        .filesystems()
        .get_collection(&pool);
    assert_eq!(collection.len(), 2);
    assert_eq!(names(collection.into_vec()), vec!["tank", "dozer"]);
}

#[test]
fn collector_descends_when_recursive() {
    let pool = sample_pool();
    let collection = collector::DatasetIteratorBuilder::from("tank")
        .filesystems()
        .volumes()
        .recursive(true)
        .get_collection(&pool);
    assert_eq!(
        names(collection.into_vec()),
        vec!["tank/home", "tank/vol"]
    );
}

#[test]
fn collector_direct_children_only_without_recursion() {
    let pool = sample_pool();
    let collection = collector::DatasetIteratorBuilder::from("tank")
        .snapshots()
        .get_collection(&pool);
    // tank's direct children hold no snapshot; the snapshot sits below
    // tank/home.
    assert_eq!(collection.len(), 0);
    let collection = collector::DatasetIteratorBuilder::from("tank")
        .snapshots()
        .recursive(true)
        .get_collection(&pool);
    assert_eq!(names(collection.into_vec()), vec!["tank/home@snap"]);
}

#[test]
fn collector_get_children_lists_direct_children() {
    let pool = sample_pool();
    let children = collector::DatasetIteratorBuilder::get_children(&pool, Some(0));
    assert_eq!(names(children), vec!["tank/home", "tank/vol"]);
    let roots = collector::DatasetIteratorBuilder::get_children(&pool, None);
    assert_eq!(names(roots), vec!["tank", "dozer"]);
}

#[test]
fn iterator_lists_the_named_parent_first() {
    let pool = sample_pool();
    let mut builder = iterator::DatasetIteratorBuilder::from("tank");
    builder.all().recursive(true);
    let it = builder.get(&pool).unwrap();
    assert_eq!(it.len(), 5);
    assert_eq!(
        names(it.into_vec()),
        vec!["tank", "tank/home", "tank/vol", "tank/home@snap", "tank/home#mark"]
    );
}

#[test]
fn iterator_without_parent_lists_roots() {
    let pool = sample_pool();
    let mut builder = iterator::DatasetIteratorBuilder::new();
    builder.filesystems();
    let it = builder.get(&pool).unwrap();
    assert_eq!(names(it.into_vec()), vec!["tank", "dozer"]);
}

#[test]
fn iterator_reports_a_missing_parent() {
    let pool = sample_pool();
    let mut builder = iterator::DatasetIteratorBuilder::from("ghost");
    builder.filesystems();
    assert_eq!(builder.get(&pool).unwrap_err(), iterator::ZfsError::DatasetNotExist);
}

#[test]
fn list_renders_one_line_per_dataset() {
    let pool = sample_pool();
    let list = List { recursive: false, types: vec![Type::Filesystem], dataset: None };
    let text = list.exec(&pool).unwrap();
    assert_eq!(text, "tank filesystem\ndozer filesystem");

    let list = List { recursive: true, types: vec![Type::All], dataset: Some("tank".to_string()) };
    let text = list.exec(&pool).unwrap();
    assert_eq!(
        text,
        "tank filesystem\ntank/home filesystem\ntank/vol volume\n\
         tank/home@snap snapshot\ntank/home#mark bookmark"
    );

    let list = List { recursive: false, types: vec![Type::Filesystem], dataset: Some("nope".to_string()) };
    assert!(list.exec(&pool).is_err());
}

#[test]
fn lzc_snapshot_requests_carry_marker_pairs() {
    let request = lzc::snapshot("tank/home@backup").unwrap();
    assert!(matches!(request.get("tank/home@backup"), Some(Value::Boolean)));
    assert!(lzc::snapshot("tank\0home").is_err());

    let pool = {
        let mut pool = DatasetPool::new();
        let tank = pool.add_root(fs("tank"));
        pool.add_child(tank, fs("tank/home"));
        pool
    };
    let request = lzc::snapshots("tank", "nightly", true, &pool).unwrap();
    assert!(matches!(request.get("tank/home@nightly"), Some(Value::Boolean)));
    assert_eq!(request.len(), 1);
}

#[test]
fn lzc_bookmark_request_names_the_snapshot() {
    let request = lzc::bookmark("tank/home@snap", "tank/home#mark").unwrap();
    match request.get("tank/home#mark") {
        Some(Value::Str(s)) => assert_eq!(s, "tank/home@snap"),
        other => panic!("unexpected value {:?}", other),
    }
}

#[test]
fn lzc_validates_names_at_the_boundary() {
    assert!(lzc::destroy_dataset("tank/old").is_ok());
    assert!(lzc::destroy_dataset("tank/\0old").is_err());
    assert!(lzc::send("tank@s", None).is_ok());
    assert!(lzc::send("tank@s", Some("tank@r")).is_ok());
    assert!(lzc::send("tank@s", Some("tank\0r")).is_err());
    assert_eq!(lzc::receive("tank@s", None, true, false).unwrap(), (true, false));
    assert!(lzc::receive("ta\0nk", None, false, false).is_err());
    assert_eq!(
        lzc::send_flags(),
        lzc::LZC_SEND_FLAG_EMBED_DATA | lzc::LZC_SEND_FLAG_LARGE_BLOCK
            | lzc::LZC_SEND_FLAG_COMPRESS
    );
}

#[test]
fn lzc_resume_requests_validate_names() {
    assert_eq!(lzc::send_resume("tank@s", None, 7, 9).unwrap(), (7, 9));
    assert!(lzc::send_resume("ta\0nk@s", None, 0, 0).is_err());
    assert_eq!(
        lzc::receive_resumable("tank@s", "tank@r", false, true).unwrap(),
        (false, true)
    );
    assert!(lzc::receive_resumable("tank@s", "tank\0r", false, false).is_err());
}

#[test]
fn lzc_property_tables_answer_directly() {
    assert_eq!(lzc::zfs_prop_to_name(zfsrpc::dataset::ZfsProp::Atime), "atime");
    assert_eq!(lzc::zfs_prop_default_numeric(zfsrpc::dataset::ZfsProp::Atime), 1);
    assert_eq!(lzc::zfs_prop_default_numeric(zfsrpc::dataset::ZfsProp::Guid), 0);
}

#[test]
fn lzc_dataset_exists_checks_the_pool() {
    let pool = sample_pool();
    assert!(lzc::dataset_exists("tank/home", &pool).is_ok());
    assert!(lzc::dataset_exists("tank/none", &pool).is_err());
}

#[test]
fn lzc_handle_carries_the_version() {
    let lzc_handle = lzc::Lzc::init(lzc::Version::new("zfs-2.1.5".to_string()));
    assert_eq!(lzc::version(&lzc_handle).raw(), "zfs-2.1.5");
    assert_eq!(lzc::zfs_version(&lzc_handle).raw(), "zfs-2.1.5");
}

#[test]
fn zfscore_create_returns_the_properties() {
    let mut props = zfsrpc::nvpair::NvList::new(zfsrpc::nvpair::NvFlag::UniqueName);
    props.add_string("atime", "off").unwrap();
    let created = zfsrpc::zfscore::create_filesystem("tank/new", &props).unwrap();
    assert!(matches!(created.get("atime"), Some(Value::Str(_))));
    assert!(zfsrpc::zfscore::create_volume("tank/\0new", &props).is_err());
}
