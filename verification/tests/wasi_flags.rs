use limes::runtime::wasi_flags::str_eq;
use limes::runtime::wasi_flags::DirPerms;
use limes::runtime::wasi_flags::FileMapper;
use limes::runtime::wasi_flags::FilePerms;
use limes::runtime::wasi_flags::WasiFlags;

#[test]
fn permissions_as_bits() {
    assert_eq!(DirPerms::all().bits(), 3);
    assert_eq!(DirPerms::empty().bits(), 0);
    assert_eq!(DirPerms { read: true, mutate: false }.bits(), 1);
    assert_eq!(DirPerms { read: false, mutate: true }.bits(), 2);
    assert_eq!(FilePerms::all().bits(), 3);
    assert_eq!(FilePerms::empty().bits(), 0);
    assert_eq!(FilePerms { read: true, write: false }.bits(), 1);
    assert_eq!(FilePerms { read: false, write: true }.bits(), 2);
}

#[test]
fn new_mapper_is_empty() {
    let mapper = FileMapper::new();
    assert_eq!(mapper.len(), 0);
    assert!(mapper.entries().is_empty());
    assert_eq!(mapper.position("/tmp"), None);
}

#[test]
fn mapper_keeps_entries_in_order_of_insertion() {
    let mut mapper = FileMapper::new();
    let first = mapper.insert(
        "/host/images".to_string(),
        ("./".to_string(), DirPerms::all(), FilePerms::all()),
    );
    let second = mapper.insert(
        "/host/data".to_string(),
        ("/data".to_string(), DirPerms { read: true, mutate: false }, FilePerms::empty()),
    );
    assert!(first.is_none());
    assert!(second.is_none());
    assert_eq!(mapper.len(), 2);
    assert_eq!(mapper.position("/host/images"), Some(0));
    assert_eq!(mapper.position("/host/data"), Some(1));
    assert_eq!(mapper.position("/host"), None);
    let entries = mapper.entries();
    assert_eq!(entries[0].host_path, "/host/images");
    assert_eq!(entries[0].guest_path, "./");
    assert_eq!(entries[0].dir_perms, DirPerms::all());
    assert_eq!(entries[0].file_perms, FilePerms::all());
    assert_eq!(entries[1].host_path, "/host/data");
    assert_eq!(entries[1].guest_path, "/data");
    assert_eq!(entries[1].dir_perms, DirPerms { read: true, mutate: false });
    assert_eq!(entries[1].file_perms, FilePerms::empty());
}

#[test]
fn mapping_a_host_path_again_replaces_it_in_place() {
    let mut mapper = FileMapper::new();
    mapper.insert("/a".to_string(), ("one".to_string(), DirPerms::all(), FilePerms::all()));
    mapper.insert("/b".to_string(), ("two".to_string(), DirPerms::all(), FilePerms::all()));
    let previous = mapper.insert(
        "/a".to_string(),
        ("three".to_string(), DirPerms::empty(), FilePerms { read: true, write: false }),
    );
    assert_eq!(previous, Some(("one".to_string(), DirPerms::all(), FilePerms::all())));
    assert_eq!(mapper.len(), 2);
    let entries = mapper.entries();
    assert_eq!(entries[0].host_path, "/a");
    assert_eq!(entries[0].guest_path, "three");
    assert_eq!(entries[0].dir_perms, DirPerms::empty());
    assert_eq!(entries[0].file_perms, FilePerms { read: true, write: false });
    assert_eq!(entries[1].host_path, "/b");
    assert_eq!(entries[1].guest_path, "two");
}

#[test]
fn duplicate_keeps_paths_and_permissions() {
    let mut mapper = FileMapper::new();
    mapper.insert(
        "/a".to_string(),
        ("one".to_string(), DirPerms { read: true, mutate: false }, FilePerms::all()),
    );
    let copy = mapper.entries()[0].duplicate();
    assert_eq!(copy.host_path, "/a");
    assert_eq!(copy.guest_path, "one");
    assert_eq!(copy.dir_perms, DirPerms { read: true, mutate: false });
    assert_eq!(copy.file_perms, FilePerms::all());
}

#[test]
fn default_flags_check_egress_and_open_nothing() {
    let flags = WasiFlags::default();
    assert_eq!(flags.socket_addr_check, Some(()));
    assert!(flags.file_mapper.is_none());
}

#[test]
fn flags_keep_what_they_are_given() {
    let mut mapper = FileMapper::new();
    mapper.insert("/a".to_string(), ("one".to_string(), DirPerms::all(), FilePerms::all()));
    let flags = WasiFlags::new(None, Some(mapper));
    assert_eq!(flags.socket_addr_check, None);
    assert_eq!(flags.file_mapper.unwrap().len(), 1);
    let flags = WasiFlags::new(Some(()), None);
    assert_eq!(flags.socket_addr_check, Some(()));
    assert!(flags.file_mapper.is_none());
}

#[test]
fn strings_compare_by_their_characters() {
    assert!(str_eq("", ""));
    assert!(str_eq("/tmp", "/tmp"));
    assert!(!str_eq("/tmp", "/tmp/"));
    assert!(!str_eq("a", "b"));
}
