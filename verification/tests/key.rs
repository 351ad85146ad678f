use kunai::error::Error;
use kunai::key::Key;
use kunai::namespace::MntNamespace;
use kunai::path::{FileMeta, FileStat, Metadata, Path, Timestamp};

fn ts(sec: u64, nsec: u32) -> Timestamp {
    Timestamp::new(sec, nsec)
}

fn snapshot() -> Metadata {
    Metadata { ino: 42, size: 1000, atime: ts(30, 3), mtime: ts(10, 1), ctime: ts(20, 2) }
}

fn on_disk() -> FileMeta {
    FileMeta { size: 1000, ino: 42, modified: ts(10, 1) }
}

fn event(path: &str, metadata: Option<Metadata>) -> Path {
    Path { path: path.to_string(), metadata }
}

fn ns(inum: u32) -> MntNamespace {
    MntNamespace { inum, pid: 1, home: None }
}

fn key(inum: u32, path: &str, m: Metadata) -> Key {
    let stat = FileStat::Found(FileMeta { size: m.size, ino: m.ino, modified: m.mtime });
    Key::from_ebpf_path_ref_with_ns(&ns(inum), &event(path, Some(m)), &stat).unwrap()
}

#[test]
fn key_holds_the_kernel_snapshot() {
    let k = Key::from_ebpf_path_ref_with_ns(
        &ns(4026531840),
        &event("/etc/passwd", Some(snapshot())),
        &FileStat::Found(on_disk()),
    )
    .unwrap();
    assert_eq!(k.mnt_namespace(), 4026531840);
    assert_eq!(k.path(), "/etc/passwd");
    assert_eq!(k.size(), 1000);
    assert_eq!(k.modified(), ts(10, 1));
    assert_eq!(k.created(), ts(20, 2));
    assert_eq!(k.accessed(), ts(30, 3));
}

#[test]
fn missing_file_is_file_not_found() {
    let r = Key::from_ebpf_path_ref_with_ns(
        &ns(1),
        &event("/gone", Some(snapshot())),
        &FileStat::Missing,
    );
    assert_eq!(r, Err(Error::FileNotFound));
}

#[test]
fn missing_file_comes_before_missing_snapshot() {
    let r = Key::from_ebpf_path_ref_with_ns(&ns(1), &event("/gone", None), &FileStat::Missing);
    assert_eq!(r, Err(Error::FileNotFound));
}

#[test]
fn unreadable_metadata_is_io_error() {
    let r = Key::from_ebpf_path_ref_with_ns(
        &ns(1),
        &event("/f", Some(snapshot())),
        &FileStat::Failed("permission denied".to_string()),
    );
    assert_eq!(r, Err(Error::IoError("permission denied".to_string())));
}

#[test]
fn event_without_snapshot_is_metadata_required() {
    let r =
        Key::from_ebpf_path_ref_with_ns(&ns(1), &event("/f", None), &FileStat::Found(on_disk()));
    assert_eq!(r, Err(Error::MetadataRequired));
}

#[test]
fn changed_size_is_rejected() {
    let disk = FileMeta { size: 999, ..on_disk() };
    let r = Key::from_ebpf_path_ref_with_ns(
        &ns(1),
        &event("/f", Some(snapshot())),
        &FileStat::Found(disk),
    );
    assert_eq!(r, Err(Error::FileModSinceKernelEvent("size changed")));
}

#[test]
fn changed_inode_is_rejected() {
    let disk = FileMeta { ino: 43, ..on_disk() };
    let r = Key::from_ebpf_path_ref_with_ns(
        &ns(1),
        &event("/f", Some(snapshot())),
        &FileStat::Found(disk),
    );
    assert_eq!(r, Err(Error::FileModSinceKernelEvent("inode changed")));
}

#[test]
fn changed_mtime_is_rejected() {
    let disk = FileMeta { modified: ts(10, 2), ..on_disk() };
    let r = Key::from_ebpf_path_ref_with_ns(
        &ns(1),
        &event("/f", Some(snapshot())),
        &FileStat::Found(disk),
    );
    assert_eq!(r, Err(Error::FileModSinceKernelEvent("mtime changed")));
}

#[test]
fn size_is_checked_before_inode_and_inode_before_mtime() {
    let all = FileMeta { size: 1, ino: 2, modified: ts(3, 3) };
    let r = Key::from_ebpf_path_ref_with_ns(
        &ns(1),
        &event("/f", Some(snapshot())),
        &FileStat::Found(all),
    );
    assert_eq!(r, Err(Error::FileModSinceKernelEvent("size changed")));
    let two = FileMeta { size: 1000, ino: 2, modified: ts(3, 3) };
    let r = Key::from_ebpf_path_ref_with_ns(
        &ns(1),
        &event("/f", Some(snapshot())),
        &FileStat::Found(two),
    );
    assert_eq!(r, Err(Error::FileModSinceKernelEvent("inode changed")));
}

#[test]
fn a_key_is_made_only_when_size_inode_and_mtime_are_all_confirmed() {
    let sizes = [1000u64, 999];
    let inodes = [42u64, 43];
    let mtimes = [ts(10, 1), ts(10, 2), ts(11, 1)];
    for size in sizes {
        for ino in inodes {
            for modified in mtimes {
                let r = Key::from_ebpf_path_ref_with_ns(
                    &ns(1),
                    &event("/f", Some(snapshot())),
                    &FileStat::Found(FileMeta { size, ino, modified }),
                );
                let confirmed = size == 1000 && ino == 42 && modified == ts(10, 1);
                assert_eq!(r.is_ok(), confirmed);
            }
        }
    }
}

#[test]
fn a_modification_time_that_cannot_be_told_gives_no_key() {
    // a look at the disk that cannot tell the time has no metadata to report
    let r = Key::from_ebpf_path_ref_with_ns(
        &ns(1),
        &event("/f", Some(snapshot())),
        &FileStat::Failed("modification time not available".to_string()),
    );
    assert_eq!(r, Err(Error::IoError("modification time not available".to_string())));
}

#[test]
fn an_instant_has_one_writing() {
    assert_eq!(Timestamp::new(1, 1_000_000_000), Timestamp::new(2, 0));
    assert_eq!(Timestamp::new(0, 4_294_967_295), Timestamp::new(4, 294_967_295));
    assert_eq!(Timestamp::new(7, 999_999_999).sec(), 7);
    assert_eq!(Timestamp::new(7, 999_999_999).nsec(), 999_999_999);
    assert_eq!(Timestamp::new(7, 1_500_000_000).sec(), 8);
    assert_eq!(Timestamp::new(7, 1_500_000_000).nsec(), 500_000_000);
    assert_ne!(Timestamp::new(1, 0), Timestamp::new(0, 999_999_999));
}

#[test]
fn an_instant_beyond_the_last_is_the_last() {
    let last = Timestamp::new(u64::MAX, 999_999_999);
    assert_eq!(Timestamp::new(u64::MAX, 1_000_000_000), last);
    assert_eq!(Timestamp::new(u64::MAX - 3, 4_294_967_295), last);
    assert_eq!(last.sec(), u64::MAX);
    assert_eq!(last.nsec(), 999_999_999);
    assert_eq!(Timestamp::new(u64::MAX - 4, 4_294_967_295).sec(), u64::MAX);
    assert_eq!(Timestamp::new(u64::MAX - 4, 4_294_967_295).nsec(), 294_967_295);
}

#[test]
fn one_instant_written_two_ways_gives_one_key() {
    let a = Metadata { mtime: Timestamp::new(9, 1_000_000_001), ..snapshot() };
    let b = Metadata { mtime: Timestamp::new(10, 1), ..snapshot() };
    assert_eq!(key(7, "/f", a), key(7, "/f", b));
    assert_eq!(key(7, "/f", a), key(7, "/f", snapshot()));
}

#[test]
fn atime_and_ctime_on_disk_play_no_part() {
    // only size, inode and mtime are compared; the key still takes all three
    // times from the snapshot
    let m = Metadata { atime: ts(999, 9), ctime: ts(888, 8), ..snapshot() };
    let k = Key::from_ebpf_path_ref_with_ns(
        &ns(1),
        &event("/f", Some(m)),
        &FileStat::Found(on_disk()),
    )
    .unwrap();
    assert_eq!(k.accessed(), ts(999, 9));
    assert_eq!(k.created(), ts(888, 8));
}

#[test]
fn equal_events_give_equal_keys() {
    assert_eq!(key(7, "/f", snapshot()), key(7, "/f", snapshot()));
}

#[test]
fn each_of_the_six_fields_tells_keys_apart() {
    let base = key(7, "/f", snapshot());
    assert_ne!(base, key(8, "/f", snapshot()));
    assert_ne!(base, key(7, "/g", snapshot()));
    assert_ne!(base, key(7, "/f", Metadata { size: 1001, ..snapshot() }));
    assert_ne!(base, key(7, "/f", Metadata { mtime: ts(10, 2), ..snapshot() }));
    assert_ne!(base, key(7, "/f", Metadata { ctime: ts(21, 2), ..snapshot() }));
    assert_ne!(base, key(7, "/f", Metadata { atime: ts(30, 4), ..snapshot() }));
}

#[test]
fn inode_is_checked_but_is_no_part_of_the_key() {
    assert_eq!(key(7, "/f", snapshot()), key(7, "/f", Metadata { ino: 43, ..snapshot() }));
}

#[test]
fn clone_of_a_key_equals_it() {
    let k = key(7, "/f", snapshot());
    assert_eq!(k.clone(), k);
}

#[test]
fn default_key_is_all_zero_at_the_epoch() {
    let k = Key::default();
    assert_eq!(k.mnt_namespace(), 0);
    assert_eq!(k.path(), "");
    assert_eq!(k.size(), 0);
    assert_eq!(k.modified(), Timestamp::unix_epoch());
    assert_eq!(k.created(), Timestamp::unix_epoch());
    assert_eq!(k.accessed(), Timestamp::unix_epoch());
    assert_eq!(Timestamp::unix_epoch(), ts(0, 0));
}
