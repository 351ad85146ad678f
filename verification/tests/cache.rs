use kunai::cache::{Action, Answer, Cache, Event};
use kunai::digest::{Digester, Hashes, ReadError};
use kunai::error::{Error, NsError};
use kunai::key::Key;
use kunai::lru::MAX_ENTRIES;
use kunai::namespace::MntNamespace;
use kunai::path::{FileMeta, FileStat, Metadata, Path, Timestamp};
use std::collections::HashMap;

const HOST: u32 = 4026531840;
const GUEST: u32 = 4026532999;

struct File {
    content: Vec<u8>,
    ino: u64,
    mtime: Timestamp,
    readable: bool,
    /// Reading fails after this many bytes.
    breaks_at: Option<usize>,
}

/// Stands for the operating system: carries out what the cache asks for and
/// keeps count of it.
struct World {
    here: u32,
    links: HashMap<i32, u32>,
    files: HashMap<String, File>,
    hostname: Option<String>,
    refuse_enter: bool,
    enters: usize,
    exits: usize,
    stats: usize,
    digests: usize,
    hostname_reads: usize,
    inside_during_io: Vec<u32>,
}

impl World {
    fn new() -> World {
        let mut links = HashMap::new();
        links.insert(1, HOST);
        links.insert(50, GUEST);
        World {
            here: HOST,
            links,
            files: HashMap::new(),
            hostname: Some("node-17\n".to_string()),
            refuse_enter: false,
            enters: 0,
            exits: 0,
            stats: 0,
            digests: 0,
            hostname_reads: 0,
            inside_during_io: Vec::new(),
        }
    }

    fn write(&mut self, path: &str, content: &[u8], ino: u64, mtime: u64) {
        self.files.insert(
            path.to_string(),
            File {
                content: content.to_vec(),
                ino,
                mtime: Timestamp::new(mtime, 0),
                readable: true,
                breaks_at: None,
            },
        );
    }

    /// The event a probe would send for the file as it is now.
    fn observe(&self, path: &str) -> Path {
        let f = &self.files[path];
        Path {
            path: path.to_string(),
            metadata: Some(Metadata {
                ino: f.ino,
                size: f.content.len() as u64,
                atime: Timestamp::new(5, 5),
                mtime: f.mtime,
                ctime: Timestamp::new(6, 6),
            }),
        }
    }

    fn perform(&mut self, action: &Action) -> Event {
        match action {
            Action::Open { pid } => Event::Opened(match self.links.get(pid) {
                Some(inum) => Ok(*inum),
                None => Err("no such process".to_string()),
            }),
            Action::Enter { ns_inum } => {
                if self.refuse_enter {
                    return Event::Entered(Err("operation not permitted".to_string()));
                }
                self.enters += 1;
                let from = self.here;
                self.here = *ns_inum;
                Event::Entered(Ok(from))
            }
            Action::Stat { path } => {
                self.stats += 1;
                self.inside_during_io.push(self.here);
                Event::Stat(match self.files.get(path) {
                    None => FileStat::Missing,
                    Some(f) => FileStat::Found(FileMeta {
                        size: f.content.len() as u64,
                        ino: f.ino,
                        modified: f.mtime,
                    }),
                })
            }
            Action::Digest { path } => {
                self.digests += 1;
                self.inside_during_io.push(self.here);
                Event::Digested(match self.files.get(path) {
                    Some(f) if f.readable => match f.breaks_at {
                        Some(_) => Err(ReadError::Read("input/output error".to_string())),
                        None => {
                            let mut d = Digester::new();
                            for chunk in f.content.chunks(4096) {
                                d.update(chunk);
                            }
                            Ok(d)
                        }
                    },
                    _ => Err(ReadError::Open),
                })
            }
            Action::ReadHostname => {
                self.hostname_reads += 1;
                self.inside_during_io.push(self.here);
                Event::HostnameRead(self.hostname.clone())
            }
            Action::Exit { ns_inum, home } => {
                assert_eq!(self.here, *ns_inum);
                self.exits += 1;
                self.here = *home;
                Event::Exited
            }
            Action::Done(_) => unreachable!(),
        }
    }
}

/// Carries a request through to its end.
fn run(cache: &mut Cache, world: &mut World, first: Option<Action>) -> Result<Answer, Error> {
    let mut action = first.unwrap();
    loop {
        if let Action::Done(result) = action {
            assert!(cache.is_idle());
            return result;
        }
        let event = world.perform(&action);
        action = cache.resume(event).unwrap();
    }
}

fn register(cache: &mut Cache, world: &mut World, pid: i32, inum: u32) -> Result<Answer, Error> {
    let first = cache.cache_ns(pid, inum);
    run(cache, world, first)
}

fn enrich(cache: &mut Cache, world: &mut World, inum: u32, path: Path) -> Result<Hashes, Error> {
    let first = cache.get_or_cache_in_ns(inum, path);
    match run(cache, world, first) {
        Ok(Answer::Hashes(h)) => Ok(h),
        Ok(other) => panic!("not a record: {:?}", other),
        Err(e) => Err(e),
    }
}

fn enrich_file(
    cache: &mut Cache,
    world: &mut World,
    inum: u32,
    path: &str,
) -> Result<Hashes, Error> {
    let event = world.observe(path);
    enrich(cache, world, inum, event)
}

fn hostname(cache: &mut Cache, world: &mut World, inum: u32) -> Result<String, Error> {
    let first = cache.get_hostname(inum);
    match run(cache, world, first) {
        Ok(Answer::Hostname(h)) => Ok(h),
        Ok(other) => panic!("not a host name: {:?}", other),
        Err(e) => Err(e),
    }
}

fn key_of(inum: u32, event: &Path) -> Key {
    let m = event.metadata.unwrap();
    let stat = FileStat::Found(FileMeta { size: m.size, ino: m.ino, modified: m.mtime });
    Key::from_ebpf_path_ref_with_ns(&MntNamespace { inum, pid: 0, home: None }, event, &stat)
        .unwrap()
}

fn setup(cap: usize) -> (Cache, World) {
    let mut cache = Cache::with_max_entries(cap);
    let mut world = World::new();
    world.write("/etc/passwd", b"root:x:0:0:root:/root:/bin/sh\n", 11, 100);
    world.write("/a", b"file a", 1, 1);
    world.write("/b", b"file b", 2, 2);
    world.write("/c", b"file c", 3, 3);
    world.write("/d", b"file d", 4, 4);
    assert_eq!(register(&mut cache, &mut world, 1, HOST), Ok(Answer::Registered));
    (cache, world)
}

#[test]
fn new_cache_is_empty_and_idle() {
    let cache = Cache::with_max_entries(16);
    assert_eq!(cache.len(), 0);
    assert_eq!(cache.cap(), 16);
    assert!(cache.is_idle());
    assert!(cache.keys().is_empty());
    assert!(!cache.knows_ns(HOST));
}

#[test]
fn largest_capacity_is_accepted() {
    assert_eq!(MAX_ENTRIES, 1_048_576);
    let cache = Cache::with_max_entries(MAX_ENTRIES);
    assert_eq!(cache.cap(), MAX_ENTRIES);
}

#[test]
fn cache_ns_opens_the_link_and_registers() {
    let mut cache = Cache::with_max_entries(2);
    assert_eq!(cache.cache_ns(1, HOST), Some(Action::Open { pid: 1 }));
    assert!(!cache.is_idle());
    assert!(!cache.knows_ns(HOST));
    assert_eq!(
        cache.resume(Event::Opened(Ok(HOST))),
        Some(Action::Done(Ok(Answer::Registered)))
    );
    assert!(cache.knows_ns(HOST));
    assert!(cache.is_idle());
}

#[test]
fn cache_ns_is_idempotent() {
    let (mut cache, _world) = setup(2);
    // registered already: nothing to open, whatever the process
    assert_eq!(cache.cache_ns(777, HOST), Some(Action::Done(Ok(Answer::Registered))));
    assert!(cache.is_idle());
    assert!(cache.knows_ns(HOST));
}

#[test]
fn cache_ns_fails_where_the_process_has_moved_on() {
    let mut cache = Cache::with_max_entries(2);
    let mut world = World::new();
    // process 50 lives in GUEST, not in HOST
    assert_eq!(
        register(&mut cache, &mut world, 50, HOST),
        Err(Error::Namespace(NsError::InumMismatch { expected: HOST, found: GUEST }))
    );
    assert!(!cache.knows_ns(HOST));
    assert!(!cache.knows_ns(GUEST));
}

#[test]
fn cache_ns_fails_where_the_link_cannot_be_opened() {
    let mut cache = Cache::with_max_entries(2);
    let mut world = World::new();
    assert_eq!(
        register(&mut cache, &mut world, 4242, HOST),
        Err(Error::Namespace(NsError::Os("no such process".to_string())))
    );
    assert!(!cache.knows_ns(HOST));
    assert!(cache.is_idle());
}

#[test]
fn cold_hit() {
    let (mut cache, mut world) = setup(8);
    let event = world.observe("/etc/passwd");
    let h = enrich(&mut cache, &mut world, HOST, event).unwrap();
    let content = b"root:x:0:0:root:/root:/bin/sh\n";
    assert_eq!(h, Hashes::from_path_ref("/etc/passwd", Ok(content)));
    assert_eq!(h.size, content.len());
    assert_eq!(h.file, "/etc/passwd");
    assert_eq!(h.md5.len(), 32);
    assert_eq!(world.digests, 1);
    assert_eq!(cache.len(), 1);
}

#[test]
fn warm_hit() {
    let (mut cache, mut world) = setup(8);
    let first = enrich_file(&mut cache, &mut world, HOST, "/etc/passwd").unwrap();
    enrich_file(&mut cache, &mut world, HOST, "/a").unwrap();
    assert_eq!(world.digests, 2);
    let again = enrich_file(&mut cache, &mut world, HOST, "/etc/passwd").unwrap();
    assert_eq!(again, first);
    // no further read of the file
    assert_eq!(world.digests, 2);
    assert_eq!(cache.len(), 2);
    // the hit counts as a use: the record is the most recent again
    let keys = cache.keys();
    assert_eq!(keys[0], key_of(HOST, &world.observe("/etc/passwd")));
    assert_eq!(keys[1], key_of(HOST, &world.observe("/a")));
}

#[test]
fn toctou_rejection() {
    let (mut cache, mut world) = setup(8);
    enrich_file(&mut cache, &mut world, HOST, "/a").unwrap();
    let seen = world.observe("/etc/passwd");
    // the file is truncated after the kernel saw it
    world.write("/etc/passwd", b"", 11, 100);
    let before = cache.keys();
    let r = enrich(&mut cache, &mut world, HOST, seen);
    assert!(matches!(r, Err(Error::FileModSinceKernelEvent(_))));
    assert_eq!(r, Err(Error::FileModSinceKernelEvent("size changed")));
    // nothing was read and nothing stored
    assert_eq!(world.digests, 1);
    assert_eq!(cache.keys(), before);
    assert_eq!(world.here, HOST);
    assert!(cache.is_idle());
}

#[test]
fn toctou_rejection_on_replaced_file() {
    let (mut cache, mut world) = setup(8);
    let seen = world.observe("/a");
    world.write("/a", b"file A", 99, 1);
    assert_eq!(
        enrich(&mut cache, &mut world, HOST, seen),
        Err(Error::FileModSinceKernelEvent("inode changed"))
    );
    assert_eq!(world.digests, 0);
    assert_eq!(cache.len(), 0);
}

#[test]
fn toctou_rejection_on_rewritten_file() {
    let (mut cache, mut world) = setup(8);
    let seen = world.observe("/a");
    world.write("/a", b"file A", 1, 2);
    assert_eq!(
        enrich(&mut cache, &mut world, HOST, seen),
        Err(Error::FileModSinceKernelEvent("mtime changed"))
    );
    assert_eq!(world.digests, 0);
}

#[test]
fn unknown_namespace() {
    let (mut cache, mut world) = setup(8);
    let event = world.observe("/a");
    assert_eq!(
        cache.get_or_cache_in_ns(GUEST, world.observe("/a")),
        Some(Action::Done(Err(Error::UnknownNs(GUEST))))
    );
    assert_eq!(enrich(&mut cache, &mut world, GUEST, event), Err(Error::UnknownNs(GUEST)));
    assert_eq!(hostname(&mut cache, &mut world, GUEST), Err(Error::UnknownNs(GUEST)));
    assert_eq!(world.enters, 0);
    assert_eq!(world.stats, 0);
}

#[test]
fn eviction() {
    let (mut cache, mut world) = setup(2);
    let (a, b, c) = (world.observe("/a"), world.observe("/b"), world.observe("/c"));
    let (key_a, key_b, key_c) = (key_of(HOST, &a), key_of(HOST, &b), key_of(HOST, &c));
    enrich(&mut cache, &mut world, HOST, a).unwrap();
    enrich(&mut cache, &mut world, HOST, b).unwrap();
    assert!(cache.contains(&key_a));
    enrich(&mut cache, &mut world, HOST, c).unwrap();
    assert!(!cache.contains(&key_a));
    assert!(cache.contains(&key_b));
    assert!(cache.contains(&key_c));
    assert_eq!(cache.keys(), vec![key_c, key_b]);
    assert_eq!(cache.len(), 2);
}

#[test]
fn contains_is_no_use_of_the_record() {
    let (mut cache, mut world) = setup(2);
    let (a, b, c) = (world.observe("/a"), world.observe("/b"), world.observe("/c"));
    let (key_a, key_b) = (key_of(HOST, &a), key_of(HOST, &b));
    enrich(&mut cache, &mut world, HOST, a).unwrap();
    enrich(&mut cache, &mut world, HOST, b).unwrap();
    // looking at the oldest record does not save it
    assert!(cache.contains(&key_a));
    assert!(cache.contains(&key_a));
    enrich(&mut cache, &mut world, HOST, c).unwrap();
    assert!(!cache.contains(&key_a));
    assert!(cache.contains(&key_b));
}

#[test]
fn a_hit_saves_the_record_from_eviction() {
    let (mut cache, mut world) = setup(2);
    let (a, b, c) = (world.observe("/a"), world.observe("/b"), world.observe("/c"));
    let (key_a, key_b, key_c) = (key_of(HOST, &a), key_of(HOST, &b), key_of(HOST, &c));
    enrich(&mut cache, &mut world, HOST, a).unwrap();
    enrich(&mut cache, &mut world, HOST, b).unwrap();
    enrich_file(&mut cache, &mut world, HOST, "/a").unwrap();
    enrich(&mut cache, &mut world, HOST, c).unwrap();
    assert!(cache.contains(&key_a));
    assert!(!cache.contains(&key_b));
    assert_eq!(cache.keys(), vec![key_c, key_a]);
}

#[test]
fn a_record_lasts_exactly_capacity_minus_one_newer_ones() {
    let cap = 3;
    let (mut cache, mut world) = setup(cap);
    let k = world.observe("/etc/passwd");
    let key_k = key_of(HOST, &k);
    enrich(&mut cache, &mut world, HOST, k).unwrap();
    let others = ["/a", "/b", "/c"];
    for (n, path) in others.iter().enumerate() {
        assert!(cache.contains(&key_k), "gone after {} newer records", n);
        assert_eq!(cache.keys()[n], key_k);
        enrich_file(&mut cache, &mut world, HOST, path).unwrap();
    }
    assert!(!cache.contains(&key_k));
}

#[test]
fn never_more_records_than_capacity() {
    for cap in 1..5usize {
        let (mut cache, mut world) = setup(cap);
        for round in 0..3u64 {
            for (i, path) in ["/a", "/b", "/c", "/d", "/a", "/etc/passwd"].iter().enumerate() {
                world.write(path, b"content", i as u64, 10 * round + i as u64);
                enrich_file(&mut cache, &mut world, HOST, path).unwrap();
                assert!(cache.len() <= cap);
                assert_eq!(cache.len(), cache.keys().len());
                assert_eq!(cache.cap(), cap);
            }
        }
        assert_eq!(cache.len(), cap);
    }
}

#[test]
fn a_new_version_of_a_file_gets_its_own_record() {
    let (mut cache, mut world) = setup(8);
    let old = enrich_file(&mut cache, &mut world, HOST, "/a").unwrap();
    world.write("/a", b"file a, second edition", 1, 50);
    let new = enrich_file(&mut cache, &mut world, HOST, "/a").unwrap();
    assert_ne!(old, new);
    assert_eq!(new, Hashes::from_path_ref("/a", Ok(b"file a, second edition")));
    assert_eq!(world.digests, 2);
    assert_eq!(cache.len(), 2);
}

#[test]
fn same_path_in_two_namespaces_gives_two_records() {
    let (mut cache, mut world) = setup(8);
    register(&mut cache, &mut world, 50, GUEST).unwrap();
    enrich_file(&mut cache, &mut world, HOST, "/a").unwrap();
    enrich_file(&mut cache, &mut world, GUEST, "/a").unwrap();
    assert_eq!(cache.len(), 2);
    assert_eq!(world.digests, 2);
    assert_eq!(world.inside_during_io, vec![HOST, HOST, GUEST, GUEST]);
}

#[test]
fn unreadable_file_is_cached_as_unread() {
    let (mut cache, mut world) = setup(8);
    world.files.get_mut("/a").unwrap().readable = false;
    let h = enrich_file(&mut cache, &mut world, HOST, "/a").unwrap();
    assert_eq!(h, Hashes::unread("/a"));
    // the record is cached like any other: no second attempt
    let again = enrich_file(&mut cache, &mut world, HOST, "/a").unwrap();
    assert_eq!(again, h);
    assert_eq!(world.digests, 1);
}

#[test]
fn file_that_is_gone_is_file_not_found() {
    let (mut cache, mut world) = setup(8);
    let event = world.observe("/a");
    world.files.remove("/a");
    assert_eq!(enrich(&mut cache, &mut world, HOST, event), Err(Error::FileNotFound));
    assert_eq!(world.here, HOST);
    assert_eq!(world.exits, 1);
}

#[test]
fn enrichment_without_snapshot_is_metadata_required() {
    let (mut cache, mut world) = setup(8);
    let event = Path { path: "/a".to_string(), metadata: None };
    assert_eq!(enrich(&mut cache, &mut world, HOST, event), Err(Error::MetadataRequired));
    assert_eq!(world.here, HOST);
    assert_eq!(world.digests, 0);
}

#[test]
fn enrichment_over_unreadable_metadata_is_io_error() {
    let (mut cache, _world) = setup(8);
    let event = Path { path: "/a".to_string(), metadata: None };
    assert_eq!(cache.get_or_cache_in_ns(HOST, event), Some(Action::Enter { ns_inum: HOST }));
    assert_eq!(
        cache.resume(Event::Entered(Ok(7))),
        Some(Action::Stat { path: "/a".to_string() })
    );
    assert_eq!(
        cache.resume(Event::Stat(FileStat::Failed("input/output error".to_string()))),
        Some(Action::Exit { ns_inum: HOST, home: 7 })
    );
    assert_eq!(
        cache.resume(Event::Exited),
        Some(Action::Done(Err(Error::IoError("input/output error".to_string()))))
    );
}

#[test]
fn refused_switch_ends_the_request_outside() {
    let (mut cache, mut world) = setup(8);
    world.refuse_enter = true;
    assert_eq!(
        enrich_file(&mut cache, &mut world, HOST, "/a"),
        Err(Error::Namespace(NsError::Os("operation not permitted".to_string())))
    );
    assert_eq!(world.here, HOST);
    assert_eq!(world.stats, 0);
    assert_eq!(world.exits, 0);
    assert!(cache.is_idle());
    // and the handle can be entered later
    world.refuse_enter = false;
    assert!(enrich_file(&mut cache, &mut world, HOST, "/a").is_ok());
}

#[test]
fn the_steps_of_a_miss_in_order() {
    let (mut cache, world) = setup(8);
    let event = world.observe("/a");
    assert_eq!(cache.get_or_cache_in_ns(HOST, event), Some(Action::Enter { ns_inum: HOST }));
    assert_eq!(
        cache.resume(Event::Entered(Ok(GUEST))),
        Some(Action::Stat { path: "/a".to_string() })
    );
    let stat = FileStat::Found(FileMeta {
        size: 6,
        ino: 1,
        modified: Timestamp::new(1, 0),
    });
    assert_eq!(cache.resume(Event::Stat(stat)), Some(Action::Digest { path: "/a".to_string() }));
    assert_eq!(cache.len(), 0);
    let mut d = Digester::new();
    d.update(b"file a");
    assert_eq!(
        cache.resume(Event::Digested(Ok(d))),
        Some(Action::Exit { ns_inum: HOST, home: GUEST })
    );
    assert_eq!(cache.len(), 1);
    assert_eq!(
        cache.resume(Event::Exited),
        Some(Action::Done(Ok(Answer::Hashes(Hashes::from_path_ref("/a", Ok(b"file a"))))))
    );
    assert!(cache.is_idle());
}

#[test]
fn the_thread_ends_where_it_began_whatever_happens() {
    let (mut cache, mut world) = setup(2);
    register(&mut cache, &mut world, 50, GUEST).unwrap();
    world.here = 12345;
    let good = world.observe("/a");
    let mut stale = world.observe("/b");
    stale.metadata = Some(Metadata { size: 1, ..stale.metadata.unwrap() });
    let gone = Path { path: "/nowhere".to_string(), ..world.observe("/c") };
    let bare = Path { path: "/c".to_string(), metadata: None };
    let unknown = world.observe("/d");
    for (inum, event) in
        [(HOST, good), (GUEST, stale), (HOST, gone), (GUEST, bare), (9, unknown)]
    {
        let _ = enrich(&mut cache, &mut world, inum, event);
        assert_eq!(world.here, 12345);
        assert!(cache.is_idle());
    }
    let _ = hostname(&mut cache, &mut world, GUEST);
    assert_eq!(world.here, 12345);
    assert_eq!(world.enters, world.exits);
    assert_eq!(world.enters, 5);
}

#[test]
fn all_looks_at_the_file_system_happen_inside() {
    let (mut cache, mut world) = setup(2);
    register(&mut cache, &mut world, 50, GUEST).unwrap();
    enrich_file(&mut cache, &mut world, GUEST, "/a").unwrap();
    hostname(&mut cache, &mut world, GUEST).unwrap();
    assert_eq!(world.inside_during_io, vec![GUEST, GUEST, GUEST]);
}

#[test]
fn hostname_lazy_read() {
    let (mut cache, mut world) = setup(2);
    assert_eq!(hostname(&mut cache, &mut world, HOST), Ok("node-17".to_string()));
    assert_eq!(hostname(&mut cache, &mut world, HOST), Ok("node-17".to_string()));
    assert_eq!(world.hostname_reads, 1);
    assert_eq!(world.enters, 1);
    assert_eq!(world.exits, 1);
}

#[test]
fn hostname_is_kept_even_when_the_file_changes() {
    let (mut cache, mut world) = setup(2);
    assert_eq!(hostname(&mut cache, &mut world, HOST), Ok("node-17".to_string()));
    world.hostname = Some("renamed\n".to_string());
    assert_eq!(
        cache.get_hostname(HOST),
        Some(Action::Done(Ok(Answer::Hostname("node-17".to_string()))))
    );
    assert_eq!(world.hostname_reads, 1);
}

#[test]
fn hostname_is_read_once_for_each_namespace() {
    let (mut cache, mut world) = setup(2);
    register(&mut cache, &mut world, 50, GUEST).unwrap();
    for _ in 0..3 {
        hostname(&mut cache, &mut world, HOST).unwrap();
        hostname(&mut cache, &mut world, GUEST).unwrap();
    }
    assert_eq!(world.hostname_reads, 2);
    assert_eq!(world.enters, 2);
}

#[test]
fn unreadable_hostname_is_a_question_mark_and_is_kept() {
    let (mut cache, mut world) = setup(2);
    world.hostname = None;
    assert_eq!(hostname(&mut cache, &mut world, HOST), Ok("?".to_string()));
    world.hostname = Some("late\n".to_string());
    assert_eq!(hostname(&mut cache, &mut world, HOST), Ok("?".to_string()));
    assert_eq!(world.hostname_reads, 1);
}

#[test]
fn hostname_is_not_kept_when_the_switch_is_refused() {
    let (mut cache, mut world) = setup(2);
    world.refuse_enter = true;
    assert_eq!(
        hostname(&mut cache, &mut world, HOST),
        Err(Error::Namespace(NsError::Os("operation not permitted".to_string())))
    );
    assert_eq!(world.hostname_reads, 0);
    world.refuse_enter = false;
    assert_eq!(hostname(&mut cache, &mut world, HOST), Ok("node-17".to_string()));
    assert_eq!(world.hostname_reads, 1);
}

#[test]
fn enrichment_does_not_touch_the_hostname() {
    let (mut cache, mut world) = setup(2);
    enrich_file(&mut cache, &mut world, HOST, "/a").unwrap();
    assert_eq!(world.hostname_reads, 0);
    assert_eq!(hostname(&mut cache, &mut world, HOST), Ok("node-17".to_string()));
    enrich_file(&mut cache, &mut world, HOST, "/b").unwrap();
    assert_eq!(hostname(&mut cache, &mut world, HOST), Ok("node-17".to_string()));
    assert_eq!(world.hostname_reads, 1);
}

#[test]
fn a_request_while_another_is_under_way_is_not_taken() {
    let (mut cache, world) = setup(2);
    assert_eq!(
        cache.get_or_cache_in_ns(HOST, world.observe("/a")),
        Some(Action::Enter { ns_inum: HOST })
    );
    assert_eq!(cache.get_or_cache_in_ns(HOST, world.observe("/b")), None);
    assert_eq!(cache.get_hostname(HOST), None);
    assert_eq!(cache.cache_ns(50, GUEST), None);
    // the first request goes on as if nothing had happened
    assert_eq!(
        cache.resume(Event::Entered(Ok(3))),
        Some(Action::Stat { path: "/a".to_string() })
    );
}

#[test]
fn a_report_that_was_not_asked_for_is_not_taken() {
    let (mut cache, world) = setup(2);
    assert_eq!(cache.resume(Event::Exited), None);
    assert_eq!(cache.resume(Event::Entered(Ok(1))), None);
    assert!(cache.is_idle());
    cache.get_or_cache_in_ns(HOST, world.observe("/a")).unwrap();
    assert_eq!(cache.resume(Event::Stat(FileStat::Missing)), None);
    assert_eq!(cache.resume(Event::Exited), None);
    assert_eq!(cache.resume(Event::Digested(Err(ReadError::Open))), None);
    assert_eq!(cache.resume(Event::HostnameRead(None)), None);
    assert_eq!(cache.resume(Event::Opened(Ok(HOST))), None);
    assert!(!cache.is_idle());
    assert_eq!(
        cache.resume(Event::Entered(Ok(3))),
        Some(Action::Stat { path: "/a".to_string() })
    );
    assert_eq!(cache.resume(Event::Entered(Ok(3))), None);
}

#[test]
fn a_cache_made_for_no_record_still_answers() {
    let (mut cache, mut world) = setup(0);
    let h = enrich_file(&mut cache, &mut world, HOST, "/a").unwrap();
    assert_eq!(h, Hashes::from_path_ref("/a", Ok(b"file a")));
    assert_eq!(cache.cap(), 0);
}

#[test]
fn a_file_whose_reading_fails_midway_is_cached_without_digests() {
    let (mut cache, mut world) = setup(8);
    world.files.get_mut("/a").unwrap().breaks_at = Some(3);
    let h = enrich_file(&mut cache, &mut world, HOST, "/a").unwrap();
    assert_eq!(h, Hashes::failed("/a", ReadError::Read("input/output error".to_string())));
    assert_eq!(h.size, 0);
    assert_eq!(h.md5, "");
    assert_eq!(h.error, Some("input/output error".to_string()));
    // never the digests of the part that was read
    assert_ne!(h.md5, Hashes::from_path_ref("/a", Ok(b"fil")).md5);
    // cached like any other record
    world.files.get_mut("/a").unwrap().breaks_at = None;
    assert_eq!(enrich_file(&mut cache, &mut world, HOST, "/a").unwrap(), h);
    assert_eq!(world.digests, 1);
    assert_eq!(world.here, HOST);
}

#[test]
fn the_steps_of_a_failed_read_in_order() {
    let (mut cache, world) = setup(8);
    cache.get_or_cache_in_ns(HOST, world.observe("/a")).unwrap();
    cache.resume(Event::Entered(Ok(GUEST))).unwrap();
    let stat = FileStat::Found(FileMeta { size: 6, ino: 1, modified: Timestamp::new(1, 0) });
    assert_eq!(cache.resume(Event::Stat(stat)), Some(Action::Digest { path: "/a".to_string() }));
    assert_eq!(
        cache.resume(Event::Digested(Err(ReadError::Read("is a directory".to_string())))),
        Some(Action::Exit { ns_inum: HOST, home: GUEST })
    );
    assert_eq!(cache.len(), 1);
    assert_eq!(
        cache.resume(Event::Exited),
        Some(Action::Done(Ok(Answer::Hashes(Hashes::failed(
            "/a",
            ReadError::Read("is a directory".to_string())
        )))))
    );
}

#[test]
fn any_capacity_can_be_asked_for() {
    assert!(Cache::try_with_max_entries(0).is_some());
    assert_eq!(Cache::try_with_max_entries(MAX_ENTRIES).unwrap().cap(), MAX_ENTRIES);
    assert!(Cache::try_with_max_entries(MAX_ENTRIES + 1).is_none());
    assert!(Cache::try_with_max_entries(usize::MAX).is_none());
    let cache = Cache::try_with_max_entries(5).unwrap();
    assert_eq!((cache.len(), cache.cap(), cache.is_idle()), (0, 5, true));
}
