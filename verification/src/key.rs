//! The identity under which a file's digests are cached.

use crate::error::Error;
use crate::namespace::MntNamespace;
use crate::path::{FileStat, Path, Timestamp};
use vstd::prelude::*;
use vstd::std_specs::cmp::PartialEqSpecImpl;

verus! {

/// What a key stands for: the namespace, the path, and the version of the
/// file as the kernel saw it.
pub struct KeyView {
    pub mnt_namespace: u32,
    pub path: Seq<char>,
    pub size: u64,
    pub modified: Timestamp,
    pub created: Timestamp,
    pub accessed: Timestamp,
}

#[derive(Debug, Eq, Hash)]
pub struct Key {
    mnt_namespace: u32,
    path: String,
    size: u64,
    modified: Timestamp,
    created: Timestamp,
    accessed: Timestamp,
}

impl View for Key {
    type V = KeyView;

    closed spec fn view(&self) -> KeyView {
        KeyView {
            mnt_namespace: self.mnt_namespace,
            path: self.path@,
            size: self.size,
            modified: self.modified,
            created: self.created,
            accessed: self.accessed,
        }
    }
}

impl PartialEq for Key {
    fn eq(&self, other: &Self) -> (r: bool) {
        self.mnt_namespace == other.mnt_namespace && self.path == other.path && self.size
            == other.size && self.modified == other.modified && self.created == other.created
            && self.accessed == other.accessed
    }
}

impl PartialEqSpecImpl for Key {
    open spec fn obeys_eq_spec() -> bool {
        true
    }

    open spec fn eq_spec(&self, other: &Self) -> bool {
        self@ == other@
    }
}

impl Clone for Key {
    fn clone(&self) -> (k: Key)
        ensures
            k == *self,
    {
        Key {
            mnt_namespace: self.mnt_namespace,
            path: self.path.clone(),
            size: self.size,
            modified: self.modified,
            created: self.created,
            accessed: self.accessed,
        }
    }
}

impl Default for Key {
    fn default() -> (k: Key)
        ensures
            k@ == (KeyView {
                mnt_namespace: 0,
                path: Seq::<char>::empty(),
                size: 0,
                modified: Timestamp::unix_epoch(),
                created: Timestamp::unix_epoch(),
                accessed: Timestamp::unix_epoch(),
            }),
    {
        Key {
            mnt_namespace: 0,
            path: String::new(),
            size: 0,
            modified: Timestamp::unix_epoch(),
            created: Timestamp::unix_epoch(),
            accessed: Timestamp::unix_epoch(),
        }
    }
}

/// What the key for `path` in namespace `ns_inum` stands for: the namespace,
/// the path, and size and times as the event's snapshot has them.
pub open spec fn key_of(ns_inum: u32, path: Path) -> KeyView
    recommends
        path.metadata is Some,
{
    let snapshot = path.metadata->Some_0;
    KeyView {
        mnt_namespace: ns_inum,
        path: path.path@,
        size: snapshot.size,
        modified: snapshot.mtime,
        created: snapshot.ctime,
        accessed: snapshot.atime,
    }
}

/// The file on disk is the one the kernel saw: it is there, its metadata
/// can be read, the event carries a snapshot, and size, inode number and
/// modification time on disk are all those of the snapshot.
pub open spec fn confirmed(path: Path, stat: FileStat) -> bool {
    &&& stat matches FileStat::Found(meta)
    &&& path.metadata matches Some(snapshot)
    &&& snapshot.size == meta.size
    &&& snapshot.ino == meta.ino
    &&& snapshot.mtime == meta.modified
}

/// Why no key may be made for `path` given what is on disk now, or `None`
/// where nothing stands against it, which is where the file is `confirmed`. The checks come in this order: the file
/// must exist; its metadata must be readable; the event must carry a
/// snapshot; size, inode number and modification time on disk must be those
/// of the snapshot.
pub open spec fn rejection(path: Path, stat: FileStat) -> Option<Error> {
    match stat {
        FileStat::Missing => Some(Error::FileNotFound),
        FileStat::Failed(refusal) => Some(Error::IoError(refusal)),
        FileStat::Found(meta) => match path.metadata {
            None => Some(Error::MetadataRequired),
            Some(snapshot) => if snapshot.size != meta.size {
                Some(Error::FileModSinceKernelEvent("size changed"))
            } else if snapshot.ino != meta.ino {
                Some(Error::FileModSinceKernelEvent("inode changed"))
            } else if snapshot.mtime != meta.modified {
                Some(Error::FileModSinceKernelEvent("mtime changed"))
            } else {
                None
            },
        },
    }
}

impl Key {
    /// Inode number of the mount namespace the file was seen in.
    pub fn mnt_namespace(&self) -> (n: u32)
        ensures
            n == self@.mnt_namespace,
    {
        self.mnt_namespace
    }

    /// Path of the file inside that namespace.
    pub fn path(&self) -> (p: &str)
        ensures
            p@ == self@.path,
    {
        self.path.as_str()
    }

    /// Size of the file when the kernel saw it.
    pub fn size(&self) -> (n: u64)
        ensures
            n == self@.size,
    {
        self.size
    }

    pub fn modified(&self) -> (t: Timestamp)
        ensures
            t == self@.modified,
    {
        self.modified
    }

    pub fn created(&self) -> (t: Timestamp)
        ensures
            t == self@.created,
    {
        self.created
    }

    pub fn accessed(&self) -> (t: Timestamp)
        ensures
            t == self@.accessed,
    {
        self.accessed
    }

    /// The key for the file that a kernel event points at, seen from inside
    /// namespace `ns`. `stat` is what looking the path up inside that
    /// namespace gave just now. A key is made only for a file that is still
    /// the one the kernel saw; it then holds the kernel's snapshot, not the
    /// current metadata, so that a later version of the file gets another
    /// key.
    pub fn from_ebpf_path_ref_with_ns(ns: &MntNamespace, path: &Path, stat: &FileStat) -> (r:
        Result<Key, Error>)
        ensures
            r is Ok <==> confirmed(*path, *stat),
            match r {
                Ok(k) => rejection(*path, *stat) is None && k@ == key_of(ns.inum, *path),
                Err(e) => rejection(*path, *stat) == Some(e),
            },
    {
        let meta = match stat {
            FileStat::Missing => {
                return Err(Error::FileNotFound);
            },
            FileStat::Failed(refusal) => {
                return Err(Error::IoError(refusal.clone()));
            },
            FileStat::Found(meta) => *meta,
        };
        let snapshot = match path.metadata {
            None => {
                return Err(Error::MetadataRequired);
            },
            Some(snapshot) => snapshot,
        };
        if snapshot.size != meta.size {
            return Err(Error::FileModSinceKernelEvent("size changed"));
        }
        if snapshot.ino != meta.ino {
            return Err(Error::FileModSinceKernelEvent("inode changed"));
        }
        if snapshot.mtime != meta.modified {
            return Err(Error::FileModSinceKernelEvent("mtime changed"));
        }
        Ok(
            Key {
                mnt_namespace: ns.inum,
                path: path.path.clone(),
                size: snapshot.size,
                modified: snapshot.mtime,
                created: snapshot.ctime,
                accessed: snapshot.atime,
            },
        )
    }
}

/// The keys made for two events are the same only where the events agree
/// in namespace and path and their snapshots agree in size and in all three
/// times.
pub proof fn lemma_key_of_discriminates(ns_a: u32, a: Path, ns_b: u32, b: Path)
    requires
        a.metadata is Some,
        b.metadata is Some,
    ensures
        key_of(ns_a, a) == key_of(ns_b, b) <==> {
            &&& ns_a == ns_b
            &&& a.path@ == b.path@
            &&& a.metadata->Some_0.size == b.metadata->Some_0.size
            &&& a.metadata->Some_0.mtime == b.metadata->Some_0.mtime
            &&& a.metadata->Some_0.ctime == b.metadata->Some_0.ctime
            &&& a.metadata->Some_0.atime == b.metadata->Some_0.atime
        },
{
}

/// A key is made for a confirmed file and for no other.
pub proof fn lemma_key_iff_confirmed(path: Path, stat: FileStat)
    ensures
        rejection(path, stat) is None <==> confirmed(path, stat),
{
}

/// A file that differs on disk from the event's snapshot in size, in inode
/// number or in modification time gets no key.
pub proof fn lemma_changed_file_has_no_key(path: Path, stat: FileStat)
    requires
        path.metadata matches Some(snapshot) && stat matches FileStat::Found(meta) && (
        snapshot.size != meta.size || snapshot.ino != meta.ino || snapshot.mtime
            != meta.modified),
    ensures
        rejection(path, stat) matches Some(Error::FileModSinceKernelEvent(_)),
{
}

} // verus!
