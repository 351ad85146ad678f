//! What a kernel event says about a file, and what the filesystem says about
//! the same path when it is looked at again.

use vstd::prelude::*;

verus! {

/// Nanoseconds in a second.
pub const NANOS_PER_SEC: u32 = 1_000_000_000;

/// A wall-clock instant: whole seconds since the Unix epoch and the
/// nanoseconds within that second. There is one way only to write an
/// instant: a value made by `new` has less than a second's worth of
/// nanoseconds, so that two values are equal exactly when they are the same
/// instant.
#[derive(Clone, Copy, Debug, PartialEq, Eq, Hash, Structural)]
pub struct Timestamp {
    sec: u64,
    nsec: u32,
}

impl Timestamp {
    pub closed spec fn spec_sec(self) -> u64 {
        self.sec
    }

    pub closed spec fn spec_nsec(self) -> u32 {
        self.nsec
    }

    /// The value is written the one way that `new` writes it.
    pub open spec fn wf(self) -> bool {
        self.spec_nsec() < NANOS_PER_SEC
    }

    /// The instant that `sec` seconds and `nsec` nanoseconds after the epoch
    /// stand for, in nanoseconds after the epoch.
    pub open spec fn written(sec: u64, nsec: u32) -> nat {
        (sec * 1_000_000_000 + nsec) as nat
    }

    /// The last instant that can be written.
    pub open spec fn last() -> nat {
        (u64::MAX * 1_000_000_000 + 999_999_999) as nat
    }

    /// The instant, in nanoseconds after the epoch.
    pub open spec fn instant(self) -> nat {
        Self::written(self.spec_sec(), self.spec_nsec())
    }

    /// The Unix epoch itself.
    pub closed spec fn spec_unix_epoch() -> Timestamp {
        Timestamp { sec: 0, nsec: 0 }
    }

    /// The instant `sec` seconds and `nsec` nanoseconds after the epoch.
    /// Whole seconds among the nanoseconds are carried over to the seconds.
    /// An instant beyond the last one that can be written becomes the last.
    pub fn new(sec: u64, nsec: u32) -> (t: Timestamp)
        ensures
            t.wf(),
            t.instant() == if Self::written(sec, nsec) <= Self::last() {
                Self::written(sec, nsec)
            } else {
                Self::last()
            },
            nsec < NANOS_PER_SEC ==> t.spec_sec() == sec && t.spec_nsec() == nsec,
    {
        let carry: u32 = nsec / NANOS_PER_SEC;
        let rest: u32 = nsec % NANOS_PER_SEC;
        if sec > u64::MAX - (carry as u64) {
            Timestamp { sec: u64::MAX, nsec: NANOS_PER_SEC - 1 }
        } else {
            Timestamp { sec: sec + (carry as u64), nsec: rest }
        }
    }

    #[verifier::when_used_as_spec(spec_unix_epoch)]
    pub fn unix_epoch() -> (t: Timestamp)
        ensures
            t == Self::spec_unix_epoch(),
            t.wf(),
            t.instant() == 0,
    {
        Timestamp { sec: 0, nsec: 0 }
    }

    /// Whole seconds since the epoch.
    #[verifier::when_used_as_spec(spec_sec)]
    pub fn sec(self) -> (sec: u64)
        ensures
            sec == self.spec_sec(),
    {
        self.sec
    }

    /// Nanoseconds within the second.
    #[verifier::when_used_as_spec(spec_nsec)]
    pub fn nsec(self) -> (nsec: u32)
        ensures
            nsec == self.spec_nsec(),
    {
        self.nsec
    }
}

/// One instant, one writing: two values as `new` makes them are equal exactly
/// when they are the same instant.
pub proof fn lemma_one_writing(a: Timestamp, b: Timestamp)
    requires
        a.wf(),
        b.wf(),
    ensures
        a == b <==> a.instant() == b.instant(),
{
}

/// The inode snapshot that a probe takes when it observes a file.
#[derive(Clone, Copy, Debug, PartialEq, Eq, Structural)]
pub struct Metadata {
    pub ino: u64,
    pub size: u64,
    pub atime: Timestamp,
    pub mtime: Timestamp,
    pub ctime: Timestamp,
}

/// A file reference as carried by a kernel event: the path as seen inside the
/// originating mount namespace, and the snapshot taken with it, if any.
#[derive(Debug, PartialEq, Eq)]
pub struct Path {
    pub path: String,
    pub metadata: Option<Metadata>,
}

/// Current on-disk metadata of a path. A file whose modification time
/// cannot be told has no metadata to report: that is `FileStat::Failed`.
#[derive(Clone, Copy, Debug, PartialEq, Eq, Structural)]
pub struct FileMeta {
    pub size: u64,
    pub ino: u64,
    pub modified: Timestamp,
}

/// Outcome of looking a path up from inside its mount namespace.
#[derive(Debug, PartialEq, Eq)]
pub enum FileStat {
    /// Nothing exists at the path.
    Missing,
    /// The path exists but its metadata, or a part of it, could not be
    /// read; the text is the operating system's description of the failure.
    Failed(String),
    /// The path exists and this is its metadata.
    Found(FileMeta),
}

} // verus!
