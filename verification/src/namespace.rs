//! The handle on a mount namespace: which namespace it leads to, and whether
//! the thread is inside it through this handle.
//!
//! Switching namespace is a system call and happens elsewhere. The handle
//! holds the bookkeeping that decides whether a switch may happen and where
//! the thread has to return to.

use crate::error::NsError;
use vstd::prelude::*;

verus! {

#[derive(Debug, PartialEq, Eq)]
pub struct MntNamespace {
    /// Inode number of the namespace the handle leads to.
    pub inum: u32,
    /// Process through whose namespace link the handle was opened.
    pub pid: i32,
    /// While the thread is inside through this handle: the namespace it came
    /// from and has to be put back into.
    pub home: Option<u32>,
}

impl MntNamespace {
    /// Makes the handle for namespace `inum` out of the namespace link of
    /// process `pid`. `link` is what opening that link gave: the inode number
    /// of the namespace behind it, or the operating system's refusal. A link
    /// that leads elsewhere means the process has changed namespace since it
    /// was seen, and no handle is made.
    pub fn open_with_procfs(pid: i32, inum: u32, link: Result<u32, String>) -> (r: Result<
        MntNamespace,
        NsError,
    >)
        ensures
            r == Self::opened(pid, inum, link),
    {
        match link {
            Ok(found) => {
                if found == inum {
                    Ok(MntNamespace { inum, pid, home: None })
                } else {
                    Err(NsError::InumMismatch { expected: inum, found })
                }
            },
            Err(refusal) => Err(NsError::Os(refusal)),
        }
    }

    /// What `open_with_procfs` gives.
    pub open spec fn opened(pid: i32, inum: u32, link: Result<u32, String>) -> Result<
        MntNamespace,
        NsError,
    > {
        match link {
            Ok(found) => if found == inum {
                Ok(MntNamespace { inum, pid, home: None })
            } else {
                Err(NsError::InumMismatch { expected: inum, found })
            },
            Err(refusal) => Err(NsError::Os(refusal)),
        }
    }

    pub open spec fn spec_is_entered(&self) -> bool {
        self.home is Some
    }

    /// Whether the thread is inside the namespace through this handle.
    #[verifier::when_used_as_spec(spec_is_entered)]
    pub fn is_entered(&self) -> (b: bool)
        ensures
            b == self.spec_is_entered(),
    {
        self.home.is_some()
    }

    /// Records that the thread goes inside, coming from namespace `from`.
    /// Entries do not nest: on a handle that is entered already this fails
    /// and changes nothing.
    pub fn enter(&mut self, from: u32) -> (r: Result<(), NsError>)
        ensures
            match old(self).home {
                None => {
                    &&& r == Ok::<(), NsError>(())
                    &&& *final(self) == (MntNamespace { home: Some(from), ..*old(self) })
                },
                Some(_) => {
                    &&& r == Err::<(), NsError>(NsError::AlreadyEntered)
                    &&& *final(self) == *old(self)
                },
            },
    {
        if self.home.is_some() {
            Err(NsError::AlreadyEntered)
        } else {
            self.home = Some(from);
            Ok(())
        }
    }

    /// Records that the thread leaves, and tells which namespace it has to
    /// be put back into: the one it came from. On a handle that is not
    /// entered this fails and changes nothing.
    pub fn exit(&mut self) -> (r: Result<u32, NsError>)
        ensures
            *final(self) == (MntNamespace { home: None, ..*old(self) }),
            match old(self).home {
                Some(from) => r == Ok::<u32, NsError>(from),
                None => r == Err::<u32, NsError>(NsError::NotEntered),
            },
    {
        match self.home {
            Some(from) => {
                self.home = None;
                Ok(from)
            },
            None => Err(NsError::NotEntered),
        }
    }
}

} // verus!
