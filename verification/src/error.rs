//! Failures that the cache reports to its caller.

use vstd::prelude::*;

verus! {

/// Failures of a mount-namespace handle.
#[derive(Debug, PartialEq, Eq)]
pub enum NsError {
    /// The namespace link that was opened for a process does not lead to the
    /// namespace asked for: the process has moved on.
    InumMismatch { expected: u32, found: u32 },
    /// `enter` on a handle that is entered already; entries do not nest.
    AlreadyEntered,
    /// `exit` on a handle that is not entered.
    NotEntered,
    /// The operating system refused to open or to switch namespace; the text
    /// is its description of the failure.
    Os(String),
}

#[derive(Debug, PartialEq, Eq)]
pub enum Error {
    /// The namespace was never registered with `cache_ns`.
    UnknownNs(u32),
    /// Opening or entering the namespace failed.
    Namespace(NsError),
    /// Reading the file's metadata failed; the text is the operating
    /// system's description of the failure.
    IoError(String),
    /// The file on disk is no longer the one the kernel saw; the text names
    /// the attribute that differs.
    FileModSinceKernelEvent(&'static str),
    /// The kernel event carried no metadata snapshot.
    MetadataRequired,
    /// Nothing exists at the path any more.
    FileNotFound,
}

} // verus!
