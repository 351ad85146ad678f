//! The verified core of a host security agent.
//!
//! Most of it is the file-hash cache: digests of the files that kernel
//! events point at, keyed so that a record is only ever served for the exact
//! file version the kernel saw, computed inside the mount namespace the file
//! lives in, and kept in a bounded least-recently-used map. The rest is what
//! the agent's security hooks decide.
//!
//! Nothing here touches the operating system. Where a request needs a file
//! to be read or a namespace to be entered, the cache says so and waits for
//! the caller's report; see `cache`.

pub mod cache;
pub mod digest;
pub mod error;
pub mod hostname;
pub mod key;
pub mod laws;
pub mod lru;
pub mod lsm;
pub mod namespace;
pub mod path;
