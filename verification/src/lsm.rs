//! What the security hooks decide.
//!
//! A hook reads a few values from the kernel and answers with a number: zero
//! or the verdict of the hook before it to let the operation pass, a negative
//! number to refuse it. Reading the kernel happens in the probe; the verdict
//! on what was read is decided here. A value that could not be read is given
//! as `None`, and a hook whose reading fails lets the operation pass: a
//! failing probe must never lock a machine up.

use vstd::prelude::*;
use vstd::std_specs::convert::FromSpecImpl;

verus! {

/// The verdict of a hook.
#[derive(Clone, Copy, Debug, PartialEq, Eq, Structural)]
pub enum LsmStatus {
    /// Let the operation go on, with this return code.
    Continue(i32),
    /// Refuse the operation.
    Block,
}

impl From<LsmStatus> for i32 {
    fn from(value: LsmStatus) -> (code: i32) {
        match value {
            LsmStatus::Block => -1,
            LsmStatus::Continue(ret) => ret,
        }
    }
}

impl FromSpecImpl<LsmStatus> for i32 {
    open spec fn obeys_from_spec() -> bool {
        true
    }

    open spec fn from_spec(value: LsmStatus) -> i32 {
        match value {
            LsmStatus::Block => -1i32,
            LsmStatus::Continue(ret) => ret,
        }
    }
}

/// The return code of a hook whose work gave `outcome`; `None` stands for a
/// reading that failed, which never blocks.
pub open spec fn hook_code(outcome: Option<LsmStatus>) -> i32 {
    match outcome {
        Some(LsmStatus::Block) => -1i32,
        Some(LsmStatus::Continue(ret)) => ret,
        None => 0i32,
    }
}

/// The directory whose files may not be opened.
pub open spec fn guarded_prefix() -> Seq<u8> {
    seq![47u8, 116u8, 109u8, 112u8, 47u8, 116u8, 101u8, 115u8, 116u8]
}

/// `path` begins with `prefix`.
pub open spec fn has_prefix(path: Seq<u8>, prefix: Seq<u8>) -> bool {
    prefix.len() <= path.len() && path.subrange(0, prefix.len() as int) == prefix
}

/// The verdict on opening a file: refused where the resolved path begins
/// with the guarded prefix `/tmp/test`. `path` is `None` where the path
/// could not be resolved.
pub open spec fn file_open_verdict(path: Option<Seq<u8>>) -> Option<LsmStatus> {
    match path {
        None => None,
        Some(p) => if has_prefix(p, guarded_prefix()) {
            Some(LsmStatus::Block)
        } else {
            Some(LsmStatus::Continue(0))
        },
    }
}

/// The verdict on a signal. Signal zero sends nothing and always passes
/// with the verdict of the hook before; so does a signal to any process
/// but the agent itself. A signal to the agent is refused.
pub open spec fn task_kill_verdict(sig: i32, ret: i32, target_tgid: Option<i32>, agent_tgid: Option<
    u32,
>) -> Option<LsmStatus> {
    if sig == 0 {
        Some(LsmStatus::Continue(ret))
    } else {
        match (target_tgid, agent_tgid) {
            (Some(target), Some(agent)) => if target as u32 != agent {
                Some(LsmStatus::Continue(ret))
            } else {
                Some(LsmStatus::Block)
            },
            _ => None,
        }
    }
}

/// The verdict on a request to trace a process: refused where the process
/// is the agent itself.
pub open spec fn ptrace_verdict(ret: i32, target_tgid: Option<i32>, agent_tgid: Option<u32>) -> Option<
    LsmStatus,
> {
    match (target_tgid, agent_tgid) {
        (Some(target), Some(agent)) => if target as u32 != agent {
            Some(LsmStatus::Continue(ret))
        } else {
            Some(LsmStatus::Block)
        },
        _ => None,
    }
}

fn starts_with(path: &[u8], prefix: &[u8]) -> (b: bool)
    ensures
        b == has_prefix(path@, prefix@),
{
    if prefix.len() > path.len() {
        return false;
    }
    let mut i: usize = 0;
    while i < prefix.len()
        invariant
            i <= prefix.len() <= path.len(),
            path@.subrange(0, i as int) == prefix@.subrange(0, i as int),
        decreases prefix.len() - i,
    {
        if path[i] != prefix[i] {
            assert(path@.subrange(0, prefix.len() as int)[i as int] != prefix@[i as int]);
            return false;
        }
        assert(path@.subrange(0, i + 1) == path@.subrange(0, i as int).push(path@[i as int]));
        assert(prefix@.subrange(0, i + 1) == prefix@.subrange(0, i as int).push(
            prefix@[i as int],
        ));
        i = i + 1;
    }
    assert(prefix@.subrange(0, i as int) == prefix@);
    true
}

fn code_of(outcome: Option<LsmStatus>) -> (code: i32)
    ensures
        code == hook_code(outcome),
{
    match outcome {
        Some(status) => i32::from(status),
        None => 0,
    }
}

pub fn try_lsm_security_file_open(path: Option<&[u8]>) -> (verdict: Option<LsmStatus>)
    ensures
        verdict == file_open_verdict(
            match path {
                Some(p) => Some(p@),
                None => None,
            },
        ),
{
    match path {
        None => None,
        Some(p) => {
            let prefix: [u8; 9] = [47, 116, 109, 112, 47, 116, 101, 115, 116];
            assert(prefix@ =~= guarded_prefix());
            if starts_with(p, prefix.as_slice()) {
                Some(LsmStatus::Block)
            } else {
                Some(LsmStatus::Continue(0))
            }
        },
    }
}

/// Return code of the hook on the opening of a file.
pub fn lsm_file_open(path: Option<&[u8]>) -> (code: i32)
    ensures
        code == hook_code(
            file_open_verdict(
                match path {
                    Some(p) => Some(p@),
                    None => None,
                },
            ),
        ),
{
    code_of(try_lsm_security_file_open(path))
}

pub fn try_lsm_security_task_kill(sig: i32, ret: i32, target_tgid: Option<i32>, agent_tgid: Option<
    u32,
>) -> (verdict: Option<LsmStatus>)
    ensures
        verdict == task_kill_verdict(sig, ret, target_tgid, agent_tgid),
{
    if sig == 0 {
        return Some(LsmStatus::Continue(ret));
    }
    match (target_tgid, agent_tgid) {
        (Some(target), Some(agent)) => {
            if target as u32 != agent {
                Some(LsmStatus::Continue(ret))
            } else {
                Some(LsmStatus::Block)
            }
        },
        _ => None,
    }
}

/// Return code of the hook on the sending of a signal.
pub fn lsm_task_kill(sig: i32, ret: i32, target_tgid: Option<i32>, agent_tgid: Option<u32>) -> (code:
    i32)
    ensures
        code == hook_code(task_kill_verdict(sig, ret, target_tgid, agent_tgid)),
{
    code_of(try_lsm_security_task_kill(sig, ret, target_tgid, agent_tgid))
}

pub fn try_ptrace_access_check(ret: i32, target_tgid: Option<i32>, agent_tgid: Option<u32>) -> (verdict:
    Option<LsmStatus>)
    ensures
        verdict == ptrace_verdict(ret, target_tgid, agent_tgid),
{
    match (target_tgid, agent_tgid) {
        (Some(target), Some(agent)) => {
            if target as u32 != agent {
                Some(LsmStatus::Continue(ret))
            } else {
                Some(LsmStatus::Block)
            }
        },
        _ => None,
    }
}

/// Return code of the hook on a request to trace a process.
pub fn lsm_ptrace_access_check(ret: i32, target_tgid: Option<i32>, agent_tgid: Option<u32>) -> (code:
    i32)
    ensures
        code == hook_code(ptrace_verdict(ret, target_tgid, agent_tgid)),
{
    code_of(try_ptrace_access_check(ret, target_tgid, agent_tgid))
}

} // verus!
