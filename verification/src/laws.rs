//! What holds of every turn of the dialogue between the cache and its
//! caller, proved from the step relations of `cache`.

use crate::cache::{
    answers, cache_ns_step, get_hostname_step, get_or_cache_step, inv, resume_step, Action,
    Answer, Event, Pending, State,
};
use crate::error::Error;
use crate::key::{key_of, rejection, Key};
use crate::lru::{lemma_stored, lemma_touched};
use crate::path::{FileStat, Path};
use vstd::prelude::*;
use vstd::std_specs::cmp::PartialEqSpec;

verus! {

/// A call of one of the four functions that move a request along.
pub enum Call {
    CacheNs { pid: i32, ns_inum: u32 },
    GetHostname { ns_inum: u32 },
    GetOrCache { ns_inum: u32, path: Path },
    Resume(Event),
}

/// One turn: `call` on a cache that holds `pre` leaves it holding `post` and
/// gives `out`. This is what the contracts of `Cache::cache_ns`,
/// `Cache::get_hostname`, `Cache::get_or_cache_in_ns` and `Cache::resume`
/// promise, in one relation.
pub open spec fn turn(pre: State, call: Call, post: State, out: Option<Action>) -> bool {
    match out {
        Some(action) => match call {
            Call::CacheNs { pid, ns_inum } => pre.pending is Idle && cache_ns_step(
                pre,
                pid,
                ns_inum,
                post,
                action,
            ),
            Call::GetHostname { ns_inum } => pre.pending is Idle && get_hostname_step(
                pre,
                ns_inum,
                post,
                action,
            ),
            Call::GetOrCache { ns_inum, path } => pre.pending is Idle && get_or_cache_step(
                pre,
                ns_inum,
                path,
                post,
                action,
            ),
            Call::Resume(event) => answers(pre.pending, event) && resume_step(
                pre,
                event,
                post,
                action,
            ),
        },
        None => {
            &&& post == pre
            &&& match call {
                Call::Resume(event) => !answers(pre.pending, event),
                _ => pre.pending !is Idle,
            }
        },
    }
}

/// The bound on the records. No turn changes what the cache was made for,
/// and a cache made for at least one record never holds more than that,
/// before or after any turn.
pub proof fn lemma_bound_kept(pre: State, call: Call, post: State, out: Option<Action>)
    requires
        inv(pre),
        turn(pre, call, post, out),
    ensures
        post.max_entries == pre.max_entries,
        pre.max_entries >= 1 ==> pre.entries.len() <= pre.max_entries && post.entries.len()
            <= post.max_entries,
{
    lemma_turn_keeps_inv(pre, call, post, out);
}

/// Files that changed are not read. Where the file on disk differs from
/// the kernel's snapshot in size, inode number or modification time, the
/// request ends with `FileModSinceKernelEvent`: the cache does not ask for
/// the file to be read, stores nothing, and only asks for the switch back.
pub proof fn lemma_changed_file_is_refused(pre: State, stat: FileStat, post: State, action: Action)
    requires
        resume_step(pre, Event::Stat(stat), post, action),
        pre.pending matches Pending::Probing { path, .. } && path.metadata matches Some(snapshot)
            && stat matches FileStat::Found(meta) && (snapshot.size != meta.size || snapshot.ino
            != meta.ino || snapshot.mtime != meta.modified),
    ensures
        action is Exit,
        post.entries == pre.entries,
        post.pending matches Pending::Leaving { outcome: Err(Error::FileModSinceKernelEvent(_)), .. },
{
}

/// Any failure to make a key, not only a changed file, ends the request
/// without a read and without a change to the records.
pub proof fn lemma_rejected_is_not_read(pre: State, stat: FileStat, post: State, action: Action)
    requires
        resume_step(pre, Event::Stat(stat), post, action),
        pre.pending matches Pending::Probing { path, .. } && rejection(path, stat) is Some,
    ensures
        action is Exit,
        post.entries == pre.entries,
        pre.pending matches Pending::Probing { path, .. } && post.pending matches Pending::Leaving {
            outcome: Err(e),
            ..
        } && rejection(path, stat) == Some(e),
{
}

/// Containment, first part. A request is over only while the thread is where
/// it came from: whenever the cache says `Done`, no request is under way any
/// more, and the cache was not in the middle of the work inside a namespace.
pub proof fn lemma_done_is_outside(pre: State, call: Call, post: State, result: Result<Answer, Error>)
    requires
        turn(pre, call, post, Some(Action::Done(result))),
    ensures
        post.pending is Idle,
        pre.pending.entered() is None,
{
}

/// Containment, second part. The only way into a namespace is a switch that
/// succeeded, and the handle then knows where the thread came from; the only
/// way out is the switch back, which ends the request. In between, the
/// namespace does not change.
pub proof fn lemma_in_and_out(pre: State, call: Call, post: State, out: Option<Action>)
    requires
        inv(pre),
        turn(pre, call, post, out),
    ensures
        pre.pending.inside() is None && post.pending.inside() is Some ==> {
            &&& pre.pending matches Pending::Entering { ns_inum, .. }
            &&& call matches Call::Resume(Event::Entered(Ok(home)))
            &&& post.pending.entered() == Some(ns_inum)
            &&& post.namespaces[ns_inum].ns.home == Some(home)
        },
        pre.pending.inside() is Some && post.pending.inside() is None ==> {
            &&& pre.pending is Leaving
            &&& call == Call::Resume(Event::Exited)
            &&& out matches Some(Action::Done(_))
        },
        pre.pending.inside() is Some && post.pending.inside() is Some ==> pre.pending.inside()
            == post.pending.inside(),
{
}

/// Containment, third part. The namespace that the cache tells the caller to
/// go back to is the one that the thread came from when it entered: the one
/// the handle has noted, which no turn in between has changed. And once the
/// cache has asked for the switch back, the only thing it still takes is
/// the report of that switch.
pub proof fn lemma_exit_goes_home(pre: State, call: Call, post: State, out: Option<Action>)
    requires
        inv(pre),
        turn(pre, call, post, out),
    ensures
        out matches Some(Action::Exit { ns_inum, home }) ==> {
            &&& pre.pending.entered() == Some(ns_inum)
            &&& pre.namespaces[ns_inum].ns.home == Some(home)
            &&& post.pending matches Pending::Leaving { ns_inum: leaving, .. }
            &&& leaving == ns_inum
        },
        pre.pending.entered() matches Some(i) ==> (post.pending.entered() == Some(i)
            ==> post.namespaces[i].ns.home == pre.namespaces[i].ns.home),
        pre.pending.entered() is Some && post.pending.entered() is None && post != pre
            ==> out matches Some(Action::Exit { .. }),
{
}

/// The host name is read once. A name that the registry holds is given at
/// once, with no switch of namespace, and no turn ever changes or drops it.
/// So the cache asks to enter a namespace for its name only as long as no
/// read has come back.
pub proof fn lemma_hostname_memoized(pre: State, call: Call, post: State, out: Option<Action>, i: u32)
    requires
        inv(pre),
        turn(pre, call, post, out),
        pre.namespaces.contains_key(i),
        pre.namespaces[i].hostname is Some,
    ensures
        post.namespaces.contains_key(i),
        post.namespaces[i].hostname == pre.namespaces[i].hostname,
        call == (Call::GetHostname { ns_inum: i }) && out is Some ==> {
            &&& out == Some(Action::Done(Ok(Answer::Hostname(pre.namespaces[i].hostname->Some_0))))
            &&& post == pre
        },
        post.pending.naming() != Some(i),
{
}

/// Once `/etc/hostname` has been read inside the namespace, the registry
/// holds the name.
pub proof fn lemma_hostname_kept_after_read(pre: State, text: Option<String>, post: State, action: Action)
    requires
        inv(pre),
        resume_step(pre, Event::HostnameRead(text), post, action),
    ensures
        pre.pending matches Pending::Naming { ns_inum } && post.namespaces.contains_key(ns_inum)
            && post.namespaces[ns_inum].hostname is Some,
{
}

/// Every turn leaves the cache in order.
pub proof fn lemma_turn_keeps_inv(pre: State, call: Call, post: State, out: Option<Action>)
    requires
        inv(pre),
        turn(pre, call, post, out),
    ensures
        inv(post),
{
    if out is Some {
        match call {
            Call::Resume(event) => {
                match (pre.pending, event) {
                    (Pending::Probing { ns_inum, path }, Event::Stat(stat)) => {
                        lemma_touched(pre.entries, key_of(ns_inum, path));
                    },
                    (Pending::Digesting { ns_inum, key }, Event::Digested(read)) => {
                        lemma_stored(pre.entries, pre.max_entries, key, post.entries[0].1);
                    },
                    _ => {},
                }
            },
            _ => {},
        }
    }
}

/// One turn of a run: the call, what the cache holds after it, and what it
/// gave.
pub struct Turn {
    pub call: Call,
    pub post: State,
    pub out: Option<Action>,
}

/// What the cache holds when turn `n` of a run begins.
pub open spec fn state_at(first: State, turns: Seq<Turn>, n: int) -> State {
    if n <= 0 {
        first
    } else {
        turns[n - 1].post
    }
}

/// Where the thread is once the caller has carried out `action`, having been
/// in namespace `here` before. Only two actions move the thread: `Enter`,
/// where it succeeds, which the caller's next call tells, and `Exit`.
pub open spec fn moved(here: u32, action: Option<Action>, next: Call) -> u32 {
    match action {
        Some(Action::Enter { ns_inum }) => if next matches Call::Resume(Event::Entered(Ok(_))) {
            ns_inum
        } else {
            here
        },
        Some(Action::Exit { home, .. }) => home,
        _ => here,
    }
}

/// The caller's report on a switch that succeeded names the namespace that
/// the thread was in.
pub open spec fn truthful(here: u32, action: Option<Action>, next: Call) -> bool {
    action matches Some(Action::Enter { .. }) ==> (next matches Call::Resume(
        Event::Entered(Ok(home)),
    ) ==> home == here)
}

/// Where the thread is when the call of turn `n` is made, in a run that
/// began with the thread in namespace `origin`.
pub open spec fn here_at(origin: u32, turns: Seq<Turn>, n: int) -> u32
    decreases n,
{
    if n <= 0 {
        origin
    } else {
        moved(here_at(origin, turns, n - 1), turns[n - 1].out, turns[n].call)
    }
}

/// `turns` is a run of the cache from `first`, with the thread in `origin`
/// at the beginning: each turn is a call that the cache took, made on what
/// the turn before left, by a caller that carries out what it is asked and
/// reports truly from where it switched. Calls that the cache does not take
/// change nothing and are left out.
pub open spec fn is_run(first: State, origin: u32, turns: Seq<Turn>) -> bool {
    forall|n: int|
        0 <= n < turns.len() ==> {
            &&& (#[trigger] turns[n]).out is Some
            &&& turn(state_at(first, turns, n), turns[n].call, turns[n].post, turns[n].out)
            &&& n >= 1 ==> truthful(
                here_at(origin, turns, n - 1),
                turns[n - 1].out,
                turns[n].call,
            )
        }
}

/// How the place of the thread goes with the state of the request, in a run
/// that began in `origin`: outside a namespace the thread is in `origin`;
/// inside, it is in the namespace of the request, and the way back that the
/// handle has noted, or that the cache has just asked for, leads to `origin`.
pub open spec fn placed(s: State, here: u32, out: Option<Action>, origin: u32) -> bool {
    match s.pending {
        Pending::Idle => here == origin,
        Pending::Opening { .. } => here == origin,
        Pending::Entering { ns_inum, .. } => here == origin && out == Some(
            Action::Enter { ns_inum },
        ),
        Pending::Leaving { ns_inum, .. } => here == ns_inum && out == Some(
            Action::Exit { ns_inum, home: origin },
        ),
        _ => s.pending.entered() matches Some(i) && here == i && s.namespaces[i].ns.home == Some(
            origin,
        ),
    }
}

/// Containment, over whole runs. Take any run that begins with an idle cache
/// and the thread in namespace `origin`. Then after every turn the cache is
/// in order and the thread is placed as the state of the request says. In
/// particular, whenever the cache says `Done`, for a request that succeeded
/// as for one that failed, the thread is in `origin` again.
pub proof fn lemma_thread_comes_home(first: State, origin: u32, turns: Seq<Turn>, n: int)
    requires
        inv(first),
        first.pending is Idle,
        is_run(first, origin, turns),
        0 <= n < turns.len(),
    ensures
        inv(turns[n].post),
        placed(turns[n].post, here_at(origin, turns, n), turns[n].out, origin),
        turns[n].out matches Some(Action::Done(_)) ==> here_at(origin, turns, n) == origin,
    decreases n,
{
    let pre = state_at(first, turns, n);
    let t = turns[n];
    if n > 0 {
        lemma_thread_comes_home(first, origin, turns, n - 1);
        assert(turns[n - 1].out is Some);
    }
    assert(inv(pre));
    lemma_turn_keeps_inv(pre, t.call, t.post, t.out);
    lemma_done_is_outside_any(pre, t.call, t.post, t.out);
}

/// `Done` leaves the cache idle.
proof fn lemma_done_is_outside_any(pre: State, call: Call, post: State, out: Option<Action>)
    requires
        turn(pre, call, post, out),
    ensures
        out matches Some(Action::Done(_)) ==> post.pending is Idle,
{
}

/// The bound, over whole runs: at no point of a run does a cache made for at
/// least one record hold more records than it was made for.
pub proof fn lemma_run_is_bounded(first: State, origin: u32, turns: Seq<Turn>, n: int)
    requires
        inv(first),
        first.pending is Idle,
        is_run(first, origin, turns),
        0 <= n <= turns.len(),
    ensures
        state_at(first, turns, n).max_entries == first.max_entries,
        first.max_entries >= 1 ==> state_at(first, turns, n).entries.len() <= first.max_entries,
    decreases n,
{
    if n > 0 {
        lemma_run_is_bounded(first, origin, turns, n - 1);
        lemma_thread_comes_home(first, origin, turns, n - 1);
        if n > 1 {
            lemma_thread_comes_home(first, origin, turns, n - 2);
        }
        let pre = state_at(first, turns, n - 1);
        let t = turns[n - 1];
        lemma_bound_kept(pre, t.call, t.post, t.out);
    }
}

/// A host name that the registry holds at some point of a run is held, the
/// same, at every later point.
pub proof fn lemma_hostname_stays(first: State, origin: u32, turns: Seq<Turn>, i: u32, m: int, n: int)
    requires
        inv(first),
        first.pending is Idle,
        is_run(first, origin, turns),
        0 <= m <= n <= turns.len(),
        state_at(first, turns, m).namespaces.contains_key(i),
        state_at(first, turns, m).namespaces[i].hostname is Some,
    ensures
        state_at(first, turns, n).namespaces.contains_key(i),
        state_at(first, turns, n).namespaces[i].hostname == state_at(
            first,
            turns,
            m,
        ).namespaces[i].hostname,
    decreases n - m,
{
    if m < n {
        lemma_hostname_stays(first, origin, turns, i, m, n - 1);
        if n > 1 {
            lemma_thread_comes_home(first, origin, turns, n - 2);
        }
        let pre = state_at(first, turns, n - 1);
        let t = turns[n - 1];
        lemma_hostname_memoized(pre, t.call, t.post, t.out, i);
    }
}

/// The host name is read once, over whole runs: once the cache has taken
/// the content of `/etc/hostname` for a namespace, it never again asks to
/// enter that namespace for its name, nor waits for that content.
pub proof fn lemma_hostname_read_once(first: State, origin: u32, turns: Seq<Turn>, i: u32, m: int, n: int)
    requires
        inv(first),
        first.pending is Idle,
        is_run(first, origin, turns),
        0 <= m < n <= turns.len(),
        state_at(first, turns, m).pending == (Pending::Naming { ns_inum: i }),
        turns[m].call matches Call::Resume(Event::HostnameRead(_)),
    ensures
        state_at(first, turns, n).namespaces[i].hostname is Some,
        state_at(first, turns, n).pending.naming() != Some(i),
{
    if m > 0 {
        lemma_thread_comes_home(first, origin, turns, m - 1);
    }
    let pre = state_at(first, turns, m);
    let t = turns[m];
    assert(t.out is Some);
    assert(turn(pre, t.call, t.post, t.out));
    assert(state_at(first, turns, m + 1) == t.post);
    lemma_hostname_stays(first, origin, turns, i, m + 1, n);
    lemma_thread_comes_home(first, origin, turns, n - 1);
}

/// Key discrimination. Two keys are equal, as `==` has it, exactly when
/// they agree in all six of namespace, path, size and the three times. So
/// two keys that differ in any one of the six are two different keys.
pub proof fn lemma_key_discrimination(a: Key, b: Key)
    ensures
        a.eq_spec(&b) <==> {
            &&& a@.mnt_namespace == b@.mnt_namespace
            &&& a@.path == b@.path
            &&& a@.size == b@.size
            &&& a@.modified == b@.modified
            &&& a@.created == b@.created
            &&& a@.accessed == b@.accessed
        },
{
}

} // verus!
