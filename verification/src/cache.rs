//! The cache itself: a registry of mount namespaces and a bounded map from
//! file identities to digest records.
//!
//! Serving a request means switching mount namespace, looking at the file
//! system and reading files. None of that happens here. A request is a
//! dialogue instead: the cache says which step it needs next (an `Action`),
//! the caller carries the step out and reports what came of it (an `Event`),
//! until the cache says `Action::Done`. What the cache decides at each turn
//! is stated by the `*_step` relations below, and the properties that make
//! the dialogue safe are proved from them in `laws`.

use crate::digest::{Digester, Hashes, ReadError};
use crate::error::{Error, NsError};
use crate::hostname::{hostname_of, resolve_hostname};
use crate::key::{key_of, rejection, Key};
use crate::lru::{
    distinct, holds, lemma_position, lemma_stored, lemma_touched, lru_cap, lru_contains_key,
    lru_entries, lru_get, lru_insert, lru_keys, lru_len, lru_max_entries, lru_with_max_entries,
    position, stored, touched, MAX_ENTRIES,
};
use crate::namespace::MntNamespace;
use crate::path::{FileStat, Path};
use lru_st::collections::LruHashMap;
use std::collections::HashMap;
use vstd::prelude::*;

verus! {

broadcast use vstd::std_specs::hash::group_hash_axioms;

/// What the registry keeps for a namespace: its handle, and the host name
/// once it has been read.
#[derive(Debug, PartialEq, Eq)]
pub struct NsEntry {
    pub ns: MntNamespace,
    pub hostname: Option<String>,
}

/// What a request gives when it succeeds.
#[derive(Debug, PartialEq, Eq)]
pub enum Answer {
    /// `cache_ns`: the namespace is registered.
    Registered,
    /// `get_hostname`: the host name of the namespace.
    Hostname(String),
    /// `get_or_cache_in_ns`: the digests of the file.
    Hashes(Hashes),
}

/// The next thing the caller has to do for the request under way.
#[derive(Debug, PartialEq, Eq)]
pub enum Action {
    /// Open the mount-namespace link of process `pid` and report the inode
    /// number of the namespace behind it.
    Open { pid: i32 },
    /// Switch the thread into namespace `ns_inum` and report the inode
    /// number of the namespace it was in.
    Enter { ns_inum: u32 },
    /// Look `path` up in the file system and report what is there.
    Stat { path: String },
    /// Read the file at `path` through a `Digester` and report it.
    Digest { path: String },
    /// Read `/etc/hostname` and report its content.
    ReadHostname,
    /// Switch the thread out of namespace `ns_inum`, back into namespace
    /// `home`. A failure to do so must end the process.
    Exit { ns_inum: u32, home: u32 },
    /// The request is over and this is its result.
    Done(Result<Answer, Error>),
}

/// What the caller reports after carrying out an action.
pub enum Event {
    /// After `Action::Open`: the inode number found, or the refusal.
    Opened(Result<u32, String>),
    /// After `Action::Enter`: the inode number of the namespace that the
    /// thread was in before, or the refusal.
    Entered(Result<u32, String>),
    /// After `Action::Stat`.
    Stat(FileStat),
    /// After `Action::Digest`: the digester that was fed the file's whole
    /// content, or the reason why the file could not be read to its end.
    Digested(Result<Digester, ReadError>),
    /// After `Action::ReadHostname`: the file's content, or `None` where it
    /// could not be read.
    HostnameRead(Option<String>),
    /// After `Action::Exit`.
    Exited,
}

impl Event {
    pub open spec fn wf(self) -> bool {
        self matches Event::Digested(Ok(digester)) ==> digester.wf()
    }
}

/// Where the request under way stands: which report the cache waits for.
#[allow(inconsistent_fields)]
pub enum Pending {
    /// No request is under way.
    Idle,
    /// `cache_ns` waits for the namespace link to be opened.
    Opening { pid: i32, ns_inum: u32 },
    /// Waits for the switch into the namespace. `path` is the file to look
    /// at once inside, or `None` where the host name is wanted.
    Entering { ns_inum: u32, path: Option<Path> },
    /// Inside the namespace; waits for the look at `path`.
    Probing { ns_inum: u32, path: Path },
    /// Inside the namespace; waits for the digests of the file of `key`.
    Digesting { ns_inum: u32, key: Key },
    /// Inside the namespace; waits for the content of `/etc/hostname`.
    Naming { ns_inum: u32 },
    /// The work inside is over; waits for the switch back.
    Leaving { ns_inum: u32, outcome: Result<Answer, Error> },
}

impl Pending {
    /// The namespace that the request under way is about.
    pub open spec fn ns_inum(self) -> Option<u32> {
        match self {
            Pending::Idle => None,
            Pending::Opening { ns_inum, .. } => Some(ns_inum),
            Pending::Entering { ns_inum, .. } => Some(ns_inum),
            Pending::Probing { ns_inum, .. } => Some(ns_inum),
            Pending::Digesting { ns_inum, .. } => Some(ns_inum),
            Pending::Naming { ns_inum } => Some(ns_inum),
            Pending::Leaving { ns_inum, .. } => Some(ns_inum),
        }
    }

    /// The namespace that the thread is in on behalf of the request, while
    /// it is away from the namespace it came from.
    pub open spec fn inside(self) -> Option<u32> {
        match self {
            Pending::Probing { ns_inum, .. } => Some(ns_inum),
            Pending::Digesting { ns_inum, .. } => Some(ns_inum),
            Pending::Naming { ns_inum } => Some(ns_inum),
            Pending::Leaving { ns_inum, .. } => Some(ns_inum),
            _ => None,
        }
    }

    /// The namespace whose host name the request under way is going to
    /// read.
    pub open spec fn naming(self) -> Option<u32> {
        match self {
            Pending::Entering { ns_inum, path: None } => Some(ns_inum),
            Pending::Naming { ns_inum } => Some(ns_inum),
            _ => None,
        }
    }

    /// The namespace whose handle is entered: as `inside`, until the cache
    /// has asked for the switch back.
    pub open spec fn entered(self) -> Option<u32> {
        match self {
            Pending::Leaving { .. } => None,
            _ => self.inside(),
        }
    }
}

/// Everything the cache holds, as values.
pub struct State {
    /// The registry, by namespace inode number.
    pub namespaces: Map<u32, NsEntry>,
    /// The cached records, most recently used first.
    pub entries: Seq<(Key, Hashes)>,
    /// The number of records the cache was made for.
    pub max_entries: nat,
    pub pending: Pending,
}

/// What holds of the cache between any two calls.
pub open spec fn inv(s: State) -> bool {
    &&& forall|i: u32|
        s.namespaces.contains_key(i) ==> (#[trigger] s.namespaces[i]).ns.inum == i
    &&& forall|i: u32|
        s.namespaces.contains_key(i) ==> ((#[trigger] s.namespaces[i]).ns.home is Some
            <==> s.pending.entered() == Some(i))
    &&& s.pending.ns_inum() matches Some(i) ==> (s.pending is Opening
        <==> !s.namespaces.contains_key(i))
    &&& s.pending.naming() matches Some(i) ==> s.namespaces[i].hostname is None
    &&& distinct(s.entries)
    &&& s.max_entries >= 1 ==> s.entries.len() <= s.max_entries
}

/// `event` is the report that `pending` waits for.
pub open spec fn answers(pending: Pending, event: Event) -> bool {
    match (pending, event) {
        (Pending::Opening { .. }, Event::Opened(_)) => true,
        (Pending::Entering { .. }, Event::Entered(_)) => true,
        (Pending::Probing { .. }, Event::Stat(_)) => true,
        (Pending::Digesting { .. }, Event::Digested(_)) => true,
        (Pending::Naming { .. }, Event::HostnameRead(_)) => true,
        (Pending::Leaving { .. }, Event::Exited) => true,
        _ => false,
    }
}

/// `cache_ns` on an idle cache. A namespace that is registered already needs
/// nothing; for a new one the namespace link has to be opened.
pub open spec fn cache_ns_step(pre: State, pid: i32, ns_inum: u32, post: State, action: Action) -> bool {
    if pre.namespaces.contains_key(ns_inum) {
        &&& post == pre
        &&& action == Action::Done(Ok(Answer::Registered))
    } else {
        &&& post == (State { pending: Pending::Opening { pid, ns_inum }, ..pre })
        &&& action == (Action::Open { pid })
    }
}

/// `get_hostname` on an idle cache. A name that was read before is given
/// at once; otherwise the namespace has to be entered to read it.
pub open spec fn get_hostname_step(pre: State, ns_inum: u32, post: State, action: Action) -> bool {
    if !pre.namespaces.contains_key(ns_inum) {
        &&& post == pre
        &&& action == Action::Done(Err(Error::UnknownNs(ns_inum)))
    } else if let Some(name) = pre.namespaces[ns_inum].hostname {
        &&& post == pre
        &&& action == Action::Done(Ok(Answer::Hostname(name)))
    } else {
        &&& post == (State { pending: Pending::Entering { ns_inum, path: None }, ..pre })
        &&& action == (Action::Enter { ns_inum })
    }
}

/// `get_or_cache_in_ns` on an idle cache: the namespace has to be entered
/// before anything can be said about the file.
pub open spec fn get_or_cache_step(pre: State, ns_inum: u32, path: Path, post: State, action: Action) -> bool {
    if !pre.namespaces.contains_key(ns_inum) {
        &&& post == pre
        &&& action == Action::Done(Err(Error::UnknownNs(ns_inum)))
    } else {
        &&& post == (State { pending: Pending::Entering { ns_inum, path: Some(path) }, ..pre })
        &&& action == (Action::Enter { ns_inum })
    }
}

/// The namespace link was opened, or not. The namespace is registered where
/// the link leads to it.
pub open spec fn opened_step(pre: State, pid: i32, ns_inum: u32, link: Result<u32, String>, post: State, action: Action) -> bool {
    match MntNamespace::opened(pid, ns_inum, link) {
        Ok(ns) => {
            &&& post == (State {
                namespaces: pre.namespaces.insert(ns_inum, NsEntry { ns, hostname: None }),
                pending: Pending::Idle,
                ..pre
            })
            &&& action == Action::Done(Ok(Answer::Registered))
        },
        Err(e) => {
            &&& post == (State { pending: Pending::Idle, ..pre })
            &&& action == Action::Done(Err(Error::Namespace(e)))
        },
    }
}

/// The registry of `s` with the handle of `ns_inum` marked as entered from
/// `home`, or as not entered.
pub open spec fn with_home(s: State, ns_inum: u32, home: Option<u32>) -> Map<u32, NsEntry> {
    s.namespaces.insert(
        ns_inum,
        NsEntry {
            ns: MntNamespace { home, ..s.namespaces[ns_inum].ns },
            hostname: s.namespaces[ns_inum].hostname,
        },
    )
}

/// The switch into the namespace happened, or not. Where it did not, the
/// request fails and nothing more is done. Where it did, the handle notes
/// where the thread came from and the work inside begins.
pub open spec fn entered_step(pre: State, ns_inum: u32, path: Option<Path>, switch: Result<u32, String>, post: State, action: Action) -> bool {
    match switch {
        Err(refusal) => {
            &&& post == (State { pending: Pending::Idle, ..pre })
            &&& action == Action::Done(Err(Error::Namespace(NsError::Os(refusal))))
        },
        Ok(home) => match path {
            Some(path) => {
                &&& post == (State {
                    namespaces: with_home(pre, ns_inum, Some(home)),
                    pending: Pending::Probing { ns_inum, path },
                    ..pre
                })
                &&& action == (Action::Stat { path: path.path })
            },
            None => {
                &&& post == (State {
                    namespaces: with_home(pre, ns_inum, Some(home)),
                    pending: Pending::Naming { ns_inum },
                    ..pre
                })
                &&& action == Action::ReadHostname
            },
        },
    }
}

/// The file was looked at. A file that is not the one the kernel saw ends
/// the request with the reason and leaves the records alone. A file whose
/// record is cached is answered from the cache, which counts as a use of
/// the record. Any other file has to be read.
pub open spec fn probed_step(pre: State, ns_inum: u32, path: Path, stat: FileStat, post: State, action: Action) -> bool {
    let home = pre.namespaces[ns_inum].ns.home->Some_0;
    let k = key_of(ns_inum, path);
    match rejection(path, stat) {
        Some(e) => {
            &&& post == (State {
                namespaces: with_home(pre, ns_inum, None),
                pending: Pending::Leaving { ns_inum, outcome: Err(e) },
                ..pre
            })
            &&& action == (Action::Exit { ns_inum, home })
        },
        None => if holds(pre.entries, k) {
            let cached = pre.entries[position(pre.entries, k)].1;
            &&& post == (State {
                namespaces: with_home(pre, ns_inum, None),
                entries: touched(pre.entries, k),
                pending: Pending::Leaving { ns_inum, outcome: Ok(Answer::Hashes(cached)) },
                ..pre
            })
            &&& action == (Action::Exit { ns_inum, home })
        } else {
            &&& post.namespaces == pre.namespaces
            &&& post.entries == pre.entries
            &&& post.max_entries == pre.max_entries
            &&& post.pending matches Pending::Digesting { ns_inum: n, key }
            &&& n == ns_inum
            &&& key@ == k
            &&& action matches Action::Digest { path: p }
            &&& p@ == path.path@
        },
    }
}

/// The record that reading a file gives: that of the bytes that went through
/// the digester, where the file was read to its end, and the record without
/// digests where it was not.
pub open spec fn is_record_of(h: Hashes, path: Seq<char>, read: Result<Digester, ReadError>) -> bool {
    &&& h.file@ == path
    &&& match read {
        Ok(digester) => h.is_reading_of(digester@),
        Err(why) => h.is_failure(why),
    }
}

/// The file was read, or could not be. Either way its record is stored
/// under the key, at the front, and is the answer.
pub open spec fn digested_step(pre: State, ns_inum: u32, key: Key, read: Result<Digester, ReadError>, post: State, action: Action) -> bool {
    let home = pre.namespaces[ns_inum].ns.home->Some_0;
    &&& post.entries.len() >= 1
    &&& is_record_of(post.entries[0].1, key@.path, read)
    &&& post == (State {
        namespaces: with_home(pre, ns_inum, None),
        entries: stored(pre.entries, pre.max_entries, key, post.entries[0].1),
        pending: Pending::Leaving { ns_inum, outcome: Ok(Answer::Hashes(post.entries[0].1)) },
        ..pre
    })
    &&& action == (Action::Exit { ns_inum, home })
}

/// `/etc/hostname` was read, or not. The name is kept with the namespace
/// from now on, and is the answer.
pub open spec fn named_step(pre: State, ns_inum: u32, text: Option<String>, post: State, action: Action) -> bool {
    let home = pre.namespaces[ns_inum].ns.home->Some_0;
    &&& post.namespaces.contains_key(ns_inum)
    &&& post.namespaces[ns_inum].hostname matches Some(name)
    &&& name@ == hostname_of(text)
    &&& post == (State {
        namespaces: pre.namespaces.insert(
            ns_inum,
            NsEntry {
                ns: MntNamespace { home: None, ..pre.namespaces[ns_inum].ns },
                hostname: Some(name),
            },
        ),
        pending: Pending::Leaving { ns_inum, outcome: Ok(Answer::Hostname(name)) },
        ..pre
    })
    &&& action == (Action::Exit { ns_inum, home })
}

/// The thread is back where it came from: the request is over.
pub open spec fn exited_step(pre: State, outcome: Result<Answer, Error>, post: State, action: Action) -> bool {
    &&& post == (State { pending: Pending::Idle, ..pre })
    &&& action == Action::Done(outcome)
}

/// What the cache does with a report that it waits for.
pub open spec fn resume_step(pre: State, event: Event, post: State, action: Action) -> bool {
    match (pre.pending, event) {
        (Pending::Opening { pid, ns_inum }, Event::Opened(link)) => opened_step(
            pre,
            pid,
            ns_inum,
            link,
            post,
            action,
        ),
        (Pending::Entering { ns_inum, path }, Event::Entered(switch)) => entered_step(
            pre,
            ns_inum,
            path,
            switch,
            post,
            action,
        ),
        (Pending::Probing { ns_inum, path }, Event::Stat(stat)) => probed_step(
            pre,
            ns_inum,
            path,
            stat,
            post,
            action,
        ),
        (Pending::Digesting { ns_inum, key }, Event::Digested(read)) => digested_step(
            pre,
            ns_inum,
            key,
            read,
            post,
            action,
        ),
        (Pending::Naming { ns_inum }, Event::HostnameRead(text)) => named_step(
            pre,
            ns_inum,
            text,
            post,
            action,
        ),
        (Pending::Leaving { outcome, .. }, Event::Exited) => exited_step(
            pre,
            outcome,
            post,
            action,
        ),
        _ => false,
    }
}

/// Once the handle of `ns_inum` is marked as left and the request is in its
/// last stage, the registry is in order again.
proof fn lemma_left(pre: State, post: State, ns_inum: u32)
    requires
        inv(pre),
        pre.pending.entered() == Some(ns_inum),
        post.namespaces.dom() =~= pre.namespaces.dom(),
        forall|i: u32|
            pre.namespaces.contains_key(i) && i != ns_inum ==> #[trigger] post.namespaces[i]
                == pre.namespaces[i],
        post.namespaces[ns_inum].ns == (MntNamespace { home: None, ..pre.namespaces[ns_inum].ns }),
        post.pending is Leaving,
        post.pending.ns_inum() == Some(ns_inum),
    ensures
        forall|i: u32|
            post.namespaces.contains_key(i) ==> (#[trigger] post.namespaces[i]).ns.inum == i,
        forall|i: u32|
            post.namespaces.contains_key(i) ==> ((#[trigger] post.namespaces[i]).ns.home is Some
                <==> post.pending.entered() == Some(i)),
        post.pending.ns_inum() matches Some(i) ==> (post.pending is Opening
            <==> !post.namespaces.contains_key(i)),
{
    assert forall|i: u32| post.namespaces.contains_key(i) implies (
    #[trigger] post.namespaces[i]).ns.inum == i && (post.namespaces[i].ns.home is Some
        <==> post.pending.entered() == Some(i)) by {
        assert(pre.namespaces.contains_key(i));
        if i != ns_inum {
            assert(post.namespaces[i] == pre.namespaces[i]);
        }
    }
}

pub struct Cache {
    ns: HashMap<u32, NsEntry>,
    hcache: LruHashMap<Key, Hashes>,
    pending: Pending,
}

impl View for Cache {
    type V = State;

    closed spec fn view(&self) -> State {
        State {
            namespaces: self.ns@,
            entries: lru_entries(self.hcache),
            max_entries: lru_max_entries(self.hcache),
            pending: self.pending,
        }
    }
}

impl Cache {
    pub open spec fn wf(&self) -> bool {
        inv(self@)
    }

    /// What the cache holds while `pending` is taken out of it.
    spec fn with_pending(&self, pending: Pending) -> State {
        State { pending, ..self@ }
    }

    /// What a new cache made for `cap` records holds: nothing.
    pub open spec fn empty(cap: usize) -> State {
        State {
            namespaces: Map::<u32, NsEntry>::empty(),
            entries: Seq::<(Key, Hashes)>::empty(),
            max_entries: cap as nat,
            pending: Pending::Idle,
        }
    }

    /// An empty cache made for `cap` records, with no namespace registered.
    /// Room for all the records is set aside at once, which is why `cap`
    /// may not be beyond `MAX_ENTRIES`; `try_with_max_entries` takes any
    /// capacity. A cache made for no record at all is not bounded: the map
    /// underneath makes room only when it holds exactly as many records as
    /// it was made for, and a map made for none holds one after the first
    /// and is never at that point again.
    pub fn with_max_entries(cap: usize) -> (c: Cache)
        requires
            cap <= MAX_ENTRIES,
        ensures
            c.wf(),
            c@ == Self::empty(cap),
    {
        Cache { ns: HashMap::new(), hcache: lru_with_max_entries(cap), pending: Pending::Idle }
    }

    /// As `with_max_entries`, for any capacity: no cache is made where `cap`
    /// is beyond `MAX_ENTRIES`.
    pub fn try_with_max_entries(cap: usize) -> (c: Option<Cache>)
        ensures
            match c {
                Some(c) => cap <= MAX_ENTRIES && c.wf() && c@ == Self::empty(cap),
                None => cap > MAX_ENTRIES,
            },
    {
        if cap <= MAX_ENTRIES {
            Some(Cache::with_max_entries(cap))
        } else {
            None
        }
    }

    /// Number of records held.
    pub fn len(&self) -> (n: usize)
        ensures
            n == self@.entries.len(),
    {
        lru_len(&self.hcache)
    }

    /// Number of records the cache was made for.
    pub fn cap(&self) -> (n: usize)
        ensures
            n == self@.max_entries,
    {
        lru_cap(&self.hcache)
    }

    /// Whether no request is under way.
    pub fn is_idle(&self) -> (b: bool)
        ensures
            b == (self@.pending is Idle),
    {
        match &self.pending {
            Pending::Idle => true,
            _ => false,
        }
    }

    /// Whether namespace `ns_inum` is registered.
    pub fn knows_ns(&self, ns_inum: u32) -> (b: bool)
        ensures
            b == self@.namespaces.contains_key(ns_inum),
    {
        self.ns.contains_key(&ns_inum)
    }

    /// The keys of the records held, most recently used first. Looking at
    /// them is no use of any record.
    pub fn keys(&self) -> (keys: Vec<Key>)
        ensures
            keys@.len() == self@.entries.len(),
            forall|i: int| 0 <= i < keys@.len() ==> (#[trigger] keys@[i])@ == self@.entries[i].0@,
    {
        lru_keys(&self.hcache)
    }

    /// Whether a record is held under `key`. A look; no use of the record.
    pub fn contains(&self, key: &Key) -> (b: bool)
        ensures
            b == holds(self@.entries, key@),
    {
        let keys = lru_keys(&self.hcache);
        let mut i: usize = 0;
        while i < keys.len()
            invariant
                i <= keys@.len(),
                keys@.len() == lru_entries(self.hcache).len(),
                forall|j: int|
                    0 <= j < keys@.len() ==> (#[trigger] keys@[j])@ == lru_entries(
                        self.hcache,
                    )[j].0@,
                forall|j: int| 0 <= j < i ==> (#[trigger] lru_entries(self.hcache)[j]).0@ != key@,
            decreases keys@.len() - i,
        {
            if keys[i] == *key {
                assert(lru_entries(self.hcache)[i as int].0@ == key@);
                return true;
            }
            i = i + 1;
        }
        false
    }

    /// Registers namespace `ns_inum`, reached through process `pid`. Gives
    /// `None`, and changes nothing, while another request is under way.
    pub fn cache_ns(&mut self, pid: i32, ns_inum: u32) -> (r: Option<Action>)
        requires
            old(self).wf(),
        ensures
            final(self).wf(),
            match r {
                Some(action) => old(self)@.pending is Idle && cache_ns_step(
                    old(self)@,
                    pid,
                    ns_inum,
                    final(self)@,
                    action,
                ),
                None => old(self)@.pending !is Idle && final(self)@ == old(self)@,
            },
    {
        if !self.is_idle() {
            return None;
        }
        if self.ns.contains_key(&ns_inum) {
            Some(Action::Done(Ok(Answer::Registered)))
        } else {
            self.pending = Pending::Opening { pid, ns_inum };
            Some(Action::Open { pid })
        }
    }

    /// Asks for the host name of namespace `ns_inum`. Gives `None`, and
    /// changes nothing, while another request is under way.
    pub fn get_hostname(&mut self, ns_inum: u32) -> (r: Option<Action>)
        requires
            old(self).wf(),
        ensures
            final(self).wf(),
            match r {
                Some(action) => old(self)@.pending is Idle && get_hostname_step(
                    old(self)@,
                    ns_inum,
                    final(self)@,
                    action,
                ),
                None => old(self)@.pending !is Idle && final(self)@ == old(self)@,
            },
    {
        if !self.is_idle() {
            return None;
        }
        match self.ns.get(&ns_inum) {
            None => Some(Action::Done(Err(Error::UnknownNs(ns_inum)))),
            Some(entry) => match &entry.hostname {
                Some(name) => Some(Action::Done(Ok(Answer::Hostname(name.clone())))),
                None => {
                    self.pending = Pending::Entering { ns_inum, path: None };
                    Some(Action::Enter { ns_inum })
                },
            },
        }
    }

    /// Asks for the digests of the file that a kernel event points at, in
    /// namespace `ns_inum`. Gives `None`, and changes nothing, while another
    /// request is under way.
    pub fn get_or_cache_in_ns(&mut self, ns_inum: u32, path: Path) -> (r: Option<Action>)
        requires
            old(self).wf(),
        ensures
            final(self).wf(),
            match r {
                Some(action) => old(self)@.pending is Idle && get_or_cache_step(
                    old(self)@,
                    ns_inum,
                    path,
                    final(self)@,
                    action,
                ),
                None => old(self)@.pending !is Idle && final(self)@ == old(self)@,
            },
    {
        if !self.is_idle() {
            return None;
        }
        if !self.ns.contains_key(&ns_inum) {
            Some(Action::Done(Err(Error::UnknownNs(ns_inum))))
        } else {
            self.pending = Pending::Entering { ns_inum, path: Some(path) };
            Some(Action::Enter { ns_inum })
        }
    }

    /// Takes the report on the action that was asked for last and says what
    /// comes next. Gives `None`, and changes nothing, where `event` is not
    /// the report that the cache waits for.
    pub fn resume(&mut self, event: Event) -> (r: Option<Action>)
        requires
            old(self).wf(),
            event.wf(),
        ensures
            final(self).wf(),
            match r {
                Some(action) => answers(old(self)@.pending, event) && resume_step(
                    old(self)@,
                    event,
                    final(self)@,
                    action,
                ),
                None => !answers(old(self)@.pending, event) && final(self)@ == old(self)@,
            },
    {
        let mut pending = Pending::Idle;
        core::mem::swap(&mut self.pending, &mut pending);
        match (pending, event) {
            (Pending::Opening { pid, ns_inum }, Event::Opened(link)) => Some(
                self.opened(pid, ns_inum, link),
            ),
            (Pending::Entering { ns_inum, path }, Event::Entered(switch)) => Some(
                self.entered(ns_inum, path, switch),
            ),
            (Pending::Probing { ns_inum, path }, Event::Stat(stat)) => Some(
                self.probed(ns_inum, path, stat),
            ),
            (Pending::Digesting { ns_inum, key }, Event::Digested(read)) => Some(
                self.digested(ns_inum, key, read),
            ),
            (Pending::Naming { ns_inum }, Event::HostnameRead(text)) => Some(
                self.named(ns_inum, text),
            ),
            (Pending::Leaving { ns_inum, outcome }, Event::Exited) => Some(Action::Done(outcome)),
            (pending, _) => {
                self.pending = pending;
                None
            },
        }
    }

    fn opened(&mut self, pid: i32, ns_inum: u32, link: Result<u32, String>) -> (action: Action)
        requires
            old(self).pending is Idle,
            inv(old(self).with_pending(Pending::Opening { pid, ns_inum })),
        ensures
            inv(final(self)@),
            opened_step(
                old(self).with_pending(Pending::Opening { pid, ns_inum }),
                pid,
                ns_inum,
                link,
                final(self)@,
                action,
            ),
    {
        match MntNamespace::open_with_procfs(pid, ns_inum, link) {
            Ok(ns) => {
                self.ns.insert(ns_inum, NsEntry { ns, hostname: None });
                Action::Done(Ok(Answer::Registered))
            },
            Err(e) => Action::Done(Err(Error::Namespace(e))),
        }
    }

    /// Marks the handle of `ns_inum` as entered from `home`.
    fn enter_ns(&mut self, ns_inum: u32, home: u32)
        requires
            old(self).ns@.contains_key(ns_inum),
            old(self).ns@[ns_inum].ns.home is None,
        ensures
            final(self).ns@ == with_home(old(self)@, ns_inum, Some(home)),
            final(self).hcache == old(self).hcache,
            final(self).pending == old(self).pending,
    {
        match self.ns.remove(&ns_inum) {
            Some(entry) => {
                let mut entry = entry;
                let _ = entry.ns.enter(home);
                self.ns.insert(ns_inum, entry);
                assert(self.ns@ =~= with_home(old(self)@, ns_inum, Some(home)));
            },
            None => {
                assert(false);
            },
        }
    }

    /// Marks the handle of `ns_inum` as left, with `hostname` as the name
    /// to keep, and tells where the thread has to be put back.
    fn leave_ns(&mut self, ns_inum: u32, hostname: Option<String>) -> (home: u32)
        requires
            old(self).ns@.contains_key(ns_inum),
            old(self).ns@[ns_inum].ns.home is Some,
        ensures
            Some(home) == old(self).ns@[ns_inum].ns.home,
            final(self).ns@ == old(self).ns@.insert(
                ns_inum,
                NsEntry {
                    ns: MntNamespace { home: None, ..old(self).ns@[ns_inum].ns },
                    hostname: if hostname is Some {
                        hostname
                    } else {
                        old(self).ns@[ns_inum].hostname
                    },
                },
            ),
            final(self).hcache == old(self).hcache,
            final(self).pending == old(self).pending,
    {
        match self.ns.remove(&ns_inum) {
            Some(entry) => {
                let mut entry = entry;
                let home = match entry.ns.exit() {
                    Ok(home) => home,
                    Err(_) => {
                        assert(false);
                        0
                    },
                };
                if hostname.is_some() {
                    entry.hostname = hostname;
                }
                self.ns.insert(ns_inum, entry);
                assert(self.ns@ =~= old(self).ns@.insert(
                    ns_inum,
                    NsEntry {
                        ns: MntNamespace { home: None, ..old(self).ns@[ns_inum].ns },
                        hostname: if hostname is Some {
                            hostname
                        } else {
                            old(self).ns@[ns_inum].hostname
                        },
                    },
                ));
                home
            },
            None => {
                assert(false);
                0
            },
        }
    }

    fn entered(&mut self, ns_inum: u32, path: Option<Path>, switch: Result<u32, String>) -> (action:
        Action)
        requires
            old(self).pending is Idle,
            inv(old(self).with_pending(Pending::Entering { ns_inum, path })),
        ensures
            inv(final(self)@),
            entered_step(
                old(self).with_pending(Pending::Entering { ns_inum, path }),
                ns_inum,
                path,
                switch,
                final(self)@,
                action,
            ),
    {
        let ghost pre = self.with_pending(Pending::Entering { ns_inum, path });
        match switch {
            Err(refusal) => Action::Done(Err(Error::Namespace(NsError::Os(refusal)))),
            Ok(home) => {
                assert(pre.namespaces.contains_key(ns_inum));
                assert(pre.namespaces[ns_inum].ns.home is None);
                self.enter_ns(ns_inum, home);
                match path {
                    Some(path) => {
                        let to_stat = path.path.clone();
                        self.pending = Pending::Probing { ns_inum, path };
                        assert(inv(self@)) by {
                            assert forall|i: u32| self@.namespaces.contains_key(i) implies (
                            #[trigger] self@.namespaces[i]).ns.inum == i && (
                            self@.namespaces[i].ns.home is Some <==> self@.pending.entered()
                                == Some(i)) by {
                                if i != ns_inum {
                                    assert(pre.namespaces.contains_key(i));
                                }
                            }
                        }
                        Action::Stat { path: to_stat }
                    },
                    None => {
                        self.pending = Pending::Naming { ns_inum };
                        assert(inv(self@)) by {
                            assert forall|i: u32| self@.namespaces.contains_key(i) implies (
                            #[trigger] self@.namespaces[i]).ns.inum == i && (
                            self@.namespaces[i].ns.home is Some <==> self@.pending.entered()
                                == Some(i)) by {
                                if i != ns_inum {
                                    assert(pre.namespaces.contains_key(i));
                                }
                            }
                        }
                        Action::ReadHostname
                    },
                }
            },
        }
    }

    fn probed(&mut self, ns_inum: u32, path: Path, stat: FileStat) -> (action: Action)
        requires
            old(self).pending is Idle,
            inv(old(self).with_pending(Pending::Probing { ns_inum, path })),
        ensures
            inv(final(self)@),
            probed_step(
                old(self).with_pending(Pending::Probing { ns_inum, path }),
                ns_inum,
                path,
                stat,
                final(self)@,
                action,
            ),
    {
        let ghost pre = self.with_pending(Pending::Probing { ns_inum, path });
        assert(pre.namespaces.contains_key(ns_inum));
        assert(pre.namespaces[ns_inum].ns.home is Some);
        let made = match self.ns.get(&ns_inum) {
            Some(entry) => Key::from_ebpf_path_ref_with_ns(&entry.ns, &path, &stat),
            None => {
                assert(false);
                Err(Error::UnknownNs(ns_inum))
            },
        };
        match made {
            Err(e) => {
                let home = self.leave_ns(ns_inum, None);
                self.pending = Pending::Leaving { ns_inum, outcome: Err(e) };
                proof {
                    assert(self@.namespaces =~= with_home(pre, ns_inum, None));
                    lemma_left(pre, self@, ns_inum);
                }
                Action::Exit { ns_inum, home }
            },
            Ok(key) => {
                proof {
                    lemma_touched(pre.entries, key@);
                    lemma_position(pre.entries, key@);
                }
                if lru_contains_key(&mut self.hcache, &key) {
                    proof {
                        lemma_touched(self@.entries, key@);
                        lemma_position(self@.entries, key@);
                    }
                    let cached = match lru_get(&mut self.hcache, &key) {
                        Some(h) => h.clone(),
                        None => {
                            assert(false);
                            Hashes::default()
                        },
                    };
                    assert(lru_entries(self.hcache) == touched(pre.entries, key@)) by {
                        let once = touched(pre.entries, key@);
                        assert(position(once, key@) == 0);
                        assert(touched(once, key@) =~= once);
                    }
                    let home = self.leave_ns(ns_inum, None);
                    self.pending = Pending::Leaving {
                        ns_inum,
                        outcome: Ok(Answer::Hashes(cached)),
                    };
                    proof {
                        assert(self@.namespaces =~= with_home(pre, ns_inum, None));
                        lemma_left(pre, self@, ns_inum);
                    }
                    Action::Exit { ns_inum, home }
                } else {
                    let to_read = key.path().to_owned();
                    self.pending = Pending::Digesting { ns_inum, key };
                    Action::Digest { path: to_read }
                }
            },
        }
    }

    fn digested(&mut self, ns_inum: u32, key: Key, read: Result<Digester, ReadError>) -> (action: Action)
        requires
            old(self).pending is Idle,
            inv(old(self).with_pending(Pending::Digesting { ns_inum, key })),
            read matches Ok(digester) ==> digester.wf(),
        ensures
            inv(final(self)@),
            digested_step(
                old(self).with_pending(Pending::Digesting { ns_inum, key }),
                ns_inum,
                key,
                read,
                final(self)@,
                action,
            ),
    {
        let ghost pre = self.with_pending(Pending::Digesting { ns_inum, key });
        assert(pre.namespaces.contains_key(ns_inum));
        assert(pre.namespaces[ns_inum].ns.home is Some);
        let record = match read {
            Ok(digester) => digester.finish(key.path()),
            Err(why) => Hashes::failed(key.path(), why),
        };
        let ghost stored_record = record;
        proof {
            lemma_stored(pre.entries, pre.max_entries, key, record);
        }
        let _ = lru_insert(&mut self.hcache, key.clone(), record);
        proof {
            lemma_position(self@.entries, key@);
            lemma_touched(self@.entries, key@);
        }
        let answer = match lru_get(&mut self.hcache, &key) {
            Some(h) => h.clone(),
            None => {
                assert(false);
                Hashes::default()
            },
        };
        assert(lru_entries(self.hcache) == stored(
            pre.entries,
            pre.max_entries,
            key,
            stored_record,
        )) by {
            let once = stored(pre.entries, pre.max_entries, key, stored_record);
            assert(position(once, key@) == 0);
            assert(touched(once, key@) =~= once);
        }
        let home = self.leave_ns(ns_inum, None);
        self.pending = Pending::Leaving { ns_inum, outcome: Ok(Answer::Hashes(answer)) };
        proof {
            assert(self@.namespaces =~= with_home(pre, ns_inum, None));
            lemma_left(pre, self@, ns_inum);
        }
        Action::Exit { ns_inum, home }
    }

    fn named(&mut self, ns_inum: u32, text: Option<String>) -> (action: Action)
        requires
            old(self).pending is Idle,
            inv(old(self).with_pending(Pending::Naming { ns_inum })),
        ensures
            inv(final(self)@),
            named_step(
                old(self).with_pending(Pending::Naming { ns_inum }),
                ns_inum,
                text,
                final(self)@,
                action,
            ),
    {
        let ghost pre = self.with_pending(Pending::Naming { ns_inum });
        assert(pre.namespaces.contains_key(ns_inum));
        assert(pre.namespaces[ns_inum].ns.home is Some);
        let name = resolve_hostname(&text);
        let answer = name.clone();
        let home = self.leave_ns(ns_inum, Some(name));
        self.pending = Pending::Leaving { ns_inum, outcome: Ok(Answer::Hostname(answer)) };
        proof {
            lemma_left(pre, self@, ns_inum);
        }
        Action::Exit { ns_inum, home }
    }
}

} // verus!
