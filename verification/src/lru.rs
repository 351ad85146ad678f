//! The bounded map from keys to digest records, with least-recently-used
//! eviction.
//!
//! The map itself is `lru_st::collections::LruHashMap`. What it holds is
//! described here as a sequence of entries, most recently used first, and
//! each of its operations as a function on such sequences. That the map
//! behaves as those functions say is taken on trust; what follows from them
//! is proved.

use crate::digest::Hashes;
use crate::key::{Key, KeyView};
use lru_st::collections::LruHashMap;
use vstd::prelude::*;

verus! {

/// `lru_st::collections::LruHashMap`. Nothing of its inside is known here;
/// what it holds is spoken of through the two names below.
#[verifier::external_type_specification]
#[verifier::external_body]
#[verifier::reject_recursive_types(K)]
#[verifier::reject_recursive_types(V)]
pub struct ExLruHashMap<K, V>(LruHashMap<K, V>);

/// The largest capacity a map may be made with. The map sets room aside for
/// all its entries at once when it is made, and does not come back from a
/// request for more room than there is: it panics where the size cannot be
/// counted, and the process ends where the room cannot be had. So the bound
/// has to stay with what a machine can give, not with what a `usize` can
/// count. A million entries, some hundred megabytes, are that on a machine
/// with a 32-bit address space as on one with 64 bits.
pub const MAX_ENTRIES: usize = 0x10_0000;

/// The entries of a map, most recently used first.
pub uninterp spec fn lru_entries(m: LruHashMap<Key, Hashes>) -> Seq<(Key, Hashes)>;

/// The number of entries that a map was made for.
pub uninterp spec fn lru_max_entries(m: LruHashMap<Key, Hashes>) -> nat;

/// Some entry of `s` has key `k`.
pub open spec fn holds(s: Seq<(Key, Hashes)>, k: KeyView) -> bool {
    exists|i: int| 0 <= i < s.len() && (#[trigger] s[i]).0@ == k
}

/// Position of the first entry of `s` with key `k`; the length of `s` where
/// there is none.
pub open spec fn position(s: Seq<(Key, Hashes)>, k: KeyView) -> int
    decreases s.len(),
{
    if s.len() == 0 {
        0
    } else if s[0].0@ == k {
        0
    } else {
        1 + position(s.drop_first(), k)
    }
}

/// `s` after a use of key `k`: its entry, if there is one, moves to the
/// front.
pub open spec fn touched(s: Seq<(Key, Hashes)>, k: KeyView) -> Seq<(Key, Hashes)> {
    if holds(s, k) {
        let i = position(s, k);
        seq![s[i]] + s.remove(i)
    } else {
        s
    }
}

/// `s` after `v` is stored under `k` in a map made for `cap` entries. A key
/// that is there already keeps its entry, which takes the new value and moves
/// to the front. Otherwise a new entry goes to the front, and where the map
/// held exactly `cap` entries the last one leaves first.
pub open spec fn stored(s: Seq<(Key, Hashes)>, cap: nat, k: Key, v: Hashes) -> Seq<(Key, Hashes)> {
    if holds(s, k@) {
        let i = position(s, k@);
        seq![(s[i].0, v)] + s.remove(i)
    } else if s.len() == cap && s.len() > 0 {
        seq![(k, v)] + s.drop_last()
    } else {
        seq![(k, v)] + s
    }
}

/// The entry that leaves when `k` is stored in `s`, if any.
pub open spec fn evicted(s: Seq<(Key, Hashes)>, cap: nat, k: Key) -> Option<(Key, Hashes)> {
    if !holds(s, k@) && s.len() == cap && s.len() > 0 {
        Some(s.last())
    } else {
        None
    }
}

/// `LruHashMap::with_max_entries`. Trusted: the new map is empty and made
/// for `cap` entries.
#[verifier::external_body]
pub(crate) fn lru_with_max_entries(cap: usize) -> (m: LruHashMap<Key, Hashes>)
    requires
        cap <= MAX_ENTRIES,
    ensures
        lru_entries(m) == Seq::<(Key, Hashes)>::empty(),
        lru_max_entries(m) == cap,
{
    LruHashMap::with_max_entries(cap)
}

/// `LruHashMap::len`. Trusted: the number of entries.
#[verifier::external_body]
pub(crate) fn lru_len(m: &LruHashMap<Key, Hashes>) -> (n: usize)
    ensures
        n == lru_entries(*m).len(),
{
    m.len()
}

/// `LruHashMap::cap`. Trusted: the number of entries the map was made for.
#[verifier::external_body]
pub(crate) fn lru_cap(m: &LruHashMap<Key, Hashes>) -> (n: usize)
    ensures
        n == lru_max_entries(*m),
{
    m.cap()
}

/// `LruHashMap::contains_key`. Trusted: tells whether the key has an entry;
/// an entry that is found counts as used and moves to the front.
#[verifier::external_body]
pub(crate) fn lru_contains_key(m: &mut LruHashMap<Key, Hashes>, k: &Key) -> (b: bool)
    ensures
        b == holds(lru_entries(*old(m)), k@),
        lru_entries(*final(m)) == touched(lru_entries(*old(m)), k@),
        lru_max_entries(*final(m)) == lru_max_entries(*old(m)),
{
    m.contains_key(k)
}

/// `LruHashMap::get`. Trusted: gives the value stored under the key, if
/// any; its entry then moves to the front.
#[verifier::external_body]
pub(crate) fn lru_get<'a>(m: &'a mut LruHashMap<Key, Hashes>, k: &Key) -> (v: Option<&'a Hashes>)
    ensures
        match v {
            Some(h) => holds(lru_entries(*old(m)), k@) && *h == lru_entries(*old(m))[position(
                lru_entries(*old(m)),
                k@,
            )].1,
            None => !holds(lru_entries(*old(m)), k@),
        },
        lru_entries(*final(m)) == touched(lru_entries(*old(m)), k@),
        lru_max_entries(*final(m)) == lru_max_entries(*old(m)),
{
    m.get(k)
}

/// `LruHashMap::insert`. Trusted: the entries afterwards are `stored` of the
/// entries before, and the result is the entry that had to leave.
#[verifier::external_body]
pub(crate) fn lru_insert(m: &mut LruHashMap<Key, Hashes>, k: Key, v: Hashes) -> (out: Option<
    (Key, Hashes),
>)
    ensures
        lru_entries(*final(m)) == stored(lru_entries(*old(m)), lru_max_entries(*old(m)), k, v),
        out == evicted(lru_entries(*old(m)), lru_max_entries(*old(m)), k),
        lru_max_entries(*final(m)) == lru_max_entries(*old(m)),
{
    m.insert(k, v)
}

/// `LruHashMap::keys`. Trusted: the keys come out most recently used
/// first, one for each entry; each is copied. The map does not change.
#[verifier::external_body]
pub(crate) fn lru_keys(m: &LruHashMap<Key, Hashes>) -> (keys: Vec<Key>)
    ensures
        keys@.len() == lru_entries(*m).len(),
        forall|i: int| 0 <= i < keys@.len() ==> (#[trigger] keys@[i])@ == lru_entries(*m)[i].0@,
{
    m.keys().map(|k| (*k).clone()).collect()
}

/// No two entries of `s` have the same key.
pub open spec fn distinct(s: Seq<(Key, Hashes)>) -> bool {
    forall|i: int, j: int|
        0 <= i < j < s.len() ==> (#[trigger] s[i]).0@ != (#[trigger] s[j]).0@
}

/// Where `s` holds `k`, `position` finds its first entry.
pub proof fn lemma_position(s: Seq<(Key, Hashes)>, k: KeyView)
    ensures
        0 <= position(s, k) <= s.len(),
        holds(s, k) <==> position(s, k) < s.len(),
        holds(s, k) ==> s[position(s, k)].0@ == k,
        forall|j: int| 0 <= j < position(s, k) ==> (#[trigger] s[j]).0@ != k,
    decreases s.len(),
{
    if s.len() == 0 {
    } else if s[0].0@ == k {
    } else {
        let rest = s.drop_first();
        lemma_position(rest, k);
        let p = position(rest, k);
        if holds(s, k) {
            let i = choose|i: int| 0 <= i < s.len() && (#[trigger] s[i]).0@ == k;
            assert(rest[i - 1] == s[i]);
        }
        if p < rest.len() {
            assert(rest[p] == s[p + 1]);
        }
        assert forall|j: int| 0 <= j < 1 + p implies (#[trigger] s[j]).0@ != k by {
            if j > 0 {
                assert(rest[j - 1] == s[j]);
            }
        }
    }
}

/// A use keeps the entries, their number and their distinctness, and leaves
/// the used key, if it is there, at the front.
pub proof fn lemma_touched(s: Seq<(Key, Hashes)>, k: KeyView)
    requires
        distinct(s),
    ensures
        distinct(touched(s, k)),
        touched(s, k).len() == s.len(),
        forall|q: KeyView| holds(touched(s, k), q) <==> holds(s, q),
        holds(s, k) ==> touched(s, k)[0] == s[position(s, k)],
{
    lemma_position(s, k);
    if holds(s, k) {
        let i = position(s, k);
        let t = touched(s, k);
        assert forall|a: int, b: int| 0 <= a < b < t.len() implies (#[trigger] t[a]).0@ != (
        #[trigger] t[b]).0@ by {
            let ia = if a == 0 {
                i
            } else if a - 1 < i {
                a - 1
            } else {
                a
            };
            let ib = if b - 1 < i {
                b - 1
            } else {
                b
            };
            assert(t[a] == s[ia]);
            assert(t[b] == s[ib]);
        }
        assert forall|q: KeyView| holds(t, q) <==> holds(s, q) by {
            if holds(t, q) {
                let a = choose|a: int| 0 <= a < t.len() && (#[trigger] t[a]).0@ == q;
                let ia = if a == 0 {
                    i
                } else if a - 1 < i {
                    a - 1
                } else {
                    a
                };
                assert(t[a] == s[ia]);
            }
            if holds(s, q) {
                let a = choose|a: int| 0 <= a < s.len() && (#[trigger] s[a]).0@ == q;
                let ta = if a == i {
                    0
                } else if a < i {
                    a + 1
                } else {
                    a
                };
                assert(t[ta] == s[a]);
            }
        }
    }
}

/// Storing keeps the entries distinct, never lets a map made for at least
/// one entry grow beyond what it was made for, and leaves the stored key at
/// the front with the value given.
pub proof fn lemma_stored(s: Seq<(Key, Hashes)>, cap: nat, k: Key, v: Hashes)
    requires
        distinct(s),
    ensures
        distinct(stored(s, cap, k, v)),
        stored(s, cap, k, v).len() >= 1,
        stored(s, cap, k, v)[0].0@ == k@,
        stored(s, cap, k, v)[0].1 == v,
        cap >= 1 && s.len() <= cap ==> stored(s, cap, k, v).len() <= cap,
        holds(s, k@) ==> stored(s, cap, k, v).len() == s.len(),
        forall|q: KeyView| holds(stored(s, cap, k, v), q) ==> q == k@ || holds(s, q),
{
    lemma_position(s, k@);
    let t = stored(s, cap, k, v);
    if holds(s, k@) {
        let i = position(s, k@);
        assert forall|a: int, b: int| 0 <= a < b < t.len() implies (#[trigger] t[a]).0@ != (
        #[trigger] t[b]).0@ by {
            let ia = if a == 0 {
                i
            } else if a - 1 < i {
                a - 1
            } else {
                a
            };
            let ib = if b - 1 < i {
                b - 1
            } else {
                b
            };
            assert(t[a].0@ == s[ia].0@);
            assert(t[b] == s[ib]);
        }
        assert forall|q: KeyView| holds(t, q) implies q == k@ || holds(s, q) by {
            let a = choose|a: int| 0 <= a < t.len() && (#[trigger] t[a]).0@ == q;
            if a > 0 {
                let ia = if a - 1 < i {
                    a - 1
                } else {
                    a
                };
                assert(t[a] == s[ia]);
            }
        }
    } else {
        assert forall|a: int, b: int| 0 <= a < b < t.len() implies (#[trigger] t[a]).0@ != (
        #[trigger] t[b]).0@ by {
            assert(t[b] == s[b - 1]);
            if a > 0 {
                assert(t[a] == s[a - 1]);
            }
        }
        assert forall|q: KeyView| holds(t, q) implies q == k@ || holds(s, q) by {
            let a = choose|a: int| 0 <= a < t.len() && (#[trigger] t[a]).0@ == q;
            if a > 0 {
                assert(t[a] == s[a - 1]);
            }
        }
    }
}

/// The entries after the first `n` of `items` have been stored, one after
/// the other, in `s`.
pub open spec fn stored_all(s: Seq<(Key, Hashes)>, cap: nat, items: Seq<(Key, Hashes)>, n: nat) -> Seq<
    (Key, Hashes),
>
    decreases n,
{
    if n == 0 {
        s
    } else {
        let before = stored_all(s, cap, items, (n - 1) as nat);
        stored(before, cap, items[n - 1].0, items[n - 1].1)
    }
}

/// No two of `items` have the same key, and none has key `k`.
pub open spec fn fresh(items: Seq<(Key, Hashes)>, k: KeyView) -> bool {
    &&& distinct(items)
    &&& !holds(items, k)
}

/// The entry at `n` is the first with key `k`.
proof fn lemma_position_is(s: Seq<(Key, Hashes)>, k: KeyView, n: int)
    requires
        0 <= n < s.len(),
        s[n].0@ == k,
        forall|j: int| 0 <= j < n ==> (#[trigger] s[j]).0@ != k,
    ensures
        holds(s, k),
        position(s, k) == n,
{
    lemma_position(s, k);
}

/// The bound: a map made for at least one entry never holds more than it was
/// made for, whatever is stored in it and in whatever order.
pub proof fn lemma_bound(cap: nat, items: Seq<(Key, Hashes)>, n: nat)
    requires
        cap >= 1,
        n <= items.len(),
    ensures
        distinct(stored_all(Seq::empty(), cap, items, n)),
        stored_all(Seq::empty(), cap, items, n).len() <= cap,
    decreases n,
{
    if n > 0 {
        lemma_bound(cap, items, (n - 1) as nat);
        let before = stored_all(Seq::empty(), cap, items, (n - 1) as nat);
        lemma_stored(before, cap, items[n - 1].0, items[n - 1].1);
    }
}

/// How an entry at the front ages. Let the entry with key `k` be at the
/// front of a map with room for `cap` entries, as it is right after it was
/// stored or used. Then each key stored after it, as long as these keys are
/// new to one another and none of them is `k`, moves it back by one place:
/// after `n` of them it is at place `n`, with those `n` keys before it, the
/// latest first. Since there are only `cap` places, the entry is still there
/// after fewer than `cap` such keys, and gone after `cap` of them.
pub proof fn lemma_front_ages(s: Seq<(Key, Hashes)>, cap: nat, k: KeyView, items: Seq<(Key, Hashes)>, n: nat)
    requires
        cap >= 1,
        distinct(s),
        1 <= s.len() <= cap,
        s[0].0@ == k,
        fresh(items, k),
        n <= items.len(),
    ensures
        distinct(stored_all(s, cap, items, n)),
        stored_all(s, cap, items, n).len() <= cap,
        n < cap ==> {
            &&& holds(stored_all(s, cap, items, n), k)
            &&& position(stored_all(s, cap, items, n), k) == n
            &&& forall|m: int|
                0 <= m < n ==> (#[trigger] stored_all(s, cap, items, n)[m]).0@ == items[n - 1
                    - m].0@
        },
        n >= cap ==> !holds(stored_all(s, cap, items, n), k),
    decreases n,
{
    let t = stored_all(s, cap, items, n);
    if n == 0 {
        lemma_position_is(s, k, 0);
    } else {
        let before = stored_all(s, cap, items, (n - 1) as nat);
        lemma_front_ages(s, cap, k, items, (n - 1) as nat);
        let o = items[n - 1];
        lemma_stored(before, cap, o.0, o.1);
        lemma_position(before, o.0@);
        lemma_position(before, k);
        assert(o.0@ != k);
        if n - 1 >= cap {
            // gone before, and nothing brings it back
        } else {
            // `k` is at place n - 1 of `before`, behind the keys stored since
            let at = n - 1;
            assert(before[at].0@ == k);
            assert forall|m: int| 0 <= m < at implies (#[trigger] before[m]).0@ != o.0@ by {
                assert(before[m].0@ == items[at - 1 - m].0@);
            }
            if holds(before, o.0@) {
                let i = position(before, o.0@);
                assert(i > at);
                assert forall|m: int| 0 <= m < n implies (#[trigger] t[m]).0@ == items[n - 1
                    - m].0@ by {
                    if m > 0 {
                        assert(t[m] == before[m - 1]);
                    }
                }
                assert(t[n as int] == before[at]);
                assert(n < cap);
                lemma_position_is(t, k, n as int);
            } else if before.len() == cap && at == before.len() - 1 {
                // the map is full and `k` is the last: it leaves
                assert(n == cap);
                assert forall|m: int| 0 <= m < t.len() implies (#[trigger] t[m]).0@ != k by {
                    if m > 0 {
                        assert(t[m] == before[m - 1]);
                    }
                }
            } else {
                assert forall|m: int| 0 <= m < n implies (#[trigger] t[m]).0@ == items[n - 1
                    - m].0@ by {
                    if m > 0 {
                        assert(t[m] == before[m - 1]);
                    }
                }
                assert(t[n as int] == before[at]);
                assert(n < cap);
                lemma_position_is(t, k, n as int);
            }
        }
    }
}

/// Recency, for a key that was stored: once `cap` other keys, new to one
/// another, have been stored after it, it is gone; before that it is still
/// there.
pub proof fn lemma_stored_then_evicted(s: Seq<(Key, Hashes)>, cap: nat, k: Key, v: Hashes, others: Seq<
    (Key, Hashes),
>, n: nat)
    requires
        cap >= 1,
        distinct(s),
        s.len() <= cap,
        fresh(others, k@),
        n <= others.len(),
    ensures
        n < cap ==> holds(stored_all(stored(s, cap, k, v), cap, others, n), k@),
        n >= cap ==> !holds(stored_all(stored(s, cap, k, v), cap, others, n), k@),
{
    lemma_stored(s, cap, k, v);
    lemma_front_ages(stored(s, cap, k, v), cap, k@, others, n);
}

/// Recency, for a key that was used: a use counts like storing. The entry
/// is at the front again and only `cap` further keys push it out.
pub proof fn lemma_touched_then_evicted(s: Seq<(Key, Hashes)>, cap: nat, k: KeyView, others: Seq<
    (Key, Hashes),
>, n: nat)
    requires
        cap >= 1,
        distinct(s),
        s.len() <= cap,
        holds(s, k),
        fresh(others, k),
        n <= others.len(),
    ensures
        n < cap ==> holds(stored_all(touched(s, k), cap, others, n), k),
        n >= cap ==> !holds(stored_all(touched(s, k), cap, others, n), k),
{
    lemma_touched(s, k);
    lemma_position(s, k);
    lemma_front_ages(touched(s, k), cap, k, others, n);
}

} // verus!
