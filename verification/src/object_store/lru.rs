//! The LRU cache of the object store: `clru::CLruCache` keyed by object id,
//! weighted by object size.
//!
//! The model of a cache is the sequence of its entries, most recently used
//! first, and the capacity it was made with. The capacity bounds the number
//! of entries plus their total weight.

use super::types::StoredObject;
use clru::{CLruCache, WeightScale};
use std::collections::hash_map::RandomState;
use std::num::NonZeroUsize;
use vstd::prelude::*;

verus! {

/// Weighs a cached object by its recorded size.
pub struct ObjectWeight;

impl WeightScale<u64, StoredObject> for ObjectWeight {
    fn weight(&self, _key: &u64, value: &StoredObject) -> (w: usize)
        ensures
            w == value.weight(),
    {
        value.metadata.size
    }
}

/// The cache itself, kept in a field of its own and reached only through
/// the functions below, whose contracts describe it by `lru_entries` and
/// `lru_capacity`.
#[verifier::external_body]
pub struct LruCache {
    inner: CLruCache<u64, StoredObject, RandomState, ObjectWeight>,
}

/// The entries of a cache, most recently used first.
pub uninterp spec fn lru_entries(c: LruCache) -> Seq<(u64, StoredObject)>;

/// The capacity that a cache was made with.
pub uninterp spec fn lru_capacity(c: LruCache) -> nat;

/// No key occurs twice among the entries.
pub open spec fn keys_unique(s: Seq<(u64, StoredObject)>) -> bool {
    forall|i: int, j: int| 0 <= i < s.len() && 0 <= j < s.len() && i != j ==> s[i].0 != s[j].0
}

/// Some entry has the key.
pub open spec fn has_key(s: Seq<(u64, StoredObject)>, k: u64) -> bool {
    exists|i: int| 0 <= i < s.len() && s[i].0 == k
}

/// The total weight of the entries.
pub open spec fn weight_of(s: Seq<(u64, StoredObject)>) -> nat
    decreases s.len(),
{
    if s.len() == 0 {
        0
    } else {
        s[0].1.weight() + weight_of(s.drop_first())
    }
}

/// The entries without the one that has key `k`.
pub open spec fn remove_key(s: Seq<(u64, StoredObject)>, k: u64) -> Seq<(u64, StoredObject)>
    decreases s.len(),
{
    if s.len() == 0 {
        s
    } else if s[0].0 == k {
        remove_key(s.drop_first(), k)
    } else {
        seq![s[0]] + remove_key(s.drop_first(), k)
    }
}

/// The object stored under key `k`, looking from the most recently used end.
pub open spec fn cache_lookup(s: Seq<(u64, StoredObject)>, k: u64) -> Option<StoredObject>
    decreases s.len(),
{
    if s.len() == 0 {
        None
    } else if s[0].0 == k {
        Some(s[0].1)
    } else {
        cache_lookup(s.drop_first(), k)
    }
}

/// The entries that remain when least recently used entries are evicted
/// until an entry of weight `w` fits: until the number of entries plus their
/// weight plus `w` is below the capacity `cap`.
pub open spec fn evict_for(s: Seq<(u64, StoredObject)>, w: nat, cap: nat) -> Seq<(u64, StoredObject)>
    decreases s.len(),
{
    if s.len() == 0 || s.len() + weight_of(s) + w < cap {
        s
    } else {
        evict_for(s.drop_last(), w, cap)
    }
}

/// The entries after putting `(k, v)` into a cache holding `s` with capacity
/// `cap`: the old entry for `k` leaves, least recently used entries are
/// evicted until `v` fits, and `(k, v)` becomes the most recently used.
pub open spec fn put_entries(s: Seq<(u64, StoredObject)>, k: u64, v: StoredObject, cap: nat) -> Seq<(u64, StoredObject)> {
    seq![(k, v)] + evict_for(remove_key(s, k), v.weight(), cap)
}

/// The number of entries that putting an entry of weight `w` under key `k`
/// evicts.
pub open spec fn evicted_count(s: Seq<(u64, StoredObject)>, k: u64, w: nat, cap: nat) -> nat {
    (remove_key(s, k).len() - evict_for(remove_key(s, k), w, cap).len()) as nat
}

/// The entries that remain when least recently used entries are dropped
/// until an entry of weight `w` fits in `budget` bytes: until their weight
/// plus `w` is at most `budget`.
pub open spec fn trim_for(s: Seq<(u64, StoredObject)>, w: nat, budget: nat) -> Seq<(u64, StoredObject)>
    decreases s.len(),
{
    if s.len() == 0 || weight_of(s) + w <= budget {
        s
    } else {
        trim_for(s.drop_last(), w, budget)
    }
}

/// The entries after storing `(k, v)` in a cache holding `s`, with capacity
/// `cap`, when the cache may hold at most `budget` bytes: the old entry for
/// `k` leaves, least recently used entries are dropped until `v` fits in the
/// budget, then until it fits the capacity, and `(k, v)` becomes the most
/// recently used.
pub open spec fn store_entries(s: Seq<(u64, StoredObject)>, k: u64, v: StoredObject, cap: nat, budget: nat) -> Seq<(u64, StoredObject)> {
    seq![(k, v)] + evict_for(trim_for(remove_key(s, k), v.weight(), budget), v.weight(), cap)
}

/// The number of entries other than `k`'s that storing an entry of weight
/// `w` under `k` evicts.
pub open spec fn store_evicted(s: Seq<(u64, StoredObject)>, k: u64, w: nat, cap: nat, budget: nat) -> nat {
    (remove_key(s, k).len() - evict_for(trim_for(remove_key(s, k), w, budget), w, cap).len()) as nat
}

/// Makes an empty cache with the given capacity, weighing objects by size.
///
/// Calls `CLruCache::with_scale` with `ObjectWeight`.
#[verifier::external_body]
pub(crate) fn lru_new(capacity: usize) -> (c: LruCache)
    requires
        capacity > 0,
    ensures
        lru_entries(c) == Seq::<(u64, StoredObject)>::empty(),
        lru_capacity(c) == capacity,
{
    LruCache { inner: CLruCache::with_scale(NonZeroUsize::new(capacity).unwrap(), ObjectWeight) }
}

/// The number of entries.
///
/// Calls `CLruCache::len`.
#[verifier::external_body]
pub(crate) fn lru_len(c: &LruCache) -> (n: usize)
    ensures
        n == lru_entries(*c).len(),
{
    c.inner.len()
}

/// The total weight of the entries.
///
/// Calls `CLruCache::weight`, which keeps the sum of the entries' weights.
#[verifier::external_body]
pub(crate) fn lru_weight(c: &LruCache) -> (w: usize)
    ensures
        w == weight_of(lru_entries(*c)),
{
    c.inner.weight()
}

/// Puts an entry, taking its weight into account.
///
/// Calls `CLruCache::put_with_weight`. An entry whose weight is at least the
/// capacity is handed back. Otherwise the old entry with the same key is
/// removed (and returned), least recently used entries are evicted until the
/// new one fits, and the new entry becomes the most recently used.
#[verifier::external_body]
pub(crate) fn lru_put_with_weight(c: &mut LruCache, k: u64, v: StoredObject) -> (r: Result<Option<StoredObject>, (u64, StoredObject)>)
    requires
        keys_unique(lru_entries(*old(c))),
    ensures
        lru_capacity(*final(c)) == lru_capacity(*old(c)),
        v.weight() >= lru_capacity(*old(c)) ==> (r matches Err(e) && e == (k, v)) && *final(c) == *old(c),
        v.weight() < lru_capacity(*old(c)) ==> r is Ok
            && lru_entries(*final(c)) == put_entries(lru_entries(*old(c)), k, v, lru_capacity(*old(c))),
        r matches Ok(Some(o)) ==> exists|i: int|
            0 <= i < lru_entries(*old(c)).len() && #[trigger] lru_entries(*old(c))[i] == (k, o),
        r matches Ok(None) ==> !has_key(lru_entries(*old(c)), k),
{
    c.inner.put_with_weight(k, v)
}

/// Removes the entry with the given key, if any.
///
/// Calls `CLruCache::pop`, which removes that entry and leaves the others in
/// their order.
#[verifier::external_body]
pub(crate) fn lru_pop(c: &mut LruCache, k: u64) -> (r: Option<StoredObject>)
    requires
        keys_unique(lru_entries(*old(c))),
    ensures
        lru_capacity(*final(c)) == lru_capacity(*old(c)),
        r is None ==> !has_key(lru_entries(*old(c)), k) && *final(c) == *old(c),
        r matches Some(v) ==> exists|i: int|
            0 <= i < lru_entries(*old(c)).len() && #[trigger] lru_entries(*old(c))[i] == (k, v)
                && lru_entries(*final(c)) == lru_entries(*old(c)).remove(i),
{
    c.inner.pop(&k)
}

/// Looks up a key and marks its entry most recently used; hands out another
/// handle to the entry's object.
///
/// Calls `CLruCache::get`, which moves the entry to the front, and
/// `StoredObject::duplicate` on the value it returns.
#[verifier::external_body]
pub(crate) fn lru_get(c: &mut LruCache, k: u64) -> (r: Option<StoredObject>)
    requires
        keys_unique(lru_entries(*old(c))),
    ensures
        lru_capacity(*final(c)) == lru_capacity(*old(c)),
        r is None ==> !has_key(lru_entries(*old(c)), k) && *final(c) == *old(c),
        r matches Some(v) ==> exists|i: int|
            0 <= i < lru_entries(*old(c)).len() && #[trigger] lru_entries(*old(c))[i].0 == k
                && v.content() == lru_entries(*old(c))[i].1.content()
                && v.metadata == lru_entries(*old(c))[i].1.metadata
                && lru_entries(*final(c)) == seq![lru_entries(*old(c))[i]] + lru_entries(*old(c)).remove(i),
{
    c.inner.get(&k).map(|v| v.duplicate())
}

/// Looks up a key without changing the recency order; hands out another
/// handle to the entry's object.
///
/// Calls `CLruCache::peek` and `StoredObject::duplicate` on the value it
/// returns.
#[verifier::external_body]
pub(crate) fn lru_peek(c: &LruCache, k: u64) -> (r: Option<StoredObject>)
    requires
        keys_unique(lru_entries(*c)),
    ensures
        r is None ==> !has_key(lru_entries(*c), k),
        r matches Some(v) ==> exists|i: int|
            0 <= i < lru_entries(*c).len() && #[trigger] lru_entries(*c)[i].0 == k
                && v.content() == lru_entries(*c)[i].1.content()
                && v.metadata == lru_entries(*c)[i].1.metadata,
{
    c.inner.peek(&k).map(|v| v.duplicate())
}

/// Removes the least recently used entry, if any.
///
/// Calls `CLruCache::pop_back`, which removes and returns the entry at the
/// back of the list (the least recently used) and leaves the others in their
/// order.
#[verifier::external_body]
pub(crate) fn lru_pop_back(c: &mut LruCache) -> (r: Option<(u64, StoredObject)>)
    ensures
        lru_capacity(*final(c)) == lru_capacity(*old(c)),
        lru_entries(*old(c)).len() == 0 ==> r is None && *final(c) == *old(c),
        lru_entries(*old(c)).len() > 0 ==> r == Some(lru_entries(*old(c)).last())
            && lru_entries(*final(c)) == lru_entries(*old(c)).drop_last(),
{
    c.inner.pop_back()
}

/// Evicts least recently used entries until an entry of `size` bytes fits
/// in `budget` bytes together with the entries that remain; returns how many
/// entries were evicted.
pub(crate) fn lru_trim(c: &mut LruCache, size: usize, budget: usize) -> (n: usize)
    requires
        size <= budget,
    ensures
        lru_capacity(*final(c)) == lru_capacity(*old(c)),
        lru_entries(*final(c)) == trim_for(lru_entries(*old(c)), size as nat, budget as nat),
        lru_entries(*final(c)) == lru_entries(*old(c)).subrange(0, lru_entries(*final(c)).len() as int),
        n == lru_entries(*old(c)).len() - lru_entries(*final(c)).len(),
{
    let ghost start = lru_entries(*c);
    let before_len = lru_len(c);
    while lru_weight(c) > budget - size
        invariant
            size <= budget,
            lru_capacity(*c) == lru_capacity(*old(c)),
            start == lru_entries(*old(c)),
            lru_entries(*c).len() <= start.len(),
            lru_entries(*c) == start.subrange(0, lru_entries(*c).len() as int),
            trim_for(lru_entries(*c), size as nat, budget as nat) == trim_for(start, size as nat, budget as nat),
        decreases lru_entries(*c).len(),
    {
        let ghost before = lru_entries(*c);
        let _ = lru_pop_back(c);
        proof {
            assert(before.len() > 0);
            assert(before.drop_last() =~= start.subrange(0, before.len() - 1));
        }
    }
    let after_len = lru_len(c);
    before_len - after_len
}

/// Removes every entry.
///
/// Calls `CLruCache::clear`, which keeps the capacity.
#[verifier::external_body]
pub(crate) fn lru_clear(c: &mut LruCache)
    ensures
        lru_entries(*final(c)) == Seq::<(u64, StoredObject)>::empty(),
        lru_capacity(*final(c)) == lru_capacity(*old(c)),
{
    c.inner.clear();
}

// ---------------------------------------------------------------------------
// Lemmas about entry sequences
// ---------------------------------------------------------------------------

/// Putting an entry in front adds its weight.
pub proof fn lemma_weight_push_front(x: (u64, StoredObject), s: Seq<(u64, StoredObject)>)
    ensures
        weight_of(seq![x] + s) == x.1.weight() + weight_of(s),
{
    assert((seq![x] + s).drop_first() =~= s);
}

/// Removing an entry subtracts its weight.
pub proof fn lemma_weight_remove(s: Seq<(u64, StoredObject)>, i: int)
    requires
        0 <= i < s.len(),
    ensures
        weight_of(s) == weight_of(s.remove(i)) + s[i].1.weight(),
    decreases s.len(),
{
    if i > 0 {
        lemma_weight_remove(s.drop_first(), i - 1);
        assert(s.remove(i) =~= seq![s[0]] + s.drop_first().remove(i - 1));
        lemma_weight_push_front(s[0], s.drop_first().remove(i - 1));
    } else {
        assert(s.remove(0) =~= s.drop_first());
    }
}

/// Dropping entries keeps keys unique.
pub proof fn lemma_unique_subrange(s: Seq<(u64, StoredObject)>, n: int)
    requires
        keys_unique(s),
        0 <= n <= s.len(),
    ensures
        keys_unique(s.subrange(0, n)),
{
}

/// Removing the entry for key `k` from a sequence with unique keys is
/// removing it by position.
pub proof fn lemma_remove_key_at(s: Seq<(u64, StoredObject)>, k: u64, i: int)
    requires
        keys_unique(s),
        0 <= i < s.len(),
        s[i].0 == k,
    ensures
        remove_key(s, k) == s.remove(i),
    decreases s.len(),
{
    if i == 0 {
        lemma_remove_key_absent(s.drop_first(), k);
        assert(s.remove(0) =~= s.drop_first());
    } else {
        lemma_remove_key_at(s.drop_first(), k, i - 1);
        assert(s.remove(i) =~= seq![s[0]] + s.drop_first().remove(i - 1));
    }
}

/// Removing an absent key changes nothing.
pub proof fn lemma_remove_key_absent(s: Seq<(u64, StoredObject)>, k: u64)
    requires
        !has_key(s, k),
    ensures
        remove_key(s, k) == s,
    decreases s.len(),
{
    if s.len() > 0 {
        assert(!has_key(s.drop_first(), k)) by {
            if has_key(s.drop_first(), k) {
                let j = choose|j: int| 0 <= j < s.drop_first().len() && s.drop_first()[j].0 == k;
                assert(s[j + 1].0 == k);
            }
        }
        lemma_remove_key_absent(s.drop_first(), k);
        assert(s[0].0 != k);
        assert(seq![s[0]] + s.drop_first() =~= s);
    }
}

/// Looking up a key in a sequence with unique keys finds its entry.
pub proof fn lemma_lookup_at(s: Seq<(u64, StoredObject)>, k: u64, i: int)
    requires
        keys_unique(s),
        0 <= i < s.len(),
        s[i].0 == k,
    ensures
        cache_lookup(s, k) == Some(s[i].1),
    decreases s.len(),
{
    if i > 0 {
        lemma_lookup_at(s.drop_first(), k, i - 1);
    }
}

/// Looking up an absent key finds nothing.
pub proof fn lemma_lookup_absent(s: Seq<(u64, StoredObject)>, k: u64)
    requires
        !has_key(s, k),
    ensures
        cache_lookup(s, k) is None,
    decreases s.len(),
{
    if s.len() > 0 {
        assert(!has_key(s.drop_first(), k)) by {
            if has_key(s.drop_first(), k) {
                let j = choose|j: int| 0 <= j < s.drop_first().len() && s.drop_first()[j].0 == k;
                assert(s[j + 1].0 == k);
            }
        }
        lemma_lookup_absent(s.drop_first(), k);
    }
}

/// Looking up a key finds an entry exactly when the key is present.
pub proof fn lemma_lookup_some(s: Seq<(u64, StoredObject)>, k: u64)
    requires
        keys_unique(s),
    ensures
        cache_lookup(s, k) is Some <==> has_key(s, k),
{
    if has_key(s, k) {
        let i = choose|i: int| 0 <= i < s.len() && s[i].0 == k;
        lemma_lookup_at(s, k, i);
    } else {
        lemma_lookup_absent(s, k);
    }
}

/// Eviction keeps a prefix: the most recently used entries.
pub proof fn lemma_evict_prefix(s: Seq<(u64, StoredObject)>, w: nat, cap: nat)
    ensures
        evict_for(s, w, cap).len() <= s.len(),
        evict_for(s, w, cap) == s.subrange(0, evict_for(s, w, cap).len() as int),
    decreases s.len(),
{
    if s.len() == 0 || s.len() + weight_of(s) + w < cap {
        assert(s.subrange(0, s.len() as int) =~= s);
    } else {
        lemma_evict_prefix(s.drop_last(), w, cap);
        let e = evict_for(s.drop_last(), w, cap);
        assert(s.drop_last().subrange(0, e.len() as int) =~= s.subrange(0, e.len() as int));
    }
}

/// Whatever a prefix finds under a key, the whole sequence finds too.
pub proof fn lemma_lookup_prefix(s: Seq<(u64, StoredObject)>, n: int, k: u64)
    requires
        0 <= n <= s.len(),
        cache_lookup(s.subrange(0, n), k) is Some,
    ensures
        cache_lookup(s.subrange(0, n), k) == cache_lookup(s, k),
    decreases n,
{
    if n > 0 && s[0].0 != k {
        assert(s.subrange(0, n).drop_first() =~= s.drop_first().subrange(0, n - 1));
        lemma_lookup_prefix(s.drop_first(), n - 1, k);
    }
}

/// Removing one key does not change what another key finds.
pub proof fn lemma_lookup_remove_other(s: Seq<(u64, StoredObject)>, id: u64, k: u64)
    requires
        k != id,
    ensures
        cache_lookup(remove_key(s, id), k) == cache_lookup(s, k),
    decreases s.len(),
{
    if s.len() > 0 {
        lemma_lookup_remove_other(s.drop_first(), id, k);
        if s[0].0 != id {
            assert((seq![s[0]] + remove_key(s.drop_first(), id)).drop_first() =~= remove_key(s.drop_first(), id));
        }
    }
}

/// An entry put in front does not change what another key finds.
pub proof fn lemma_lookup_front_other(x: (u64, StoredObject), t: Seq<(u64, StoredObject)>, k: u64)
    requires
        x.0 != k,
    ensures
        cache_lookup(seq![x] + t, k) == cache_lookup(t, k),
{
    assert((seq![x] + t).drop_first() =~= t);
}

/// Eviction keeps a prefix (the most recently used entries) and leaves room
/// for the new weight.
pub proof fn lemma_evict_for(s: Seq<(u64, StoredObject)>, w: nat, cap: nat)
    requires
        w < cap,
    ensures
        evict_for(s, w, cap).len() <= s.len(),
        evict_for(s, w, cap) == s.subrange(0, evict_for(s, w, cap).len() as int),
        evict_for(s, w, cap).len() + weight_of(evict_for(s, w, cap)) + w < cap,
    decreases s.len(),
{
    if s.len() == 0 || s.len() + weight_of(s) + w < cap {
        assert(s.subrange(0, s.len() as int) =~= s);
    } else {
        lemma_evict_for(s.drop_last(), w, cap);
        let e = evict_for(s.drop_last(), w, cap);
        assert(s.drop_last().subrange(0, e.len() as int) =~= s.subrange(0, e.len() as int));
    }
}

/// After removing key `k`, the key is absent and the other keys stay unique;
/// exactly one entry leaves when the key was present.
pub proof fn lemma_remove_key_props(s: Seq<(u64, StoredObject)>, k: u64)
    requires
        keys_unique(s),
    ensures
        keys_unique(remove_key(s, k)),
        !has_key(remove_key(s, k), k),
        has_key(s, k) ==> remove_key(s, k).len() + 1 == s.len(),
        !has_key(s, k) ==> remove_key(s, k) == s,
        forall|j: int| 0 <= j < remove_key(s, k).len() ==> exists|i: int|
            0 <= i < s.len() && #[trigger] remove_key(s, k)[j] == s[i],
{
    if has_key(s, k) {
        let i = choose|i: int| 0 <= i < s.len() && s[i].0 == k;
        lemma_remove_key_at(s, k, i);
        let r = s.remove(i);
        assert forall|j: int| 0 <= j < r.len() implies exists|m: int| 0 <= m < s.len() && #[trigger] r[j] == s[m] by {
            if j < i {
                assert(r[j] == s[j]);
            } else {
                assert(r[j] == s[j + 1]);
            }
        }
        assert(!has_key(r, k)) by {
            if has_key(r, k) {
                let j = choose|j: int| 0 <= j < r.len() && r[j].0 == k;
                if j < i {
                    assert(r[j] == s[j]);
                } else {
                    assert(r[j] == s[j + 1]);
                }
            }
        }
        assert(keys_unique(r)) by {
            assert forall|a: int, b: int| 0 <= a < r.len() && 0 <= b < r.len() && a != b implies r[a].0 != r[b].0 by {
                let a2 = if a < i { a } else { a + 1 };
                let b2 = if b < i { b } else { b + 1 };
                assert(r[a] == s[a2]);
                assert(r[b] == s[b2]);
            }
        }
    } else {
        lemma_remove_key_absent(s, k);
        assert forall|j: int| 0 <= j < s.len() implies exists|m: int| 0 <= m < s.len() && #[trigger] s[j] == s[m] by {
            assert(s[j] == s[j]);
        }
    }
}

/// Moving the entry for key `k` to the front keeps the keys unique, the
/// length and the weight.
pub proof fn lemma_move_front(s: Seq<(u64, StoredObject)>, k: u64, i: int)
    requires
        keys_unique(s),
        0 <= i < s.len(),
        s[i].0 == k,
    ensures
        keys_unique(seq![s[i]] + s.remove(i)),
        (seq![s[i]] + s.remove(i)).len() == s.len(),
        weight_of(seq![s[i]] + s.remove(i)) == weight_of(s),
        seq![s[i]] + s.remove(i) == seq![(k, s[i].1)] + remove_key(s, k),
        forall|j: int| 0 <= j < s.len() ==> exists|m: int|
            0 <= m < s.len() && #[trigger] (seq![s[i]] + s.remove(i))[j] == s[m],
{
    lemma_remove_key_at(s, k, i);
    lemma_remove_key_props(s, k);
    lemma_weight_remove(s, i);
    lemma_weight_push_front(s[i], s.remove(i));
    let t = seq![s[i]] + s.remove(i);
    let r = s.remove(i);
    assert(!has_key(r, k));
    assert(keys_unique(t)) by {
        assert forall|a: int, b: int| 0 <= a < t.len() && 0 <= b < t.len() && a != b implies t[a].0 != t[b].0 by {
            if a == 0 {
                assert(t[b] == r[b - 1]);
            } else if b == 0 {
                assert(t[a] == r[a - 1]);
            } else {
                assert(t[a] == r[a - 1]);
                assert(t[b] == r[b - 1]);
            }
        }
    }
    assert forall|j: int| 0 <= j < s.len() implies exists|m: int| 0 <= m < s.len() && #[trigger] t[j] == s[m] by {
        if j == 0 {
            assert(t[0] == s[i]);
        } else {
            assert(t[j] == r[j - 1]);
        }
    }
}

/// Putting an entry into a cache whose entries have unique keys and fit the
/// capacity yields unique keys that fit the capacity, with `k` in front.
pub proof fn lemma_put_entries(s: Seq<(u64, StoredObject)>, k: u64, v: StoredObject, cap: nat)
    requires
        keys_unique(s),
        v.weight() < cap,
    ensures
        keys_unique(put_entries(s, k, v, cap)),
        put_entries(s, k, v, cap).len() + weight_of(put_entries(s, k, v, cap)) <= cap,
        put_entries(s, k, v, cap)[0] == (k, v),
        cache_lookup(put_entries(s, k, v, cap), k) == Some(v),
        evict_for(remove_key(s, k), v.weight(), cap).len() <= remove_key(s, k).len(),
        forall|j: int| 1 <= j < put_entries(s, k, v, cap).len() ==> exists|i: int|
            0 <= i < s.len() && #[trigger] put_entries(s, k, v, cap)[j] == s[i],
{
    lemma_remove_key_props(s, k);
    let r = remove_key(s, k);
    lemma_evict_for(r, v.weight(), cap);
    let e = evict_for(r, v.weight(), cap);
    lemma_unique_subrange(r, e.len() as int);
    let p = seq![(k, v)] + e;
    lemma_weight_push_front((k, v), e);
    assert(!has_key(e, k)) by {
        if has_key(e, k) {
            let j = choose|j: int| 0 <= j < e.len() && e[j].0 == k;
            assert(e[j] == r[j]);
        }
    }
    assert(keys_unique(p)) by {
        assert forall|a: int, b: int| 0 <= a < p.len() && 0 <= b < p.len() && a != b implies p[a].0 != p[b].0 by {
            if a == 0 {
                assert(p[b] == e[b - 1]);
            } else if b == 0 {
                assert(p[a] == e[a - 1]);
            } else {
                assert(p[a] == e[a - 1]);
                assert(p[b] == e[b - 1]);
            }
        }
    }
    assert forall|j: int| 1 <= j < p.len() implies exists|i: int| 0 <= i < s.len() && #[trigger] p[j] == s[i] by {
        assert(p[j] == e[j - 1]);
        assert(e[j - 1] == r[j - 1]);
    }
}

/// A prefix weighs at most as much as the whole.
pub proof fn lemma_weight_prefix(s: Seq<(u64, StoredObject)>, n: int)
    requires
        0 <= n <= s.len(),
    ensures
        weight_of(s.subrange(0, n)) <= weight_of(s),
    decreases s.len(),
{
    if n > 0 {
        lemma_weight_prefix(s.drop_first(), n - 1);
        assert(s.subrange(0, n).drop_first() =~= s.drop_first().subrange(0, n - 1));
    }
}

/// Removing a key's entry does not add weight.
pub proof fn lemma_weight_remove_key(s: Seq<(u64, StoredObject)>, k: u64)
    requires
        keys_unique(s),
    ensures
        weight_of(remove_key(s, k)) <= weight_of(s),
{
    if has_key(s, k) {
        let i = choose|i: int| 0 <= i < s.len() && s[i].0 == k;
        lemma_remove_key_at(s, k, i);
        lemma_weight_remove(s, i);
    } else {
        lemma_remove_key_absent(s, k);
    }
}

/// Trimming keeps a prefix; for an entry of weight `w <= budget`, one whose
/// weight plus `w` is within the budget.
pub proof fn lemma_trim_for(s: Seq<(u64, StoredObject)>, w: nat, budget: nat)
    ensures
        trim_for(s, w, budget).len() <= s.len(),
        trim_for(s, w, budget) == s.subrange(0, trim_for(s, w, budget).len() as int),
        w <= budget ==> weight_of(trim_for(s, w, budget)) + w <= budget,
    decreases s.len(),
{
    if s.len() == 0 || weight_of(s) + w <= budget {
        assert(s.subrange(0, s.len() as int) =~= s);
    } else {
        lemma_trim_for(s.drop_last(), w, budget);
        let t = trim_for(s.drop_last(), w, budget);
        assert(s.drop_last().subrange(0, t.len() as int) =~= s.subrange(0, t.len() as int));
    }
}

/// Storing an entry keeps keys unique, within the capacity and within the
/// byte budget, with `k` in front; every other entry comes from `s`, and the
/// entries that remain form a prefix of `s` without `k`.
pub proof fn lemma_store_entries(s: Seq<(u64, StoredObject)>, k: u64, v: StoredObject, cap: nat, budget: nat)
    requires
        keys_unique(s),
        v.weight() < cap,
        v.weight() <= budget,
    ensures
        keys_unique(store_entries(s, k, v, cap, budget)),
        store_entries(s, k, v, cap, budget).len() + weight_of(store_entries(s, k, v, cap, budget)) <= cap,
        weight_of(store_entries(s, k, v, cap, budget)) <= budget,
        store_entries(s, k, v, cap, budget)[0] == (k, v),
        store_entries(s, k, v, cap, budget) == put_entries(trim_for(remove_key(s, k), v.weight(), budget), k, v, cap),
        evict_for(trim_for(remove_key(s, k), v.weight(), budget), v.weight(), cap) == remove_key(s, k).subrange(
            0, evict_for(trim_for(remove_key(s, k), v.weight(), budget), v.weight(), cap).len() as int),
        forall|j: int| 1 <= j < store_entries(s, k, v, cap, budget).len() ==> exists|i: int|
            0 <= i < s.len() && #[trigger] store_entries(s, k, v, cap, budget)[j] == s[i],
{
    lemma_remove_key_props(s, k);
    let r = remove_key(s, k);
    lemma_trim_for(r, v.weight(), budget);
    let t = trim_for(r, v.weight(), budget);
    lemma_unique_subrange(r, t.len() as int);
    assert(!has_key(t, k)) by {
        if has_key(t, k) {
            let j = choose|j: int| 0 <= j < t.len() && t[j].0 == k;
            assert(t[j] == r[j]);
        }
    }
    lemma_remove_key_absent(t, k);
    lemma_put_entries(t, k, v, cap);
    lemma_evict_for(t, v.weight(), cap);
    let e = evict_for(t, v.weight(), cap);
    assert(e =~= r.subrange(0, e.len() as int));
    lemma_weight_prefix(t, e.len() as int);
    lemma_weight_push_front((k, v), e);
    assert forall|j: int| 1 <= j < store_entries(s, k, v, cap, budget).len() implies exists|i: int|
        0 <= i < s.len() && #[trigger] store_entries(s, k, v, cap, budget)[j] == s[i] by {
        let p = store_entries(s, k, v, cap, budget);
        assert(p[j] == r[j - 1]);
        assert(exists|i: int| 0 <= i < s.len() && #[trigger] r[j - 1] == s[i]);
    }
}

} // verus!
