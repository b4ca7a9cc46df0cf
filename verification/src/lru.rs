//! The bounded least-recently-used map that holds the cache, and its model.
//!
//! The map is `lru_cache::LruCache`. What it holds is modelled as a sequence
//! of entries from the least to the most recently used, each key once. The
//! functions that call the map are believed, not proved, to do to that
//! sequence what their contracts say.

use crate::lookup_state::LruValue;
use crate::op::QueryKey;
use lru_cache::LruCache;
use std::hash::BuildHasher;
use std::hash::Hash;
use vstd::prelude::*;

verus! {

#[verifier::external_type_specification]
#[verifier::external_body]
#[verifier::reject_recursive_types(K)]
#[verifier::reject_recursive_types(V)]
#[verifier::reject_recursive_types(S)]
pub struct ExLruCache<K: Eq + Hash, V, S: BuildHasher>(LruCache<K, V, S>);

/// The key of an entry as the map holds it: name, number of the record type,
/// number of the class.
pub type CacheKey = (String, u16, u16);

/// What a cache holds, from the least to the most recently used entry.
pub type Entries = Seq<(QueryKey, LruValue)>;

/// The entries of the map, from the least to the most recently used.
pub uninterp spec fn lru_entries(cache: LruCache<CacheKey, LruValue>) -> Entries;

/// The number of entries that the map was made to hold at most.
pub uninterp spec fn lru_limit(cache: LruCache<CacheKey, LruValue>) -> nat;

/// The key of an entry as the model sees it.
pub open spec fn key_of(key: CacheKey) -> QueryKey {
    (key.0@, key.1, key.2)
}

/// Whether the entry at `i` is the one of `key`.
pub open spec fn holds_at(entries: Entries, key: QueryKey, i: int) -> bool {
    0 <= i < entries.len() && entries[i].0 == key
}

/// No key has two entries.
pub open spec fn distinct_keys(entries: Entries) -> bool {
    forall|i: int, j: int| 0 <= i < j < entries.len() ==> (#[trigger] entries[i]).0 != (#[trigger] entries[j]).0
}

/// Where the entry of `key` stands, if there is one.
pub open spec fn position(entries: Entries, key: QueryKey) -> Option<int> {
    if exists|i: int| holds_at(entries, key, i) {
        Some(choose|i: int| holds_at(entries, key, i))
    } else {
        None
    }
}

/// What is held for `key`, if anything.
pub open spec fn cached(entries: Entries, key: QueryKey) -> Option<LruValue> {
    match position(entries, key) {
        Some(i) => Some(entries[i].1),
        None => None,
    }
}

/// The entries without the one of `key`.
pub open spec fn removed(entries: Entries, key: QueryKey) -> Entries {
    match position(entries, key) {
        Some(i) => entries.remove(i),
        None => entries,
    }
}

/// The entries after a use of `key`: its entry, if there is one, has become
/// the most recently used.
pub open spec fn refreshed(entries: Entries, key: QueryKey) -> Entries {
    match position(entries, key) {
        Some(i) => entries.remove(i).push(entries[i]),
        None => entries,
    }
}

/// The entries after `value` was put in for `key` in a map that holds at most
/// `limit`: the new entry takes the place of an old one of that key and is the
/// most recently used; if that makes more than `limit` entries, the least
/// recently used one has left.
pub open spec fn inserted(entries: Entries, limit: nat, key: QueryKey, value: LruValue) -> Entries {
    let pushed = removed(entries, key).push((key, value));
    if pushed.len() > limit {
        pushed.drop_first()
    } else {
        pushed
    }
}

/// `LruCache::new`: an empty map that holds at most `capacity` entries.
#[verifier::external_body]
pub(crate) fn lru_new(capacity: usize) -> (cache: LruCache<CacheKey, LruValue>)
    ensures
        lru_entries(cache) == Seq::<(QueryKey, LruValue)>::empty(),
        lru_limit(cache) == capacity,
{
    LruCache::new(capacity)
}

/// `LruCache::insert`, whose result is dropped. Claimed: the pair becomes
/// the most recently used entry, in place of an entry that had an equal key;
/// then, if the map holds more entries than its limit, the least recently
/// used one is removed. The limit stays.
#[verifier::external_body]
pub(crate) fn lru_insert(cache: &mut LruCache<CacheKey, LruValue>, key: CacheKey, value: LruValue)
    ensures
        lru_entries(*final(cache)) == inserted(
            lru_entries(*old(cache)),
            lru_limit(*old(cache)),
            key_of(key),
            value,
        ),
        lru_limit(*final(cache)) == lru_limit(*old(cache)),
{
    cache.insert(key, value);
}

/// `LruCache::get_mut`, with the value handed out for reading only.
/// Claimed: the result is the value held for an equal key, if there is one,
/// and that entry has become the most recently used. The limit stays.
#[verifier::external_body]
pub(crate) fn lru_get_mut<'a>(cache: &'a mut LruCache<CacheKey, LruValue>, key: &CacheKey) -> (found:
    Option<&'a LruValue>)
    ensures
        match found {
            Some(value) => cached(lru_entries(*old(cache)), key_of(*key)) == Some(*value),
            None => cached(lru_entries(*old(cache)), key_of(*key)) is None,
        },
        lru_entries(*final(cache)) == refreshed(lru_entries(*old(cache)), key_of(*key)),
        lru_limit(*final(cache)) == lru_limit(*old(cache)),
{
    cache.get_mut(key).map(|value| &*value)
}

/// `LruCache::remove`, whose result is dropped. Claimed: the entry with an
/// equal key, if there is one, is removed, and nothing else changes.
#[verifier::external_body]
pub(crate) fn lru_remove(cache: &mut LruCache<CacheKey, LruValue>, key: &CacheKey)
    ensures
        lru_entries(*final(cache)) == removed(lru_entries(*old(cache)), key_of(*key)),
        lru_limit(*final(cache)) == lru_limit(*old(cache)),
{
    cache.remove(key);
}

/// `LruCache::len`: the number of entries.
#[verifier::external_body]
pub(crate) fn lru_len(cache: &LruCache<CacheKey, LruValue>) -> (len: usize)
    ensures
        len == lru_entries(*cache).len(),
{
    cache.len()
}

/// `LruCache::capacity`: the limit that the map was made with.
#[verifier::external_body]
pub(crate) fn lru_capacity(cache: &LruCache<CacheKey, LruValue>) -> (capacity: usize)
    ensures
        capacity == lru_limit(*cache),
{
    cache.capacity()
}

/// Where keys are distinct, the entry of a key is found where it stands.
pub proof fn lemma_position(entries: Entries, key: QueryKey, i: int)
    requires
        distinct_keys(entries),
        holds_at(entries, key, i),
    ensures
        position(entries, key) == Some(i),
        cached(entries, key) == Some(entries[i].1),
{
    let j = choose|j: int| holds_at(entries, key, j);
    assert(entries[i].0 == entries[j].0);
}

/// Where no entry has the key, nothing is found for it.
pub proof fn lemma_position_none(entries: Entries, key: QueryKey)
    requires
        forall|i: int| 0 <= i < entries.len() ==> (#[trigger] entries[i]).0 != key,
    ensures
        position(entries, key) is None,
        cached(entries, key) is None,
{
}

/// Removing a key leaves distinct keys distinct, leaves nothing for that key
/// and takes at most one entry away: exactly one if the key was held.
pub proof fn lemma_removed(entries: Entries, key: QueryKey)
    requires
        distinct_keys(entries),
    ensures
        distinct_keys(removed(entries, key)),
        cached(removed(entries, key), key) is None,
        forall|i: int|
            0 <= i < removed(entries, key).len() ==> (#[trigger] removed(entries, key)[i]).0 != key,
        cached(entries, key) is Some ==> removed(entries, key).len() + 1 == entries.len(),
        cached(entries, key) is None ==> removed(entries, key) == entries,
{
    let after = removed(entries, key);
    match position(entries, key) {
        Some(p) => {
            // what stands at `i` afterwards stood at `i`, or at `i + 1` from `p` on
            assert forall|i: int| 0 <= i < after.len() implies (#[trigger] after[i]).0 != key by {
                assert(after[i] == entries[if i < p { i } else { i + 1 }]);
            }
            assert forall|i: int, j: int| 0 <= i < j < after.len() implies (#[trigger] after[i]).0 != (
            #[trigger] after[j]).0 by {
                assert(after[i] == entries[if i < p { i } else { i + 1 }]);
                assert(after[j] == entries[if j < p { j } else { j + 1 }]);
            }
        },
        None => {
            assert forall|i: int| 0 <= i < after.len() implies (#[trigger] after[i]).0 != key by {
                if after[i].0 == key {
                    assert(holds_at(entries, key, i));
                }
            }
        },
    }
    lemma_position_none(after, key);
}

/// After a value was put in for a key, distinct keys are still distinct and
/// the limit is kept; and unless the limit is zero, the value is held for
/// the key.
pub proof fn lemma_inserted(entries: Entries, limit: nat, key: QueryKey, value: LruValue)
    requires
        distinct_keys(entries),
        entries.len() <= limit,
    ensures
        distinct_keys(inserted(entries, limit, key, value)),
        inserted(entries, limit, key, value).len() <= limit,
        limit >= 1 ==> cached(inserted(entries, limit, key, value), key) == Some(value),
        limit == 0 ==> inserted(entries, limit, key, value).len() == 0,
{
    lemma_removed(entries, key);
    let pushed = removed(entries, key).push((key, value));
    assert(distinct_keys(pushed));
    let after = inserted(entries, limit, key, value);
    if pushed.len() > limit {
        assert forall|i: int, j: int| 0 <= i < j < after.len() implies (#[trigger] after[i]).0 != (
        #[trigger] after[j]).0 by {
            assert(after[i] == pushed[i + 1]);
            assert(after[j] == pushed[j + 1]);
        }
    }
    if limit >= 1 {
        // the new entry is the last one
        lemma_position(after, key, after.len() - 1);
    }
}

/// After a use of a key, distinct keys are still distinct, as many entries
/// are held as before, and what is held for the key is what was held.
pub proof fn lemma_refreshed(entries: Entries, key: QueryKey)
    requires
        distinct_keys(entries),
    ensures
        distinct_keys(refreshed(entries, key)),
        refreshed(entries, key).len() == entries.len(),
        cached(refreshed(entries, key), key) == cached(entries, key),
{
    if position(entries, key) is Some {
        lemma_removed(entries, key);
        let after = refreshed(entries, key);
        assert(distinct_keys(after));
        // the entry of the key is the last one
        lemma_position(after, key, after.len() - 1);
    }
}

} // verus!
