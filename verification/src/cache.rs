//! The cache of compiled statements, least recently used first to go.
use vstd::prelude::*;
use lru::LruCache;

verus! {

/// `lru::LruCache`, a map that is bounded in size and evicts the entry that was used
/// least recently. Nothing is known of a value of it but through the wrappers below.
#[verifier::external_type_specification]
#[verifier::external_body]
#[verifier::reject_recursive_types(K)]
#[verifier::reject_recursive_types(V)]
#[verifier::reject_recursive_types(S)]
pub struct ExLruCache<K, V, S>(LruCache<K, V, S>);

/// `lru::DefaultHasher`, the hasher that an `lru::LruCache` is made with where none is
/// named. The driver never touches one.
#[verifier::external_type_specification]
#[verifier::external_body]
pub struct ExDefaultHasher(lru::DefaultHasher);

/// One cached statement: its SQL text and its handle.
pub type Entry = (Seq<char>, u64);

/// What an `lru::LruCache` holds, the entry used last first and the one that would
/// be evicted next last.
pub uninterp spec fn cache_entries(cache: &LruCache<String, u64>) -> Seq<Entry>;

/// The capacity that an `lru::LruCache` was made with.
pub uninterp spec fn cache_limit(cache: &LruCache<String, u64>) -> nat;

/// `at` is the first place in `entries` with the key `key`.
pub open spec fn first_hit(entries: Seq<Entry>, key: Seq<char>, at: int) -> bool {
    &&& 0 <= at < entries.len()
    &&& entries[at].0 == key
    &&& forall|j: int| 0 <= j < at ==> (#[trigger] entries[j]).0 != key
}

/// `entries` has an entry with the key `key`.
pub open spec fn holds_key(entries: Seq<Entry>, key: Seq<char>) -> bool {
    exists|at: int| first_hit(entries, key, at)
}

/// The place in `entries` of the key `key`, which `entries` holds.
pub open spec fn slot(entries: Seq<Entry>, key: Seq<char>) -> int {
    choose|at: int| first_hit(entries, key, at)
}

/// `entries` with the entry at `at` moved to the front.
pub open spec fn promoted(entries: Seq<Entry>, at: int) -> Seq<Entry> {
    seq![entries[at]] + entries.remove(at)
}

/// The handle cached in `entries` under `key`.
pub open spec fn cached(entries: Seq<Entry>, key: Seq<char>) -> Option<u64> {
    if holds_key(entries, key) {
        Some(entries[slot(entries, key)].1)
    } else {
        None
    }
}

/// `entries` after a lookup of `key`: a hit moves to the front.
pub open spec fn looked_up(entries: Seq<Entry>, key: Seq<char>) -> Seq<Entry> {
    if holds_key(entries, key) {
        promoted(entries, slot(entries, key))
    } else {
        entries
    }
}

/// `entries`, in a cache of the capacity `limit`, after `key` was put in with
/// `value`: the new entry stands at the front; an entry of the same key is replaced;
/// else, where the cache was full, the entry at the back is evicted.
pub open spec fn inserted(entries: Seq<Entry>, limit: nat, key: Seq<char>, value: u64) -> Seq<
    Entry,
> {
    if holds_key(entries, key) {
        seq![(key, value)] + entries.remove(slot(entries, key))
    } else if entries.len() == limit {
        seq![(key, value)] + entries.drop_last()
    } else {
        seq![(key, value)] + entries
    }
}

/// The entry that putting in `key` displaces: the one of the same key, else the one
/// at the back of a full cache.
pub open spec fn displaced(entries: Seq<Entry>, limit: nat, key: Seq<char>) -> Option<Entry> {
    if holds_key(entries, key) {
        Some(entries[slot(entries, key)])
    } else if entries.len() == limit {
        Some(entries.last())
    } else {
        None
    }
}

/// An entry that the cache hands out, with its text as the text's characters.
pub open spec fn entry_of(out: Option<(String, u64)>) -> Option<Entry> {
    match out {
        Some(e) => Some((e.0@, e.1)),
        None => None,
    }
}

/// The handle of a displaced entry.
pub open spec fn handle_of(entry: Option<Entry>) -> Option<u64> {
    match entry {
        Some(e) => Some(e.1),
        None => None,
    }
}

/// A key has one first place.
pub proof fn lemma_first_hit_unique(entries: Seq<Entry>, key: Seq<char>, a: int, b: int)
    requires
        first_hit(entries, key, a),
        first_hit(entries, key, b),
    ensures
        a == b,
{
    if a < b {
        assert(entries[a].0 != key);
    } else if b < a {
        assert(entries[b].0 != key);
    }
}

/// `LruCache::new`: an empty cache that holds at most `limit` entries.
#[verifier::external_body]
fn cache_new(limit: usize) -> (cache: LruCache<String, u64>)
    requires
        limit > 0,
    ensures
        cache_entries(&cache) == Seq::<Entry>::empty(),
        cache_limit(&cache) == limit,
{
    LruCache::new(std::num::NonZeroUsize::new(limit).unwrap())
}

/// `LruCache::len`: the number of entries.
#[verifier::external_body]
fn cache_len(cache: &LruCache<String, u64>) -> (n: usize)
    ensures
        n == cache_entries(cache).len(),
{
    cache.len()
}

/// `LruCache::cap`: the capacity that the cache was made with.
#[verifier::external_body]
fn cache_cap(cache: &LruCache<String, u64>) -> (n: usize)
    ensures
        n == cache_limit(cache),
        n > 0,
{
    cache.cap().get()
}

/// `LruCache::get`: the value under `key`, whose entry moves to the front; a cache
/// without the key is left as it is.
#[verifier::external_body]
fn cache_get(cache: &mut LruCache<String, u64>, key: &str) -> (value: Option<u64>)
    ensures
        cache_limit(final(cache)) == cache_limit(old(cache)),
        value == cached(cache_entries(old(cache)), key@),
        cache_entries(final(cache)) == looked_up(cache_entries(old(cache)), key@),
{
    cache.get(key).copied()
}

/// `LruCache::push`: puts the entry at the front. An entry of the same key is
/// replaced and handed back; else, where the cache is full, the entry at the back is
/// evicted and handed back; else nothing is.
#[verifier::external_body]
fn cache_push(cache: &mut LruCache<String, u64>, key: String, value: u64) -> (out: Option<
    (String, u64),
>)
    ensures
        cache_limit(final(cache)) == cache_limit(old(cache)),
        cache_entries(final(cache)) == inserted(
            cache_entries(old(cache)),
            cache_limit(old(cache)),
            key@,
            value,
        ),
        entry_of(out) == displaced(cache_entries(old(cache)), cache_limit(old(cache)), key@),
{
    cache.push(key, value)
}

/// `LruCache::pop_lru`: takes out the entry at the back and hands it over; an empty
/// cache is left as it is.
#[verifier::external_body]
fn cache_pop_lru(cache: &mut LruCache<String, u64>) -> (out: Option<(String, u64)>)
    ensures
        cache_limit(final(cache)) == cache_limit(old(cache)),
        cache_entries(old(cache)).len() == 0 ==> out.is_none() && cache_entries(final(cache))
            == cache_entries(old(cache)),
        cache_entries(old(cache)).len() > 0 ==> entry_of(out) == Some(
            cache_entries(old(cache)).last(),
        ) && cache_entries(final(cache)) == cache_entries(old(cache)).drop_last(),
{
    cache.pop_lru()
}

/// The compiled statements of one connection, by their SQL text, bounded in number.
pub struct StatementCache {
    stmts: LruCache<String, u64>,
}

impl StatementCache {
    /// The cached statements, the one used last first.
    pub closed spec fn view(&self) -> Seq<Entry> {
        cache_entries(&self.stmts)
    }

    /// The most statements that the cache holds.
    pub closed spec fn capacity(&self) -> nat {
        cache_limit(&self.stmts)
    }

    /// The cache has room for a statement, and holds no more than its capacity.
    pub open spec fn wf(&self) -> bool {
        0 < self.capacity() && self@.len() <= self.capacity()
    }

    /// An empty cache for at most `capacity` statements.
    pub fn new(capacity: usize) -> (cache: Self)
        requires
            capacity > 0,
        ensures
            cache.wf(),
            cache@ == Seq::<Entry>::empty(),
            cache.capacity() == capacity,
    {
        StatementCache { stmts: cache_new(capacity) }
    }

    /// How many statements are cached.
    pub fn len(&self) -> (n: usize)
        ensures
            n == self@.len(),
    {
        cache_len(&self.stmts)
    }

    /// The most statements that the cache holds.
    pub fn limit(&self) -> (n: usize)
        ensures
            n == self.capacity(),
    {
        cache_cap(&self.stmts)
    }

    /// The handle of the statement cached for `sql`, which becomes the one used last.
    pub fn lookup(&mut self, sql: &str) -> (handle: Option<u64>)
        requires
            old(self).wf(),
        ensures
            final(self).wf(),
            final(self).capacity() == old(self).capacity(),
            handle == cached(old(self)@, sql@),
            final(self)@ == looked_up(old(self)@, sql@),
    {
        let ghost before = self@;
        let handle = cache_get(&mut self.stmts, sql);
        proof {
            if holds_key(before, sql@) {
                assert(first_hit(before, sql@, slot(before, sql@)));
                assert(before.remove(slot(before, sql@)).len() == before.len() - 1);
            }
        }
        handle
    }

    /// Caches `handle` as the statement for `sql`, as the one used last. The handle
    /// that this displaces comes back, to be finalized: the one cached for the same
    /// text before, else, where the cache was full, the one used least recently.
    pub fn insert(&mut self, sql: &str, handle: u64) -> (evicted: Option<u64>)
        requires
            old(self).wf(),
        ensures
            final(self).wf(),
            final(self).capacity() == old(self).capacity(),
            final(self)@ == inserted(old(self)@, old(self).capacity(), sql@, handle),
            evicted == handle_of(displaced(old(self)@, old(self).capacity(), sql@)),
    {
        let ghost before = self@;
        let out = cache_push(&mut self.stmts, sql.to_owned(), handle);
        proof {
            if holds_key(before, sql@) {
                let at = slot(before, sql@);
                assert(first_hit(before, sql@, at));
                assert(before.remove(at).len() == before.len() - 1);
            } else if before.len() == self.capacity() {
                assert(before.drop_last().len() == before.len() - 1);
            }
            assert(self@.len() <= self.capacity());
        }
        match out {
            Some(entry) => Some(entry.1),
            None => None,
        }
    }

    /// Takes the statement used least recently out of the cache and hands over its
    /// handle, to be finalized; `None` when the cache is empty.
    pub fn evict(&mut self) -> (handle: Option<u64>)
        requires
            old(self).wf(),
        ensures
            final(self).wf(),
            final(self).capacity() == old(self).capacity(),
            old(self)@.len() == 0 ==> handle.is_none() && final(self)@ == old(self)@,
            old(self)@.len() > 0 ==> handle == Some(old(self)@.last().1) && final(self)@ == old(
                self,
            )@.drop_last(),
    {
        match cache_pop_lru(&mut self.stmts) {
            Some(entry) => Some(entry.1),
            None => None,
        }
    }

    /// Empties the cache. The handles of all its statements come back, to be
    /// finalized before the database is closed, the one used least recently first.
    pub fn clear(&mut self) -> (handles: Vec<u64>)
        requires
            old(self).wf(),
        ensures
            final(self).wf(),
            final(self).capacity() == old(self).capacity(),
            final(self)@.len() == 0,
            handles@.len() == old(self)@.len(),
            forall|i: int|
                0 <= i < handles@.len() ==> handles@[i] == (#[trigger] old(self)@[old(self)@.len()
                    - 1 - i]).1,
    {
        let ghost before = self@;
        let mut handles: Vec<u64> = Vec::new();
        while self.len() > 0
            invariant
                self.wf(),
                self.capacity() == old(self).capacity(),
                before == old(self)@,
                handles@.len() + self@.len() == before.len(),
                self@ == before.subrange(0, self@.len() as int),
                forall|i: int|
                    0 <= i < handles@.len() ==> handles@[i] == (#[trigger] before[before.len() - 1
                        - i]).1,
            decreases self@.len(),
        {
            let ghost held = self@;
            match self.evict() {
                Some(handle) => {
                    handles.push(handle);
                    proof {
                        assert(self@ =~= before.subrange(0, self@.len() as int));
                        assert(held.last() == before[held.len() - 1]);
                    }
                },
                None => {},
            }
        }
        handles
    }
}

/// A statement that was put into the cache is found there under its text, with the
/// handle it was put in with, whatever the cache held before.
pub proof fn lemma_inserted_is_cached(entries: Seq<Entry>, limit: nat, key: Seq<char>, value: u64)
    ensures
        cached(inserted(entries, limit, key, value), key) == Some(value),
{
    let after = inserted(entries, limit, key, value);
    assert(after[0] == (key, value));
    assert(first_hit(after, key, 0));
    lemma_first_hit_unique(after, key, 0, slot(after, key));
}

/// A statement that a lookup found is found again by the next lookup of the same
/// text, with the same handle.
pub proof fn lemma_hit_stays_cached(entries: Seq<Entry>, key: Seq<char>)
    requires
        holds_key(entries, key),
    ensures
        cached(looked_up(entries, key), key) == cached(entries, key),
{
    let at = slot(entries, key);
    let after = looked_up(entries, key);
    assert(after[0] == entries[at]);
    assert(first_hit(after, key, 0));
    lemma_first_hit_unique(after, key, 0, slot(after, key));
}

/// A cache within its capacity stays within it when a statement is put in, and
/// putting a new text into a full cache evicts the entry used least recently and no
/// other.
pub proof fn lemma_insert_keeps_capacity(
    entries: Seq<Entry>,
    limit: nat,
    key: Seq<char>,
    value: u64,
)
    requires
        0 < limit,
        entries.len() <= limit,
    ensures
        inserted(entries, limit, key, value).len() <= limit,
        !holds_key(entries, key) && entries.len() == limit ==> {
            &&& displaced(entries, limit, key) == Some(entries.last())
            &&& inserted(entries, limit, key, value) == seq![(key, value)] + entries.drop_last()
        },
{
    if holds_key(entries, key) {
        let at = slot(entries, key);
        assert(first_hit(entries, key, at));
    }
}

} // verus!
