//! Shared response cache: bounded capacity, least-recently-used eviction,
//! keyed by request path. The storage is the `lru` crate's cache; its
//! behaviour is stated over a recency-ordered sequence of entries, where
//! index 0 is the least recently used entry and the last index the most
//! recently used one.

use vstd::prelude::*;

verus! {

/// The response cache shared by all connections: at most `capacity` entries,
/// unique keys, least-recently-used eviction. The storage is the `lru`
/// crate's cache, reached only through the trusted wrappers below; callers
/// serialize access (one exclusive critical section per operation).
#[verifier::external_body]
pub struct ResponseCache {
    inner: lru::LruCache<String, Vec<u8>>,
}

/// The entries of the underlying cache, in recency order: index 0 is least
/// recently used, the last index most recently used; each entry pairs a key
/// (a request path) with its payload.
pub uninterp spec fn lru_entries(c: ResponseCache) -> Seq<(Seq<char>, Seq<u8>)>;

/// The capacity the underlying cache was created with.
pub uninterp spec fn lru_cap(c: ResponseCache) -> nat;

pub open spec fn contains_key(s: Seq<(Seq<char>, Seq<u8>)>, k: Seq<char>) -> bool {
    exists|i: int| 0 <= i < s.len() && s[i].0 == k
}

pub open spec fn key_index(s: Seq<(Seq<char>, Seq<u8>)>, k: Seq<char>) -> int {
    choose|i: int| 0 <= i < s.len() && s[i].0 == k
}

pub open spec fn value_of(s: Seq<(Seq<char>, Seq<u8>)>, k: Seq<char>) -> Seq<u8> {
    s[key_index(s, k)].1
}

pub open spec fn remove_key(s: Seq<(Seq<char>, Seq<u8>)>, k: Seq<char>) -> Seq<(Seq<char>, Seq<u8>)> {
    if contains_key(s, k) {
        s.remove(key_index(s, k))
    } else {
        s
    }
}

pub open spec fn unique_keys(s: Seq<(Seq<char>, Seq<u8>)>) -> bool {
    forall|i: int, j: int| 0 <= i < j < s.len() ==> s[i].0 != s[j].0
}

/// How a hit reorders the recency sequence: the entry for `k` moves to the
/// most-recently-used end, everything else keeps its relative order. A miss
/// changes nothing.
pub open spec fn get_update(s: Seq<(Seq<char>, Seq<u8>)>, k: Seq<char>) -> Seq<(Seq<char>, Seq<u8>)> {
    if contains_key(s, k) {
        remove_key(s, k).push((k, value_of(s, k)))
    } else {
        s
    }
}

/// How an insert transforms the recency sequence: any previous entry for `k`
/// is dropped, the least-recently-used entry is evicted when a fresh key
/// would overflow the capacity, and `(k, v)` lands at the most-recently-used
/// end.
pub open spec fn put_update(s: Seq<(Seq<char>, Seq<u8>)>, cap: nat, k: Seq<char>, v: Seq<u8>) -> Seq<(Seq<char>, Seq<u8>)> {
    let without = remove_key(s, k);
    let trimmed = if !contains_key(s, k) && s.len() >= cap {
        without.subrange(1, without.len() as int)
    } else {
        without
    };
    trimmed.push((k, v))
}

/// Relies on lru::LruCache::new: a fresh cache is empty and keeps the
/// capacity it was created with.
#[verifier::external_body]
fn lru_new(cap: usize) -> (r: ResponseCache)
    requires
        cap >= 1,
    ensures
        lru_entries(r) == Seq::<(Seq<char>, Seq<u8>)>::empty(),
        lru_cap(r) == cap as nat,
{
    ResponseCache { inner: lru::LruCache::new(std::num::NonZeroUsize::new(cap).unwrap()) }
}

/// Relies on lru::LruCache::get: returns the value stored under the key and
/// moves that entry to the most-recently-used position; an absent key leaves
/// the cache unchanged.
#[verifier::external_body]
fn lru_get(c: &mut ResponseCache, k: &String) -> (r: Option<Vec<u8>>)
    ensures
        lru_cap(*final(c)) == lru_cap(*old(c)),
        contains_key(lru_entries(*old(c)), k@) ==> {
            &&& r matches Some(v) && v@ == value_of(lru_entries(*old(c)), k@)
            &&& lru_entries(*final(c)) == get_update(lru_entries(*old(c)), k@)
        },
        !contains_key(lru_entries(*old(c)), k@) ==> {
            &&& r is None
            &&& lru_entries(*final(c)) == lru_entries(*old(c))
        },
{
    c.inner.get(k).cloned()
}

/// Relies on lru::LruCache::put: an existing key has its value replaced and
/// refreshed and the old value is returned; a fresh key is inserted at the
/// most-recently-used position, evicting the least-recently-used entry when
/// the cache is already full.
#[verifier::external_body]
fn lru_put(c: &mut ResponseCache, k: String, v: Vec<u8>) -> (r: Option<Vec<u8>>)
    ensures
        lru_cap(*final(c)) == lru_cap(*old(c)),
        lru_entries(*final(c)) == put_update(lru_entries(*old(c)), lru_cap(*old(c)), k@, v@),
        contains_key(lru_entries(*old(c)), k@) ==> (r matches Some(w) && w@ == value_of(lru_entries(*old(c)), k@)),
        !contains_key(lru_entries(*old(c)), k@) ==> r is None,
{
    c.inner.put(k, v)
}

/// Relies on lru::LruCache::len: the number of live entries.
#[verifier::external_body]
fn lru_len(c: &ResponseCache) -> (r: usize)
    ensures
        r == lru_entries(*c).len(),
{
    c.inner.len()
}

impl ResponseCache {
    /// The cached entries in recency order (index 0 least recently used).
    pub open spec fn entries(self) -> Seq<(Seq<char>, Seq<u8>)> {
        lru_entries(self)
    }

    pub open spec fn capacity(self) -> nat {
        lru_cap(self)
    }

    /// Cache invariant: no duplicate keys and never more entries than the
    /// configured capacity.
    pub open spec fn wf(self) -> bool {
        &&& unique_keys(self.entries())
        &&& self.entries().len() <= self.capacity()
        &&& self.capacity() >= 1
    }

    pub fn new(capacity: usize) -> (r: Self)
        requires
            capacity >= 1,
        ensures
            r.wf(),
            r.capacity() == capacity,
            r.entries() == Seq::<(Seq<char>, Seq<u8>)>::empty(),
    {
        lru_new(capacity)
    }

    /// Looks the path up; a hit returns the cached payload and marks the
    /// entry most recently used, a miss changes nothing.
    pub fn get(&mut self, key: &String) -> (r: Option<Vec<u8>>)
        requires
            old(self).wf(),
        ensures
            final(self).wf(),
            final(self).capacity() == old(self).capacity(),
            final(self).entries() == get_update(old(self).entries(), key@),
            contains_key(old(self).entries(), key@) ==> (r matches Some(v) && v@ == value_of(old(self).entries(), key@)),
            !contains_key(old(self).entries(), key@) ==> r is None,
    {
        proof {
            lemma_get_update(self.entries(), key@);
        }
        lru_get(self, key)
    }

    /// Inserts or replaces the entry for the path, marks it most recently
    /// used, and evicts the least-recently-used entry if a fresh key would
    /// overflow the capacity; afterwards the path maps to exactly `value`.
    pub fn put(&mut self, key: String, value: Vec<u8>)
        requires
            old(self).wf(),
        ensures
            final(self).wf(),
            final(self).capacity() == old(self).capacity(),
            final(self).entries() == put_update(old(self).entries(), old(self).capacity(), key@, value@),
            contains_key(final(self).entries(), key@),
            value_of(final(self).entries(), key@) == value@,
            final(self).entries().len() <= final(self).capacity(),
    {
        proof {
            lemma_put_update(self.entries(), self.capacity(), key@, value@);
        }
        let _ = lru_put(self, key, value);
    }

    pub fn len(&self) -> (r: usize)
        ensures
            r == self.entries().len(),
    {
        lru_len(self)
    }
}

/// Removing a key from a duplicate-free recency sequence removes exactly its
/// one entry and disturbs nothing else.
pub proof fn lemma_remove_key(s: Seq<(Seq<char>, Seq<u8>)>, k: Seq<char>)
    requires
        unique_keys(s),
    ensures
        unique_keys(remove_key(s, k)),
        !contains_key(remove_key(s, k), k),
        contains_key(s, k) ==> remove_key(s, k).len() == s.len() - 1,
        !contains_key(s, k) ==> remove_key(s, k) == s,
        forall|k2: Seq<char>| k2 != k ==> contains_key(remove_key(s, k), k2) == contains_key(s, k2),
        forall|k2: Seq<char>| k2 != k && contains_key(s, k2) ==> value_of(remove_key(s, k), k2) == value_of(s, k2),
{
    if contains_key(s, k) {
        let i0 = key_index(s, k);
        assert(0 <= i0 < s.len() && s[i0].0 == k);
        let r = s.remove(i0);
        assert forall|j: int| 0 <= j < r.len() implies r[j] == (if j < i0 { s[j] } else { s[j + 1] }) by {
        }
        assert forall|j: int| 0 <= j < r.len() implies r[j].0 != k by {
            if j < i0 {
                assert(r[j] == s[j]);
            } else {
                assert(r[j] == s[j + 1]);
            }
        }
        assert(!contains_key(r, k));
        assert forall|i: int, j: int| 0 <= i < j < r.len() implies r[i].0 != r[j].0 by {
            let si = if i < i0 { i } else { i + 1 };
            let sj = if j < i0 { j } else { j + 1 };
            assert(r[i] == s[si]);
            assert(r[j] == s[sj]);
            assert(0 <= si < sj < s.len());
        }
        assert forall|k2: Seq<char>| k2 != k && contains_key(s, k2) implies contains_key(r, k2) by {
            let j2 = key_index(s, k2);
            assert(0 <= j2 < s.len() && s[j2].0 == k2);
            assert(j2 != i0);
            let rj = if j2 < i0 { j2 } else { j2 - 1 };
            assert(r[rj] == s[j2]);
            assert(0 <= rj < r.len() && r[rj].0 == k2);
        }
        assert forall|k2: Seq<char>| k2 != k && contains_key(r, k2) implies contains_key(s, k2) by {
            let j2 = key_index(r, k2);
            assert(0 <= j2 < r.len() && r[j2].0 == k2);
            let sj = if j2 < i0 { j2 } else { j2 + 1 };
            assert(r[j2] == s[sj]);
            assert(0 <= sj < s.len() && s[sj].0 == k2);
        }
        assert forall|k2: Seq<char>| k2 != k && contains_key(s, k2) implies value_of(r, k2) == value_of(s, k2) by {
            let ji = key_index(s, k2);
            assert(0 <= ji < s.len() && s[ji].0 == k2);
            let jr = key_index(r, k2);
            assert(0 <= jr < r.len() && r[jr].0 == k2);
            let sj = if jr < i0 { jr } else { jr + 1 };
            assert(r[jr] == s[sj]);
            assert(s[sj].0 == k2);
            if sj != ji {
                assert(false);
            }
            assert(value_of(r, k2) == r[jr].1);
            assert(value_of(s, k2) == s[ji].1);
        }
    }
}

/// Pushing a fresh key onto a duplicate-free recency sequence keeps it
/// duplicate-free and makes the new key map to exactly the pushed value.
pub proof fn lemma_push_fresh(t: Seq<(Seq<char>, Seq<u8>)>, k: Seq<char>, v: Seq<u8>)
    requires
        unique_keys(t),
        !contains_key(t, k),
    ensures
        unique_keys(t.push((k, v))),
        contains_key(t.push((k, v)), k),
        value_of(t.push((k, v)), k) == v,
        t.push((k, v)).len() == t.len() + 1,
        forall|k2: Seq<char>| k2 != k ==> contains_key(t.push((k, v)), k2) == contains_key(t, k2),
{
    let p = t.push((k, v));
    let n = t.len() as int;
    assert(p[n] == (k, v));
    assert forall|j: int| 0 <= j < n implies p[j] == t[j] by {
    }
    assert forall|j: int| 0 <= j < n implies p[j].0 != k by {
        assert(p[j] == t[j]);
    }
    assert forall|i: int, j: int| 0 <= i < j < p.len() implies p[i].0 != p[j].0 by {
        if j < n {
            assert(p[i] == t[i] && p[j] == t[j]);
        } else {
            assert(p[i] == t[i]);
            assert(p[j].0 == k);
        }
    }
    assert(0 <= n < p.len() && p[n].0 == k);
    assert(contains_key(p, k));
    let ki = key_index(p, k);
    assert(0 <= ki < p.len() && p[ki].0 == k);
    if ki != n {
        assert(p[ki] == t[ki]);
        assert(false);
    }
    assert(value_of(p, k) == p[n].1);
    assert forall|k2: Seq<char>| k2 != k && contains_key(t, k2) implies contains_key(p, k2) by {
        let j2 = key_index(t, k2);
        assert(0 <= j2 < t.len() && t[j2].0 == k2);
        assert(p[j2] == t[j2]);
        assert(0 <= j2 < p.len() && p[j2].0 == k2);
    }
    assert forall|k2: Seq<char>| k2 != k && contains_key(p, k2) implies contains_key(t, k2) by {
        let j2 = key_index(p, k2);
        assert(0 <= j2 < p.len() && p[j2].0 == k2);
        assert(j2 != n);
        assert(p[j2] == t[j2]);
        assert(0 <= j2 < t.len() && t[j2].0 == k2);
    }
}

/// Dropping the least-recently-used entry of a duplicate-free recency
/// sequence keeps it duplicate-free, removes that entry's key, and keeps
/// every other key.
pub proof fn lemma_drop_lru(s: Seq<(Seq<char>, Seq<u8>)>)
    requires
        unique_keys(s),
        s.len() >= 1,
    ensures
        unique_keys(s.subrange(1, s.len() as int)),
        s.subrange(1, s.len() as int).len() == s.len() - 1,
        !contains_key(s.subrange(1, s.len() as int), s[0].0),
        forall|k2: Seq<char>| k2 != s[0].0 ==> contains_key(s.subrange(1, s.len() as int), k2) == contains_key(s, k2),
{
    let t = s.subrange(1, s.len() as int);
    assert forall|j: int| 0 <= j < t.len() implies t[j] == s[j + 1] by {
    }
    assert forall|i: int, j: int| 0 <= i < j < t.len() implies t[i].0 != t[j].0 by {
        assert(t[i] == s[i + 1] && t[j] == s[j + 1]);
    }
    assert forall|j: int| 0 <= j < t.len() implies t[j].0 != s[0].0 by {
        assert(t[j] == s[j + 1]);
        assert(0 < j + 1 < s.len());
    }
    assert(!contains_key(t, s[0].0));
    assert forall|k2: Seq<char>| k2 != s[0].0 && contains_key(s, k2) implies contains_key(t, k2) by {
        let j2 = key_index(s, k2);
        assert(0 <= j2 < s.len() && s[j2].0 == k2);
        assert(j2 != 0);
        assert(t[j2 - 1] == s[j2]);
        assert(0 <= j2 - 1 < t.len() && t[j2 - 1].0 == k2);
    }
    assert forall|k2: Seq<char>| k2 != s[0].0 && contains_key(t, k2) implies contains_key(s, k2) by {
        let j2 = key_index(t, k2);
        assert(0 <= j2 < t.len() && t[j2].0 == k2);
        assert(t[j2] == s[j2 + 1]);
        assert(0 <= j2 + 1 < s.len() && s[j2 + 1].0 == k2);
    }
}

/// A hit's reordering keeps the invariant, the length, the key set, and the
/// value found under the key.
pub proof fn lemma_get_update(s: Seq<(Seq<char>, Seq<u8>)>, k: Seq<char>)
    requires
        unique_keys(s),
    ensures
        unique_keys(get_update(s, k)),
        get_update(s, k).len() == s.len(),
        contains_key(s, k) ==> contains_key(get_update(s, k), k) && value_of(get_update(s, k), k) == value_of(s, k),
        forall|k2: Seq<char>| contains_key(get_update(s, k), k2) == contains_key(s, k2),
{
    if contains_key(s, k) {
        lemma_remove_key(s, k);
        lemma_push_fresh(remove_key(s, k), k, value_of(s, k));
    }
}

/// An insert's transformation keeps the invariant and the capacity bound,
/// and afterwards the key maps to exactly the inserted value.
pub proof fn lemma_put_update(s: Seq<(Seq<char>, Seq<u8>)>, cap: nat, k: Seq<char>, v: Seq<u8>)
    requires
        unique_keys(s),
        s.len() <= cap,
        cap >= 1,
    ensures
        unique_keys(put_update(s, cap, k, v)),
        put_update(s, cap, k, v).len() <= cap,
        contains_key(put_update(s, cap, k, v), k),
        value_of(put_update(s, cap, k, v), k) == v,
{
    lemma_remove_key(s, k);
    let w = remove_key(s, k);
    if !contains_key(s, k) && s.len() >= cap {
        assert(w == s);
        lemma_drop_lru(w);
        let t = w.subrange(1, w.len() as int);
        assert(!contains_key(t, k));
        lemma_push_fresh(t, k, v);
    } else {
        lemma_push_fresh(w, k, v);
    }
}

/// Law (least-recently-used eviction): inserting a fresh key into a full
/// cache keeps the cache at capacity, evicts exactly the entry that was
/// least recently accessed, keeps every other entry's key, and makes the new
/// key map to the inserted value.
pub proof fn lemma_put_evicts_lru(s: Seq<(Seq<char>, Seq<u8>)>, cap: nat, k: Seq<char>, v: Seq<u8>)
    requires
        unique_keys(s),
        s.len() == cap,
        cap >= 1,
        !contains_key(s, k),
    ensures
        put_update(s, cap, k, v).len() == cap,
        !contains_key(put_update(s, cap, k, v), s[0].0),
        contains_key(put_update(s, cap, k, v), k),
        value_of(put_update(s, cap, k, v), k) == v,
        forall|k2: Seq<char>| k2 != s[0].0 && k2 != k ==> contains_key(put_update(s, cap, k, v), k2) == contains_key(s, k2),
{
    lemma_remove_key(s, k);
    let w = remove_key(s, k);
    assert(w == s);
    lemma_drop_lru(w);
    let t = w.subrange(1, w.len() as int);
    assert(!contains_key(t, k));
    lemma_push_fresh(t, k, v);
    assert(s[0].0 != k);
}

/// Law (hit consistency): a lookup immediately after an insert of the same
/// key finds exactly the inserted value, before and after the lookup's own
/// recency update.
pub proof fn lemma_put_then_get(s: Seq<(Seq<char>, Seq<u8>)>, cap: nat, k: Seq<char>, v: Seq<u8>)
    requires
        unique_keys(s),
        s.len() <= cap,
        cap >= 1,
    ensures
        contains_key(put_update(s, cap, k, v), k),
        value_of(put_update(s, cap, k, v), k) == v,
        value_of(get_update(put_update(s, cap, k, v), k), k) == v,
{
    lemma_put_update(s, cap, k, v);
    lemma_get_update(put_update(s, cap, k, v), k);
}

/// One cache operation, for stating run-level laws.
pub enum CacheOp {
    Lookup(Seq<char>),
    Insert(Seq<char>, Seq<u8>),
}

pub open spec fn apply_op(s: Seq<(Seq<char>, Seq<u8>)>, cap: nat, op: CacheOp) -> Seq<(Seq<char>, Seq<u8>)> {
    match op {
        CacheOp::Lookup(k) => get_update(s, k),
        CacheOp::Insert(k, v) => put_update(s, cap, k, v),
    }
}

pub open spec fn apply_ops(s: Seq<(Seq<char>, Seq<u8>)>, cap: nat, ops: Seq<CacheOp>) -> Seq<(Seq<char>, Seq<u8>)>
    decreases ops.len(),
{
    if ops.len() == 0 {
        s
    } else {
        apply_ops(apply_op(s, cap, ops[0]), cap, ops.drop_first())
    }
}

/// Law (bounded occupancy): any sequence of lookups and inserts, starting
/// from a well-formed cache, leaves the keys duplicate-free and never takes
/// the cache beyond its capacity.
pub proof fn lemma_ops_keep_bound(s: Seq<(Seq<char>, Seq<u8>)>, cap: nat, ops: Seq<CacheOp>)
    requires
        unique_keys(s),
        s.len() <= cap,
        cap >= 1,
    ensures
        unique_keys(apply_ops(s, cap, ops)),
        apply_ops(s, cap, ops).len() <= cap,
    decreases ops.len(),
{
    if ops.len() > 0 {
        match ops[0] {
            CacheOp::Lookup(k) => lemma_get_update(s, k),
            CacheOp::Insert(k, v) => lemma_put_update(s, cap, k, v),
        }
        lemma_ops_keep_bound(apply_op(s, cap, ops[0]), cap, ops.drop_first());
    }
}

} // verus!
