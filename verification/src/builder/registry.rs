//! The registry of builder states, addressed by numeric handles, and the shared
//! cache of rendered queries keyed by structural fingerprint.
use crate::builder::state::{fresh_parts, PartsView, QueryParts, ValidationCache, VALIDATION_STATUS_UNKNOWN};
use crate::dialect::{dialect_for_name, spec_normalize_dialect_name, Dialect};
use crate::error::BuilderError;
use crate::text::{decimal, decimal_string, parse_u64, spec_parse_u64};
use crate::types::{Duplicate, QueryView, SqlQuery};
use dashmap::DashMap;
use lru::LruCache;
use std::collections::hash_map::RandomState;
use vstd::prelude::*;

verus! {

// ─── Outside collections ─────────────────────────────────────────────────────

#[verifier::external_type_specification]
#[verifier::external_body]
#[verifier::reject_recursive_types(K)]
#[verifier::reject_recursive_types(V)]
#[verifier::reject_recursive_types(S)]
pub struct ExDashMap<K, V, S>(DashMap<K, V, S>);

#[verifier::external_type_specification]
#[verifier::external_body]
#[verifier::reject_recursive_types(K)]
#[verifier::reject_recursive_types(V)]
#[verifier::reject_recursive_types(S)]
pub struct ExLruCache<K, V, S>(LruCache<K, V, S>);

/// The builder states a handle map holds, by key.
pub uninterp spec fn handle_entries(m: DashMap<u64, QueryParts>) -> Map<u64, PartsView>;

/// The queries a least-recently-used cache holds, by key.
pub uninterp spec fn cache_entries(c: LruCache<u64, SqlQuery, RandomState>) -> Map<u64, QueryView>;

/// The capacity a least-recently-used cache was given.
pub uninterp spec fn cache_capacity(c: LruCache<u64, SqlQuery, RandomState>) -> nat;

/// `DashMap::new`: an empty map.
#[verifier::external_body]
fn entries_new() -> (m: DashMap<u64, QueryParts>)
    ensures
        handle_entries(m).dom().is_empty(),
{
    DashMap::new()
}

/// `DashMap::insert`: the key now maps to the value, every other key is unchanged.
#[verifier::external_body]
fn entries_insert(m: &mut DashMap<u64, QueryParts>, key: u64, parts: QueryParts)
    ensures
        handle_entries(*final(m)) == handle_entries(*old(m)).insert(key, parts.deep_view()),
{
    m.insert(key, parts);
}

/// `DashMap::get`: a copy of the state stored under the key, if any.
#[verifier::external_body]
fn entries_get(m: &DashMap<u64, QueryParts>, key: u64) -> (r: Option<QueryParts>)
    ensures
        r is Some == handle_entries(*m).contains_key(key),
        r matches Some(p) ==> p.deep_view() == handle_entries(*m)[key],
{
    m.get(&key).map(|e| e.duplicate())
}

/// `DashMap::remove`: the key no longer maps to anything, every other key is unchanged.
#[verifier::external_body]
fn entries_remove(m: &mut DashMap<u64, QueryParts>, key: u64)
    ensures
        handle_entries(*final(m)) == handle_entries(*old(m)).remove(key),
{
    m.remove(&key);
}

/// `LruCache::with_hasher`: an empty cache of the given (non-zero) capacity.
#[verifier::external_body]
fn lru_new(capacity: usize) -> (c: LruCache<u64, SqlQuery, RandomState>)
    requires
        capacity > 0,
    ensures
        cache_entries(c).dom().is_empty(),
        cache_capacity(c) == capacity,
{
    LruCache::with_hasher(std::num::NonZeroUsize::new(capacity).unwrap(), RandomState::new())
}

/// `LruCache::get`: the query stored under the key, if any (the entry becomes the most
/// recently used; what the cache holds does not change).
#[verifier::external_body]
fn lru_get(c: &mut LruCache<u64, SqlQuery, RandomState>, key: u64) -> (r: Option<SqlQuery>)
    ensures
        cache_entries(*final(c)) == cache_entries(*old(c)),
        cache_capacity(*final(c)) == cache_capacity(*old(c)),
        cache_entries(*old(c)).contains_key(key) ==> (r matches Some(q) && q@ == cache_entries(*old(c))[key]),
        !cache_entries(*old(c)).contains_key(key) ==> r is None,
{
    c.get(&key).map(|q| q.copy())
}

/// `LruCache::put`: the key now maps to the query. A key already present is updated in
/// place; a new key is added, and when the cache was full one other entry (the least
/// recently used, which the contents alone do not name) is evicted first.
#[verifier::external_body]
fn lru_put(c: &mut LruCache<u64, SqlQuery, RandomState>, key: u64, query: SqlQuery)
    ensures
        cache_capacity(*final(c)) == cache_capacity(*old(c)),
        cache_entries(*final(c)).dom().finite(),
        ({
            let before = cache_entries(*old(c));
            let after = cache_entries(*final(c));
            if before.contains_key(key) || before.dom().len() < cache_capacity(*old(c)) {
                after == before.insert(key, query@)
            } else {
                exists|evicted: u64| before.contains_key(evicted) && after == before.remove(evicted).insert(key, query@)
            }
        }),
{
    c.put(key, query);
}

/// `LruCache::resize`: the capacity becomes `capacity` (non-zero); entries beyond it are
/// evicted, the others keep their queries.
#[verifier::external_body]
fn lru_resize(c: &mut LruCache<u64, SqlQuery, RandomState>, capacity: usize)
    requires
        capacity > 0,
    ensures
        cache_capacity(*final(c)) == capacity,
        cache_entries(*final(c)).dom().finite(),
        cache_entries(*final(c)).dom().len() <= capacity,
        cache_entries(*final(c)) <= cache_entries(*old(c)),
{
    c.resize(std::num::NonZeroUsize::new(capacity).unwrap());
}

/// `LruCache::clear`: no entries remain; the capacity is unchanged.
#[verifier::external_body]
fn lru_clear(c: &mut LruCache<u64, SqlQuery, RandomState>)
    ensures
        cache_entries(*final(c)).dom().is_empty(),
        cache_capacity(*final(c)) == cache_capacity(*old(c)),
{
    c.clear();
}

/// `LruCache::len`: the number of entries.
#[verifier::external_body]
fn lru_len(c: &LruCache<u64, SqlQuery, RandomState>) -> (r: usize)
    ensures
        r == cache_entries(*c).dom().len(),
{
    c.len()
}

// ─── The registry ────────────────────────────────────────────────────────────

/// Capacity of the structural cache of a new registry.
pub const DEFAULT_STRUCTURAL_CACHE_CAPACITY: usize = 1024;

/// Builder states by handle, the structural query cache, and the next handle to give out.
pub struct Registry {
    entries: DashMap<u64, QueryParts>,
    structural: LruCache<u64, SqlQuery, RandomState>,
    next: u64,
}

/// The abstract content of a [`Registry`].
pub struct RegistryView {
    pub entries: Map<u64, PartsView>,
    pub structural: Map<u64, QueryView>,
    pub capacity: nat,
    pub next: u64,
}

impl View for Registry {
    type V = RegistryView;

    closed spec fn view(&self) -> RegistryView {
        RegistryView {
            entries: handle_entries(self.entries),
            structural: cache_entries(self.structural),
            capacity: cache_capacity(self.structural),
            next: self.next,
        }
    }
}

impl RegistryView {
    /// The structural cache holds no more entries than its capacity.
    pub open spec fn wf(self) -> bool {
        &&& self.structural.dom().finite()
        &&& self.structural.dom().len() <= self.capacity
        &&& self.capacity > 0
    }

    /// Every stored key is below the next handle, so the next handle names no state yet.
    pub open spec fn keys_below_next(self) -> bool {
        forall|k: u64| #[trigger] self.entries.contains_key(k) ==> k < self.next
    }
}

/// The message for a handle that does not name a stored state.
pub open spec fn not_found_msg(handle: Seq<char>) -> Seq<char> {
    "Builder handle '"@ + handle + "' not found or expired"@
}

/// The message for text that is not a handle.
pub open spec fn invalid_handle_msg(id: Seq<char>) -> Seq<char> {
    "Invalid builder handle: "@ + id
}

/// The key a handle text names, or the message it is refused with.
pub open spec fn spec_parse_handle(id: Seq<char>) -> Result<u64, Seq<char>> {
    match spec_parse_u64(id) {
        Some(k) => Ok(k),
        None => Err(invalid_handle_msg(id)),
    }
}

/// The state stored under a key, or the not-found message.
pub open spec fn stored_parts(r: RegistryView, key: u64) -> Result<PartsView, Seq<char>> {
    if r.entries.contains_key(key) {
        Ok(r.entries[key])
    } else {
        Err(not_found_msg(decimal(key as nat)))
    }
}

/// The state a handle text names (the not-found message quotes the key it reads as).
pub open spec fn handle_parts(r: RegistryView, id: Seq<char>) -> Result<PartsView, Seq<char>> {
    match spec_parse_handle(id) {
        Err(e) => Err(e),
        Ok(k) => if r.entries.contains_key(k) {
            Ok(r.entries[k])
        } else {
            Err(not_found_msg(decimal(k as nat)))
        },
    }
}

/// A stored state prepared for storing under a new handle: no cached query, nothing
/// known of its validation.
pub open spec fn reset_caches(p: PartsView) -> PartsView {
    PartsView { cached_query: None, validation: (VALIDATION_STATUS_UNKNOWN, None), ..p }
}

/// `r` is the handle text of key `k`.
pub open spec fn is_handle(r: String, k: u64) -> bool {
    r@ == decimal(k as nat)
}

/// Read a handle text as a key.
pub fn registry_parse_handle(id: &str) -> (r: Result<u64, String>)
    ensures
        match spec_parse_handle(id@) {
            Ok(k) => r == Ok::<u64, String>(k),
            Err(e) => r matches Err(m) && m@ == e,
        },
{
    match parse_u64(id) {
        Some(k) => Ok(k),
        None => Err(BuilderError::InvalidHandle(id.to_string()).message()),
    }
}

/// Stale handles are not evicted by time: nothing to do.
pub fn registry_evict_stale() {
}

impl Registry {
    /// An empty registry whose first handle is 1.
    pub fn new() -> (r: Registry)
        ensures
            r@.entries == Map::<u64, PartsView>::empty(),
            r@.structural == Map::<u64, QueryView>::empty(),
            r@.capacity == DEFAULT_STRUCTURAL_CACHE_CAPACITY,
            r@.next == 1,
            r@.wf(),
            r@.keys_below_next(),
    {
        let r = Registry { entries: entries_new(), structural: lru_new(DEFAULT_STRUCTURAL_CACHE_CAPACITY), next: 1 };
        assert(r@.entries =~= Map::<u64, PartsView>::empty());
        assert(r@.structural =~= Map::<u64, QueryView>::empty());
        r
    }

    /// The next handle; the counter wraps around past the largest key.
    fn generate_handle(&mut self) -> (k: u64)
        ensures
            k == old(self)@.next,
            final(self)@ == (RegistryView { next: old(self)@.next.wrapping_add(1), ..old(self)@ }),
    {
        let k = self.next;
        self.next = self.next.wrapping_add(1);
        k
    }

    /// Store a state under a key.
    pub(crate) fn put(&mut self, key: u64, parts: QueryParts)
        ensures
            final(self)@ == (RegistryView { entries: old(self)@.entries.insert(key, parts.deep_view()), ..old(self)@ }),
    {
        entries_insert(&mut self.entries, key, parts);
    }

    /// Register a new, empty builder for the named dialect (Postgres when none is named)
    /// and return its handle.
    pub fn registry_new(&mut self, dialect: Option<&str>) -> (r: String)
        ensures
            is_handle(r, old(self)@.next),
            final(self)@.next == old(self)@.next.wrapping_add(1),
            final(self)@.structural == old(self)@.structural,
            final(self)@.capacity == old(self)@.capacity,
            exists|d: Dialect| final(self)@.entries == old(self)@.entries.insert(old(self)@.next, fresh_parts(d))
                && match dialect {
                    Some(name) => dialect_for_name(d, spec_normalize_dialect_name(name@)),
                    None => d is Postgres,
                },
    {
        let key = self.generate_handle();
        let d = match dialect {
            Some(name) => Dialect::parse(name),
            None => Dialect::Postgres,
        };
        let parts = QueryParts::fresh(d);
        self.put(key, parts);
        decimal_string(key)
    }

    /// Copy the state a handle names under a new handle (without its cached query).
    /// A new handle is drawn before the lookup, whether or not it succeeds.
    pub fn registry_clone(&mut self, id: &str) -> (r: Result<String, String>)
        ensures
            match spec_parse_handle(id@) {
                Err(e) => r matches Err(m) && m@ == e && final(self)@ == old(self)@,
                Ok(k) => {
                    &&& final(self)@.next == old(self)@.next.wrapping_add(1)
                    &&& final(self)@.structural == old(self)@.structural
                    &&& final(self)@.capacity == old(self)@.capacity
                    &&& if old(self)@.entries.contains_key(k) {
                        &&& r matches Ok(h) && is_handle(h, old(self)@.next)
                        &&& final(self)@.entries == old(self)@.entries.insert(old(self)@.next,
                            PartsView { cached_query: None, ..old(self)@.entries[k] })
                    } else {
                        &&& r matches Err(m) && m@ == not_found_msg(id@)
                        &&& final(self)@.entries == old(self)@.entries
                    }
                },
            },
    {
        let key = registry_parse_handle(id)?;
        let new_key = self.generate_handle();
        let mut parts = match entries_get(&self.entries, key) {
            Some(p) => p,
            None => return Err(BuilderError::HandleNotFound(id.to_string()).message()),
        };
        parts.cached_query = None;
        self.put(new_key, parts);
        Ok(decimal_string(new_key))
    }

    /// Forget the state a handle names (nothing happens for text that is not a handle).
    pub fn registry_drop(&mut self, id: &str)
        ensures
            match spec_parse_handle(id@) {
                Err(_) => final(self)@ == old(self)@,
                Ok(k) => final(self)@ == (RegistryView { entries: old(self)@.entries.remove(k), ..old(self)@ }),
            },
    {
        if let Ok(key) = registry_parse_handle(id) {
            entries_remove(&mut self.entries, key);
        }
    }

    /// A copy of the state a handle names.
    pub fn registry_get_cloned(&self, id: &str) -> (r: Result<QueryParts, String>)
        ensures
            match handle_parts(self@, id@) {
                Ok(p) => r matches Ok(q) && q.deep_view() == p,
                Err(e) => r matches Err(m) && m@ == e,
            },
    {
        let key = registry_parse_handle(id)?;
        match entries_get(&self.entries, key) {
            Some(p) => Ok(p),
            None => Err(BuilderError::HandleNotFound(decimal_string(key)).message()),
        }
    }

    /// A copy of the state stored under a key.
    pub fn registry_get_cloned_key(&self, key: u64) -> (r: Result<QueryParts, String>)
        ensures
            match stored_parts(self@, key) {
                Ok(p) => r matches Ok(q) && q.deep_view() == p,
                Err(e) => r matches Err(m) && m@ == e,
            },
    {
        match entries_get(&self.entries, key) {
            Some(p) => Ok(p),
            None => Err(BuilderError::HandleNotFound(decimal_string(key)).message()),
        }
    }

    /// The dialect of the state a handle names (Postgres when there is none).
    pub fn registry_get_dialect(&self, id: &str) -> (d: Dialect)
        ensures
            match handle_parts(self@, id@) {
                Ok(p) => d == p.dialect,
                Err(_) => d is Postgres,
            },
    {
        match self.registry_get_cloned(id) {
            Ok(p) => p.dialect,
            Err(_) => Dialect::Postgres,
        }
    }

    /// The cached query of the state a handle names, if it has one.
    pub fn registry_try_get_cached(&self, id: &str) -> (r: Option<SqlQuery>)
        ensures
            match handle_parts(self@, id@) {
                Ok(p) => r.deep_view() == p.cached_query,
                Err(_) => r is None,
            },
    {
        let key = match registry_parse_handle(id) {
            Ok(k) => k,
            Err(_) => return None,
        };
        self.registry_try_get_cached_key(key)
    }

    /// The cached query of the state stored under a key, if it has one.
    pub fn registry_try_get_cached_key(&self, key: u64) -> (r: Option<SqlQuery>)
        ensures
            match stored_parts(self@, key) {
                Ok(p) => r.deep_view() == p.cached_query,
                Err(_) => r is None,
            },
    {
        match entries_get(&self.entries, key) {
            Some(p) => p.cached_query,
            None => None,
        }
    }

    /// Remember a rendered query for the state a handle names.
    pub fn registry_set_cached(&mut self, id: &str, query: SqlQuery)
        ensures
            match handle_parts(old(self)@, id@) {
                Ok(p) => final(self)@ == (RegistryView {
                    entries: old(self)@.entries.insert(spec_parse_handle(id@)->Ok_0, PartsView { cached_query: Some(query@), ..p }),
                    ..old(self)@
                }),
                Err(_) => final(self)@ == old(self)@,
            },
    {
        if let Ok(key) = registry_parse_handle(id) {
            self.registry_set_cached_key(key, query);
        }
    }

    /// Remember a rendered query for the state stored under a key.
    pub fn registry_set_cached_key(&mut self, key: u64, query: SqlQuery)
        ensures
            match stored_parts(old(self)@, key) {
                Ok(p) => final(self)@ == (RegistryView {
                    entries: old(self)@.entries.insert(key, PartsView { cached_query: Some(query@), ..p }),
                    ..old(self)@
                }),
                Err(_) => final(self)@ == old(self)@,
            },
    {
        if let Some(mut parts) = entries_get(&self.entries, key) {
            parts.cached_query = Some(query);
            self.put(key, parts);
        }
    }

    /// The query the structural cache holds for a fingerprint, if any.
    pub fn registry_try_get_structural_cached(&mut self, fingerprint: u64) -> (r: Option<SqlQuery>)
        ensures
            final(self)@ == old(self)@,
            old(self)@.structural.contains_key(fingerprint) ==> (r matches Some(q) && q@ == old(self)@.structural[fingerprint]),
            !old(self)@.structural.contains_key(fingerprint) ==> r is None,
    {
        lru_get(&mut self.structural, fingerprint)
    }

    /// Remember a query in the structural cache under a fingerprint; when the cache is
    /// full and the fingerprint is new, one other entry is evicted.
    pub fn registry_set_structural_cached(&mut self, fingerprint: u64, query: SqlQuery)
        requires
            old(self)@.wf(),
        ensures
            final(self)@.wf(),
            final(self)@.entries == old(self)@.entries,
            final(self)@.next == old(self)@.next,
            final(self)@.capacity == old(self)@.capacity,
            final(self)@.structural.contains_key(fingerprint),
            final(self)@.structural[fingerprint] == query@,
            forall|k: u64| k != fingerprint && #[trigger] final(self)@.structural.contains_key(k) ==>
                old(self)@.structural.contains_key(k) && final(self)@.structural[k] == old(self)@.structural[k],
            old(self)@.structural.contains_key(fingerprint) || old(self)@.structural.dom().len() < old(self)@.capacity
                ==> final(self)@.structural == old(self)@.structural.insert(fingerprint, query@),
    {
        let ghost q = query@;
        let ghost before = cache_entries(self.structural);
        lru_put(&mut self.structural, fingerprint, query);
        proof {
            let after = cache_entries(self.structural);
            if before.contains_key(fingerprint) {
                assert(after.dom() =~= before.dom());
            } else if before.dom().len() < cache_capacity(self.structural) {
                assert(after.dom() =~= before.dom().insert(fingerprint));
            } else {
                let e = choose|evicted: u64| before.contains_key(evicted) && after == before.remove(evicted).insert(fingerprint, q);
                assert(after.dom() =~= before.dom().remove(e).insert(fingerprint));
            }
        }
    }

    /// Store a state under a new handle, with its cached query and validation outcome
    /// cleared, and return the handle.
    pub fn registry_insert(&mut self, parts: QueryParts) -> (r: String)
        ensures
            is_handle(r, old(self)@.next),
            final(self)@ == (RegistryView {
                entries: old(self)@.entries.insert(old(self)@.next, reset_caches(parts.deep_view())),
                next: old(self)@.next.wrapping_add(1),
                ..old(self)@
            }),
    {
        let ghost pv = parts.deep_view();
        let mut parts = parts;
        parts.cached_query = None;
        parts.validation_cache = ValidationCache::new();
        let key = self.generate_handle();
        assert(parts.deep_view() == reset_caches(pv));
        self.put(key, parts);
        decimal_string(key)
    }

    /// Empty the structural cache and give it its default capacity again.
    pub fn reset_structural_cache(&mut self)
        ensures
            final(self)@ == (RegistryView {
                structural: Map::empty(),
                capacity: DEFAULT_STRUCTURAL_CACHE_CAPACITY as nat,
                ..old(self)@
            }),
    {
        lru_resize(&mut self.structural, DEFAULT_STRUCTURAL_CACHE_CAPACITY);
        lru_clear(&mut self.structural);
        assert(self@.structural =~= Map::<u64, QueryView>::empty());
    }

    /// The number of queries in the structural cache.
    pub fn structural_cache_len(&self) -> (r: usize)
        ensures
            r == self@.structural.dom().len(),
    {
        lru_len(&self.structural)
    }

    /// Give the structural cache a new capacity (at least 1); queries beyond it are evicted.
    pub fn set_structural_cache_capacity(&mut self, capacity: usize)
        ensures
            final(self)@.capacity == (if capacity == 0 { 1 } else { capacity }),
            final(self)@.wf(),
            final(self)@.structural <= old(self)@.structural,
            final(self)@.entries == old(self)@.entries,
            final(self)@.next == old(self)@.next,
    {
        let normalized = if capacity == 0 { 1 } else { capacity };
        lru_resize(&mut self.structural, normalized);
    }
}

} // verus!
