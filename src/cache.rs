//! A key to value cache whose entries expire a fixed time after writing.

use vstd::prelude::*;
use std::time::Instant;
use crate::clock::{clock_start, millis_since};
use crate::product::Product;
use crate::region::Region;

verus! {

struct CacheEntry<T> {
    key: String,
    data: T,
    expires_at: u64,
}

/// Seconds as milliseconds, capped at the largest `u64`.
pub open spec fn ttl_millis(secs: u64) -> u64 {
    if secs * 1000 > u64::MAX {
        u64::MAX
    } else {
        (secs * 1000) as u64
    }
}

/// When an entry written at `now` stops being served, capped at the largest
/// `u64`.
pub open spec fn expiry(now: u64, ttl: u64) -> u64 {
    if now + ttl > u64::MAX {
        u64::MAX
    } else {
        (now + ttl) as u64
    }
}

/// The value stored under `key`, if its entry has not expired at `now`.
pub open spec fn live<T>(m: Map<Seq<char>, (T, u64)>, key: Seq<char>, now: u64) -> Option<T> {
    if m.contains_key(key) && now < m[key].1 {
        Some(m[key].0)
    } else {
        None
    }
}

spec fn entries_map<T>(s: Seq<CacheEntry<T>>) -> Map<Seq<char>, (T, u64)>
    decreases s.len(),
{
    if s.len() == 0 {
        Map::empty()
    } else {
        entries_map(s.drop_last()).insert(s.last().key@, (s.last().data, s.last().expires_at))
    }
}

spec fn keys_unique<T>(s: Seq<CacheEntry<T>>) -> bool {
    forall|i: int, j: int|
        #![trigger s[i], s[j]]
        0 <= i < s.len() && 0 <= j < s.len() && i != j ==> s[i].key@ != s[j].key@
}

proof fn lemma_unique_prefix<T>(s: Seq<CacheEntry<T>>)
    requires
        s.len() > 0,
        keys_unique(s),
    ensures
        keys_unique(s.drop_last()),
        forall|j: int| 0 <= j < s.len() - 1 ==> (#[trigger] s.drop_last()[j]).key@ != s.last().key@,
{
    let p = s.drop_last();
    assert forall|i: int, j: int| 0 <= i < p.len() && 0 <= j < p.len() && i != j implies p[i].key@
        != p[j].key@ by {
        assert(p[i] == s[i] && p[j] == s[j]);
    }
    assert forall|j: int| 0 <= j < s.len() - 1 implies (#[trigger] p[j]).key@ != s.last().key@ by {
        assert(p[j] == s[j]);
    }
}

/// The map holds a key exactly when some entry has it, with the value of
/// that entry.
proof fn lemma_entries_map<T>(s: Seq<CacheEntry<T>>, k: Seq<char>)
    requires
        keys_unique(s),
    ensures
        entries_map(s).contains_key(k) <==> exists|i: int| 0 <= i < s.len() && (#[trigger] s[i]).key@ == k,
        forall|i: int|
            0 <= i < s.len() && (#[trigger] s[i]).key@ == k ==> entries_map(s)[k] == (s[i].data, s[i].expires_at),
    decreases s.len(),
{
    if s.len() > 0 {
        let p = s.drop_last();
        lemma_unique_prefix(s);
        lemma_entries_map(p, k);
        if entries_map(p).contains_key(k) {
            let i = choose|i: int| 0 <= i < p.len() && (#[trigger] p[i]).key@ == k;
            assert(s[i] == p[i]);
        }
        assert forall|i: int| 0 <= i < s.len() && (#[trigger] s[i]).key@ == k implies entries_map(s)[k]
            == (s[i].data, s[i].expires_at) by {
            if i < s.len() - 1 {
                assert(s[i] == p[i]);
            }
        }
        if exists|i: int| 0 <= i < s.len() && (#[trigger] s[i]).key@ == k {
            let i = choose|i: int| 0 <= i < s.len() && (#[trigger] s[i]).key@ == k;
            if i < s.len() - 1 {
                assert(s[i] == p[i]);
            }
        }
    }
}

/// Replacing the entry at `i` by one with the same key stores the new value
/// under that key and leaves the others.
proof fn lemma_entries_update<T>(s: Seq<CacheEntry<T>>, i: int, e: CacheEntry<T>)
    requires
        keys_unique(s),
        0 <= i < s.len(),
        e.key@ == s[i].key@,
    ensures
        keys_unique(s.update(i, e)),
        entries_map(s.update(i, e)) == entries_map(s).insert(e.key@, (e.data, e.expires_at)),
    decreases s.len(),
{
    let u = s.update(i, e);
    assert forall|a: int, b: int| 0 <= a < u.len() && 0 <= b < u.len() && a != b implies u[a].key@
        != u[b].key@ by {
        assert(s[a].key@ != s[b].key@);
    }
    lemma_unique_prefix(s);
    if i == s.len() - 1 {
        assert(u.drop_last() =~= s.drop_last());
        lemma_entries_map(s.drop_last(), e.key@);
        assert(entries_map(u) =~= entries_map(s).insert(e.key@, (e.data, e.expires_at)));
    } else {
        assert(u.drop_last() =~= s.drop_last().update(i, e));
        lemma_entries_update(s.drop_last(), i, e);
        assert(s.drop_last()[i] == s[i]);
        assert(entries_map(u) =~= entries_map(s).insert(e.key@, (e.data, e.expires_at)));
    }
}

/// Removing the entry at `i` removes its key.
proof fn lemma_entries_remove<T>(s: Seq<CacheEntry<T>>, i: int)
    requires
        keys_unique(s),
        0 <= i < s.len(),
    ensures
        keys_unique(s.remove(i)),
        entries_map(s.remove(i)) == entries_map(s).remove(s[i].key@),
    decreases s.len(),
{
    let r = s.remove(i);
    assert forall|a: int, b: int| 0 <= a < r.len() && 0 <= b < r.len() && a != b implies r[a].key@
        != r[b].key@ by {
        let a2 = if a < i { a } else { a + 1 };
        let b2 = if b < i { b } else { b + 1 };
        assert(r[a] == s[a2] && r[b] == s[b2]);
    }
    lemma_unique_prefix(s);
    let p = s.drop_last();
    if i == s.len() - 1 {
        assert(r =~= p);
        lemma_entries_map(p, s[i].key@);
        assert(entries_map(r) =~= entries_map(s).remove(s[i].key@));
    } else {
        assert(r.drop_last() =~= p.remove(i));
        assert(r.last() == s.last());
        lemma_entries_remove(p, i);
        assert(p[i] == s[i]);
        assert(entries_map(r) =~= entries_map(s).remove(s[i].key@));
    }
}

/// Key to value store whose entries stop being served a fixed time after
/// they are written. Expired entries are not swept; they are skipped on
/// reading and replaced on writing.
pub struct Cache<T> {
    entries: Vec<CacheEntry<T>>,
    ttl: u64,
    origin: Instant,
}

impl<T> View for Cache<T> {
    /// Each key with its value and the time, in milliseconds on the cache's
    /// clock, from which it is no longer served.
    type V = Map<Seq<char>, (T, u64)>;

    closed spec fn view(&self) -> Map<Seq<char>, (T, u64)> {
        entries_map(self.entries@)
    }
}

impl<T: Clone> Cache<T> {
    pub closed spec fn wf(&self) -> bool {
        keys_unique(self.entries@)
    }

    /// Time to live of each entry, in milliseconds.
    pub closed spec fn ttl_spec(&self) -> u64 {
        self.ttl
    }

    /// An empty cache whose entries live `ttl_secs` seconds.
    pub fn new(ttl_secs: u64) -> (r: Self)
        ensures
            r.wf(),
            r@ == Map::<Seq<char>, (T, u64)>::empty(),
            r.ttl_spec() == ttl_millis(ttl_secs),
    {
        let ttl: u64 = if ttl_secs > u64::MAX / 1000 { u64::MAX } else { ttl_secs * 1000 };
        Cache { entries: Vec::new(), ttl, origin: clock_start() }
    }

    fn find(&self, key: &String) -> (r: Option<usize>)
        requires
            self.wf(),
        ensures
            r is None ==> !self@.contains_key(key@),
            r is Some ==> r->0 < self.entries@.len() && self.entries@[r->0 as int].key@ == key@
                && self@.contains_key(key@) && self@[key@] == (
                self.entries@[r->0 as int].data,
                self.entries@[r->0 as int].expires_at,
            ),
    {
        let mut i: usize = 0;
        while i < self.entries.len()
            invariant
                0 <= i <= self.entries@.len(),
                keys_unique(self.entries@),
                forall|j: int| 0 <= j < i ==> (#[trigger] self.entries@[j]).key@ != key@,
            decreases self.entries@.len() - i,
        {
            if self.entries[i].key == *key {
                assert(self.entries@[i as int].key@ == key@);
                proof {
                    lemma_entries_map(self.entries@, key@);
                }
                return Some(i);
            }
            i = i + 1;
        }
        proof {
            lemma_entries_map(self.entries@, key@);
        }
        None
    }

    /// The value under `key` if its entry is still live at time `now`.
    pub fn get_at(&self, key: &str, now: u64) -> (r: Option<T>)
        requires
            self.wf(),
        ensures
            r is Some <==> live(self@, key@, now) is Some,
            r is Some ==> cloned(live(self@, key@, now)->0, r->0),
    {
        let k = key.to_owned();
        match self.find(&k) {
            Some(i) => {
                if now < self.entries[i].expires_at {
                    Some(self.entries[i].data.clone())
                } else {
                    None
                }
            },
            None => None,
        }
    }

    /// Whether `key` has a live entry at time `now`.
    pub fn has_at(&self, key: &str, now: u64) -> (r: bool)
        requires
            self.wf(),
        ensures
            r == live(self@, key@, now) is Some,
    {
        let k = key.to_owned();
        match self.find(&k) {
            Some(i) => now < self.entries[i].expires_at,
            None => false,
        }
    }

    /// Stores `data` under `key` as written at time `now`.
    pub fn set_at(&mut self, key: String, data: T, now: u64)
        requires
            old(self).wf(),
        ensures
            final(self).wf(),
            final(self).ttl_spec() == old(self).ttl_spec(),
            final(self)@ == old(self)@.insert(key@, (data, expiry(now, old(self).ttl_spec()))),
    {
        let expires_at: u64 = if now > u64::MAX - self.ttl { u64::MAX } else { now + self.ttl };
        match self.find(&key) {
            Some(i) => {
                let ghost e = CacheEntry { key, data, expires_at };
                proof {
                    lemma_entries_update(self.entries@, i as int, e);
                }
                self.entries.set(i, CacheEntry { key, data, expires_at });
            },
            None => {
                let ghost old_entries = self.entries@;
                self.entries.push(CacheEntry { key, data, expires_at });
                proof {
                    let s = self.entries@;
                    assert(s.drop_last() =~= old_entries);
                    lemma_entries_map(old_entries, s.last().key@);
                    assert forall|a: int, b: int|
                        0 <= a < s.len() && 0 <= b < s.len() && a != b implies s[a].key@
                        != s[b].key@ by {
                        if a < s.len() - 1 && b < s.len() - 1 {
                            assert(old_entries[a] == s[a] && old_entries[b] == s[b]);
                        } else if a < s.len() - 1 {
                            assert(old_entries[a] == s[a]);
                        } else {
                            assert(old_entries[b] == s[b]);
                        }
                    }
                }
            },
        }
    }

    /// Removes the entry under `key`, if any.
    pub fn invalidate(&mut self, key: &str)
        requires
            old(self).wf(),
        ensures
            final(self).wf(),
            final(self).ttl_spec() == old(self).ttl_spec(),
            final(self)@ == old(self)@.remove(key@),
    {
        let k = key.to_owned();
        match self.find(&k) {
            Some(i) => {
                proof {
                    lemma_entries_remove(self.entries@, i as int);
                }
                self.entries.remove(i);
            },
            None => {
                assert(self@ =~= old(self)@.remove(key@));
            },
        }
    }

    /// Removes every entry.
    pub fn clear(&mut self)
        requires
            old(self).wf(),
        ensures
            final(self).wf(),
            final(self).ttl_spec() == old(self).ttl_spec(),
            final(self)@ == Map::<Seq<char>, (T, u64)>::empty(),
    {
        self.entries.clear();
        assert(self.entries@.len() == 0);
    }

    /// Milliseconds on this cache's clock.
    fn now(&self) -> u64 {
        millis_since(&self.origin)
    }

    /// The value under `key` if its entry is still live now.
    pub fn get(&self, key: &str) -> (r: Option<T>)
        requires
            self.wf(),
        ensures
            !self@.contains_key(key@) ==> r is None,
            r is Some ==> self@.contains_key(key@) && cloned(self@[key@].0, r->0),
    {
        let now = self.now();
        self.get_at(key, now)
    }

    /// Whether `key` has a live entry now.
    pub fn has(&self, key: &str) -> (r: bool)
        requires
            self.wf(),
        ensures
            r ==> self@.contains_key(key@),
    {
        let now = self.now();
        self.has_at(key, now)
    }

    /// Stores `data` under `key`, live for the time to live from now on.
    pub fn set(&mut self, key: String, data: T)
        requires
            old(self).wf(),
        ensures
            final(self).wf(),
            final(self).ttl_spec() == old(self).ttl_spec(),
            final(self)@ == old(self)@.insert(key@, (data, final(self)@[key@].1)),
            exists|now: u64| final(self)@[key@].1 == expiry(now, old(self).ttl_spec()),
    {
        let now = self.now();
        let ghost k = key@;
        self.set_at(key, data, now);
        assert(self@[k].1 == expiry(now, old(self).ttl_spec()));
    }
}

/// Written at `now` and read at `t`, an entry is served while less than the
/// time to live has passed and not served from then on.
pub proof fn lemma_live_after_set<T>(
    before: Map<Seq<char>, (T, u64)>,
    key: Seq<char>,
    data: T,
    now: u64,
    ttl: u64,
    t: u64,
)
    requires
        now as int + ttl as int <= u64::MAX,
        now <= t,
    ensures
        t < now + ttl ==> live(before.insert(key, (data, expiry(now, ttl))), key, t) == Some(data),
        t >= now + ttl ==> live(before.insert(key, (data, expiry(now, ttl))), key, t) is None,
{
}

/// Key under which the products of a region are cached.
pub open spec fn products_key(region_id: Seq<char>) -> Seq<char> {
    "products:"@ + region_id
}

/// Key under which the region list is cached.
pub open spec fn regions_key() -> Seq<char> {
    "regions"@
}

/// Product lists per region, live five minutes, and the region list, live
/// thirty minutes.
pub struct DataCache {
    pub products: Cache<Vec<Product>>,
    pub regions: Cache<Vec<Region>>,
}

fn products_key_of(region_id: &str) -> (r: String)
    ensures
        r@ == products_key(region_id@),
{
    let mut k = crate::text::text("products:");
    k.append(region_id);
    k
}

impl DataCache {
    pub open spec fn wf(&self) -> bool {
        self.products.wf() && self.regions.wf()
    }

    pub fn new() -> (r: DataCache)
        ensures
            r.wf(),
            r.products@ == Map::<Seq<char>, (Vec<Product>, u64)>::empty(),
            r.regions@ == Map::<Seq<char>, (Vec<Region>, u64)>::empty(),
            r.products.ttl_spec() == 300_000,
            r.regions.ttl_spec() == 1_800_000,
    {
        DataCache { products: Cache::new(300), regions: Cache::new(1800) }
    }

    /// The cached products of a region, if live.
    pub fn get_products(&self, region_id: &str) -> (r: Option<Vec<Product>>)
        requires
            self.wf(),
        ensures
            !self.products@.contains_key(products_key(region_id@)) ==> r is None,
            r is Some ==> self.products@.contains_key(products_key(region_id@)) && r->0@
                == self.products@[products_key(region_id@)].0@,
    {
        let r = self.products.get(products_key_of(region_id).as_str());
        if let Some(v) = &r {
            assert(v@ =~= self.products@[products_key(region_id@)].0@);
        }
        r
    }

    pub fn set_products(&mut self, region_id: &str, products: Vec<Product>)
        requires
            old(self).wf(),
        ensures
            final(self).wf(),
            final(self).regions == old(self).regions,
            final(self).products.ttl_spec() == old(self).products.ttl_spec(),
            final(self).products@ == old(self).products@.insert(
                products_key(region_id@),
                (products, final(self).products@[products_key(region_id@)].1),
            ),
            exists|now: u64|
                final(self).products@[products_key(region_id@)].1 == expiry(
                    now,
                    old(self).products.ttl_spec(),
                ),
    {
        self.products.set(products_key_of(region_id), products);
    }

    /// The cached region list, if live.
    pub fn get_regions(&self) -> (r: Option<Vec<Region>>)
        requires
            self.wf(),
        ensures
            !self.regions@.contains_key(regions_key()) ==> r is None,
            r is Some ==> self.regions@.contains_key(regions_key()) && r->0@
                == self.regions@[regions_key()].0@,
    {
        let r = self.regions.get("regions");
        if let Some(v) = &r {
            assert(v@ =~= self.regions@[regions_key()].0@);
        }
        r
    }

    pub fn set_regions(&mut self, regions: Vec<Region>)
        requires
            old(self).wf(),
        ensures
            final(self).wf(),
            final(self).products == old(self).products,
            final(self).regions.ttl_spec() == old(self).regions.ttl_spec(),
            final(self).regions@ == old(self).regions@.insert(
                regions_key(),
                (regions, final(self).regions@[regions_key()].1),
            ),
            exists|now: u64| final(self).regions@[regions_key()].1 == expiry(
                now,
                old(self).regions.ttl_spec(),
            ),
    {
        self.regions.set(crate::text::text("regions"), regions);
    }
}

impl Default for DataCache {
    fn default() -> (r: DataCache)
        ensures
            r.wf(),
            r.products@ == Map::<Seq<char>, (Vec<Product>, u64)>::empty(),
            r.regions@ == Map::<Seq<char>, (Vec<Region>, u64)>::empty(),
    {
        DataCache::new()
    }
}

} // verus!
