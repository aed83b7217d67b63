//! The keyed, time-bounded cache store.
//!
//! One store holds commodity results keyed by name, one holds system results
//! keyed by address; both share the same semantics.  An entry is usable while
//! its age does not exceed [`CACHE_TTL_SECS`]; a stale entry is ignored on
//! read — never removed — and replaced only by a later write for its key.
//! Reads hand out copies, never the stored entry itself.
//!
//! The clock is injected: every operation takes the current instant as a
//! count of seconds, so callers control time and the store never reads it.

use vstd::prelude::*;

use crate::domain::{Commodity, System, SystemView};

verus! {

/// Seconds an entry stays usable after it was stored.
pub const CACHE_TTL_SECS: u64 = 600;

/// A cached value together with the instant it was stored.
pub ghost struct Stamped<V> {
    pub stored_at: u64,
    pub value: V,
}

/// An entry is fresh when it was stored at or before `now` and its age does
/// not exceed the TTL.  An entry stamped after `now` counts as stale.
pub open spec fn spec_fresh<V>(e: Stamped<V>, now: u64) -> bool {
    e.stored_at <= now && now - e.stored_at <= CACHE_TTL_SECS
}

/// What a read of the store answers: the value stored under `key`, if an
/// entry exists and is fresh at `now`; nothing otherwise.
pub open spec fn spec_cache_lookup<K, V>(m: Map<K, Stamped<V>>, key: K, now: u64) -> Option<V> {
    if m.dom().contains(key) && spec_fresh(m[key], now) {
        Some(m[key].value)
    } else {
        None
    }
}

struct CommodityEntry {
    key: String,
    stored_at: u64,
    value: Commodity,
}

struct SystemEntry {
    key: u64,
    stored_at: u64,
    value: System,
}

spec fn commodity_map_of(s: Seq<CommodityEntry>) -> Map<Seq<char>, Stamped<Commodity>>
    decreases s.len(),
{
    if s.len() == 0 {
        Map::empty()
    } else {
        commodity_map_of(s.drop_last()).insert(
            s.last().key@,
            (Stamped { stored_at: s.last().stored_at, value: s.last().value }),
        )
    }
}

spec fn system_map_of(s: Seq<SystemEntry>) -> Map<u64, Stamped<SystemView>>
    decreases s.len(),
{
    if s.len() == 0 {
        Map::empty()
    } else {
        system_map_of(s.drop_last()).insert(
            s.last().key,
            (Stamped { stored_at: s.last().stored_at, value: s.last().value@ }),
        )
    }
}

spec fn commodity_keys_unique(s: Seq<CommodityEntry>) -> bool {
    forall|i: int, j: int| 0 <= i < j < s.len() ==> s[i].key@ != s[j].key@
}

spec fn system_keys_unique(s: Seq<SystemEntry>) -> bool {
    forall|i: int, j: int| 0 <= i < j < s.len() ==> s[i].key != s[j].key
}

/// The cache store: one entry list per lookup kind, each keyed uniquely.
pub struct Cache {
    commodity: Vec<CommodityEntry>,
    system: Vec<SystemEntry>,
}

impl Cache {
    /// Well-formedness: each side keys its entries uniquely.  `new`
    /// establishes it and every method preserves it.
    pub closed spec fn wf(self) -> bool {
        commodity_keys_unique(self.commodity@) && system_keys_unique(self.system@)
    }

    /// The commodity entries as a map from name to stamped value.
    pub closed spec fn commodity_map(self) -> Map<Seq<char>, Stamped<Commodity>> {
        commodity_map_of(self.commodity@)
    }

    /// The system entries as a map from address to stamped value.
    pub closed spec fn system_map(self) -> Map<u64, Stamped<SystemView>> {
        system_map_of(self.system@)
    }

    /// An empty store: nothing cached for any key.
    pub fn new() -> (c: Cache)
        ensures
            c.wf(),
            c.commodity_map() == Map::<Seq<char>, Stamped<Commodity>>::empty(),
            c.system_map() == Map::<u64, Stamped<SystemView>>::empty(),
    {
        Cache { commodity: Vec::new(), system: Vec::new() }
    }

    /// A copy of the fresh commodity entry for `name`, if one exists at
    /// `now`; nothing when the key is absent or its entry is stale.
    pub fn get_commodity(&self, name: String, now: u64) -> (r: Option<Commodity>)
        requires
            self.wf(),
        ensures
            r == spec_cache_lookup(self.commodity_map(), name@, now),
    {
        let n: usize = self.commodity.len();
        let mut i: usize = 0;
        while i < n
            invariant
                n == self.commodity@.len(),
                i <= n,
                commodity_keys_unique(self.commodity@),
                forall|j: int| 0 <= j < i ==> self.commodity@[j].key@ != name@,
            decreases n - i,
        {
            if self.commodity[i].key == name {
                proof {
                    lemma_commodity_map_found(self.commodity@, i as int);
                }
                let e = &self.commodity[i];
                if e.stored_at <= now && now - e.stored_at <= CACHE_TTL_SECS {
                    return Some(e.value.duplicate());
                } else {
                    return None;
                }
            }
            i = i + 1;
        }
        proof {
            lemma_commodity_map_absent(self.commodity@, name@);
        }
        None
    }

    /// Stores `commodity` under `name` at instant `now`, overwriting any
    /// earlier entry for the key; the system side is untouched.
    pub fn put_commodity(&mut self, commodity: Commodity, name: String, now: u64)
        requires
            old(self).wf(),
        ensures
            final(self).wf(),
            final(self).commodity_map() == old(self).commodity_map().insert(
                name@,
                (Stamped { stored_at: now, value: commodity }),
            ),
            final(self).system_map() == old(self).system_map(),
    {
        let ghost entries0 = self.commodity@;
        let n: usize = self.commodity.len();
        let mut i: usize = 0;
        while i < n
            invariant
                n == self.commodity@.len(),
                i <= n,
                self.commodity@ == entries0,
                entries0 == old(self).commodity@,
                self.system@ == old(self).system@,
                commodity_keys_unique(entries0),
                system_keys_unique(self.system@),
                forall|j: int| 0 <= j < i ==> self.commodity@[j].key@ != name@,
            decreases n - i,
        {
            if self.commodity[i].key == name {
                let entry = CommodityEntry { key: name, stored_at: now, value: commodity };
                proof {
                    lemma_commodity_map_update(self.commodity@, i as int, entry);
                }
                self.commodity.set(i, entry);
                return;
            }
            i = i + 1;
        }
        let entry = CommodityEntry { key: name, stored_at: now, value: commodity };
        proof {
            assert(entries0.push(entry).drop_last() =~= entries0);
        }
        self.commodity.push(entry);
    }

    /// A copy of the fresh system entry for `address`, if one exists at
    /// `now`; nothing when the key is absent or its entry is stale.
    pub fn get_system(&self, address: u64, now: u64) -> (r: Option<System>)
        requires
            self.wf(),
        ensures
            r is Some <==> spec_cache_lookup(self.system_map(), address, now) is Some,
            r matches Some(s) ==> spec_cache_lookup(self.system_map(), address, now) == Some(s@),
    {
        let n: usize = self.system.len();
        let mut i: usize = 0;
        while i < n
            invariant
                n == self.system@.len(),
                i <= n,
                system_keys_unique(self.system@),
                forall|j: int| 0 <= j < i ==> self.system@[j].key != address,
            decreases n - i,
        {
            if self.system[i].key == address {
                proof {
                    lemma_system_map_found(self.system@, i as int);
                }
                let e = &self.system[i];
                if e.stored_at <= now && now - e.stored_at <= CACHE_TTL_SECS {
                    return Some(e.value.duplicate());
                } else {
                    return None;
                }
            }
            i = i + 1;
        }
        proof {
            lemma_system_map_absent(self.system@, address);
        }
        None
    }

    /// Stores `system` under `address` at instant `now`, overwriting any
    /// earlier entry for the key; the commodity side is untouched.
    pub fn put_system(&mut self, system: System, address: u64, now: u64)
        requires
            old(self).wf(),
        ensures
            final(self).wf(),
            final(self).system_map() == old(self).system_map().insert(
                address,
                (Stamped { stored_at: now, value: system@ }),
            ),
            final(self).commodity_map() == old(self).commodity_map(),
    {
        let ghost entries0 = self.system@;
        let n: usize = self.system.len();
        let mut i: usize = 0;
        while i < n
            invariant
                n == self.system@.len(),
                i <= n,
                self.system@ == entries0,
                entries0 == old(self).system@,
                self.commodity@ == old(self).commodity@,
                system_keys_unique(entries0),
                commodity_keys_unique(self.commodity@),
                forall|j: int| 0 <= j < i ==> self.system@[j].key != address,
            decreases n - i,
        {
            if self.system[i].key == address {
                let entry = SystemEntry { key: address, stored_at: now, value: system };
                proof {
                    lemma_system_map_update(self.system@, i as int, entry);
                }
                self.system.set(i, entry);
                return;
            }
            i = i + 1;
        }
        let entry = SystemEntry { key: address, stored_at: now, value: system };
        proof {
            assert(entries0.push(entry).drop_last() =~= entries0);
        }
        self.system.push(entry);
    }
}

proof fn lemma_commodity_map_found(s: Seq<CommodityEntry>, i: int)
    requires
        commodity_keys_unique(s),
        0 <= i < s.len(),
    ensures
        commodity_map_of(s).dom().contains(s[i].key@),
        commodity_map_of(s)[s[i].key@] == (Stamped {
            stored_at: s[i].stored_at,
            value: s[i].value,
        }),
    decreases s.len(),
{
    if i < s.len() - 1 {
        lemma_commodity_map_found(s.drop_last(), i);
    }
}

proof fn lemma_commodity_map_absent(s: Seq<CommodityEntry>, k: Seq<char>)
    requires
        forall|j: int| 0 <= j < s.len() ==> s[j].key@ != k,
    ensures
        !commodity_map_of(s).dom().contains(k),
    decreases s.len(),
{
    if s.len() > 0 {
        lemma_commodity_map_absent(s.drop_last(), k);
    }
}

proof fn lemma_commodity_map_update(s: Seq<CommodityEntry>, i: int, e: CommodityEntry)
    requires
        commodity_keys_unique(s),
        0 <= i < s.len(),
        e.key@ == s[i].key@,
    ensures
        commodity_map_of(s.update(i, e)) == commodity_map_of(s).insert(
            e.key@,
            (Stamped { stored_at: e.stored_at, value: e.value }),
        ),
        commodity_keys_unique(s.update(i, e)),
    decreases s.len(),
{
    let stamped = Stamped { stored_at: e.stored_at, value: e.value };
    if i == s.len() - 1 {
        assert(s.update(i, e).drop_last() =~= s.drop_last());
        assert(commodity_map_of(s.update(i, e)) =~= commodity_map_of(s).insert(e.key@, stamped));
    } else {
        lemma_commodity_map_update(s.drop_last(), i, e);
        assert(s.update(i, e).drop_last() =~= s.drop_last().update(i, e));
        assert(s.update(i, e).last() == s.last());
        assert(s.last().key@ != e.key@);
        assert(commodity_map_of(s.update(i, e)) =~= commodity_map_of(s).insert(e.key@, stamped));
    }
}

proof fn lemma_system_map_found(s: Seq<SystemEntry>, i: int)
    requires
        system_keys_unique(s),
        0 <= i < s.len(),
    ensures
        system_map_of(s).dom().contains(s[i].key),
        system_map_of(s)[s[i].key] == (Stamped {
            stored_at: s[i].stored_at,
            value: s[i].value@,
        }),
    decreases s.len(),
{
    if i < s.len() - 1 {
        lemma_system_map_found(s.drop_last(), i);
    }
}

proof fn lemma_system_map_absent(s: Seq<SystemEntry>, k: u64)
    requires
        forall|j: int| 0 <= j < s.len() ==> s[j].key != k,
    ensures
        !system_map_of(s).dom().contains(k),
    decreases s.len(),
{
    if s.len() > 0 {
        lemma_system_map_absent(s.drop_last(), k);
    }
}

proof fn lemma_system_map_update(s: Seq<SystemEntry>, i: int, e: SystemEntry)
    requires
        system_keys_unique(s),
        0 <= i < s.len(),
        e.key == s[i].key,
    ensures
        system_map_of(s.update(i, e)) == system_map_of(s).insert(
            e.key,
            (Stamped { stored_at: e.stored_at, value: e.value@ }),
        ),
        system_keys_unique(s.update(i, e)),
    decreases s.len(),
{
    let stamped = Stamped { stored_at: e.stored_at, value: e.value@ };
    if i == s.len() - 1 {
        assert(s.update(i, e).drop_last() =~= s.drop_last());
        assert(system_map_of(s.update(i, e)) =~= system_map_of(s).insert(e.key, stamped));
    } else {
        lemma_system_map_update(s.drop_last(), i, e);
        assert(s.update(i, e).drop_last() =~= s.drop_last().update(i, e));
        assert(s.update(i, e).last() == s.last());
        assert(s.last().key != e.key);
        assert(system_map_of(s.update(i, e)) =~= system_map_of(s).insert(e.key, stamped));
    }
}

/// LAW — cache freshness: once a value is stored for a key, a read of that
/// key answers the stored value exactly when no more than the TTL has
/// elapsed, and answers nothing once more has elapsed — although the entry
/// itself still exists in the store.  The law is stated for instants other
/// than the exact expiry boundary; the read contract itself fixes the
/// boundary (an entry aged exactly the TTL is still usable).
pub proof fn lemma_cache_freshness<K, V>(m: Map<K, Stamped<V>>, key: K, value: V, t_put: u64, t_get: u64)
    requires
        t_put <= t_get,
        t_get - t_put != CACHE_TTL_SECS,
    ensures
        ({
            let stored = m.insert(key, (Stamped { stored_at: t_put, value: value }));
            &&& (spec_cache_lookup(stored, key, t_get) is Some <==> t_get - t_put
                < CACHE_TTL_SECS)
            &&& (spec_cache_lookup(stored, key, t_get) matches Some(v) ==> v == value)
            &&& stored.dom().contains(key)
        }),
{
}

} // verus!
