//! The lookup orchestrator: for each lookup kind it checks the cache, on a
//! miss invokes the data-access collaborator and the aggregation engine, and
//! stores the result only when it is worth keeping.
//!
//! The poison-prevention rule: an absent record or a failed query is
//! returned as nothing and never written to the cache; a computed object
//! whose headline fields are all absent is returned but not cached either.

use vstd::prelude::*;

use crate::cache::{Cache, Stamped, spec_cache_lookup};
use crate::domain::{Commodity, System, SystemView};
use crate::engine::{aggregate_commodity, assemble_system, lemma_absent_col_empty,
    lemma_best_sell_none, lemma_masked_stations_excluded, sel_buy, sel_mean, sel_sell,
    spec_aggregate_commodity, spec_assemble_system, spec_buy_qualifies, spec_sell_qualifies};
use crate::rows::{CommodityRow, PlanetRow, QueryError, StarRow, SystemRow};

verus! {

/// The market-row query consumed from the data-access layer: all rows for
/// one commodity name under one content edition, already filtered by the
/// collaborator.
pub trait CommoditySource {
    /// Executes the market-row query; an execution error is a
    /// [`QueryError`], never a panic.
    fn run_commodity_query(&mut self, name: &String, odyssey: bool) -> Result<
        Vec<CommodityRow>,
        QueryError,
    >;
}

/// The three system queries consumed from the data-access layer, each for
/// one system address under one content edition.
pub trait SystemSource {
    /// Fetches the single attribute row of the system, or nothing when no
    /// row matches the address.
    fn run_system_query(&mut self, address: u64, odyssey: bool) -> Result<
        Option<SystemRow>,
        QueryError,
    >;

    /// Fetches all star rows of the system, in source order.
    fn run_star_query(&mut self, address: u64, odyssey: bool) -> Result<Vec<StarRow>, QueryError>;

    /// Fetches all planet rows of the system, in source order.
    fn run_planet_query(&mut self, address: u64, odyssey: bool) -> Result<
        Vec<PlanetRow>,
        QueryError,
    >;
}

/// A commodity result is worth caching when at least one headline average
/// is defined.
pub open spec fn spec_commodity_cacheable(c: Commodity) -> bool {
    c.buy_price is Some || c.sell_price is Some || c.mean_price is Some
}

/// A system result is worth caching when its headline field — the name — is
/// defined.
pub open spec fn spec_system_cacheable(s: SystemView) -> bool {
    s.name is Some
}

/// The fetched rows with the collection abstracted to a sequence.
pub open spec fn spec_rows_view(f: Result<Vec<CommodityRow>, QueryError>) -> Result<
    Seq<CommodityRow>,
    QueryError,
> {
    match f {
        Ok(v) => Ok(v@),
        Err(e) => Err(e),
    }
}

/// The fetched star rows with the collection abstracted to a sequence.
pub open spec fn spec_star_rows_view(f: Result<Vec<StarRow>, QueryError>) -> Result<
    Seq<StarRow>,
    QueryError,
> {
    match f {
        Ok(v) => Ok(v@),
        Err(e) => Err(e),
    }
}

/// The fetched planet rows with the collection abstracted to a sequence.
pub open spec fn spec_planet_rows_view(f: Result<Vec<PlanetRow>, QueryError>) -> Result<
    Seq<PlanetRow>,
    QueryError,
> {
    match f {
        Ok(v) => Ok(v@),
        Err(e) => Err(e),
    }
}

/// A returned system with its value abstracted to the view.
pub open spec fn spec_opt_system_view(r: Option<System>) -> Option<SystemView> {
    match r {
        Some(s) => Some(s@),
        None => None,
    }
}

/// What a commodity miss computes: the aggregate of the fetched rows, or
/// nothing when the query failed or no row matched.
pub open spec fn spec_commodity_outcome(
    name: String,
    fetched: Result<Seq<CommodityRow>, QueryError>,
    strict_stock: bool,
) -> Option<Commodity> {
    match fetched {
        Ok(rows) => spec_aggregate_commodity(name, rows, strict_stock),
        Err(_) => None,
    }
}

/// What a system miss computes: the assembled system, or nothing when any
/// of the three queries failed or no attribute row matched.
pub open spec fn spec_system_outcome(
    address: u64,
    sys: Result<Option<SystemRow>, QueryError>,
    stars: Result<Seq<StarRow>, QueryError>,
    planets: Result<Seq<PlanetRow>, QueryError>,
) -> Option<SystemView> {
    match (sys, stars, planets) {
        (Ok(Some(row)), Ok(ss), Ok(ps)) => Some(spec_assemble_system(address, row, ss, ps)),
        _ => None,
    }
}

/// Everything a commodity cache miss does: the result is the outcome of the
/// fetch, the commodity side of the cache gains the result exactly when it
/// is worth caching, and the system side is untouched.
pub open spec fn spec_commodity_miss_step(
    pre: Cache,
    post: Cache,
    name: String,
    now: u64,
    fetched: Result<Seq<CommodityRow>, QueryError>,
    strict_stock: bool,
    r: Option<Commodity>,
) -> bool {
    &&& r == spec_commodity_outcome(name, fetched, strict_stock)
    &&& (match r {
        Some(c) => if spec_commodity_cacheable(c) {
            post.commodity_map() == pre.commodity_map().insert(
                name@,
                (Stamped { stored_at: now, value: c }),
            )
        } else {
            post.commodity_map() == pre.commodity_map()
        },
        None => post.commodity_map() == pre.commodity_map(),
    })
    &&& post.system_map() == pre.system_map()
}

/// Everything a system cache miss does: the result is the outcome of the
/// three fetches, the system side of the cache gains the result exactly
/// when it is worth caching, and the commodity side is untouched.
pub open spec fn spec_system_miss_step(
    pre: Cache,
    post: Cache,
    address: u64,
    now: u64,
    sys: Result<Option<SystemRow>, QueryError>,
    stars: Result<Seq<StarRow>, QueryError>,
    planets: Result<Seq<PlanetRow>, QueryError>,
    rv: Option<SystemView>,
) -> bool {
    &&& rv == spec_system_outcome(address, sys, stars, planets)
    &&& (match rv {
        Some(sv) => if spec_system_cacheable(sv) {
            post.system_map() == pre.system_map().insert(
                address,
                (Stamped { stored_at: now, value: sv }),
            )
        } else {
            post.system_map() == pre.system_map()
        },
        None => post.system_map() == pre.system_map(),
    })
    &&& post.commodity_map() == pre.commodity_map()
}

/// Finishes a commodity cache miss once the collaborator has answered:
/// aggregates the rows, conditionally populates the cache, and returns the
/// result.  Verified for every possible answer of the collaborator.
pub fn process_commodity_fetch(
    cache: &mut Cache,
    name: String,
    now: u64,
    fetched: Result<Vec<CommodityRow>, QueryError>,
    strict_stock: bool,
) -> (r: Option<Commodity>)
    requires
        old(cache).wf(),
    ensures
        final(cache).wf(),
        spec_commodity_miss_step(
            *old(cache),
            *final(cache),
            name,
            now,
            spec_rows_view(fetched),
            strict_stock,
            r,
        ),
{
    let r: Option<Commodity> = match fetched {
        Ok(rows) => aggregate_commodity(name, &rows, strict_stock),
        Err(_) => None,
    };
    match &r {
        Some(c) => {
            let cacheable: bool = c.buy_price.is_some() || c.sell_price.is_some()
                || c.mean_price.is_some();
            if cacheable {
                cache.put_commodity(c.duplicate(), c.name.clone(), now);
            }
        },
        None => {},
    }
    r
}

/// Finishes a system cache miss once the collaborator has answered all
/// three queries: assembles the system, conditionally populates the cache,
/// and returns the result.  Verified for every possible answer of the
/// collaborator.
pub fn process_system_fetch(
    cache: &mut Cache,
    address: u64,
    now: u64,
    sys: Result<Option<SystemRow>, QueryError>,
    stars: Result<Vec<StarRow>, QueryError>,
    planets: Result<Vec<PlanetRow>, QueryError>,
) -> (r: Option<System>)
    requires
        old(cache).wf(),
    ensures
        final(cache).wf(),
        spec_system_miss_step(
            *old(cache),
            *final(cache),
            address,
            now,
            sys,
            spec_star_rows_view(stars),
            spec_planet_rows_view(planets),
            spec_opt_system_view(r),
        ),
{
    let r: Option<System> = match (sys, stars, planets) {
        (Ok(Some(row)), Ok(ss), Ok(ps)) => Some(assemble_system(address, row, &ss, &ps)),
        _ => None,
    };
    match &r {
        Some(s) => {
            if s.name.is_some() {
                cache.put_system(s.duplicate(), address, now);
            }
        },
        None => {},
    }
    r
}

/// Looks up a commodity by name: a fresh cached value is returned at once —
/// the collaborator is not consulted and nothing changes — and otherwise
/// the collaborator is queried once and the miss is finished by
/// [`process_commodity_fetch`].
pub fn lookup_commodity<S: CommoditySource>(
    cache: &mut Cache,
    source: &mut S,
    name: String,
    odyssey: bool,
    now: u64,
) -> (r: Option<Commodity>)
    requires
        old(cache).wf(),
    ensures
        final(cache).wf(),
        spec_cache_lookup(old(cache).commodity_map(), name@, now) is Some ==> {
            &&& r == spec_cache_lookup(old(cache).commodity_map(), name@, now)
            &&& *final(cache) == *old(cache)
            &&& *final(source) == *old(source)
        },
        spec_cache_lookup(old(cache).commodity_map(), name@, now) is None ==> exists|
            fetched: Result<Seq<CommodityRow>, QueryError>,
        |
            #[trigger] spec_commodity_miss_step(
                *old(cache),
                *final(cache),
                name,
                now,
                fetched,
                false,
                r,
            ),
{
    let cached: Option<Commodity> = cache.get_commodity(name.clone(), now);
    match cached {
        Some(c) => Some(c),
        None => {
            let fetched = source.run_commodity_query(&name, odyssey);
            let ghost fetched_view = spec_rows_view(fetched);
            let r = process_commodity_fetch(cache, name, now, fetched, false);
            proof {
                assert(spec_commodity_miss_step(
                    *old(cache),
                    *cache,
                    name,
                    now,
                    fetched_view,
                    false,
                    r,
                ));
            }
            r
        },
    }
}

/// Looks up a system by address: a fresh cached value is returned at once —
/// the collaborator is not consulted and nothing changes — and otherwise
/// the collaborator is queried and the miss is finished by
/// [`process_system_fetch`].  The star and planet queries run only when the
/// attribute row exists.
pub fn lookup_system<S: SystemSource>(
    cache: &mut Cache,
    source: &mut S,
    address: u64,
    odyssey: bool,
    now: u64,
) -> (r: Option<System>)
    requires
        old(cache).wf(),
    ensures
        final(cache).wf(),
        spec_cache_lookup(old(cache).system_map(), address, now) is Some ==> {
            &&& spec_opt_system_view(r) == spec_cache_lookup(
                old(cache).system_map(),
                address,
                now,
            )
            &&& *final(cache) == *old(cache)
            &&& *final(source) == *old(source)
        },
        spec_cache_lookup(old(cache).system_map(), address, now) is None ==> exists|
            sys: Result<Option<SystemRow>, QueryError>,
            stars: Result<Seq<StarRow>, QueryError>,
            planets: Result<Seq<PlanetRow>, QueryError>,
        |
            #[trigger] spec_system_miss_step(
                *old(cache),
                *final(cache),
                address,
                now,
                sys,
                stars,
                planets,
                spec_opt_system_view(r),
            ),
{
    let cached: Option<System> = cache.get_system(address, now);
    match cached {
        Some(s) => Some(s),
        None => {
            let sys = source.run_system_query(address, odyssey);
            let fetch_children: bool = match &sys {
                Ok(Some(_)) => true,
                _ => false,
            };
            let stars: Result<Vec<StarRow>, QueryError> = if fetch_children {
                source.run_star_query(address, odyssey)
            } else {
                Ok(Vec::new())
            };
            let planets: Result<Vec<PlanetRow>, QueryError> = if fetch_children {
                source.run_planet_query(address, odyssey)
            } else {
                Ok(Vec::new())
            };
            let ghost g_sys = sys;
            let ghost g_stars = spec_star_rows_view(stars);
            let ghost g_planets = spec_planet_rows_view(planets);
            let r = process_system_fetch(cache, address, now, sys, stars, planets);
            proof {
                assert(spec_system_miss_step(
                    *old(cache),
                    *cache,
                    address,
                    now,
                    g_sys,
                    g_stars,
                    g_planets,
                    spec_opt_system_view(r),
                ));
            }
            r
        },
    }
}

/// LAW — no cache on miss (commodity): when the collaborator reports that
/// no row matches the key — or fails outright — a miss returns nothing,
/// leaves the cache exactly as it was, and a later read of the key answers
/// exactly what it would have answered before; in particular, a key that
/// had nothing cached still has nothing cached.
pub proof fn lemma_no_cache_on_miss(
    pre: Cache,
    post: Cache,
    name: String,
    now: u64,
    later: u64,
    fetched: Result<Seq<CommodityRow>, QueryError>,
    strict_stock: bool,
    r: Option<Commodity>,
)
    requires
        spec_commodity_miss_step(pre, post, name, now, fetched, strict_stock, r),
        fetched matches Ok(rows) ==> rows.len() == 0,
    ensures
        r is None,
        post.commodity_map() == pre.commodity_map(),
        spec_cache_lookup(post.commodity_map(), name@, later) == spec_cache_lookup(
            pre.commodity_map(),
            name@,
            later,
        ),
{
}

/// LAW — partial-null tolerance: a commodity whose rows are present but
/// whose price columns are all null surfaces as an object with every
/// numeric field and both extremal offers absent, and such an object is
/// never written to the cache.
pub proof fn lemma_partial_null_not_cached(
    pre: Cache,
    post: Cache,
    name: String,
    now: u64,
    rows: Seq<CommodityRow>,
    strict_stock: bool,
    r: Option<Commodity>,
)
    requires
        spec_commodity_miss_step(pre, post, name, now, Ok(rows), strict_stock, r),
        rows.len() > 0,
        forall|i: int| 0 <= i < rows.len() ==> (#[trigger] rows[i].buy_price) is None
            && rows[i].sell_price is None && rows[i].mean_price is None,
    ensures
        r is Some,
        r matches Some(c) ==> {
            &&& c.buy_price is None
            &&& c.sell_price is None
            &&& c.mean_price is None
            &&& c.lowest_buy_price is None
            &&& c.highest_sell_price is None
        },
        post.commodity_map() == pre.commodity_map(),
{
    assert forall|i: int| 0 <= i < rows.len() implies (#[trigger] (sel_buy())(rows[i])) is None by {
        assert(rows[i].buy_price is None);
    }
    assert forall|i: int| 0 <= i < rows.len() implies (#[trigger] (sel_sell())(rows[i])) is None by {
        assert(rows[i].buy_price is None);
    }
    assert forall|i: int| 0 <= i < rows.len() implies (#[trigger] (sel_mean())(rows[i])) is None by {
        assert(rows[i].buy_price is None);
    }
    lemma_absent_col_empty(rows, sel_buy());
    lemma_absent_col_empty(rows, sel_sell());
    lemma_absent_col_empty(rows, sel_mean());
    assert(forall|i: int| 0 <= i < rows.len() ==> !(#[trigger] spec_buy_qualifies(
        rows[i],
        strict_stock,
    )));
    lemma_masked_stations_excluded(rows, strict_stock);
    assert forall|i: int| 0 <= i < rows.len() implies !(#[trigger] spec_sell_qualifies(
        rows[i],
    )) by {
        assert(rows[i].buy_price is None);
    }
    lemma_best_sell_none(rows);
}

/// LAW — no cache on miss (system): when the attribute row is absent — or
/// any of the three queries fails — a miss returns nothing, leaves the
/// cache exactly as it was, and a later read of the key answers exactly
/// what it would have answered before.
pub proof fn lemma_no_cache_on_system_miss(
    pre: Cache,
    post: Cache,
    address: u64,
    now: u64,
    later: u64,
    sys: Result<Option<SystemRow>, QueryError>,
    stars: Result<Seq<StarRow>, QueryError>,
    planets: Result<Seq<PlanetRow>, QueryError>,
    rv: Option<SystemView>,
)
    requires
        spec_system_miss_step(pre, post, address, now, sys, stars, planets, rv),
        spec_system_outcome(address, sys, stars, planets) is None,
    ensures
        rv is None,
        post.system_map() == pre.system_map(),
        spec_cache_lookup(post.system_map(), address, later) == spec_cache_lookup(
            pre.system_map(),
            address,
            later,
        ),
{
}

} // verus!
