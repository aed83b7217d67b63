//! The aggregation engine: turns raw relational rows into domain objects.
//!
//! For a commodity it computes the three headline averages over the present
//! column values, and resolves the lowest qualifying buy offer and the
//! highest qualifying sell offer, excluding masked stations.  For a system it
//! decodes the attribute row and attaches the star and planet children.
//!
//! Ties between equally priced offers are broken by row order: the earliest
//! row wins.  An average ignores absent values and is itself absent when no
//! row carried the column.

use vstd::prelude::*;
use vstd::arithmetic::div_mod::{lemma_div_is_ordered, lemma_div_multiples_vanish};
use vstd::string::StrSliceExecFns;

use crate::domain::{Commodity, Offer, Planet, Star, System, SystemView, clone_opt_string};
use crate::rows::{CommodityRow, PlanetRow, StarRow, SystemRow, spec_parse_flag, parse_flag};

verus! {

/// The stock a row must exceed to qualify for best-buy resolution under the
/// stricter query dialect.
pub const STRICT_STOCK_FLOOR: u64 = 1000;

/// A masked station: displayed only as a three-letter code, i.e. a name of
/// exactly seven characters whose fourth is `'-'`.  Such stations are
/// excluded from extremal-price resolution.
pub open spec fn spec_is_masked(name: Seq<char>) -> bool {
    name.len() == 7 && name[3] == '-'
}

/// Decides whether a station name matches the masked three-letter pattern.
pub fn is_masked(name: &str) -> (r: bool)
    ensures
        r == spec_is_masked(name@),
{
    let n: usize = name.unicode_len();
    if n == 7 {
        name.get_char(3) == '-'
    } else {
        false
    }
}

/// A row qualifies for best-buy resolution when it carries a positive buy
/// price, its station is not masked, and — under the stricter dialect — its
/// stock exceeds [`STRICT_STOCK_FLOOR`].
pub open spec fn spec_buy_qualifies(r: CommodityRow, strict_stock: bool) -> bool {
    &&& r.buy_price is Some
    &&& r.buy_price->0 > 0
    &&& !spec_is_masked(r.station_name@)
    &&& (strict_stock ==> r.stock is Some && r.stock->0 > STRICT_STOCK_FLOOR)
}

/// A row qualifies for best-sell resolution when it carries a sell price and
/// its station is not masked.
pub open spec fn spec_sell_qualifies(r: CommodityRow) -> bool {
    r.sell_price is Some && !spec_is_masked(r.station_name@)
}

/// The offer a qualifying buy row contributes.
pub open spec fn spec_buy_offer(r: CommodityRow) -> Offer
    recommends
        r.buy_price is Some,
{
    Offer { price: r.buy_price->0, station_name: r.station_name, system_name: r.system_name }
}

/// The offer a qualifying sell row contributes.
pub open spec fn spec_sell_offer(r: CommodityRow) -> Offer
    recommends
        r.sell_price is Some,
{
    Offer { price: r.sell_price->0, station_name: r.station_name, system_name: r.system_name }
}

/// The lowest qualifying buy offer, earliest row winning ties.
pub open spec fn spec_best_buy(rows: Seq<CommodityRow>, strict_stock: bool) -> Option<Offer>
    decreases rows.len(),
{
    if rows.len() == 0 {
        None
    } else {
        let prefix = spec_best_buy(rows.drop_last(), strict_stock);
        let last = rows.last();
        if !spec_buy_qualifies(last, strict_stock) {
            prefix
        } else {
            match prefix {
                None => Some(spec_buy_offer(last)),
                Some(o) => if last.buy_price->0 < o.price {
                    Some(spec_buy_offer(last))
                } else {
                    Some(o)
                },
            }
        }
    }
}

/// The highest qualifying sell offer, earliest row winning ties.
pub open spec fn spec_best_sell(rows: Seq<CommodityRow>) -> Option<Offer>
    decreases rows.len(),
{
    if rows.len() == 0 {
        None
    } else {
        let prefix = spec_best_sell(rows.drop_last());
        let last = rows.last();
        if !spec_sell_qualifies(last) {
            prefix
        } else {
            match prefix {
                None => Some(spec_sell_offer(last)),
                Some(o) => if last.sell_price->0 > o.price {
                    Some(spec_sell_offer(last))
                } else {
                    Some(o)
                },
            }
        }
    }
}

/// The buy-price column of a row.
pub open spec fn sel_buy() -> spec_fn(CommodityRow) -> Option<u64> {
    |r: CommodityRow| r.buy_price
}

/// The sell-price column of a row.
pub open spec fn sel_sell() -> spec_fn(CommodityRow) -> Option<u64> {
    |r: CommodityRow| r.sell_price
}

/// The mean-price column of a row.
pub open spec fn sel_mean() -> spec_fn(CommodityRow) -> Option<u64> {
    |r: CommodityRow| r.mean_price
}

/// The sum of the present values of one column.
pub open spec fn spec_sum_col(rows: Seq<CommodityRow>, f: spec_fn(CommodityRow) -> Option<u64>) -> int
    decreases rows.len(),
{
    if rows.len() == 0 {
        0
    } else {
        spec_sum_col(rows.drop_last(), f) + (match f(rows.last()) {
            Some(v) => v as int,
            None => 0,
        })
    }
}

/// How many rows carry a value for one column.
pub open spec fn spec_count_col(rows: Seq<CommodityRow>, f: spec_fn(CommodityRow) -> Option<u64>) -> int
    decreases rows.len(),
{
    if rows.len() == 0 {
        0
    } else {
        spec_count_col(rows.drop_last(), f) + (if f(rows.last()) is Some {
            1int
        } else {
            0int
        })
    }
}

/// The headline average of one column: the truncated mean of the present
/// values, absent when no row carries the column.
pub open spec fn spec_avg_col(rows: Seq<CommodityRow>, f: spec_fn(CommodityRow) -> Option<u64>) -> Option<u64> {
    if spec_count_col(rows, f) == 0 {
        None
    } else {
        Some((spec_sum_col(rows, f) / spec_count_col(rows, f)) as u64)
    }
}

/// The commodity object computed from the rows matching one name, or nothing
/// when no row matched at all.
pub open spec fn spec_aggregate_commodity(name: String, rows: Seq<CommodityRow>, strict_stock: bool) -> Option<Commodity> {
    if rows.len() == 0 {
        None
    } else {
        Some(Commodity {
            name: name,
            buy_price: spec_avg_col(rows, sel_buy()),
            sell_price: spec_avg_col(rows, sel_sell()),
            mean_price: spec_avg_col(rows, sel_mean()),
            lowest_buy_price: spec_best_buy(rows, strict_stock),
            highest_sell_price: spec_best_sell(rows),
        })
    }
}

/// Decides whether a row qualifies for best-buy resolution.
pub fn buy_qualifies(r: &CommodityRow, strict_stock: bool) -> (b: bool)
    ensures
        b == spec_buy_qualifies(*r, strict_stock),
{
    let price_ok: bool = match r.buy_price {
        Some(p) => p > 0,
        None => false,
    };
    let stock_ok: bool = if strict_stock {
        match r.stock {
            Some(s) => s > STRICT_STOCK_FLOOR,
            None => false,
        }
    } else {
        true
    };
    price_ok && stock_ok && !is_masked(r.station_name.as_str())
}

/// Decides whether a row qualifies for best-sell resolution.
pub fn sell_qualifies(r: &CommodityRow) -> (b: bool)
    ensures
        b == spec_sell_qualifies(*r),
{
    let has_sell: bool = match r.sell_price {
        Some(_) => true,
        None => false,
    };
    has_sell && !is_masked(r.station_name.as_str())
}

/// Aggregates the market rows of one commodity into its domain object.
/// Returns nothing exactly when no row matched the name; rows whose columns
/// are all null still produce an object, with every derived field absent.
pub fn aggregate_commodity(name: String, rows: &Vec<CommodityRow>, strict_stock: bool) -> (r: Option<Commodity>)
    ensures
        r == spec_aggregate_commodity(name, rows@, strict_stock),
{
    proof {
        assert(rows@.subrange(0, rows@.len() as int) =~= rows@);
    }
    if rows.len() == 0 {
        return None;
    }

    // One pass for the three column sums and counts.
    let mut sum_buy: u128 = 0;
    let mut cnt_buy: usize = 0;
    let mut sum_sell: u128 = 0;
    let mut cnt_sell: usize = 0;
    let mut sum_mean: u128 = 0;
    let mut cnt_mean: usize = 0;
    let mut i: usize = 0;
    while i < rows.len()
        invariant
            i <= rows@.len(),
            cnt_buy <= i,
            cnt_sell <= i,
            cnt_mean <= i,
            sum_buy as int == spec_sum_col(rows@.subrange(0, i as int), sel_buy()),
            cnt_buy as int == spec_count_col(rows@.subrange(0, i as int), sel_buy()),
            sum_sell as int == spec_sum_col(rows@.subrange(0, i as int), sel_sell()),
            cnt_sell as int == spec_count_col(rows@.subrange(0, i as int), sel_sell()),
            sum_mean as int == spec_sum_col(rows@.subrange(0, i as int), sel_mean()),
            cnt_mean as int == spec_count_col(rows@.subrange(0, i as int), sel_mean()),
            sum_buy as int <= cnt_buy as int * (u64::MAX as int),
            sum_sell as int <= cnt_sell as int * (u64::MAX as int),
            sum_mean as int <= cnt_mean as int * (u64::MAX as int),
        decreases rows@.len() - i,
    {
        proof {
            assert(rows@.subrange(0, (i + 1) as int).drop_last() =~= rows@.subrange(0, i as int));
            assert(rows@.subrange(0, (i + 1) as int).last() == rows@[i as int]);
        }
        match rows[i].buy_price {
            Some(v) => {
                sum_buy = sum_buy + v as u128;
                cnt_buy = cnt_buy + 1;
            },
            None => {},
        }
        match rows[i].sell_price {
            Some(v) => {
                sum_sell = sum_sell + v as u128;
                cnt_sell = cnt_sell + 1;
            },
            None => {},
        }
        match rows[i].mean_price {
            Some(v) => {
                sum_mean = sum_mean + v as u128;
                cnt_mean = cnt_mean + 1;
            },
            None => {},
        }
        i = i + 1;
    }

    let avg_buy: Option<u64> = divide_sum(sum_buy, cnt_buy, Ghost(rows@), Ghost(sel_buy()));
    let avg_sell: Option<u64> = divide_sum(sum_sell, cnt_sell, Ghost(rows@), Ghost(sel_sell()));
    let avg_mean: Option<u64> = divide_sum(sum_mean, cnt_mean, Ghost(rows@), Ghost(sel_mean()));

    // Lowest qualifying buy offer, earliest row winning ties.
    let mut best_buy: Option<usize> = None;
    let mut j: usize = 0;
    while j < rows.len()
        invariant
            j <= rows@.len(),
            best_buy is None ==> spec_best_buy(rows@.subrange(0, j as int), strict_stock) is None,
            best_buy matches Some(bi) ==> bi < j
                && spec_buy_qualifies(rows@[bi as int], strict_stock)
                && spec_best_buy(rows@.subrange(0, j as int), strict_stock)
                    == Some(spec_buy_offer(rows@[bi as int])),
        decreases rows@.len() - j,
    {
        proof {
            assert(rows@.subrange(0, (j + 1) as int).drop_last() =~= rows@.subrange(0, j as int));
            assert(rows@.subrange(0, (j + 1) as int).last() == rows@[j as int]);
        }
        if buy_qualifies(&rows[j], strict_stock) {
            let better: bool = match best_buy {
                None => true,
                Some(bi) => {
                    let cur: u64 = match rows[bi].buy_price {
                        Some(p) => p,
                        None => 0,
                    };
                    let cand: u64 = match rows[j].buy_price {
                        Some(p) => p,
                        None => 0,
                    };
                    cand < cur
                },
            };
            if better {
                best_buy = Some(j);
            }
        }
        j = j + 1;
    }

    // Highest qualifying sell offer, earliest row winning ties.
    let mut best_sell: Option<usize> = None;
    let mut k: usize = 0;
    while k < rows.len()
        invariant
            k <= rows@.len(),
            best_sell is None ==> spec_best_sell(rows@.subrange(0, k as int)) is None,
            best_sell matches Some(bi) ==> bi < k
                && spec_sell_qualifies(rows@[bi as int])
                && spec_best_sell(rows@.subrange(0, k as int))
                    == Some(spec_sell_offer(rows@[bi as int])),
        decreases rows@.len() - k,
    {
        proof {
            assert(rows@.subrange(0, (k + 1) as int).drop_last() =~= rows@.subrange(0, k as int));
            assert(rows@.subrange(0, (k + 1) as int).last() == rows@[k as int]);
        }
        if sell_qualifies(&rows[k]) {
            let better: bool = match best_sell {
                None => true,
                Some(bi) => {
                    let cur: u64 = match rows[bi].sell_price {
                        Some(p) => p,
                        None => 0,
                    };
                    let cand: u64 = match rows[k].sell_price {
                        Some(p) => p,
                        None => 0,
                    };
                    cand > cur
                },
            };
            if better {
                best_sell = Some(k);
            }
        }
        k = k + 1;
    }

    let lowest_buy_price: Option<Offer> = match best_buy {
        None => None,
        Some(bi) => Some(offer_from_buy_row(&rows[bi])),
    };
    let highest_sell_price: Option<Offer> = match best_sell {
        None => None,
        Some(bi) => Some(offer_from_sell_row(&rows[bi])),
    };

    Some(Commodity {
        name,
        buy_price: avg_buy,
        sell_price: avg_sell,
        mean_price: avg_mean,
        lowest_buy_price,
        highest_sell_price,
    })
}

/// Divides one column sum by its count, proving the truncated quotient of
/// present values fits the column's width.
fn divide_sum(sum: u128, cnt: usize, rows: Ghost<Seq<CommodityRow>>, f: Ghost<spec_fn(CommodityRow) -> Option<u64>>) -> (r: Option<u64>)
    requires
        sum as int == spec_sum_col(rows@, f@),
        cnt as int == spec_count_col(rows@, f@),
        sum as int <= cnt as int * (u64::MAX as int),
    ensures
        r == spec_avg_col(rows@, f@),
{
    if cnt == 0 {
        None
    } else {
        let q: u128 = sum / (cnt as u128);
        proof {
            lemma_div_is_ordered(sum as int, cnt as int * (u64::MAX as int), cnt as int);
            lemma_div_multiples_vanish(u64::MAX as int, cnt as int);
        }
        Some(q as u64)
    }
}

/// The offer contributed by a qualifying buy row.
fn offer_from_buy_row(r: &CommodityRow) -> (o: Offer)
    requires
        r.buy_price is Some,
    ensures
        o == spec_buy_offer(*r),
{
    let price: u64 = match r.buy_price {
        Some(p) => p,
        None => 0,
    };
    Offer { price, station_name: r.station_name.clone(), system_name: r.system_name.clone() }
}

/// The offer contributed by a qualifying sell row.
fn offer_from_sell_row(r: &CommodityRow) -> (o: Offer)
    requires
        r.sell_price is Some,
    ensures
        o == spec_sell_offer(*r),
{
    let price: u64 = match r.sell_price {
        Some(p) => p,
        None => 0,
    };
    Offer { price, station_name: r.station_name.clone(), system_name: r.system_name.clone() }
}

/// The star a raw row decodes to: every attribute carried over, the two
/// discovery-state columns parsed.
pub open spec fn spec_star_from_row(r: StarRow) -> Star {
    Star {
        body_name: r.body_name,
        body_id: r.body_id,
        distance_from_arrival_ls: r.distance_from_arrival_ls,
        star_type: r.star_type,
        subclass: r.subclass,
        stellar_mass: r.stellar_mass,
        radius: r.radius,
        absolute_magnitude: r.absolute_magnitude,
        age_my: r.age_my,
        surface_temperature: r.surface_temperature,
        luminosity: r.luminosity,
        semi_major_axis: r.semi_major_axis,
        eccentricity: r.eccentricity,
        orbital_inclination: r.orbital_inclination,
        periapsis: r.periapsis,
        orbital_period: r.orbital_period,
        ascending_node: r.ascending_node,
        mean_anomaly: r.mean_anomaly,
        rotation_period: r.rotation_period,
        axial_tilt: r.axial_tilt,
        was_discovered: spec_parse_flag(r.was_discovered),
        was_mapped: spec_parse_flag(r.was_mapped),
    }
}

/// Decodes one star row.
pub fn star_from_row(r: &StarRow) -> (s: Star)
    ensures
        s == spec_star_from_row(*r),
{
    Star {
        body_name: clone_opt_string(&r.body_name),
        body_id: r.body_id,
        distance_from_arrival_ls: r.distance_from_arrival_ls,
        star_type: clone_opt_string(&r.star_type),
        subclass: r.subclass,
        stellar_mass: r.stellar_mass,
        radius: r.radius,
        absolute_magnitude: r.absolute_magnitude,
        age_my: r.age_my,
        surface_temperature: r.surface_temperature,
        luminosity: clone_opt_string(&r.luminosity),
        semi_major_axis: r.semi_major_axis,
        eccentricity: r.eccentricity,
        orbital_inclination: r.orbital_inclination,
        periapsis: r.periapsis,
        orbital_period: r.orbital_period,
        ascending_node: r.ascending_node,
        mean_anomaly: r.mean_anomaly,
        rotation_period: r.rotation_period,
        axial_tilt: r.axial_tilt,
        was_discovered: parse_flag(&r.was_discovered),
        was_mapped: parse_flag(&r.was_mapped),
    }
}

/// The planet a raw row decodes to: every attribute carried over, the two
/// discovery-state columns parsed.
pub open spec fn spec_planet_from_row(r: PlanetRow) -> Planet {
    Planet {
        body_name: r.body_name,
        body_id: r.body_id,
        distance_from_arrival_ls: r.distance_from_arrival_ls,
        tidal_lock: r.tidal_lock,
        terraform_state: r.terraform_state,
        planet_class: r.planet_class,
        atmosphere: r.atmosphere,
        volcanism: r.volcanism,
        mass_em: r.mass_em,
        radius: r.radius,
        surface_gravity: r.surface_gravity,
        surface_temperature: r.surface_temperature,
        surface_pressure: r.surface_pressure,
        landable: r.landable,
        semi_major_axis: r.semi_major_axis,
        eccentricity: r.eccentricity,
        orbital_inclination: r.orbital_inclination,
        periapsis: r.periapsis,
        orbital_period: r.orbital_period,
        ascending_node: r.ascending_node,
        mean_anomaly: r.mean_anomaly,
        rotation_period: r.rotation_period,
        axial_tilt: r.axial_tilt,
        was_discovered: spec_parse_flag(r.was_discovered),
        was_mapped: spec_parse_flag(r.was_mapped),
    }
}

/// Decodes one planet row.
pub fn planet_from_row(r: &PlanetRow) -> (p: Planet)
    ensures
        p == spec_planet_from_row(*r),
{
    Planet {
        body_name: clone_opt_string(&r.body_name),
        body_id: r.body_id,
        distance_from_arrival_ls: r.distance_from_arrival_ls,
        tidal_lock: r.tidal_lock,
        terraform_state: clone_opt_string(&r.terraform_state),
        planet_class: clone_opt_string(&r.planet_class),
        atmosphere: clone_opt_string(&r.atmosphere),
        volcanism: clone_opt_string(&r.volcanism),
        mass_em: r.mass_em,
        radius: r.radius,
        surface_gravity: r.surface_gravity,
        surface_temperature: r.surface_temperature,
        surface_pressure: r.surface_pressure,
        landable: r.landable,
        semi_major_axis: r.semi_major_axis,
        eccentricity: r.eccentricity,
        orbital_inclination: r.orbital_inclination,
        periapsis: r.periapsis,
        orbital_period: r.orbital_period,
        ascending_node: r.ascending_node,
        mean_anomaly: r.mean_anomaly,
        rotation_period: r.rotation_period,
        axial_tilt: r.axial_tilt,
        was_discovered: parse_flag(&r.was_discovered),
        was_mapped: parse_flag(&r.was_mapped),
    }
}

/// The system assembled from its attribute row and its child rows.  The
/// child collections are always present: a system with no star or planet
/// rows carries empty collections.
pub open spec fn spec_assemble_system(
    address: u64,
    row: SystemRow,
    star_rows: Seq<StarRow>,
    planet_rows: Seq<PlanetRow>,
) -> SystemView {
    SystemView {
        name: row.name,
        address: address,
        body_count: row.body_count,
        non_body_count: row.non_body_count,
        population: row.population,
        allegiance: row.allegiance,
        economy: row.economy,
        second_economy: row.second_economy,
        government: row.government,
        security: row.security,
        faction: row.faction,
        x: row.x,
        y: row.y,
        z: row.z,
        stars: star_rows.map_values(|r: StarRow| spec_star_from_row(r)),
        planets: planet_rows.map_values(|r: PlanetRow| spec_planet_from_row(r)),
    }
}

/// Assembles a system from its attribute row and all of its star and planet
/// rows, in source order.
pub fn assemble_system(
    address: u64,
    row: SystemRow,
    star_rows: &Vec<StarRow>,
    planet_rows: &Vec<PlanetRow>,
) -> (s: System)
    ensures
        s@ == spec_assemble_system(address, row, star_rows@, planet_rows@),
{
    let mut stars: Vec<Star> = Vec::new();
    let mut i: usize = 0;
    while i < star_rows.len()
        invariant
            i <= star_rows@.len(),
            stars@.len() == i,
            forall|k: int| 0 <= k < i ==> stars@[k] == spec_star_from_row(star_rows@[k]),
        decreases star_rows@.len() - i,
    {
        stars.push(star_from_row(&star_rows[i]));
        i = i + 1;
    }
    let mut planets: Vec<Planet> = Vec::new();
    let mut j: usize = 0;
    while j < planet_rows.len()
        invariant
            j <= planet_rows@.len(),
            planets@.len() == j,
            forall|k: int| 0 <= k < j ==> planets@[k] == spec_planet_from_row(planet_rows@[k]),
        decreases planet_rows@.len() - j,
    {
        planets.push(planet_from_row(&planet_rows[j]));
        j = j + 1;
    }
    proof {
        assert(stars@ =~= star_rows@.map_values(|r: StarRow| spec_star_from_row(r)));
        assert(planets@ =~= planet_rows@.map_values(|r: PlanetRow| spec_planet_from_row(r)));
    }
    System {
        name: row.name,
        address,
        body_count: row.body_count,
        non_body_count: row.non_body_count,
        population: row.population,
        allegiance: row.allegiance,
        economy: row.economy,
        second_economy: row.second_economy,
        government: row.government,
        security: row.security,
        faction: row.faction,
        x: row.x,
        y: row.y,
        z: row.z,
        stars,
        planets,
    }
}

/// LAW — idempotent recomputation: against an unchanged backing data set,
/// two independent computations for the same commodity produce structurally
/// equal objects, since the result is a function of the rows alone.
pub proof fn lemma_idempotent_recomputation(
    name: String,
    rows: Seq<CommodityRow>,
    strict_stock: bool,
    a: Option<Commodity>,
    b: Option<Commodity>,
)
    requires
        a == spec_aggregate_commodity(name, rows, strict_stock),
        b == spec_aggregate_commodity(name, rows, strict_stock),
    ensures
        a == b,
{
}

/// LAW — idempotent assembly: against unchanged rows, two independent
/// assemblies of the same system are structurally equal.
pub proof fn lemma_idempotent_assembly(
    address: u64,
    row: SystemRow,
    star_rows: Seq<StarRow>,
    planet_rows: Seq<PlanetRow>,
    a: SystemView,
    b: SystemView,
)
    requires
        a == spec_assemble_system(address, row, star_rows, planet_rows),
        b == spec_assemble_system(address, row, star_rows, planet_rows),
    ensures
        a == b,
{
}

/// LAW — system assembly: a system with zero star rows and zero planet rows
/// still assembles to a system object, with empty — not absent — child
/// collections.
pub proof fn lemma_childless_system_assembles(
    address: u64,
    row: SystemRow,
    star_rows: Seq<StarRow>,
    planet_rows: Seq<PlanetRow>,
)
    requires
        star_rows.len() == 0,
        planet_rows.len() == 0,
    ensures
        spec_assemble_system(address, row, star_rows, planet_rows).stars.len() == 0,
        spec_assemble_system(address, row, star_rows, planet_rows).planets.len() == 0,
{
}

/// A column nobody carries sums and counts to nothing.
pub(crate) proof fn lemma_absent_col_empty(rows: Seq<CommodityRow>, f: spec_fn(CommodityRow) -> Option<u64>)
    requires
        forall|i: int| 0 <= i < rows.len() ==> (#[trigger] f(rows[i])) is None,
    ensures
        spec_count_col(rows, f) == 0,
        spec_avg_col(rows, f) is None,
    decreases rows.len(),
{
    if rows.len() > 0 {
        assert(forall|i: int| 0 <= i < rows.drop_last().len() ==> rows.drop_last()[i] == rows[i]);
        lemma_absent_col_empty(rows.drop_last(), f);
        assert(f(rows[rows.len() - 1]) is None);
    }
}

/// Without a qualifying sell row there is no best sell offer.
pub(crate) proof fn lemma_best_sell_none(rows: Seq<CommodityRow>)
    requires
        forall|i: int| 0 <= i < rows.len() ==> !(#[trigger] spec_sell_qualifies(rows[i])),
    ensures
        spec_best_sell(rows) is None,
    decreases rows.len(),
{
    if rows.len() > 0 {
        assert(forall|i: int| 0 <= i < rows.drop_last().len() ==> rows.drop_last()[i] == rows[i]);
        lemma_best_sell_none(rows.drop_last());
        assert(!spec_sell_qualifies(rows[rows.len() - 1]));
    }
}

/// LAW — station-mask exclusion: best-buy resolution never selects a masked
/// station; the offer it selects comes from a qualifying row and its price
/// is minimal among all qualifying rows; and when no row qualifies — for
/// instance when every positively priced station is masked — the best buy is
/// undefined.
pub proof fn lemma_masked_stations_excluded(rows: Seq<CommodityRow>, strict_stock: bool)
    ensures
        spec_best_buy(rows, strict_stock) matches Some(o) ==> !spec_is_masked(o.station_name@),
        spec_best_buy(rows, strict_stock) matches Some(o) ==> exists|i: int|
            0 <= i < rows.len() && #[trigger] spec_buy_qualifies(rows[i], strict_stock)
                && o == spec_buy_offer(rows[i]),
        spec_best_buy(rows, strict_stock) matches Some(o) ==> forall|i: int|
            0 <= i < rows.len() && #[trigger] spec_buy_qualifies(rows[i], strict_stock)
                ==> o.price <= rows[i].buy_price->0,
        spec_best_buy(rows, strict_stock) is None <==> (forall|i: int|
            0 <= i < rows.len() ==> !(#[trigger] spec_buy_qualifies(rows[i], strict_stock))),
    decreases rows.len(),
{
    if rows.len() == 0 {
    } else {
        lemma_masked_stations_excluded(rows.drop_last(), strict_stock);
        let prefix = rows.drop_last();
        let last = rows.last();
        assert(forall|i: int| 0 <= i < prefix.len() ==> prefix[i] == rows[i]);
        assert(last == rows[rows.len() - 1]);
        if spec_buy_qualifies(last, strict_stock) {
            assert(spec_buy_qualifies(rows[rows.len() - 1], strict_stock));
        }
        let bb = spec_best_buy(rows, strict_stock);
        let pb = spec_best_buy(prefix, strict_stock);
        if bb is Some && pb is Some {
            let o = bb->0;
            let p = pb->0;
            let w: int = choose|i: int|
                0 <= i < prefix.len() && #[trigger] spec_buy_qualifies(prefix[i], strict_stock)
                    && p == spec_buy_offer(prefix[i]);
            if o == p {
                assert(spec_buy_qualifies(rows[w], strict_stock) && o == spec_buy_offer(rows[w]));
            }
        }
    }
}

} // verus!
