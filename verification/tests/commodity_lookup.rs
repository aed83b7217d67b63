use edmarket::cache::Cache;
use edmarket::engine::{aggregate_commodity, is_masked};
use edmarket::lookup::{lookup_commodity, CommoditySource};
use edmarket::rows::{CommodityRow, QueryError};

fn row(buy: Option<u64>, sell: Option<u64>, mean: Option<u64>, station: &str) -> CommodityRow {
    CommodityRow {
        buy_price: buy,
        sell_price: sell,
        mean_price: mean,
        stock: None,
        station_name: station.to_string(),
        system_name: "Somewhere".to_string(),
    }
}

/// An in-memory backing store standing in for the data-access layer; counts
/// how often the engine path consults it.
struct MemSource {
    answer: Result<Vec<CommodityRow>, QueryError>,
    calls: usize,
}

impl CommoditySource for MemSource {
    fn run_commodity_query(
        &mut self,
        _name: &String,
        _odyssey: bool,
    ) -> Result<Vec<CommodityRow>, QueryError> {
        self.calls += 1;
        match &self.answer {
            Ok(rows) => Ok(rows
                .iter()
                .map(|r| CommodityRow {
                    buy_price: r.buy_price,
                    sell_price: r.sell_price,
                    mean_price: r.mean_price,
                    stock: r.stock,
                    station_name: r.station_name.clone(),
                    system_name: r.system_name.clone(),
                })
                .collect()),
            Err(_) => Err(QueryError),
        }
    }
}

fn gold_rows() -> Vec<CommodityRow> {
    vec![
        row(Some(150), Some(90), Some(120), "Abraham Lincoln"),
        row(Some(100), Some(110), Some(120), "Jameson Memorial"),
        row(Some(200), Some(70), Some(120), "Davinci Dock"),
    ]
}

#[test]
fn masked_pattern_is_three_letter_code() {
    assert!(is_masked("K7Q-L3M"));
    assert!(is_masked("AAA-BBB"));
    assert!(!is_masked("Jameson Memorial"));
    assert!(!is_masked("ABCDEFG"));
    assert!(!is_masked("AB-CDEF"));
    assert!(!is_masked("AAA-BB"));
}

#[test]
fn averages_and_extremes_of_gold() {
    let c = aggregate_commodity("gold".to_string(), &gold_rows(), false).expect("rows matched");
    assert_eq!(c.name, "gold");
    assert_eq!(c.buy_price, Some(150));
    assert_eq!(c.sell_price, Some(90));
    assert_eq!(c.mean_price, Some(120));
    let low = c.lowest_buy_price.expect("a qualifying buy row");
    assert_eq!(low.price, 100);
    assert_eq!(low.station_name, "Jameson Memorial");
    assert_eq!(low.system_name, "Somewhere");
    let high = c.highest_sell_price.expect("a qualifying sell row");
    assert_eq!(high.price, 110);
    assert_eq!(high.station_name, "Jameson Memorial");
}

#[test]
fn average_truncates() {
    let rows = vec![row(Some(100), None, None, "A Port"), row(Some(101), None, None, "B Port")];
    let c = aggregate_commodity("tea".to_string(), &rows, false).expect("rows matched");
    assert_eq!(c.buy_price, Some(100));
}

#[test]
fn average_ignores_absent_values() {
    let rows = vec![
        row(Some(100), None, Some(7), "A Port"),
        row(None, Some(40), None, "B Port"),
        row(Some(200), None, None, "C Port"),
    ];
    let c = aggregate_commodity("tea".to_string(), &rows, false).expect("rows matched");
    assert_eq!(c.buy_price, Some(150));
    assert_eq!(c.sell_price, Some(40));
    assert_eq!(c.mean_price, Some(7));
}

#[test]
fn no_rows_is_not_found() {
    assert!(aggregate_commodity("unobtainium".to_string(), &Vec::new(), false).is_none());
}

#[test]
fn all_null_prices_surface_as_empty_object() {
    let rows = vec![row(None, None, None, "A Port"), row(None, None, None, "B Port")];
    let c = aggregate_commodity("drones".to_string(), &rows, false).expect("rows matched");
    assert_eq!(c.buy_price, None);
    assert_eq!(c.sell_price, None);
    assert_eq!(c.mean_price, None);
    assert!(c.lowest_buy_price.is_none());
    assert!(c.highest_sell_price.is_none());
}

#[test]
fn zero_buy_price_does_not_qualify() {
    let rows = vec![row(Some(0), None, None, "A Port"), row(Some(80), None, None, "B Port")];
    let c = aggregate_commodity("tea".to_string(), &rows, false).expect("rows matched");
    // The zero row still joins the average but never the best-buy offer.
    assert_eq!(c.buy_price, Some(40));
    assert_eq!(c.lowest_buy_price.expect("qualifying row").price, 80);
}

#[test]
fn masked_station_excluded_from_best_buy() {
    // The cheapest buy sits at a masked station: the next-best unmasked one wins.
    let rows = vec![row(Some(50), None, None, "K7Q-L3M"), row(Some(80), None, None, "B Port")];
    let c = aggregate_commodity("tea".to_string(), &rows, false).expect("rows matched");
    let low = c.lowest_buy_price.expect("unmasked qualifying row");
    assert_eq!(low.price, 80);
    assert_eq!(low.station_name, "B Port");
}

#[test]
fn only_masked_stations_leave_best_buy_undefined() {
    let rows = vec![row(Some(50), Some(60), None, "K7Q-L3M")];
    let c = aggregate_commodity("tea".to_string(), &rows, false).expect("rows matched");
    assert_eq!(c.buy_price, Some(50));
    assert!(c.lowest_buy_price.is_none());
    assert!(c.highest_sell_price.is_none());
}

#[test]
fn strict_dialect_requires_stock() {
    let mut thin = row(Some(10), None, None, "A Port");
    thin.stock = Some(1000);
    let mut deep = row(Some(20), None, None, "B Port");
    deep.stock = Some(1001);
    let rows = vec![thin, deep];
    let strict = aggregate_commodity("tea".to_string(), &rows, true).expect("rows matched");
    assert_eq!(strict.lowest_buy_price.expect("stocked row").price, 20);
    let lax = aggregate_commodity("tea".to_string(), &rows, false).expect("rows matched");
    assert_eq!(lax.lowest_buy_price.expect("cheapest row").price, 10);
}

#[test]
fn sell_tie_keeps_earliest_row() {
    let rows = vec![row(None, Some(70), None, "A Port"), row(None, Some(70), None, "B Port")];
    let c = aggregate_commodity("tea".to_string(), &rows, false).expect("rows matched");
    assert_eq!(c.highest_sell_price.expect("qualifying row").station_name, "A Port");
}

#[test]
fn recomputation_is_idempotent() {
    let a = aggregate_commodity("gold".to_string(), &gold_rows(), false).expect("rows matched");
    let b = aggregate_commodity("gold".to_string(), &gold_rows(), false).expect("rows matched");
    assert_eq!(a.name, b.name);
    assert_eq!(a.buy_price, b.buy_price);
    assert_eq!(a.sell_price, b.sell_price);
    assert_eq!(a.mean_price, b.mean_price);
    let (la, lb) = (a.lowest_buy_price.unwrap(), b.lowest_buy_price.unwrap());
    assert_eq!(la.price, lb.price);
    assert_eq!(la.station_name, lb.station_name);
    assert_eq!(la.system_name, lb.system_name);
    let (ha, hb) = (a.highest_sell_price.unwrap(), b.highest_sell_price.unwrap());
    assert_eq!(ha.price, hb.price);
    assert_eq!(ha.station_name, hb.station_name);
}

#[test]
fn lookup_caches_and_expires() {
    let mut cache = Cache::new();
    let mut source = MemSource { answer: Ok(gold_rows()), calls: 0 };

    let first = lookup_commodity(&mut cache, &mut source, "gold".to_string(), false, 0)
        .expect("computed");
    assert_eq!(first.buy_price, Some(150));
    assert_eq!(first.lowest_buy_price.expect("qualifying row").price, 100);
    assert_eq!(source.calls, 1);

    // Second lookup at the same instant: answered by the cache, the engine
    // is not re-invoked.
    let second = lookup_commodity(&mut cache, &mut source, "gold".to_string(), false, 0)
        .expect("cached");
    assert_eq!(second.buy_price, Some(150));
    assert_eq!(source.calls, 1);

    // After the TTL has elapsed the engine runs again.
    let third = lookup_commodity(&mut cache, &mut source, "gold".to_string(), false, 601)
        .expect("recomputed");
    assert_eq!(third.buy_price, Some(150));
    assert_eq!(source.calls, 2);
}

#[test]
fn not_found_is_never_cached() {
    let mut cache = Cache::new();
    let mut source = MemSource { answer: Ok(Vec::new()), calls: 0 };

    assert!(lookup_commodity(&mut cache, &mut source, "ore".to_string(), false, 0).is_none());
    assert_eq!(source.calls, 1);
    // Nothing was poisoned into the cache ...
    assert!(cache.get_commodity("ore".to_string(), 0).is_none());
    // ... so the next lookup consults the collaborator again.
    assert!(lookup_commodity(&mut cache, &mut source, "ore".to_string(), false, 0).is_none());
    assert_eq!(source.calls, 2);
}

#[test]
fn query_failure_is_never_cached() {
    let mut cache = Cache::new();
    let mut source = MemSource { answer: Err(QueryError), calls: 0 };
    assert!(lookup_commodity(&mut cache, &mut source, "gold".to_string(), false, 0).is_none());
    assert_eq!(source.calls, 1);
    assert!(cache.get_commodity("gold".to_string(), 0).is_none());
}

#[test]
fn empty_object_is_returned_but_not_cached() {
    let mut cache = Cache::new();
    let rows = vec![row(None, None, None, "A Port")];
    let mut source = MemSource { answer: Ok(rows), calls: 0 };
    let c = lookup_commodity(&mut cache, &mut source, "drones".to_string(), false, 0)
        .expect("row existed");
    assert_eq!(c.mean_price, None);
    assert!(cache.get_commodity("drones".to_string(), 0).is_none());
    lookup_commodity(&mut cache, &mut source, "drones".to_string(), false, 0);
    assert_eq!(source.calls, 2);
}
