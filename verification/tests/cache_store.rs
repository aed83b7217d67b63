use edmarket::cache::Cache;
use edmarket::domain::{Commodity, System};
use edmarket::ping;

fn commodity(name: &str, mean: Option<u64>) -> Commodity {
    Commodity {
        name: name.to_string(),
        buy_price: None,
        sell_price: None,
        mean_price: mean,
        lowest_buy_price: None,
        highest_sell_price: None,
    }
}

fn system(address: u64, name: Option<&str>) -> System {
    System {
        name: name.map(|n| n.to_string()),
        address,
        body_count: None,
        non_body_count: None,
        population: None,
        allegiance: None,
        economy: None,
        second_economy: None,
        government: None,
        security: None,
        faction: None,
        x: None,
        y: None,
        z: None,
        stars: Vec::new(),
        planets: Vec::new(),
    }
}

#[test]
fn ping_answers_pong() {
    assert_eq!(ping(), "pong");
}

#[test]
fn empty_store_answers_nothing() {
    let cache = Cache::new();
    assert!(cache.get_commodity("gold".to_string(), 0).is_none());
    assert!(cache.get_system(7, 0).is_none());
}

#[test]
fn commodity_entry_fresh_within_ttl() {
    let mut cache = Cache::new();
    cache.put_commodity(commodity("gold", Some(5)), "gold".to_string(), 100);
    let hit = cache.get_commodity("gold".to_string(), 100).expect("fresh at store instant");
    assert_eq!(hit.name, "gold");
    assert_eq!(hit.mean_price, Some(5));
    assert!(cache.get_commodity("gold".to_string(), 699).is_some());
    // An entry aged exactly the TTL is still usable.
    assert!(cache.get_commodity("gold".to_string(), 700).is_some());
}

#[test]
fn commodity_entry_stale_after_ttl() {
    let mut cache = Cache::new();
    cache.put_commodity(commodity("gold", Some(5)), "gold".to_string(), 100);
    assert!(cache.get_commodity("gold".to_string(), 701).is_none());
    // Stale entries are ignored, not removed: a later write revives the key.
    cache.put_commodity(commodity("gold", Some(6)), "gold".to_string(), 800);
    let hit = cache.get_commodity("gold".to_string(), 900).expect("rewritten entry");
    assert_eq!(hit.mean_price, Some(6));
}

#[test]
fn keys_are_exact_no_normalization() {
    let mut cache = Cache::new();
    cache.put_commodity(commodity("Gold", Some(1)), "Gold".to_string(), 0);
    assert!(cache.get_commodity("gold".to_string(), 0).is_none());
    assert!(cache.get_commodity("Gold ".to_string(), 0).is_none());
    assert!(cache.get_commodity("Gold".to_string(), 0).is_some());
}

#[test]
fn overwrite_replaces_value_and_stamp() {
    let mut cache = Cache::new();
    cache.put_commodity(commodity("silver", Some(10)), "silver".to_string(), 0);
    cache.put_commodity(commodity("silver", Some(20)), "silver".to_string(), 650);
    // The old stamp is gone: at 700 the rewritten entry is fresh.
    let hit = cache.get_commodity("silver".to_string(), 700).expect("rewritten entry");
    assert_eq!(hit.mean_price, Some(20));
}

#[test]
fn sides_are_independent() {
    let mut cache = Cache::new();
    cache.put_commodity(commodity("gold", Some(5)), "gold".to_string(), 0);
    cache.put_system(system(42, Some("Shinrarta Dezhra")), 42, 0);
    assert!(cache.get_commodity("gold".to_string(), 0).is_some());
    let s = cache.get_system(42, 0).expect("stored system");
    assert_eq!(s.name.as_deref(), Some("Shinrarta Dezhra"));
    assert!(cache.get_system(41, 0).is_none());
}

#[test]
fn system_entry_expires_like_commodity() {
    let mut cache = Cache::new();
    cache.put_system(system(9, Some("Sol")), 9, 50);
    assert!(cache.get_system(9, 650).is_some());
    assert!(cache.get_system(9, 651).is_none());
}

#[test]
fn read_hands_out_copies() {
    let mut cache = Cache::new();
    cache.put_commodity(commodity("gold", Some(5)), "gold".to_string(), 0);
    let mut first = cache.get_commodity("gold".to_string(), 0).expect("stored");
    first.mean_price = Some(99);
    let second = cache.get_commodity("gold".to_string(), 0).expect("still stored");
    assert_eq!(second.mean_price, Some(5));
}
