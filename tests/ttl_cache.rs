use storefront::cache::{Cache, DataCache};
use storefront::region::Region;

#[test]
fn get_right_after_set_returns_value() {
    let mut c: Cache<u32> = Cache::new(300);
    c.set_at(String::from("k"), 5, 1_000);
    assert_eq!(c.get_at("k", 1_000), Some(5));
    assert_eq!(c.get_at("k", 300_999), Some(5));
    assert!(c.has_at("k", 1_000));
}

#[test]
fn get_after_ttl_is_absent() {
    let mut c: Cache<u32> = Cache::new(300);
    c.set_at(String::from("k"), 5, 1_000);
    assert_eq!(c.get_at("k", 301_000), None);
    assert_eq!(c.get_at("k", 999_999), None);
    assert!(!c.has_at("k", 301_000));
    assert_eq!(c.get_at("other", 1_000), None);
}

#[test]
fn overwrite_replaces_value_and_expiry() {
    let mut c: Cache<u32> = Cache::new(1);
    c.set_at(String::from("k"), 1, 0);
    c.set_at(String::from("k"), 2, 5_000);
    assert_eq!(c.get_at("k", 5_500), Some(2));
    assert_eq!(c.get_at("k", 6_000), None);
}

#[test]
fn invalidate_and_clear() {
    let mut c: Cache<u32> = Cache::new(60);
    c.set_at(String::from("a"), 1, 0);
    c.set_at(String::from("b"), 2, 0);
    c.invalidate("a");
    assert_eq!(c.get_at("a", 1), None);
    assert_eq!(c.get_at("b", 1), Some(2));
    c.invalidate("missing");
    c.clear();
    assert_eq!(c.get_at("b", 1), None);
}

#[test]
fn zero_ttl_never_serves() {
    let mut c: Cache<u32> = Cache::new(0);
    c.set_at(String::from("k"), 9, 10);
    assert_eq!(c.get_at("k", 10), None);
}

#[test]
fn wall_clock_get_after_set() {
    let mut c: Cache<u32> = Cache::new(300);
    c.set(String::from("k"), 11);
    assert_eq!(c.get("k"), Some(11));
    assert!(c.has("k"));
    assert_eq!(c.get("nope"), None);
}

#[test]
fn data_cache_keys_by_region() {
    let mut d = DataCache::new();
    assert!(d.get_products("eu").is_none());
    d.set_products("eu", Vec::new());
    assert_eq!(d.get_products("eu").map(|v| v.len()), Some(0));
    assert!(d.get_products("us").is_none());
    assert!(d.products.has("products:eu"));
    d.set_regions(vec![Region::default()]);
    let regions = d.get_regions().unwrap();
    assert_eq!(regions.len(), 1);
    assert_eq!(regions[0].id, "global");
    assert!(d.regions.has("regions"));
}
