use r_cache::cache::Cache;
use r_cache::item::Item;
use r_cache::time::Duration;

fn busy_wait(span: std::time::Duration) {
    let start = std::time::Instant::now();
    while start.elapsed() < span {}
}

#[test]
fn duration_construction_formulas() {
    assert_eq!(Duration::from_secs(2).as_nanos(), 2_000_000_000);
    assert_eq!(Duration::from_millis(3).as_nanos(), 3_000_000);
    assert_eq!(Duration::new(1, 5).as_nanos(), 1_000_000_005);
    assert_eq!(Duration::from_nanos(7).as_nanos(), 7);
    assert_eq!(Duration::new(0, 0).as_nanos(), 0);
}

#[test]
fn expiry_boundary_is_strict() {
    let item = Item::new(0u8, Some(Duration::from_nanos(5)));
    assert_eq!(item.expired_after(0), false);
    assert_eq!(item.expired_after(5), false);
    assert_eq!(item.expired_after(6), true);
    let immortal = Item::new(0u8, None);
    assert_eq!(immortal.expired_after(u128::MAX), false);
}

#[test]
fn zero_duration_value_hidden_after_wait() {
    let mut cache = Cache::new(None);
    cache.set(0i8, "VALUE", Some(Duration::new(0, 0)));
    busy_wait(std::time::Duration::from_millis(1));
    assert_eq!(cache.get(&0i8), None);
}

#[test]
fn entry_expires_without_sweep() {
    let mut cache = Cache::new(Some(Duration::from_secs(2)));
    cache.set(0i8, "VALUE", None);
    assert_eq!(cache.get(&0i8), Some("VALUE"));
    busy_wait(std::time::Duration::from_millis(2100));
    assert_eq!(cache.get(&0i8), None);
    assert!(cache.contains_key(&0i8), "lazy expiry leaves the entry in place");
}

#[test]
fn remove_expired_keeps_immortal_entries() {
    let mut cache: Cache<u64, &str> = Cache::new(None);
    cache.set(1, "KEEP", None);
    cache.set(2, "DROP", Some(Duration::new(0, 0)));
    busy_wait(std::time::Duration::from_millis(1));
    cache.remove_expired();
    assert_eq!(cache.get(&1), Some("KEEP"));
    assert!(!cache.contains_key(&2));
}

#[test]
fn remove_returns_value_even_if_expired() {
    let mut cache = Cache::new(Some(Duration::new(0, 0)));
    cache.set(0i8, "VALUE", None);
    busy_wait(std::time::Duration::from_millis(1));
    assert_eq!(cache.remove(&0i8), Some("VALUE"));
    assert_eq!(cache.remove(&0i8), None);
}

#[test]
fn set_returns_previous_value_even_if_expired() {
    let mut cache = Cache::new(Some(Duration::new(0, 0)));
    cache.set(0i8, "OLD", None);
    busy_wait(std::time::Duration::from_millis(1));
    assert_eq!(cache.set(0i8, "NEW", None), Some("OLD"));
}

#[test]
fn get_hands_out_clones() {
    let mut cache: Cache<u64, String> = Cache::new(None);
    cache.set(9, String::from("shared"), None);
    assert_eq!(cache.get(&9), Some(String::from("shared")));
    assert_eq!(cache.get(&9), Some(String::from("shared")));
}

#[test]
fn clear_empties_every_key() {
    let mut cache: Cache<u64, u32> = Cache::new(None);
    cache.set(1, 10, None);
    cache.set(2, 20, Some(Duration::new(0, 0)));
    cache.set(3, 30, Some(Duration::from_secs(60)));
    cache.clear();
    assert_eq!(cache.get(&1), None);
    assert_eq!(cache.get(&2), None);
    assert_eq!(cache.get(&3), None);
    assert!(!cache.contains_key(&1));
    assert!(!cache.contains_key(&2));
    assert!(!cache.contains_key(&3));
}

#[test]
fn shrink_keeps_entries() {
    let mut cache: Cache<u64, u32> = Cache::new(None);
    cache.set(1, 10, None);
    cache.shrink();
    assert_eq!(cache.get(&1), Some(10));
}
