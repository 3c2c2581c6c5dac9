use tokensbyte::relay_cache::{
    invalidate_all, put_cached_ha_enabled, put_cached_relay_settings, put_cached_site_timezone,
    CacheSlot, RelayCaches, CACHE_TTL_MS, HA_PLUGIN_NAME,
};

#[test]
fn get_after_put_within_ttl_returns_value() {
    let mut slot: CacheSlot<String> = CacheSlot::new();
    slot.put("Asia/Tokyo".to_string(), 1_000);
    assert_eq!(slot.get(1_000), Some("Asia/Tokyo".to_string()));
    assert_eq!(slot.get(1_000 + CACHE_TTL_MS - 1), Some("Asia/Tokyo".to_string()));
}

#[test]
fn get_after_ttl_misses() {
    let mut slot: CacheSlot<bool> = CacheSlot::new();
    slot.put(true, 5_000);
    assert_eq!(slot.get(5_000 + CACHE_TTL_MS), None);
    assert_eq!(slot.get(5_000 + CACHE_TTL_MS + 10), None);
}

#[test]
fn clock_before_store_counts_as_fresh() {
    let mut slot: CacheSlot<bool> = CacheSlot::new();
    slot.put(false, 10_000);
    assert_eq!(slot.get(0), Some(false));
}

#[test]
fn fill_miss_keeps_fresh_value() {
    let mut slot: CacheSlot<String> = CacheSlot::new();
    slot.put("first".to_string(), 0);
    let got = slot.fill_miss("second".to_string(), 100);
    assert_eq!(got, "first");
    assert_eq!(slot.get(200), Some("first".to_string()));
}

#[test]
fn fill_miss_replaces_stale_value() {
    let mut slot: CacheSlot<String> = CacheSlot::new();
    slot.put("old".to_string(), 0);
    let got = slot.fill_miss("new".to_string(), CACHE_TTL_MS + 5);
    assert_eq!(got, "new");
    assert_eq!(slot.get(CACHE_TTL_MS + 6), Some("new".to_string()));
}

#[test]
fn fill_miss_on_empty_slot_stores() {
    let mut slot: CacheSlot<bool> = CacheSlot::new();
    assert_eq!(slot.get(0), None);
    assert!(slot.fill_miss(true, 7));
    assert_eq!(slot.get(8), Some(true));
}

#[test]
fn clear_empties_slot() {
    let mut slot: CacheSlot<bool> = CacheSlot::new();
    slot.put(true, 0);
    slot.clear();
    assert_eq!(slot.get(0), None);
}

#[test]
fn relay_caches_write_through_and_invalidate() {
    let mut caches: RelayCaches<u32> = RelayCaches::new();
    put_cached_relay_settings(&mut caches, 42, 10);
    put_cached_site_timezone(&mut caches, "UTC", 10);
    put_cached_ha_enabled(&mut caches, true, 10);
    assert_eq!(caches.relay_settings.get(20), Some(42));
    assert_eq!(caches.site_timezone.get(20), Some("UTC".to_string()));
    assert_eq!(caches.ha_enabled.get(20), Some(true));
    invalidate_all(&mut caches);
    assert_eq!(caches.relay_settings.get(20), None);
    assert_eq!(caches.site_timezone.get(20), None);
    assert_eq!(caches.ha_enabled.get(20), None);
}

#[test]
fn ha_plugin_name_is_stable() {
    assert_eq!(HA_PLUGIN_NAME, "high_availability_channel");
}
