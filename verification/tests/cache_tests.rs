use sceideal_auth::cache::ExpiringCache;

#[test]
fn get_returns_value_before_expiry() {
    let mut cache: ExpiringCache<u32> = ExpiringCache::new();
    cache.insert("k".to_string(), 42, 10, 100);
    assert_eq!(cache.get(&"k".to_string(), 100), Some(&42));
    assert_eq!(cache.get(&"k".to_string(), 105), Some(&42));
    assert_eq!(cache.get(&"k".to_string(), 109), Some(&42));
}

#[test]
fn get_returns_none_from_expiry_on() {
    let mut cache: ExpiringCache<u32> = ExpiringCache::new();
    cache.insert("k".to_string(), 42, 10, 100);
    assert_eq!(cache.get(&"k".to_string(), 110), None);
    assert_eq!(cache.get(&"k".to_string(), 200), None);
}

#[test]
fn get_unknown_key_is_none() {
    let cache: ExpiringCache<u32> = ExpiringCache::new();
    assert_eq!(cache.get(&"missing".to_string(), 0), None);
}

#[test]
fn insert_overwrites_value_and_expiry() {
    let mut cache: ExpiringCache<u32> = ExpiringCache::new();
    cache.insert("k".to_string(), 1, 10, 0);
    cache.insert("k".to_string(), 2, 10, 5);
    assert_eq!(cache.get(&"k".to_string(), 12), Some(&2));
    assert_eq!(cache.get(&"k".to_string(), 15), None);
}

#[test]
fn remove_is_exactly_once() {
    let mut cache: ExpiringCache<u32> = ExpiringCache::new();
    cache.insert("k".to_string(), 7, 10, 0);
    assert_eq!(cache.remove(&"k".to_string(), 5), Some(7));
    assert_eq!(cache.remove(&"k".to_string(), 5), None);
    assert_eq!(cache.get(&"k".to_string(), 5), None);
}

#[test]
fn remove_expired_entry_returns_none() {
    let mut cache: ExpiringCache<u32> = ExpiringCache::new();
    cache.insert("k".to_string(), 7, 5, 0);
    assert_eq!(cache.remove(&"k".to_string(), 5), None);
}

#[test]
fn set_expiration_extends_live_entry() {
    let mut cache: ExpiringCache<u32> = ExpiringCache::new();
    cache.insert("k".to_string(), 7, 5, 0);
    cache.set_expiration(&"k".to_string(), 10, 4);
    assert_eq!(cache.get(&"k".to_string(), 9), Some(&7));
    assert_eq!(cache.get(&"k".to_string(), 13), Some(&7));
    assert_eq!(cache.get(&"k".to_string(), 14), None);
}

#[test]
fn set_expiration_ignores_expired_entry() {
    let mut cache: ExpiringCache<u32> = ExpiringCache::new();
    cache.insert("k".to_string(), 7, 5, 0);
    cache.set_expiration(&"k".to_string(), 100, 5);
    assert_eq!(cache.get(&"k".to_string(), 6), None);
}

#[test]
fn replace_value_keeps_expiry() {
    let mut cache: ExpiringCache<u32> = ExpiringCache::new();
    cache.insert("k".to_string(), 1, 10, 0);
    assert_eq!(cache.replace_value(&"k".to_string(), 2, 5), Some(1));
    assert_eq!(cache.get(&"k".to_string(), 9), Some(&2));
    assert_eq!(cache.get(&"k".to_string(), 10), None);
}

#[test]
fn replace_value_on_dead_entry_is_noop() {
    let mut cache: ExpiringCache<u32> = ExpiringCache::new();
    assert_eq!(cache.replace_value(&"k".to_string(), 2, 0), None);
    cache.insert("k".to_string(), 1, 5, 0);
    assert_eq!(cache.replace_value(&"k".to_string(), 2, 5), None);
    assert_eq!(cache.get(&"k".to_string(), 4), Some(&1));
}

#[test]
fn purge_expired_keeps_live_entries_only() {
    let mut cache: ExpiringCache<u32> = ExpiringCache::new();
    cache.insert("a".to_string(), 1, 10, 0);
    cache.insert("b".to_string(), 2, 2, 0);
    cache.insert("c".to_string(), 3, 20, 0);
    cache.purge_expired(5);
    assert_eq!(cache.get(&"a".to_string(), 5), Some(&1));
    assert_eq!(cache.get(&"b".to_string(), 5), None);
    assert_eq!(cache.get(&"c".to_string(), 5), Some(&3));
}
