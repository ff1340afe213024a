use conselju::cache::GiftCache;
use conselju::gift::CachedGift;

fn sample_gift(price: u64, cached_at: u64) -> CachedGift {
    CachedGift {
        name: "テストギフト".to_string(),
        description: "テスト用のギフトです".to_string(),
        price,
        category: "テスト".to_string(),
        url: None,
        cached_at,
    }
}

#[test]
fn test_cache_operations() {
    let mut cache = GiftCache::new(2);

    let gift = sample_gift(1000, 0);
    cache.add("test_key".to_string(), gift);

    // a fresh record comes back whole
    let cached = cache.get("test_key", 0);
    assert!(cached.is_some());
    assert_eq!(cached.unwrap()[0].name, "テストギフト");

    // once the time-to-live elapses, nothing comes back
    let expired = cache.get("test_key", 3);
    assert!(expired.is_none());

    // the sweep removes the stale record and reports it
    let removed = cache.cleanup_expired(3);
    assert_eq!(removed, 1);
    assert!(cache.get("test_key", 3).is_none());
}

#[test]
fn test_cache_functionality() {
    let mut cache = GiftCache::new(3600);

    let gift = sample_gift(10000, 0);
    cache.add("test_key".to_string(), gift);

    let cached = cache.get("test_key", 1);
    assert!(cached.is_some());
    assert_eq!(cached.unwrap()[0].name, "テストギフト");
}

#[test]
fn test_put_get_round_trip() {
    let mut cache = GiftCache::new(60);
    let gifts = vec![sample_gift(500, 10), sample_gift(900, 10)];
    cache.set("k".to_string(), gifts);

    // immediately after put, get returns exactly what was stored
    let got = cache.get("k", 10).unwrap();
    assert_eq!(got.len(), 2);
    assert_eq!(got[0].price, 500);
    assert_eq!(got[1].price, 900);

    // at the expiry boundary the entry is no longer served
    assert!(cache.get("k", 70).is_none());
}

#[test]
fn test_remove_and_clear() {
    let mut cache = GiftCache::new(60);
    cache.set("a".to_string(), vec![sample_gift(1, 0)]);
    cache.set("b".to_string(), vec![sample_gift(2, 0)]);

    cache.remove("a");
    assert!(cache.get("a", 0).is_none());
    assert!(cache.get("b", 0).is_some());

    cache.clear();
    assert!(cache.get("b", 0).is_none());
}

#[test]
fn test_cleanup_keeps_fresh_entries() {
    let mut cache = GiftCache::new(100);
    cache.set("old".to_string(), vec![sample_gift(1, 0)]);
    cache.set("new".to_string(), vec![sample_gift(2, 150)]);

    let removed = cache.cleanup_expired(150);
    assert_eq!(removed, 1);
    assert!(cache.get("old", 150).is_none());
    assert!(cache.get("new", 150).is_some());
}
