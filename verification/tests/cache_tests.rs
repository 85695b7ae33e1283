use hyprwall::cache::ImageCache;

#[test]
fn cache_hit_returns_handle() {
    let mut c = ImageCache::new(10);
    c.insert("/w/a.png".to_string(), 1);
    assert_eq!(c.get("/w/a.png"), Some(1));
    assert_eq!(c.len(), 1);
}

#[test]
fn cache_miss_returns_none() {
    let mut c = ImageCache::new(10);
    c.insert("/w/a.png".to_string(), 1);
    assert_eq!(c.get("/w/b.png"), None);
}

#[test]
fn capacity_two_evicts_least_recently_used() {
    // Load p1, p2, p3 in order at capacity 2: p1 is evicted, and a later
    // lookup of p1 is a miss (it would have to be decoded again).
    let mut c = ImageCache::new(2);
    c.insert("p1".to_string(), 1);
    c.insert("p2".to_string(), 2);
    c.insert("p3".to_string(), 3);
    assert_eq!(c.len(), 2);
    assert_eq!(c.get("p1"), None);
    assert_eq!(c.get("p2"), Some(2));
    assert_eq!(c.get("p3"), Some(3));
}

#[test]
fn eviction_hits_exactly_the_lru_entry() {
    // Three distinct keys at capacity 3, then a fourth: only the least
    // recently used one goes.
    let mut c = ImageCache::new(3);
    c.insert("a".to_string(), 1);
    c.insert("b".to_string(), 2);
    c.insert("c".to_string(), 3);
    c.insert("d".to_string(), 4);
    assert_eq!(c.get("a"), None);
    assert_eq!(c.get("b"), Some(2));
    assert_eq!(c.get("c"), Some(3));
    assert_eq!(c.get("d"), Some(4));
}

#[test]
fn access_resets_recency_order() {
    // Touching a key makes it most recently used, so the other key is the
    // one evicted on overflow.
    let mut c = ImageCache::new(2);
    c.insert("a".to_string(), 1);
    c.insert("b".to_string(), 2);
    assert_eq!(c.get("a"), Some(1));
    c.insert("c".to_string(), 3);
    assert_eq!(c.get("b"), None);
    assert_eq!(c.get("a"), Some(1));
    assert_eq!(c.get("c"), Some(3));
}

#[test]
fn capacity_one_keeps_only_newest() {
    let mut c = ImageCache::new(1);
    c.insert("a".to_string(), 1);
    c.insert("b".to_string(), 2);
    assert_eq!(c.len(), 1);
    assert_eq!(c.get("a"), None);
    assert_eq!(c.get("b"), Some(2));
}
