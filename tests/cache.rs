use api::cache::{
    key_all, key_for, matches_pattern, pattern_for, plan_read, MemoryCache, ReadPlan, ScanDelete,
    CACHE_TTL_SECONDS, SCAN_PAGE_SIZE,
};

#[test]
fn ttl_expiry() {
    let mut c = MemoryCache::new();
    c.set("lessons:L1", "{\"id\":\"L1\"}".to_string(), 1, 1000);
    assert_eq!(c.get("lessons:L1", 1000), Some("{\"id\":\"L1\"}".to_string()));
    assert_eq!(c.get("lessons:L1", 1001), None);
    assert_eq!(c.get("lessons:L1", 5000), None);
}

#[test]
fn overwrite_resets_ttl() {
    let mut c = MemoryCache::new();
    c.set("k", "a".to_string(), 10, 0);
    c.set("k", "b".to_string(), 10, 8);
    assert_eq!(c.get("k", 15), Some("b".to_string()));
    assert_eq!(c.get("k", 18), None);
    c.set("far", "x".to_string(), u64::MAX, 5);
    assert_eq!(c.get("far", u64::MAX - 1), Some("x".to_string()));
}

#[test]
fn pattern_delete_scope() {
    let mut c = MemoryCache::new();
    for k in ["lessons:all", "lessons:L1", "lessons:L2", "modules:all", "modules:M1", "programs:all"] {
        c.set(k, format!("v-{k}"), 300, 0);
    }
    c.delete_all("lessons:*");
    assert_eq!(c.get("lessons:all", 1), None);
    assert_eq!(c.get("lessons:L1", 1), None);
    assert_eq!(c.get("lessons:L2", 1), None);
    assert_eq!(c.get("modules:all", 1), Some("v-modules:all".to_string()));
    assert_eq!(c.get("modules:M1", 1), Some("v-modules:M1".to_string()));
    assert_eq!(c.get("programs:all", 1), Some("v-programs:all".to_string()));
}

#[test]
fn delete_single_key() {
    let mut c = MemoryCache::new();
    c.set("lessons:L1", "a".to_string(), 300, 0);
    c.set("lessons:L2", "b".to_string(), 300, 0);
    c.delete("lessons:L1");
    assert_eq!(c.get("lessons:L1", 1), None);
    assert_eq!(c.get("lessons:L2", 1), Some("b".to_string()));
    c.delete_all("lessons:L2");
    assert_eq!(c.get("lessons:L2", 1), None);
}

#[test]
fn cache_aside_read_after_invalidation() {
    let mut c = MemoryCache::new();
    let key = key_all("programs");
    c.set(&key, "[\"stale\"]".to_string(), CACHE_TTL_SECONDS, 0);
    c.delete_all(&pattern_for("programs"));
    let mut graph_reads = 0;
    let first = match plan_read(c.get(&key, 10)) {
        ReadPlan::Serve(v) => v,
        ReadPlan::Recompute => {
            graph_reads += 1;
            let fresh = "[\"C1\"]".to_string();
            c.set(&key, fresh.clone(), CACHE_TTL_SECONDS, 10);
            fresh
        }
    };
    let second = match plan_read(c.get(&key, 200)) {
        ReadPlan::Serve(v) => v,
        ReadPlan::Recompute => {
            graph_reads += 1;
            String::new()
        }
    };
    assert_eq!(graph_reads, 1);
    assert_eq!(first, "[\"C1\"]");
    assert_eq!(second, "[\"C1\"]");
}

#[test]
fn cached_list_comes_back_unchanged() {
    let mut c = MemoryCache::new();
    let value = "[{\"id\":\"C1\",\"title\":\"Rust\",\"status\":\"draft\",\"rating\":4.5}]".to_string();
    c.set("programs:all", value.clone(), 300, 100);
    assert_eq!(c.get("programs:all", 399), Some(value));
    assert_eq!(c.get("programs:all", 400), None);
}

#[test]
fn keys_and_patterns() {
    assert_eq!(key_all("lessons"), "lessons:all");
    assert_eq!(key_for("modules", "M1"), "modules:M1");
    assert_eq!(pattern_for("programs"), "programs:*");
    assert!(matches_pattern("lessons:*", "lessons:L1"));
    assert!(matches_pattern("lessons:*", "lessons:"));
    assert!(!matches_pattern("lessons:*", "lesson:L1"));
    assert!(!matches_pattern("lessons:*", "modules:M1"));
    assert!(matches_pattern("lessons:L1", "lessons:L1"));
    assert!(!matches_pattern("lessons:L1", "lessons:L10"));
    assert!(matches_pattern("*", "anything"));
}

#[test]
fn scan_delete_walks_cursor_until_zero() {
    let mut scan = ScanDelete::new("lessons:*");
    let q = scan.next_scan().unwrap();
    assert_eq!((q.cursor, q.pattern.as_str(), q.count), (0, "lessons:*", SCAN_PAGE_SIZE));
    let del = scan.on_page(17, vec!["lessons:L1".to_string()]);
    assert_eq!(del, vec!["lessons:L1".to_string()]);
    assert!(!scan.is_finished());
    assert_eq!(scan.next_scan().unwrap().cursor, 17);
    let del = scan.on_page(0, vec![]);
    assert!(del.is_empty());
    assert!(scan.is_finished());
    assert!(scan.next_scan().is_none());
}
