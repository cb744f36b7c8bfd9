use spotlight_windows::search::cache::SearchCache;
use spotlight_windows::search::SearchResult;

fn file_result(path: &str, name: &str, size: u64, score: i64) -> SearchResult {
    SearchResult {
        path: path.to_string(),
        name: name.to_string(),
        extension: Some("txt".to_string()),
        size,
        modified: 0,
        is_directory: false,
        score,
    }
}

/// Insertion then lookup gives the stored results back.
#[test]
fn test_cache_set_and_get() {
    let mut cache = SearchCache::new(10);

    let results = vec![file_result("/test/file.txt", "file.txt", 1024, 80)];

    cache.set("test query".to_string(), results.clone());

    let cached = cache.get("test query");
    assert!(cached.is_some());
    let cached_results = cached.unwrap();
    assert_eq!(cached_results.len(), 1);
    assert_eq!(cached_results[0].name, "file.txt");
}

/// A key never inserted is not found.
#[test]
fn test_cache_miss() {
    let cache = SearchCache::new(10);

    let result = cache.get("nonexistent");
    assert!(result.is_none());
}

/// Clearing the cache forgets its entries.
#[test]
fn test_cache_clear() {
    let mut cache = SearchCache::new(10);

    let results = vec![file_result("/test/file.txt", "file.txt", 1024, 80)];

    cache.set("test query".to_string(), results);

    assert!(cache.get("test query").is_some());

    cache.clear();

    assert!(cache.get("test query").is_none());
}

/// A cache of capacity 2 holds at most 2 entries once maintenance has run.
#[test]
fn test_cache_eviction() {
    let mut cache = SearchCache::new(2);

    let results1 = vec![file_result("/test/file1.txt", "file1.txt", 1024, 80)];
    let results2 = vec![file_result("/test/file2.txt", "file2.txt", 2048, 70)];
    let results3 = vec![file_result("/test/file3.txt", "file3.txt", 3072, 90)];

    cache.set("query1".to_string(), results1);
    cache.set("query2".to_string(), results2);

    assert!(cache.get("query1").is_some());
    assert!(cache.get("query2").is_some());

    cache.set("query3".to_string(), results3);

    let count = cache.entry_count();
    assert!(count <= 2, "Cache should have at most 2 entries, found {}", count);
}

/// Setting the same key several times keeps one entry with the last value.
#[test]
fn test_cache_idempotence() {
    let mut cache = SearchCache::new(10);

    let results = vec![file_result("/test/file.txt", "file.txt", 1024, 80)];

    cache.set("test".to_string(), results.clone());
    cache.set("test".to_string(), results.clone());
    cache.set("test".to_string(), results.clone());

    let cached = cache.get("test");
    assert!(cached.is_some());
    assert_eq!(cached.unwrap().len(), 1);
}

/// A later write replaces an earlier one for the same query.
#[test]
fn cache_read_gives_back_last_write() {
    let mut cache = SearchCache::new(10);
    cache.set("q".to_string(), vec![file_result("/a", "a", 1, 1)]);
    cache.set("q".to_string(), vec![file_result("/b", "b", 2, 2), file_result("/c", "c", 3, 3)]);
    let got = cache.get("q").expect("just written");
    assert_eq!(got.len(), 2);
    assert_eq!(got[0].name, "b");
    assert!(cache.get("other").is_none());
}

#[test]
fn cache_count_stays_within_capacity() {
    let mut cache = SearchCache::new(3);
    for i in 0..20 {
        cache.set(format!("query{}", i), vec![file_result("/f", "f", i, 1)]);
    }
    assert!(cache.entry_count() <= 3);
    cache.clear();
    assert!(cache.get("query19").is_none());
}
