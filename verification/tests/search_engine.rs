use fuzzy_matcher::skim::SkimMatcherV2;
use fuzzy_matcher::FuzzyMatcher;
use spotlight_windows::config::SearchConfig;
use spotlight_windows::search::engine::{score_results, search_step, sort_results_by_score, SearchEngine, SearchStep};
use spotlight_windows::search::SearchResult;

fn candidate(path: &str, name: &str, modified: i64, is_directory: bool) -> SearchResult {
    SearchResult {
        path: path.to_string(),
        name: name.to_string(),
        extension: None,
        size: 10,
        modified,
        is_directory,
        score: 0,
    }
}

fn scored(name: &str, score: i64) -> SearchResult {
    let mut r = candidate(name, name, 0, false);
    r.score = score;
    r
}

/// The score the ranking rules give, computed with the matcher directly.
fn expected_score(query: &str, r: &SearchResult, now: i64) -> i64 {
    let m = SkimMatcherV2::default();
    let q = query.to_lowercase();
    let by_name = m.fuzzy_match(&r.name.to_lowercase(), &q).unwrap_or(0);
    let by_path = m.fuzzy_match(&r.path.to_lowercase(), &q).unwrap_or(0);
    let age_days = (now - r.modified) / 86400;
    let recency = if age_days < 7 { 20 } else if age_days < 30 { 10 } else { 0 };
    let dir = if r.is_directory { 10 } else { 0 };
    ((by_name.max(by_path) + dir + recency) as f32) as i64
}

#[test]
fn empty_query_has_no_results() {
    let engine = SearchEngine::new(&SearchConfig::default());
    match engine.search("", 50) {
        SearchStep::Done(v) => assert!(v.is_empty()),
        SearchStep::Lookup { .. } => panic!("an empty query needs no lookup"),
    }
}

#[test]
fn cache_miss_asks_the_index_for_twice_the_results() {
    let engine = SearchEngine::new(&SearchConfig::default());
    match engine.search("doc", 50) {
        SearchStep::Lookup { pattern, limit } => {
            assert_eq!(pattern, "*doc*");
            assert_eq!(limit, 100);
        }
        SearchStep::Done(_) => panic!("nothing is cached yet"),
    }
}

#[test]
fn completed_search_is_answered_from_the_cache() {
    let mut engine = SearchEngine::new(&SearchConfig::default());
    let now = chrono::Utc::now().timestamp();
    let candidates = vec![
        candidate("/home/u/documents", "documents", now, true),
        candidate("/home/u/docs/report.txt", "report.txt", now - 40 * 86400, false),
        candidate("/home/u/zzz.bin", "zzz.bin", now, false),
    ];
    let results = engine.complete_search("doc", &candidates, 50);
    assert!(!results.is_empty());
    for w in results.windows(2) {
        assert!(w[0].score >= w[1].score);
    }
    for r in &results {
        assert!(r.score >= 50);
    }
    assert!(results.iter().all(|r| r.name != "zzz.bin"));
    match engine.search("doc", 50) {
        SearchStep::Done(cached) => {
            assert_eq!(cached.len(), results.len());
            for (a, b) in cached.iter().zip(results.iter()) {
                assert_eq!(a.path, b.path);
                assert_eq!(a.score, b.score);
            }
        }
        SearchStep::Lookup { .. } => panic!("the results were just cached"),
    }
}

#[test]
fn scoring_follows_the_rules() {
    let now: i64 = 1_700_000_000;
    let candidates = vec![
        candidate("C:\\Users\\u\\Documents", "Documents", now - 86400, true),
        candidate("C:\\Users\\u\\doc.txt", "doc.txt", now - 10 * 86400, false),
        candidate("C:\\Users\\u\\old\\docu.md", "docu.md", now - 100 * 86400, false),
        candidate("C:\\Users\\u\\future.doc", "future.doc", now + 86400, false),
        candidate("C:\\x\\abc", "abc", now, false),
    ];
    let all = score_results("DOC", &candidates, now, i64::MIN);
    assert_eq!(all.len(), candidates.len());
    for (r, c) in all.iter().zip(candidates.iter()) {
        assert_eq!(r.path, c.path);
        assert_eq!(r.score, expected_score("DOC", c, now), "{}", c.path);
    }
    let kept = score_results("DOC", &candidates, now, 50);
    let expected: Vec<&SearchResult> = all.iter().filter(|r| r.score >= 50).collect();
    assert_eq!(kept.len(), expected.len());
    for (a, b) in kept.iter().zip(expected.iter()) {
        assert_eq!(a.path, b.path);
    }
}

#[test]
fn recency_and_directory_bonuses() {
    let now: i64 = 1_000_000_000;
    // No match at all: only the bonuses count.
    let c = vec![
        candidate("/q", "q", now - 6 * 86400, false),
        candidate("/q", "q", now - 7 * 86400, false),
        candidate("/q", "q", now - 29 * 86400 - 86399, false),
        candidate("/q", "q", now - 30 * 86400, false),
        candidate("/q", "q", now - 30 * 86400, true),
    ];
    let scores: Vec<i64> = score_results("zz", &c, now, i64::MIN).iter().map(|r| r.score).collect();
    assert_eq!(scores, vec![20, 10, 10, 0, 10]);
}

#[test]
fn queries_are_trimmed_and_lowercased() {
    let mut engine = SearchEngine::new(&SearchConfig::default());
    match engine.search("  DoC \t", 50) {
        SearchStep::Lookup { pattern, .. } => assert_eq!(pattern, "*doc*"),
        SearchStep::Done(_) => panic!("nothing is cached yet"),
    }
    match engine.search(" \n ", 50) {
        SearchStep::Done(v) => assert!(v.is_empty()),
        SearchStep::Lookup { .. } => panic!("a blank query needs no lookup"),
    }
    let now = chrono::Utc::now().timestamp();
    let candidates = vec![candidate("/home/u/documents", "documents", now, true)];
    let results = engine.complete_search(" Doc", &candidates, 50);
    match engine.search("doc", 50) {
        SearchStep::Done(v) => assert_eq!(v.len(), results.len()),
        SearchStep::Lookup { .. } => panic!("the normalized query was cached"),
    }
}

#[test]
fn cache_hits_are_cut_to_the_requested_count() {
    let mut engine = SearchEngine::new(&SearchConfig { cache_size: 10, min_fuzzy_score: 0, search_file_content: false });
    let now = chrono::Utc::now().timestamp();
    let candidates: Vec<SearchResult> = (0..10).map(|i| candidate(&format!("/d/file{}", i), &format!("file{}", i), now, false)).collect();
    let results = engine.complete_search("file", &candidates, 8);
    assert_eq!(results.len(), 8);
    match engine.search("file", 3) {
        SearchStep::Done(v) => {
            assert_eq!(v.len(), 3);
            for (a, b) in v.iter().zip(results.iter()) {
                assert_eq!(a.path, b.path);
            }
        }
        SearchStep::Lookup { .. } => panic!("the results were just cached"),
    }
}

#[test]
fn an_index_change_empties_the_cache() {
    let mut engine = SearchEngine::new(&SearchConfig::default());
    let now = chrono::Utc::now().timestamp();
    let candidates = vec![candidate("/home/u/documents", "documents", now, true)];
    engine.complete_search("doc", &candidates, 50);
    engine.index_changed();
    assert!(matches!(engine.search("doc", 50), SearchStep::Lookup { .. }));
}

#[test]
fn search_steps() {
    let cached = vec![scored("a", 9), scored("b", 5), scored("c", 1)];
    match search_step("q", Some(cached.clone()), 2) {
        SearchStep::Done(v) => assert_eq!(v.iter().map(|r| r.name.as_str()).collect::<Vec<_>>(), vec!["a", "b"]),
        SearchStep::Lookup { .. } => panic!("a cached list answers"),
    }
    match search_step("q", None, usize::MAX) {
        SearchStep::Lookup { pattern, limit } => {
            assert_eq!(pattern, "*q*");
            assert_eq!(limit, usize::MAX);
        }
        SearchStep::Done(_) => panic!("nothing cached"),
    }
    assert!(matches!(search_step("", None, 5), SearchStep::Done(v) if v.is_empty()));
    // Any number of results may be asked for.
    let engine = SearchEngine::new(&SearchConfig::default());
    assert!(matches!(engine.search("", usize::MAX), SearchStep::Done(v) if v.is_empty()));
}

#[test]
fn ordering_is_stable_and_decreasing() {
    let v = vec![scored("a", 5), scored("b", 9), scored("c", 5), scored("d", 9), scored("e", 1)];
    let s = sort_results_by_score(&v);
    let names: Vec<&str> = s.iter().map(|r| r.name.as_str()).collect();
    assert_eq!(names, vec!["b", "d", "a", "c", "e"]);
}

#[test]
fn results_are_truncated() {
    let mut engine = SearchEngine::new(&SearchConfig { cache_size: 10, min_fuzzy_score: 0, search_file_content: false });
    let now = chrono::Utc::now().timestamp();
    let candidates: Vec<SearchResult> = (0..10).map(|i| candidate(&format!("/d/file{}", i), &format!("file{}", i), now, false)).collect();
    let results = engine.complete_search("file", &candidates, 3);
    assert_eq!(results.len(), 3);
}
