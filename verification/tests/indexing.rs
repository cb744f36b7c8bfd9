use spotlight_windows::config::{IndexerConfig, SearchConfig};
use spotlight_windows::indexer::{
    content_source, is_within_size_limit, plan_watch_event, should_exclude, startup_plan, trim_content, ContentSource,
    FileEntry, FileMetadata, IndexDocument, StartupPlan, WatchEventKind, WatchStep,
};
use spotlight_windows::text::{contains_str, decimal_string};

fn strings(v: &[&str]) -> Vec<String> {
    v.iter().map(|s| s.to_string()).collect()
}

fn meta(name: Option<&str>, ext: Option<&str>, size: u64, dir: bool, secs: Option<u64>) -> FileMetadata {
    FileMetadata {
        file_name: name.map(|s| s.to_string()),
        extension: ext.map(|s| s.to_string()),
        size,
        is_directory: dir,
        modified_secs: secs,
    }
}

#[test]
fn substring_search() {
    assert!(contains_str("C:\\Users\\me\\node_modules\\x", "node_modules"));
    assert!(contains_str("abc", ""));
    assert!(contains_str("abc", "abc"));
    assert!(!contains_str("abc", "abcd"));
    assert!(!contains_str("ab", "ba"));
    assert!(contains_str("héllo wörld", "ö"));
}

#[test]
fn exclusion_patterns() {
    let patterns = IndexerConfig::default().exclude_paths;
    assert!(should_exclude("C:\\dev\\app\\node_modules\\left-pad", &patterns));
    assert!(should_exclude("C:\\dev\\app\\.git\\HEAD", &patterns));
    assert!(should_exclude("C:\\Users\\me\\AppData\\Local\\Temp\\x.tmp", &patterns));
    assert!(should_exclude("D:\\$RECYCLE.BIN\\S-1", &patterns));
    assert!(!should_exclude("C:\\Users\\me\\Documents\\report.pdf", &patterns));
    assert!(!should_exclude("anything", &Vec::new()));
}

#[test]
fn entries_from_metadata() {
    let e = FileEntry::from_metadata("C:\\a\\b.TXT", &meta(Some("b.TXT"), Some("TXT"), 12, false, Some(34))).unwrap();
    assert_eq!((e.path.as_str(), e.name.as_str(), e.extension.as_deref()), ("C:\\a\\b.TXT", "b.TXT", Some("TXT")));
    assert_eq!((e.size, e.modified, e.is_directory), (12, 34, false));
    assert!(e.content.is_none());
    let d = FileEntry::from_metadata("C:\\a\\dir.d", &meta(Some("dir.d"), Some("d"), 0, true, Some(1))).unwrap();
    assert!(d.extension.is_none());
    assert!(FileEntry::from_metadata("C:\\", &meta(None, None, 0, true, Some(1))).is_none());
    assert!(FileEntry::from_metadata("C:\\a", &meta(Some("a"), None, 0, false, None)).is_none());
    let wrapped = FileEntry::from_metadata("x", &meta(Some("x"), None, 0, false, Some(u64::MAX))).unwrap();
    assert_eq!(wrapped.modified, -1);
}

#[test]
fn content_sources() {
    let entry = |ext: Option<&str>, size: u64, dir: bool| {
        FileEntry::from_metadata("p", &meta(Some("p"), ext, size, dir, Some(0))).unwrap()
    };
    assert!(matches!(content_source(&entry(Some("txt"), 10, false)), ContentSource::Text));
    assert!(matches!(content_source(&entry(Some("RS"), 10, false)), ContentSource::Text));
    // PDF documents are found by name only.
    assert!(matches!(content_source(&entry(Some("pdf"), 1000, false)), ContentSource::Skip));
    assert!(matches!(content_source(&entry(Some("Pdf"), 10, false)), ContentSource::Skip));
    assert!(matches!(content_source(&entry(Some("exe"), 10, false)), ContentSource::Skip));
    assert!(matches!(content_source(&entry(None, 10, false)), ContentSource::Skip));
    // Only files under 1 MB are read.
    assert!(matches!(content_source(&entry(Some("txt"), 1048575, false)), ContentSource::Text));
    assert!(matches!(content_source(&entry(Some("txt"), 1048576, false)), ContentSource::Skip));
    assert!(matches!(content_source(&entry(Some("txt"), 2 * 1048576, false)), ContentSource::Skip));
    assert!(matches!(content_source(&entry(Some("txt"), 10, true)), ContentSource::Skip));
}

#[test]
fn content_is_trimmed_to_ten_thousand_characters() {
    assert_eq!(trim_content("short".to_string()), "short");
    let long: String = "a".repeat(20000);
    assert_eq!(trim_content(long).chars().count(), 10000);
    let exact: String = "b".repeat(10000);
    assert_eq!(trim_content(exact.clone()), exact);
    // Characters are counted, not bytes.
    let wide: String = "é".repeat(8000);
    assert_eq!(trim_content(wide.clone()), wide);
    let wider: String = "é".repeat(12000);
    assert_eq!(trim_content(wider), "é".repeat(10000));
    let e = FileEntry::from_metadata("p", &meta(Some("p"), Some("txt"), 1, false, Some(0))).unwrap();
    let e = e.with_content(Some("x".repeat(10001)));
    assert_eq!(e.content.unwrap().len(), 10000);
}

#[test]
fn size_limit() {
    let config = IndexerConfig::default();
    let file = |size: u64, dir: bool| FileEntry::from_metadata("p", &meta(Some("p"), None, size, dir, Some(0))).unwrap();
    assert!(is_within_size_limit(&file(100 * 1048576, false), &config));
    assert!(!is_within_size_limit(&file(100 * 1048576 + 1, false), &config));
    assert!(is_within_size_limit(&file(u64::MAX, true), &config));
}

#[test]
fn index_documents() {
    let e = FileEntry::from_metadata("/a/b", &meta(Some("b"), None, 5, false, Some(6))).unwrap();
    let d = IndexDocument::from_entry(e);
    assert_eq!(d.content, "");
    assert!(d.extension.is_none());
    let e = FileEntry::from_metadata("/a/b.md", &meta(Some("b.md"), Some("md"), 5, false, Some(6))).unwrap();
    let d = IndexDocument::from_entry(e.with_content(Some("# hi".to_string())));
    assert_eq!(d.content, "# hi");
    assert_eq!(d.extension.as_deref(), Some("md"));
    assert_eq!((d.path.as_str(), d.name.as_str(), d.size, d.modified, d.is_directory), ("/a/b.md", "b.md", 5, 6, false));
}

fn describe(steps: &[WatchStep]) -> Vec<String> {
    steps
        .iter()
        .map(|s| match s {
            WatchStep::Index(p) => format!("index {}", p),
            WatchStep::Remove(p) => format!("remove {}", p),
            WatchStep::Commit => "commit".to_string(),
        })
        .collect()
}

#[test]
fn watch_plans() {
    let exclude = strings(&[".git", "node_modules"]);
    let paths = strings(&["/r/a.txt", "/r/.git/index", "/r/b.txt"]);
    assert_eq!(
        describe(&plan_watch_event(WatchEventKind::Create, &paths, &exclude)),
        vec!["index /r/a.txt", "index /r/b.txt", "commit"]
    );
    assert_eq!(
        describe(&plan_watch_event(WatchEventKind::Modify, &paths, &exclude)),
        vec!["index /r/a.txt", "index /r/b.txt", "commit"]
    );
    assert_eq!(
        describe(&plan_watch_event(WatchEventKind::Remove, &paths, &exclude)),
        vec!["remove /r/a.txt", "remove /r/.git/index", "remove /r/b.txt", "commit"]
    );
    assert!(plan_watch_event(WatchEventKind::Other, &paths, &exclude).is_empty());
    assert_eq!(describe(&plan_watch_event(WatchEventKind::Create, &Vec::new(), &exclude)), vec!["commit"]);
}

#[test]
fn startup() {
    assert!(matches!(startup_plan(0), StartupPlan::ScanThenWatch));
    assert!(matches!(startup_plan(1), StartupPlan::WatchOnly));
}

#[test]
fn defaults() {
    let i = IndexerConfig::default();
    assert!(i.include_paths.len() >= 2);
    assert_eq!(i.include_paths[1], "C:\\Program Files");
    assert!(i.include_paths.iter().all(|p| !p.starts_with("C:\\Windows")));
    assert_eq!(i.exclude_paths, strings(&["C:\\Windows", "node_modules", ".git", "target", "$RECYCLE.BIN", "AppData\\Local\\Temp"]));
    assert!(i.file_extensions.is_empty());
    assert!(i.num_threads >= 1);
    assert_eq!(i.max_file_size_mb, 100);
    let m = IndexerConfig::for_machine(Some("C:\\Users\\zoe".to_string()), true, false, true, 4);
    assert_eq!(m.include_paths, strings(&["C:\\Users\\zoe", "C:\\Program Files", "D:\\", "F:\\"]));
    assert_eq!(m.num_threads, 4);
    let u = IndexerConfig::for_machine(None, false, true, false, 1);
    assert_eq!(u.include_paths, strings(&["C:\\Users", "C:\\Program Files", "E:\\"]));
    let s = SearchConfig::default();
    assert_eq!((s.cache_size, s.min_fuzzy_score, s.search_file_content), (1000, 50, false));
}

#[test]
fn decimal_text() {
    assert_eq!(decimal_string(0), "0");
    assert_eq!(decimal_string(7), "7");
    assert_eq!(decimal_string(10), "10");
    assert_eq!(decimal_string(u64::MAX), u64::MAX.to_string());
}
