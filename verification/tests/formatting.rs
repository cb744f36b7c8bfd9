use spotlight_windows::numeric::{f32_round, round_u64, F64_EXACT_LIMIT};
use spotlight_windows::search::{SearchResult, StoredDocument};
use spotlight_windows::tray::{search_icon_rgba, tray_tooltip};

fn sized(size: u64, is_directory: bool) -> SearchResult {
    SearchResult {
        path: "/x".to_string(),
        name: "x".to_string(),
        extension: None,
        size,
        modified: 0,
        is_directory,
        score: 0,
    }
}

/// The size text as the float computation writes it.
fn float_size_text(size: u64) -> String {
    let size = size as f64;
    if size < 1024.0 {
        format!("{} B", size)
    } else if size < 1024.0 * 1024.0 {
        format!("{:.2} KB", size / 1024.0)
    } else if size < 1024.0 * 1024.0 * 1024.0 {
        format!("{:.2} MB", size / (1024.0 * 1024.0))
    } else {
        format!("{:.2} GB", size / (1024.0 * 1024.0 * 1024.0))
    }
}

#[test]
fn formatted_size_examples() {
    assert_eq!(sized(0, false).formatted_size(), "0 B");
    assert_eq!(sized(512, false).formatted_size(), "512 B");
    assert_eq!(sized(1023, false).formatted_size(), "1023 B");
    assert_eq!(sized(1024, false).formatted_size(), "1.00 KB");
    assert_eq!(sized(1536, false).formatted_size(), "1.50 KB");
    assert_eq!(sized(1048576, false).formatted_size(), "1.00 MB");
    assert_eq!(sized(5 * 1073741824, false).formatted_size(), "5.00 GB");
    assert_eq!(sized(123, true).formatted_size(), "Dossier");
}

#[test]
fn formatted_size_agrees_with_float_formatting() {
    let mut sizes: Vec<u64> = (0..5000u64).collect();
    // Exact ties at the second decimal: 1.125 KB, 2.375 MB, ...
    sizes.extend([1152u64, 1216, 1280, 2490368, 1207959552, 3 * 1073741824 + 134217728]);
    let mut x: u64 = 0x2545F4914F6CDD1D;
    for _ in 0..20000 {
        x ^= x << 13;
        x ^= x >> 7;
        x ^= x << 17;
        sizes.push(x >> (x % 60));
        sizes.push(x);
    }
    sizes.extend([
        F64_EXACT_LIMIT - 1,
        F64_EXACT_LIMIT,
        F64_EXACT_LIMIT + 1,
        F64_EXACT_LIMIT + 3,
        u64::MAX,
        u64::MAX - 1024,
        (1u64 << 63) + (1u64 << 10),
    ]);
    for s in sizes {
        assert_eq!(sized(s, false).formatted_size(), float_size_text(s), "size {}", s);
    }
}

#[test]
fn rounding_agrees_with_float_conversion() {
    let mut x: u64 = 88172645463325252;
    let mut values: Vec<u64> = vec![0, 1, 2, 16777215, 16777216, 16777217, 16777219, u64::MAX, 1u64 << 63];
    for _ in 0..20000 {
        x ^= x << 13;
        x ^= x >> 7;
        x ^= x << 17;
        values.push(x);
        values.push(x >> (x % 64));
    }
    for v in values {
        assert_eq!(round_u64(v, F64_EXACT_LIMIT), (v as f64) as u128, "f64 of {}", v);
        let s = v as i64;
        assert_eq!(f32_round(s), (s as f32) as i128, "f32 of {}", s);
    }
    assert_eq!(f32_round(i64::MIN), (i64::MIN as f32) as i128);
    assert_eq!(f32_round(i64::MAX), (i64::MAX as f32) as i128);
    assert_eq!(f32_round(80), 80);
}

#[test]
fn formatted_modified_examples() {
    assert_eq!(sized(0, false).formatted_modified(), "1970-01-01 00:00:00");
    let mut r = sized(0, false);
    r.modified = 1431648000;
    assert_eq!(r.formatted_modified(), "2015-05-15 00:00:00");
    r.modified = 1725029869;
    assert_eq!(r.formatted_modified(), "2024-08-30 14:57:49");
    r.modified = -1;
    assert_eq!(r.formatted_modified(), "1969-12-31 23:59:59");
    r.modified = i64::MAX;
    assert_eq!(r.formatted_modified(), "1970-01-01 00:00:00");
    r.modified = i64::MIN;
    assert_eq!(r.formatted_modified(), "1970-01-01 00:00:00");
}

#[test]
fn stored_document_defaults() {
    let r = SearchResult::from_stored(StoredDocument {
        path: None,
        name: None,
        extension: None,
        size: None,
        modified: None,
        is_directory: None,
    });
    assert_eq!(r.path, "");
    assert_eq!(r.name, "");
    assert!(r.extension.is_none());
    assert_eq!((r.size, r.modified, r.is_directory, r.score), (0, 0, false, 0));
    let r = SearchResult::from_stored(StoredDocument {
        path: Some("/a/b.rs".to_string()),
        name: Some("b.rs".to_string()),
        extension: Some("rs".to_string()),
        size: Some(12),
        modified: Some(34),
        is_directory: Some(true),
    });
    assert_eq!(r.path, "/a/b.rs");
    assert_eq!(r.name, "b.rs");
    assert_eq!(r.extension.as_deref(), Some("rs"));
    assert_eq!((r.size, r.modified, r.is_directory, r.score), (12, 34, true, 0));
}

#[test]
fn icon_matches_float_drawing() {
    let rgba = search_icon_rgba();
    assert_eq!(rgba.len(), 32 * 32 * 4);
    for y in 0..32u32 {
        for x in 0..32u32 {
            let dx = x as i32 - 16;
            let dy = y as i32 - 16;
            let dist = ((dx * dx + dy * dy) as f32).sqrt();
            let on = (dist >= 8.0 && dist <= 10.0) || (x >= 20 && x <= 22 && y >= 20 && y <= 28);
            let idx = ((y * 32 + x) * 4) as usize;
            let expected = if on { 255 } else { 0 };
            assert_eq!(&rgba[idx..idx + 4], &[expected; 4], "pixel {} {}", x, y);
        }
    }
}

#[test]
fn tooltip_texts() {
    assert_eq!(tray_tooltip(0), "Spotlight Windows - Indexation en cours...");
    assert_eq!(tray_tooltip(1), "Spotlight Windows - 1 fichiers indexés");
    assert_eq!(tray_tooltip(152000), "Spotlight Windows - 152000 fichiers indexés");
    assert_eq!(tray_tooltip(u64::MAX), format!("Spotlight Windows - {} fichiers indexés", u64::MAX));
}
