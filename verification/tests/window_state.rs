use spotlight_windows::hotkey::HotkeyManager;
use spotlight_windows::icons::{file_icon, palette_icon, panel_icon};
use spotlight_windows::search::SearchResult;
use spotlight_windows::tray::{window_event_for, TrayEvent};
use spotlight_windows::ui::{shortened_path, AppState, LauncherState, PaletteState, SearchPanel, ViewportAction, WindowEvent};

fn result(path: &str, ext: Option<&str>, is_directory: bool) -> SearchResult {
    SearchResult {
        path: path.to_string(),
        name: path.to_string(),
        extension: ext.map(|e| e.to_string()),
        size: 0,
        modified: 0,
        is_directory,
        score: 0,
    }
}

fn three() -> Vec<SearchResult> {
    vec![result("/a", None, false), result("/b", None, false), result("/c", None, false)]
}

#[test]
fn hotkey_identifier() {
    assert_eq!(HotkeyManager::new().hotkey_id(), 1);
}

#[test]
fn panel_hides_and_clears() {
    let mut p = SearchPanel::new();
    assert!(p.show_window);
    p.query = "doc".to_string();
    assert_eq!(p.perform_search().as_deref(), Some("doc"));
    assert!(p.is_searching);
    p.receive_results(three());
    assert!(!p.is_searching);
    p.select_next();
    p.select_next();
    p.select_next();
    assert_eq!(p.selected_index, 2);
    p.select_previous();
    assert_eq!(p.selected_index, 1);
    assert_eq!(p.open_selected().as_deref(), Some("/b"));
    assert!(!p.show_window);
    assert!(p.query.is_empty() && p.results.is_empty() && p.selected_index == 0);
    assert!(p.open_selected().is_none());
    p.toggle_window();
    assert!(p.show_window);
    p.query = String::new();
    p.is_searching = true;
    assert!(p.perform_search().is_none());
    assert!(!p.is_searching);
}

#[test]
fn panel_open_location() {
    let mut p = SearchPanel::new();
    p.receive_results(three());
    p.query = "a".to_string();
    p.select(2);
    assert_eq!(p.selected_index, 2);
    assert_eq!(p.open_location().as_deref(), Some("/c"));
    assert!(!p.show_window);
    assert!(p.query.is_empty() && p.results.is_empty() && p.selected_index == 0);
}

#[test]
fn palette_window_events() {
    let mut p = PaletteState::new();
    assert!(!p.is_visible);
    assert!(matches!(p.handle_window_event(&WindowEvent::Toggle), ViewportAction::ShowAndFocus));
    assert!(p.is_visible);
    assert!(matches!(p.handle_window_event(&WindowEvent::Toggle), ViewportAction::Hide));
    assert!(!p.is_visible);
    assert!(matches!(p.handle_window_event(&WindowEvent::Show), ViewportAction::ShowAndFocus));
    assert!(matches!(p.handle_window_event(&WindowEvent::Hide), ViewportAction::Hide));
    assert!(matches!(p.handle_window_event(&WindowEvent::Quit), ViewportAction::Exit));
    assert!(!p.is_visible);
    assert!(matches!(window_event_for(TrayEvent::Show), WindowEvent::Show));
    assert!(matches!(window_event_for(TrayEvent::Quit), WindowEvent::Quit));
}

#[test]
fn palette_open_and_dismiss() {
    let mut p = PaletteState::new();
    p.is_visible = true;
    p.query = "c".to_string();
    p.receive_results(three());
    p.select_next();
    assert_eq!(p.open_selected().as_deref(), Some("/b"));
    assert!(!p.is_visible && p.query.is_empty() && p.results.is_empty());
    assert_eq!(p.selected_index, 1);
    p.receive_results(three());
    p.hover(2);
    assert_eq!(p.selected_index, 2);
    assert_eq!(p.results.len(), 3);
    p.query = "x".to_string();
    p.dismiss();
    assert!(p.query.is_empty() && p.results.is_empty());
}

#[test]
fn launcher_screens() {
    assert_eq!(LauncherState::new(false, 10).app_state, AppState::FirstRun);
    assert_eq!(LauncherState::new(true, 0).app_state, AppState::FirstRun);
    let mut l = LauncherState::new(true, 10);
    assert_eq!(l.app_state, AppState::Ready);
    assert!(l.is_visible);
    let mut f = LauncherState::new(false, 0);
    f.start_indexing();
    assert_eq!(f.app_state, AppState::Indexing);
    assert!(!f.update_indexing(false, 100));
    assert!(!f.update_indexing(true, 0));
    assert_eq!(f.app_state, AppState::Indexing);
    assert!(f.update_indexing(true, 100));
    assert_eq!(f.app_state, AppState::Ready);
    assert!(f.setup_completed);
    l.select_next();
    assert_eq!(l.selected_index, 0);
}

#[test]
fn launcher_search_and_open() {
    let mut l = LauncherState::new(true, 1);
    l.is_searching = true;
    assert!(l.perform_search().is_none());
    assert!(l.is_searching);
    l.query = "q".to_string();
    assert_eq!(l.perform_search().as_deref(), Some("q"));
    l.receive_results(three());
    for _ in 0..5 {
        l.select_next();
    }
    assert_eq!(l.selected_index, 2);
    l.select_previous();
    assert_eq!(l.selected_index, 1);
    assert_eq!(l.click_result(2).as_deref(), Some("/c"));
    assert_eq!(l.selected_index, 2);
    assert!(!l.is_visible && l.query.is_empty() && l.results.is_empty());
    assert!(l.open_selected().is_none());
    l.receive_results(three());
    assert_eq!(l.open_selected().as_deref(), Some("/a"));
}

#[test]
fn icons() {
    assert_eq!(panel_icon(&result("/d", Some("exe"), true)), "📁");
    assert_eq!(panel_icon(&result("/f", Some("exe"), false)), "⚙️");
    assert_eq!(panel_icon(&result("/f", Some("png"), false)), "🖼️");
    assert_eq!(panel_icon(&result("/f", Some("PNG"), false)), "📄");
    assert_eq!(panel_icon(&result("/f", None, false)), "📄");
    assert_eq!(palette_icon(&result("/f", Some("msi"), false)), "⚙️");
    assert_eq!(palette_icon(&result("/f", Some("md"), false)), "📄");
    assert_eq!(palette_icon(&result("/f", Some("java"), false)), "💻");
    assert_eq!(palette_icon(&result("/f", Some("xml"), false)), "🌐");
    assert_eq!(file_icon(&result("/f", Some("md"), false)), "📝");
    assert_eq!(file_icon(&result("/f", Some("rs"), false)), "🦀");
    assert_eq!(file_icon(&result("/f", Some("toml"), false)), "📋");
    assert_eq!(file_icon(&result("/f", Some("sass"), false)), "🎨");
    assert_eq!(file_icon(&result("/f", Some("unknown"), false)), "📄");
    assert_eq!(file_icon(&result("/f", None, true)), "📁");
}

#[test]
fn long_paths_are_shortened() {
    let short = "C:\\Users\\me\\notes.txt";
    assert_eq!(shortened_path(short), short);
    let exactly_sixty: String = "a".repeat(60);
    assert_eq!(shortened_path(&exactly_sixty), exactly_sixty);
    let long: String = format!("C:\\{}\\end.txt", "x".repeat(70));
    let shown = shortened_path(&long);
    assert_eq!(shown, format!("...{}", &long[long.len() - 57..]));
    assert_eq!(shown.chars().count(), 60);
    // Characters are counted, not bytes: 60 characters, 61 bytes, kept whole.
    let accented: String = format!("é{}", "a".repeat(59));
    assert_eq!(shortened_path(&accented), accented);
    // A cut inside a multi-byte character is no problem.
    let p = "/home/zoé/Téléchargements/projets/2025/rapports/trimestriels/version-finale";
    let chars: Vec<char> = p.chars().collect();
    let tail: String = chars[chars.len() - 57..].iter().collect();
    assert_eq!(shortened_path(p), format!("...{}", tail));
}
