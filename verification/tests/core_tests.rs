use rusty_browser::clock::{fresh_id, now_nanos};
use rusty_browser::history::{html_escape, HistoryConfig, HistoryEntry, HistoryError, HistoryManager};
use rusty_browser::nav_controller::NavigationController;
use rusty_browser::session::{Session, TabState, WindowState};
use rusty_browser::session_manager::{CrashRecoveryInfo, SessionConfig, SessionError, SessionManager};

fn manager() -> HistoryManager {
    let mut config = HistoryConfig::with_db_path("test_history.redb".to_string());
    config.max_entries = 1000;
    HistoryManager::new(config)
}

#[test]
fn history_add_and_get_entry() {
    let mut m = manager();
    let added = m.add_visit(HistoryEntry::new("https://example.com", "Example")).unwrap();
    assert_eq!(added.url, "https://example.com");
    assert_eq!(added.title, "Example");
    assert_eq!(added.visit_count, 1);
    let got = m.get_entry_by_url("https://example.com");
    assert_eq!(got.unwrap().title, "Example");
}

#[test]
fn history_visit_count_increment() {
    let mut m = manager();
    m.add_visit(HistoryEntry::new("https://example.com", "Example")).unwrap();
    m.add_visit(HistoryEntry::new("https://example.com", "Example")).unwrap();
    assert_eq!(m.get_entry_by_url("https://example.com").unwrap().visit_count, 2);
    assert_eq!(m.entry_count(), 1);
}

#[test]
fn history_get_recent() {
    let mut m = manager();
    for i in 0..10u128 {
        let url = format!("https://example{}.com", i);
        let title = format!("Example {}", i);
        m.add_visit_at(HistoryEntry::new_at(i, &url, &title, 1000 + i as i128), 1000 + i as i128).unwrap();
    }
    let recent = m.get_recent(5);
    assert_eq!(recent.len(), 5);
    assert_eq!(recent[0].url, "https://example9.com");
    assert_eq!(recent[4].url, "https://example5.com");
}

#[test]
fn history_search_is_case_insensitive() {
    let mut m = manager();
    m.add_visit(HistoryEntry::new("https://rust-lang.org", "Rust")).unwrap();
    m.add_visit(HistoryEntry::new("https://python.org", "Python")).unwrap();
    m.add_visit(HistoryEntry::new("https://rustup.rs", "Rustup")).unwrap();
    assert_eq!(m.search("rust").len(), 2);
    // the query is lower-cased before matching
    assert_eq!(m.search("RUST").len(), 2);
    assert_eq!(m.search("PYTHON").len(), 1);
}

#[test]
fn history_delete_by_url() {
    let mut m = manager();
    m.add_visit(HistoryEntry::new("https://example.com", "Example")).unwrap();
    assert!(m.delete_by_url("https://example.com"));
    assert!(!m.delete_by_url("https://example.com"));
    assert!(m.get_entry_by_url("https://example.com").is_none());
}

#[test]
fn history_clear_all() {
    let mut m = manager();
    for i in 0..5 {
        m.add_visit(HistoryEntry::new(&format!("https://example{}.com", i), "Example")).unwrap();
    }
    assert_eq!(m.entry_count(), 5);
    m.clear_all();
    assert_eq!(m.entry_count(), 0);
    assert!(m.get_all_entries().is_empty());
}

#[test]
fn history_privacy_mode() {
    let mut m = manager();
    m.set_privacy_mode(true);
    assert!(m.is_privacy_mode());
    let r = m.add_visit(HistoryEntry::new("https://example.com", "Example"));
    assert!(matches!(r, Err(HistoryError::PrivacyModeActive)));
    assert_eq!(m.entry_count(), 0);
    m.set_privacy_mode(false);
    assert!(!m.is_privacy_mode());
    assert!(m.add_visit(HistoryEntry::new("https://example.com", "Example")).is_ok());
}

#[test]
fn history_export_to_html() {
    let mut m = manager();
    m.add_visit(HistoryEntry::new("https://example.com", "Example")).unwrap();
    let html = m.export_to_html();
    assert!(html.contains("<!DOCTYPE NETSCAPE-Bookmark-file-1>"));
    assert!(html.contains("https://example.com"));
    assert!(html.contains("Example"));
}

#[test]
fn history_html_escape() {
    assert_eq!(html_escape("a<b>&\"c'"), "a&lt;b&gt;&amp;&quot;c'");
    assert_eq!(html_escape("plain"), "plain");
}

#[test]
fn history_favicon_storage() {
    let mut m = manager();
    let data = vec![0x89, 0x50, 0x4E, 0x47];
    m.store_favicon("https://example.com", data.clone());
    assert_eq!(m.get_favicon("https://example.com"), Some(data));
    assert_eq!(m.get_favicon("https://other.com"), None);
}

#[test]
fn history_invalid_time_range() {
    let m = manager();
    assert!(matches!(m.get_by_time_range(10, 5), Err(HistoryError::InvalidTimeRange)));
    assert!(m.get_by_time_range(5, 10).unwrap().is_empty());
}

#[test]
fn history_pruning_keeps_limit() {
    let mut config = HistoryConfig::with_db_path("small.redb".to_string());
    config.max_entries = 3;
    let mut m = HistoryManager::new(config);
    for i in 0..5u128 {
        let url = format!("https://site{}.com", i);
        m.add_visit_at(HistoryEntry::new_at(i, &url, "S", 100 + i as i128), 100 + i as i128).unwrap();
    }
    assert_eq!(m.entry_count(), 3);
    assert!(m.get_entry_by_url("https://site0.com").is_none());
    assert!(m.get_entry_by_url("https://site4.com").is_some());
}

#[test]
fn clock_values_are_fresh() {
    let id = fresh_id();
    // a version 4 UUID
    assert_eq!((id >> 76) & 0xf, 4);
    // after 2020-01-01 in nanoseconds
    assert!(now_nanos() > 1_577_836_800_000_000_000);
}

// ----- sessions -----

fn sessions() -> SessionManager {
    let mut config = SessionConfig::with_db_path("test_sessions.redb".to_string());
    config.enable_crash_recovery = false;
    SessionManager::new(config)
}

#[test]
fn session_new_is_fresh() {
    let m = sessions();
    let s = m.current_session();
    assert_eq!(s.windows.len(), 1);
    assert_eq!(s.windows[0].tabs.len(), 1);
    assert_eq!(s.windows[0].tabs[0].url, "about:blank");
    assert_eq!(s.windows[0].tabs[0].title, "New Tab");
}

#[test]
fn session_add_window_and_tab() {
    let mut m = sessions();
    assert_eq!(m.add_window(WindowState::new()), 1);
    let idx = m.add_tab(0, TabState::new("https://example.com", "Example")).unwrap();
    assert_eq!(idx, 1);
    let s = m.current_session();
    assert_eq!(s.windows.len(), 2);
    assert_eq!(s.windows[0].tabs.len(), 2);
    assert!(matches!(m.add_tab(7, TabState::new("x", "y")), Err(SessionError::WindowNotFound(0))));
}

#[test]
fn session_save_and_load() {
    let mut m = sessions();
    m.add_tab(0, TabState::new("https://example.com", "Example")).unwrap();
    m.save_current_session();
    let id = m.current_session_id();
    let loaded = m.load_session(id).unwrap();
    assert_eq!(loaded.windows[0].tabs.len(), 2);
    assert!(matches!(m.load_session(id ^ 1), Err(SessionError::SessionNotFound(_))));
}

#[test]
fn session_new_session_saves_old_one() {
    let mut m = sessions();
    m.add_tab(0, TabState::new("https://example.com", "Example")).unwrap();
    let old_id = m.current_session_id();
    let s = m.new_session(Some("Test Session".to_string()));
    assert_eq!(s.windows.len(), 1);
    assert_eq!(s.windows[0].tabs.len(), 1);
    assert_eq!(s.metadata.name, Some("Test Session".to_string()));
    assert_eq!(m.current_session_id(), s.id);
    assert_eq!(m.load_session(old_id).unwrap().windows[0].tabs.len(), 2);
    assert_eq!(m.get_all_sessions().len(), 2);
}

#[test]
fn session_delete() {
    let mut m = sessions();
    let first = m.current_session_id();
    m.save_current_session();
    m.new_session(None);
    assert!(m.delete_session(first).unwrap());
    assert!(!m.delete_session(first).unwrap());
    // the stored copy of the session in use can be deleted too
    let current = m.current_session_id();
    assert!(m.delete_session(current).unwrap());
    assert_eq!(m.current_session_id(), current);
}

#[test]
fn session_navigation_and_history() {
    let mut m = sessions();
    m.navigate("https://example.com", "Example").unwrap();
    m.navigate("https://example.org", "Example Org").unwrap();
    let s = m.current_session();
    let tab = s.get_active_window().unwrap().get_active_tab().unwrap();
    assert_eq!(tab.url, "https://example.org");
    assert_eq!(tab.history_stack.len(), 2);
    assert_eq!(tab.history_position, 1);

    assert!(m.can_go_back());
    assert!(!m.can_go_forward());
    let e = m.go_back().unwrap().unwrap();
    assert_eq!(e.url, "https://example.com");
    assert!(m.can_go_forward());
    let e = m.go_forward().unwrap().unwrap();
    assert_eq!(e.url, "https://example.org");
}

#[test]
fn session_errors_without_active_tab() {
    let mut m = sessions();
    m.remove_window(0);
    match m.navigate("https://a.com", "A") {
        Err(SessionError::InvalidState(msg)) => assert_eq!(msg, "No active window"),
        _ => panic!("expected an error"),
    }
    match m.set_active_window(3) {
        Err(SessionError::InvalidState(msg)) => assert_eq!(msg, "Invalid window index: 3"),
        _ => panic!("expected an error"),
    }
}

#[test]
fn session_update_tab_errors() {
    let mut m = sessions();
    let tab = TabState::new("https://a.com", "A");
    let tab_id = tab.id;
    assert!(matches!(m.update_tab(0, 5, tab), Err(SessionError::TabNotFound(id)) if id == tab_id));
    let w = WindowState::new();
    let wid = w.id;
    assert!(matches!(m.update_window(4, w), Err(SessionError::WindowNotFound(id)) if id == wid));
}

#[test]
fn test_session_stats() {
    let mut m = sessions();
    m.add_tab(0, TabState::new("https://example.com", "Example")).unwrap();
    m.add_window(WindowState::new());
    let stats = m.get_stats();
    assert_eq!(stats.current_session_windows, 2);
    assert_eq!(stats.current_session_tabs, 2);
    assert_eq!(stats.total_saved_sessions, 0);
}

#[test]
fn session_auto_save_twice_is_refused() {
    let mut m = sessions();
    assert!(m.start_auto_save().is_ok());
    assert!(matches!(m.start_auto_save(), Err(SessionError::AutoSaveAlreadyRunning)));
    m.stop_auto_save();
    assert!(m.start_auto_save().is_ok());
}

#[test]
fn session_prune_keeps_newest() {
    let mut config = SessionConfig::with_db_path("p.redb".to_string());
    config.max_session_history = 2;
    let mut m = SessionManager::new(config);
    for i in 0..4u128 {
        let s = Session::new_at(100 + i, 200 + i, 300 + i, 1000 + i as i128);
        m.save_session(&s);
    }
    // four saved sessions, limit two: the two least recently accessed go
    assert_eq!(m.prune_old_sessions(), 2);
    let left: Vec<u128> = m.get_all_sessions().iter().map(|s| s.id).collect();
    assert_eq!(left, vec![103, 102]);
}

#[test]
fn session_crash_recovery() {
    let config = SessionConfig::with_db_path("c.redb".to_string());
    let saved = vec![Session::new_at(7, 8, 9, 10)];
    let crash = Some(CrashRecoveryInfo { session_id: 7, timestamp: 11, was_clean_shutdown: false, crash_count: 0 });
    let m = SessionManager::from_parts(config, saved, crash).unwrap();
    assert_eq!(m.current_session_id(), 7);

    let config = SessionConfig::with_db_path("c.redb".to_string());
    let saved = vec![Session::new_at(7, 8, 9, 10)];
    let clean = Some(CrashRecoveryInfo { session_id: 7, timestamp: 11, was_clean_shutdown: true, crash_count: 0 });
    let m = SessionManager::from_parts(config, saved, clean).unwrap();
    assert_ne!(m.current_session_id(), 7);

    let config = SessionConfig::with_db_path("c.redb".to_string());
    let unordered = vec![Session::new_at(9, 1, 1, 1), Session::new_at(3, 1, 1, 1)];
    assert!(matches!(SessionManager::from_parts(config, unordered, None), Err(SessionError::InvalidState(_))));
}

#[test]
fn tab_state_history() {
    let mut tab = TabState::new("https://example.com", "Example");
    tab.navigate(HistoryEntry::new("https://page1.com", "Page 1"));
    tab.navigate(HistoryEntry::new("https://page2.com", "Page 2"));
    tab.navigate(HistoryEntry::new("https://page3.com", "Page 3"));
    assert_eq!(tab.history_stack.len(), 3);
    assert_eq!(tab.history_position, 2);
    tab.go_back();
    tab.go_back();
    assert_eq!(tab.history_position, 0);
    tab.navigate(HistoryEntry::new("https://page4.com", "Page 4"));
    assert_eq!(tab.history_stack.len(), 2);
    assert_eq!(tab.history_position, 1);
}

#[test]
fn window_remove_tab_moves_active() {
    let mut w = WindowState::new();
    assert_eq!(w.tabs.len(), 0);
    w.add_tab(TabState::new("https://a.com", "A"));
    w.add_tab(TabState::new("https://b.com", "B"));
    assert!(w.set_active_tab(1));
    assert!(w.remove_tab(1).is_some());
    assert_eq!(w.active_tab, 0);
    assert!(w.remove_tab(9).is_none());
}

#[test]
fn navigation_controller_back_forward() {
    let mut c = NavigationController::new();
    c.navigate("https://example.com", "Example");
    c.navigate("https://example.org", "Example Org");
    assert!(c.can_go_back());
    assert!(!c.can_go_forward());
    assert_eq!(c.back().unwrap().url, "https://example.com");
    assert_eq!(c.forward().unwrap().url, "https://example.org");
    // navigating from the middle drops the forward entries
    c.back();
    c.navigate("https://example.net", "Net");
    assert_eq!(c.history_stack().len(), 2);
    assert_eq!(c.current_position(), 1);
    c.replace_current("https://example.net/r", "Redirected");
    assert_eq!(c.current_entry().unwrap().url, "https://example.net/r");
    c.clear();
    assert!(c.current_entry().is_none());
}

#[test]
fn navigation_controller_records_visits() {
    let mut c = NavigationController::with_history_manager(manager());
    c.navigate("https://example.com", "Example");
    c.set_persist_navigation(false);
    c.navigate("https://example.org", "Org");
    assert_eq!(c.history_stack().len(), 2);
}
