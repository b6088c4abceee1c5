use rusty_browser::history::{HistoryConfig, HistoryEntry, HistoryError, HistoryManager};
use rusty_browser::nav_controller::NavigationController;
use rusty_browser::session::{TabState, WindowState};
use rusty_browser::session_manager::{SessionConfig, SessionManager};

fn create_history_manager() -> HistoryManager {
    let mut config = HistoryConfig::with_db_path("test_history.redb".to_string());
    config.max_entries = 1000;
    HistoryManager::new(config)
}

fn create_session_manager() -> SessionManager {
    let mut config = SessionConfig::with_db_path("test_sessions.redb".to_string());
    config.enable_crash_recovery = false;
    SessionManager::new(config)
}

#[test]
fn test_add_and_get_entry() {
    let mut manager = create_history_manager();
    let entry = HistoryEntry::new("https://example.com", "Example");
    let added = manager.add_visit(entry).unwrap();
    assert_eq!(added.url, "https://example.com");
    assert_eq!(added.title, "Example");
    assert_eq!(added.visit_count, 1);
    let retrieved = manager.get_entry_by_url("https://example.com");
    assert!(retrieved.is_some());
    assert_eq!(retrieved.unwrap().title, "Example");
}

#[test]
fn test_visit_count_increment() {
    let mut manager = create_history_manager();
    manager.add_visit(HistoryEntry::new("https://example.com", "Example")).unwrap();
    manager.add_visit(HistoryEntry::new("https://example.com", "Example")).unwrap();
    let retrieved = manager.get_entry_by_url("https://example.com");
    assert_eq!(retrieved.unwrap().visit_count, 2);
}

#[test]
fn test_get_recent() {
    let mut manager = create_history_manager();
    for i in 0..10 {
        let entry = HistoryEntry::new(&format!("https://example{}.com", i), &format!("Example {}", i));
        manager.add_visit(entry).unwrap();
    }
    let recent = manager.get_recent(5);
    assert_eq!(recent.len(), 5);
}

#[test]
fn test_search() {
    let mut manager = create_history_manager();
    manager.add_visit(HistoryEntry::new("https://rust-lang.org", "Rust")).unwrap();
    manager.add_visit(HistoryEntry::new("https://python.org", "Python")).unwrap();
    manager.add_visit(HistoryEntry::new("https://rustup.rs", "Rustup")).unwrap();
    let results = manager.search("rust");
    assert_eq!(results.len(), 2);
}

#[test]
fn test_delete_by_url() {
    let mut manager = create_history_manager();
    manager.add_visit(HistoryEntry::new("https://example.com", "Example")).unwrap();
    assert!(manager.delete_by_url("https://example.com"));
    assert!(!manager.delete_by_url("https://example.com"));
}

#[test]
fn test_clear_all() {
    let mut manager = create_history_manager();
    for i in 0..5 {
        manager.add_visit(HistoryEntry::new(&format!("https://example{}.com", i), "Example")).unwrap();
    }
    assert_eq!(manager.entry_count(), 5);
    manager.clear_all();
    assert_eq!(manager.entry_count(), 0);
}

#[test]
fn test_privacy_mode() {
    let mut manager = create_history_manager();
    manager.set_privacy_mode(true);
    assert!(manager.is_privacy_mode());
    let result = manager.add_visit(HistoryEntry::new("https://example.com", "Example"));
    assert!(matches!(result, Err(HistoryError::PrivacyModeActive)));
    manager.set_privacy_mode(false);
    assert!(!manager.is_privacy_mode());
    assert!(manager.add_visit(HistoryEntry::new("https://example.com", "Example")).is_ok());
}

#[test]
fn test_export_to_html() {
    let mut manager = create_history_manager();
    manager.add_visit(HistoryEntry::new("https://example.com", "Example")).unwrap();
    let html = manager.export_to_html();
    assert!(html.contains("<!DOCTYPE NETSCAPE-Bookmark-file-1>"));
    assert!(html.contains("https://example.com"));
    assert!(html.contains("Example"));
}

#[test]
fn test_favicon_storage() {
    let mut manager = create_history_manager();
    let favicon_data = vec![0x89, 0x50, 0x4E, 0x47];
    manager.store_favicon("https://example.com", favicon_data.clone());
    let retrieved = manager.get_favicon("https://example.com");
    assert_eq!(retrieved, Some(favicon_data));
}

#[test]
fn test_entry_count() {
    let mut manager = create_history_manager();
    assert_eq!(manager.entry_count(), 0);
    for i in 0..5 {
        manager.add_visit(HistoryEntry::new(&format!("https://example{}.com", i), "Example")).unwrap();
    }
    assert_eq!(manager.entry_count(), 5);
}

#[test]
fn test_new_session() {
    let manager = create_session_manager();
    let session = manager.current_session();
    assert_eq!(session.windows.len(), 1);
    assert_eq!(session.windows[0].tabs.len(), 1);
}

#[test]
fn test_add_window() {
    let mut manager = create_session_manager();
    let index = manager.add_window(WindowState::new());
    let session = manager.current_session();
    assert_eq!(session.windows.len(), 2);
    assert_eq!(index, 1);
}

#[test]
fn test_add_tab() {
    let mut manager = create_session_manager();
    let index = manager.add_tab(0, TabState::new("https://example.com", "Example")).unwrap();
    let session = manager.current_session();
    assert_eq!(session.windows[0].tabs.len(), 2);
    assert_eq!(index, 1);
}

#[test]
fn test_save_and_load_session() {
    let mut manager = create_session_manager();
    manager.add_tab(0, TabState::new("https://example.com", "Example")).unwrap();
    manager.save_current_session();
    let session_id = manager.current_session_id();
    let loaded = manager.load_session(session_id).unwrap();
    assert_eq!(loaded.windows[0].tabs.len(), 2);
}

#[test]
fn test_new_session_creates_fresh() {
    let mut manager = create_session_manager();
    manager.add_tab(0, TabState::new("https://example.com", "Example")).unwrap();
    let new_session = manager.new_session(Some("Test Session".to_string()));
    assert_eq!(new_session.windows.len(), 1);
    assert_eq!(new_session.windows[0].tabs.len(), 1);
    assert_eq!(new_session.metadata.name, Some("Test Session".to_string()));
}

#[test]
fn test_delete_session() {
    let mut manager = create_session_manager();
    manager.save_current_session();
    let new_session = manager.new_session(Some("To Delete".to_string()));
    manager.save_session(&new_session);
    let id_to_delete = new_session.id;
    assert!(manager.delete_session(id_to_delete).unwrap());
    assert!(!manager.delete_session(id_to_delete).unwrap());
}

#[test]
fn test_navigation() {
    let mut manager = create_session_manager();
    manager.navigate("https://example.com", "Example").unwrap();
    manager.navigate("https://example.org", "Example Org").unwrap();
    let session = manager.current_session();
    let window = session.get_active_window().unwrap();
    let tab = window.get_active_tab().unwrap();
    assert_eq!(tab.url, "https://example.org");
    assert_eq!(tab.history_stack.len(), 2);
    assert_eq!(tab.history_position, 1);
}

#[test]
fn test_go_back_forward() {
    let mut manager = create_session_manager();
    manager.navigate("https://example.com", "Example").unwrap();
    manager.navigate("https://example.org", "Example Org").unwrap();
    assert!(manager.can_go_back());
    assert!(!manager.can_go_forward());
    let entry = manager.go_back().unwrap().unwrap();
    assert_eq!(entry.url, "https://example.com");
    assert!(manager.can_go_forward());
    let entry = manager.go_forward().unwrap().unwrap();
    assert_eq!(entry.url, "https://example.org");
}

#[test]
fn test_navigation_controller() {
    let mut controller = NavigationController::new();
    controller.navigate("https://example.com", "Example");
    controller.navigate("https://example.org", "Example Org");
    assert!(controller.can_go_back());
    assert!(!controller.can_go_forward());
    let entry = controller.back().unwrap();
    assert_eq!(entry.url, "https://example.com");
    let entry = controller.forward().unwrap();
    assert_eq!(entry.url, "https://example.org");
}

#[test]
fn test_tab_state_history() {
    let mut tab = TabState::new("https://example.com", "Example");
    tab.navigate(HistoryEntry::new("https://page1.com", "Page 1"));
    tab.navigate(HistoryEntry::new("https://page2.com", "Page 2"));
    tab.navigate(HistoryEntry::new("https://page3.com", "Page 3"));
    assert_eq!(tab.history_stack.len(), 3);
    assert_eq!(tab.history_position, 2);
    tab.go_back();
    tab.go_back();
    assert_eq!(tab.history_position, 0);
    tab.navigate(HistoryEntry::new("https://page4.com", "Page 4"));
    assert_eq!(tab.history_stack.len(), 2);
    assert_eq!(tab.history_position, 1);
}

#[test]
fn history_export_then_import_restores_entries() {
    let mut manager = create_history_manager();
    let a = manager.add_visit(HistoryEntry::new("https://example.com", "Example")).unwrap();
    manager.add_visit(HistoryEntry::new("https://example.com", "Example again")).unwrap();
    manager.add_visit(HistoryEntry::new("https://b.example", "B")).unwrap();
    let exported = manager.get_all_entries();
    assert_eq!(exported.len(), 2);
    manager.clear_all();
    assert_eq!(manager.get_all_entries().len(), 0);
    assert_eq!(manager.import_entries(exported), 2);
    let e = manager.get_entry_by_url("https://example.com").unwrap();
    assert_eq!(e.id, a.id);
    assert_eq!(e.url, a.url);
    assert_eq!(e.title, "Example again");
    assert_eq!(e.visit_count, 2);
    assert!(manager.get_entry_by_url("https://b.example").is_some());
}
