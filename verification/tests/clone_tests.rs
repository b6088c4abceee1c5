use rusty_browser::tab::{LoadState, Tab};
use rusty_browser::window::{Window, WindowState};

#[test]
fn window_clone_keeps_settings_but_not_tabs() {
    let mut w = Window::new(true);
    w.create_tab();
    w.create_tab();
    w.set_position(10, 20);
    w.set_state(WindowState::Maximized);
    assert_eq!(w.tab_manager.get_tab_count(), 2);

    let c = w.clone();
    assert_eq!(c.id, w.id);
    assert_eq!(c.title, w.title);
    assert_eq!(c.get_position(), w.get_position());
    assert_eq!(c.get_size(), w.get_size());
    assert_eq!(c.get_state(), WindowState::Maximized);
    assert!(c.is_private);
    assert_eq!(c.tab_manager.get_tab_count(), 0);
    assert!(c.tab_manager.get_active_tab().is_none());
}

#[test]
fn tab_clone_keeps_page_and_history() {
    let mut t = Tab::new(Some(7));
    t.navigate("https://example.com/");
    t.navigate("https://example.org/");
    t.update_title("Example".to_string());

    let c = t.clone();
    assert_eq!(c.id(), t.id());
    let (a, b) = (t.get_state(), c.get_state());
    assert_eq!(a.url, b.url);
    assert_eq!(a.title, b.title);
    assert_eq!(b.load_state, LoadState::Loading);
    let (na, nb) = (t.get_navigation_state(), c.get_navigation_state());
    assert_eq!(na.current_index, nb.current_index);
    assert_eq!(na.history.len(), 2);
    assert_eq!(nb.history.len(), 2);
    assert_eq!(nb.history[1].url, "https://example.org/");
    assert!(nb.can_go_back);
}

#[test]
fn focus_ids_carry_uuid_variant_bits() {
    for _ in 0..16 {
        let id = rusty_browser::input::FocusId::new();
        assert_eq!(id.0 >> 62, 2);
    }
}
