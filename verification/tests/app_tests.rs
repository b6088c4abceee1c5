use rusty_browser::control_panel::{AiTool, AutomationTool, ExportFormat, ExtractionTool};
use rusty_browser::history::{HistoryConfig, HistoryManager};
use rusty_browser::input::{button_number, MouseButton};
use rusty_browser::integrated_app::{
    after_poll as integrated_after_poll, IntegratedBrowserApp, IntegratedEffect, Message as IntegratedMessage,
};
use rusty_browser::llm::{AiFeatures, LlmError, LlmManager, MockLlm};
use rusty_browser::session::Session;
use rusty_browser::session_manager::{SessionConfig, SessionManager};
use rusty_browser::single_window_app::{Message as SingleMessage, SingleWindowBrowser};
use rusty_browser::theme::{BrowserTheme, EffectiveTheme, TextStyle, ThemeMode};
use rusty_browser::toolbar::Toolbar;
use rusty_browser::two_window_app::{Message as TwoMessage, TwoWindowBrowser, TwoWindowEffect};
use rusty_browser::webview_widget::{WebViewMessage, WebViewWidget};
use rusty_browser::webview_wry::WebViewEvent as WryEvent;

#[test]
fn theme_detection_by_operating_system() {
    assert_eq!(ThemeMode::detect_system("windows"), ThemeMode::Dark);
    assert_eq!(ThemeMode::detect_system("linux"), ThemeMode::Auto);
    assert_eq!(ThemeMode::detect_system("macos"), ThemeMode::Auto);
    let t = BrowserTheme::auto("windows");
    assert_eq!(t.mode(), ThemeMode::Dark);
    assert_eq!(t.effective_theme(), EffectiveTheme::Dark);
    assert!(!t.is_high_contrast());
    assert_eq!(BrowserTheme::auto("freebsd").mode(), ThemeMode::Auto);
}

#[test]
fn batched_button_numbers() {
    assert_eq!(button_number(MouseButton::Left), 0);
    assert_eq!(button_number(MouseButton::Right), 1);
    assert_eq!(button_number(MouseButton::Middle), 2);
    assert_eq!(button_number(MouseButton::Back), 3);
    assert_eq!(button_number(MouseButton::Forward), 4);
    assert_eq!(button_number(MouseButton::Other(9)), 9);
}

#[test]
fn llm_manager_registry() {
    let mut m: LlmManager<MockLlm> = LlmManager::new();
    assert!(m.get_active_model().is_none());
    assert!(m.list_models().is_empty());
    m.register_model("first".to_string(), MockLlm);
    m.register_model("second".to_string(), MockLlm);
    m.register_model("first".to_string(), MockLlm);
    assert_eq!(m.list_models(), vec!["first".to_string(), "second".to_string()]);
    assert!(m.get_active_model().unwrap().is_loaded());
    assert!(m.set_active_model("second").is_ok());
    match m.set_active_model("third") {
        Err(LlmError::ModelNotFound(name)) => assert_eq!(name, "third"),
        Ok(()) => panic!("an unknown model was accepted"),
    }
    assert!(m.get_active_model().is_some());
}

#[test]
fn ai_features_and_tools_answer_fixed_texts() {
    assert_eq!(AiFeatures.summarize_page("text").unwrap(), "Summary placeholder");
    assert_eq!(AiFeatures.ask_about_page("text", "why?").unwrap(), "Answer placeholder");
    let ai = AiTool::new();
    assert_eq!(ai.send_prompt("hello").unwrap(), "AI response placeholder");
    assert_eq!(ai.extract_page("https://example.com").unwrap(), "Extracted data placeholder");
    let mut ex = ExtractionTool::new();
    let id = ex.create_schema("products".to_string(), ".item".to_string());
    assert_eq!(ex.extract(id, "<html></html>").unwrap(), "Extracted data");
    assert_eq!(ex.export("{}", ExportFormat::Csv).unwrap(), "Exported data");
    let auto = AutomationTool::new();
    auto.execute_command("click #go");
    auto.run_macro(7);
    assert!(!auto.is_recording);
}

#[test]
fn stores_hand_out_their_rows() {
    let mut h = HistoryManager::new(HistoryConfig::with_db_path("h.redb".to_string()));
    h.store_favicon("https://a.example", vec![1, 2, 3]);
    h.store_favicon("https://b.example", vec![4]);
    let favicons = h.get_all_favicons();
    assert_eq!(favicons.len(), 2);
    assert_eq!(favicons[0].url, "https://a.example");
    assert_eq!(favicons[1].data, vec![4]);
    let mut config = SessionConfig::with_db_path("s.redb".to_string());
    config.auto_save_interval_secs = 45;
    let mut s = SessionManager::new(config);
    assert_eq!(s.auto_save_interval_secs(), 45);
    assert!(s.crash_info().is_none());
    let a = Session::new();
    let b = Session::new();
    s.save_session(&b);
    s.save_session(&a);
    let saved = s.saved_sessions();
    assert_eq!(saved.len(), 2);
    assert!(saved[0].id < saved[1].id);
    assert_eq!(s.crash_info().unwrap().session_id, a.id);
}

#[test]
fn webview_widget_turns_events_into_messages() {
    let mut w = WebViewWidget::new();
    assert_eq!(w.current_url(), "");
    w.navigate("https://example.com");
    assert_eq!(w.current_url(), "https://example.com");
    let events = vec![
        WryEvent::NavigationStarted("https://example.com".to_string()),
        WryEvent::LoadStarted("https://example.com".to_string()),
        WryEvent::TitleChanged("Example".to_string()),
        WryEvent::LoadFinished("https://example.com".to_string()),
    ];
    let msgs = w.poll(&events);
    assert_eq!(msgs.len(), 3);
    assert!(matches!(msgs[0], WebViewMessage::LoadStarted));
    assert!(matches!(&msgs[1], WebViewMessage::TitleChanged(t) if t == "Example"));
    assert!(matches!(msgs[2], WebViewMessage::LoadFinished));
}

#[test]
fn integrated_app_flow() {
    let mut app = IntegratedBrowserApp::default();
    assert_eq!(app.title(), "New Tab - Rusty Browser");
    assert_eq!(app.theme(), ThemeMode::Dark);
    assert!(matches!(app.startup(), IntegratedEffect::NavigateWebView(u) if u == "https://start.duckduckgo.com"));
    app.update(IntegratedMessage::UrlChanged("example.org".to_string()));
    let next = match app.update(IntegratedMessage::NavigateSubmitted) {
        IntegratedEffect::Dispatch(m) => m,
        _ => panic!("expected a navigation"),
    };
    assert!(matches!(&next, IntegratedMessage::NavigateTo(u) if u == "https://example.org"));
    let follow = match app.update(next) {
        IntegratedEffect::NavigateWebViewThen(u, m) => {
            assert_eq!(u, "https://example.org");
            m
        }
        _ => panic!("expected the web view to navigate"),
    };
    assert!(matches!(follow, IntegratedMessage::LoadingStarted));
    assert!(matches!(app.update(follow), IntegratedEffect::Nothing));
    let msgs = integrated_after_poll(vec![
        WebViewMessage::UrlChanged("https://example.org/".to_string()),
        WebViewMessage::TitleChanged("Example".to_string()),
        WebViewMessage::LoadFinished,
    ]);
    assert_eq!(msgs.len(), 3);
    for m in msgs {
        assert!(matches!(app.update(m), IntegratedEffect::Nothing));
    }
    assert_eq!(app.title(), "Example - Rusty Browser");
    // a finished load takes the web view's page as the address
    app.update(IntegratedMessage::UrlChanged("typed".to_string()));
    app.update(IntegratedMessage::LoadingFinished);
    assert!(matches!(app.update(IntegratedMessage::Reload), IntegratedEffect::NavigateWebView(u) if u == "https://example.org"));
    assert!(matches!(app.update(IntegratedMessage::PollWebView), IntegratedEffect::PollWebView));
    assert!(matches!(app.update(IntegratedMessage::GoBack), IntegratedEffect::Nothing));
}

#[test]
fn single_window_app_flow() {
    let mut app = SingleWindowBrowser::default();
    assert_eq!(app.title(), "New Tab - Rusty Browser");
    assert_eq!(app.control_panel_width(), 400);
    app.update(SingleMessage::ToggleControlPanel);
    assert_eq!(app.control_panel_width(), 50);
    app.update(SingleMessage::UrlChanged("about:blank".to_string()));
    match app.update(SingleMessage::NavigateSubmitted) {
        Some(SingleMessage::NavigateTo(u)) => assert_eq!(u, "about:blank"),
        _ => panic!("expected a navigation"),
    }
    match app.update(SingleMessage::NewTab) {
        Some(SingleMessage::NavigateTo(u)) => assert_eq!(u, "https://start.duckduckgo.com"),
        _ => panic!("expected the start page"),
    }
    assert!(app.update(SingleMessage::StopLoading).is_none());
}

#[test]
fn two_window_app_tools_window() {
    let mut app = TwoWindowBrowser::new(1);
    assert_eq!(app.title(1), "New Tab - Rusty Browser");
    assert_eq!(app.title(2), "Rusty Browser");
    assert!(matches!(app.update(TwoMessage::CloseToolsWindow), TwoWindowEffect::Nothing));
    assert!(matches!(app.update(TwoMessage::OpenToolsWindow), TwoWindowEffect::OpenToolsWindow));
    app.update(TwoMessage::ToolsWindowOpened(2));
    assert_eq!(app.title(2), "Tools - Rusty Browser");
    assert!(matches!(app.update(TwoMessage::OpenToolsWindow), TwoWindowEffect::Nothing));
    // another window closing leaves the tools window alone
    app.update(TwoMessage::ToolsWindowClosed(5));
    assert_eq!(app.title(2), "Tools - Rusty Browser");
    assert!(matches!(app.update(TwoMessage::CloseToolsWindow), TwoWindowEffect::CloseWindow(2)));
    assert_eq!(app.title(2), "Rusty Browser");
    assert_eq!(app.theme(1), ThemeMode::Dark);
}

#[test]
fn toolbar_buttons() {
    let t: Toolbar<&str> = Toolbar::new().on_back("back").on_reload("reload").on_stop("stop").can_go_back(true);
    assert_eq!(t.back_action(), Some(&"back"));
    assert_eq!(t.forward_action(), None);
    assert_eq!(t.reload_action(), Some(&"reload"));
    assert_eq!(t.reload_label(), "\u{27f3}");
    assert_eq!(t.back_style(), TextStyle::Toolbar);
    assert_eq!(t.forward_style(), TextStyle::Disabled);
    let t = t.is_loading(true).theme(BrowserTheme::new(ThemeMode::Light));
    assert_eq!(t.reload_action(), Some(&"stop"));
    assert_eq!(t.reload_label(), "\u{2715}");
}
