use rusty_browser::control_panel::ToolCategory;
use rusty_browser::llm::{build_prompt, ChatMessage, MessageRole as LlmRole, MockLlm};
use rusty_browser::panels::{
    DevToolsPanel, DevToolsTab, MessageRole, NetworkMessage, NetworkPanel, SettingsMessage, SettingsPanel, Sidebar,
};
use rusty_browser::text::{parse_u16, take_bytes};
use rusty_browser::theme::{ButtonStyle, ThemeMode};

#[test]
fn parse_u16_reads_decimal_ports() {
    assert_eq!(parse_u16("8080"), Some(8080));
    assert_eq!(parse_u16("+443"), Some(443));
    assert_eq!(parse_u16("0"), Some(0));
    assert_eq!(parse_u16("007"), Some(7));
    assert_eq!(parse_u16("65535"), Some(65535));
}

#[test]
fn parse_u16_refuses_what_str_parse_refuses() {
    for text in ["", "+", "-1", "65536", "99999999", "12a", " 80", "80 ", "١٢"] {
        assert_eq!(parse_u16(text), text.parse::<u16>().ok(), "text {:?}", text);
        assert_eq!(parse_u16(text), None);
    }
}

#[test]
fn port_field_sends_port_or_default() {
    assert!(matches!(NetworkPanel::port_input_message("9090"), NetworkMessage::ProxyPortChanged(9090)));
    assert!(matches!(NetworkPanel::port_input_message("not a port"), NetworkMessage::ProxyPortChanged(8080)));
    assert!(matches!(NetworkPanel::port_input_message("70000"), NetworkMessage::ProxyPortChanged(8080)));
}

#[test]
fn port_field_updates_panel() {
    let mut panel = NetworkPanel::new();
    panel.update(NetworkPanel::port_input_message("3128"));
    assert_eq!(panel.proxy_port, 3128);
    panel.update(NetworkPanel::port_input_message(""));
    assert_eq!(panel.proxy_port, 8080);
}

#[test]
fn theme_menu_names_round_trip() {
    for mode in [ThemeMode::Light, ThemeMode::Dark, ThemeMode::HighContrast, ThemeMode::Auto] {
        assert_eq!(ThemeMode::from_display_name(mode.display_name()), mode);
    }
    assert_eq!(ThemeMode::from_display_name("Sepia"), ThemeMode::Auto);
}

#[test]
fn settings_theme_menu() {
    assert_eq!(
        SettingsPanel::theme_options(),
        vec![ThemeMode::Light, ThemeMode::Dark, ThemeMode::HighContrast, ThemeMode::Auto]
    );
    assert_eq!(
        SettingsPanel::theme_choice_message("High Contrast"),
        SettingsMessage::ThemeModeChanged(ThemeMode::HighContrast)
    );
    let mut panel = SettingsPanel::new();
    panel.update(SettingsPanel::theme_choice_message("Light"));
    assert_eq!(panel.theme_mode, ThemeMode::Light);
}

#[test]
fn chat_role_labels() {
    assert_eq!(MessageRole::User.label(), "You:");
    assert_eq!(MessageRole::Assistant.label(), "AI:");
    assert_eq!(MessageRole::System.label(), "System:");
}

#[test]
fn sidebar_presentation() {
    let expanded = Sidebar::new(true, ToolCategory::Network);
    assert_eq!(expanded.toggle_glyph(), "\u{25c0}");
    assert_eq!(expanded.category_label(ToolCategory::Network), " Network ");
    assert_eq!(expanded.category_style(ToolCategory::Network), ButtonStyle::Primary);
    assert_eq!(expanded.category_style(ToolCategory::Settings), ButtonStyle::Secondary);

    let collapsed = Sidebar::new(false, ToolCategory::Settings);
    assert_eq!(collapsed.toggle_glyph(), "\u{25b6}");
    assert_eq!(collapsed.category_label(ToolCategory::Network), "");
    assert_eq!(collapsed.category_style(ToolCategory::Settings), ButtonStyle::Primary);
}

#[test]
fn devtools_tabs_in_order() {
    assert_eq!(
        DevToolsTab::all(),
        vec![DevToolsTab::Console, DevToolsTab::Network, DevToolsTab::Elements, DevToolsTab::Storage]
    );
    let panel = DevToolsPanel::new();
    assert!(panel.is_tab_active(DevToolsTab::Console));
    assert!(!panel.is_tab_active(DevToolsTab::Storage));
}

#[test]
fn chat_template_prompt() {
    let messages = vec![
        ChatMessage { role: LlmRole::System, content: "Be brief.".to_string() },
        ChatMessage { role: LlmRole::User, content: "Hi".to_string() },
        ChatMessage { role: LlmRole::Assistant, content: "Hello".to_string() },
    ];
    assert_eq!(
        build_prompt(&messages),
        "<|system|>\nBe brief.\n<|user|>\nHi\n<|assistant|>\nHello\n<|assistant|>\n"
    );
    assert_eq!(build_prompt(&[]), "<|assistant|>\n");
}

#[test]
fn mock_generate_quotes_prompt_head() {
    let llm = MockLlm;
    assert_eq!(llm.generate("Hello"), "Mock response for: Hello");
    let long = "a".repeat(60);
    assert_eq!(llm.generate(&long), format!("Mock response for: {}", "a".repeat(50)));
    // 25 two-byte characters make exactly 50 bytes.
    let wide = "é".repeat(30);
    assert_eq!(llm.generate(&wide), format!("Mock response for: {}", "é".repeat(25)));
}

#[test]
fn take_bytes_cuts_between_characters() {
    assert_eq!(take_bytes("héllo", 3), "hé");
    assert_eq!(take_bytes("héllo", 100), "héllo");
    assert_eq!(take_bytes("", 5), "");
    let s = "ab€cd";
    assert_eq!(take_bytes(s, 5), &s[..5]);
}

#[test]
fn shown_port_reads_back() {
    for port in [0u16, 7, 80, 443, 8080, 65535] {
        assert_eq!(parse_u16(&port.to_string()), Some(port));
    }
}
