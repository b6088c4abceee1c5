use vstd::prelude::*;
use crate::control_panel::{category_name, ToolCategory};
use crate::text::{decimal, parse_u16, parsed_u16, push_decimal};
use crate::theme::{mode_named, ButtonStyle, ThemeMode};

verus! {

// ----- AI panel -----

/// Messages of the AI panel.
#[derive(Debug, Clone)]
pub enum AiMessage {
    PromptChanged(String),
    SendPrompt,
    ClearChat,
    ToggleRag(bool),
    ModelSelected(String),
    ExtractPage,
    SummarizePage,
}

/// Who wrote a chat message.
#[derive(Debug, Clone, Copy, PartialEq, Eq, Structural)]
pub enum MessageRole {
    User,
    Assistant,
    System,
}

/// The label that heads a chat message from `r`.
pub open spec fn role_label(r: MessageRole) -> Seq<char> {
    match r {
        MessageRole::User => "You:"@,
        MessageRole::Assistant => "AI:"@,
        MessageRole::System => "System:"@,
    }
}

impl MessageRole {
    /// The label shown above a message of this role in the chat.
    pub fn label(&self) -> (r: &'static str)
        ensures
            r@ == role_label(*self),
    {
        match self {
            MessageRole::User => "You:",
            MessageRole::Assistant => "AI:",
            MessageRole::System => "System:",
        }
    }
}

/// A chat message.
pub struct ChatMessage {
    pub role: MessageRole,
    pub content: String,
}

/// A chat message as (role, text).
pub open spec fn chat_views(v: Seq<ChatMessage>) -> Seq<(MessageRole, Seq<char>)> {
    v.map_values(|m: ChatMessage| (m.role, m.content@))
}

/// Greeting that opens the chat.
pub const AI_WELCOME: &'static str = "Welcome to Rusty AI! I can help you analyze web pages, answer questions, and assist with automation.";

/// Reply shown while a prompt is handled.
pub const AI_WORKING: &'static str = "I'm processing your request... (AI integration pending)";

/// Mathematical value of [`AiPanel`].
pub struct AiPanelView {
    pub prompt: Seq<char>,
    pub chat: Seq<(MessageRole, Seq<char>)>,
    pub rag_enabled: bool,
    pub selected_model: Seq<char>,
    pub available_models: Seq<Seq<char>>,
}

/// State of the AI panel.
pub struct AiPanel {
    pub prompt: String,
    pub chat_history: Vec<ChatMessage>,
    pub rag_enabled: bool,
    pub selected_model: String,
    pub available_models: Vec<String>,
}

impl View for AiPanel {
    type V = AiPanelView;

    open spec fn view(&self) -> AiPanelView {
        AiPanelView {
            prompt: self.prompt@,
            chat: chat_views(self.chat_history@),
            rag_enabled: self.rag_enabled,
            selected_model: self.selected_model@,
            available_models: self.available_models@.map_values(|s: String| s@),
        }
    }
}

/// Whether a chat message comes from the system.
pub open spec fn is_system(m: (MessageRole, Seq<char>)) -> bool {
    m.0 == MessageRole::System
}

/// The panel after message `m`.
pub open spec fn ai_after(v: AiPanelView, m: AiMessage) -> AiPanelView {
    match m {
        AiMessage::PromptChanged(t) => AiPanelView { prompt: t@, ..v },
        AiMessage::SendPrompt => if v.prompt.len() > 0 {
            AiPanelView {
                prompt: Seq::empty(),
                chat: v.chat.push((MessageRole::User, v.prompt)).push((MessageRole::Assistant, AI_WORKING@)),
                ..v
            }
        } else {
            v
        },
        AiMessage::ClearChat => AiPanelView {
            chat: v.chat.filter(|m: (MessageRole, Seq<char>)| is_system(m)),
            ..v
        },
        AiMessage::ToggleRag(b) => AiPanelView { rag_enabled: b, ..v },
        AiMessage::ModelSelected(m) => AiPanelView { selected_model: m@, ..v },
        AiMessage::ExtractPage => AiPanelView {
            chat: v.chat.push((MessageRole::User, "Extract data from this page"@)),
            ..v
        },
        AiMessage::SummarizePage => AiPanelView {
            chat: v.chat.push((MessageRole::User, "Summarize this page"@)),
            ..v
        },
    }
}

impl AiPanel {
    /// An empty prompt, the greeting in the chat, the default model.
    pub fn new() -> (p: Self)
        ensures
            p@.prompt.len() == 0,
            p@.chat == seq![(MessageRole::System, AI_WELCOME@)],
            !p@.rag_enabled,
            p@.selected_model == "default"@,
            p@.available_models == seq!["default"@, "local-llm"@, "embeddings"@],
    {
        let chat = vec![ChatMessage { role: MessageRole::System, content: AI_WELCOME.to_string() }];
        let models = vec!["default".to_string(), "local-llm".to_string(), "embeddings".to_string()];
        let p = AiPanel {
            prompt: String::new(),
            chat_history: chat,
            rag_enabled: false,
            selected_model: "default".to_string(),
            available_models: models,
        };
        assert(p@.chat =~= seq![(MessageRole::System, AI_WELCOME@)]);
        assert(p@.available_models =~= seq!["default"@, "local-llm"@, "embeddings"@]);
        p
    }

    /// The panel's title.
    pub fn title(&self) -> (r: &'static str)
        ensures
            r@ == "AI Engine"@,
    {
        "AI Engine"
    }

    /// Apply a message.
    pub fn update(&mut self, message: AiMessage)
        ensures
            final(self)@ == ai_after(old(self)@, message),
    {
        let ghost c0 = self@.chat;
        match message {
            AiMessage::PromptChanged(text) => {
                self.prompt = text;
            },
            AiMessage::SendPrompt => {
                if !self.prompt.as_str().is_empty() {
                    let p = self.prompt.clone();
                    self.chat_history.push(ChatMessage { role: MessageRole::User, content: p });
                    self.chat_history.push(ChatMessage { role: MessageRole::Assistant, content: AI_WORKING.to_string() });
                    assert(self@.chat =~= c0.push((MessageRole::User, old(self)@.prompt)).push((MessageRole::Assistant, AI_WORKING@)));
                    self.prompt = String::new();
                }
            },
            AiMessage::ClearChat => {
                let ghost pred = |m: (MessageRole, Seq<char>)| is_system(m);
                let mut kept: Vec<ChatMessage> = Vec::new();
                let mut i: usize = 0;
                while i < self.chat_history.len()
                    invariant
                        c0 == chat_views(self.chat_history@),
                        pred == (|m: (MessageRole, Seq<char>)| is_system(m)),
                        i <= c0.len(),
                        chat_views(kept@) == c0.take(i as int).filter(pred),
                    decreases self.chat_history.len() - i,
                {
                    let ghost prev = kept@;
                    if self.chat_history[i].role == MessageRole::System {
                        let m = ChatMessage { role: MessageRole::System, content: self.chat_history[i].content.clone() };
                        kept.push(m);
                        assert(chat_views(kept@) =~= chat_views(prev).push(c0[i as int]));
                    }
                    assert(c0.take(i + 1).drop_last() =~= c0.take(i as int));
                    assert(c0.take(i + 1).last() == c0[i as int]);
                    reveal(Seq::filter);
                    i = i + 1;
                    assert(chat_views(kept@) =~= c0.take(i as int).filter(pred));
                }
                assert(c0.take(i as int) =~= c0);
                self.chat_history = kept;
            },
            AiMessage::ToggleRag(enabled) => {
                self.rag_enabled = enabled;
            },
            AiMessage::ModelSelected(model) => {
                self.selected_model = model;
            },
            AiMessage::ExtractPage => {
                self.chat_history.push(ChatMessage { role: MessageRole::User, content: "Extract data from this page".to_string() });
                assert(self@.chat =~= c0.push((MessageRole::User, "Extract data from this page"@)));
            },
            AiMessage::SummarizePage => {
                self.chat_history.push(ChatMessage { role: MessageRole::User, content: "Summarize this page".to_string() });
                assert(self@.chat =~= c0.push((MessageRole::User, "Summarize this page"@)));
            },
        }
    }
}

// ----- automation panel -----

/// Messages of the automation panel.
#[derive(Debug, Clone)]
pub enum AutomationMessage {
    RunScript,
    StopScript,
    RecordMacro,
    CommandTextChanged(String),
    ExecuteCommand,
    ToggleRecording(bool),
}

/// State of the automation panel.
pub struct AutomationPanel {
    pub command_text: String,
    pub is_recording: bool,
    pub is_running: bool,
    pub macros: Vec<String>,
}

/// Mathematical value of [`AutomationPanel`].
pub struct AutomationView {
    pub command_text: Seq<char>,
    pub is_recording: bool,
    pub is_running: bool,
    pub macros: Seq<Seq<char>>,
}

impl View for AutomationPanel {
    type V = AutomationView;

    open spec fn view(&self) -> AutomationView {
        AutomationView {
            command_text: self.command_text@,
            is_recording: self.is_recording,
            is_running: self.is_running,
            macros: self.macros@.map_values(|s: String| s@),
        }
    }
}

/// The panel after message `m`.
pub open spec fn automation_after(v: AutomationView, m: AutomationMessage) -> AutomationView {
    match m {
        AutomationMessage::RunScript => AutomationView { is_running: true, ..v },
        AutomationMessage::StopScript => AutomationView { is_running: false, ..v },
        AutomationMessage::RecordMacro => AutomationView { is_recording: !v.is_recording, ..v },
        AutomationMessage::CommandTextChanged(t) => AutomationView { command_text: t@, ..v },
        AutomationMessage::ExecuteCommand => AutomationView { command_text: Seq::empty(), ..v },
        AutomationMessage::ToggleRecording(b) => AutomationView { is_recording: b, ..v },
    }
}

impl AutomationPanel {
    /// Idle, with the sample macros listed.
    pub fn new() -> (p: Self)
        ensures
            p@ == (AutomationView {
                command_text: Seq::empty(),
                is_recording: false,
                is_running: false,
                macros: seq!["Login Sequence"@, "Form Filler"@, "Data Scraper"@],
            }),
    {
        let p = AutomationPanel {
            command_text: String::new(),
            is_recording: false,
            is_running: false,
            macros: vec!["Login Sequence".to_string(), "Form Filler".to_string(), "Data Scraper".to_string()],
        };
        assert(p@.macros =~= seq!["Login Sequence"@, "Form Filler"@, "Data Scraper"@]);
        assert(p@.command_text =~= Seq::<char>::empty());
        p
    }

    /// The panel's title.
    pub fn title(&self) -> (r: &'static str)
        ensures
            r@ == "Automation"@,
    {
        "Automation"
    }

    /// Apply a message.
    pub fn update(&mut self, message: AutomationMessage)
        ensures
            final(self)@ == automation_after(old(self)@, message),
    {
        match message {
            AutomationMessage::RunScript => {
                self.is_running = true;
            },
            AutomationMessage::StopScript => {
                self.is_running = false;
            },
            AutomationMessage::RecordMacro => {
                self.is_recording = !self.is_recording;
            },
            AutomationMessage::CommandTextChanged(text) => {
                self.command_text = text;
            },
            AutomationMessage::ExecuteCommand => {
                self.command_text = String::new();
            },
            AutomationMessage::ToggleRecording(enabled) => {
                self.is_recording = enabled;
            },
        }
    }
}

// ----- developer tools panel -----

/// Tabs of the developer tools.
#[derive(Debug, Clone, Copy, PartialEq, Eq, Structural)]
pub enum DevToolsTab {
    Console,
    Network,
    Elements,
    Storage,
}

/// The name shown for a developer tools tab.
pub open spec fn devtools_tab_name(t: DevToolsTab) -> Seq<char> {
    match t {
        DevToolsTab::Console => "Console"@,
        DevToolsTab::Network => "Network"@,
        DevToolsTab::Elements => "Elements"@,
        DevToolsTab::Storage => "Storage"@,
    }
}

impl DevToolsTab {
    /// The tabs in the order the panel shows them.
    pub fn all() -> (r: Vec<DevToolsTab>)
        ensures
            r@ == seq![DevToolsTab::Console, DevToolsTab::Network, DevToolsTab::Elements, DevToolsTab::Storage],
    {
        let r = vec![DevToolsTab::Console, DevToolsTab::Network, DevToolsTab::Elements, DevToolsTab::Storage];
        assert(r@ =~= seq![DevToolsTab::Console, DevToolsTab::Network, DevToolsTab::Elements, DevToolsTab::Storage]);
        r
    }

    /// The tab's name.
    pub fn name(&self) -> (r: &'static str)
        ensures
            r@ == devtools_tab_name(*self),
    {
        match self {
            DevToolsTab::Console => "Console",
            DevToolsTab::Network => "Network",
            DevToolsTab::Elements => "Elements",
            DevToolsTab::Storage => "Storage",
        }
    }
}

/// Messages of the developer tools panel.
#[derive(Debug, Clone)]
pub enum DevToolsMessage {
    TabSelected(DevToolsTab),
    ConsoleInputChanged(String),
    ExecuteConsole,
    ClearConsole,
    InspectElement,
    ViewSource,
}

/// State of the developer tools panel.
pub struct DevToolsPanel {
    pub active_tab: DevToolsTab,
    pub console_input: String,
    pub console_output: Vec<String>,
}

/// Mathematical value of [`DevToolsPanel`].
pub struct DevToolsView {
    pub active_tab: DevToolsTab,
    pub console_input: Seq<char>,
    pub console_output: Seq<Seq<char>>,
}

impl View for DevToolsPanel {
    type V = DevToolsView;

    open spec fn view(&self) -> DevToolsView {
        DevToolsView {
            active_tab: self.active_tab,
            console_input: self.console_input@,
            console_output: self.console_output@.map_values(|s: String| s@),
        }
    }
}

/// The panel after message `m`.
pub open spec fn devtools_after(v: DevToolsView, m: DevToolsMessage) -> DevToolsView {
    match m {
        DevToolsMessage::TabSelected(t) => DevToolsView { active_tab: t, ..v },
        DevToolsMessage::ConsoleInputChanged(t) => DevToolsView { console_input: t@, ..v },
        DevToolsMessage::ExecuteConsole => if v.console_input.len() > 0 {
            DevToolsView {
                console_input: Seq::empty(),
                console_output: v.console_output.push("> "@ + v.console_input).push("< undefined"@),
                ..v
            }
        } else {
            v
        },
        DevToolsMessage::ClearConsole => DevToolsView { console_output: Seq::empty(), ..v },
        DevToolsMessage::InspectElement => v,
        DevToolsMessage::ViewSource => v,
    }
}

impl DevToolsPanel {
    /// The console, with its start-up lines.
    pub fn new() -> (p: Self)
        ensures
            p@ == (DevToolsView {
                active_tab: DevToolsTab::Console,
                console_input: Seq::empty(),
                console_output: seq!["Rusty Browser DevTools initialized"@, "Waiting for page load..."@],
            }),
    {
        let p = DevToolsPanel {
            active_tab: DevToolsTab::Console,
            console_input: String::new(),
            console_output: vec!["Rusty Browser DevTools initialized".to_string(), "Waiting for page load...".to_string()],
        };
        assert(p@.console_output =~= seq!["Rusty Browser DevTools initialized"@, "Waiting for page load..."@]);
        assert(p@.console_input =~= Seq::<char>::empty());
        p
    }

    /// Whether `tab` is the one shown, so that its button is highlighted.
    pub fn is_tab_active(&self, tab: DevToolsTab) -> (r: bool)
        ensures
            r == (tab == self.active_tab),
    {
        tab == self.active_tab
    }

    /// The panel's title.
    pub fn title(&self) -> (r: &'static str)
        ensures
            r@ == "Developer Tools"@,
    {
        "Developer Tools"
    }

    /// Apply a message. Executing echoes a non-empty input line and its
    /// result into the console.
    pub fn update(&mut self, message: DevToolsMessage)
        ensures
            final(self)@ == devtools_after(old(self)@, message),
    {
        let ghost o0 = self@.console_output;
        match message {
            DevToolsMessage::TabSelected(tab) => {
                self.active_tab = tab;
            },
            DevToolsMessage::ConsoleInputChanged(text) => {
                self.console_input = text;
            },
            DevToolsMessage::ExecuteConsole => {
                if !self.console_input.as_str().is_empty() {
                    let mut line = "> ".to_string();
                    line.append(self.console_input.as_str());
                    self.console_output.push(line);
                    self.console_output.push("< undefined".to_string());
                    assert(self@.console_output =~= o0.push("> "@ + old(self)@.console_input).push("< undefined"@));
                    self.console_input = String::new();
                }
            },
            DevToolsMessage::ClearConsole => {
                self.console_output = Vec::new();
                assert(self@.console_output =~= Seq::<Seq<char>>::empty());
            },
            DevToolsMessage::InspectElement => {},
            DevToolsMessage::ViewSource => {},
        }
    }
}

// ----- extraction panel -----

/// Messages of the extraction panel.
#[derive(Debug, Clone)]
pub enum ExtractionMessage {
    SchemaNameChanged(String),
    SelectorChanged(String),
    AddField,
    RemoveField(usize),
    SaveSchema,
    LoadSchema,
    RunExtraction,
    ExportData,
    ToggleLivePreview(bool),
}

/// A field being defined in the extraction panel.
pub struct ExtractionField {
    pub name: String,
    pub selector: String,
    pub attribute: String,
}

/// Fields as (name, selector, attribute).
pub open spec fn field_views(v: Seq<ExtractionField>) -> Seq<(Seq<char>, Seq<char>, Seq<char>)> {
    v.map_values(|f: ExtractionField| (f.name@, f.selector@, f.attribute@))
}

/// State of the extraction panel.
pub struct ExtractionPanel {
    pub schema_name: String,
    pub selector: String,
    pub fields: Vec<ExtractionField>,
    pub live_preview: bool,
    pub extracted_data: Vec<String>,
}

/// Mathematical value of [`ExtractionPanel`].
pub struct ExtractionView {
    pub schema_name: Seq<char>,
    pub selector: Seq<char>,
    pub fields: Seq<(Seq<char>, Seq<char>, Seq<char>)>,
    pub live_preview: bool,
    pub extracted_data: Seq<Seq<char>>,
}

impl View for ExtractionPanel {
    type V = ExtractionView;

    open spec fn view(&self) -> ExtractionView {
        ExtractionView {
            schema_name: self.schema_name@,
            selector: self.selector@,
            fields: field_views(self.fields@),
            live_preview: self.live_preview,
            extracted_data: self.extracted_data@.map_values(|s: String| s@),
        }
    }
}

/// The panel after message `m`.
pub open spec fn extraction_after(v: ExtractionView, m: ExtractionMessage) -> ExtractionView {
    match m {
        ExtractionMessage::SchemaNameChanged(t) => ExtractionView { schema_name: t@, ..v },
        ExtractionMessage::SelectorChanged(t) => ExtractionView { selector: t@, ..v },
        ExtractionMessage::AddField => ExtractionView {
            fields: v.fields.push(("field_"@ + decimal(v.fields.len()), Seq::empty(), "text"@)),
            ..v
        },
        ExtractionMessage::RemoveField(i) => if i < v.fields.len() {
            ExtractionView { fields: v.fields.remove(i as int), ..v }
        } else {
            v
        },
        ExtractionMessage::ToggleLivePreview(b) => ExtractionView { live_preview: b, ..v },
        _ => v,
    }
}

impl ExtractionPanel {
    /// One field taking the text of the first heading.
    pub fn new() -> (p: Self)
        ensures
            p@ == (ExtractionView {
                schema_name: Seq::empty(),
                selector: Seq::empty(),
                fields: seq![("title"@, "h1"@, "text"@)],
                live_preview: false,
                extracted_data: Seq::empty(),
            }),
    {
        let p = ExtractionPanel {
            schema_name: String::new(),
            selector: String::new(),
            fields: vec![ExtractionField { name: "title".to_string(), selector: "h1".to_string(), attribute: "text".to_string() }],
            live_preview: false,
            extracted_data: Vec::new(),
        };
        assert(p@.fields =~= seq![("title"@, "h1"@, "text"@)]);
        assert(p@.extracted_data =~= Seq::<Seq<char>>::empty());
        p
    }

    /// The panel's title.
    pub fn title(&self) -> (r: &'static str)
        ensures
            r@ == "Data Extraction"@,
    {
        "Data Extraction"
    }

    /// Apply a message. A new field is named after its position.
    pub fn update(&mut self, message: ExtractionMessage)
        ensures
            final(self)@ == extraction_after(old(self)@, message),
    {
        let ghost f0 = self@.fields;
        match message {
            ExtractionMessage::SchemaNameChanged(name) => {
                self.schema_name = name;
            },
            ExtractionMessage::SelectorChanged(selector) => {
                self.selector = selector;
            },
            ExtractionMessage::AddField => {
                let mut name = "field_".to_string();
                push_decimal(&mut name, self.fields.len() as u128);
                self.fields.push(ExtractionField { name, selector: String::new(), attribute: "text".to_string() });
                assert(self@.fields =~= f0.push(("field_"@ + decimal(f0.len()), Seq::empty(), "text"@)));
            },
            ExtractionMessage::RemoveField(index) => {
                if index < self.fields.len() {
                    self.fields.remove(index);
                    assert(self@.fields =~= f0.remove(index as int));
                }
            },
            ExtractionMessage::SaveSchema => {},
            ExtractionMessage::LoadSchema => {},
            ExtractionMessage::RunExtraction => {},
            ExtractionMessage::ExportData => {},
            ExtractionMessage::ToggleLivePreview(enabled) => {
                self.live_preview = enabled;
            },
        }
    }
}

// ----- network panel -----

/// Messages of the network panel.
#[derive(Debug, Clone)]
pub enum NetworkMessage {
    ToggleProxy(bool),
    ToggleAdBlocker(bool),
    TogglePrivacyMode(bool),
    ProxyPortChanged(u16),
    DnsProviderChanged(String),
    ClearCache,
    ViewNetworkLog,
}

/// State of the network panel.
pub struct NetworkPanel {
    pub proxy_enabled: bool,
    pub adblock_enabled: bool,
    pub privacy_mode: bool,
    pub proxy_port: u16,
    pub dns_provider: String,
}

/// Mathematical value of [`NetworkPanel`].
pub struct NetworkView {
    pub proxy_enabled: bool,
    pub adblock_enabled: bool,
    pub privacy_mode: bool,
    pub proxy_port: u16,
    pub dns_provider: Seq<char>,
}

impl View for NetworkPanel {
    type V = NetworkView;

    open spec fn view(&self) -> NetworkView {
        NetworkView {
            proxy_enabled: self.proxy_enabled,
            adblock_enabled: self.adblock_enabled,
            privacy_mode: self.privacy_mode,
            proxy_port: self.proxy_port,
            dns_provider: self.dns_provider@,
        }
    }
}

/// The panel after message `m`.
pub open spec fn network_after(v: NetworkView, m: NetworkMessage) -> NetworkView {
    match m {
        NetworkMessage::ToggleProxy(b) => NetworkView { proxy_enabled: b, ..v },
        NetworkMessage::ToggleAdBlocker(b) => NetworkView { adblock_enabled: b, ..v },
        NetworkMessage::TogglePrivacyMode(b) => NetworkView { privacy_mode: b, ..v },
        NetworkMessage::ProxyPortChanged(p) => NetworkView { proxy_port: p, ..v },
        NetworkMessage::DnsProviderChanged(d) => NetworkView { dns_provider: d@, ..v },
        NetworkMessage::ClearCache => v,
        NetworkMessage::ViewNetworkLog => v,
    }
}

impl NetworkPanel {
    /// Ad blocker on, proxy on port 8080 but off, automatic DNS.
    pub fn new() -> (p: Self)
        ensures
            p@ == (NetworkView {
                proxy_enabled: false,
                adblock_enabled: true,
                privacy_mode: false,
                proxy_port: 8080,
                dns_provider: "Automatic"@,
            }),
    {
        NetworkPanel {
            proxy_enabled: false,
            adblock_enabled: true,
            privacy_mode: false,
            proxy_port: 8080,
            dns_provider: "Automatic".to_string(),
        }
    }

    /// The message that typing `text` into the proxy port field sends: the
    /// port that the text names, or port 8080 when it names none.
    pub fn port_input_message(text: &str) -> (m: NetworkMessage)
        ensures
            m == NetworkMessage::ProxyPortChanged(
                match parsed_u16(text@) {
                    Some(p) => p,
                    None => 8080u16,
                },
            ),
    {
        match parse_u16(text) {
            Some(port) => NetworkMessage::ProxyPortChanged(port),
            None => NetworkMessage::ProxyPortChanged(8080),
        }
    }

    /// The panel's title.
    pub fn title(&self) -> (r: &'static str)
        ensures
            r@ == "Network Tools"@,
    {
        "Network Tools"
    }

    /// Apply a message.
    pub fn update(&mut self, message: NetworkMessage)
        ensures
            final(self)@ == network_after(old(self)@, message),
    {
        match message {
            NetworkMessage::ToggleProxy(enabled) => {
                self.proxy_enabled = enabled;
            },
            NetworkMessage::ToggleAdBlocker(enabled) => {
                self.adblock_enabled = enabled;
            },
            NetworkMessage::TogglePrivacyMode(enabled) => {
                self.privacy_mode = enabled;
            },
            NetworkMessage::ProxyPortChanged(port) => {
                self.proxy_port = port;
            },
            NetworkMessage::DnsProviderChanged(provider) => {
                self.dns_provider = provider;
            },
            NetworkMessage::ClearCache => {},
            NetworkMessage::ViewNetworkLog => {},
        }
    }
}

// ----- settings panel -----

/// IEEE-754 bit pattern of 100.0, the default zoom percentage.
pub const ZOOM_HUNDRED_BITS: u32 = 0x42c80000;

/// Messages of the settings panel. The zoom level is carried as the bit
/// pattern of a 32-bit float.
#[derive(Debug, Clone, Copy, PartialEq, Eq, Structural)]
pub enum SettingsMessage {
    ToggleTheme,
    ThemeModeChanged(ThemeMode),
    ZoomChanged(u32),
    ToggleHardwareAcceleration(bool),
    ToggleNotifications(bool),
    ClearData,
    ExportSettings,
    ImportSettings,
}

/// State of the settings panel.
#[derive(Debug, Clone, Copy, PartialEq, Eq, Structural)]
pub struct SettingsPanel {
    pub theme_mode: ThemeMode,
    /// Zoom percentage, as the bit pattern of a 32-bit float.
    pub zoom_level_bits: u32,
    pub hardware_acceleration: bool,
    pub notifications: bool,
}

/// The mode that the settings toggle switches to.
pub open spec fn settings_toggle(m: ThemeMode) -> ThemeMode {
    match m {
        ThemeMode::Light => ThemeMode::Dark,
        ThemeMode::Dark => ThemeMode::Light,
        ThemeMode::HighContrast => ThemeMode::Light,
        ThemeMode::Auto => ThemeMode::Dark,
    }
}

/// The panel after message `m`.
pub open spec fn settings_after(p: SettingsPanel, m: SettingsMessage) -> SettingsPanel {
    match m {
        SettingsMessage::ToggleTheme => SettingsPanel { theme_mode: settings_toggle(p.theme_mode), ..p },
        SettingsMessage::ThemeModeChanged(m) => SettingsPanel { theme_mode: m, ..p },
        SettingsMessage::ZoomChanged(z) => SettingsPanel { zoom_level_bits: z, ..p },
        SettingsMessage::ToggleHardwareAcceleration(b) => SettingsPanel { hardware_acceleration: b, ..p },
        SettingsMessage::ToggleNotifications(b) => SettingsPanel { notifications: b, ..p },
        _ => p,
    }
}

impl SettingsPanel {
    /// Dark mode, 100 % zoom, acceleration and notifications on.
    pub fn new() -> (p: Self)
        ensures
            p == (SettingsPanel {
                theme_mode: ThemeMode::Dark,
                zoom_level_bits: ZOOM_HUNDRED_BITS,
                hardware_acceleration: true,
                notifications: true,
            }),
    {
        SettingsPanel { theme_mode: ThemeMode::Dark, zoom_level_bits: ZOOM_HUNDRED_BITS, hardware_acceleration: true, notifications: true }
    }

    /// The panel's title.
    pub fn title(&self) -> (r: &'static str)
        ensures
            r@ == "Settings"@,
    {
        "Settings"
    }

    /// The theme menu's entries, in the order it lists them.
    pub fn theme_options() -> (r: Vec<ThemeMode>)
        ensures
            r@ == seq![ThemeMode::Light, ThemeMode::Dark, ThemeMode::HighContrast, ThemeMode::Auto],
    {
        let r = vec![ThemeMode::Light, ThemeMode::Dark, ThemeMode::HighContrast, ThemeMode::Auto];
        assert(r@ =~= seq![ThemeMode::Light, ThemeMode::Dark, ThemeMode::HighContrast, ThemeMode::Auto]);
        r
    }

    /// The message sent when the theme menu entry `name` is picked.
    pub fn theme_choice_message(name: &str) -> (m: SettingsMessage)
        ensures
            m == SettingsMessage::ThemeModeChanged(mode_named(name@)),
    {
        SettingsMessage::ThemeModeChanged(ThemeMode::from_display_name(name))
    }

    /// Apply a message.
    pub fn update(&mut self, message: SettingsMessage)
        ensures
            *final(self) == settings_after(*old(self), message),
    {
        match message {
            SettingsMessage::ToggleTheme => {
                self.theme_mode = match self.theme_mode {
                    ThemeMode::Light => ThemeMode::Dark,
                    ThemeMode::Dark => ThemeMode::Light,
                    ThemeMode::HighContrast => ThemeMode::Light,
                    ThemeMode::Auto => ThemeMode::Dark,
                };
            },
            SettingsMessage::ThemeModeChanged(mode) => {
                self.theme_mode = mode;
            },
            SettingsMessage::ZoomChanged(zoom) => {
                self.zoom_level_bits = zoom;
            },
            SettingsMessage::ToggleHardwareAcceleration(enabled) => {
                self.hardware_acceleration = enabled;
            },
            SettingsMessage::ToggleNotifications(enabled) => {
                self.notifications = enabled;
            },
            SettingsMessage::ClearData => {},
            SettingsMessage::ExportSettings => {},
            SettingsMessage::ImportSettings => {},
        }
    }
}

// ----- sidebar -----

/// Messages of the sidebar.
#[derive(Debug, Clone, Copy, PartialEq, Eq, Structural)]
pub enum SidebarMessage {
    CategorySelected(ToolCategory),
    TogglePanel,
}

/// State of the sidebar: the categories it lists, whether it is expanded
/// and which category is selected.
pub struct Sidebar {
    pub categories: Vec<ToolCategory>,
    pub expanded: bool,
    pub selected: ToolCategory,
}

/// All categories, in sidebar order.
pub open spec fn all_categories() -> Seq<ToolCategory> {
    seq![
        ToolCategory::Network,
        ToolCategory::AiEngine,
        ToolCategory::Automation,
        ToolCategory::Extraction,
        ToolCategory::DevTools,
        ToolCategory::Settings,
    ]
}

/// The sidebar after message `m`.
pub open spec fn sidebar_after(s: Sidebar, m: SidebarMessage) -> Sidebar {
    match m {
        SidebarMessage::CategorySelected(c) => Sidebar { selected: c, ..s },
        SidebarMessage::TogglePanel => Sidebar { expanded: !s.expanded, ..s },
    }
}

impl Sidebar {
    /// A sidebar listing every category.
    pub fn new(expanded: bool, selected: ToolCategory) -> (s: Self)
        ensures
            s.categories@ == all_categories(),
            s.expanded == expanded,
            s.selected == selected,
    {
        let s = Sidebar {
            categories: vec![
                ToolCategory::Network,
                ToolCategory::AiEngine,
                ToolCategory::Automation,
                ToolCategory::Extraction,
                ToolCategory::DevTools,
                ToolCategory::Settings,
            ],
            expanded,
            selected,
        };
        assert(s.categories@ =~= all_categories());
        s
    }

    /// Apply a message.
    pub fn update(&mut self, message: SidebarMessage)
        ensures
            *final(self) == sidebar_after(*old(self), message),
    {
        match message {
            SidebarMessage::CategorySelected(category) => {
                self.selected = category;
            },
            SidebarMessage::TogglePanel => {
                self.expanded = !self.expanded;
            },
        }
    }

    /// Whether the sidebar is expanded.
    pub fn is_expanded(&self) -> (r: bool)
        ensures
            r == self.expanded,
    {
        self.expanded
    }

    /// The selected category.
    pub fn selected(&self) -> (r: ToolCategory)
        ensures
            r == self.selected,
    {
        self.selected
    }

    /// The arrow on the button that folds or unfolds the sidebar: pointing
    /// left while expanded, right while collapsed.
    pub fn toggle_glyph(&self) -> (r: &'static str)
        ensures
            r@ == if self.expanded { "\u{25c0}"@ } else { "\u{25b6}"@ },
    {
        if self.expanded { "\u{25c0}" } else { "\u{25b6}" }
    }

    /// The text beside a category's icon: its name between two spaces while
    /// expanded, nothing while collapsed.
    pub fn category_label(&self, category: ToolCategory) -> (r: String)
        ensures
            r@ == if self.expanded { " "@ + category_name(category) + " "@ } else { Seq::empty() },
    {
        let mut r = String::new();
        if self.expanded {
            r.append(" ");
            r.append(category.name());
            r.append(" ");
        }
        r
    }

    /// The look of a category's button: primary for the selected one,
    /// secondary for the others.
    pub fn category_style(&self, category: ToolCategory) -> (r: ButtonStyle)
        ensures
            r == if category == self.selected { ButtonStyle::Primary } else { ButtonStyle::Secondary },
    {
        if category == self.selected { ButtonStyle::Primary } else { ButtonStyle::Secondary }
    }

    /// Width in pixels: 160 expanded, 50 collapsed.
    pub fn width(&self) -> (r: u16)
        ensures
            r == if self.expanded { 160u16 } else { 50u16 },
    {
        if self.expanded { 160 } else { 50 }
    }
}

} // verus!
