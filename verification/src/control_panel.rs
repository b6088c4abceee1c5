use vstd::prelude::*;
use crate::clock::fresh_id;
use crate::text::{decimal, push_decimal};
use crate::theme::ThemeMode;

verus! {

/// Categories of tools in the control panel.
#[derive(Debug, Clone, Copy, PartialEq, Eq, Structural)]
pub enum ToolCategory {
    /// Proxy, ad blocker, DNS.
    Network,
    /// LLM chat, RAG, embeddings.
    AiEngine,
    /// Scripts, commands, macros.
    Automation,
    /// Web-to-API schemas and scraping.
    Extraction,
    /// Inspector and console.
    DevTools,
    /// Browser settings.
    Settings,
}

/// The name shown for a category.
pub open spec fn category_name(c: ToolCategory) -> Seq<char> {
    match c {
        ToolCategory::Network => "Network"@,
        ToolCategory::AiEngine => "AI Engine"@,
        ToolCategory::Automation => "Automation"@,
        ToolCategory::Extraction => "Extraction"@,
        ToolCategory::DevTools => "DevTools"@,
        ToolCategory::Settings => "Settings"@,
    }
}

/// The short label shown for a category.
pub open spec fn category_icon(c: ToolCategory) -> Seq<char> {
    match c {
        ToolCategory::Network => "NET"@,
        ToolCategory::AiEngine => "AI"@,
        ToolCategory::Automation => "AUTO"@,
        ToolCategory::Extraction => "DATA"@,
        ToolCategory::DevTools => "DEV"@,
        ToolCategory::Settings => "SET"@,
    }
}

impl ToolCategory {
    /// The category's name.
    pub fn name(&self) -> (r: &'static str)
        ensures
            r@ == category_name(*self),
    {
        match self {
            ToolCategory::Network => "Network",
            ToolCategory::AiEngine => "AI Engine",
            ToolCategory::Automation => "Automation",
            ToolCategory::Extraction => "Extraction",
            ToolCategory::DevTools => "DevTools",
            ToolCategory::Settings => "Settings",
        }
    }

    /// The category's short label.
    pub fn icon(&self) -> (r: &'static str)
        ensures
            r@ == category_icon(*self),
    {
        match self {
            ToolCategory::Network => "NET",
            ToolCategory::AiEngine => "AI",
            ToolCategory::Automation => "AUTO",
            ToolCategory::Extraction => "DATA",
            ToolCategory::DevTools => "DEV",
            ToolCategory::Settings => "SET",
        }
    }
}

impl Default for ToolCategory {
    fn default() -> (c: Self)
        ensures
            c == ToolCategory::Network,
    {
        ToolCategory::Network
    }
}

/// State of the control panel.
#[derive(Debug, Clone, Copy, PartialEq, Eq, Structural)]
pub struct ControlPanelState {
    /// Whether the panel is expanded.
    pub is_expanded: bool,
    /// The selected category.
    pub selected_category: ToolCategory,
    /// Width of the expanded panel, in pixels.
    pub panel_width: u16,
}

impl Default for ControlPanelState {
    fn default() -> (s: Self)
        ensures
            s == (ControlPanelState { is_expanded: true, selected_category: ToolCategory::Network, panel_width: 350 }),
    {
        ControlPanelState { is_expanded: true, selected_category: ToolCategory::Network, panel_width: 350 }
    }
}

impl ControlPanelState {
    /// Expand a collapsed panel, collapse an expanded one.
    pub fn toggle(&mut self)
        ensures
            *final(self) == (ControlPanelState { is_expanded: !old(self).is_expanded, ..*old(self) }),
    {
        self.is_expanded = !self.is_expanded;
    }

    /// Select a category; the panel expands.
    pub fn select_category(&mut self, category: ToolCategory)
        ensures
            *final(self) == (ControlPanelState { is_expanded: true, selected_category: category, ..*old(self) }),
    {
        self.selected_category = category;
        if !self.is_expanded {
            self.is_expanded = true;
        }
    }
}

// ----- tools -----

/// State of the AI tool.
pub struct AiTool {
    pub model: String,
    pub rag_enabled: bool,
}

impl AiTool {
    /// The default model, without retrieval.
    pub fn new() -> (t: Self)
        ensures
            t.model@ == "default"@,
            !t.rag_enabled,
    {
        AiTool { model: "default".to_string(), rag_enabled: false }
    }

    /// Use another model.
    pub fn select_model(&mut self, model: String)
        ensures
            final(self).model@ == model@,
            final(self).rag_enabled == old(self).rag_enabled,
    {
        self.model = model;
    }

    /// Turn retrieval-augmented generation on or off.
    pub fn toggle_rag(&mut self, enabled: bool)
        ensures
            final(self).rag_enabled == enabled,
            final(self).model@ == old(self).model@,
    {
        self.rag_enabled = enabled;
    }

    /// The model's answer to `prompt`: a fixed text, as no model is attached.
    pub fn send_prompt(&self, _prompt: &str) -> (r: Result<String, String>)
        ensures
            r matches Ok(s) && s@ == "AI response placeholder"@,
    {
        Ok("AI response placeholder".to_string())
    }

    /// The data extracted from the page at `url`: a fixed text, as no model
    /// is attached.
    pub fn extract_page(&self, _url: &str) -> (r: Result<String, String>)
        ensures
            r matches Ok(s) && s@ == "Extracted data placeholder"@,
    {
        Ok("Extracted data placeholder".to_string())
    }
}

impl Default for AiTool {
    fn default() -> (t: Self)
        ensures
            t.model@.len() == 0,
            !t.rag_enabled,
    {
        AiTool { model: String::new(), rag_enabled: false }
    }
}

/// A step of a recorded macro.
#[derive(Debug, Clone)]
pub enum MacroStep {
    Navigate(String),
    Click(String),
    Type { selector: String, text: String },
    Wait(u64),
}

/// A recorded macro.
pub struct Macro {
    pub id: u128,
    pub name: String,
    pub steps: Vec<MacroStep>,
}

/// State of the automation tool.
pub struct AutomationTool {
    pub is_recording: bool,
    pub active_macros: Vec<Macro>,
}

impl AutomationTool {
    /// Not recording, no macros.
    pub fn new() -> (t: Self)
        ensures
            !t.is_recording,
            t.active_macros@.len() == 0,
    {
        AutomationTool { is_recording: false, active_macros: Vec::new() }
    }

    /// Start recording a macro.
    pub fn start_recording(&mut self)
        ensures
            final(self).is_recording,
            final(self).active_macros@ == old(self).active_macros@,
    {
        self.is_recording = true;
    }

    /// Stop recording.
    pub fn stop_recording(&mut self)
        ensures
            !final(self).is_recording,
            final(self).active_macros@ == old(self).active_macros@,
    {
        self.is_recording = false;
    }

    /// Run an automation command; nothing in the tool's state changes.
    pub fn execute_command(&self, _command: &str) {
    }

    /// Run the macro `macro_id`; nothing in the tool's state changes.
    pub fn run_macro(&self, _macro_id: u128) {
    }
}

/// A field of an extraction schema.
pub struct SchemaField {
    pub name: String,
    pub selector: String,
    pub attribute: String,
}

/// An extraction schema.
pub struct ExtractionSchema {
    pub id: u128,
    pub name: String,
    pub base_selector: String,
    pub fields: Vec<SchemaField>,
}

/// Format of exported data.
#[derive(Debug, Clone, Copy, PartialEq, Eq, Structural)]
pub enum ExportFormat {
    Json,
    Csv,
    Xml,
}

/// State of the extraction tool.
pub struct ExtractionTool {
    pub schemas: Vec<ExtractionSchema>,
}

impl ExtractionTool {
    /// No schemas.
    pub fn new() -> (t: Self)
        ensures
            t.schemas@.len() == 0,
    {
        ExtractionTool { schemas: Vec::new() }
    }

    /// Add an empty schema with a fresh identifier; returns the identifier.
    pub fn create_schema(&mut self, name: String, base_selector: String) -> (id: u128)
        ensures
            final(self).schemas@.len() == old(self).schemas@.len() + 1,
            final(self).schemas@.take(old(self).schemas@.len() as int) == old(self).schemas@,
            final(self).schemas@.last().id == id,
            final(self).schemas@.last().name@ == name@,
            final(self).schemas@.last().base_selector@ == base_selector@,
            final(self).schemas@.last().fields@.len() == 0,
    {
        let id = fresh_id();
        let ghost s0 = self.schemas@;
        self.schemas.push(ExtractionSchema { id, name, base_selector, fields: Vec::new() });
        assert(self.schemas@.take(s0.len() as int) =~= s0);
        id
    }

    /// The data that schema `schema_id` extracts from `html`: a fixed text.
    pub fn extract(&self, _schema_id: u128, _html: &str) -> (r: Result<String, String>)
        ensures
            r matches Ok(s) && s@ == "Extracted data"@,
    {
        Ok("Extracted data".to_string())
    }

    /// `data` exported in `format`: a fixed text.
    pub fn export(&self, _data: &str, _format: ExportFormat) -> (r: Result<String, String>)
        ensures
            r matches Ok(s) && s@ == "Exported data"@,
    {
        Ok("Exported data".to_string())
    }
}

/// State of the network tool.
#[derive(Debug, Clone, Copy, PartialEq, Eq, Structural)]
pub struct NetworkTool {
    pub proxy_enabled: bool,
    pub adblock_enabled: bool,
    pub privacy_mode: bool,
}

impl NetworkTool {
    /// Everything off.
    pub fn new() -> (t: Self)
        ensures
            t == (NetworkTool { proxy_enabled: false, adblock_enabled: false, privacy_mode: false }),
    {
        NetworkTool { proxy_enabled: false, adblock_enabled: false, privacy_mode: false }
    }

    /// Turn the intercepting proxy on or off.
    pub fn toggle_proxy(&mut self, enabled: bool)
        ensures
            *final(self) == (NetworkTool { proxy_enabled: enabled, ..*old(self) }),
    {
        self.proxy_enabled = enabled;
    }

    /// Turn the ad blocker on or off.
    pub fn toggle_adblock(&mut self, enabled: bool)
        ensures
            *final(self) == (NetworkTool { adblock_enabled: enabled, ..*old(self) }),
    {
        self.adblock_enabled = enabled;
    }

    /// Turn privacy mode on or off.
    pub fn toggle_privacy(&mut self, enabled: bool)
        ensures
            *final(self) == (NetworkTool { privacy_mode: enabled, ..*old(self) }),
    {
        self.privacy_mode = enabled;
    }

    /// Clear the cache; the tool's own state is unchanged.
    pub fn clear_cache(&mut self)
        ensures
            *final(self) == *old(self),
    {
    }
}

impl Default for NetworkTool {
    fn default() -> (t: Self)
        ensures
            t == (NetworkTool { proxy_enabled: false, adblock_enabled: false, privacy_mode: false }),
    {
        NetworkTool::new()
    }
}

} // verus!
