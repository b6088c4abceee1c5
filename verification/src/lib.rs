//! Verified core of a hybrid web browser: navigation history, sessions,
//! tab and window bookkeeping, input handling, pixel utilities and UI state.

pub mod browser_app;
pub mod browser_session;
pub mod clock;
pub mod control_panel;
pub mod dev_server;
pub mod embeddings;
pub mod focus;
pub mod frame_buffer;
pub mod history;
pub mod hybrid_app;
pub mod input;
pub mod integrated_app;
pub mod input_state;
pub mod keys;
pub mod llm;
pub mod navigation;
pub mod nav_controller;
pub mod panels;
pub mod recent_history;
pub mod pixels;
pub mod platform;
pub mod render;
pub mod servo;
pub mod session;
pub mod session_manager;
pub mod single_window_app;
pub mod tab;
pub mod text;
pub mod theme;
pub mod toolbar;
pub mod two_window_app;
pub mod webview_ipc;
pub mod webview_widget;
pub mod webview_wry;
pub mod window;
pub mod window_layout;
