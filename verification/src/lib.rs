//! Scarab client library.
pub mod text;
pub mod rate_limiter;
pub mod plugin_registry;
pub mod navigation;
pub mod events;
pub mod focusable;
pub mod plugin_host;
pub mod diagnostics;
pub mod marketplace;
pub mod input;
pub mod context_menu;
pub mod daemon_events;
pub mod grid;
pub mod accessibility;
pub mod ipc;
pub mod copy_mode;
pub mod nav_metrics;
pub mod inspector;
pub mod graphics;
pub mod bench;
