//! Decision logic, parsers and formatters of the Herdr Night Watch tray app.
pub mod text;
pub mod calendar;
pub mod language;
pub mod clock;
pub mod quota;
pub mod backend;
pub mod window_settings;
pub mod configuration;
pub mod tray;
pub mod live_status;
pub mod power_guard;
pub mod notify;
pub mod window_chrome;
pub mod taskbar;
pub mod media;
pub mod system_metrics;
pub mod tray_history;
pub mod log_viewer;
pub mod weather;
