//! Application settings.

use vstd::prelude::*;

verus! {

/// Position and size of the main window.
#[derive(Debug, Clone)]
pub struct WindowPosition {
    pub x: i32,
    pub y: i32,
    pub width: u32,
    pub height: u32,
}

/// Minutes by which a reminder is snoozed where nothing else is chosen.
pub const DEFAULT_SNOOZE_INTERVAL: i32 = 5;

/// The settings of the application.
#[derive(Debug, Clone)]
pub struct AppSettings {
    pub serverchan_domain: Option<String>,
    pub serverchan_sendkey: Option<String>,
    pub auto_start: bool,
    pub default_snooze_interval: i32,
    pub window_position: Option<WindowPosition>,
}

impl Default for AppSettings {
    fn default() -> (r: Self)
        ensures
            r.serverchan_domain is None,
            r.serverchan_sendkey is None,
            !r.auto_start,
            r.default_snooze_interval == DEFAULT_SNOOZE_INTERVAL,
            r.window_position is None,
    {
        AppSettings {
            serverchan_domain: None,
            serverchan_sendkey: None,
            auto_start: false,
            default_snooze_interval: DEFAULT_SNOOZE_INTERVAL,
            window_position: None,
        }
    }
}

} // verus!
