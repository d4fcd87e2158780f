//! Fullscreen detection for a Hyprland output: decides whether a ticker
//! overlay shown on one monitor should be visible or hidden.
//!
//! The library holds the decisions: reading the window manager's JSON
//! replies, decoding event-socket lines, and the reconciliation loop as a
//! state machine. Running queries, reading the socket and sleeping are left
//! to the caller.

pub mod events;
pub mod json;
pub mod probe;
pub mod text;
pub mod visibility;
pub mod watcher;

pub use events::{
    HyprEvent, emission_for_event, event_needs_probe, get_event_socket_path, handle_line,
    parse_event_line,
};
pub use probe::{
    MonitorRecord, find_monitor_id, get_active_monitor_id, get_monitor_id,
    is_fullscreen_on_monitor, probe_window_state, window_state_of,
};
pub use visibility::{TickerVisibility, WindowState, visibility_for_monitor};
pub use watcher::{RETRY_DELAY_SECS, WatchAction, WatchEvent, WatchPhase, WatchStep};
