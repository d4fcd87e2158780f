use vstd::prelude::*;

verus! {

/// Visibility state for the ticker window.
#[derive(Clone, Copy, Debug, PartialEq, Eq, Structural)]
pub enum TickerVisibility {
    Visible,
    Hidden,
}

/// What one query of the focused window reported: whether it is fullscreen,
/// and the monitor that hosts it, if known.
#[derive(Clone, Copy, Debug, PartialEq, Eq, Structural)]
pub struct WindowState {
    pub fullscreen: bool,
    pub monitor_id: Option<i64>,
}

/// The target monitor is hidden exactly when the focused window is
/// fullscreen and sits on that monitor.
pub open spec fn spec_visibility(state: WindowState, target: i64) -> TickerVisibility {
    if state.fullscreen && state.monitor_id == Some(target) {
        TickerVisibility::Hidden
    } else {
        TickerVisibility::Visible
    }
}

impl WindowState {
    /// The conservative reading used when a query fails: nothing is fullscreen.
    pub fn unknown() -> (r: WindowState)
        ensures
            r == (WindowState { fullscreen: false, monitor_id: None }),
    {
        WindowState { fullscreen: false, monitor_id: None }
    }
}

/// Visibility of the ticker on `target` given a probe of the focused window.
pub fn visibility_for_monitor(state: &WindowState, target: i64) -> (r: TickerVisibility)
    ensures
        r == spec_visibility(*state, target),
        r == TickerVisibility::Hidden <==> (state.fullscreen && state.monitor_id == Some(target)),
{
    let on_target = match state.monitor_id {
        Some(m) => m == target,
        None => false,
    };
    if state.fullscreen && on_target {
        TickerVisibility::Hidden
    } else {
        TickerVisibility::Visible
    }
}

} // verus!
