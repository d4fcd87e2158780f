use vstd::prelude::*;
use vstd::string::*;
use crate::text::{ends_with_char, is_prefix, starts_with_text};
use crate::visibility::{TickerVisibility, WindowState, spec_visibility, visibility_for_monitor};

verus! {

/// A line of the event socket, decoded as far as the watcher cares.
#[derive(Clone, Copy, Debug, PartialEq, Eq, Structural)]
pub enum HyprEvent {
    /// `fullscreen>>...`: whether the line ends in `1`.
    FullscreenChanged(bool),
    /// `activewindow>>...`
    ActiveWindowChanged,
    /// `focusedmon>>...`
    FocusedMonitorChanged,
    /// Any other line.
    Unrecognized,
}

/// Decoding of one event line, by its prefix.
pub open spec fn spec_parse_event(line: Seq<char>) -> HyprEvent {
    if is_prefix("fullscreen>>"@, line) {
        HyprEvent::FullscreenChanged(line.len() > 0 && line.last() == '1')
    } else if is_prefix("activewindow>>"@, line) {
        HyprEvent::ActiveWindowChanged
    } else if is_prefix("focusedmon>>"@, line) {
        HyprEvent::FocusedMonitorChanged
    } else {
        HyprEvent::Unrecognized
    }
}

/// Whether reacting to the event takes a fresh active-window query.
pub open spec fn spec_needs_probe(ev: HyprEvent) -> bool {
    match ev {
        HyprEvent::FullscreenChanged(on) => on,
        HyprEvent::ActiveWindowChanged => true,
        HyprEvent::FocusedMonitorChanged => true,
        HyprEvent::Unrecognized => false,
    }
}

/// What the watcher emits for an event, given a fresh probe where one is
/// needed. Fullscreen entered elsewhere than on the target emits nothing;
/// fullscreen left always shows the ticker.
pub open spec fn spec_emission(ev: HyprEvent, probe: WindowState, target: i64) -> Option<TickerVisibility> {
    match ev {
        HyprEvent::FullscreenChanged(on) => if !on {
            Some(TickerVisibility::Visible)
        } else if probe.monitor_id == Some(target) {
            Some(TickerVisibility::Hidden)
        } else {
            None
        },
        HyprEvent::ActiveWindowChanged => Some(spec_visibility(probe, target)),
        HyprEvent::FocusedMonitorChanged => Some(spec_visibility(probe, target)),
        HyprEvent::Unrecognized => None,
    }
}

/// Decodes one line of the event socket.
pub fn parse_event_line(line: &str) -> (r: HyprEvent)
    ensures
        r == spec_parse_event(line@),
{
    if starts_with_text(line, "fullscreen>>") {
        HyprEvent::FullscreenChanged(ends_with_char(line, '1'))
    } else if starts_with_text(line, "activewindow>>") {
        HyprEvent::ActiveWindowChanged
    } else if starts_with_text(line, "focusedmon>>") {
        HyprEvent::FocusedMonitorChanged
    } else {
        HyprEvent::Unrecognized
    }
}

/// Whether the event calls for an active-window query before
/// `emission_for_event` can answer.
pub fn event_needs_probe(ev: HyprEvent) -> (r: bool)
    ensures
        r == spec_needs_probe(ev),
{
    match ev {
        HyprEvent::FullscreenChanged(on) => on,
        HyprEvent::ActiveWindowChanged => true,
        HyprEvent::FocusedMonitorChanged => true,
        HyprEvent::Unrecognized => false,
    }
}

/// The visibility to emit for an event, if any. `probe` is read only when
/// `event_needs_probe(ev)` holds.
pub fn emission_for_event(ev: HyprEvent, probe: &WindowState, target: i64) -> (r: Option<
    TickerVisibility,
>)
    ensures
        r == spec_emission(ev, *probe, target),
{
    match ev {
        HyprEvent::FullscreenChanged(on) => {
            if !on {
                Some(TickerVisibility::Visible)
            } else {
                match probe.monitor_id {
                    Some(m) => if m == target {
                        Some(TickerVisibility::Hidden)
                    } else {
                        None
                    },
                    None => None,
                }
            }
        },
        HyprEvent::ActiveWindowChanged => Some(visibility_for_monitor(probe, target)),
        HyprEvent::FocusedMonitorChanged => Some(visibility_for_monitor(probe, target)),
        HyprEvent::Unrecognized => None,
    }
}

/// Decodes a line and gives the visibility to emit for it.
pub fn handle_line(line: &str, probe: &WindowState, target: i64) -> (r: Option<TickerVisibility>)
    ensures
        r == spec_emission(spec_parse_event(line@), *probe, target),
{
    let ev = parse_event_line(line);
    emission_for_event(ev, probe, target)
}

/// An event that needs no query emits the same whatever probe stands beside it.
pub proof fn lemma_probe_unread_when_not_needed(ev: HyprEvent, p1: WindowState, p2: WindowState, target: i64)
    requires
        !spec_needs_probe(ev),
    ensures
        spec_emission(ev, p1, target) == spec_emission(ev, p2, target),
{
}

/// How lines are answered: `activewindow>>` and `focusedmon>>` lines give
/// the probe's visibility whatever their payload; `fullscreen>>0` gives
/// `Visible` whatever the probe; `fullscreen>>1` gives `Hidden` when the
/// focused window is on the target and nothing otherwise; other lines, such
/// as `workspace>>3`, give nothing.
pub proof fn lemma_line_reactions(payload: Seq<char>, probe: WindowState, target: i64)
    ensures
        spec_emission(spec_parse_event("activewindow>>"@ + payload), probe, target) == Some(
            spec_visibility(probe, target),
        ),
        spec_emission(spec_parse_event("focusedmon>>"@ + payload), probe, target) == Some(
            spec_visibility(probe, target),
        ),
        spec_emission(spec_parse_event("fullscreen>>0"@), probe, target) == Some(
            TickerVisibility::Visible,
        ),
        spec_emission(spec_parse_event("fullscreen>>1"@), probe, target) == (if probe.monitor_id
            == Some(target) {
            Some(TickerVisibility::Hidden)
        } else {
            None
        }),
        spec_emission(spec_parse_event("workspace>>3"@), probe, target).is_none(),
{
    reveal_strlit("fullscreen>>");
    reveal_strlit("activewindow>>");
    reveal_strlit("focusedmon>>");
    reveal_strlit("fullscreen>>0");
    reveal_strlit("fullscreen>>1");
    reveal_strlit("workspace>>3");
    let aw = "activewindow>>"@ + payload;
    let fm = "focusedmon>>"@ + payload;
    assert(aw.subrange(0, 14) =~= "activewindow>>"@);
    assert(aw[0] == 'a');
    assert(!is_prefix("fullscreen>>"@, aw)) by {
        if aw.len() >= 12 {
            assert(aw.subrange(0, 12)[0] != "fullscreen>>"@[0]);
        }
    }
    assert(fm.subrange(0, 12) =~= "focusedmon>>"@);
    assert(!is_prefix("fullscreen>>"@, fm)) by {
        assert(fm.subrange(0, 12)[1] != "fullscreen>>"@[1]);
    }
    assert(!is_prefix("activewindow>>"@, fm)) by {
        if fm.len() >= 14 {
            assert(fm.subrange(0, 14)[0] != "activewindow>>"@[0]);
        }
    }
    assert("fullscreen>>0"@.subrange(0, 12) =~= "fullscreen>>"@);
    assert("fullscreen>>1"@.subrange(0, 12) =~= "fullscreen>>"@);
    let ws = "workspace>>3"@;
    assert(!is_prefix("fullscreen>>"@, ws)) by {
        assert(ws.subrange(0, 12)[0] != "fullscreen>>"@[0]);
    }
    assert(!is_prefix("activewindow>>"@, ws));
    assert(!is_prefix("focusedmon>>"@, ws)) by {
        assert(ws.subrange(0, 12)[0] != "focusedmon>>"@[0]);
    }
}

/// The path of the event socket: `<runtime>/hypr/<signature>/.socket2.sock`.
pub open spec fn spec_socket_path(signature: Seq<char>, runtime: Seq<char>) -> Seq<char> {
    runtime + "/hypr/"@ + signature + "/.socket2.sock"@
}

/// The event socket's path from the instance signature and the runtime
/// directory; `None` when either is missing.
pub fn get_event_socket_path(signature: Option<&str>, runtime: Option<&str>) -> (r: Option<String>)
    ensures
        match (signature, runtime) {
            (Some(s), Some(d)) => r.is_some() && r.unwrap()@ == spec_socket_path(s@, d@),
            _ => r.is_none(),
        },
{
    let sig = match signature {
        Some(s) => s,
        None => return None,
    };
    let dir = match runtime {
        Some(d) => d,
        None => return None,
    };
    let mut path = String::from_str(dir);
    path.append("/hypr/");
    path.append(sig);
    path.append("/.socket2.sock");
    Some(path)
}

} // verus!
