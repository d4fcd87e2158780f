use vstd::prelude::*;
use crate::json::{JsonModel, get_member, int_member, json_model, json_text_model, parse_json, read_int_member, str_member, value_as_array, value_as_str};
use crate::text::same_text;
use crate::visibility::{TickerVisibility, WindowState, spec_visibility, visibility_for_monitor};

verus! {

/// The reading of an active-window report: fullscreen when the reported
/// fullscreen mode is positive, on the reported monitor.
pub open spec fn spec_window_state(fullscreen: Option<i64>, monitor: Option<i64>) -> WindowState {
    WindowState {
        fullscreen: match fullscreen {
            Some(f) => f > 0,
            None => false,
        },
        monitor_id: monitor,
    }
}

/// What an active-window query tells, given whether it exited successfully
/// and what it printed. Any failure reads as "nothing is fullscreen".
pub open spec fn spec_probe(success: bool, out: Seq<u8>) -> WindowState {
    if !success {
        WindowState { fullscreen: false, monitor_id: None }
    } else {
        match json_text_model(out) {
            Some(m) => spec_window_state(int_member(m, "fullscreen"@), int_member(m, "monitor"@)),
            None => WindowState { fullscreen: false, monitor_id: None },
        }
    }
}

/// Builds the window state from the two fields of an active-window report.
pub fn window_state_of(fullscreen: Option<i64>, monitor: Option<i64>) -> (r: WindowState)
    ensures
        r == spec_window_state(fullscreen, monitor),
{
    let is_fullscreen = match fullscreen {
        Some(f) => f > 0,
        None => false,
    };
    WindowState { fullscreen: is_fullscreen, monitor_id: monitor }
}

/// Reads the output of an active-window query (`hyprctl activewindow -j`).
pub fn probe_window_state(success: bool, stdout: &[u8]) -> (r: WindowState)
    ensures
        r == spec_probe(success, stdout@),
{
    if !success {
        return WindowState::unknown();
    }
    match parse_json(stdout) {
        Some(v) => window_state_of(
            read_int_member(&v, "fullscreen"),
            read_int_member(&v, "monitor"),
        ),
        None => WindowState::unknown(),
    }
}

/// The monitor of the focused window, from an active-window query.
pub fn get_active_monitor_id(success: bool, stdout: &[u8]) -> (r: Option<i64>)
    ensures
        r == spec_probe(success, stdout@).monitor_id,
{
    probe_window_state(success, stdout).monitor_id
}

/// Whether an active-window query shows a fullscreen window on `target_id`.
pub fn is_fullscreen_on_monitor(success: bool, stdout: &[u8], target_id: i64) -> (r: bool)
    ensures
        r == (spec_visibility(spec_probe(success, stdout@), target_id)
            == TickerVisibility::Hidden),
{
    let state = probe_window_state(success, stdout);
    visibility_for_monitor(&state, target_id) == TickerVisibility::Hidden
}

/// One record of the monitor inventory: its name and numeric id, as far as
/// the record carries them.
pub struct MonitorRecord {
    pub name: Option<String>,
    pub id: Option<i64>,
}

impl View for MonitorRecord {
    type V = (Option<Seq<char>>, Option<i64>);

    open spec fn view(&self) -> (Option<Seq<char>>, Option<i64>) {
        (
            match self.name {
                Some(s) => Some(s@),
                None => None,
            },
            self.id,
        )
    }
}

/// The id of the first record named `name`; `None` when there is none, or
/// when that record has no integer id.
pub open spec fn first_monitor_id(records: Seq<(Option<Seq<char>>, Option<i64>)>, name: Seq<char>) -> Option<i64>
    decreases records.len(),
{
    if records.len() == 0 {
        None
    } else if records[0].0 == Some(name) {
        records[0].1
    } else {
        first_monitor_id(records.drop_first(), name)
    }
}

/// The record that an inventory entry yields.
pub open spec fn record_of(m: JsonModel) -> (Option<Seq<char>>, Option<i64>) {
    (str_member(m, "name"@), int_member(m, "id"@))
}

/// What a monitor inventory query (`hyprctl monitors -j`) gives for `name`.
pub open spec fn spec_monitor_id(success: bool, out: Seq<u8>, name: Seq<char>) -> Option<i64> {
    if !success {
        None
    } else {
        match json_text_model(out) {
            Some(JsonModel::Array(items)) => first_monitor_id(items.map_values(|m| record_of(m)), name),
            _ => None,
        }
    }
}

/// Finds the id of the first record whose name is exactly `name`.
pub fn find_monitor_id(records: &Vec<MonitorRecord>, name: &str) -> (r: Option<i64>)
    ensures
        r == first_monitor_id(records@.map_values(|m: MonitorRecord| m@), name@),
{
    let ghost all = records@.map_values(|m: MonitorRecord| m@);
    let mut i: usize = 0;
    assert(all.subrange(0, all.len() as int) =~= all);
    while i < records.len()
        invariant
            i <= records@.len(),
            all == records@.map_values(|m: MonitorRecord| m@),
            first_monitor_id(all, name@) == first_monitor_id(all.subrange(i as int, all.len() as int), name@),
        decreases records@.len() - i,
    {
        let rec = &records[i];
        let rest = Ghost(all.subrange(i as int, all.len() as int));
        assert(rest@[0] == rec@);
        assert(rest@.drop_first() =~= all.subrange(i + 1, all.len() as int));
        match &rec.name {
            Some(n) => {
                if same_text(n.as_str(), name) {
                    return rec.id;
                }
            },
            None => {},
        }
        i = i + 1;
    }
    assert(all.subrange(i as int, all.len() as int).len() == 0);
    None
}

/// Reads the output of a monitor inventory query and finds the id of the
/// monitor named `name`. Any failure gives `None`.
pub fn get_monitor_id(success: bool, stdout: &[u8], name: &str) -> (r: Option<i64>)
    ensures
        r == spec_monitor_id(success, stdout@, name@),
{
    if !success {
        return None;
    }
    let doc = match parse_json(stdout) {
        Some(v) => v,
        None => return None,
    };
    let items = match value_as_array(&doc) {
        Some(a) => a,
        None => return None,
    };
    let ghost models = match json_model(doc) {
        JsonModel::Array(s) => s,
        _ => Seq::empty(),
    };
    let mut records: Vec<MonitorRecord> = Vec::new();
    let mut i: usize = 0;
    while i < items.len()
        invariant
            i <= items@.len(),
            items@.len() == models.len(),
            forall|k: int| 0 <= k < models.len() ==> json_model(#[trigger] items@[k]) == models[k],
            records@.len() == i,
            forall|k: int| 0 <= k < i ==> (#[trigger] records@[k])@ == record_of(models[k]),
        decreases items@.len() - i,
    {
        let item = &items[i];
        let name_field = match get_member(item, "name") {
            Some(x) => match value_as_str(x) {
                Some(s) => Some(s.to_owned()),
                None => None,
            },
            None => None,
        };
        let id_field = read_int_member(item, "id");
        records.push(MonitorRecord { name: name_field, id: id_field });
        i = i + 1;
    }
    assert(records@.map_values(|m: MonitorRecord| m@) =~= models.map_values(|m| record_of(m)));
    find_monitor_id(&records, name)
}

} // verus!
