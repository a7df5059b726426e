use vstd::prelude::*;
use vstd::string::StringExecFns;
use crate::app::AppState;
use crate::types::{EFFECT_KINDS, EFFECT_KIND_COUNT, effect_kind_at};

verus! {

/// One line of a list on screen: its text, and whether it is drawn highlighted.
#[derive(Debug)]
pub struct ListLine {
    pub text: String,
    pub highlighted: bool,
}

/// The text of a list entry: `"> "` before a selected entry, two spaces before the others.
pub open spec fn marked(text: Seq<char>, selected: bool) -> Seq<char> {
    if selected {
        "> "@ + text
    } else {
        "  "@ + text
    }
}

/// The text of a device entry: its name, with `" (default)"` after the default device.
pub open spec fn device_label(name: Seq<char>, is_default: bool) -> Seq<char> {
    if is_default {
        name + " (default)"@
    } else {
        name
    }
}

/// A list entry, marked and highlighted when selected.
pub fn selected_item(text: &str, selected: bool) -> (r: ListLine)
    ensures
        r.text@ == marked(text@, selected),
        r.highlighted == selected,
{
    let mut line = if selected {
        <String as StringExecFns>::from_str("> ")
    } else {
        <String as StringExecFns>::from_str("  ")
    };
    line.append(text);
    ListLine { text: line, highlighted: selected }
}

/// What the device screen shows.
pub struct DeviceScreen {
    pub title: &'static str,
    pub items: Vec<ListLine>,
}

/// The device list screen, for the inputs when `input` holds and the outputs otherwise:
/// each device by name, the default one marked, the selected one highlighted; a notice
/// when there is no device.
pub fn device_select_view(
    state: &AppState,
    input: bool,
    input_names: &Vec<String>,
    output_names: &Vec<String>,
) -> (r: DeviceScreen)
    ensures
        r.title == (if input { "Select Input Device" } else { "Select Output Device" }),
        ({
            let names = if input { input_names@ } else { output_names@ };
            let selected = if input { state.selected_input } else { state.selected_output };
            let default = if input { state.default_input } else { state.default_output };
            &&& names.len() == 0 ==> r.items@.len() == 1 && r.items@[0].text@ == "No devices found"@
                && !r.items@[0].highlighted
            &&& names.len() > 0 ==> r.items@.len() == names.len() && forall|i: int|
                0 <= i < names.len() ==> {
                    &&& #[trigger] r.items@[i].text@ == marked(
                        device_label(names[i]@, default == Some(i as usize)),
                        i == selected,
                    )
                    &&& r.items@[i].highlighted == (i == selected)
                }
        }),
{
    let title = if input { "Select Input Device" } else { "Select Output Device" };
    let names = if input { input_names } else { output_names };
    let selected = if input { state.selected_input } else { state.selected_output };
    let default = if input { state.default_input } else { state.default_output };
    let mut items: Vec<ListLine> = Vec::new();
    if names.len() == 0 {
        items.push(ListLine { text: <String as StringExecFns>::from_str("No devices found"), highlighted: false });
        return DeviceScreen { title, items };
    }
    let mut i: usize = 0;
    while i < names.len()
        invariant
            i <= names@.len(),
            items@.len() == i,
            forall|j: int|
                0 <= j < i ==> {
                    &&& (#[trigger] items@[j]).text@ == marked(
                        device_label(names@[j]@, default == Some(j as usize)),
                        j == selected,
                    )
                    &&& items@[j].highlighted == (j == selected)
                },
            names@ == (if input { input_names@ } else { output_names@ }),
            selected == (if input { state.selected_input } else { state.selected_output }),
            default == (if input { state.default_input } else { state.default_output }),
        decreases names@.len() - i,
    {
        let mut label = names[i].clone();
        let is_default = match default {
            Some(d) => d == i,
            None => false,
        };
        if is_default {
            label.append(" (default)");
        }
        items.push(selected_item(label.as_str(), i == selected));
        i = i + 1;
    }
    DeviceScreen { title, items }
}

/// The effect list of the pedalboard: each effect by name, the selected one highlighted; a
/// hint when the chain is empty.
pub fn effect_list_view(state: &AppState, names: &Vec<&str>) -> (r: Vec<ListLine>)
    ensures
        names@.len() == 0 ==> r@.len() == 1 && r@[0].text@ == "No effects. Press a to add one."@
            && !r@[0].highlighted,
        names@.len() > 0 ==> r@.len() == names@.len() && forall|i: int|
            0 <= i < names@.len() ==> {
                &&& #[trigger] r@[i].text@ == marked(names@[i]@, i == state.selected_effect)
                &&& r@[i].highlighted == (i == state.selected_effect)
            },
{
    let mut items: Vec<ListLine> = Vec::new();
    if names.len() == 0 {
        items.push(ListLine {
            text: <String as StringExecFns>::from_str("No effects. Press a to add one."),
            highlighted: false,
        });
        return items;
    }
    let mut i: usize = 0;
    while i < names.len()
        invariant
            i <= names@.len(),
            items@.len() == i,
            forall|j: int|
                0 <= j < i ==> {
                    &&& (#[trigger] items@[j]).text@ == marked(names@[j]@, j == state.selected_effect)
                    &&& items@[j].highlighted == (j == state.selected_effect)
                },
        decreases names@.len() - i,
    {
        items.push(selected_item(names[i], i == state.selected_effect));
        i = i + 1;
    }
    items
}

/// The "add effect" dialog: every kind of effect by name, the selected one highlighted.
pub fn add_effect_view(state: &AppState) -> (r: Vec<ListLine>)
    ensures
        r@.len() == EFFECT_KIND_COUNT,
        forall|i: int|
            0 <= i < EFFECT_KIND_COUNT ==> {
                &&& #[trigger] r@[i].text@ == marked(EFFECT_KINDS[i]@, i == state.selected_add_effect)
                &&& r@[i].highlighted == (i == state.selected_add_effect)
            },
{
    let mut items: Vec<ListLine> = Vec::new();
    let mut i: usize = 0;
    while i < EFFECT_KIND_COUNT
        invariant
            i <= EFFECT_KIND_COUNT,
            items@.len() == i,
            forall|j: int|
                0 <= j < i ==> {
                    &&& (#[trigger] items@[j]).text@ == marked(EFFECT_KINDS[j]@, j == state.selected_add_effect)
                    &&& items@[j].highlighted == (j == state.selected_add_effect)
                },
        decreases EFFECT_KIND_COUNT - i,
    {
        let kind = effect_kind_at(i);
        items.push(selected_item(kind.name(), i == state.selected_add_effect));
        i = i + 1;
    }
    items
}

/// The word the pedalboard's status line starts with.
pub fn status_label(running: bool) -> (r: &'static str)
    ensures
        r == (if running { "Playing" } else { "Stopped" }),
{
    if running {
        "Playing"
    } else {
        "Stopped"
    }
}

} // verus!
