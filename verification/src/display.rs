//! What the bar shows: the decisions behind its widgets, from the data that
//! the compositor, the configuration and the system hand over. Nothing here
//! draws; the functions say which buttons there are, what they are labelled
//! and what a click on them asks for.

use vstd::prelude::*;
use vstd::string::StringSliceAdditionalSpecFns;
use crate::config::{ThemeColors, ThemeColorsView, ThemeConfig, preset_palette};
use crate::hyprland::client::{Window, WindowView, Workspace, WorkspaceView, workspace_views};
use crate::hyprland::client::window_views;
use crate::order::{arranged, is_sorted_by, key_rows, push_text_key, stable_order, text_key};
use crate::system::audio::{AudioInfo, SourceInfo};
use crate::system::brightness::BrightnessInfo;
use crate::system::connectivity::{BluetoothInfo, BluetoothInfoView, WiFiInfo, WiFiInfoView};
use crate::system::{Command, CommandView, invoke};
use crate::system::media::{
    MediaInfo, MediaInfoView, PlaybackStatus, cut_point, duration_text, format_duration,
    truncate_string, truncated,
};
use crate::tray::{TrayItem, TrayItemView, item_key, item_views};
use vstd::utf8::{encode_utf8, is_char_boundary};
use crate::system::battery::{
    BatteryInfo, BatteryStatus, duration_is_zero, duration_secs, format_time_remaining,
    time_text,
};
use crate::text::{
    append_chars, chars_of, concat_text, find, find_chars, is_text, lemma_filter_next,
    lowercase, lowercase_chars, owned, push_signed_decimal, same_chars, signed_decimal,
    slice_of, starts_with, starts_with_chars, string_of, texts, trim, trim_chars,
};

verus! {

// ---------------------------------------------------------------------------
// Workspaces and the window title
// ---------------------------------------------------------------------------

/// How a workspace button is drawn.
#[derive(Debug, Clone, Copy, PartialEq, Eq, Structural)]
pub enum ButtonState {
    /// The workspace that is shown.
    Active,
    /// A workspace with windows.
    Occupied,
    /// A workspace without windows.
    Plain,
}

/// One button of the workspace switcher.
#[derive(Debug, Clone)]
pub struct WorkspaceButton {
    pub id: i32,
    pub label: String,
    pub state: ButtonState,
}

/// What a workspace button holds.
pub struct WorkspaceButtonView {
    pub id: i32,
    pub label: Seq<char>,
    pub state: ButtonState,
}

impl View for WorkspaceButton {
    type V = WorkspaceButtonView;

    open spec fn view(&self) -> WorkspaceButtonView {
        WorkspaceButtonView { id: self.id, label: self.label@, state: self.state }
    }
}

/// What a list of workspace buttons holds, in order.
pub open spec fn button_views(list: Seq<WorkspaceButton>) -> Seq<WorkspaceButtonView> {
    list.map_values(|b: WorkspaceButton| b@)
}

/// The test that keeps the workspaces that are not special: those whose
/// number is not negative.
pub open spec fn is_ordinary() -> spec_fn(WorkspaceView) -> bool {
    |w: WorkspaceView| w.id >= 0
}

/// The button of a workspace: labelled with its number, drawn as active
/// where it is the workspace shown, else as occupied where it has windows.
pub open spec fn button_of(workspace: WorkspaceView, active_id: i32) -> WorkspaceButtonView {
    WorkspaceButtonView {
        id: workspace.id,
        label: signed_decimal(workspace.id as int),
        state: if workspace.id == active_id {
            ButtonState::Active
        } else if workspace.windows > 0 {
            ButtonState::Occupied
        } else {
            ButtonState::Plain
        },
    }
}

/// The maker of the buttons when `active_id` is shown.
pub open spec fn button_maker(active_id: i32) -> spec_fn(WorkspaceView) -> WorkspaceButtonView {
    |w: WorkspaceView| button_of(w, active_id)
}

/// The key by which workspaces are sorted: their number.
pub open spec fn workspace_key() -> spec_fn(WorkspaceView) -> Seq<i64> {
    |w: WorkspaceView| seq![w.id as i64]
}

/// `buttons` are the buttons of the switcher: one for each ordinary
/// workspace, in the order of the workspaces' numbers.
pub open spec fn is_switcher(
    workspaces: Seq<WorkspaceView>,
    active_id: i32,
    buttons: Seq<WorkspaceButtonView>,
) -> bool {
    exists|sorted: Seq<WorkspaceView>|
        is_sorted_by(workspaces, workspaces.map_values(workspace_key()), sorted) && buttons
            == sorted.filter(is_ordinary()).map_values(button_maker(active_id))
}

/// The buttons of the workspace switcher.
pub fn workspace_buttons(workspaces: &Vec<Workspace>, active_id: i32) -> (buttons: Vec<
    WorkspaceButton,
>)
    ensures
        is_switcher(workspace_views(workspaces@), active_id, button_views(buttons@)),
{
    let ghost all = workspace_views(workspaces@);
    let mut keys: Vec<Vec<i64>> = Vec::new();
    let mut k: usize = 0;
    while k < workspaces.len()
        invariant
            k <= workspaces.len(),
            keys.len() == k,
            all == workspace_views(workspaces@),
            forall|j: int| 0 <= j < k ==> (#[trigger] keys[j])@ == workspace_key()(all[j]),
        decreases workspaces.len() - k,
    {
        let mut key: Vec<i64> = Vec::new();
        key.push(workspaces[k].id as i64);
        assert(key@ =~= workspace_key()(all[k as int]));
        keys.push(key);
        k += 1;
    }
    assert(key_rows(keys@) =~= all.map_values(workspace_key()));
    let order = stable_order(&keys);
    let ghost sorted = arranged(all, order@);
    let ghost keep = is_ordinary();
    let ghost make = button_maker(active_id);
    let mut out: Vec<WorkspaceButton> = Vec::new();
    let mut k: usize = 0;
    assert(sorted.take(0).filter(keep) =~= Seq::<WorkspaceView>::empty()) by {
        reveal(Seq::filter);
    }
    assert(button_views(out@) =~= sorted.take(0).filter(keep).map_values(make));
    while k < order.len()
        invariant
            k <= order.len(),
            order.len() == workspaces.len(),
            all == workspace_views(workspaces@),
            sorted == arranged(all, order@),
            keep == is_ordinary(),
            make == button_maker(active_id),
            forall|j: int| 0 <= j < order.len() ==> (#[trigger] order[j]) < workspaces.len(),
            button_views(out@) == sorted.take(k as int).filter(keep).map_values(make),
        decreases order.len() - k,
    {
        proof {
            lemma_filter_next(sorted, keep, k as int);
        }
        let workspace = &workspaces[order[k]];
        assert(workspace@ == sorted[k as int]);
        if workspace.id >= 0 {
            let mut label: Vec<char> = Vec::new();
            push_signed_decimal(&mut label, workspace.id as i64);
            assert(label@ =~= signed_decimal(workspace.id as int));
            let state = if workspace.id == active_id {
                ButtonState::Active
            } else if workspace.windows > 0 {
                ButtonState::Occupied
            } else {
                ButtonState::Plain
            };
            let ghost before = out@;
            let button = WorkspaceButton { id: workspace.id, label: string_of(&label), state };
            out.push(button);
            assert(button_views(out@) =~= button_views(before).push(button@));
            assert(sorted.take(k as int).filter(keep).push(sorted[k as int]).map_values(make)
                =~= sorted.take(k as int).filter(keep).map_values(make).push(
                make(sorted[k as int]),
            ));
        }
        k += 1;
    }
    assert(sorted.take(order.len() as int) == sorted);
    assert(is_sorted_by(all, all.map_values(workspace_key()), sorted));
    out
}

/// The text of the window title: the window's title, or its class where it
/// has no title.
pub open spec fn title_text(window: WindowView) -> Seq<char> {
    if window.title.len() == 0 {
        window.class
    } else {
        window.title
    }
}

/// The text to show for the window that has the focus.
pub fn window_title_text(window: &Window) -> (text: String)
    ensures
        text@ == title_text(window@),
{
    if window.title.as_str().is_empty() {
        window.class.clone()
    } else {
        window.title.clone()
    }
}

// ---------------------------------------------------------------------------
// The place of the bar
// ---------------------------------------------------------------------------

/// The edges of the screen that the bar is anchored to.
#[derive(Debug, Clone, Copy, PartialEq, Eq, Structural)]
pub struct Anchors {
    pub top: bool,
    pub bottom: bool,
    pub left: bool,
    pub right: bool,
}

/// Whether a bar at `position` runs from top to bottom.
pub open spec fn is_vertical(position: Seq<char>) -> bool {
    position == "left"@ || position == "right"@
}

/// The anchors of a bar at `position`: it is anchored to its own edge and
/// the two next to it; any position but `bottom`, `left` and `right` is the
/// top.
pub open spec fn anchors_of(position: Seq<char>) -> Anchors {
    if position == "bottom"@ {
        Anchors { top: false, bottom: true, left: true, right: true }
    } else if position == "left"@ {
        Anchors { top: true, bottom: true, left: true, right: false }
    } else if position == "right"@ {
        Anchors { top: true, bottom: true, left: false, right: true }
    } else {
        Anchors { top: true, bottom: false, left: true, right: true }
    }
}

/// Width and height to ask for: the thickness across the bar, and -1 for
/// "as it comes" along it.
pub open spec fn size_of(position: Seq<char>, thickness: i32) -> (i32, i32) {
    if is_vertical(position) {
        (thickness, -1i32)
    } else {
        (-1i32, thickness)
    }
}

/// How a bar at a position is laid out.
#[derive(Debug, Clone)]
pub struct BarLayout {
    pub anchors: Anchors,
    pub vertical: bool,
    pub width: i32,
    pub height: i32,
    /// The style class of the direction.
    pub direction_class: String,
    /// The style class of the position.
    pub position_class: String,
}

/// Lays a bar out at `position` with the given thickness.
pub fn apply_position_anchors(position: &str, thickness: i32) -> (layout: BarLayout)
    ensures
        layout.anchors == anchors_of(position@),
        layout.vertical == is_vertical(position@),
        (layout.width, layout.height) == size_of(position@, thickness),
        layout.direction_class@ == if is_vertical(position@) {
            "bar-vertical"@
        } else {
            "bar-horizontal"@
        },
        layout.position_class@ == "bar-"@ + position@,
{
    let p = chars_of(position);
    let vertical = is_text(&p, "left") || is_text(&p, "right");
    let anchors = if is_text(&p, "bottom") {
        Anchors { top: false, bottom: true, left: true, right: true }
    } else if is_text(&p, "left") {
        Anchors { top: true, bottom: true, left: true, right: false }
    } else if is_text(&p, "right") {
        Anchors { top: true, bottom: true, left: false, right: true }
    } else {
        Anchors { top: true, bottom: false, left: true, right: true }
    };
    BarLayout {
        anchors,
        vertical,
        width: if vertical {
            thickness
        } else {
            -1
        },
        height: if vertical {
            -1
        } else {
            thickness
        },
        direction_class: if vertical {
            owned("bar-vertical")
        } else {
            owned("bar-horizontal")
        },
        position_class: concat_text("bar-", position),
    }
}

/// The position of the first monitor from `i` on whose connector is
/// `wanted`.
pub open spec fn monitor_from(connectors: Seq<Option<String>>, wanted: Seq<char>, i: int) -> Option<
    int,
>
    decreases connectors.len() - i,
{
    if i < 0 || i >= connectors.len() {
        None
    } else if connectors[i] matches Some(name) && name@ == wanted {
        Some(i)
    } else {
        monitor_from(connectors, wanted, i + 1)
    }
}

/// The monitors that get a bar: each monitor where none is asked for, and
/// one bar without a monitor where there is none at all; else the first
/// monitor with the connector asked for, and one bar without a monitor
/// where there is no such monitor.
pub open spec fn bar_monitors(connectors: Seq<Option<String>>, wanted: Seq<char>) -> Seq<
    Option<usize>,
> {
    if wanted.len() == 0 {
        if connectors.len() == 0 {
            seq![None]
        } else {
            Seq::new(connectors.len(), |i: int| Some(i as usize))
        }
    } else {
        match monitor_from(connectors, wanted, 0) {
            Some(i) => seq![Some(i as usize)],
            None => seq![None],
        }
    }
}

/// The monitors that get a bar. `connectors` holds the connector of each
/// monitor, in the display's order, where it has one; `wanted` is the
/// connector that the configuration asks for, or empty.
pub fn create_bars(connectors: &Vec<Option<String>>, wanted: &str) -> (monitors: Vec<Option<usize>>)
    ensures
        monitors@ == bar_monitors(connectors@, wanted@),
{
    let mut out: Vec<Option<usize>> = Vec::new();
    if wanted.is_empty() {
        if connectors.len() == 0 {
            out.push(None);
            assert(out@ =~= seq![None::<usize>]);
            return out;
        }
        let mut i: usize = 0;
        while i < connectors.len()
            invariant
                i <= connectors.len(),
                out.len() == i,
                forall|j: int| 0 <= j < i ==> (#[trigger] out[j]) == Some(j as usize),
            decreases connectors.len() - i,
        {
            out.push(Some(i));
            i += 1;
        }
        assert(out@ =~= Seq::new(connectors.len() as nat, |i: int| Some(i as usize)));
        return out;
    }
    let name = chars_of(wanted);
    let mut i: usize = 0;
    while i < connectors.len()
        invariant
            i <= connectors.len(),
            name@ == wanted@,
            wanted@.len() > 0,
            out.len() == 0,
            monitor_from(connectors@, wanted@, 0) == monitor_from(connectors@, wanted@, i as int),
        decreases connectors.len() - i,
    {
        let found = match &connectors[i] {
            Some(connector) => same_chars(&chars_of(connector.as_str()), &name),
            None => false,
        };
        if found {
            out.push(Some(i));
            assert(out@ =~= seq![Some(i)]);
            return out;
        }
        i += 1;
    }
    out.push(None);
    assert(out@ =~= seq![None::<usize>]);
    out
}

// ---------------------------------------------------------------------------
// The theme and the style sheet
// ---------------------------------------------------------------------------

/// The colours that a theme is drawn with: its own where its preset is
/// `custom`, else those of the preset.
pub open spec fn theme_palette(theme: ThemeConfig) -> ThemeColorsView {
    if theme.preset@ == "custom"@ {
        theme.colors@
    } else {
        preset_palette(theme.preset@)
    }
}

/// One line of the style sheet that names a colour.
pub open spec fn color_line(name: Seq<char>, value: Seq<char>) -> Seq<char> {
    "@define-color "@ + name + " "@ + value + ";\n"@
}

/// The style sheet that names the colours of a palette.
pub open spec fn palette_css(c: ThemeColorsView) -> Seq<char> {
    "\n"@ + color_line("void_deep"@, c.void_deep) + color_line("void_dark"@, c.void_dark)
        + color_line("void_mid"@, c.void_mid) + color_line("void_light"@, c.void_light)
        + color_line("frost_dark"@, c.frost_dark) + color_line("frost_mid"@, c.frost_mid)
        + color_line("frost_light"@, c.frost_light) + color_line(
        "bifrost_blue"@,
        c.bifrost_blue,
    ) + color_line("bifrost_cyan"@, c.bifrost_cyan) + color_line("bifrost_teal"@, c.bifrost_teal)
        + color_line("bifrost_purple"@, c.bifrost_purple) + color_line(
        "fire_orange"@,
        c.fire_orange,
    ) + color_line("fire_red"@, c.fire_red) + color_line("fire_ember"@, c.fire_ember)
        + color_line("leaf_green"@, c.leaf_green) + color_line("mead_gold"@, c.mead_gold)
        + color_line("bark_brown"@, c.bark_brown) + color_line("starlight"@, c.starlight)
        + color_line("moonlight"@, c.moonlight) + color_line("sunlight"@, c.sunlight)
}

fn push_color_line(out: &mut Vec<char>, name: &str, value: &String)
    ensures
        final(out)@ == old(out)@ + color_line(name@, value@),
{
    append_chars(out, &chars_of("@define-color "));
    append_chars(out, &chars_of(name));
    append_chars(out, &chars_of(" "));
    append_chars(out, &chars_of(value.as_str()));
    append_chars(out, &chars_of(";\n"));
    assert(out@ =~= old(out)@ + color_line(name@, value@));
}

/// The style sheet that names the colours of a theme.
pub fn apply_theme(theme: &ThemeConfig) -> (css: String)
    ensures
        css@ == palette_css(theme_palette(*theme)),
{
    let custom = is_text(&chars_of(theme.preset.as_str()), "custom");
    let preset = ThemeColors::for_preset(theme.preset.as_str());
    let c = if custom {
        &theme.colors
    } else {
        &preset
    };
    let mut out = chars_of("\n");
    push_color_line(&mut out, "void_deep", &c.void_deep);
    push_color_line(&mut out, "void_dark", &c.void_dark);
    push_color_line(&mut out, "void_mid", &c.void_mid);
    push_color_line(&mut out, "void_light", &c.void_light);
    push_color_line(&mut out, "frost_dark", &c.frost_dark);
    push_color_line(&mut out, "frost_mid", &c.frost_mid);
    push_color_line(&mut out, "frost_light", &c.frost_light);
    push_color_line(&mut out, "bifrost_blue", &c.bifrost_blue);
    push_color_line(&mut out, "bifrost_cyan", &c.bifrost_cyan);
    push_color_line(&mut out, "bifrost_teal", &c.bifrost_teal);
    push_color_line(&mut out, "bifrost_purple", &c.bifrost_purple);
    push_color_line(&mut out, "fire_orange", &c.fire_orange);
    push_color_line(&mut out, "fire_red", &c.fire_red);
    push_color_line(&mut out, "fire_ember", &c.fire_ember);
    push_color_line(&mut out, "leaf_green", &c.leaf_green);
    push_color_line(&mut out, "mead_gold", &c.mead_gold);
    push_color_line(&mut out, "bark_brown", &c.bark_brown);
    push_color_line(&mut out, "starlight", &c.starlight);
    push_color_line(&mut out, "moonlight", &c.moonlight);
    push_color_line(&mut out, "sunlight", &c.sunlight);
    string_of(&out)
}

/// Where the style sheet is looked for, in this order: the working
/// directory, beside the program, the configuration and data directories
/// below the home directory, and the two shared directories.
pub open spec fn css_places(home: Seq<char>, beside_program: Seq<char>) -> Seq<Seq<char>> {
    seq![
        "style.css"@,
        beside_program,
        home + "/.config/crowbar/style.css"@,
        home + "/.local/share/crowbar/style.css"@,
        "/usr/local/share/crowbar/style.css"@,
        "/usr/share/crowbar/style.css"@,
    ]
}

/// The places where the style sheet is looked for; the first that exists is
/// taken. `beside_program` is the path of `style.css` in the directory of
/// the program.
pub fn find_css(home: &str, beside_program: &str) -> (places: Vec<String>)
    ensures
        texts(places@) == css_places(home@, beside_program@),
{
    let mut out: Vec<String> = Vec::new();
    out.push(owned("style.css"));
    out.push(owned(beside_program));
    out.push(concat_text(home, "/.config/crowbar/style.css"));
    out.push(concat_text(home, "/.local/share/crowbar/style.css"));
    out.push(owned("/usr/local/share/crowbar/style.css"));
    out.push(owned("/usr/share/crowbar/style.css"));
    assert(texts(out@) =~= css_places(home@, beside_program@));
    out
}

/// The name under which a module is shown in the settings: the name of the
/// table, or the module's own where the table lacks it.
pub open spec fn module_name(id: Seq<char>) -> Seq<char> {
    if id == "workspaces"@ {
        "Workspaces"@
    } else if id == "window_title"@ {
        "Window Title"@
    } else if id == "app_tracker"@ {
        "App Tracker"@
    } else if id == "media"@ {
        "Media"@
    } else if id == "app_finder"@ {
        "App Finder"@
    } else if id == "systray"@ {
        "System Tray"@
    } else if id == "connectivity"@ {
        "Connectivity"@
    } else if id == "audio"@ {
        "Audio"@
    } else if id == "brightness"@ {
        "Brightness"@
    } else if id == "power"@ {
        "Power"@
    } else if id == "battery"@ {
        "Battery"@
    } else if id == "clock"@ {
        "Clock"@
    } else if id == "power_menu"@ {
        "Power Menu"@
    } else {
        id
    }
}

/// The name under which a module is shown in the settings.
pub fn module_display_name(id: &str) -> (name: &str)
    ensures
        name@ == module_name(id@),
{
    let i = chars_of(id);
    if is_text(&i, "workspaces") {
        "Workspaces"
    } else if is_text(&i, "window_title") {
        "Window Title"
    } else if is_text(&i, "app_tracker") {
        "App Tracker"
    } else if is_text(&i, "media") {
        "Media"
    } else if is_text(&i, "app_finder") {
        "App Finder"
    } else if is_text(&i, "systray") {
        "System Tray"
    } else if is_text(&i, "connectivity") {
        "Connectivity"
    } else if is_text(&i, "audio") {
        "Audio"
    } else if is_text(&i, "brightness") {
        "Brightness"
    } else if is_text(&i, "power") {
        "Power"
    } else if is_text(&i, "battery") {
        "Battery"
    } else if is_text(&i, "clock") {
        "Clock"
    } else if is_text(&i, "power_menu") {
        "Power Menu"
    } else {
        id
    }
}


// ---------------------------------------------------------------------------
// The battery and the clock
// ---------------------------------------------------------------------------

/// What the battery's widget shows.
#[derive(Debug, Clone)]
pub struct BatteryLabel {
    /// The text of the label.
    pub text: String,
    /// The style class to set, after `charging`, `low` and `critical` were
    /// taken off.
    pub class: Option<&'static str>,
    /// The text of the tooltip.
    pub tooltip: String,
}

/// The style class of a battery: charging, or critical up to 10 percent, or
/// low up to 20 percent.
pub open spec fn battery_class(status: BatteryStatus, capacity: i32) -> Option<Seq<char>> {
    if status == BatteryStatus::Charging {
        Some("charging"@)
    } else if capacity <= 10 {
        Some("critical"@)
    } else if capacity <= 20 {
        Some("low"@)
    } else {
        None
    }
}

/// The words for a battery's status.
pub open spec fn status_words(status: BatteryStatus) -> Seq<char> {
    match status {
        BatteryStatus::Charging => "Charging"@,
        BatteryStatus::Discharging => "Discharging"@,
        BatteryStatus::Full => "Fully charged"@,
        BatteryStatus::NotCharging => "Not charging"@,
        BatteryStatus::Unknown => "Unknown"@,
    }
}

/// The tooltip of a battery: its charge and status and, where the time that
/// is left is known, a second line that tells it.
pub open spec fn battery_tooltip(status: BatteryStatus, capacity: i32, time: Seq<char>) -> Seq<
    char,
> {
    signed_decimal(capacity as int) + "% - "@ + status_words(status) + if time.len() == 0 {
        Seq::<char>::empty()
    } else if status == BatteryStatus::Charging {
        "\n"@ + time + " until full"@
    } else if status == BatteryStatus::Discharging {
        "\n"@ + time + " remaining"@
    } else {
        Seq::<char>::empty()
    }
}

/// What the battery's widget shows for a battery; without one, the label
/// reads `--` and nothing else changes.
pub fn refresh_battery(info: &BatteryInfo) -> (label: BatteryLabel)
    ensures
        label.text@ == signed_decimal(info.capacity as int) + "%"@,
        match label.class {
            Some(class) => battery_class(info.status, info.capacity) == Some(class@),
            None => battery_class(info.status, info.capacity) is None,
        },
        label.tooltip@ == battery_tooltip(
            info.status,
            info.capacity,
            time_text(
                duration_is_zero(info.time_remaining),
                duration_secs(info.time_remaining) as nat,
            ),
        ),
{
    let mut text: Vec<char> = Vec::new();
    push_signed_decimal(&mut text, info.capacity as i64);
    let mut tooltip: Vec<char> = Vec::new();
    append_chars(&mut tooltip, &text);
    append_chars(&mut text, &chars_of("%"));
    assert(text@ =~= signed_decimal(info.capacity as int) + "%"@);
    let class = match info.status {
        BatteryStatus::Charging => Some("charging"),
        _ => if info.capacity <= 10 {
            Some("critical")
        } else if info.capacity <= 20 {
            Some("low")
        } else {
            None
        },
    };
    append_chars(&mut tooltip, &chars_of("% - "));
    let words = match info.status {
        BatteryStatus::Charging => "Charging",
        BatteryStatus::Discharging => "Discharging",
        BatteryStatus::Full => "Fully charged",
        BatteryStatus::NotCharging => "Not charging",
        BatteryStatus::Unknown => "Unknown",
    };
    append_chars(&mut tooltip, &chars_of(words));
    let time = format_time_remaining(info.time_remaining);
    let ghost plain = tooltip@;
    if !time.as_str().is_empty() {
        match info.status {
            BatteryStatus::Charging => {
                append_chars(&mut tooltip, &chars_of("\n"));
                append_chars(&mut tooltip, &chars_of(time.as_str()));
                append_chars(&mut tooltip, &chars_of(" until full"));
                assert(tooltip@ =~= plain + ("\n"@ + time@ + " until full"@));
            },
            BatteryStatus::Discharging => {
                append_chars(&mut tooltip, &chars_of("\n"));
                append_chars(&mut tooltip, &chars_of(time.as_str()));
                append_chars(&mut tooltip, &chars_of(" remaining"));
                assert(tooltip@ =~= plain + ("\n"@ + time@ + " remaining"@));
            },
            _ => {
                assert(tooltip@ =~= plain + Seq::<char>::empty());
            },
        }
    } else {
        assert(tooltip@ =~= plain + Seq::<char>::empty());
    }
    BatteryLabel { text: string_of(&text), class, tooltip: string_of(&tooltip) }
}

/// What marks, in the target of `/etc/localtime`, where the name of the
/// time zone begins.
pub open spec fn zoneinfo_mark() -> Seq<char> {
    "zoneinfo/"@
}

/// The name of the time zone: the content of `/etc/timezone` without the
/// white space around it, if that is not empty; else what follows
/// `zoneinfo/` in the target of `/etc/localtime`; else what `timedatectl`
/// printed, if that is not empty; else `Unknown`.
pub open spec fn timezone_of(
    etc_timezone: Option<&str>,
    localtime_target: Option<&str>,
    timedatectl: Option<&str>,
) -> Seq<char> {
    if etc_timezone matches Some(text) && trim(text@).len() > 0 {
        trim(etc_timezone->Some_0@)
    } else if localtime_target matches Some(target) && find(target@, zoneinfo_mark()) is Some {
        localtime_target->Some_0@.skip(find(localtime_target->Some_0@, zoneinfo_mark())->Some_0 + 9)
    } else if timedatectl matches Some(text) && trim(text@).len() > 0 {
        trim(timedatectl->Some_0@)
    } else {
        "Unknown"@
    }
}

/// The name of the time zone, from the content of `/etc/timezone`, the
/// target of the link `/etc/localtime` and the output of `timedatectl show
/// --property=Timezone --value`, each missing where it could not be read.
pub fn get_timezone_name(
    etc_timezone: Option<&str>,
    localtime_target: Option<&str>,
    timedatectl: Option<&str>,
) -> (name: String)
    ensures
        name@ == timezone_of(etc_timezone, localtime_target, timedatectl),
{
    match etc_timezone {
        Some(text) => {
            let zone = trim_chars(&chars_of(text));
            if zone.len() > 0 {
                return string_of(&zone);
            }
        },
        None => {},
    }
    match localtime_target {
        Some(target) => {
            let path = chars_of(target);
            proof {
                reveal_strlit("zoneinfo/");
            }
            match find_chars(&path, &chars_of("zoneinfo/")) {
                Some(pos) => {
                    let zone = slice_of(&path, pos + 9, path.len());
                    assert(zone@ == target@.skip(pos + 9));
                    return string_of(&zone);
                },
                None => {},
            }
        },
        None => {},
    }
    match timedatectl {
        Some(text) => {
            let zone = trim_chars(&chars_of(text));
            if zone.len() > 0 {
                return string_of(&zone);
            }
        },
        None => {},
    }
    owned("Unknown")
}

/// Whether the clock is kept by the network: `timedatectl show
/// --property=NTPSynchronized --value` printed `yes`, in any letter case.
pub open spec fn is_synchronized(output: Option<&str>) -> bool {
    match output {
        Some(text) => lowercase(trim(text@)) == "yes"@,
        None => false,
    }
}

/// Whether the clock is kept by the network, and the words that say so.
pub fn get_ntp_status(output: Option<&str>) -> (status: (bool, String))
    ensures
        status.0 == is_synchronized(output),
        status.1@ == if is_synchronized(output) {
            "Active \u{2713}"@
        } else {
            "Inactive"@
        },
{
    let synchronized = match output {
        Some(text) => is_text(&lowercase_chars(&trim_chars(&chars_of(text))), "yes"),
        None => false,
    };
    if synchronized {
        (true, owned("Active \u{2713}"))
    } else {
        (false, owned("Inactive"))
    }
}


// ---------------------------------------------------------------------------
// The applications that run
// ---------------------------------------------------------------------------

/// One window of an application.
#[derive(Debug, Clone)]
pub struct WindowInfo {
    pub address: String,
    pub minimized: bool,
}

/// What a window of an application holds.
pub struct WindowInfoView {
    pub address: Seq<char>,
    pub minimized: bool,
}

impl View for WindowInfo {
    type V = WindowInfoView;

    open spec fn view(&self) -> WindowInfoView {
        WindowInfoView { address: self.address@, minimized: self.minimized }
    }
}

/// What a list of windows of an application holds, in order.
pub open spec fn info_views(list: Seq<WindowInfo>) -> Seq<WindowInfoView> {
    list.map_values(|w: WindowInfo| w@)
}

/// One application with the windows it has open.
#[derive(Debug, Clone)]
pub struct AppInfo {
    /// The class of its windows, in lower case.
    pub class: String,
    /// The class of its first window, as the window spells it.
    pub title: String,
    pub windows: Vec<WindowInfo>,
    pub focused: bool,
    pub all_minimized: bool,
}

/// What an application holds.
pub struct AppInfoView {
    pub class: Seq<char>,
    pub title: Seq<char>,
    pub windows: Seq<WindowInfoView>,
    pub focused: bool,
    pub all_minimized: bool,
}

impl View for AppInfo {
    type V = AppInfoView;

    open spec fn view(&self) -> AppInfoView {
        AppInfoView {
            class: self.class@,
            title: self.title@,
            windows: info_views(self.windows@),
            focused: self.focused,
            all_minimized: self.all_minimized,
        }
    }
}

/// What a list of applications holds, in order.
pub open spec fn app_views(list: Seq<AppInfo>) -> Seq<AppInfoView> {
    list.map_values(|a: AppInfo| a@)
}

/// A window as its application lists it: it counts as minimized where it is
/// on the workspace of minimized windows.
pub open spec fn info_of(window: WindowView) -> WindowInfoView {
    WindowInfoView {
        address: window.address,
        minimized: starts_with(window.workspace.name, "special:minimized"@),
    }
}

/// The position of the application of class `class` among `apps`, from `i`
/// on.
pub open spec fn app_position(apps: Seq<AppInfoView>, class: Seq<char>, i: int) -> Option<int>
    decreases apps.len() - i,
{
    if i < 0 || i >= apps.len() {
        None
    } else if apps[i].class == class {
        Some(i)
    } else {
        app_position(apps, class, i + 1)
    }
}

/// The applications after one more window: a window without a class is
/// passed over; one of a known class joins its application; one of a new
/// class opens an application, named as the window spells its class. An
/// application is focused where its class is that of the window that has
/// the focus.
pub open spec fn with_window(apps: Seq<AppInfoView>, window: WindowView, active_class: Seq<char>) -> Seq<
    AppInfoView,
> {
    let class = lowercase(window.class);
    if class.len() == 0 {
        apps
    } else {
        match app_position(apps, class, 0) {
            Some(j) => apps.update(
                j,
                AppInfoView {
                    windows: apps[j].windows.push(info_of(window)),
                    focused: apps[j].focused || class == active_class,
                    ..apps[j]
                },
            ),
            None => apps.push(
                AppInfoView {
                    class,
                    title: window.class,
                    windows: seq![info_of(window)],
                    focused: class == active_class,
                    all_minimized: false,
                },
            ),
        }
    }
}

/// The applications once the windows from `i` on are looked at, `apps`
/// being those found before.
pub open spec fn apps_scan(
    windows: Seq<WindowView>,
    active_class: Seq<char>,
    i: int,
    apps: Seq<AppInfoView>,
) -> Seq<AppInfoView>
    decreases windows.len() - i,
{
    if i < 0 || i >= windows.len() {
        apps
    } else {
        apps_scan(windows, active_class, i + 1, with_window(apps, windows[i], active_class))
    }
}

/// Every window of the list is minimized.
pub open spec fn all_minimized(windows: Seq<WindowInfoView>) -> bool {
    forall|k: int| 0 <= k < windows.len() ==> (#[trigger] windows[k]).minimized
}

/// An application with its mark for "all windows minimized" set.
pub open spec fn settled() -> spec_fn(AppInfoView) -> AppInfoView {
    |app: AppInfoView| AppInfoView { all_minimized: all_minimized(app.windows), ..app }
}

/// The key by which applications are sorted: their class.
pub open spec fn app_key() -> spec_fn(AppInfoView) -> Seq<i64> {
    |app: AppInfoView| text_key(app.class)
}

/// The class of the window that has the focus, in lower case; empty where
/// no window has it.
pub open spec fn active_class_of(active: Option<&Window>) -> Seq<char> {
    match active {
        Some(window) => lowercase(window.class@),
        None => Seq::empty(),
    }
}

/// The applications that the windows `windows` belong to.
pub open spec fn apps_of(windows: Seq<WindowView>, active: Option<&Window>) -> Seq<AppInfoView> {
    apps_scan(windows, active_class_of(active), 0, Seq::empty()).map_values(settled())
}

fn find_app_position(apps: &Vec<AppInfo>, class: &Vec<char>) -> (found: Option<usize>)
    ensures
        match found {
            Some(j) => app_position(app_views(apps@), class@, 0) == Some(j as int) && j
                < apps.len(),
            None => app_position(app_views(apps@), class@, 0) is None,
        },
{
    let mut i: usize = 0;
    while i < apps.len()
        invariant
            i <= apps.len(),
            app_position(app_views(apps@), class@, 0) == app_position(
                app_views(apps@),
                class@,
                i as int,
            ),
        decreases apps.len() - i,
    {
        if same_chars(&chars_of(apps[i].class.as_str()), class) {
            return Some(i);
        }
        i += 1;
    }
    None
}

fn copy_infos(list: &Vec<WindowInfo>) -> (copy: Vec<WindowInfo>)
    ensures
        info_views(copy@) == info_views(list@),
{
    let mut out: Vec<WindowInfo> = Vec::new();
    let mut i: usize = 0;
    while i < list.len()
        invariant
            i <= list.len(),
            out.len() == i,
            forall|j: int| 0 <= j < i ==> (#[trigger] out[j])@ == list[j]@,
        decreases list.len() - i,
    {
        out.push(WindowInfo { address: list[i].address.clone(), minimized: list[i].minimized });
        i += 1;
    }
    assert(info_views(out@) =~= info_views(list@));
    out
}

fn check_all_minimized(list: &Vec<WindowInfo>) -> (all: bool)
    ensures
        all == all_minimized(info_views(list@)),
{
    let mut i: usize = 0;
    while i < list.len()
        invariant
            i <= list.len(),
            forall|j: int| 0 <= j < i ==> (#[trigger] info_views(list@)[j]).minimized,
        decreases list.len() - i,
    {
        if !list[i].minimized {
            assert(!info_views(list@)[i as int].minimized);
            return false;
        }
        i += 1;
    }
    true
}

/// Groups the windows of the compositor by application, for the row of
/// running applications: the applications in the order of their classes,
/// each with its windows in the order of the compositor's list.
pub fn group_apps(windows: &Vec<Window>, active: Option<&Window>) -> (apps: Vec<AppInfo>)
    ensures
        is_sorted_by(
            apps_of(window_views(windows@), active),
            apps_of(window_views(windows@), active).map_values(app_key()),
            app_views(apps@),
        ),
{
    let active_class = match active {
        Some(window) => lowercase_chars(&chars_of(window.class.as_str())),
        None => Vec::new(),
    };
    let ghost all = window_views(windows@);
    let minimized_mark = chars_of("special:minimized");
    let mut found: Vec<AppInfo> = Vec::new();
    assert(app_views(found@) =~= Seq::<AppInfoView>::empty());
    let mut i: usize = 0;
    while i < windows.len()
        invariant
            i <= windows.len(),
            all == window_views(windows@),
            active_class@ == active_class_of(active),
            minimized_mark@ == "special:minimized"@,
            apps_scan(all, active_class@, i as int, app_views(found@)) == apps_scan(
                all,
                active_class@,
                0,
                Seq::empty(),
            ),
        decreases windows.len() - i,
    {
        let window = &windows[i];
        assert(window@ == all[i as int]);
        let class = lowercase_chars(&chars_of(window.class.as_str()));
        if class.len() > 0 {
            let info = WindowInfo {
                address: window.address.clone(),
                minimized: starts_with_chars(
                    &chars_of(window.workspace.name.as_str()),
                    &minimized_mark,
                ),
            };
            let is_active = same_chars(&class, &active_class);
            let ghost before = found@;
            match find_app_position(&found, &class) {
                Some(j) => {
                    let mut list = copy_infos(&found[j].windows);
                    let ghost old_list = list@;
                    list.push(info);
                    assert(info_views(list@) =~= info_views(old_list).push(info@));
                    let app = AppInfo {
                        class: found[j].class.clone(),
                        title: found[j].title.clone(),
                        windows: list,
                        focused: found[j].focused || is_active,
                        all_minimized: found[j].all_minimized,
                    };
                    found.set(j, app);
                    assert(app_views(found@) =~= app_views(before).update(j as int, app@));
                },
                None => {
                    let mut list: Vec<WindowInfo> = Vec::new();
                    list.push(info);
                    assert(info_views(list@) =~= seq![info@]);
                    let app = AppInfo {
                        class: string_of(&class),
                        title: window.class.clone(),
                        windows: list,
                        focused: is_active,
                        all_minimized: false,
                    };
                    found.push(app);
                    assert(app_views(found@) =~= app_views(before).push(app@));
                },
            }
        }
        i += 1;
    }
    let ghost raw = app_views(found@);
    let ghost wanted = raw.map_values(settled());
    let mut done: Vec<AppInfo> = Vec::new();
    let mut keys: Vec<Vec<i64>> = Vec::new();
    let mut k: usize = 0;
    while k < found.len()
        invariant
            k <= found.len(),
            done.len() == k,
            keys.len() == k,
            raw == app_views(found@),
            wanted == raw.map_values(settled()),
            forall|j: int| 0 <= j < k ==> (#[trigger] done[j])@ == wanted[j],
            forall|j: int| 0 <= j < k ==> (#[trigger] keys[j])@ == app_key()(wanted[j]),
        decreases found.len() - k,
    {
        let app = AppInfo {
            class: found[k].class.clone(),
            title: found[k].title.clone(),
            windows: copy_infos(&found[k].windows),
            focused: found[k].focused,
            all_minimized: check_all_minimized(&found[k].windows),
        };
        let mut key: Vec<i64> = Vec::new();
        push_text_key(&mut key, &chars_of(app.class.as_str()));
        assert(key@ =~= app_key()(wanted[k as int]));
        done.push(app);
        keys.push(key);
        k += 1;
    }
    assert(app_views(done@) =~= wanted);
    assert(key_rows(keys@) =~= wanted.map_values(app_key()));
    let order = stable_order(&keys);
    let mut out: Vec<AppInfo> = Vec::new();
    let mut k: usize = 0;
    while k < order.len()
        invariant
            k <= order.len(),
            order.len() == done.len(),
            out.len() == k,
            wanted == app_views(done@),
            forall|j: int| 0 <= j < order.len() ==> (#[trigger] order[j]) < done.len(),
            forall|j: int| 0 <= j < k ==> (#[trigger] out[j])@ == wanted[order[j] as int],
        decreases order.len() - k,
    {
        let app = &done[order[k]];
        out.push(
            AppInfo {
                class: app.class.clone(),
                title: app.title.clone(),
                windows: copy_infos(&app.windows),
                focused: app.focused,
                all_minimized: app.all_minimized,
            },
        );
        k += 1;
    }
    assert(app_views(out@) =~= arranged(wanted, order@));
    out
}

/// What a click on an application asks for.
#[derive(Debug, Clone)]
pub enum AppClick {
    /// Nothing.
    Nothing,
    /// Bring the window at this address back.
    Restore(String),
    /// Focus the window at this address.
    Focus(String),
    /// Focus the window after the one that has the focus; which one that
    /// is, `cycle_target` says once the focused window is known.
    Cycle,
}

/// What a click holds.
pub enum AppClickView {
    Nothing,
    Restore(Seq<char>),
    Focus(Seq<char>),
    Cycle,
}

impl View for AppClick {
    type V = AppClickView;

    open spec fn view(&self) -> AppClickView {
        match self {
            AppClick::Nothing => AppClickView::Nothing,
            AppClick::Restore(a) => AppClickView::Restore(a@),
            AppClick::Focus(a) => AppClickView::Focus(a@),
            AppClick::Cycle => AppClickView::Cycle,
        }
    }
}

/// The test that keeps the windows that are not minimized.
pub open spec fn is_visible() -> spec_fn(WindowInfoView) -> bool {
    |w: WindowInfoView| !w.minimized
}

/// What a click on an application asks for: an application whose windows
/// are all minimized gets its first window back; one with a single visible
/// window gets that focused; one with several gets the next one focused.
pub open spec fn click_of(app: AppInfoView) -> AppClickView {
    let visible = app.windows.filter(is_visible());
    if app.windows.len() == 0 {
        AppClickView::Nothing
    } else if app.all_minimized {
        AppClickView::Restore(app.windows[0].address)
    } else if visible.len() == 0 {
        AppClickView::Nothing
    } else if visible.len() == 1 {
        AppClickView::Focus(visible[0].address)
    } else {
        AppClickView::Cycle
    }
}

/// The position among `windows`, from `i` on, of the window at `address`.
pub open spec fn window_position(windows: Seq<WindowInfoView>, address: Seq<char>, i: int) -> Option<
    int,
>
    decreases windows.len() - i,
{
    if i < 0 || i >= windows.len() {
        None
    } else if windows[i].address == address {
        Some(i)
    } else {
        window_position(windows, address, i + 1)
    }
}

/// The window to focus when the windows of an application are cycled
/// through: the visible window after the one at `current`, the first after
/// the last, and the first where `current` is none of them.
pub open spec fn cycle_of(app: AppInfoView, current: Seq<char>) -> Option<Seq<char>> {
    let visible = app.windows.filter(is_visible());
    if visible.len() == 0 {
        None
    } else {
        match window_position(visible, current, 0) {
            Some(i) => Some(visible[(i + 1) % (visible.len() as int)].address),
            None => Some(visible[0].address),
        }
    }
}

fn visible_windows(app: &AppInfo) -> (visible: Vec<WindowInfo>)
    ensures
        info_views(visible@) == app@.windows.filter(is_visible()),
{
    let ghost all = info_views(app.windows@);
    let mut out: Vec<WindowInfo> = Vec::new();
    let mut i: usize = 0;
    assert(all.take(0).filter(is_visible()) =~= Seq::<WindowInfoView>::empty()) by {
        reveal(Seq::filter);
    }
    assert(info_views(out@) =~= Seq::<WindowInfoView>::empty());
    while i < app.windows.len()
        invariant
            i <= app.windows.len(),
            all == info_views(app.windows@),
            info_views(out@) == all.take(i as int).filter(is_visible()),
        decreases app.windows.len() - i,
    {
        proof {
            lemma_filter_next(all, is_visible(), i as int);
        }
        if !app.windows[i].minimized {
            let ghost before = out@;
            out.push(
                WindowInfo {
                    address: app.windows[i].address.clone(),
                    minimized: app.windows[i].minimized,
                },
            );
            assert(info_views(out@) =~= info_views(before).push(all[i as int]));
        }
        i += 1;
    }
    assert(all.take(app.windows.len() as int) == all);
    out
}

/// What a click on an application asks for.
pub fn on_app_clicked(app: &AppInfo) -> (click: AppClick)
    ensures
        click@ == click_of(app@),
{
    if app.windows.len() == 0 {
        return AppClick::Nothing;
    }
    if app.all_minimized {
        assert(app@.windows[0] == app.windows[0]@);
        return AppClick::Restore(app.windows[0].address.clone());
    }
    let visible = visible_windows(app);
    if visible.len() == 0 {
        AppClick::Nothing
    } else if visible.len() == 1 {
        assert(info_views(visible@)[0] == visible[0]@);
        AppClick::Focus(visible[0].address.clone())
    } else {
        AppClick::Cycle
    }
}

/// The window to focus next when the windows of an application are cycled
/// through; `current` is the address of the window that has the focus, or
/// empty where none has.
pub fn cycle_target(app: &AppInfo, current: &str) -> (target: Option<String>)
    ensures
        match target {
            Some(address) => cycle_of(app@, current@) == Some(address@),
            None => cycle_of(app@, current@) is None,
        },
{
    let visible = visible_windows(app);
    if visible.len() == 0 {
        return None;
    }
    let wanted = chars_of(current);
    let mut i: usize = 0;
    while i < visible.len()
        invariant
            i <= visible.len(),
            wanted@ == current@,
            visible.len() > 0,
            info_views(visible@) == app@.windows.filter(is_visible()),
            window_position(info_views(visible@), current@, 0) == window_position(
                info_views(visible@),
                current@,
                i as int,
            ),
        decreases visible.len() - i,
    {
        assert(info_views(visible@)[i as int] == visible[i as int]@);
        if same_chars(&chars_of(visible[i].address.as_str()), &wanted) {
            let next: usize = if i + 1 == visible.len() {
                0
            } else {
                i + 1
            };
            assert(next == (i + 1) % (visible.len() as int)) by (nonlinear_arith)
                requires
                    i < visible.len(),
                    next == if i + 1 == visible.len() {
                        0
                    } else {
                        i + 1
                    },
            ;
            assert(info_views(visible@)[next as int] == visible[next as int]@);
            return Some(visible[next].address.clone());
        }
        i += 1;
    }
    assert(info_views(visible@)[0] == visible[0]@);
    Some(visible[0].address.clone())
}

/// The icon that is known for a class in lower case.
pub open spec fn known_icon(class: Seq<char>) -> Option<Seq<char>> {
    if class == "firefox"@ {
        Some("firefox"@)
    } else if class == "chromium"@ {
        Some("chromium"@)
    } else if class == "google-chrome"@ {
        Some("google-chrome"@)
    } else if class == "code"@ {
        Some("visual-studio-code"@)
    } else if class == "code-oss"@ {
        Some("code-oss"@)
    } else if class == "discord"@ {
        Some("discord"@)
    } else if class == "spotify"@ {
        Some("spotify"@)
    } else if class == "steam"@ {
        Some("steam"@)
    } else if class == "telegram-desktop"@ {
        Some("telegram"@)
    } else if class == "thunar"@ {
        Some("thunar"@)
    } else if class == "nautilus"@ {
        Some("nautilus"@)
    } else if class == "kitty"@ {
        Some("kitty"@)
    } else if class == "alacritty"@ {
        Some("Alacritty"@)
    } else if class == "foot"@ {
        Some("foot"@)
    } else if class == "wezterm"@ {
        Some("wezterm"@)
    } else if class == "obsidian"@ {
        Some("obsidian"@)
    } else if class == "vlc"@ {
        Some("vlc"@)
    } else if class == "mpv"@ {
        Some("mpv"@)
    } else if class == "gimp"@ {
        Some("gimp"@)
    } else if class == "inkscape"@ {
        Some("inkscape"@)
    } else if class == "blender"@ {
        Some("blender"@)
    } else if class == "libreoffice"@ {
        Some("libreoffice-startcenter"@)
    } else {
        None
    }
}

/// The names under which the icon of a class is looked up, in this order:
/// the icon known for the class, or the class itself; then the class in
/// lower case.
pub open spec fn icon_names(class: Seq<char>) -> (Seq<char>, Seq<char>) {
    (
        match known_icon(lowercase(class)) {
            Some(icon) => icon,
            None => class,
        },
        lowercase(class),
    )
}

/// The names under which the icon of a class is looked up.
pub fn icon_candidates(class: &str) -> (names: (String, String))
    ensures
        (names.0@, names.1@) == icon_names(class@),
{
    let lower = lowercase_chars(&chars_of(class));
    let known: Option<&'static str> = if is_text(&lower, "firefox") {
        Some("firefox")
    } else if is_text(&lower, "chromium") {
        Some("chromium")
    } else if is_text(&lower, "google-chrome") {
        Some("google-chrome")
    } else if is_text(&lower, "code") {
        Some("visual-studio-code")
    } else if is_text(&lower, "code-oss") {
        Some("code-oss")
    } else if is_text(&lower, "discord") {
        Some("discord")
    } else if is_text(&lower, "spotify") {
        Some("spotify")
    } else if is_text(&lower, "steam") {
        Some("steam")
    } else if is_text(&lower, "telegram-desktop") {
        Some("telegram")
    } else if is_text(&lower, "thunar") {
        Some("thunar")
    } else if is_text(&lower, "nautilus") {
        Some("nautilus")
    } else if is_text(&lower, "kitty") {
        Some("kitty")
    } else if is_text(&lower, "alacritty") {
        Some("Alacritty")
    } else if is_text(&lower, "foot") {
        Some("foot")
    } else if is_text(&lower, "wezterm") {
        Some("wezterm")
    } else if is_text(&lower, "obsidian") {
        Some("obsidian")
    } else if is_text(&lower, "vlc") {
        Some("vlc")
    } else if is_text(&lower, "mpv") {
        Some("mpv")
    } else if is_text(&lower, "gimp") {
        Some("gimp")
    } else if is_text(&lower, "inkscape") {
        Some("inkscape")
    } else if is_text(&lower, "blender") {
        Some("blender")
    } else if is_text(&lower, "libreoffice") {
        Some("libreoffice-startcenter")
    } else {
        None
    };
    let first = match known {
        Some(icon) => owned(icon),
        None => owned(class),
    };
    (first, string_of(&lower))
}

/// The icon of an application: the first of the two names that the icon
/// theme has, and the icon of programs where it has neither.
pub fn get_app_icon(names: &(String, String), has_first: bool, has_second: bool) -> (icon: String)
    ensures
        icon@ == if has_first {
            names.0@
        } else if has_second {
            names.1@
        } else {
            "application-x-executable"@
        },
{
    if has_first {
        names.0.clone()
    } else if has_second {
        names.1.clone()
    } else {
        owned("application-x-executable")
    }
}


// ---------------------------------------------------------------------------
// The tray
// ---------------------------------------------------------------------------

/// One icon to add to the tray.
#[derive(Debug, Clone)]
pub struct TrayIcon {
    /// The identity key of the item.
    pub key: String,
    /// The name of the icon.
    pub icon_name: String,
    /// The text of the tooltip.
    pub tooltip: String,
}

/// What a tray icon holds.
pub struct TrayIconView {
    pub key: Seq<char>,
    pub icon_name: Seq<char>,
    pub tooltip: Seq<char>,
}

impl View for TrayIcon {
    type V = TrayIconView;

    open spec fn view(&self) -> TrayIconView {
        TrayIconView { key: self.key@, icon_name: self.icon_name@, tooltip: self.tooltip@ }
    }
}

/// What a list of tray icons holds, in order.
pub open spec fn icon_views(list: Seq<TrayIcon>) -> Seq<TrayIconView> {
    list.map_values(|i: TrayIcon| i@)
}

/// The icon of a tray item: its own, or that of programs where it names
/// none; the tooltip is its title, or its service where it has no title.
pub open spec fn icon_of(item: TrayItemView) -> TrayIconView {
    TrayIconView {
        key: item_key(item),
        icon_name: if item.icon_name.len() == 0 {
            "application-x-executable-symbolic"@
        } else {
            item.icon_name
        },
        tooltip: if item.title.len() == 0 {
            item.service
        } else {
            item.title
        },
    }
}

/// Some icon of the list has the key `key`.
pub open spec fn has_icon(icons: Seq<TrayIconView>, key: Seq<char>) -> bool {
    exists|k: int| 0 <= k < icons.len() && (#[trigger] icons[k]).key == key
}

/// The icons to add once the items from `i` on are looked at, `added` being
/// those found before: one for each item whose key is neither shown nor
/// added yet.
pub open spec fn icons_to_add(
    items: Seq<TrayItemView>,
    shown: Seq<Seq<char>>,
    i: int,
    added: Seq<TrayIconView>,
) -> Seq<TrayIconView>
    decreases items.len() - i,
{
    if i < 0 || i >= items.len() {
        added
    } else if shown.contains(item_key(items[i])) || has_icon(added, item_key(items[i])) {
        icons_to_add(items, shown, i + 1, added)
    } else {
        icons_to_add(items, shown, i + 1, added.push(icon_of(items[i])))
    }
}

/// Some item of the list has the key `key`.
pub open spec fn is_present(items: Seq<TrayItemView>, key: Seq<char>) -> bool {
    exists|k: int| 0 <= k < items.len() && item_key(#[trigger] items[k]) == key
}

/// The test that keeps the keys that no item of `items` has.
pub open spec fn is_gone(items: Seq<TrayItemView>) -> spec_fn(Seq<char>) -> bool {
    |key: Seq<char>| !is_present(items, key)
}

/// What is to change in the tray.
#[derive(Debug, Clone)]
pub struct TrayRefresh {
    /// The icons to add, in the order of the items.
    pub add: Vec<TrayIcon>,
    /// The keys of the icons to take away.
    pub remove: Vec<String>,
    /// Whether the tray is shown at all: it is hidden while it is empty.
    pub visible: bool,
}

fn key_present(items: &Vec<TrayItem>, key: &Vec<char>) -> (present: bool)
    ensures
        present == is_present(item_views(items@), key@),
{
    let mut i: usize = 0;
    while i < items.len()
        invariant
            i <= items.len(),
            forall|j: int| 0 <= j < i ==> item_key(#[trigger] item_views(items@)[j]) != key@,
        decreases items.len() - i,
    {
        let k = chars_of(items[i].key().as_str());
        if same_chars(&k, key) {
            assert(item_key(item_views(items@)[i as int]) == key@);
            return true;
        }
        i += 1;
    }
    false
}

fn key_listed(list: &Vec<String>, key: &Vec<char>) -> (listed: bool)
    ensures
        listed == texts(list@).contains(key@),
{
    let mut i: usize = 0;
    while i < list.len()
        invariant
            i <= list.len(),
            forall|j: int| 0 <= j < i ==> texts(list@)[j] != key@,
        decreases list.len() - i,
    {
        if same_chars(&chars_of(list[i].as_str()), key) {
            assert(texts(list@)[i as int] == key@);
            return true;
        }
        i += 1;
    }
    false
}

fn icon_added(list: &Vec<TrayIcon>, key: &Vec<char>) -> (added: bool)
    ensures
        added == has_icon(icon_views(list@), key@),
{
    let mut i: usize = 0;
    while i < list.len()
        invariant
            i <= list.len(),
            forall|j: int| 0 <= j < i ==> (#[trigger] icon_views(list@)[j]).key != key@,
        decreases list.len() - i,
    {
        if same_chars(&chars_of(list[i].key.as_str()), key) {
            assert(icon_views(list@)[i as int].key == key@);
            return true;
        }
        i += 1;
    }
    false
}

/// What is to change in the tray so that it shows the items `items`, when
/// it shows the icons with the keys `shown`.
pub fn refresh_tray(items: &Vec<TrayItem>, shown: &Vec<String>) -> (refresh: TrayRefresh)
    ensures
        icon_views(refresh.add@) == icons_to_add(item_views(items@), texts(shown@), 0, Seq::empty()),
        texts(refresh.remove@) == texts(shown@).filter(is_gone(item_views(items@))),
        refresh.visible == (items.len() > 0),
{
    let ghost all = item_views(items@);
    let ghost old_keys = texts(shown@);
    let mut add: Vec<TrayIcon> = Vec::new();
    assert(icon_views(add@) =~= Seq::<TrayIconView>::empty());
    let mut i: usize = 0;
    while i < items.len()
        invariant
            i <= items.len(),
            all == item_views(items@),
            old_keys == texts(shown@),
            icons_to_add(all, old_keys, i as int, icon_views(add@)) == icons_to_add(
                all,
                old_keys,
                0,
                Seq::empty(),
            ),
        decreases items.len() - i,
    {
        let item = &items[i];
        assert(item@ == all[i as int]);
        let key = item.key();
        let key_chars = chars_of(key.as_str());
        if !key_listed(shown, &key_chars) && !icon_added(&add, &key_chars) {
            let icon_name = if item.icon_name.as_str().is_empty() {
                owned("application-x-executable-symbolic")
            } else {
                item.icon_name.clone()
            };
            let tooltip = if item.title.as_str().is_empty() {
                item.service.clone()
            } else {
                item.title.clone()
            };
            let ghost before = add@;
            let icon = TrayIcon { key, icon_name, tooltip };
            add.push(icon);
            assert(icon_views(add@) =~= icon_views(before).push(icon@));
        }
        i += 1;
    }
    let mut remove: Vec<String> = Vec::new();
    let ghost gone = is_gone(all);
    let mut k: usize = 0;
    assert(old_keys.take(0).filter(gone) =~= Seq::<Seq<char>>::empty()) by {
        reveal(Seq::filter);
    }
    assert(texts(remove@) =~= Seq::<Seq<char>>::empty());
    while k < shown.len()
        invariant
            k <= shown.len(),
            all == item_views(items@),
            old_keys == texts(shown@),
            gone == is_gone(all),
            texts(remove@) == old_keys.take(k as int).filter(gone),
        decreases shown.len() - k,
    {
        proof {
            lemma_filter_next(old_keys, gone, k as int);
        }
        if !key_present(items, &chars_of(shown[k].as_str())) {
            let ghost before = remove@;
            remove.push(shown[k].clone());
            assert(texts(remove@) =~= texts(before).push(old_keys[k as int]));
        }
        k += 1;
    }
    assert(old_keys.take(shown.len() as int) == old_keys);
    TrayRefresh { add, remove, visible: items.len() > 0 }
}


// ---------------------------------------------------------------------------
// Volume, brightness and the player
// ---------------------------------------------------------------------------

/// A number of percent as a label shows it.
pub open spec fn percent_label(percent: i32) -> Seq<char> {
    signed_decimal(percent as int) + "%"@
}

fn make_percent_label(percent: i32) -> (text: Vec<char>)
    ensures
        text@ == percent_label(percent),
{
    let mut text: Vec<char> = Vec::new();
    push_signed_decimal(&mut text, percent as i64);
    append_chars(&mut text, &chars_of("%"));
    assert(text@ =~= percent_label(percent));
    text
}

/// What the volume's widget shows.
#[derive(Debug, Clone)]
pub struct VolumeLabel {
    /// The text of the label.
    pub text: String,
    /// Whether the widget and the mute button are drawn as muted.
    pub muted: bool,
    /// The value of the slider.
    pub level: i32,
    /// The text of the tooltip.
    pub tooltip: String,
}

/// The label of a volume: `Muted`, or the volume in percent.
pub open spec fn volume_text(volume: i32, muted: bool) -> Seq<char> {
    if muted {
        "Muted"@
    } else {
        percent_label(volume)
    }
}

/// What the widget of the output shows; nothing where there is no output,
/// and the label then reads `--`.
pub fn refresh_audio(info: &AudioInfo) -> (label: Option<VolumeLabel>)
    ensures
        match label {
            Some(l) => {
                &&& info.available
                &&& l.text@ == volume_text(info.volume, info.muted)
                &&& l.muted == info.muted
                &&& l.level == info.volume
                &&& l.tooltip@ == "Volume: "@ + percent_label(info.volume) + "\nClick to adjust"@
            },
            None => !info.available,
        },
{
    if !info.available {
        return None;
    }
    let percent = make_percent_label(info.volume);
    let text = if info.muted {
        owned("Muted")
    } else {
        string_of(&percent)
    };
    let mut tooltip = chars_of("Volume: ");
    append_chars(&mut tooltip, &percent);
    append_chars(&mut tooltip, &chars_of("\nClick to adjust"));
    Some(VolumeLabel { text, muted: info.muted, level: info.volume, tooltip: string_of(&tooltip) })
}

/// What the widget of the input shows: the label, the slider's value and
/// whether the mute button is drawn as muted; nothing where there is no
/// input, and the label is then empty.
pub fn refresh_source_audio(info: &SourceInfo) -> (label: Option<(String, i32, bool)>)
    ensures
        match label {
            Some(l) => info.available && l.0@ == volume_text(info.volume, info.muted) && l.1
                == info.volume && l.2 == info.muted,
            None => !info.available,
        },
{
    if !info.available {
        return None;
    }
    let text = if info.muted {
        owned("Muted")
    } else {
        string_of(&make_percent_label(info.volume))
    };
    Some((text, info.volume, info.muted))
}

/// What the widget of the backlight shows: the label and the tooltip.
pub fn refresh_brightness(info: &BrightnessInfo) -> (label: (String, String))
    ensures
        label.0@ == percent_label(info.percent),
        label.1@ == "Brightness: "@ + percent_label(info.percent) + "\nDevice: "@ + info.device@
            + "\nClick to adjust"@,
{
    let percent = make_percent_label(info.percent);
    let mut tooltip = chars_of("Brightness: ");
    append_chars(&mut tooltip, &percent);
    append_chars(&mut tooltip, &chars_of("\nDevice: "));
    append_chars(&mut tooltip, &chars_of(info.device.as_str()));
    append_chars(&mut tooltip, &chars_of("\nClick to adjust"));
    (string_of(&percent), string_of(&tooltip))
}

/// What the player's widget shows.
#[derive(Debug, Clone)]
pub struct MediaLabel {
    /// The icon of the status.
    pub status_icon: &'static str,
    /// The style class of the status.
    pub class: Option<&'static str>,
    /// The title as the bar shows it.
    pub bar_title: String,
    /// The title as the popover shows it.
    pub track_title: String,
    /// The artist, where one is known.
    pub artist: Option<String>,
    /// The icon of the button that plays and pauses.
    pub play_pause_icon: &'static str,
    /// Position and length of the track.
    pub position: String,
    /// The text of the tooltip.
    pub tooltip: String,
}

/// Whether the player's widget is shown: there is a player, it plays or is
/// paused, and the track has a title.
pub open spec fn shows_media(info: MediaInfoView) -> bool {
    info.available && (info.status == PlaybackStatus::Playing || info.status
        == PlaybackStatus::Paused) && info.title.len() > 0
}

/// Position and length of a track, and zeros where the length is unknown.
pub open spec fn position_text(position: i64, length: i64) -> Seq<char> {
    if length > 0 {
        duration_text(position as int) + " / "@ + duration_text(length as int)
    } else {
        "0:00 / 0:00"@
    }
}

/// The tooltip of the player: title and artist, and the player's name
/// where it has one.
pub open spec fn media_tooltip(info: MediaInfoView) -> Seq<char> {
    info.title + "\n"@ + info.artist + if info.player.len() == 0 {
        Seq::<char>::empty()
    } else {
        "\nPlayer: "@ + info.player
    }
}

/// Whether the title of a track can be cut to the width of the bar: the
/// cut must not fall inside a character.
pub open spec fn title_can_be_cut(title: Seq<char>) -> bool {
    &&& encode_utf8(title).len() <= usize::MAX
    &&& encode_utf8(title).len() > 20 ==> is_char_boundary(encode_utf8(title), cut_point(20))
}

/// What the player's widget shows; nothing where it is not shown.
pub fn refresh_media(info: &MediaInfo) -> (label: Option<MediaLabel>)
    requires
        title_can_be_cut(info.title@),
    ensures
        match label {
            Some(l) => {
                &&& shows_media(info@)
                &&& l.status_icon@ == if info.status == PlaybackStatus::Playing {
                    "media-playback-start-symbolic"@
                } else {
                    "media-playback-pause-symbolic"@
                }
                &&& match l.class {
                    Some(class) => class@ == if info.status == PlaybackStatus::Playing {
                        "playing"@
                    } else {
                        "paused"@
                    },
                    None => false,
                }
                &&& l.bar_title@ == truncated(info.title@, 20)
                &&& l.track_title@ == info.title@
                &&& match l.artist {
                    Some(artist) => info.artist@.len() > 0 && artist@ == info.artist@,
                    None => info.artist@.len() == 0,
                }
                &&& l.play_pause_icon@ == if info.status == PlaybackStatus::Playing {
                    "media-playback-pause-symbolic"@
                } else {
                    "media-playback-start-symbolic"@
                }
                &&& l.position@ == position_text(info.position, info.length)
                &&& l.tooltip@ == media_tooltip(info@)
            },
            None => !shows_media(info@),
        },
{
    let playing = match info.status {
        PlaybackStatus::Playing => true,
        _ => false,
    };
    let paused = match info.status {
        PlaybackStatus::Paused => true,
        _ => false,
    };
    if !(info.available && (playing || paused) && !info.title.as_str().is_empty()) {
        return None;
    }
    let position = if info.length > 0 {
        let mut text = chars_of(format_duration(info.position).as_str());
        append_chars(&mut text, &chars_of(" / "));
        append_chars(&mut text, &chars_of(format_duration(info.length).as_str()));
        string_of(&text)
    } else {
        owned("0:00 / 0:00")
    };
    let mut tooltip = chars_of(info.title.as_str());
    append_chars(&mut tooltip, &chars_of("\n"));
    append_chars(&mut tooltip, &chars_of(info.artist.as_str()));
    let ghost plain = tooltip@;
    if !info.player.as_str().is_empty() {
        append_chars(&mut tooltip, &chars_of("\nPlayer: "));
        append_chars(&mut tooltip, &chars_of(info.player.as_str()));
        assert(tooltip@ =~= plain + ("\nPlayer: "@ + info.player@));
    } else {
        assert(tooltip@ =~= plain + Seq::<char>::empty());
    }
    Some(
        MediaLabel {
            status_icon: if playing {
                "media-playback-start-symbolic"
            } else {
                "media-playback-pause-symbolic"
            },
            class: if playing {
                Some("playing")
            } else {
                Some("paused")
            },
            bar_title: truncate_string(info.title.as_str(), 20),
            track_title: info.title.clone(),
            artist: if info.artist.as_str().is_empty() {
                None
            } else {
                Some(info.artist.clone())
            },
            play_pause_icon: if playing {
                "media-playback-pause-symbolic"
            } else {
                "media-playback-start-symbolic"
            },
            position,
            tooltip: string_of(&tooltip),
        },
    )
}

/// Whether the title of a track can be cut to the width of the bar, so that
/// `refresh_media` may be asked for its label.
pub fn check_title_can_be_cut(title: &str) -> (fits: bool)
    requires
        encode_utf8(title@).len() <= usize::MAX,
    ensures
        fits == title_can_be_cut(title@),
{
    assert(title.spec_bytes() == encode_utf8(title@));
    title.len() <= 20 || title.is_char_boundary(17)
}

/// The name under which a module stands in the list of the settings: a
/// separator is drawn as a line, any other module has its display name.
pub fn module_row_name(name: &str) -> (shown: &str)
    ensures
        shown@ == if name@ == "separator"@ {
            "\u{2500}\u{2500} Separator \u{2500}\u{2500}"@
        } else {
            module_name(name@)
        },
{
    if is_text(&chars_of(name), "separator") {
        "\u{2500}\u{2500} Separator \u{2500}\u{2500}"
    } else {
        module_display_name(name)
    }
}


// ---------------------------------------------------------------------------
// Connectivity and the power menu
// ---------------------------------------------------------------------------

/// What the connectivity widget shows.
#[derive(Debug, Clone)]
pub struct ConnectivityLabel {
    /// The label of the wireless network.
    pub wifi: String,
    /// The label of Bluetooth.
    pub bluetooth: String,
    /// Whether the switch of Bluetooth can be used.
    pub bluetooth_switchable: bool,
    /// Whether the switch of Bluetooth is on.
    pub bluetooth_on: bool,
    /// The text of the tooltip.
    pub tooltip: String,
}

/// A network with its signal, as in `Home (70%)`.
pub open spec fn network_text(info: WiFiInfoView) -> Seq<char> {
    info.ssid + " ("@ + signed_decimal(info.signal as int) + "%)"@
}

/// The label of the wireless network.
pub open spec fn wifi_label(info: WiFiInfoView) -> Seq<char> {
    if !info.enabled {
        "Disabled"@
    } else if info.connected {
        network_text(info)
    } else {
        "Not connected"@
    }
}

/// The label of Bluetooth.
pub open spec fn bluetooth_label(info: BluetoothInfoView) -> Seq<char> {
    if !info.available {
        "Not available"@
    } else if !info.powered {
        "Disabled"@
    } else if info.connected {
        info.device
    } else {
        "Not connected"@
    }
}

/// The tooltip of the connectivity widget: one line for the wireless
/// network, one for Bluetooth, and the hint.
pub open spec fn connectivity_tooltip(wifi: WiFiInfoView, bluetooth: BluetoothInfoView) -> Seq<
    char,
> {
    (if !wifi.enabled {
        "WiFi: Disabled"@
    } else if wifi.connected {
        "WiFi: "@ + network_text(wifi)
    } else {
        "WiFi: Enabled (not connected)"@
    }) + (if !bluetooth.available {
        "\nBluetooth: Not available"@
    } else if !bluetooth.powered {
        "\nBluetooth: Disabled"@
    } else if bluetooth.connected {
        "\nBluetooth: "@ + bluetooth.device
    } else {
        "\nBluetooth: Enabled (not connected)"@
    }) + "\nClick to manage"@
}

/// What the connectivity widget shows.
pub fn refresh_connectivity(wifi: &WiFiInfo, bluetooth: &BluetoothInfo) -> (label:
    ConnectivityLabel)
    ensures
        label.wifi@ == wifi_label(wifi@),
        label.bluetooth@ == bluetooth_label(bluetooth@),
        label.bluetooth_switchable == bluetooth.available,
        label.bluetooth_on == (bluetooth.available && bluetooth.powered),
        label.tooltip@ == connectivity_tooltip(wifi@, bluetooth@),
{
    let mut network = chars_of(wifi.ssid.as_str());
    append_chars(&mut network, &chars_of(" ("));
    push_signed_decimal(&mut network, wifi.signal as i64);
    append_chars(&mut network, &chars_of("%)"));
    assert(network@ =~= network_text(wifi@));
    let wifi_text = if !wifi.enabled {
        owned("Disabled")
    } else if wifi.connected {
        string_of(&network)
    } else {
        owned("Not connected")
    };
    let bluetooth_text = if !bluetooth.available {
        owned("Not available")
    } else if !bluetooth.powered {
        owned("Disabled")
    } else if bluetooth.connected {
        bluetooth.device.clone()
    } else {
        owned("Not connected")
    };
    let mut tooltip = if !wifi.enabled {
        chars_of("WiFi: Disabled")
    } else if wifi.connected {
        let mut line = chars_of("WiFi: ");
        append_chars(&mut line, &network);
        line
    } else {
        chars_of("WiFi: Enabled (not connected)")
    };
    let ghost first = tooltip@;
    if !bluetooth.available {
        append_chars(&mut tooltip, &chars_of("\nBluetooth: Not available"));
    } else if !bluetooth.powered {
        append_chars(&mut tooltip, &chars_of("\nBluetooth: Disabled"));
    } else if bluetooth.connected {
        append_chars(&mut tooltip, &chars_of("\nBluetooth: "));
        append_chars(&mut tooltip, &chars_of(bluetooth.device.as_str()));
        assert(tooltip@ =~= first + ("\nBluetooth: "@ + bluetooth.device@));
    } else {
        append_chars(&mut tooltip, &chars_of("\nBluetooth: Enabled (not connected)"));
    }
    append_chars(&mut tooltip, &chars_of("\nClick to manage"));
    ConnectivityLabel {
        wifi: wifi_text,
        bluetooth: bluetooth_text,
        bluetooth_switchable: bluetooth.available,
        bluetooth_on: bluetooth.available && bluetooth.powered,
        tooltip: string_of(&tooltip),
    }
}

/// What the power menu offers.
#[derive(Debug, Clone, Copy, PartialEq, Eq, Structural)]
pub enum PowerAction {
    Lock,
    Logout,
    Suspend,
    Reboot,
    Shutdown,
}

/// The command behind an entry of the power menu.
pub open spec fn power_command(action: PowerAction) -> CommandView {
    match action {
        PowerAction::Lock => invoke("loginctl"@, seq!["lock-session"@]),
        PowerAction::Logout => invoke("hyprctl"@, seq!["dispatch"@, "exit"@]),
        PowerAction::Suspend => invoke("systemctl"@, seq!["suspend"@]),
        PowerAction::Reboot => invoke("systemctl"@, seq!["reboot"@]),
        PowerAction::Shutdown => invoke("systemctl"@, seq!["poweroff"@]),
    }
}

/// The command to spawn for an entry of the power menu.
pub fn power_menu_command(action: PowerAction) -> (command: Command)
    ensures
        command@ == power_command(action),
{
    let command = match action {
        PowerAction::Lock => Command::new("loginctl").arg("lock-session"),
        PowerAction::Logout => Command::new("hyprctl").arg("dispatch").arg("exit"),
        PowerAction::Suspend => Command::new("systemctl").arg("suspend"),
        PowerAction::Reboot => Command::new("systemctl").arg("reboot"),
        PowerAction::Shutdown => Command::new("systemctl").arg("poweroff"),
    };
    assert(command@.args =~= power_command(action).args);
    command
}

} // verus!
