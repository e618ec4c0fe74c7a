use crowbar::config::{ThemeColors, ThemeConfig};
use crowbar::display::{
    power_menu_command, refresh_connectivity, PowerAction,
    check_title_can_be_cut, module_row_name, refresh_audio, refresh_brightness, refresh_media,
    refresh_source_audio,
    apply_position_anchors, apply_theme, create_bars, cycle_target, find_css, get_app_icon,
    get_ntp_status, get_timezone_name, group_apps, icon_candidates, module_display_name,
    on_app_clicked, refresh_battery, refresh_tray, window_title_text, workspace_buttons, Anchors,
    AppClick,
    AppInfo, ButtonState, WindowInfo,
};
use crowbar::hyprland::client::{Window, WorkspaceRef, Workspace};
use crowbar::system::battery::{BatteryInfo, BatteryStatus};
use crowbar::system::audio::{AudioInfo, SourceInfo};
use crowbar::system::brightness::BrightnessInfo;
use crowbar::system::connectivity::{BluetoothInfo, WiFiInfo};
use crowbar::system::media::{MediaInfo, PlaybackStatus};
use crowbar::tray::TrayItem;
use std::time::Duration;

fn workspace(id: i32, windows: i32) -> Workspace {
    Workspace { id, name: id.to_string(), windows, monitor: "DP-1".to_string() }
}

fn window(address: &str, class: &str, workspace: &str) -> Window {
    Window {
        address: address.to_string(),
        title: format!("{} window", class),
        class: class.to_string(),
        workspace: WorkspaceRef { id: 1, name: workspace.to_string() },
    }
}

fn app(windows: &[(&str, bool)], all_minimized: bool) -> AppInfo {
    AppInfo {
        class: "kitty".to_string(),
        title: "kitty".to_string(),
        windows: windows
            .iter()
            .map(|(a, m)| WindowInfo { address: a.to_string(), minimized: *m })
            .collect(),
        focused: false,
        all_minimized,
    }
}

#[test]
fn switcher_shows_ordinary_workspaces_by_number() {
    let list = vec![workspace(3, 0), workspace(-98, 2), workspace(1, 4), workspace(10, 1), workspace(2, 0), workspace(-1, 0)];
    let buttons = workspace_buttons(&list, 2);
    let seen: Vec<(i32, &str, ButtonState)> =
        buttons.iter().map(|b| (b.id, b.label.as_str(), b.state)).collect();
    assert_eq!(
        seen,
        vec![
            (1, "1", ButtonState::Occupied),
            (2, "2", ButtonState::Active),
            (3, "3", ButtonState::Plain),
            (10, "10", ButtonState::Occupied),
        ]
    );
    let buttons = workspace_buttons(&vec![workspace(0, 5)], 0);
    assert_eq!(buttons[0].state, ButtonState::Active);
    assert_eq!(buttons[0].label, "0");
    assert!(workspace_buttons(&vec![workspace(-5, 1)], -5).is_empty());
    assert!(workspace_buttons(&Vec::new(), 1).is_empty());
}

#[test]
fn window_title_falls_back_to_the_class() {
    let mut w = window("0x1", "kitty", "1");
    assert_eq!(window_title_text(&w), "kitty window");
    w.title = String::new();
    assert_eq!(window_title_text(&w), "kitty");
    w.class = String::new();
    assert_eq!(window_title_text(&w), "");
}

#[test]
fn bar_is_anchored_by_position() {
    let top = apply_position_anchors("top", 32);
    assert_eq!(top.anchors, Anchors { top: true, bottom: false, left: true, right: true });
    assert!(!top.vertical);
    assert_eq!((top.width, top.height), (-1, 32));
    assert_eq!(top.direction_class, "bar-horizontal");
    assert_eq!(top.position_class, "bar-top");
    let bottom = apply_position_anchors("bottom", 40);
    assert_eq!(bottom.anchors, Anchors { top: false, bottom: true, left: true, right: true });
    assert_eq!((bottom.width, bottom.height), (-1, 40));
    let left = apply_position_anchors("left", 48);
    assert_eq!(left.anchors, Anchors { top: true, bottom: true, left: true, right: false });
    assert!(left.vertical);
    assert_eq!((left.width, left.height), (48, -1));
    assert_eq!(left.direction_class, "bar-vertical");
    assert_eq!(left.position_class, "bar-left");
    let right = apply_position_anchors("right", 48);
    assert_eq!(right.anchors, Anchors { top: true, bottom: true, left: false, right: true });
    assert!(right.vertical);
    let odd = apply_position_anchors("middle", 5);
    assert_eq!(odd.anchors, top.anchors);
    assert!(!odd.vertical);
    assert_eq!(odd.position_class, "bar-middle");
}

#[test]
fn bars_are_made_per_monitor() {
    let connectors = vec![Some("eDP-1".to_string()), None, Some("DP-2".to_string()), Some("DP-2".to_string())];
    assert_eq!(create_bars(&connectors, ""), vec![Some(0), Some(1), Some(2), Some(3)]);
    assert_eq!(create_bars(&Vec::new(), ""), vec![None]);
    assert_eq!(create_bars(&connectors, "DP-2"), vec![Some(2)]);
    assert_eq!(create_bars(&connectors, "eDP-1"), vec![Some(0)]);
    assert_eq!(create_bars(&connectors, "HDMI-1"), vec![None]);
    assert_eq!(create_bars(&connectors, "dp-2"), vec![None]);
    assert_eq!(create_bars(&Vec::new(), "DP-2"), vec![None]);
}

fn expected_css(c: &ThemeColors) -> String {
    format!(
        "\n@define-color void_deep {};\n@define-color void_dark {};\n@define-color void_mid {};\n@define-color void_light {};\n@define-color frost_dark {};\n@define-color frost_mid {};\n@define-color frost_light {};\n@define-color bifrost_blue {};\n@define-color bifrost_cyan {};\n@define-color bifrost_teal {};\n@define-color bifrost_purple {};\n@define-color fire_orange {};\n@define-color fire_red {};\n@define-color fire_ember {};\n@define-color leaf_green {};\n@define-color mead_gold {};\n@define-color bark_brown {};\n@define-color starlight {};\n@define-color moonlight {};\n@define-color sunlight {};\n",
        c.void_deep, c.void_dark, c.void_mid, c.void_light, c.frost_dark, c.frost_mid,
        c.frost_light, c.bifrost_blue, c.bifrost_cyan, c.bifrost_teal, c.bifrost_purple,
        c.fire_orange, c.fire_red, c.fire_ember, c.leaf_green, c.mead_gold, c.bark_brown,
        c.starlight, c.moonlight, c.sunlight
    )
}

#[test]
fn theme_names_its_colours() {
    let nordic = ThemeConfig::default();
    assert_eq!(apply_theme(&nordic), expected_css(&ThemeColors::nordic()));
    let mut custom_colors = ThemeColors::warm();
    custom_colors.void_deep = "#123456".to_string();
    custom_colors.sunlight = "red".to_string();
    let custom = ThemeConfig { preset: "custom".to_string(), colors: custom_colors.clone() };
    assert_eq!(apply_theme(&custom), expected_css(&custom_colors));
    let frost = ThemeConfig { preset: "frost".to_string(), colors: custom_colors.clone() };
    assert_eq!(apply_theme(&frost), expected_css(&ThemeColors::frost()));
    let unknown = ThemeConfig { preset: "Custom".to_string(), colors: custom_colors };
    assert_eq!(apply_theme(&unknown), expected_css(&ThemeColors::nordic()));
    assert!(apply_theme(&nordic).starts_with("\n@define-color void_deep #0d0e14;\n"));
}

#[test]
fn style_sheet_is_looked_for_in_order() {
    assert_eq!(
        find_css("/home/u", "/opt/crowbar/style.css"),
        vec![
            "style.css",
            "/opt/crowbar/style.css",
            "/home/u/.config/crowbar/style.css",
            "/home/u/.local/share/crowbar/style.css",
            "/usr/local/share/crowbar/style.css",
            "/usr/share/crowbar/style.css",
        ]
    );
    assert_eq!(find_css("", "style.css")[2], "/.config/crowbar/style.css");
}

#[test]
fn modules_have_display_names() {
    for (id, name) in [
        ("workspaces", "Workspaces"),
        ("window_title", "Window Title"),
        ("app_tracker", "App Tracker"),
        ("media", "Media"),
        ("app_finder", "App Finder"),
        ("systray", "System Tray"),
        ("connectivity", "Connectivity"),
        ("audio", "Audio"),
        ("brightness", "Brightness"),
        ("power", "Power"),
        ("battery", "Battery"),
        ("clock", "Clock"),
        ("power_menu", "Power Menu"),
        ("separator", "separator"),
        ("settings", "settings"),
        ("", ""),
        ("Clock", "Clock"),
        ("my module", "my module"),
    ] {
        assert_eq!(module_display_name(id), name);
    }
}

fn battery(capacity: i32, status: BatteryStatus, secs: u64) -> BatteryInfo {
    BatteryInfo {
        name: "BAT0".to_string(),
        capacity,
        status,
        energy_now: 0,
        energy_full: 0,
        power_now: 0,
        time_remaining: Duration::from_secs(secs),
    }
}

#[test]
fn battery_label_and_tooltip() {
    let l = refresh_battery(&battery(55, BatteryStatus::Discharging, 7500));
    assert_eq!(l.text, "55%");
    assert_eq!(l.class, None);
    assert_eq!(l.tooltip, "55% - Discharging\n2h 5m remaining");
    let l = refresh_battery(&battery(5, BatteryStatus::Charging, 600));
    assert_eq!(l.class, Some("charging"));
    assert_eq!(l.tooltip, "5% - Charging\n10m until full");
    let l = refresh_battery(&battery(100, BatteryStatus::Full, 600));
    assert_eq!(l.class, None);
    assert_eq!(l.tooltip, "100% - Fully charged");
    let l = refresh_battery(&battery(10, BatteryStatus::NotCharging, 0));
    assert_eq!(l.class, Some("critical"));
    assert_eq!(l.tooltip, "10% - Not charging");
    let l = refresh_battery(&battery(11, BatteryStatus::Unknown, 0));
    assert_eq!(l.class, Some("low"));
    assert_eq!(l.tooltip, "11% - Unknown");
    let l = refresh_battery(&battery(20, BatteryStatus::Discharging, 0));
    assert_eq!(l.class, Some("low"));
    assert_eq!(l.tooltip, "20% - Discharging");
    let l = refresh_battery(&battery(21, BatteryStatus::Discharging, 59));
    assert_eq!(l.class, None);
    assert_eq!(l.tooltip, "21% - Discharging\n0m remaining");
    let l = refresh_battery(&battery(-3, BatteryStatus::Discharging, 0));
    assert_eq!(l.text, "-3%");
    assert_eq!(l.class, Some("critical"));
}

#[test]
fn time_zone_is_named() {
    assert_eq!(get_timezone_name(Some("Europe/Berlin\n"), Some("/usr/share/zoneinfo/UTC"), Some("X")), "Europe/Berlin");
    assert_eq!(
        get_timezone_name(Some(" \n"), Some("/usr/share/zoneinfo/America/New_York"), Some("X")),
        "America/New_York"
    );
    assert_eq!(
        get_timezone_name(None, Some("../zoneinfo/zoneinfo/Etc/UTC"), None),
        "zoneinfo/Etc/UTC"
    );
    assert_eq!(get_timezone_name(None, Some("/usr/share/zoneinfo/"), None), "");
    assert_eq!(get_timezone_name(None, Some("/etc/elsewhere"), Some(" Asia/Tokyo \n")), "Asia/Tokyo");
    assert_eq!(get_timezone_name(None, None, Some("\n")), "Unknown");
    assert_eq!(get_timezone_name(None, None, None), "Unknown");
}

#[test]
fn ntp_status_is_worded() {
    assert_eq!(get_ntp_status(Some("yes\n")), (true, "Active \u{2713}".to_string()));
    assert_eq!(get_ntp_status(Some(" YES ")), (true, "Active \u{2713}".to_string()));
    assert_eq!(get_ntp_status(Some("no")), (false, "Inactive".to_string()));
    assert_eq!(get_ntp_status(Some("yes please")), (false, "Inactive".to_string()));
    assert_eq!(get_ntp_status(Some("")), (false, "Inactive".to_string()));
    assert_eq!(get_ntp_status(None), (false, "Inactive".to_string()));
}

#[test]
fn windows_are_grouped_by_application() {
    let windows = vec![
        window("0x1", "kitty", "1"),
        window("0x2", "Firefox", "2"),
        window("0x3", "", "2"),
        window("0x4", "Kitty", "special:minimized"),
        window("0x5", "firefox", "special:minimized-2"),
        window("0x6", "mpv", "special:minimized"),
        window("0x7", "Code", "special:scratch"),
    ];
    let active = window("0x4", "KITTY", "1");
    let apps = group_apps(&windows, Some(&active));
    let seen: Vec<(&str, &str, Vec<(&str, bool)>, bool, bool)> = apps
        .iter()
        .map(|a| {
            (
                a.class.as_str(),
                a.title.as_str(),
                a.windows.iter().map(|w| (w.address.as_str(), w.minimized)).collect(),
                a.focused,
                a.all_minimized,
            )
        })
        .collect();
    assert_eq!(
        seen,
        vec![
            ("code", "Code", vec![("0x7", false)], false, false),
            ("firefox", "Firefox", vec![("0x2", false), ("0x5", true)], false, false),
            ("kitty", "kitty", vec![("0x1", false), ("0x4", true)], true, false),
            ("mpv", "mpv", vec![("0x6", true)], false, true),
        ]
    );
    let apps = group_apps(&windows, None);
    assert!(apps.iter().all(|a| !a.focused));
    assert_eq!(apps.len(), 4);
    assert!(group_apps(&Vec::new(), Some(&active)).is_empty());
    let nameless = window("0x9", "", "1");
    let apps = group_apps(&windows, Some(&nameless));
    assert!(apps.iter().all(|a| !a.focused));
}

#[test]
fn clicks_on_applications() {
    assert!(matches!(on_app_clicked(&app(&[], false)), AppClick::Nothing));
    assert!(matches!(on_app_clicked(&app(&[], true)), AppClick::Nothing));
    match on_app_clicked(&app(&[("a", true), ("b", true)], true)) {
        AppClick::Restore(address) => assert_eq!(address, "a"),
        _ => panic!("expected a restore"),
    }
    match on_app_clicked(&app(&[("a", false)], true)) {
        AppClick::Restore(address) => assert_eq!(address, "a"),
        _ => panic!("expected a restore"),
    }
    assert!(matches!(on_app_clicked(&app(&[("a", true)], false)), AppClick::Nothing));
    match on_app_clicked(&app(&[("a", true), ("b", false), ("c", true)], false)) {
        AppClick::Focus(address) => assert_eq!(address, "b"),
        _ => panic!("expected a focus"),
    }
    assert!(matches!(
        on_app_clicked(&app(&[("a", false), ("b", true), ("c", false)], false)),
        AppClick::Cycle
    ));
}

#[test]
fn windows_are_cycled_through() {
    let a = app(&[("a", false), ("b", true), ("c", false), ("d", false)], false);
    assert_eq!(cycle_target(&a, "a"), Some("c".to_string()));
    assert_eq!(cycle_target(&a, "c"), Some("d".to_string()));
    assert_eq!(cycle_target(&a, "d"), Some("a".to_string()));
    assert_eq!(cycle_target(&a, "b"), Some("a".to_string()));
    assert_eq!(cycle_target(&a, ""), Some("a".to_string()));
    assert_eq!(cycle_target(&a, "elsewhere"), Some("a".to_string()));
    assert_eq!(cycle_target(&app(&[("a", false)], false), "a"), Some("a".to_string()));
    assert_eq!(cycle_target(&app(&[("a", true)], false), "a"), None);
    assert_eq!(cycle_target(&app(&[], false), "a"), None);
    let twins = app(&[("x", false), ("x", false), ("y", false)], false);
    assert_eq!(cycle_target(&twins, "x"), Some("x".to_string()));
}

#[test]
fn icons_are_looked_up_by_class() {
    assert_eq!(icon_candidates("Code"), ("visual-studio-code".to_string(), "code".to_string()));
    assert_eq!(icon_candidates("alacritty"), ("Alacritty".to_string(), "alacritty".to_string()));
    assert_eq!(icon_candidates("telegram-desktop").0, "telegram");
    assert_eq!(icon_candidates("LibreOffice").0, "libreoffice-startcenter");
    assert_eq!(icon_candidates("firefox"), ("firefox".to_string(), "firefox".to_string()));
    assert_eq!(icon_candidates("Gnome-Calculator"), ("Gnome-Calculator".to_string(), "gnome-calculator".to_string()));
    assert_eq!(icon_candidates(""), (String::new(), String::new()));
    for class in ["chromium", "google-chrome", "code-oss", "discord", "spotify", "steam", "thunar", "nautilus", "kitty", "foot", "wezterm", "obsidian", "vlc", "mpv", "gimp", "inkscape", "blender"] {
        assert_eq!(icon_candidates(class).0, class);
        assert_eq!(icon_candidates(&class.to_uppercase()).0, class);
    }
    let names = ("first".to_string(), "second".to_string());
    assert_eq!(get_app_icon(&names, true, true), "first");
    assert_eq!(get_app_icon(&names, true, false), "first");
    assert_eq!(get_app_icon(&names, false, true), "second");
    assert_eq!(get_app_icon(&names, false, false), "application-x-executable");
}

fn tray_item(service: &str, path: &str, icon: &str, title: &str) -> TrayItem {
    TrayItem {
        service: service.to_string(),
        path: path.to_string(),
        icon_name: icon.to_string(),
        title: title.to_string(),
    }
}

#[test]
fn tray_is_brought_up_to_date() {
    let items = vec![
        tray_item("a", "/1", "icon-a", "A"),
        tray_item("b", "/1", "", ""),
        tray_item("c", "/1", "icon-c", ""),
        tray_item("b", "/1", "late", "Late"),
    ];
    let shown = vec!["gone/1".to_string(), "a/1".to_string(), "old".to_string()];
    let refresh = refresh_tray(&items, &shown);
    let added: Vec<(&str, &str, &str)> = refresh
        .add
        .iter()
        .map(|i| (i.key.as_str(), i.icon_name.as_str(), i.tooltip.as_str()))
        .collect();
    assert_eq!(
        added,
        vec![("b/1", "application-x-executable-symbolic", "b"), ("c/1", "icon-c", "c")]
    );
    assert_eq!(refresh.remove, vec!["gone/1", "old"]);
    assert!(refresh.visible);
    let refresh = refresh_tray(&Vec::new(), &shown);
    assert!(refresh.add.is_empty());
    assert_eq!(refresh.remove, shown);
    assert!(!refresh.visible);
    let refresh = refresh_tray(&items, &Vec::new());
    assert_eq!(refresh.add.len(), 3);
    assert!(refresh.remove.is_empty());
    let refresh = refresh_tray(&Vec::new(), &Vec::new());
    assert!(refresh.add.is_empty() && refresh.remove.is_empty() && !refresh.visible);
}

#[test]
fn volume_labels() {
    let l = refresh_audio(&AudioInfo { volume: 40, muted: false, available: true }).expect("label");
    assert_eq!(l.text, "40%");
    assert!(!l.muted);
    assert_eq!(l.level, 40);
    assert_eq!(l.tooltip, "Volume: 40%\nClick to adjust");
    let l = refresh_audio(&AudioInfo { volume: 150, muted: true, available: true }).expect("label");
    assert_eq!(l.text, "Muted");
    assert!(l.muted);
    assert_eq!(l.tooltip, "Volume: 150%\nClick to adjust");
    assert!(refresh_audio(&AudioInfo { volume: 40, muted: true, available: false }).is_none());
    assert_eq!(
        refresh_source_audio(&SourceInfo { volume: 7, muted: false, available: true }),
        Some(("7%".to_string(), 7, false))
    );
    assert_eq!(
        refresh_source_audio(&SourceInfo { volume: 7, muted: true, available: true }),
        Some(("Muted".to_string(), 7, true))
    );
    assert_eq!(refresh_source_audio(&SourceInfo { volume: 7, muted: true, available: false }), None);
}

#[test]
fn brightness_label() {
    let info = BrightnessInfo {
        device: "intel_backlight".to_string(),
        brightness: 48,
        max_brightness: 96,
        percent: 50,
        available: true,
    };
    assert_eq!(
        refresh_brightness(&info),
        ("50%".to_string(), "Brightness: 50%\nDevice: intel_backlight\nClick to adjust".to_string())
    );
}

fn media(status: PlaybackStatus, title: &str, artist: &str, player: &str) -> MediaInfo {
    MediaInfo {
        available: true,
        status,
        title: title.to_string(),
        artist: artist.to_string(),
        album: String::new(),
        player: player.to_string(),
        position: 61_000_000,
        length: 200_000_000,
    }
}

#[test]
fn media_label() {
    let l = refresh_media(&media(PlaybackStatus::Playing, "A rather long title of a song", "Band", "mpv"))
        .expect("label");
    assert_eq!(l.status_icon, "media-playback-start-symbolic");
    assert_eq!(l.class, Some("playing"));
    assert_eq!(l.bar_title, "A rather long tit...");
    assert_eq!(l.track_title, "A rather long title of a song");
    assert_eq!(l.artist, Some("Band".to_string()));
    assert_eq!(l.play_pause_icon, "media-playback-pause-symbolic");
    assert_eq!(l.position, "1:01 / 3:20");
    assert_eq!(l.tooltip, "A rather long title of a song\nBand\nPlayer: mpv");
    let mut info = media(PlaybackStatus::Paused, "Short", "", "");
    info.length = 0;
    let l = refresh_media(&info).expect("label");
    assert_eq!(l.status_icon, "media-playback-pause-symbolic");
    assert_eq!(l.class, Some("paused"));
    assert_eq!(l.bar_title, "Short");
    assert_eq!(l.artist, None);
    assert_eq!(l.play_pause_icon, "media-playback-start-symbolic");
    assert_eq!(l.position, "0:00 / 0:00");
    assert_eq!(l.tooltip, "Short\n");
}

#[test]
fn media_that_is_not_shown() {
    assert!(refresh_media(&media(PlaybackStatus::Stopped, "t", "a", "p")).is_none());
    assert!(refresh_media(&media(PlaybackStatus::Unknown, "t", "a", "p")).is_none());
    assert!(refresh_media(&media(PlaybackStatus::Playing, "", "a", "p")).is_none());
    let mut info = media(PlaybackStatus::Playing, "t", "a", "p");
    info.available = false;
    assert!(refresh_media(&info).is_none());
}

#[test]
fn titles_that_can_be_cut() {
    assert!(check_title_can_be_cut("short"));
    assert!(check_title_can_be_cut("exactly twenty chars"));
    assert!(check_title_can_be_cut("more than twenty characters"));
    assert!(!check_title_can_be_cut("0123456789abcdefé and more"));
    assert!(check_title_can_be_cut("0123456789abcdeéé and more"));
    assert!(check_title_can_be_cut("0123456789abcdefgé and more"));
    assert!(check_title_can_be_cut("éééééééééé"));
}

#[test]
fn rows_of_the_settings() {
    assert_eq!(module_row_name("separator"), "\u{2500}\u{2500} Separator \u{2500}\u{2500}");
    assert_eq!(module_row_name("clock"), "Clock");
    assert_eq!(module_row_name("custom"), "custom");
}

fn wifi(enabled: bool, connected: bool) -> WiFiInfo {
    WiFiInfo { enabled, connected, ssid: "Home".to_string(), signal: 70 }
}

fn bluetooth(available: bool, powered: bool, connected: bool) -> BluetoothInfo {
    BluetoothInfo { available, powered, connected, device: "Headset".to_string() }
}

#[test]
fn connectivity_labels() {
    let l = refresh_connectivity(&wifi(true, true), &bluetooth(true, true, true));
    assert_eq!(l.wifi, "Home (70%)");
    assert_eq!(l.bluetooth, "Headset");
    assert!(l.bluetooth_switchable && l.bluetooth_on);
    assert_eq!(l.tooltip, "WiFi: Home (70%)\nBluetooth: Headset\nClick to manage");
    let l = refresh_connectivity(&wifi(false, true), &bluetooth(false, true, true));
    assert_eq!(l.wifi, "Disabled");
    assert_eq!(l.bluetooth, "Not available");
    assert!(!l.bluetooth_switchable && !l.bluetooth_on);
    assert_eq!(l.tooltip, "WiFi: Disabled\nBluetooth: Not available\nClick to manage");
    let l = refresh_connectivity(&wifi(true, false), &bluetooth(true, false, true));
    assert_eq!(l.wifi, "Not connected");
    assert_eq!(l.bluetooth, "Disabled");
    assert!(l.bluetooth_switchable && !l.bluetooth_on);
    assert_eq!(
        l.tooltip,
        "WiFi: Enabled (not connected)\nBluetooth: Disabled\nClick to manage"
    );
    let l = refresh_connectivity(&wifi(true, false), &bluetooth(true, true, false));
    assert_eq!(l.bluetooth, "Not connected");
    assert_eq!(
        l.tooltip,
        "WiFi: Enabled (not connected)\nBluetooth: Enabled (not connected)\nClick to manage"
    );
}

#[test]
fn power_menu_commands() {
    let line = |a| {
        let c = power_menu_command(a);
        format!("{} {}", c.program, c.args.join(" "))
    };
    assert_eq!(line(PowerAction::Lock), "loginctl lock-session");
    assert_eq!(line(PowerAction::Logout), "hyprctl dispatch exit");
    assert_eq!(line(PowerAction::Suspend), "systemctl suspend");
    assert_eq!(line(PowerAction::Reboot), "systemctl reboot");
    assert_eq!(line(PowerAction::Shutdown), "systemctl poweroff");
}
