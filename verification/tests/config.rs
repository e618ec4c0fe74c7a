use crowbar::config::{
    BarConfig, ClockConfig, Config, IntervalsConfig, ModulesConfig, ThemeColors, ThemeConfig,
};

#[test]
fn clock_defaults() {
    let c = ClockConfig::default();
    assert!(!c.use_12h);
    assert!(!c.show_seconds);
    assert!(c.show_ntp_status);
}

#[test]
fn bar_defaults() {
    let b = BarConfig::default();
    assert_eq!(b.height, 32);
    assert_eq!(b.position, "top");
    assert_eq!(b.monitor, "");
}

#[test]
fn module_defaults() {
    let m = ModulesConfig::default();
    assert_eq!(m.left, vec!["workspaces", "separator", "app_tracker", "media", "app_finder"]);
    assert_eq!(
        m.right,
        vec![
            "systray",
            "connectivity",
            "audio",
            "brightness",
            "power",
            "battery",
            "separator",
            "clock",
            "settings",
            "power_menu"
        ]
    );
}

#[test]
fn interval_defaults() {
    let i = IntervalsConfig::default();
    assert_eq!(
        (i.clock, i.battery, i.power, i.brightness, i.connectivity, i.media, i.app_tracker),
        (1, 30, 10, 5, 5, 2, 2)
    );
}

#[test]
fn theme_defaults_to_nordic() {
    let t = ThemeConfig::default();
    assert_eq!(t.preset, "nordic");
    assert_eq!(t.colors.void_deep, "#0d0e14");
    assert_eq!(ThemeColors::default().sunlight, "#ffc777");
}

#[test]
fn presets_have_their_palettes() {
    let n = ThemeColors::nordic();
    assert_eq!(n.void_deep, "#0d0e14");
    assert_eq!(n.bifrost_blue, "#7aa2f7");
    assert_eq!(n.fire_red, "#f7768e");
    assert_eq!(n.moonlight, "#a9b1d6");
    let l = ThemeColors::light();
    assert_eq!(l.void_deep, "#e8e8ed");
    assert_eq!(l.frost_light, "#b0b0be");
    assert_eq!(l.sunlight, "#c09030");
    let w = ThemeColors::warm();
    assert_eq!(w.void_mid, "#2a2018");
    assert_eq!(w.bark_brown, "#8a6642");
    assert_eq!(w.mead_gold, "#f0c060");
    let f = ThemeColors::frost();
    assert_eq!(f.void_light, "#1a2d4a");
    assert_eq!(f.bifrost_cyan, "#a0e8ff");
    assert_eq!(f.leaf_green, "#80d888");
    assert_eq!(f.starlight, "#e0f0ff");
}

#[test]
fn presets_are_chosen_by_name() {
    assert_eq!(ThemeColors::for_preset("light").void_deep, "#e8e8ed");
    assert_eq!(ThemeColors::for_preset("warm").void_deep, "#1a1410");
    assert_eq!(ThemeColors::for_preset("frost").void_deep, "#0a1628");
    assert_eq!(ThemeColors::for_preset("nordic").void_deep, "#0d0e14");
    assert_eq!(ThemeColors::for_preset("").void_deep, "#0d0e14");
    assert_eq!(ThemeColors::for_preset("Light").void_deep, "#0d0e14");
    assert_eq!(ThemeColors::for_preset("frost ").void_deep, "#0d0e14");
}

#[test]
fn whole_configuration_defaults() {
    let c = Config::default();
    assert_eq!(c.bar.height, 32);
    assert_eq!(c.modules.left.len(), 5);
    assert_eq!(c.modules.right.len(), 10);
    assert_eq!(c.intervals.battery, 30);
    assert_eq!(c.theme.preset, "nordic");
    assert!(c.clock.show_ntp_status);
}

#[test]
fn configuration_file_is_below_home() {
    assert_eq!(Config::config_dir("/home/u"), "/home/u/.config/crowbar");
    assert_eq!(Config::config_path("/home/u"), "/home/u/.config/crowbar/config.toml");
    assert_eq!(Config::config_path(""), "/.config/crowbar/config.toml");
}

#[test]
fn missing_configuration_falls_back_to_defaults() {
    assert_eq!(Config::or_default(None).bar.position, "top");
    let mut custom = Config::default();
    custom.bar.position = "bottom".to_string();
    custom.bar.height = 40;
    let kept = Config::or_default(Some(custom));
    assert_eq!(kept.bar.position, "bottom");
    assert_eq!(kept.bar.height, 40);
}

#[test]
fn modules_move_up_and_down() {
    let mut m = ModulesConfig::default();
    m.move_up(true, 2);
    assert_eq!(m.left, vec!["workspaces", "app_tracker", "separator", "media", "app_finder"]);
    m.move_up(true, 0);
    m.move_up(true, 5);
    m.move_up(true, usize::MAX);
    assert_eq!(m.left, vec!["workspaces", "app_tracker", "separator", "media", "app_finder"]);
    m.move_down(true, 0);
    assert_eq!(m.left, vec!["app_tracker", "workspaces", "separator", "media", "app_finder"]);
    m.move_down(true, 4);
    m.move_down(true, usize::MAX);
    assert_eq!(m.left, vec!["app_tracker", "workspaces", "separator", "media", "app_finder"]);
    m.move_down(true, 3);
    assert_eq!(m.left, vec!["app_tracker", "workspaces", "separator", "app_finder", "media"]);
    assert_eq!(m.right.len(), 10);
    m.move_up(false, 9);
    assert_eq!(m.right[8], "power_menu");
    assert_eq!(m.right[9], "settings");
    m.move_down(false, 0);
    assert_eq!(m.right[0], "connectivity");
    assert_eq!(m.right[1], "systray");
    assert_eq!(m.left.len(), 5);
}

#[test]
fn modules_are_taken_out_and_put_in() {
    let mut m = ModulesConfig::default();
    m.remove(true, 1);
    assert_eq!(m.left, vec!["workspaces", "app_tracker", "media", "app_finder"]);
    m.remove(true, 4);
    m.remove(true, usize::MAX);
    assert_eq!(m.left.len(), 4);
    m.remove(false, 9);
    assert_eq!(m.right.len(), 9);
    assert_eq!(m.right[8], "settings");
    m.add(true, "media");
    assert_eq!(m.left.len(), 4);
    m.add(true, "clock");
    assert_eq!(m.left, vec!["workspaces", "app_tracker", "media", "app_finder", "clock"]);
    m.add(false, "clock");
    assert_eq!(m.right.len(), 9);
    m.add(false, "power_menu");
    assert_eq!(m.right[9], "power_menu");
    m.add(false, "separator");
    assert_eq!(m.right.len(), 10);
}

#[test]
fn modules_that_are_placed_nowhere() {
    let mut m = ModulesConfig::default();
    assert_eq!(m.disabled(), vec!["window_title"]);
    m.remove(true, 0);
    m.remove(false, 7);
    assert_eq!(m.disabled(), vec!["workspaces", "window_title", "clock"]);
    m.add(false, "window_title");
    assert_eq!(m.disabled(), vec!["workspaces", "clock"]);
    let empty = ModulesConfig { left: Vec::new(), right: vec!["separator".to_string()] };
    assert_eq!(empty.disabled().len(), 13);
    assert_eq!(empty.disabled()[12], "power_menu");
}
