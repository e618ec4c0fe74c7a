//! The bar's configuration: its sections, their defaults, and the colour
//! palettes of the theme presets.

use vstd::prelude::*;
use crate::text::{chars_of, is_text, lemma_filter_next, owned, same_chars, texts};

verus! {

/// How the clock shows the time.
#[derive(Debug, Clone)]
pub struct ClockConfig {
    pub use_12h: bool,
    pub show_seconds: bool,
    pub show_ntp_status: bool,
}

impl Default for ClockConfig {
    fn default() -> (made: ClockConfig)
        ensures
            !made.use_12h,
            !made.show_seconds,
            made.show_ntp_status,
    {
        ClockConfig { use_12h: false, show_seconds: false, show_ntp_status: true }
    }
}

/// Where the bar stands and how high it is.
#[derive(Debug, Clone)]
pub struct BarConfig {
    pub height: i32,
    pub position: String,
    pub monitor: String,
}

impl Default for BarConfig {
    fn default() -> (made: BarConfig)
        ensures
            made.height == 32,
            made.position@ == "top"@,
            made.monitor@ == Seq::<char>::empty(),
    {
        BarConfig { height: 32, position: owned("top"), monitor: String::new() }
    }
}

/// The modules on the left and on the right of the bar, in their order.
#[derive(Debug, Clone)]
pub struct ModulesConfig {
    pub left: Vec<String>,
    pub right: Vec<String>,
}

/// The modules that stand on the left by default.
pub open spec fn default_left_modules() -> Seq<Seq<char>> {
    seq!["workspaces"@, "separator"@, "app_tracker"@, "media"@, "app_finder"@]
}

/// The modules that stand on the right by default.
pub open spec fn default_right_modules() -> Seq<Seq<char>> {
    seq![
        "systray"@,
        "connectivity"@,
        "audio"@,
        "brightness"@,
        "power"@,
        "battery"@,
        "separator"@,
        "clock"@,
        "settings"@,
        "power_menu"@,
    ]
}

impl Default for ModulesConfig {
    fn default() -> (made: ModulesConfig)
        ensures
            texts(made.left@) == default_left_modules(),
            texts(made.right@) == default_right_modules(),
    {
        let mut left: Vec<String> = Vec::new();
        left.push(owned("workspaces"));
        left.push(owned("separator"));
        left.push(owned("app_tracker"));
        left.push(owned("media"));
        left.push(owned("app_finder"));
        let mut right: Vec<String> = Vec::new();
        right.push(owned("systray"));
        right.push(owned("connectivity"));
        right.push(owned("audio"));
        right.push(owned("brightness"));
        right.push(owned("power"));
        right.push(owned("battery"));
        right.push(owned("separator"));
        right.push(owned("clock"));
        right.push(owned("settings"));
        right.push(owned("power_menu"));
        assert(texts(left@) =~= default_left_modules());
        assert(texts(right@) =~= default_right_modules());
        ModulesConfig { left, right }
    }
}

/// The seconds between two refreshes of each module.
#[derive(Debug, Clone)]
pub struct IntervalsConfig {
    pub clock: u32,
    pub battery: u32,
    pub power: u32,
    pub brightness: u32,
    pub connectivity: u32,
    pub media: u32,
    pub app_tracker: u32,
}

impl Default for IntervalsConfig {
    fn default() -> (made: IntervalsConfig)
        ensures
            made.clock == 1,
            made.battery == 30,
            made.power == 10,
            made.brightness == 5,
            made.connectivity == 5,
            made.media == 2,
            made.app_tracker == 2,
    {
        IntervalsConfig {
            clock: 1,
            battery: 30,
            power: 10,
            brightness: 5,
            connectivity: 5,
            media: 2,
            app_tracker: 2,
        }
    }
}

/// The colours of a theme.
#[derive(Debug, Clone)]
pub struct ThemeColors {
    pub void_deep: String,
    pub void_dark: String,
    pub void_mid: String,
    pub void_light: String,
    pub frost_dark: String,
    pub frost_mid: String,
    pub frost_light: String,
    pub bifrost_blue: String,
    pub bifrost_cyan: String,
    pub bifrost_teal: String,
    pub bifrost_purple: String,
    pub fire_orange: String,
    pub fire_red: String,
    pub fire_ember: String,
    pub leaf_green: String,
    pub mead_gold: String,
    pub bark_brown: String,
    pub starlight: String,
    pub moonlight: String,
    pub sunlight: String,
}

/// What a palette holds.
pub struct ThemeColorsView {
    pub void_deep: Seq<char>,
    pub void_dark: Seq<char>,
    pub void_mid: Seq<char>,
    pub void_light: Seq<char>,
    pub frost_dark: Seq<char>,
    pub frost_mid: Seq<char>,
    pub frost_light: Seq<char>,
    pub bifrost_blue: Seq<char>,
    pub bifrost_cyan: Seq<char>,
    pub bifrost_teal: Seq<char>,
    pub bifrost_purple: Seq<char>,
    pub fire_orange: Seq<char>,
    pub fire_red: Seq<char>,
    pub fire_ember: Seq<char>,
    pub leaf_green: Seq<char>,
    pub mead_gold: Seq<char>,
    pub bark_brown: Seq<char>,
    pub starlight: Seq<char>,
    pub moonlight: Seq<char>,
    pub sunlight: Seq<char>,
}

impl View for ThemeColors {
    type V = ThemeColorsView;

    open spec fn view(&self) -> ThemeColorsView {
        ThemeColorsView {
            void_deep: self.void_deep@,
            void_dark: self.void_dark@,
            void_mid: self.void_mid@,
            void_light: self.void_light@,
            frost_dark: self.frost_dark@,
            frost_mid: self.frost_mid@,
            frost_light: self.frost_light@,
            bifrost_blue: self.bifrost_blue@,
            bifrost_cyan: self.bifrost_cyan@,
            bifrost_teal: self.bifrost_teal@,
            bifrost_purple: self.bifrost_purple@,
            fire_orange: self.fire_orange@,
            fire_red: self.fire_red@,
            fire_ember: self.fire_ember@,
            leaf_green: self.leaf_green@,
            mead_gold: self.mead_gold@,
            bark_brown: self.bark_brown@,
            starlight: self.starlight@,
            moonlight: self.moonlight@,
            sunlight: self.sunlight@,
        }
    }
}

/// The palette of the preset `nordic`, which is also the default.
pub open spec fn nordic_palette() -> ThemeColorsView {
    ThemeColorsView {
        void_deep: "#0d0e14"@,
        void_dark: "#13141c"@,
        void_mid: "#1a1b26"@,
        void_light: "#1e2030"@,
        frost_dark: "#24283b"@,
        frost_mid: "#2f3549"@,
        frost_light: "#3b4261"@,
        bifrost_blue: "#7aa2f7"@,
        bifrost_cyan: "#7dcfff"@,
        bifrost_teal: "#73daca"@,
        bifrost_purple: "#bb9af7"@,
        fire_orange: "#ff9e64"@,
        fire_red: "#f7768e"@,
        fire_ember: "#db4b4b"@,
        leaf_green: "#9ece6a"@,
        mead_gold: "#e0af68"@,
        bark_brown: "#8a6642"@,
        starlight: "#c0caf5"@,
        moonlight: "#a9b1d6"@,
        sunlight: "#ffc777"@,
    }
}

/// The palette of the preset `light`.
pub open spec fn light_palette() -> ThemeColorsView {
    ThemeColorsView {
        void_deep: "#e8e8ed"@,
        void_dark: "#f0f0f4"@,
        void_mid: "#f5f5f8"@,
        void_light: "#fafafe"@,
        frost_dark: "#d0d0d8"@,
        frost_mid: "#c0c0cc"@,
        frost_light: "#b0b0be"@,
        bifrost_blue: "#3d6bb5"@,
        bifrost_cyan: "#2a8fa8"@,
        bifrost_teal: "#2d9a7e"@,
        bifrost_purple: "#7c5cbf"@,
        fire_orange: "#c97030"@,
        fire_red: "#c4455a"@,
        fire_ember: "#a83030"@,
        leaf_green: "#5a8a2a"@,
        mead_gold: "#b08030"@,
        bark_brown: "#6a4a2a"@,
        starlight: "#2a2a3a"@,
        moonlight: "#3a3a4a"@,
        sunlight: "#c09030"@,
    }
}

/// The palette of the preset `warm`.
pub open spec fn warm_palette() -> ThemeColorsView {
    ThemeColorsView {
        void_deep: "#1a1410"@,
        void_dark: "#201a14"@,
        void_mid: "#2a2018"@,
        void_light: "#33281e"@,
        frost_dark: "#3d3028"@,
        frost_mid: "#4a3a30"@,
        frost_light: "#5a4a3a"@,
        bifrost_blue: "#c49a6c"@,
        bifrost_cyan: "#d4aa7c"@,
        bifrost_teal: "#8cb070"@,
        bifrost_purple: "#c08a9a"@,
        fire_orange: "#ff9e64"@,
        fire_red: "#e07060"@,
        fire_ember: "#c05040"@,
        leaf_green: "#a0b868"@,
        mead_gold: "#f0c060"@,
        bark_brown: "#8a6642"@,
        starlight: "#e0d0c0"@,
        moonlight: "#c8b8a0"@,
        sunlight: "#ffd080"@,
    }
}

/// The palette of the preset `frost`.
pub open spec fn frost_palette() -> ThemeColorsView {
    ThemeColorsView {
        void_deep: "#0a1628"@,
        void_dark: "#0f1d35"@,
        void_mid: "#142540"@,
        void_light: "#1a2d4a"@,
        frost_dark: "#203858"@,
        frost_mid: "#2a4a6a"@,
        frost_light: "#3a5a7a"@,
        bifrost_blue: "#88ccff"@,
        bifrost_cyan: "#a0e8ff"@,
        bifrost_teal: "#70e0d0"@,
        bifrost_purple: "#a0b0ff"@,
        fire_orange: "#ffb880"@,
        fire_red: "#ff8898"@,
        fire_ember: "#e06070"@,
        leaf_green: "#80d888"@,
        mead_gold: "#e8c878"@,
        bark_brown: "#6a8090"@,
        starlight: "#e0f0ff"@,
        moonlight: "#c0d8f0"@,
        sunlight: "#ffe8a0"@,
    }
}

/// The palette that a preset's name stands for: `light`, `warm` and `frost`
/// name their own, every other name stands for `nordic`.
pub open spec fn preset_palette(preset: Seq<char>) -> ThemeColorsView {
    if preset == "light"@ {
        light_palette()
    } else if preset == "warm"@ {
        warm_palette()
    } else if preset == "frost"@ {
        frost_palette()
    } else {
        nordic_palette()
    }
}

impl ThemeColors {
    /// The palette of the preset `nordic`, which is also the default.
    pub fn nordic() -> (made: ThemeColors)
        ensures
            made@ == nordic_palette(),
    {
        ThemeColors {
            void_deep: owned("#0d0e14"),
            void_dark: owned("#13141c"),
            void_mid: owned("#1a1b26"),
            void_light: owned("#1e2030"),
            frost_dark: owned("#24283b"),
            frost_mid: owned("#2f3549"),
            frost_light: owned("#3b4261"),
            bifrost_blue: owned("#7aa2f7"),
            bifrost_cyan: owned("#7dcfff"),
            bifrost_teal: owned("#73daca"),
            bifrost_purple: owned("#bb9af7"),
            fire_orange: owned("#ff9e64"),
            fire_red: owned("#f7768e"),
            fire_ember: owned("#db4b4b"),
            leaf_green: owned("#9ece6a"),
            mead_gold: owned("#e0af68"),
            bark_brown: owned("#8a6642"),
            starlight: owned("#c0caf5"),
            moonlight: owned("#a9b1d6"),
            sunlight: owned("#ffc777"),
        }
    }

    /// The palette of the preset `light`.
    pub fn light() -> (made: ThemeColors)
        ensures
            made@ == light_palette(),
    {
        ThemeColors {
            void_deep: owned("#e8e8ed"),
            void_dark: owned("#f0f0f4"),
            void_mid: owned("#f5f5f8"),
            void_light: owned("#fafafe"),
            frost_dark: owned("#d0d0d8"),
            frost_mid: owned("#c0c0cc"),
            frost_light: owned("#b0b0be"),
            bifrost_blue: owned("#3d6bb5"),
            bifrost_cyan: owned("#2a8fa8"),
            bifrost_teal: owned("#2d9a7e"),
            bifrost_purple: owned("#7c5cbf"),
            fire_orange: owned("#c97030"),
            fire_red: owned("#c4455a"),
            fire_ember: owned("#a83030"),
            leaf_green: owned("#5a8a2a"),
            mead_gold: owned("#b08030"),
            bark_brown: owned("#6a4a2a"),
            starlight: owned("#2a2a3a"),
            moonlight: owned("#3a3a4a"),
            sunlight: owned("#c09030"),
        }
    }

    /// The palette of the preset `warm`.
    pub fn warm() -> (made: ThemeColors)
        ensures
            made@ == warm_palette(),
    {
        ThemeColors {
            void_deep: owned("#1a1410"),
            void_dark: owned("#201a14"),
            void_mid: owned("#2a2018"),
            void_light: owned("#33281e"),
            frost_dark: owned("#3d3028"),
            frost_mid: owned("#4a3a30"),
            frost_light: owned("#5a4a3a"),
            bifrost_blue: owned("#c49a6c"),
            bifrost_cyan: owned("#d4aa7c"),
            bifrost_teal: owned("#8cb070"),
            bifrost_purple: owned("#c08a9a"),
            fire_orange: owned("#ff9e64"),
            fire_red: owned("#e07060"),
            fire_ember: owned("#c05040"),
            leaf_green: owned("#a0b868"),
            mead_gold: owned("#f0c060"),
            bark_brown: owned("#8a6642"),
            starlight: owned("#e0d0c0"),
            moonlight: owned("#c8b8a0"),
            sunlight: owned("#ffd080"),
        }
    }

    /// The palette of the preset `frost`.
    pub fn frost() -> (made: ThemeColors)
        ensures
            made@ == frost_palette(),
    {
        ThemeColors {
            void_deep: owned("#0a1628"),
            void_dark: owned("#0f1d35"),
            void_mid: owned("#142540"),
            void_light: owned("#1a2d4a"),
            frost_dark: owned("#203858"),
            frost_mid: owned("#2a4a6a"),
            frost_light: owned("#3a5a7a"),
            bifrost_blue: owned("#88ccff"),
            bifrost_cyan: owned("#a0e8ff"),
            bifrost_teal: owned("#70e0d0"),
            bifrost_purple: owned("#a0b0ff"),
            fire_orange: owned("#ffb880"),
            fire_red: owned("#ff8898"),
            fire_ember: owned("#e06070"),
            leaf_green: owned("#80d888"),
            mead_gold: owned("#e8c878"),
            bark_brown: owned("#6a8090"),
            starlight: owned("#e0f0ff"),
            moonlight: owned("#c0d8f0"),
            sunlight: owned("#ffe8a0"),
        }
    }

    /// The palette of the preset named `preset`.
    pub fn for_preset(preset: &str) -> (made: ThemeColors)
        ensures
            made@ == preset_palette(preset@),
    {
        let name = chars_of(preset);
        if is_text(&name, "light") {
            ThemeColors::light()
        } else if is_text(&name, "warm") {
            ThemeColors::warm()
        } else if is_text(&name, "frost") {
            ThemeColors::frost()
        } else {
            ThemeColors::nordic()
        }
    }
}

impl Default for ThemeColors {
    fn default() -> (made: ThemeColors)
        ensures
            made@ == nordic_palette(),
    {
        ThemeColors::nordic()
    }
}

/// The theme: the name of its preset and its colours.
#[derive(Debug, Clone)]
pub struct ThemeConfig {
    pub preset: String,
    pub colors: ThemeColors,
}

impl Default for ThemeConfig {
    fn default() -> (made: ThemeConfig)
        ensures
            made.preset@ == "nordic"@,
            made.colors@ == nordic_palette(),
    {
        ThemeConfig { preset: owned("nordic"), colors: ThemeColors::nordic() }
    }
}

/// The whole configuration.
#[derive(Debug, Clone)]
pub struct Config {
    pub bar: BarConfig,
    pub modules: ModulesConfig,
    pub intervals: IntervalsConfig,
    pub theme: ThemeConfig,
    pub clock: ClockConfig,
}

/// A configuration holds the defaults of every section.
pub open spec fn is_default_config(config: Config) -> bool {
    &&& config.bar.height == 32
    &&& config.bar.position@ == "top"@
    &&& config.bar.monitor@ == Seq::<char>::empty()
    &&& texts(config.modules.left@) == default_left_modules()
    &&& texts(config.modules.right@) == default_right_modules()
    &&& config.intervals.clock == 1
    &&& config.intervals.battery == 30
    &&& config.intervals.power == 10
    &&& config.intervals.brightness == 5
    &&& config.intervals.connectivity == 5
    &&& config.intervals.media == 2
    &&& config.intervals.app_tracker == 2
    &&& config.theme.preset@ == "nordic"@
    &&& config.theme.colors@ == nordic_palette()
    &&& !config.clock.use_12h
    &&& !config.clock.show_seconds
    &&& config.clock.show_ntp_status
}

impl Default for Config {
    fn default() -> (made: Config)
        ensures
            is_default_config(made),
    {
        Config {
            bar: BarConfig::default(),
            modules: ModulesConfig::default(),
            intervals: IntervalsConfig::default(),
            theme: ThemeConfig::default(),
            clock: ClockConfig::default(),
        }
    }
}

/// The directory of the configuration file below the home directory `home`.
pub open spec fn config_dir_text(home: Seq<char>) -> Seq<char> {
    home + "/.config/crowbar"@
}

/// The path of the configuration file below the home directory `home`.
pub open spec fn config_path_text(home: Seq<char>) -> Seq<char> {
    config_dir_text(home) + "/config.toml"@
}

impl Config {
    /// The directory of the configuration file below the home directory
    /// `home`.
    pub fn config_dir(home: &str) -> (dir: String)
        ensures
            dir@ == config_dir_text(home@),
    {
        crate::text::concat_text(home, "/.config/crowbar")
    }

    /// The path of the configuration file below the home directory `home`.
    pub fn config_path(home: &str) -> (path: String)
        ensures
            path@ == config_path_text(home@),
    {
        let dir = Config::config_dir(home);
        crate::text::concat_text(dir.as_str(), "/config.toml")
    }

    /// The configuration to run with: the one that was read and parsed, or
    /// the defaults where there was none.
    pub fn or_default(loaded: Option<Config>) -> (config: Config)
        ensures
            match loaded {
                Some(c) => config == c,
                None => is_default_config(config),
            },
    {
        match loaded {
            Some(c) => c,
            None => Config::default(),
        }
    }
}


// ---------------------------------------------------------------------------
// Arranging the modules
// ---------------------------------------------------------------------------

/// The names of the modules that can be placed, in the order in which the
/// settings list them. Separators are placed freely and are not among them.
pub open spec fn known_modules() -> Seq<Seq<char>> {
    seq![
        "workspaces"@,
        "window_title"@,
        "app_tracker"@,
        "media"@,
        "app_finder"@,
        "systray"@,
        "connectivity"@,
        "audio"@,
        "brightness"@,
        "power"@,
        "battery"@,
        "clock"@,
        "power_menu"@,
    ]
}

/// A list with the elements at `i` and `j` in each other's place.
pub open spec fn swapped(list: Seq<Seq<char>>, i: int, j: int) -> Seq<Seq<char>> {
    list.update(i, list[j]).update(j, list[i])
}

/// A side after its module at `idx` moved one place towards the front; the
/// first module stays.
pub open spec fn moved_up(list: Seq<Seq<char>>, idx: int) -> Seq<Seq<char>> {
    if 0 < idx < list.len() {
        swapped(list, idx, idx - 1)
    } else {
        list
    }
}

/// A side after its module at `idx` moved one place towards the end; the
/// last module stays.
pub open spec fn moved_down(list: Seq<Seq<char>>, idx: int) -> Seq<Seq<char>> {
    if 0 <= idx && idx + 1 < list.len() {
        swapped(list, idx, idx + 1)
    } else {
        list
    }
}

/// A side without its module at `idx`.
pub open spec fn taken_out(list: Seq<Seq<char>>, idx: int) -> Seq<Seq<char>> {
    if 0 <= idx < list.len() {
        list.remove(idx)
    } else {
        list
    }
}

/// A side with the module `id` at its end, unless it holds the module
/// already.
pub open spec fn put_in(list: Seq<Seq<char>>, id: Seq<char>) -> Seq<Seq<char>> {
    if list.contains(id) {
        list
    } else {
        list.push(id)
    }
}

/// The test that keeps the modules that stand on neither side.
pub open spec fn is_unplaced(left: Seq<Seq<char>>, right: Seq<Seq<char>>) -> spec_fn(
    Seq<char>,
) -> bool {
    |id: Seq<char>| !left.contains(id) && !right.contains(id)
}

fn swap_names(list: &mut Vec<String>, i: usize, j: usize)
    requires
        i < old(list).len(),
        j < old(list).len(),
    ensures
        texts(final(list)@) == swapped(texts(old(list)@), i as int, j as int),
{
    let a = list[i].clone();
    let b = list[j].clone();
    list.set(i, b);
    list.set(j, a);
    assert(texts(list@) =~= swapped(texts(old(list)@), i as int, j as int));
}

fn holds_name(list: &Vec<String>, id: &Vec<char>) -> (held: bool)
    ensures
        held == texts(list@).contains(id@),
{
    let mut i: usize = 0;
    while i < list.len()
        invariant
            i <= list.len(),
            forall|j: int| 0 <= j < i ==> texts(list@)[j] != id@,
        decreases list.len() - i,
    {
        if same_chars(&chars_of(list[i].as_str()), id) {
            assert(texts(list@)[i as int] == id@);
            return true;
        }
        i += 1;
    }
    false
}

impl ModulesConfig {
    /// The side that `is_left` names.
    pub open spec fn side(self, is_left: bool) -> Seq<Seq<char>> {
        if is_left {
            texts(self.left@)
        } else {
            texts(self.right@)
        }
    }

    /// Moves the module at `idx` of a side one place towards the front.
    pub fn move_up(&mut self, is_left: bool, idx: usize)
        ensures
            final(self).side(is_left) == moved_up(old(self).side(is_left), idx as int),
            final(self).side(!is_left) == old(self).side(!is_left),
    {
        if is_left {
            if idx > 0 && idx < self.left.len() {
                swap_names(&mut self.left, idx, idx - 1);
            }
        } else {
            if idx > 0 && idx < self.right.len() {
                swap_names(&mut self.right, idx, idx - 1);
            }
        }
    }

    /// Moves the module at `idx` of a side one place towards the end.
    pub fn move_down(&mut self, is_left: bool, idx: usize)
        ensures
            final(self).side(is_left) == moved_down(old(self).side(is_left), idx as int),
            final(self).side(!is_left) == old(self).side(!is_left),
    {
        if is_left {
            if self.left.len() > 0 && idx < self.left.len() - 1 {
                swap_names(&mut self.left, idx, idx + 1);
            }
        } else {
            if self.right.len() > 0 && idx < self.right.len() - 1 {
                swap_names(&mut self.right, idx, idx + 1);
            }
        }
    }

    /// Takes the module at `idx` of a side out.
    pub fn remove(&mut self, is_left: bool, idx: usize)
        ensures
            final(self).side(is_left) == taken_out(old(self).side(is_left), idx as int),
            final(self).side(!is_left) == old(self).side(!is_left),
    {
        if is_left {
            if idx < self.left.len() {
                let _ = self.left.remove(idx);
                assert(texts(self.left@) =~= texts(old(self).left@).remove(idx as int));
            }
        } else {
            if idx < self.right.len() {
                let _ = self.right.remove(idx);
                assert(texts(self.right@) =~= texts(old(self).right@).remove(idx as int));
            }
        }
    }

    /// Puts the module `id` at the end of a side, unless the side holds it
    /// already.
    pub fn add(&mut self, is_left: bool, id: &str)
        ensures
            final(self).side(is_left) == put_in(old(self).side(is_left), id@),
            final(self).side(!is_left) == old(self).side(!is_left),
    {
        let name = chars_of(id);
        if is_left {
            if !holds_name(&self.left, &name) {
                self.left.push(owned(id));
                assert(texts(self.left@) =~= texts(old(self).left@).push(id@));
            }
        } else {
            if !holds_name(&self.right, &name) {
                self.right.push(owned(id));
                assert(texts(self.right@) =~= texts(old(self).right@).push(id@));
            }
        }
    }

    /// The known modules that stand on neither side, in the order of the
    /// settings.
    pub fn disabled(&self) -> (list: Vec<&'static str>)
        ensures
            list@.map_values(|s: &'static str| s@) == known_modules().filter(
                is_unplaced(texts(self.left@), texts(self.right@)),
            ),
    {
        let known: [&'static str; 13] = [
            "workspaces",
            "window_title",
            "app_tracker",
            "media",
            "app_finder",
            "systray",
            "connectivity",
            "audio",
            "brightness",
            "power",
            "battery",
            "clock",
            "power_menu",
        ];
        let ghost all = known_modules();
        let ghost keep = is_unplaced(texts(self.left@), texts(self.right@));
        let mut out: Vec<&'static str> = Vec::new();
        let mut i: usize = 0;
        assert(all.take(0).filter(keep) =~= Seq::<Seq<char>>::empty()) by {
            reveal(Seq::filter);
        }
        assert(out@.map_values(|s: &'static str| s@) =~= Seq::<Seq<char>>::empty());
        while i < 13
            invariant
                i <= 13,
                all == known_modules(),
                all.len() == 13,
                keep == is_unplaced(texts(self.left@), texts(self.right@)),
                known@.len() == 13,
                forall|j: int| 0 <= j < 13 ==> (#[trigger] known@[j])@ == all[j],
                out@.map_values(|s: &'static str| s@) == all.take(i as int).filter(keep),
            decreases 13 - i,
        {
            proof {
                lemma_filter_next(all, keep, i as int);
            }
            let name = chars_of(known[i]);
            if !holds_name(&self.left, &name) && !holds_name(&self.right, &name) {
                let ghost before = out@;
                out.push(known[i]);
                assert(out@.map_values(|s: &'static str| s@) =~= before.map_values(
                    |s: &'static str| s@,
                ).push(all[i as int]));
            }
            i += 1;
        }
        assert(all.take(13) == all);
        out
    }
}

} // verus!
