//! The processor and the memory: governors, power profiles, and the
//! counters of `/proc/stat` and `/proc/meminfo`.

use vstd::prelude::*;
use crate::system::{Command, CommandView, invoke};
use crate::system::media::trunc_div;
use crate::text::{
    all_digits, append_chars, chars_of, concat_text, contains, contains_chars, decimal,
    is_digit, is_text, lines, lines_of, owned, parse_i64, parse_u64, push_decimal, read_i64,
    read_u64, rows, slice_of, starts_with, starts_with_chars, string_of, strip_prefix,
    strip_prefix_chars, strip_suffix, strip_suffix_chars, texts, trim, trim_chars, words,
    words_of,
};

verus! {

/// The directory of the first processor's frequency scaling.
pub const CPUFREQ_PATH: &'static str = "/sys/devices/system/cpu/cpu0/cpufreq";

/// The directory of the hardware monitors.
pub const HWMON_PATH: &'static str = "/sys/class/hwmon";

/// How the kernel scales the processor's frequency.
#[derive(Debug, Clone)]
pub enum Governor {
    Performance,
    Powersave,
    Ondemand,
    Conservative,
    Schedutil,
    Unknown(String),
}

/// What a governor holds.
pub enum GovernorView {
    Performance,
    Powersave,
    Ondemand,
    Conservative,
    Schedutil,
    Unknown(Seq<char>),
}

impl View for Governor {
    type V = GovernorView;

    open spec fn view(&self) -> GovernorView {
        match self {
            Governor::Performance => GovernorView::Performance,
            Governor::Powersave => GovernorView::Powersave,
            Governor::Ondemand => GovernorView::Ondemand,
            Governor::Conservative => GovernorView::Conservative,
            Governor::Schedutil => GovernorView::Schedutil,
            Governor::Unknown(name) => GovernorView::Unknown(name@),
        }
    }
}

/// A power profile.
#[derive(Debug, Clone, Copy, PartialEq, Eq, Structural)]
pub enum PowerProfile {
    Performance,
    Balanced,
    PowerSaver,
}

/// How power profiles are switched.
#[derive(Debug, Clone, Copy, PartialEq, Eq, Structural)]
pub enum ProfileMethod {
    /// Through `powerprofilesctl`.
    PowerProfilesDaemon,
    /// Through the governor of each processor.
    CpuGovernor,
    /// Not at all.
    Unavailable,
}

/// The profiles that can be chosen and the one that is active.
#[derive(Debug, Clone)]
pub struct ProfileInfo {
    pub available: Vec<PowerProfile>,
    pub active: PowerProfile,
    pub method: ProfileMethod,
}

/// The counters of the first line of `/proc/stat`.
#[derive(Debug, Clone, Copy, PartialEq, Eq, Structural)]
pub struct CpuSample {
    pub user: u64,
    pub nice: u64,
    pub system: u64,
    pub idle: u64,
    pub iowait: u64,
    pub irq: u64,
    pub softirq: u64,
    pub steal: u64,
}

impl CpuSample {
    /// The sum of all counters.
    pub open spec fn spec_total(&self) -> int {
        self.user + self.nice + self.system + self.idle + self.iowait + self.irq + self.softirq
            + self.steal
    }

    /// The sum of the counters of idle time.
    pub open spec fn spec_idle_total(&self) -> int {
        self.idle + self.iowait
    }

    /// The sum of all counters.
    pub fn total(&self) -> (sum: u64)
        requires
            self.spec_total() <= u64::MAX,
        ensures
            sum == self.spec_total(),
    {
        self.user + self.nice + self.system + self.idle + self.iowait + self.irq + self.softirq
            + self.steal
    }

    /// The sum of the counters of idle time.
    pub fn idle_total(&self) -> (sum: u64)
        requires
            self.spec_idle_total() <= u64::MAX,
        ensures
            sum == self.spec_idle_total(),
    {
        self.idle + self.iowait
    }

    /// Whether the counters can be summed in 64 bits.
    pub fn sums_fit(&self) -> (fit: bool)
        ensures
            fit == (self.spec_total() <= u64::MAX),
            fit ==> self.spec_idle_total() <= u64::MAX,
    {
        let sum: u128 = self.user as u128 + self.nice as u128 + self.system as u128
            + self.idle as u128 + self.iowait as u128 + self.irq as u128 + self.softirq as u128
            + self.steal as u128;
        sum <= 0xffff_ffff_ffff_ffff
    }
}

/// The difference of two counters, and zero where the later one is smaller.
pub open spec fn counter_delta(later: int, earlier: int) -> int {
    if later >= earlier {
        later - earlier
    } else {
        0
    }
}

/// The time that passed between two samples and the part of it that was
/// idle; the usage is the part that was not, as a fraction of the whole.
pub fn cpu_deltas(prev: &CpuSample, curr: &CpuSample) -> (deltas: (u64, u64))
    requires
        prev.spec_total() <= u64::MAX,
        curr.spec_total() <= u64::MAX,
    ensures
        deltas.0 == counter_delta(curr.spec_total(), prev.spec_total()),
        deltas.1 == counter_delta(curr.spec_idle_total(), prev.spec_idle_total()),
{
    let total_now = curr.total();
    let total_then = prev.total();
    let idle_now = curr.idle_total();
    let idle_then = prev.idle_total();
    let total_delta = if total_now >= total_then {
        total_now - total_then
    } else {
        0
    };
    let idle_delta = if idle_now >= idle_then {
        idle_now - idle_then
    } else {
        0
    };
    (total_delta, idle_delta)
}

// ---------------------------------------------------------------------------
// The governor and the frequency
// ---------------------------------------------------------------------------

/// The governor that the file `scaling_governor` names; a file that could
/// not be read names the governor `unknown`.
pub open spec fn governor_of(content: Option<&str>) -> GovernorView {
    match content {
        Some(text) => {
            let word = trim(text@);
            if word == "performance"@ {
                GovernorView::Performance
            } else if word == "powersave"@ {
                GovernorView::Powersave
            } else if word == "ondemand"@ {
                GovernorView::Ondemand
            } else if word == "conservative"@ {
                GovernorView::Conservative
            } else if word == "schedutil"@ {
                GovernorView::Schedutil
            } else {
                GovernorView::Unknown(word)
            }
        },
        None => GovernorView::Unknown("unknown"@),
    }
}

/// The governor in use, from the content of `scaling_governor`.
pub fn get_governor(content: Option<&str>) -> (governor: Governor)
    ensures
        governor@ == governor_of(content),
{
    match content {
        Some(text) => {
            let word = trim_chars(&chars_of(text));
            if is_text(&word, "performance") {
                Governor::Performance
            } else if is_text(&word, "powersave") {
                Governor::Powersave
            } else if is_text(&word, "ondemand") {
                Governor::Ondemand
            } else if is_text(&word, "conservative") {
                Governor::Conservative
            } else if is_text(&word, "schedutil") {
                Governor::Schedutil
            } else {
                Governor::Unknown(string_of(&word))
            }
        },
        None => Governor::Unknown(owned("unknown")),
    }
}

/// The frequency in MHz that the file `scaling_cur_freq`, which counts kHz,
/// holds: its number divided by 1000, rounded towards zero and cut to 32
/// bits; zero where the file holds no number.
pub open spec fn frequency_of(content: Option<&str>) -> i32 {
    match content {
        Some(text) => match parse_i64(trim(text@)) {
            Some(khz) => trunc_div(khz, 1000) as i32,
            None => 0,
        },
        None => 0,
    }
}

/// The frequency in MHz, from the content of `scaling_cur_freq`.
pub fn get_frequency_mhz(content: Option<&str>) -> (mhz: i32)
    ensures
        mhz == frequency_of(content),
{
    match content {
        Some(text) => match read_i64(&trim_chars(&chars_of(text))) {
            Some(khz) => {
                let q: i64 = if khz >= 0 {
                    khz / 1000
                } else {
                    let m: i128 = -(khz as i128);
                    let n: i128 = m / 1000;
                    (-n) as i64
                };
                #[verifier::truncate]
                (q as i32)
            },
            None => 0,
        },
        None => 0,
    }
}

impl Governor {
    /// The name under which this governor is shown.
    pub open spec fn spec_display_name(governor: GovernorView) -> Seq<char> {
        match governor {
            GovernorView::Performance => "Performance"@,
            GovernorView::Powersave => "Power Saver"@,
            GovernorView::Ondemand => "On Demand"@,
            GovernorView::Conservative => "Conservative"@,
            GovernorView::Schedutil => "Balanced"@,
            GovernorView::Unknown(name) => name,
        }
    }

    /// The name under which this governor is shown.
    pub fn display_name(&self) -> (name: &str)
        ensures
            name@ == Governor::spec_display_name(self@),
    {
        match self {
            Governor::Performance => "Performance",
            Governor::Powersave => "Power Saver",
            Governor::Ondemand => "On Demand",
            Governor::Conservative => "Conservative",
            Governor::Schedutil => "Balanced",
            Governor::Unknown(name) => name.as_str(),
        }
    }
}

impl PowerProfile {
    /// The name under which this profile is shown.
    pub open spec fn spec_display_name(self) -> Seq<char> {
        match self {
            PowerProfile::Performance => "Berserker"@,
            PowerProfile::Balanced => "Shieldwall"@,
            PowerProfile::PowerSaver => "Hibernation"@,
        }
    }

    /// The name under which this profile is shown.
    pub fn display_name(&self) -> (name: &'static str)
        ensures
            name@ == self.spec_display_name(),
    {
        match self {
            PowerProfile::Performance => "Berserker",
            PowerProfile::Balanced => "Shieldwall",
            PowerProfile::PowerSaver => "Hibernation",
        }
    }

    /// The name by which `powerprofilesctl` knows this profile.
    pub open spec fn spec_daemon_name(self) -> Seq<char> {
        match self {
            PowerProfile::Performance => "performance"@,
            PowerProfile::Balanced => "balanced"@,
            PowerProfile::PowerSaver => "power-saver"@,
        }
    }

    /// The name of the governor that stands for this profile.
    pub open spec fn spec_governor_name(self) -> Seq<char> {
        match self {
            PowerProfile::Performance => "performance"@,
            PowerProfile::Balanced => "schedutil"@,
            PowerProfile::PowerSaver => "powersave"@,
        }
    }

    /// The name by which `powerprofilesctl` knows this profile.
    pub fn daemon_name(&self) -> (name: &'static str)
        ensures
            name@ == self.spec_daemon_name(),
    {
        match self {
            PowerProfile::Performance => "performance",
            PowerProfile::Balanced => "balanced",
            PowerProfile::PowerSaver => "power-saver",
        }
    }

    /// The name of the governor that stands for this profile.
    pub fn governor_name(&self) -> (name: &'static str)
        ensures
            name@ == self.spec_governor_name(),
    {
        match self {
            PowerProfile::Performance => "performance",
            PowerProfile::Balanced => "schedutil",
            PowerProfile::PowerSaver => "powersave",
        }
    }
}

/// The profile that a name of `powerprofilesctl` stands for.
pub open spec fn profile_named(name: Seq<char>) -> Option<PowerProfile> {
    if name == "performance"@ {
        Some(PowerProfile::Performance)
    } else if name == "balanced"@ {
        Some(PowerProfile::Balanced)
    } else if name == "power-saver"@ {
        Some(PowerProfile::PowerSaver)
    } else {
        None
    }
}

fn read_profile_name(name: &Vec<char>) -> (profile: Option<PowerProfile>)
    ensures
        profile == profile_named(name@),
{
    if is_text(name, "performance") {
        Some(PowerProfile::Performance)
    } else if is_text(name, "balanced") {
        Some(PowerProfile::Balanced)
    } else if is_text(name, "power-saver") {
        Some(PowerProfile::PowerSaver)
    } else {
        None
    }
}

// ---------------------------------------------------------------------------
// Profiles
// ---------------------------------------------------------------------------

/// How profiles are switched: through the daemon where `powerprofilesctl
/// list` succeeds, else through the governors where their list can be read,
/// else not at all.
pub fn detect_profile_method(daemon_answers: bool, governors_readable: bool) -> (method:
    ProfileMethod)
    ensures
        method == if daemon_answers {
            ProfileMethod::PowerProfilesDaemon
        } else if governors_readable {
            ProfileMethod::CpuGovernor
        } else {
            ProfileMethod::Unavailable
        },
{
    if daemon_answers {
        ProfileMethod::PowerProfilesDaemon
    } else if governors_readable {
        ProfileMethod::CpuGovernor
    } else {
        ProfileMethod::Unavailable
    }
}

/// The first position at or after `i` that holds no `*`.
pub open spec fn skip_stars(s: Seq<char>, i: int) -> int
    decreases s.len() - i,
{
    if 0 <= i < s.len() && s[i] == '*' {
        skip_stars(s, i + 1)
    } else {
        i
    }
}

/// The name on a line of `powerprofilesctl list`: the line without the
/// white space around it, the stars before it, and the white space around
/// what is left.
pub open spec fn listed_name(line: Seq<char>) -> Seq<char> {
    let inner = trim(line);
    trim(inner.skip(skip_stars(inner, 0)))
}

/// The profiles that the lines from `i` on list, and the active one: a line
/// that names a profile adds it, and makes it the active one if the line
/// holds a star.
pub open spec fn daemon_scan(lines: Seq<Seq<char>>, i: int, active: PowerProfile) -> (
    Seq<PowerProfile>,
    PowerProfile,
)
    decreases lines.len() - i,
{
    if i < 0 || i >= lines.len() {
        (Seq::empty(), active)
    } else {
        match profile_named(listed_name(lines[i])) {
            Some(profile) => {
                let rest = daemon_scan(
                    lines,
                    i + 1,
                    if contains(lines[i], seq!['*']) {
                        profile
                    } else {
                        active
                    },
                );
                (seq![profile] + rest.0, rest.1)
            },
            None => daemon_scan(lines, i + 1, active),
        }
    }
}

/// All profiles, in their order.
pub open spec fn all_profiles() -> Seq<PowerProfile> {
    seq![PowerProfile::Performance, PowerProfile::Balanced, PowerProfile::PowerSaver]
}

/// Profiles and active profile as the daemon reports them. `list` is the
/// output of `powerprofilesctl list`, `active` that of `powerprofilesctl
/// get`; each is missing where the tool failed. The active profile of `get`
/// overrides the starred one of `list`; a list that names no profile stands
/// for all of them; without any word, `Balanced` is active.
pub open spec fn daemon_profiles(list: Option<String>, active: Option<String>) -> (
    Seq<PowerProfile>,
    PowerProfile,
) {
    let listed = match list {
        Some(text) => daemon_scan(lines(text@), 0, PowerProfile::Balanced),
        None => (Seq::empty(), PowerProfile::Balanced),
    };
    let chosen = match active {
        Some(text) => match profile_named(trim(text@)) {
            Some(profile) => profile,
            None => listed.1,
        },
        None => listed.1,
    };
    (if listed.0.len() == 0 {
        all_profiles()
    } else {
        listed.0
    }, chosen)
}

fn read_listed_name(line: &Vec<char>) -> (name: Vec<char>)
    ensures
        name@ == listed_name(line@),
{
    let inner = trim_chars(line);
    let mut i: usize = 0;
    while i < inner.len() && inner[i] == '*'
        invariant
            i <= inner.len(),
            skip_stars(inner@, 0) == skip_stars(inner@, i as int),
        decreases inner.len() - i,
    {
        i += 1;
    }
    let rest = slice_of(&inner, i, inner.len());
    assert(rest@ == inner@.skip(i as int));
    trim_chars(&rest)
}

/// Reads profiles and active profile from the outputs of `powerprofilesctl
/// list` and `powerprofilesctl get`.
pub fn get_profiles_ppd(list: &Option<String>, active: &Option<String>) -> (info: ProfileInfo)
    ensures
        (info.available@, info.active) == daemon_profiles(*list, *active),
        info.method == ProfileMethod::PowerProfilesDaemon,
{
    let mut available: Vec<PowerProfile> = Vec::new();
    let mut chosen = PowerProfile::Balanced;
    match list {
        Some(text) => {
            let all = lines_of(&chars_of(text.as_str()));
            let star: Vec<char> = vec!['*'];
            let mut i: usize = 0;
            let ghost whole = daemon_scan(rows(all@), 0, PowerProfile::Balanced);
            while i < all.len()
                invariant
                    i <= all.len(),
                    star@ == seq!['*'],
                    whole == daemon_scan(rows(all@), 0, PowerProfile::Balanced),
                    whole.0 == available@ + daemon_scan(rows(all@), i as int, chosen).0,
                    whole.1 == daemon_scan(rows(all@), i as int, chosen).1,
                decreases all.len() - i,
            {
                let line = &all[i];
                assert(rows(all@)[i as int] == line@);
                match read_profile_name(&read_listed_name(line)) {
                    Some(profile) => {
                        let ghost before = available@;
                        available.push(profile);
                        if contains_chars(line, &star) {
                            chosen = profile;
                        }
                        assert(before.push(profile) + daemon_scan(rows(all@), i + 1, chosen).0
                            =~= before + (seq![profile] + daemon_scan(
                            rows(all@),
                            i + 1,
                            chosen,
                        ).0));
                    },
                    None => {},
                }
                i += 1;
            }
            assert(available@ + Seq::<PowerProfile>::empty() =~= available@);
        },
        None => {},
    }
    match active {
        Some(text) => match read_profile_name(&trim_chars(&chars_of(text.as_str()))) {
            Some(profile) => {
                chosen = profile;
            },
            None => {},
        },
        None => {},
    }
    if available.len() == 0 {
        available.push(PowerProfile::Performance);
        available.push(PowerProfile::Balanced);
        available.push(PowerProfile::PowerSaver);
        assert(available@ =~= all_profiles());
    }
    ProfileInfo { available, active: chosen, method: ProfileMethod::PowerProfilesDaemon }
}

/// Whether `word` is among the words of `list`.
pub open spec fn has_word(list: Seq<Seq<char>>, word: Seq<char>) -> bool {
    list.contains(word)
}

/// The profiles that a list of governors offers: performance with the
/// governor of that name, balanced with `schedutil` or `ondemand`, power
/// saving with `powersave`.
pub open spec fn governor_profiles(governors: Seq<Seq<char>>) -> Seq<PowerProfile> {
    (if has_word(governors, "performance"@) {
        seq![PowerProfile::Performance]
    } else {
        Seq::empty()
    }) + (if has_word(governors, "schedutil"@) || has_word(governors, "ondemand"@) {
        seq![PowerProfile::Balanced]
    } else {
        Seq::empty()
    }) + (if has_word(governors, "powersave"@) {
        seq![PowerProfile::PowerSaver]
    } else {
        Seq::empty()
    })
}

/// The profile that a governor stands for.
pub open spec fn governor_profile(governor: GovernorView) -> PowerProfile {
    match governor {
        GovernorView::Performance => PowerProfile::Performance,
        GovernorView::Powersave => PowerProfile::PowerSaver,
        _ => PowerProfile::Balanced,
    }
}

/// The words of the file `scaling_available_governors`.
pub open spec fn listed_governors(content: Option<String>) -> Seq<Seq<char>> {
    match content {
        Some(text) => words(trim(text@)),
        None => Seq::empty(),
    }
}

fn word_listed(list: &Vec<Vec<char>>, word: &str) -> (listed: bool)
    ensures
        listed == has_word(rows(list@), word@),
{
    let wanted = chars_of(word);
    let mut i: usize = 0;
    while i < list.len()
        invariant
            i <= list.len(),
            wanted@ == word@,
            forall|j: int| 0 <= j < i ==> rows(list@)[j] != word@,
        decreases list.len() - i,
    {
        if crate::text::same_chars(&list[i], &wanted) {
            assert(rows(list@)[i as int] == word@);
            return true;
        }
        i += 1;
    }
    false
}

/// Profiles and active profile as the governors give them, from the content
/// of `scaling_available_governors` and the governor in use.
pub fn get_profiles_governor(governors: &Option<String>, current: &Governor) -> (info:
    ProfileInfo)
    ensures
        info.available@ == governor_profiles(listed_governors(*governors)),
        info.active == governor_profile(current@),
        info.method == ProfileMethod::CpuGovernor,
{
    let list = match governors {
        Some(text) => words_of(&trim_chars(&chars_of(text.as_str()))),
        None => {
            let none: Vec<Vec<char>> = Vec::new();
            assert(rows(none@) =~= Seq::<Seq<char>>::empty());
            none
        },
    };
    let mut available: Vec<PowerProfile> = Vec::new();
    if word_listed(&list, "performance") {
        available.push(PowerProfile::Performance);
    }
    if word_listed(&list, "schedutil") || word_listed(&list, "ondemand") {
        available.push(PowerProfile::Balanced);
    }
    if word_listed(&list, "powersave") {
        available.push(PowerProfile::PowerSaver);
    }
    assert(available@ =~= governor_profiles(rows(list@)));
    let active = match current {
        Governor::Performance => PowerProfile::Performance,
        Governor::Powersave => PowerProfile::PowerSaver,
        _ => PowerProfile::Balanced,
    };
    ProfileInfo { available, active, method: ProfileMethod::CpuGovernor }
}

/// What was read about the power profiles.
#[derive(Debug, Clone)]
pub enum ProfileReading {
    /// The outputs of `powerprofilesctl list` and `powerprofilesctl get`.
    Daemon { list: Option<String>, active: Option<String> },
    /// The content of `scaling_available_governors` and the governor in
    /// use.
    Governors { available: Option<String>, current: Governor },
    /// Profiles cannot be switched.
    Unavailable,
}

/// The method that a reading belongs to.
pub open spec fn reading_method(reading: ProfileReading) -> ProfileMethod {
    match reading {
        ProfileReading::Daemon { .. } => ProfileMethod::PowerProfilesDaemon,
        ProfileReading::Governors { .. } => ProfileMethod::CpuGovernor,
        ProfileReading::Unavailable => ProfileMethod::Unavailable,
    }
}

/// The profiles that a reading offers and the active one.
pub open spec fn profiles_of(reading: ProfileReading) -> (Seq<PowerProfile>, PowerProfile) {
    match reading {
        ProfileReading::Daemon { list, active } => daemon_profiles(list, active),
        ProfileReading::Governors { available, current } => (
            governor_profiles(listed_governors(available)),
            governor_profile(current@),
        ),
        ProfileReading::Unavailable => (Seq::empty(), PowerProfile::Balanced),
    }
}

/// The power profiles, from what was read about them.
pub fn get_profiles(reading: &ProfileReading) -> (info: ProfileInfo)
    ensures
        (info.available@, info.active) == profiles_of(*reading),
        info.method == reading_method(*reading),
{
    match reading {
        ProfileReading::Daemon { list, active } => get_profiles_ppd(list, active),
        ProfileReading::Governors { available, current } => get_profiles_governor(
            available,
            current,
        ),
        ProfileReading::Unavailable => ProfileInfo {
            available: Vec::new(),
            active: PowerProfile::Balanced,
            method: ProfileMethod::Unavailable,
        },
    }
}

/// One step of switching the profile: a command to run and what to write to
/// its standard input.
#[derive(Debug, Clone)]
pub struct ProfileStep {
    pub command: Command,
    pub input: Option<String>,
}

/// The file through which the governor of processor `cpu` is set.
pub open spec fn governor_file(cpu: nat) -> Seq<char> {
    "/sys/devices/system/cpu/cpu"@ + decimal(cpu) + "/cpufreq/scaling_governor"@
}

/// The step that sets the governor of processor `cpu` for `profile`.
pub open spec fn governor_step(profile: PowerProfile, cpu: nat) -> (CommandView, Option<Seq<char>>) {
    (invoke("pkexec"@, seq!["tee"@, governor_file(cpu)]), Some(profile.spec_governor_name()))
}

/// What a step holds.
pub open spec fn step_view(step: ProfileStep) -> (CommandView, Option<Seq<char>>) {
    (
        step.command@,
        match step.input {
            Some(text) => Some(text@),
            None => None,
        },
    )
}

/// The steps that switch to `profile`: one command for the daemon; one for
/// each processor, in order, for the governors. They are run in order, and
/// the first failure ends the switch.
pub fn set_profile(profile: PowerProfile, method: ProfileMethod, processors: usize) -> (steps:
    Result<Vec<ProfileStep>, String>)
    ensures
        match method {
            ProfileMethod::PowerProfilesDaemon => steps matches Ok(list) && list.len() == 1
                && step_view(list[0]) == (
                invoke("powerprofilesctl"@, seq!["set"@, profile.spec_daemon_name()]),
                None::<Seq<char>>,
            ),
            ProfileMethod::CpuGovernor => steps matches Ok(list) && list.len() == processors
                && forall|i: int|
                0 <= i < processors ==> step_view(#[trigger] list[i]) == governor_step(
                    profile,
                    i as nat,
                ),
            ProfileMethod::Unavailable => steps matches Err(why) && why@
                == "No profile method available"@,
        },
{
    match method {
        ProfileMethod::PowerProfilesDaemon => {
            let command = Command::new("powerprofilesctl").arg("set").arg(profile.daemon_name());
            assert(command@.args =~= seq!["set"@, profile.spec_daemon_name()]);
            let mut list: Vec<ProfileStep> = Vec::new();
            list.push(ProfileStep { command, input: None });
            Ok(list)
        },
        ProfileMethod::CpuGovernor => {
            let mut list: Vec<ProfileStep> = Vec::new();
            let mut cpu: usize = 0;
            while cpu < processors
                invariant
                    cpu <= processors,
                    list.len() == cpu,
                    forall|i: int|
                        0 <= i < cpu ==> step_view(#[trigger] list[i]) == governor_step(
                            profile,
                            i as nat,
                        ),
                decreases processors - cpu,
            {
                let mut path = chars_of("/sys/devices/system/cpu/cpu");
                push_decimal(&mut path, cpu as u64);
                append_chars(&mut path, &chars_of("/cpufreq/scaling_governor"));
                let file = string_of(&path);
                let command = Command::new("pkexec").arg("tee").arg(file.as_str());
                assert(command@.args =~= seq!["tee"@, governor_file(cpu as nat)]);
                list.push(ProfileStep { command, input: Some(owned(profile.governor_name())) });
                cpu += 1;
            }
            Ok(list)
        },
        ProfileMethod::Unavailable => Err(owned("No profile method available")),
    }
}

/// What is reported when step `index` of a switch failed; `run_error` is
/// the reason where the command could not be run at all.
pub open spec fn step_failure(method: ProfileMethod, index: nat, run_error: Option<&str>) -> Seq<
    char,
> {
    match method {
        ProfileMethod::PowerProfilesDaemon => match run_error {
            Some(why) => "Failed to run powerprofilesctl: "@ + why@,
            None => "powerprofilesctl set failed"@,
        },
        ProfileMethod::CpuGovernor => match run_error {
            Some(why) => "Failed to set governor for cpu"@ + decimal(index) + ": "@ + why@,
            None => "Failed to set governor for cpu"@ + decimal(index),
        },
        ProfileMethod::Unavailable => "No profile method available"@,
    }
}

/// What is reported when step `index` of a switch failed.
pub fn set_profile_failure(method: ProfileMethod, index: usize, run_error: Option<&str>) -> (text:
    String)
    ensures
        text@ == step_failure(method, index as nat, run_error),
{
    match method {
        ProfileMethod::PowerProfilesDaemon => match run_error {
            Some(why) => concat_text("Failed to run powerprofilesctl: ", why),
            None => owned("powerprofilesctl set failed"),
        },
        ProfileMethod::CpuGovernor => {
            let mut out = chars_of("Failed to set governor for cpu");
            push_decimal(&mut out, index as u64);
            match run_error {
                Some(why) => {
                    append_chars(&mut out, &chars_of(": "));
                    append_chars(&mut out, &chars_of(why));
                },
                None => {},
            }
            string_of(&out)
        },
        ProfileMethod::Unavailable => owned("No profile method available"),
    }
}

/// Whether a name below `/sys/devices/system/cpu` is that of a processor:
/// `cpu` followed by digits only.
pub open spec fn is_processor(name: Seq<char>) -> bool {
    starts_with(name, "cpu"@) && all_digits(name.skip(3))
}

/// The number of names from `i` on that are processors.
pub open spec fn processors_from(names: Seq<Seq<char>>, i: int) -> nat
    decreases names.len() - i,
{
    if i < 0 || i >= names.len() {
        0
    } else if is_processor(names[i]) {
        1 + processors_from(names, i + 1)
    } else {
        processors_from(names, i + 1)
    }
}

fn check_processor(name: &Vec<char>) -> (yes: bool)
    ensures
        yes == is_processor(name@),
{
    if !starts_with_chars(name, &chars_of("cpu")) {
        return false;
    }
    proof {
        reveal_strlit("cpu");
    }
    let mut i: usize = 3;
    while i < name.len()
        invariant
            3 <= i <= name.len(),
            forall|j: int| 0 <= j < i - 3 ==> is_digit(#[trigger] name@.skip(3)[j]),
        decreases name.len() - i,
    {
        if !('0' <= name[i] && name[i] <= '9') {
            assert(!is_digit(name@.skip(3)[i - 3]));
            return false;
        }
        i += 1;
    }
    true
}

/// The number of processors, from the names below
/// `/sys/devices/system/cpu`; one where the directory could not be read.
pub fn num_cpus_available(names: Option<&Vec<String>>) -> (count: usize)
    ensures
        match names {
            Some(list) => count == processors_from(texts(list@), 0),
            None => count == 1,
        },
{
    match names {
        Some(list) => {
            let mut count: usize = 0;
            let mut i: usize = 0;
            while i < list.len()
                invariant
                    i <= list.len(),
                    count <= i,
                    count + processors_from(texts(list@), i as int) == processors_from(
                        texts(list@),
                        0,
                    ),
                decreases list.len() - i,
            {
                if check_processor(&chars_of(list[i].as_str())) {
                    count += 1;
                }
                i += 1;
            }
            count
        },
        None => 1,
    }
}


// ---------------------------------------------------------------------------
// The counters of the kernel
// ---------------------------------------------------------------------------

/// The numbers among the words from `i` on: each word that is written as a
/// 64-bit integer without a sign, in order.
pub open spec fn numbers_from(list: Seq<Seq<char>>, i: int) -> Seq<u64>
    decreases list.len() - i,
{
    if i < 0 || i >= list.len() {
        Seq::empty()
    } else {
        (match parse_u64(list[i]) {
            Some(n) => seq![n as u64],
            None => Seq::empty(),
        }) + numbers_from(list, i + 1)
    }
}

/// The sample that the content of `/proc/stat` gives: its first line must
/// begin with `cpu ` and hold, after its first word, at least eight numbers,
/// of which the first eight are the counters.
pub open spec fn cpu_sample_of(content: Option<&str>) -> Option<CpuSample> {
    match content {
        Some(text) => if lines(text@).len() == 0 || !starts_with(lines(text@)[0], "cpu "@) {
            None
        } else {
            let fields = numbers_from(words(lines(text@)[0]), 1);
            if fields.len() < 8 {
                None
            } else {
                Some(
                    CpuSample {
                        user: fields[0],
                        nice: fields[1],
                        system: fields[2],
                        idle: fields[3],
                        iowait: fields[4],
                        irq: fields[5],
                        softirq: fields[6],
                        steal: fields[7],
                    },
                )
            }
        },
        None => None,
    }
}

/// Reads the processor's counters from the content of `/proc/stat`.
pub fn read_cpu_sample(content: Option<&str>) -> (sample: Option<CpuSample>)
    ensures
        sample == cpu_sample_of(content),
{
    let text = match content {
        Some(text) => text,
        None => {
            return None;
        },
    };
    let all = lines_of(&chars_of(text));
    if all.len() == 0 {
        return None;
    }
    assert(rows(all@)[0] == all@[0]@);
    if !starts_with_chars(&all[0], &chars_of("cpu ")) {
        return None;
    }
    let list = words_of(&all[0]);
    let mut fields: Vec<u64> = Vec::new();
    let mut i: usize = 1;
    while i < list.len()
        invariant
            1 <= i,
            fields@ + numbers_from(rows(list@), i as int) == numbers_from(rows(list@), 1),
        decreases list.len() - i,
    {
        assert(rows(list@)[i as int] == list@[i as int]@);
        match read_u64(&list[i]) {
            Some(n) => {
                let ghost before = fields@;
                fields.push(n);
                assert(before.push(n) + numbers_from(rows(list@), i + 1) =~= before + (seq![n]
                    + numbers_from(rows(list@), i + 1)));
            },
            None => {
                assert(Seq::<u64>::empty() + numbers_from(rows(list@), i + 1) =~= numbers_from(
                    rows(list@),
                    i + 1,
                ));
            },
        }
        i += 1;
    }
    assert(fields@ + Seq::<u64>::empty() =~= fields@);
    if fields.len() < 8 {
        return None;
    }
    Some(
        CpuSample {
            user: fields[0],
            nice: fields[1],
            system: fields[2],
            idle: fields[3],
            iowait: fields[4],
            irq: fields[5],
            softirq: fields[6],
            steal: fields[7],
        },
    )
}

/// The memory in use, in kB.
#[derive(Debug, Clone, Copy, PartialEq, Eq, Structural)]
pub struct MemoryUsage {
    pub total_kb: u64,
    pub available_kb: u64,
    pub used_kb: u64,
}

/// The number of kB that stands after a label of `/proc/meminfo`: what
/// follows the label must end in `kB` and hold a number before it.
pub open spec fn kb_value(rest: Seq<char>) -> Option<int> {
    match strip_suffix(trim(rest), "kB"@) {
        Some(number) => parse_u64(trim(number)),
        None => None,
    }
}

/// Total and available memory after one more line: a line that begins with
/// `MemTotal:` or `MemAvailable:` sets the one or the other, also to
/// nothing where the line holds no amount.
pub open spec fn memory_line(line: Seq<char>, found: (Option<int>, Option<int>)) -> (
    Option<int>,
    Option<int>,
) {
    match strip_prefix(line, "MemTotal:"@) {
        Some(rest) => (kb_value(rest), found.1),
        None => match strip_prefix(line, "MemAvailable:"@) {
            Some(rest) => (found.0, kb_value(rest)),
            None => found,
        },
    }
}

/// Total and available memory after the lines from `i` on; the scan ends
/// as soon as both are known.
pub open spec fn memory_scan(lines: Seq<Seq<char>>, i: int, found: (Option<int>, Option<int>)) -> (
    Option<int>,
    Option<int>,
)
    decreases lines.len() - i,
{
    if i < 0 || i >= lines.len() {
        found
    } else {
        let next = memory_line(lines[i], found);
        if next.0 is Some && next.1 is Some {
            next
        } else {
            memory_scan(lines, i + 1, next)
        }
    }
}

/// The memory in use that the content of `/proc/meminfo` gives: total and
/// available memory must both be known; what is used is their difference,
/// and nothing where more is available than there is.
pub open spec fn memory_of(content: Option<&str>) -> Option<MemoryUsage> {
    match content {
        Some(text) => match memory_scan(lines(text@), 0, (None, None)) {
            (Some(total), Some(available)) => Some(
                MemoryUsage {
                    total_kb: total as u64,
                    available_kb: available as u64,
                    used_kb: if total >= available {
                        (total - available) as u64
                    } else {
                        0
                    },
                },
            ),
            _ => None,
        },
        None => None,
    }
}

fn read_kb_value(rest: &Vec<char>) -> (value: Option<u64>)
    ensures
        match value {
            Some(v) => kb_value(rest@) == Some(v as int),
            None => kb_value(rest@) is None,
        },
{
    match strip_suffix_chars(&trim_chars(rest), &chars_of("kB")) {
        Some(number) => read_u64(&trim_chars(&number)),
        None => None,
    }
}

/// The view of an optional number.
pub open spec fn opt_int(n: Option<u64>) -> Option<int> {
    match n {
        Some(v) => Some(v as int),
        None => None,
    }
}

/// Reads the memory in use from the content of `/proc/meminfo`.
pub fn get_memory_info(content: Option<&str>) -> (usage: Option<MemoryUsage>)
    ensures
        usage == memory_of(content),
{
    let text = match content {
        Some(text) => text,
        None => {
            return None;
        },
    };
    let all = lines_of(&chars_of(text));
    let total_label = chars_of("MemTotal:");
    let available_label = chars_of("MemAvailable:");
    let mut total: Option<u64> = None;
    let mut available: Option<u64> = None;
    let mut i: usize = 0;
    let ghost whole = memory_scan(rows(all@), 0, (None, None));
    while i < all.len()
        invariant
            i <= all.len(),
            total_label@ == "MemTotal:"@,
            available_label@ == "MemAvailable:"@,
            whole == memory_scan(rows(all@), 0, (None, None)),
            whole == memory_scan(rows(all@), i as int, (opt_int(total), opt_int(available))),
        ensures
            whole == (opt_int(total), opt_int(available)),
        decreases all.len() - i,
    {
        let line = &all[i];
        assert(rows(all@)[i as int] == line@);
        match strip_prefix_chars(line, &total_label) {
            Some(rest) => {
                total = read_kb_value(&rest);
            },
            None => match strip_prefix_chars(line, &available_label) {
                Some(rest) => {
                    available = read_kb_value(&rest);
                },
                None => {},
            },
        }
        if total.is_some() && available.is_some() {
            break;
        }
        i += 1;
    }
    match (total, available) {
        (Some(total), Some(available)) => Some(
            MemoryUsage {
                total_kb: total,
                available_kb: available,
                used_kb: if total >= available {
                    total - available
                } else {
                    0
                },
            },
        ),
        _ => None,
    }
}

} // verus!
