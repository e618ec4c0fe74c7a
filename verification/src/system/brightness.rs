//! The backlight and the night mode: what the kernel's backlight files say
//! and the commands that change brightness and colour temperature.

use vstd::prelude::*;
use crate::system::{Command, CommandView, clamp_i32, clamped, invoke, percent_arg, percent_text};
use crate::system::media::trunc_div;
use crate::text::{
    chars_of, concat_text, owned, parse_i32, push_signed_decimal, read_i32, signed_decimal,
    string_of, trim, trim_chars,
};

verus! {

/// The directory of the backlights.
pub const BASE_PATH: &'static str = "/sys/class/backlight";

/// The state of one backlight.
#[derive(Debug, Clone)]
pub struct BrightnessInfo {
    pub device: String,
    pub brightness: i32,
    pub max_brightness: i32,
    pub percent: i32,
    pub available: bool,
}

/// The tool that tints the screen at night.
#[derive(Debug, Clone, Copy, PartialEq, Eq, Structural)]
pub enum NightModeBackend {
    Wlsunset,
    Gammastep,
    /// Neither tool is installed.
    Unavailable,
}

/// The number in a file: its content without the white space around it,
/// read as a 32-bit integer.
pub open spec fn file_number(content: Option<&str>) -> Option<int> {
    match content {
        Some(text) => parse_i32(trim(text@)),
        None => None,
    }
}

/// The brightness as a percentage of the greatest, rounded towards zero;
/// zero where the greatest is not positive.
pub open spec fn percent_of(current: int, max: int) -> int {
    if max > 0 {
        trunc_div(current * 100, max)
    } else {
        0
    }
}

/// Reads the number in a file of the kernel.
pub fn read_sysfs_int(content: Option<&str>) -> (number: Option<i32>)
    ensures
        match number {
            Some(n) => file_number(content) == Some(n as int),
            None => file_number(content) is None,
        },
{
    match content {
        Some(text) => read_i32(&trim_chars(&chars_of(text))),
        None => None,
    }
}

/// The brightness as a percentage of the greatest.
pub fn brightness_percent(current: i32, max: i32) -> (percent: i32)
    requires
        max > 0 ==> i32::MIN <= current * 100 <= i32::MAX,
    ensures
        percent == percent_of(current as int, max as int),
{
    if max > 0 {
        let scaled: i32 = current * 100;
        if scaled >= 0 {
            scaled / max
        } else {
            let m: i64 = -(scaled as i64);
            let q: i64 = m / (max as i64);
            assert(0 <= q <= m) by (nonlinear_arith)
                requires
                    q == m / (max as i64),
                    m >= 0,
                    max > 0,
            ;
            (-q) as i32
        }
    } else {
        0
    }
}

/// Whether the state of a backlight can be computed from what its files
/// hold: the brightness times one hundred must fit 32 bits.
pub open spec fn brightness_fits(max: Option<&str>, current: Option<&str>) -> bool {
    match (file_number(max), file_number(current)) {
        (Some(m), Some(c)) => m > 0 ==> i32::MIN <= c * 100 <= i32::MAX,
        _ => true,
    }
}

/// The state of the backlight `device`, from what was read of its
/// directory: whether it was found, and the contents of `max_brightness` and
/// `brightness`. A device that is not there, or whose files hold no
/// numbers, has no state.
pub fn get_info(device: &str, found: bool, max: Option<&str>, current: Option<&str>) -> (info:
    Option<BrightnessInfo>)
    requires
        found ==> brightness_fits(max, current),
    ensures
        match info {
            Some(i) => {
                &&& found
                &&& i.device@ == device@
                &&& file_number(max) == Some(i.max_brightness as int)
                &&& file_number(current) == Some(i.brightness as int)
                &&& i.percent == percent_of(i.brightness as int, i.max_brightness as int)
                &&& i.available
            },
            None => !found || (file_number(max) is None) || (file_number(current) is None),
        },
{
    if !found {
        return None;
    }
    match (read_sysfs_int(max), read_sysfs_int(current)) {
        (Some(max), Some(current)) => Some(
            BrightnessInfo {
                device: owned(device),
                brightness: current,
                max_brightness: max,
                percent: brightness_percent(current, max),
                available: true,
            },
        ),
        _ => None,
    }
}

/// Whether the state of a backlight can be computed from what its files
/// hold, so that `get_info` may be asked for it.
pub fn check_brightness_fits(max: Option<&str>, current: Option<&str>) -> (fits: bool)
    ensures
        fits == brightness_fits(max, current),
{
    match (read_sysfs_int(max), read_sysfs_int(current)) {
        (Some(m), Some(c)) => m <= 0 || (-21474836 <= c && c <= 21474836),
        _ => true,
    }
}

/// The command that sets the brightness to `percent`, held between 1 and
/// 100.
pub fn set_brightness(percent: i32) -> (command: Command)
    ensures
        command@ == invoke(
            "brightnessctl"@,
            seq!["set"@, percent_text(clamped(percent as int, 1, 100))],
        ),
{
    let amount = percent_arg(clamp_i32(percent, 1, 100));
    let command = Command::new("brightnessctl").arg("set").arg(amount.as_str());
    assert(command@.args =~= seq!["set"@, percent_text(clamped(percent as int, 1, 100))]);
    command
}

/// The night mode tool to use: `wlsunset` where it is installed, else
/// `gammastep` where that is, else none.
pub fn detect_night_backend(wlsunset_found: bool, gammastep_found: bool) -> (backend:
    NightModeBackend)
    ensures
        backend == if wlsunset_found {
            NightModeBackend::Wlsunset
        } else if gammastep_found {
            NightModeBackend::Gammastep
        } else {
            NightModeBackend::Unavailable
        },
{
    if wlsunset_found {
        NightModeBackend::Wlsunset
    } else if gammastep_found {
        NightModeBackend::Gammastep
    } else {
        NightModeBackend::Unavailable
    }
}

/// Whether the night mode is on: one of the two tools is running.
pub fn is_night_mode_active(wlsunset_running: bool, gammastep_running: bool) -> (active: bool)
    ensures
        active == (wlsunset_running || gammastep_running),
{
    wlsunset_running || gammastep_running
}

/// The command that asks whether the tool `name` is running.
pub fn probe_command(name: &str) -> (command: Command)
    ensures
        command@ == invoke("pgrep"@, seq!["-x"@, name@]),
{
    let command = Command::new("pgrep").arg("-x").arg(name);
    assert(command@.args =~= seq!["-x"@, name@]);
    command
}

/// The commands that end any running night mode tool.
pub fn stop_night_mode() -> (commands: Vec<Command>)
    ensures
        commands.len() == 2,
        commands[0]@ == invoke("pkill"@, seq!["-x"@, "wlsunset"@]),
        commands[1]@ == invoke("pkill"@, seq!["-x"@, "gammastep"@]),
{
    let first = Command::new("pkill").arg("-x").arg("wlsunset");
    assert(first@.args =~= seq!["-x"@, "wlsunset"@]);
    let second = Command::new("pkill").arg("-x").arg("gammastep");
    assert(second@.args =~= seq!["-x"@, "gammastep"@]);
    let mut commands: Vec<Command> = Vec::new();
    commands.push(first);
    commands.push(second);
    commands
}

/// The command that starts the night mode at `temperature` kelvin, or why
/// it cannot be started.
pub open spec fn night_mode_command(backend: NightModeBackend, temperature: i32) -> Result<
    CommandView,
    Seq<char>,
> {
    let kelvin = signed_decimal(temperature as int);
    match backend {
        NightModeBackend::Wlsunset => Ok(
            invoke("wlsunset"@, seq!["-T"@, kelvin, "-t"@, kelvin]),
        ),
        NightModeBackend::Gammastep => Ok(invoke("gammastep"@, seq!["-O"@, kelvin])),
        NightModeBackend::Unavailable => Err("No night mode backend available"@),
    }
}

/// What a result of `start_night_mode` holds.
pub open spec fn start_view(start: Result<Command, String>) -> Result<CommandView, Seq<char>> {
    match start {
        Ok(command) => Ok(command@),
        Err(why) => Err(why@),
    }
}

/// The command that starts the night mode at `temperature` kelvin with the
/// tool `backend`, to be spawned after the commands of `stop_night_mode`
/// have run; without a tool, the reason why it cannot be started.
pub fn start_night_mode(backend: NightModeBackend, temperature: i32) -> (start: Result<
    Command,
    String,
>)
    ensures
        start_view(start) == night_mode_command(backend, temperature),
{
    let mut digits: Vec<char> = Vec::new();
    push_signed_decimal(&mut digits, temperature as i64);
    assert(digits@ =~= signed_decimal(temperature as int));
    let kelvin = string_of(&digits);
    match backend {
        NightModeBackend::Wlsunset => {
            let command = Command::new("wlsunset").arg("-T").arg(kelvin.as_str()).arg("-t").arg(
                kelvin.as_str(),
            );
            assert(command@.args =~= seq!["-T"@, kelvin@, "-t"@, kelvin@]);
            Ok(command)
        },
        NightModeBackend::Gammastep => {
            let command = Command::new("gammastep").arg("-O").arg(kelvin.as_str());
            assert(command@.args =~= seq!["-O"@, kelvin@]);
            Ok(command)
        },
        NightModeBackend::Unavailable => Err(owned("No night mode backend available")),
    }
}

/// What is reported when the night mode tool could not be spawned.
pub fn spawn_failure(backend: NightModeBackend, why: &str) -> (text: String)
    ensures
        text@ == (match backend {
            NightModeBackend::Wlsunset => "Failed to start wlsunset: "@,
            NightModeBackend::Gammastep => "Failed to start gammastep: "@,
            NightModeBackend::Unavailable => "No night mode backend available"@,
        }) + (if backend == NightModeBackend::Unavailable {
            Seq::<char>::empty()
        } else {
            why@
        }),
{
    match backend {
        NightModeBackend::Wlsunset => concat_text("Failed to start wlsunset: ", why),
        NightModeBackend::Gammastep => concat_text("Failed to start gammastep: ", why),
        NightModeBackend::Unavailable => {
            let text = owned("No night mode backend available");
            assert(text@ + Seq::<char>::empty() =~= text@);
            text
        },
    }
}

/// The change of the night mode's temperature: a running night mode is
/// started anew at `temperature`; one that is off stays off.
pub fn set_night_temperature(active: bool, backend: NightModeBackend, temperature: i32) -> (start:
    Option<Result<Command, String>>)
    ensures
        match start {
            Some(s) => active && start_view(s) == night_mode_command(backend, temperature),
            None => !active,
        },
{
    if active {
        Some(start_night_mode(backend, temperature))
    } else {
        None
    }
}

} // verus!
