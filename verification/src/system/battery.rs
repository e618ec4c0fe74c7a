//! The battery: what the kernel's power supply files say, and how the time
//! that is left is shown.

use core::time::Duration;
use vstd::prelude::*;
use crate::text::{
    chars_of, decimal, is_text, owned, parse_i64, push_decimal, read_i64, string_of, texts,
    trim, trim_chars,
};

verus! {

/// The whole seconds that `Duration::as_secs` gives for a duration.
pub uninterp spec fn duration_secs(d: Duration) -> u64;

/// Whether `Duration::is_zero` holds of a duration.
pub uninterp spec fn duration_is_zero(d: Duration) -> bool;

/// `Duration::as_secs` returns the number of whole seconds that the duration
/// holds.
pub assume_specification[ Duration::as_secs ](d: &Duration) -> (secs: u64)
    ensures
        secs == duration_secs(*d),
;

/// `Duration::is_zero` tells whether the duration spans no time.
pub assume_specification[ Duration::is_zero ](d: &Duration) -> (zero: bool)
    ensures
        zero == duration_is_zero(*d),
;

/// What the battery is doing.
#[derive(Debug, Clone, Copy, PartialEq, Eq, Structural)]
pub enum BatteryStatus {
    Charging,
    Discharging,
    Full,
    NotCharging,
    Unknown,
}

/// The state of one battery.
#[derive(Debug)]
pub struct BatteryInfo {
    pub name: String,
    pub capacity: i32,
    pub status: BatteryStatus,
    pub energy_now: i64,
    pub energy_full: i64,
    pub power_now: i64,
    pub time_remaining: Duration,
}

/// What was read of one battery's directory below
/// `/sys/class/power_supply`. A file that could not be read is missing.
#[derive(Debug, Clone)]
pub struct BatteryReading {
    /// Whether the directory is there.
    pub found: bool,
    pub present: Option<String>,
    pub capacity: Option<String>,
    pub status: Option<String>,
    pub energy_now: Option<String>,
    pub energy_full: Option<String>,
    pub power_now: Option<String>,
}

/// The levels of a battery, in the kernel's units.
#[derive(Debug, Clone, Copy, PartialEq, Eq, Structural)]
pub struct BatteryLevels {
    pub status: BatteryStatus,
    pub energy_now: i64,
    pub energy_full: i64,
    pub power_now: i64,
}

/// The directory of the power supplies.
pub const BASE_PATH: &'static str = "/sys/class/power_supply";

/// The number in a file: its content without the white space around it,
/// read as a 64-bit integer.
pub open spec fn file_number(content: Option<String>) -> Option<int> {
    match content {
        Some(text) => parse_i64(trim(text@)),
        None => None,
    }
}

/// The number in a file, or zero where there is none.
pub open spec fn file_number_or_zero(content: Option<String>) -> int {
    match file_number(content) {
        Some(n) => n,
        None => 0,
    }
}

/// The status that the file `status` names.
pub open spec fn status_of(content: Option<String>) -> BatteryStatus {
    match content {
        Some(text) => {
            let word = trim(text@);
            if word == "Charging"@ {
                BatteryStatus::Charging
            } else if word == "Discharging"@ {
                BatteryStatus::Discharging
            } else if word == "Full"@ {
                BatteryStatus::Full
            } else if word == "Not charging"@ {
                BatteryStatus::NotCharging
            } else {
                BatteryStatus::Unknown
            }
        },
        None => BatteryStatus::Unknown,
    }
}

/// Whether a reading is that of a battery that is there: its directory
/// was found and its file `present` holds `1`.
pub open spec fn is_present(reading: BatteryReading) -> bool {
    reading.found && match reading.present {
        Some(text) => trim(text@) == "1"@,
        None => false,
    }
}

/// The levels that a reading gives.
pub open spec fn levels_of(reading: BatteryReading) -> BatteryLevels {
    BatteryLevels {
        status: status_of(reading.status),
        energy_now: file_number_or_zero(reading.energy_now) as i64,
        energy_full: file_number_or_zero(reading.energy_full) as i64,
        power_now: file_number_or_zero(reading.power_now) as i64,
    }
}

/// Reads the number in a file of the kernel.
pub fn read_sysfs_int(content: &Option<String>) -> (number: Option<i64>)
    ensures
        match number {
            Some(n) => file_number(*content) == Some(n as int),
            None => file_number(*content) is None,
        },
{
    match content {
        Some(text) => read_i64(&trim_chars(&chars_of(text.as_str()))),
        None => None,
    }
}

fn read_or_zero(content: &Option<String>) -> (number: i64)
    ensures
        number == file_number_or_zero(*content),
{
    match read_sysfs_int(content) {
        Some(n) => n,
        None => 0,
    }
}

fn read_status(content: &Option<String>) -> (status: BatteryStatus)
    ensures
        status == status_of(*content),
{
    match content {
        Some(text) => {
            let word = trim_chars(&chars_of(text.as_str()));
            if is_text(&word, "Charging") {
                BatteryStatus::Charging
            } else if is_text(&word, "Discharging") {
                BatteryStatus::Discharging
            } else if is_text(&word, "Full") {
                BatteryStatus::Full
            } else if is_text(&word, "Not charging") {
                BatteryStatus::NotCharging
            } else {
                BatteryStatus::Unknown
            }
        },
        None => BatteryStatus::Unknown,
    }
}

impl BatteryReading {
    /// Whether the battery is there.
    pub fn present(&self) -> (present: bool)
        ensures
            present == is_present(*self),
    {
        self.found && match &self.present {
            Some(text) => is_text(&trim_chars(&chars_of(text.as_str())), "1"),
            None => false,
        }
    }

    /// The levels of the battery.
    pub fn levels(&self) -> (levels: BatteryLevels)
        ensures
            levels == levels_of(*self),
    {
        BatteryLevels {
            status: read_status(&self.status),
            energy_now: read_or_zero(&self.energy_now),
            energy_full: read_or_zero(&self.energy_full),
            power_now: read_or_zero(&self.power_now),
        }
    }
}

/// The energy that is still to flow before the battery is empty, when it
/// discharges, or full, when it charges; dividing it by the power gives the
/// hours that are left. There is none where no power flows or the battery
/// does neither.
pub open spec fn energy_to_go(levels: BatteryLevels) -> Option<int> {
    if levels.power_now <= 0 {
        None
    } else {
        match levels.status {
            BatteryStatus::Discharging => Some(levels.energy_now as int),
            BatteryStatus::Charging => if levels.energy_full - levels.energy_now > 0 {
                Some(levels.energy_full - levels.energy_now)
            } else {
                Some(0)
            },
            _ => None,
        }
    }
}

/// The energy that is still to flow, for the time that is left to be
/// computed from it.
pub fn calculate_energy_to_go(levels: &BatteryLevels) -> (energy: Option<i64>)
    requires
        levels.status == BatteryStatus::Charging && levels.power_now > 0 ==> i64::MIN
            <= levels.energy_full - levels.energy_now <= i64::MAX,
    ensures
        match energy {
            Some(e) => energy_to_go(*levels) == Some(e as int),
            None => energy_to_go(*levels) is None,
        },
{
    if levels.power_now <= 0 {
        return None;
    }
    match levels.status {
        BatteryStatus::Discharging => Some(levels.energy_now),
        BatteryStatus::Charging => {
            let remaining = levels.energy_full - levels.energy_now;
            if remaining > 0 {
                Some(remaining)
            } else {
                Some(0)
            }
        },
        _ => None,
    }
}

/// The state of the battery `name`, from what was read of its directory and
/// the time that was computed to be left. A battery that is not there has
/// no state.
pub fn get_info(name: &str, reading: &BatteryReading, time_remaining: Duration) -> (info: Option<
    BatteryInfo,
>)
    ensures
        match info {
            Some(i) => {
                &&& is_present(*reading)
                &&& i.name@ == name@
                &&& i.capacity == file_number_or_zero(reading.capacity) as i32
                &&& i.status == levels_of(*reading).status
                &&& i.energy_now == levels_of(*reading).energy_now
                &&& i.energy_full == levels_of(*reading).energy_full
                &&& i.power_now == levels_of(*reading).power_now
                &&& i.time_remaining == time_remaining
            },
            None => !is_present(*reading),
        },
{
    if !reading.present() {
        return None;
    }
    let levels = reading.levels();
    let capacity = read_or_zero(&reading.capacity);
    Some(
        BatteryInfo {
            name: owned(name),
            capacity: #[verifier::truncate]
            (capacity as i32),
            status: levels.status,
            energy_now: levels.energy_now,
            energy_full: levels.energy_full,
            power_now: levels.power_now,
            time_remaining,
        },
    )
}

/// One entry of the directory of the power supplies: its name and what its
/// file `type` holds.
#[derive(Debug, Clone)]
pub struct SupplyEntry {
    pub name: String,
    pub kind: Option<String>,
}

/// Whether an entry is a battery: its file `type` holds `Battery`.
pub open spec fn is_battery(entry: SupplyEntry) -> bool {
    match entry.kind {
        Some(text) => trim(text@) == "Battery"@,
        None => false,
    }
}

/// The names of the entries from `i` on that are batteries.
pub open spec fn batteries_from(entries: Seq<SupplyEntry>, i: int) -> Seq<Seq<char>>
    decreases entries.len() - i,
{
    if i < 0 || i >= entries.len() {
        Seq::empty()
    } else if is_battery(entries[i]) {
        seq![entries[i].name@] + batteries_from(entries, i + 1)
    } else {
        batteries_from(entries, i + 1)
    }
}

/// The names of the batteries among the power supplies, in the order of
/// the directory.
pub fn find_batteries(entries: &Vec<SupplyEntry>) -> (names: Vec<String>)
    ensures
        texts(names@) == batteries_from(entries@, 0),
{
    let mut out: Vec<String> = Vec::new();
    let mut i: usize = 0;
    assert(texts(out@) =~= Seq::<Seq<char>>::empty());
    while i < entries.len()
        invariant
            i <= entries.len(),
            texts(out@) + batteries_from(entries@, i as int) == batteries_from(entries@, 0),
        decreases entries.len() - i,
    {
        let battery = match &entries[i].kind {
            Some(text) => is_text(&trim_chars(&chars_of(text.as_str())), "Battery"),
            None => false,
        };
        if battery {
            let ghost before = out@;
            out.push(entries[i].name.clone());
            assert(texts(out@) =~= texts(before).push(entries@[i as int].name@));
            assert(texts(before).push(entries@[i as int].name@) + batteries_from(entries@, i + 1)
                =~= texts(before) + (seq![entries@[i as int].name@] + batteries_from(
                entries@,
                i + 1,
            )));
        }
        i += 1;
    }
    assert(texts(out@) + Seq::<Seq<char>>::empty() =~= texts(out@));
    out
}

/// The battery whose state is shown: the first one.
pub fn get_first_battery(batteries: &Vec<String>) -> (name: Option<String>)
    ensures
        match name {
            Some(n) => batteries.len() > 0 && n@ == batteries[0]@,
            None => batteries.len() == 0,
        },
{
    if batteries.len() > 0 {
        Some(batteries[0].clone())
    } else {
        None
    }
}

/// The time that is left, as hours and minutes: `2h 5m`, or `5m` below one
/// hour, or nothing for no time at all.
pub open spec fn time_text(is_zero: bool, secs: nat) -> Seq<char> {
    let total_minutes = secs / 60;
    if is_zero {
        Seq::empty()
    } else if total_minutes / 60 > 0 {
        decimal(total_minutes / 60) + "h "@ + decimal(total_minutes % 60) + "m"@
    } else {
        decimal(total_minutes % 60) + "m"@
    }
}

/// Shows the time that is left.
pub fn format_time_remaining(d: Duration) -> (text: String)
    ensures
        text@ == time_text(duration_is_zero(d), duration_secs(d) as nat),
{
    if d.is_zero() {
        return String::new();
    }
    let total_minutes: u64 = d.as_secs() / 60;
    let hours: u64 = total_minutes / 60;
    let minutes: u64 = total_minutes % 60;
    let mut out: Vec<char> = Vec::new();
    if hours > 0 {
        push_decimal(&mut out, hours);
        crate::text::append_chars(&mut out, &chars_of("h "));
        push_decimal(&mut out, minutes);
        crate::text::append_chars(&mut out, &chars_of("m"));
    } else {
        push_decimal(&mut out, minutes);
        crate::text::append_chars(&mut out, &chars_of("m"));
    }
    assert(out@ =~= time_text(duration_is_zero(d), duration_secs(d) as nat));
    string_of(&out)
}

} // verus!
