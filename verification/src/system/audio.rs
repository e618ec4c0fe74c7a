//! Audio: the two backends, the commands that change volume and routing,
//! and the parsers of what `pactl` and `wpctl` print.

use vstd::prelude::*;
use crate::system::{
    Command, CommandView, clamp_i32, clamped, command_view, index_arg, invoke, percent_arg,
    percent_text,
};
use crate::json::{
    Json, JsonView, field_views, json_text, json_views, lemma_field_views, lemma_json_views,
    member, member_bool, member_text, member_u64, parse_json,
};
use crate::text::{
    chars_of, contains, contains_chars, ends_with, ends_with_chars, find, find_chars, is_digit,
    lemma_filter_next, lines, lines_of, owned, parse_i32, read_i32, rows, same_chars,
    signed_decimal, slice_of, starts_with, starts_with_chars, string_of, strip_suffix,
    strip_suffix_chars, trim, trim_chars, words, words_of,
};

verus! {

/// The audio tool that the system offers.
#[derive(Debug, Clone, Copy, PartialEq, Eq, Structural)]
pub enum BackendType {
    /// No tool answers.
    Unavailable,
    /// `pactl`, of PulseAudio and pipewire-pulse.
    Pactl,
    /// `wpctl`, of WirePlumber.
    Wpctl,
}

impl BackendType {
    /// The backend that a stored code stands for.
    pub open spec fn spec_from_u8(code: u8) -> BackendType {
        if code == 1 {
            BackendType::Pactl
        } else if code == 2 {
            BackendType::Wpctl
        } else {
            BackendType::Unavailable
        }
    }

    /// The code under which this backend is stored.
    pub open spec fn spec_code(self) -> u8 {
        match self {
            BackendType::Unavailable => 0,
            BackendType::Pactl => 1,
            BackendType::Wpctl => 2,
        }
    }

    /// The backend that a stored code stands for.
    #[verifier::when_used_as_spec(spec_from_u8)]
    pub fn from_u8(code: u8) -> (backend: BackendType)
        ensures
            backend == BackendType::spec_from_u8(code),
    {
        match code {
            1 => BackendType::Pactl,
            2 => BackendType::Wpctl,
            _ => BackendType::Unavailable,
        }
    }

    /// The code under which this backend is stored.
    #[verifier::when_used_as_spec(spec_code)]
    pub fn code(self) -> (code: u8)
        ensures
            code == self.spec_code(),
    {
        match self {
            BackendType::Unavailable => 0,
            BackendType::Pactl => 1,
            BackendType::Wpctl => 2,
        }
    }
}

/// A backend's code stands for that backend.
pub proof fn law_backend_code_round_trip(backend: BackendType)
    ensures
        BackendType::spec_from_u8(backend.spec_code()) == backend,
{
}

/// The backend in use, from the code that was stored last.
pub fn current_backend(stored: u8) -> (backend: BackendType)
    ensures
        backend == BackendType::spec_from_u8(stored),
{
    BackendType::from_u8(stored)
}

/// The code to store for a backend.
pub fn set_backend(backend: BackendType) -> (stored: u8)
    ensures
        stored == backend.spec_code(),
{
    backend.code()
}

/// The backend to use: `pactl` where `pactl info` succeeds, else `wpctl`
/// where `wpctl status` succeeds, else none.
pub fn detect_backend(pactl_answers: bool, wpctl_answers: bool) -> (backend: BackendType)
    ensures
        backend == if pactl_answers {
            BackendType::Pactl
        } else if wpctl_answers {
            BackendType::Wpctl
        } else {
            BackendType::Unavailable
        },
{
    if pactl_answers {
        BackendType::Pactl
    } else if wpctl_answers {
        BackendType::Wpctl
    } else {
        BackendType::Unavailable
    }
}

// ---------------------------------------------------------------------------
// Volume and mute
// ---------------------------------------------------------------------------

/// The state of the default output.
#[derive(Debug, Clone, Copy, PartialEq, Eq, Structural)]
pub struct AudioInfo {
    pub volume: i32,
    pub muted: bool,
    pub available: bool,
}

/// The state of the default input.
#[derive(Debug, Clone, Copy, PartialEq, Eq, Structural)]
pub struct SourceInfo {
    pub volume: i32,
    pub muted: bool,
    pub available: bool,
}

/// What was read about the volume of a default device.
#[derive(Debug, Clone)]
pub enum VolumeReading {
    /// From `pactl`: what `get-…-volume` and `get-…-mute` printed, each
    /// missing where the tool could not be run.
    Pactl { volume: Option<String>, mute: Option<String> },
    /// From `wpctl get-volume`: the percentage and the mute flag, missing
    /// where the tool could not be run or its output could not be read.
    Wpctl(Option<(i32, bool)>),
    /// There is no backend.
    Unavailable,
}

/// The one-character text `%`.
pub open spec fn percent_sign() -> Seq<char> {
    seq!['%']
}

/// The first number among the words from `from` on that is written as a
/// 32-bit integer followed by `%`.
pub open spec fn first_percent(list: Seq<Seq<char>>, from: int) -> Option<int>
    decreases list.len() - from,
{
    if from < 0 || from >= list.len() {
        None
    } else {
        let here = match strip_suffix(list[from], percent_sign()) {
            Some(number) => parse_i32(number),
            None => None,
        };
        match here {
            Some(v) => Some(v),
            None => first_percent(list, from + 1),
        }
    }
}

/// The volume that `pactl get-sink-volume` reports: the first percentage
/// among the words of its output.
pub open spec fn pactl_volume(output: Seq<char>) -> Option<int> {
    first_percent(words(output), 0)
}

/// Whether `pactl get-sink-mute` reports a muted device: its output holds
/// `yes`.
pub open spec fn pactl_muted(output: Option<String>) -> bool {
    match output {
        Some(text) => contains(text@, "yes"@),
        None => false,
    }
}

/// Volume, mute flag and availability that a reading gives. Without a
/// volume the device counts as unavailable, silent and not muted.
pub open spec fn volume_state(reading: VolumeReading) -> (int, bool, bool) {
    match reading {
        VolumeReading::Pactl { volume: Some(text), mute } => match pactl_volume(text@) {
            Some(v) => (v, pactl_muted(mute), true),
            None => (0, false, false),
        },
        VolumeReading::Pactl { volume: None, mute } => (0, false, false),
        VolumeReading::Wpctl(Some((volume, muted))) => (volume as int, muted, true),
        VolumeReading::Wpctl(None) => (0, false, false),
        VolumeReading::Unavailable => (0, false, false),
    }
}

/// Reads the volume from the output of `pactl get-sink-volume` or
/// `pactl get-source-volume`.
pub fn get_volume_pactl(output: &str) -> (volume: Option<i32>)
    ensures
        match volume {
            Some(v) => pactl_volume(output@) == Some(v as int),
            None => pactl_volume(output@) is None,
        },
{
    let list = words_of(&chars_of(output));
    let sign: Vec<char> = vec!['%'];
    assert(sign@ == percent_sign());
    let mut i: usize = 0;
    while i < list.len()
        invariant
            i <= list.len(),
            sign@ == percent_sign(),
            rows(list@) == words(output@),
            first_percent(rows(list@), 0) == first_percent(rows(list@), i as int),
        decreases list.len() - i,
    {
        match strip_suffix_chars(&list[i], &sign) {
            Some(number) => match read_i32(&number) {
                Some(v) => {
                    return Some(v);
                },
                None => {},
            },
            None => {},
        }
        i += 1;
    }
    None
}

/// Whether the output of `pactl get-sink-mute` or `pactl get-source-mute`
/// reports a muted device.
pub fn get_muted_pactl(output: &Option<String>) -> (muted: bool)
    ensures
        muted == pactl_muted(*output),
{
    match output {
        Some(text) => contains_chars(&chars_of(text.as_str()), &chars_of("yes")),
        None => false,
    }
}

fn read_volume(reading: &VolumeReading) -> (state: (i32, bool, bool))
    ensures
        (state.0 as int, state.1, state.2) == volume_state(*reading),
{
    match reading {
        VolumeReading::Pactl { volume, mute } => match volume {
            Some(text) => match get_volume_pactl(text.as_str()) {
                Some(v) => (v, get_muted_pactl(mute), true),
                None => (0, false, false),
            },
            None => (0, false, false),
        },
        VolumeReading::Wpctl(read) => match read {
            Some((volume, muted)) => (*volume, *muted, true),
            None => (0, false, false),
        },
        VolumeReading::Unavailable => (0, false, false),
    }
}

/// The state of the default output, from what was read about it.
pub fn get_info(reading: &VolumeReading) -> (info: AudioInfo)
    ensures
        (info.volume as int, info.muted, info.available) == volume_state(*reading),
{
    let (volume, muted, available) = read_volume(reading);
    AudioInfo { volume, muted, available }
}

/// The state of the default input, from what was read about it.
pub fn get_source_info(reading: &VolumeReading) -> (info: SourceInfo)
    ensures
        (info.volume as int, info.muted, info.available) == volume_state(*reading),
{
    let (volume, muted, available) = read_volume(reading);
    SourceInfo { volume, muted, available }
}

// ---------------------------------------------------------------------------
// Commands
// ---------------------------------------------------------------------------

/// The volume that a tool is asked for: the wanted one, held between 0 and
/// 150 percent.
pub open spec fn volume_arg(percent: i32) -> Seq<char> {
    percent_text(clamped(percent as int, 0, 150))
}

/// The command that sets the volume of the device `device_pactl`, or
/// `device_wpctl`, to `percent`.
pub open spec fn volume_command(
    backend: BackendType,
    verb_pactl: Seq<char>,
    device_pactl: Seq<char>,
    device_wpctl: Seq<char>,
    percent: i32,
) -> Option<CommandView> {
    match backend {
        BackendType::Pactl => Some(
            invoke("pactl"@, seq![verb_pactl, device_pactl, volume_arg(percent)]),
        ),
        BackendType::Wpctl => Some(
            invoke("wpctl"@, seq!["set-volume"@, device_wpctl, volume_arg(percent)]),
        ),
        BackendType::Unavailable => None,
    }
}

/// The command that toggles the mute flag of a default device.
pub open spec fn mute_command(
    backend: BackendType,
    verb_pactl: Seq<char>,
    device_pactl: Seq<char>,
    device_wpctl: Seq<char>,
) -> Option<CommandView> {
    match backend {
        BackendType::Pactl => Some(invoke("pactl"@, seq![verb_pactl, device_pactl, "toggle"@])),
        BackendType::Wpctl => Some(invoke("wpctl"@, seq!["set-mute"@, device_wpctl, "toggle"@])),
        BackendType::Unavailable => None,
    }
}

/// The command that a backend takes only from `pactl`.
pub open spec fn pactl_only(backend: BackendType, args: Seq<Seq<char>>) -> Option<CommandView> {
    if backend == BackendType::Pactl {
        Some(invoke("pactl"@, args))
    } else {
        None
    }
}

fn volume_arg_text(percent: i32) -> (text: String)
    ensures
        text@ == volume_arg(percent),
{
    percent_arg(clamp_i32(percent, 0, 150))
}

fn build3(program: &str, a: &str, b: &str, c: &str) -> (made: Command)
    ensures
        made@ == invoke(program@, seq![a@, b@, c@]),
{
    let made = Command::new(program).arg(a).arg(b).arg(c);
    assert(made@.args =~= seq![a@, b@, c@]);
    made
}

fn build2(program: &str, a: &str, b: &str) -> (made: Command)
    ensures
        made@ == invoke(program@, seq![a@, b@]),
{
    let made = Command::new(program).arg(a).arg(b);
    assert(made@.args =~= seq![a@, b@]);
    made
}

fn make_volume_command(
    backend: BackendType,
    verb_pactl: &str,
    device_pactl: &str,
    device_wpctl: &str,
    percent: i32,
) -> (command: Option<Command>)
    ensures
        command_view(command) == volume_command(
            backend,
            verb_pactl@,
            device_pactl@,
            device_wpctl@,
            percent,
        ),
{
    let amount = volume_arg_text(percent);
    match backend {
        BackendType::Pactl => Some(build3("pactl", verb_pactl, device_pactl, amount.as_str())),
        BackendType::Wpctl => Some(build3("wpctl", "set-volume", device_wpctl, amount.as_str())),
        BackendType::Unavailable => None,
    }
}

fn make_mute_command(
    backend: BackendType,
    verb_pactl: &str,
    device_pactl: &str,
    device_wpctl: &str,
) -> (command: Option<Command>)
    ensures
        command_view(command) == mute_command(backend, verb_pactl@, device_pactl@, device_wpctl@),
{
    match backend {
        BackendType::Pactl => Some(build3("pactl", verb_pactl, device_pactl, "toggle")),
        BackendType::Wpctl => Some(build3("wpctl", "set-mute", device_wpctl, "toggle")),
        BackendType::Unavailable => None,
    }
}

fn make_pactl3(backend: BackendType, a: &str, b: &str, c: &str) -> (command: Option<Command>)
    ensures
        command_view(command) == pactl_only(backend, seq![a@, b@, c@]),
{
    match backend {
        BackendType::Pactl => Some(build3("pactl", a, b, c)),
        _ => None,
    }
}

/// The command that sets the volume of the default output.
pub fn set_volume(backend: BackendType, percent: i32) -> (command: Option<Command>)
    ensures
        command_view(command) == volume_command(
            backend,
            "set-sink-volume"@,
            "@DEFAULT_SINK@"@,
            "@DEFAULT_AUDIO_SINK@"@,
            percent,
        ),
{
    make_volume_command(backend, "set-sink-volume", "@DEFAULT_SINK@", "@DEFAULT_AUDIO_SINK@", percent)
}

/// The command that toggles the mute flag of the default output.
pub fn toggle_mute(backend: BackendType) -> (command: Option<Command>)
    ensures
        command_view(command) == mute_command(
            backend,
            "set-sink-mute"@,
            "@DEFAULT_SINK@"@,
            "@DEFAULT_AUDIO_SINK@"@,
        ),
{
    make_mute_command(backend, "set-sink-mute", "@DEFAULT_SINK@", "@DEFAULT_AUDIO_SINK@")
}

/// The command that sets the volume of the default input.
pub fn set_source_volume(backend: BackendType, percent: i32) -> (command: Option<Command>)
    ensures
        command_view(command) == volume_command(
            backend,
            "set-source-volume"@,
            "@DEFAULT_SOURCE@"@,
            "@DEFAULT_AUDIO_SOURCE@"@,
            percent,
        ),
{
    make_volume_command(
        backend,
        "set-source-volume",
        "@DEFAULT_SOURCE@",
        "@DEFAULT_AUDIO_SOURCE@",
        percent,
    )
}

/// The command that toggles the mute flag of the default input.
pub fn toggle_source_mute(backend: BackendType) -> (command: Option<Command>)
    ensures
        command_view(command) == mute_command(
            backend,
            "set-source-mute"@,
            "@DEFAULT_SOURCE@"@,
            "@DEFAULT_AUDIO_SOURCE@"@,
        ),
{
    make_mute_command(backend, "set-source-mute", "@DEFAULT_SOURCE@", "@DEFAULT_AUDIO_SOURCE@")
}

/// The command that sets the volume of the playback stream `index`.
pub fn set_sink_input_volume(backend: BackendType, index: u32, percent: i32) -> (command: Option<
    Command,
>)
    ensures
        command_view(command) == pactl_only(
            backend,
            seq!["set-sink-input-volume"@, signed_decimal(index as int), volume_arg(percent)],
        ),
{
    make_pactl3(
        backend,
        "set-sink-input-volume",
        index_arg(index).as_str(),
        volume_arg_text(percent).as_str(),
    )
}

/// The command that sets the mute flag of the playback stream `index`;
/// `toggle` is `1`, `0` or `toggle`, as the tool takes it.
pub fn set_sink_input_mute(backend: BackendType, index: u32, toggle: &str) -> (command: Option<
    Command,
>)
    ensures
        command_view(command) == pactl_only(
            backend,
            seq!["set-sink-input-mute"@, signed_decimal(index as int), toggle@],
        ),
{
    make_pactl3(backend, "set-sink-input-mute", index_arg(index).as_str(), toggle)
}

/// The command that sets the volume of the recording stream `index`.
pub fn set_source_output_volume(backend: BackendType, index: u32, percent: i32) -> (command:
    Option<Command>)
    ensures
        command_view(command) == pactl_only(
            backend,
            seq!["set-source-output-volume"@, signed_decimal(index as int), volume_arg(percent)],
        ),
{
    make_pactl3(
        backend,
        "set-source-output-volume",
        index_arg(index).as_str(),
        volume_arg_text(percent).as_str(),
    )
}

/// The command that sets the mute flag of the recording stream `index`.
pub fn set_source_output_mute(backend: BackendType, index: u32, toggle: &str) -> (command: Option<
    Command,
>)
    ensures
        command_view(command) == pactl_only(
            backend,
            seq!["set-source-output-mute"@, signed_decimal(index as int), toggle@],
        ),
{
    make_pactl3(backend, "set-source-output-mute", index_arg(index).as_str(), toggle)
}

/// The command that moves the playback stream `index` to the output
/// `sink_name`.
pub fn move_sink_input(backend: BackendType, index: u32, sink_name: &str) -> (command: Option<
    Command,
>)
    ensures
        command_view(command) == pactl_only(
            backend,
            seq!["move-sink-input"@, signed_decimal(index as int), sink_name@],
        ),
{
    make_pactl3(backend, "move-sink-input", index_arg(index).as_str(), sink_name)
}

/// The command that moves the recording stream `index` to the input
/// `source_name`.
pub fn move_source_output(backend: BackendType, index: u32, source_name: &str) -> (command:
    Option<Command>)
    ensures
        command_view(command) == pactl_only(
            backend,
            seq!["move-source-output"@, signed_decimal(index as int), source_name@],
        ),
{
    make_pactl3(backend, "move-source-output", index_arg(index).as_str(), source_name)
}

/// The command that gives the card `card_name` the profile `profile`.
pub fn set_card_profile(backend: BackendType, card_name: &str, profile: &str) -> (command: Option<
    Command,
>)
    ensures
        command_view(command) == pactl_only(
            backend,
            seq!["set-card-profile"@, card_name@, profile@],
        ),
{
    make_pactl3(backend, "set-card-profile", card_name, profile)
}

/// The command that makes a device the default: `pactl` takes the verb and
/// the device's name, `wpctl` the device's number.
pub open spec fn default_command(backend: BackendType, verb_pactl: Seq<char>, name: Seq<char>) -> Option<
    CommandView,
> {
    match backend {
        BackendType::Pactl => Some(invoke("pactl"@, seq![verb_pactl, name])),
        BackendType::Wpctl => Some(invoke("wpctl"@, seq!["set-default"@, name])),
        BackendType::Unavailable => None,
    }
}

fn make_default_command(backend: BackendType, verb_pactl: &str, name: &str) -> (command: Option<
    Command,
>)
    ensures
        command_view(command) == default_command(backend, verb_pactl@, name@),
{
    match backend {
        BackendType::Pactl => Some(build2("pactl", verb_pactl, name)),
        BackendType::Wpctl => Some(build2("wpctl", "set-default", name)),
        BackendType::Unavailable => None,
    }
}

/// The command that makes the output `name` the default.
pub fn set_default_sink(backend: BackendType, name: &str) -> (command: Option<Command>)
    ensures
        command_view(command) == default_command(backend, "set-default-sink"@, name@),
{
    make_default_command(backend, "set-default-sink", name)
}

/// The command that makes the input `name` the default.
pub fn set_default_source(backend: BackendType, name: &str) -> (command: Option<Command>)
    ensures
        command_view(command) == default_command(backend, "set-default-source"@, name@),
{
    make_default_command(backend, "set-default-source", name)
}


// ---------------------------------------------------------------------------
// Streams of applications
// ---------------------------------------------------------------------------

/// A stream that an application plays into an output.
#[derive(Debug, Clone)]
pub struct SinkInput {
    pub index: u32,
    pub name: String,
    pub sink_name: String,
    pub volume: i32,
    pub muted: bool,
}

/// A stream that an application records from an input.
#[derive(Debug, Clone)]
pub struct SourceOutput {
    pub index: u32,
    pub name: String,
    pub source_name: String,
    pub volume: i32,
    pub muted: bool,
}

/// What a stream holds: its index, the application's name, the device it is
/// routed to, its volume and its mute flag.
pub struct StreamView {
    pub index: u32,
    pub name: Seq<char>,
    pub target: Seq<char>,
    pub volume: i32,
    pub muted: bool,
}

impl View for SinkInput {
    type V = StreamView;

    open spec fn view(&self) -> StreamView {
        StreamView {
            index: self.index,
            name: self.name@,
            target: self.sink_name@,
            volume: self.volume,
            muted: self.muted,
        }
    }
}

impl View for SourceOutput {
    type V = StreamView;

    open spec fn view(&self) -> StreamView {
        StreamView {
            index: self.index,
            name: self.name@,
            target: self.source_name@,
            volume: self.volume,
            muted: self.muted,
        }
    }
}

/// What a list of playback streams holds, in order.
pub open spec fn sink_input_views(list: Seq<SinkInput>) -> Seq<StreamView> {
    list.map_values(|s: SinkInput| s@)
}

/// What a list of recording streams holds, in order.
pub open spec fn source_output_views(list: Seq<SourceOutput>) -> Seq<StreamView> {
    list.map_values(|s: SourceOutput| s@)
}

/// The items of the JSON array that a text denotes; a text that denotes
/// anything else, or nothing, has none.
pub open spec fn json_items(text: Seq<char>) -> Seq<JsonView> {
    match json_text(text) {
        Ok(JsonView::Array(items)) => items,
        _ => Seq::empty(),
    }
}

/// The percentage of one channel of a volume: its member `value_percent`,
/// a 32-bit integer followed by `%`.
pub open spec fn channel_percent(channel: JsonView) -> Option<int> {
    match member_text(channel, "value_percent"@) {
        Some(text) => match strip_suffix(text, percent_sign()) {
            Some(number) => parse_i32(trim(number)),
            None => None,
        },
        None => None,
    }
}

/// The percentage of the first channel, from `from` on, that has one.
pub open spec fn first_channel_percent(channels: Seq<(Seq<char>, JsonView)>, from: int) -> Option<
    int,
>
    decreases channels.len() - from,
{
    if from < 0 || from >= channels.len() {
        None
    } else {
        match channel_percent(channels[from].1) {
            Some(v) => Some(v),
            None => first_channel_percent(channels, from + 1),
        }
    }
}

/// The percentage of a volume object: that of its first channel that has
/// one, and 100 where there is none.
pub open spec fn volume_percent(volume: JsonView) -> int {
    match volume {
        JsonView::Object(channels) => match first_channel_percent(channels, 0) {
            Some(v) => v,
            None => 100,
        },
        _ => 100,
    }
}

/// A text member of the member `properties` of a stream.
pub open spec fn property_text(item: JsonView, key: Seq<char>) -> Option<Seq<char>> {
    match member(item, "properties"@) {
        Some(properties) => member_text(properties, key),
        None => None,
    }
}

/// The name under which a stream is shown: the application's name, else the
/// name of what it plays, else the stream's own name, else `Unknown`.
pub open spec fn stream_name(item: JsonView) -> Seq<char> {
    match property_text(item, "application.name"@) {
        Some(name) => name,
        None => match property_text(item, "media.name"@) {
            Some(name) => name,
            None => match member_text(item, "name"@) {
                Some(name) => name,
                None => "Unknown"@,
            },
        },
    }
}

/// A stream of the sound server itself, which is not shown.
pub open spec fn is_internal_stream(item: JsonView) -> bool {
    match property_text(item, "application.process.binary"@) {
        Some(binary) => binary == "pipewire"@ || binary == "pipewire-pulse"@,
        None => false,
    }
}

/// The stream that one item of `pactl list sink-inputs` or `pactl list
/// source-outputs` describes; `target_key` names the member that holds the
/// device. An item without an index, and an internal stream, describes none.
pub open spec fn stream_of(item: JsonView, target_key: Seq<char>) -> Option<StreamView> {
    match member_u64(item, "index"@) {
        None => None,
        Some(index) => if is_internal_stream(item) {
            None
        } else {
            Some(
                StreamView {
                    index: index as u32,
                    name: stream_name(item),
                    target: match member_text(item, target_key) {
                        Some(name) => name,
                        None => Seq::empty(),
                    },
                    volume: match member(item, "volume"@) {
                        Some(volume) => volume_percent(volume) as i32,
                        None => 100,
                    },
                    muted: match member_bool(item, "mute"@) {
                        Some(muted) => muted,
                        None => false,
                    },
                },
            )
        },
    }
}

/// The reader of the streams whose device stands under `target_key`.
pub open spec fn stream_reader(target_key: Seq<char>) -> spec_fn(JsonView) -> Option<StreamView> {
    |item: JsonView| stream_of(item, target_key)
}

/// The streams that the output of `pactl --format=json list sink-inputs`
/// or `… source-outputs` lists. Only `pactl` lists streams.
pub open spec fn streams_of(
    backend: BackendType,
    output: Option<Seq<char>>,
    target_key: Seq<char>,
) -> Seq<StreamView> {
    match output {
        Some(text) => if backend == BackendType::Pactl {
            json_items(text).filter_map(stream_reader(target_key))
        } else {
            Seq::empty()
        },
        None => Seq::empty(),
    }
}

/// Reads the percentage of a JSON volume object.
pub fn parse_volume_percent(volume: &Json) -> (percent: i32)
    ensures
        percent as int == volume_percent(volume@),
{
    match volume.as_object() {
        Some(channels) => {
            let sign: Vec<char> = vec!['%'];
            assert(sign@ == percent_sign());
            let mut i: usize = 0;
            while i < channels.len()
                invariant
                    i <= channels.len(),
                    sign@ == percent_sign(),
                    volume@ == JsonView::Object(field_views(channels@)),
                    first_channel_percent(field_views(channels@), 0) == first_channel_percent(
                        field_views(channels@),
                        i as int,
                    ),
                decreases channels.len() - i,
            {
                proof {
                    lemma_field_views(channels@);
                }
                match channels[i].value.get_str("value_percent") {
                    Some(text) => match strip_suffix_chars(&chars_of(text.as_str()), &sign) {
                        Some(number) => match read_i32(&trim_chars(&number)) {
                            Some(v) => {
                                return v;
                            },
                            None => {},
                        },
                        None => {},
                    },
                    None => {},
                }
                i += 1;
            }
            proof {
                lemma_field_views(channels@);
            }
            100
        },
        None => 100,
    }
}

fn read_property<'a>(item: &'a Json, key: &str) -> (text: Option<&'a String>)
    ensures
        match text {
            Some(t) => property_text(item@, key@) == Some(t@),
            None => property_text(item@, key@) is None,
        },
{
    match item.get("properties") {
        Some(properties) => properties.get_str(key),
        None => None,
    }
}

fn read_stream_name(item: &Json) -> (name: String)
    ensures
        name@ == stream_name(item@),
{
    match read_property(item, "application.name") {
        Some(name) => name.clone(),
        None => match read_property(item, "media.name") {
            Some(name) => name.clone(),
            None => match item.get_str("name") {
                Some(name) => name.clone(),
                None => owned("Unknown"),
            },
        },
    }
}

fn check_internal_stream(item: &Json) -> (internal: bool)
    ensures
        internal == is_internal_stream(item@),
{
    match read_property(item, "application.process.binary") {
        Some(binary) => {
            let b = chars_of(binary.as_str());
            crate::text::is_text(&b, "pipewire") || crate::text::is_text(&b, "pipewire-pulse")
        },
        None => false,
    }
}

fn read_stream(item: &Json, target_key: &str) -> (stream: Option<(u32, String, String, i32, bool)>)
    ensures
        match stream {
            Some(s) => stream_of(item@, target_key@) == Some(
                StreamView { index: s.0, name: s.1@, target: s.2@, volume: s.3, muted: s.4 },
            ),
            None => stream_of(item@, target_key@) is None,
        },
{
    match item.get_u64("index") {
        None => None,
        Some(index) => {
            if check_internal_stream(item) {
                None
            } else {
                let name = read_stream_name(item);
                let target = match item.get_str(target_key) {
                    Some(name) => name.clone(),
                    None => String::new(),
                };
                let volume = match item.get("volume") {
                    Some(volume) => parse_volume_percent(volume),
                    None => 100,
                };
                let muted = match item.get_bool("mute") {
                    Some(muted) => muted,
                    None => false,
                };
                Some((
                    #[verifier::truncate]
                    (index as u32),
                    name,
                    target,
                    volume,
                    muted,
                ))
            }
        },
    }
}

/// The JSON array that a text denotes, if it denotes one.
fn parse_array(text: &str) -> (doc: Option<Json>)
    ensures
        match doc {
            Some(d) => d@ == JsonView::Array(json_items(text@)) && json_text(text@) is Ok,
            None => json_items(text@) == Seq::<JsonView>::empty(),
        },
{
    match parse_json(text) {
        Ok(doc) => {
            let is_array = match &doc {
                Json::Array(_) => true,
                _ => false,
            };
            if is_array {
                Some(doc)
            } else {
                None
            }
        },
        Err(_) => None,
    }
}

/// The playback streams that `pactl --format=json list sink-inputs`
/// printed; `output` is missing where the tool could not be run.
pub fn list_sink_inputs(backend: BackendType, output: Option<&str>) -> (list: Vec<SinkInput>)
    ensures
        sink_input_views(list@) == streams_of(backend, crate::text::opt_text(output), "sink"@),
{
    let mut out: Vec<SinkInput> = Vec::new();
    let text = match output {
        Some(text) => text,
        None => {
            assert(sink_input_views(out@) =~= Seq::<StreamView>::empty());
            return out;
        },
    };
    if backend != BackendType::Pactl {
        assert(sink_input_views(out@) =~= Seq::<StreamView>::empty());
        return out;
    }
    let doc = match parse_array(text) {
        Some(doc) => doc,
        None => {
            assert(sink_input_views(out@) =~= Seq::<StreamView>::empty());
            assert(Seq::<JsonView>::empty().filter_map(stream_reader("sink"@)) =~= Seq::<
                StreamView,
            >::empty());
            return out;
        },
    };
    let items = match doc.as_array() {
        Some(items) => items,
        None => {
            return out;
        },
    };
    let ghost all = json_views(items@);
    let ghost reader = stream_reader("sink"@);
    let mut i: usize = 0;
    assert(sink_input_views(out@) =~= all.take(0).filter_map(reader));
    while i < items.len()
        invariant
            i <= items.len(),
            all == json_views(items@),
            reader == stream_reader("sink"@),
            sink_input_views(out@) == all.take(i as int).filter_map(reader),
        decreases items.len() - i,
    {
        proof {
            lemma_json_views(items@);
            all.lemma_filter_map_take_succ(reader, i as int);
        }
        let ghost before = out@;
        match read_stream(&items[i], "sink") {
            Some((index, name, sink_name, volume, muted)) => {
                let stream = SinkInput { index, name, sink_name, volume, muted };
                out.push(stream);
                assert(sink_input_views(out@) =~= sink_input_views(before) + seq![stream@]);
            },
            None => {
                assert(sink_input_views(before) + Seq::<StreamView>::empty() =~= sink_input_views(
                    before,
                ));
            },
        }
        i += 1;
    }
    proof {
        lemma_json_views(items@);
        assert(all.take(items.len() as int) == all);
    }
    out
}

/// The recording streams that `pactl --format=json list source-outputs`
/// printed; `output` is missing where the tool could not be run.
pub fn list_source_outputs(backend: BackendType, output: Option<&str>) -> (list: Vec<SourceOutput>)
    ensures
        source_output_views(list@) == streams_of(
            backend,
            crate::text::opt_text(output),
            "source"@,
        ),
{
    let mut out: Vec<SourceOutput> = Vec::new();
    let text = match output {
        Some(text) => text,
        None => {
            assert(source_output_views(out@) =~= Seq::<StreamView>::empty());
            return out;
        },
    };
    if backend != BackendType::Pactl {
        assert(source_output_views(out@) =~= Seq::<StreamView>::empty());
        return out;
    }
    let doc = match parse_array(text) {
        Some(doc) => doc,
        None => {
            assert(source_output_views(out@) =~= Seq::<StreamView>::empty());
            assert(Seq::<JsonView>::empty().filter_map(stream_reader("source"@)) =~= Seq::<
                StreamView,
            >::empty());
            return out;
        },
    };
    let items = match doc.as_array() {
        Some(items) => items,
        None => {
            return out;
        },
    };
    let ghost all = json_views(items@);
    let ghost reader = stream_reader("source"@);
    let mut i: usize = 0;
    assert(source_output_views(out@) =~= all.take(0).filter_map(reader));
    while i < items.len()
        invariant
            i <= items.len(),
            all == json_views(items@),
            reader == stream_reader("source"@),
            source_output_views(out@) == all.take(i as int).filter_map(reader),
        decreases items.len() - i,
    {
        proof {
            lemma_json_views(items@);
            all.lemma_filter_map_take_succ(reader, i as int);
        }
        let ghost before = out@;
        match read_stream(&items[i], "source") {
            Some((index, name, source_name, volume, muted)) => {
                let stream = SourceOutput { index, name, source_name, volume, muted };
                out.push(stream);
                assert(source_output_views(out@) =~= source_output_views(before) + seq![stream@]);
            },
            None => {
                assert(source_output_views(before) + Seq::<StreamView>::empty()
                    =~= source_output_views(before));
            },
        }
        i += 1;
    }
    proof {
        lemma_json_views(items@);
        assert(all.take(items.len() as int) == all);
    }
    out
}


// ---------------------------------------------------------------------------
// Devices
// ---------------------------------------------------------------------------

/// An output or an input. For `pactl`, `name` is the device's name; for
/// `wpctl` it is the device's number.
#[derive(Debug, Clone)]
pub struct AudioDevice {
    pub name: String,
    pub description: String,
    pub is_default: bool,
}

/// What a device holds.
pub struct AudioDeviceView {
    pub name: Seq<char>,
    pub description: Seq<char>,
    pub is_default: bool,
}

impl View for AudioDevice {
    type V = AudioDeviceView;

    open spec fn view(&self) -> AudioDeviceView {
        AudioDeviceView {
            name: self.name@,
            description: self.description@,
            is_default: self.is_default,
        }
    }
}

/// What a list of devices holds, in order.
pub open spec fn device_views(list: Seq<AudioDevice>) -> Seq<AudioDeviceView> {
    list.map_values(|d: AudioDevice| d@)
}

/// The device that one item of `pactl list sinks` or `pactl list sources`
/// describes: it needs a name; without a description the name stands in.
pub open spec fn pactl_device(item: JsonView, default_name: Seq<char>) -> Option<AudioDeviceView> {
    match member_text(item, "name"@) {
        Some(name) => Some(
            AudioDeviceView {
                name,
                description: match member_text(item, "description"@) {
                    Some(description) => description,
                    None => name,
                },
                is_default: name == default_name,
            },
        ),
        None => None,
    }
}

/// The reader of the devices among which `default_name` is the default.
pub open spec fn pactl_device_reader(default_name: Seq<char>) -> spec_fn(JsonView) -> Option<
    AudioDeviceView,
> {
    |item: JsonView| pactl_device(item, default_name)
}

/// The devices that `pactl --format=json list sinks` or `… sources` lists.
pub open spec fn pactl_devices(listing: Seq<char>, default_name: Seq<char>) -> Seq<
    AudioDeviceView,
> {
    json_items(listing).filter_map(pactl_device_reader(default_name))
}

/// The default device that `pactl get-default-sink` or `… -source` names:
/// its output without the white space around it, or nothing.
pub open spec fn pactl_default_name(output: Option<String>) -> Seq<char> {
    match output {
        Some(text) => trim(text@),
        None => Seq::empty(),
    }
}

/// Reads the devices from the output of `pactl --format=json list sinks` or
/// `… sources`.
pub fn parse_devices_pactl(listing: &str, default_name: &str) -> (list: Vec<AudioDevice>)
    ensures
        device_views(list@) == pactl_devices(listing@, default_name@),
{
    let mut out: Vec<AudioDevice> = Vec::new();
    let wanted = chars_of(default_name);
    let doc = match parse_array(listing) {
        Some(doc) => doc,
        None => {
            assert(device_views(out@) =~= Seq::<AudioDeviceView>::empty());
            assert(Seq::<JsonView>::empty().filter_map(pactl_device_reader(default_name@))
                =~= Seq::<AudioDeviceView>::empty());
            return out;
        },
    };
    let items = match doc.as_array() {
        Some(items) => items,
        None => {
            return out;
        },
    };
    let ghost all = json_views(items@);
    let ghost reader = pactl_device_reader(default_name@);
    let mut i: usize = 0;
    assert(device_views(out@) =~= all.take(0).filter_map(reader));
    while i < items.len()
        invariant
            i <= items.len(),
            wanted@ == default_name@,
            all == json_views(items@),
            reader == pactl_device_reader(default_name@),
            device_views(out@) == all.take(i as int).filter_map(reader),
        decreases items.len() - i,
    {
        proof {
            lemma_json_views(items@);
            all.lemma_filter_map_take_succ(reader, i as int);
        }
        let ghost before = out@;
        match items[i].get_str("name") {
            Some(name) => {
                let description = match items[i].get_str("description") {
                    Some(description) => description.clone(),
                    None => name.clone(),
                };
                let is_default = same_chars(&chars_of(name.as_str()), &wanted);
                let device = AudioDevice { name: name.clone(), description, is_default };
                out.push(device);
                assert(device_views(out@) =~= device_views(before) + seq![device@]);
            },
            None => {
                assert(device_views(before) + Seq::<AudioDeviceView>::empty() =~= device_views(
                    before,
                ));
            },
        }
        i += 1;
    }
    proof {
        lemma_json_views(items@);
        assert(all.take(items.len() as int) == all);
    }
    out
}

/// The characters of `s` that are decimal digits, in order.
pub open spec fn digits_of(s: Seq<char>) -> Seq<char> {
    s.filter(|c: char| is_digit(c))
}

/// The device that one line of a section of `wpctl status` describes. The
/// line holds `. `; the digits before it are the device's number; what
/// follows, up to ` [` if that occurs, is its description; a `*` marks the
/// default. A line without number or description describes no device.
pub open spec fn wpctl_device(line: Seq<char>) -> Option<AudioDeviceView> {
    match find(line, ". "@) {
        None => None,
        Some(dot) => {
            let name = digits_of(line.take(dot));
            let after = line.skip(dot + 2);
            let description = match find(after, " ["@) {
                Some(bracket) => trim(after.take(bracket)),
                None => trim(after),
            };
            if name.len() == 0 || description.len() == 0 {
                None
            } else {
                Some(AudioDeviceView { name, description, is_default: contains(line, seq!['*']) })
            }
        },
    }
}

/// The beginning of every line inside a section of `wpctl status`.
pub open spec fn tree_branch() -> Seq<char> {
    " \u{2502}"@
}

/// The devices of a section from line `i` on. Before the section, lines are
/// passed over until one holds the section's name and a colon. Inside it,
/// the first line that does not begin with the branch sign ends it.
pub open spec fn wpctl_scan(lines: Seq<Seq<char>>, section: Seq<char>, i: int, inside: bool) -> Seq<
    AudioDeviceView,
>
    decreases lines.len() - i,
{
    if i < 0 || i >= lines.len() {
        Seq::empty()
    } else if !inside {
        wpctl_scan(
            lines,
            section,
            i + 1,
            contains(lines[i], section) && contains(lines[i], seq![':']),
        )
    } else if !starts_with(lines[i], tree_branch()) {
        Seq::empty()
    } else {
        (match wpctl_device(lines[i]) {
            Some(device) => seq![device],
            None => Seq::empty(),
        }) + wpctl_scan(lines, section, i + 1, true)
    }
}

/// The devices that the section `section` of `wpctl status` lists.
pub open spec fn wpctl_devices(status: Seq<char>, section: Seq<char>) -> Seq<AudioDeviceView> {
    wpctl_scan(lines(status), section, 0, false)
}

fn filter_digits(s: &Vec<char>, end: usize) -> (out: Vec<char>)
    requires
        end <= s.len(),
    ensures
        out@ == digits_of(s@.take(end as int)),
{
    let mut out: Vec<char> = Vec::new();
    let ghost keep = |c: char| is_digit(c);
    let ghost all = s@.take(end as int);
    let mut i: usize = 0;
    assert(all.take(0).filter(keep) =~= Seq::<char>::empty()) by {
        reveal(Seq::filter);
    }
    while i < end
        invariant
            i <= end <= s.len(),
            all == s@.take(end as int),
            keep == (|c: char| is_digit(c)),
            out@ == all.take(i as int).filter(keep),
        decreases end - i,
    {
        proof {
            lemma_filter_next(all, keep, i as int);
        }
        let c = s[i];
        if '0' <= c && c <= '9' {
            out.push(c);
        }
        i += 1;
    }
    assert(all.take(end as int) == all);
    out
}

fn read_wpctl_device(line: &Vec<char>) -> (device: Option<AudioDevice>)
    ensures
        match device {
            Some(d) => wpctl_device(line@) == Some(d@),
            None => wpctl_device(line@) is None,
        },
{
    match find_chars(line, &chars_of(". ")) {
        None => None,
        Some(dot) => {
            proof {
                reveal_strlit(". ");
            }
            let name = filter_digits(line, dot);
            let after = slice_of(line, dot + 2, line.len());
            assert(after@ == line@.skip(dot + 2));
            let description = match find_chars(&after, &chars_of(" [")) {
                Some(bracket) => {
                    assert(after@.subrange(0, bracket as int) == after@.take(bracket as int));
                    trim_chars(&slice_of(&after, 0, bracket))
                },
                None => trim_chars(&after),
            };
            if name.len() == 0 || description.len() == 0 {
                None
            } else {
                let star: Vec<char> = vec!['*'];
                assert(star@ == seq!['*']);
                Some(
                    AudioDevice {
                        name: string_of(&name),
                        description: string_of(&description),
                        is_default: contains_chars(line, &star),
                    },
                )
            }
        },
    }
}

/// Reads the devices of the section `section`, `Sinks` or `Sources`, from
/// the output of `wpctl status`.
pub fn parse_wpctl_devices(status: &str, section: &str) -> (list: Vec<AudioDevice>)
    ensures
        device_views(list@) == wpctl_devices(status@, section@),
{
    let all = lines_of(&chars_of(status));
    let wanted = chars_of(section);
    let colon: Vec<char> = vec![':'];
    let branch = chars_of(" \u{2502}");
    let mut out: Vec<AudioDevice> = Vec::new();
    let mut inside = false;
    let mut i: usize = 0;
    assert(device_views(out@) =~= Seq::<AudioDeviceView>::empty());
    while i < all.len()
        invariant
            i <= all.len(),
            rows(all@) == lines(status@),
            wanted@ == section@,
            colon@ == seq![':'],
            branch@ == tree_branch(),
            device_views(out@) + wpctl_scan(rows(all@), section@, i as int, inside)
                == wpctl_devices(status@, section@),
        decreases all.len() - i,
    {
        let line = &all[i];
        assert(rows(all@)[i as int] == line@);
        if !inside {
            inside = contains_chars(line, &wanted) && contains_chars(line, &colon);
        } else if !starts_with_chars(line, &branch) {
            assert(device_views(out@) + Seq::<AudioDeviceView>::empty() =~= device_views(out@));
            return out;
        } else {
            let ghost before = out@;
            match read_wpctl_device(line) {
                Some(device) => {
                    out.push(device);
                    assert(device_views(out@) =~= device_views(before) + seq![device@]);
                    assert((device_views(before) + seq![device@]) + wpctl_scan(
                        rows(all@),
                        section@,
                        i + 1,
                        true,
                    ) =~= device_views(before) + (seq![device@] + wpctl_scan(
                        rows(all@),
                        section@,
                        i + 1,
                        true,
                    )));
                },
                None => {
                    assert(Seq::<AudioDeviceView>::empty() + wpctl_scan(
                        rows(all@),
                        section@,
                        i + 1,
                        true,
                    ) =~= wpctl_scan(rows(all@), section@, i + 1, true));
                },
            }
        }
        i += 1;
    }
    assert(device_views(out@) + Seq::<AudioDeviceView>::empty() =~= device_views(out@));
    out
}

/// What was read about the outputs or the inputs.
#[derive(Debug, Clone)]
pub enum DeviceReading {
    /// From `pactl`: what `get-default-…` and `--format=json list …`
    /// printed, each missing where the tool could not be run.
    Pactl { default_name: Option<String>, listing: Option<String> },
    /// From `wpctl status`, missing where the tool could not be run.
    Wpctl(Option<String>),
    /// There is no backend.
    Unavailable,
}

/// The outputs that a reading lists.
pub open spec fn sinks_of(reading: DeviceReading) -> Seq<AudioDeviceView> {
    match reading {
        DeviceReading::Pactl { default_name, listing: Some(listing) } => pactl_devices(
            listing@,
            pactl_default_name(default_name),
        ),
        DeviceReading::Pactl { default_name, listing: None } => Seq::empty(),
        DeviceReading::Wpctl(Some(status)) => wpctl_devices(status@, "Sinks"@),
        DeviceReading::Wpctl(None) => Seq::empty(),
        DeviceReading::Unavailable => Seq::empty(),
    }
}

/// The test that keeps the inputs of `pactl` that are no monitor of an
/// output.
pub open spec fn no_pactl_monitor() -> spec_fn(AudioDeviceView) -> bool {
    |d: AudioDeviceView| !ends_with(d.name, ".monitor"@)
}

/// The test that keeps the inputs of `wpctl` that are no monitor of an
/// output.
pub open spec fn no_wpctl_monitor() -> spec_fn(AudioDeviceView) -> bool {
    |d: AudioDeviceView| !contains(d.description, "Monitor of"@)
}

/// The inputs that a reading lists: the monitors of outputs are left out.
pub open spec fn sources_of(reading: DeviceReading) -> Seq<AudioDeviceView> {
    match reading {
        DeviceReading::Pactl { default_name, listing: Some(listing) } => pactl_devices(
            listing@,
            pactl_default_name(default_name),
        ).filter(no_pactl_monitor()),
        DeviceReading::Pactl { default_name, listing: None } => Seq::empty(),
        DeviceReading::Wpctl(Some(status)) => wpctl_devices(status@, "Sources"@).filter(
            no_wpctl_monitor(),
        ),
        DeviceReading::Wpctl(None) => Seq::empty(),
        DeviceReading::Unavailable => Seq::empty(),
    }
}

fn read_default_name(output: &Option<String>) -> (name: String)
    ensures
        name@ == pactl_default_name(*output),
{
    match output {
        Some(text) => string_of(&trim_chars(&chars_of(text.as_str()))),
        None => String::new(),
    }
}

/// The outputs, from what was read about them.
pub fn list_sinks(reading: &DeviceReading) -> (list: Vec<AudioDevice>)
    ensures
        device_views(list@) == sinks_of(*reading),
{
    let out: Vec<AudioDevice> = Vec::new();
    proof {
        assert(device_views(out@) =~= Seq::<AudioDeviceView>::empty());
    }
    match reading {
        DeviceReading::Pactl { default_name, listing } => match listing {
            Some(listing) => parse_devices_pactl(
                listing.as_str(),
                read_default_name(default_name).as_str(),
            ),
            None => out,
        },
        DeviceReading::Wpctl(status) => match status {
            Some(status) => parse_wpctl_devices(status.as_str(), "Sinks"),
            None => out,
        },
        DeviceReading::Unavailable => out,
    }
}

fn keep_devices(list: Vec<AudioDevice>, wpctl: bool) -> (kept: Vec<AudioDevice>)
    ensures
        device_views(kept@) == device_views(list@).filter(
            if wpctl {
                no_wpctl_monitor()
            } else {
                no_pactl_monitor()
            },
        ),
{
    let mut kept: Vec<AudioDevice> = Vec::new();
    let ghost all = device_views(list@);
    let ghost test = if wpctl {
        no_wpctl_monitor()
    } else {
        no_pactl_monitor()
    };
    let monitor = chars_of(".monitor");
    let monitor_of = chars_of("Monitor of");
    let mut i: usize = 0;
    assert(all.take(0).filter(test) =~= Seq::<AudioDeviceView>::empty()) by {
        reveal(Seq::filter);
    }
    assert(device_views(kept@) =~= Seq::<AudioDeviceView>::empty());
    while i < list.len()
        invariant
            i <= list.len(),
            all == device_views(list@),
            test == (if wpctl {
                no_wpctl_monitor()
            } else {
                no_pactl_monitor()
            }),
            monitor@ == ".monitor"@,
            monitor_of@ == "Monitor of"@,
            device_views(kept@) == all.take(i as int).filter(test),
        decreases list.len() - i,
    {
        proof {
            lemma_filter_next(all, test, i as int);
        }
        let device = &list[i];
        let keep = if wpctl {
            !contains_chars(&chars_of(device.description.as_str()), &monitor_of)
        } else {
            !ends_with_chars(&chars_of(device.name.as_str()), &monitor)
        };
        if keep {
            let ghost before = kept@;
            let copy = AudioDevice {
                name: device.name.clone(),
                description: device.description.clone(),
                is_default: device.is_default,
            };
            kept.push(copy);
            assert(device_views(kept@) =~= device_views(before).push(all[i as int]));
        }
        i += 1;
    }
    assert(all.take(list.len() as int) == all);
    kept
}

/// The inputs, from what was read about them.
pub fn list_sources(reading: &DeviceReading) -> (list: Vec<AudioDevice>)
    ensures
        device_views(list@) == sources_of(*reading),
{
    let out: Vec<AudioDevice> = Vec::new();
    proof {
        assert(device_views(out@) =~= Seq::<AudioDeviceView>::empty());
    }
    match reading {
        DeviceReading::Pactl { default_name, listing } => match listing {
            Some(listing) => keep_devices(
                parse_devices_pactl(listing.as_str(), read_default_name(default_name).as_str()),
                false,
            ),
            None => out,
        },
        DeviceReading::Wpctl(status) => match status {
            Some(status) => keep_devices(parse_wpctl_devices(status.as_str(), "Sources"), true),
            None => out,
        },
        DeviceReading::Unavailable => out,
    }
}


// ---------------------------------------------------------------------------
// Cards
// ---------------------------------------------------------------------------

/// One profile that a sound card can take.
#[derive(Debug, Clone)]
pub struct AudioProfile {
    pub name: String,
    pub description: String,
    pub available: bool,
}

/// What a profile holds.
pub struct AudioProfileView {
    pub name: Seq<char>,
    pub description: Seq<char>,
    pub available: bool,
}

impl View for AudioProfile {
    type V = AudioProfileView;

    open spec fn view(&self) -> AudioProfileView {
        AudioProfileView {
            name: self.name@,
            description: self.description@,
            available: self.available,
        }
    }
}

/// A sound card.
#[derive(Debug, Clone)]
pub struct AudioCard {
    pub index: u32,
    pub name: String,
    pub description: String,
    pub active_profile: String,
    pub profiles: Vec<AudioProfile>,
}

/// What a sound card holds.
pub struct AudioCardView {
    pub index: u32,
    pub name: Seq<char>,
    pub description: Seq<char>,
    pub active_profile: Seq<char>,
    pub profiles: Seq<AudioProfileView>,
}

/// What a list of profiles holds, in order.
pub open spec fn profile_views(list: Seq<AudioProfile>) -> Seq<AudioProfileView> {
    list.map_values(|p: AudioProfile| p@)
}

impl View for AudioCard {
    type V = AudioCardView;

    open spec fn view(&self) -> AudioCardView {
        AudioCardView {
            index: self.index,
            name: self.name@,
            description: self.description@,
            active_profile: self.active_profile@,
            profiles: profile_views(self.profiles@),
        }
    }
}

/// What a list of cards holds, in order.
pub open spec fn card_views(list: Seq<AudioCard>) -> Seq<AudioCardView> {
    list.map_values(|c: AudioCard| c@)
}

/// The profile that one member of a card's `profiles` describes: the
/// member's name is the profile's; without a description the name stands
/// in; a profile counts as available unless it says otherwise.
pub open spec fn profile_of(field: (Seq<char>, JsonView)) -> AudioProfileView {
    AudioProfileView {
        name: field.0,
        description: match member_text(field.1, "description"@) {
            Some(description) => description,
            None => field.0,
        },
        available: match member_bool(field.1, "available"@) {
            Some(available) => available,
            None => true,
        },
    }
}

/// The profiles of a card: one for each member of its object `profiles`.
pub open spec fn card_profiles(item: JsonView) -> Seq<AudioProfileView> {
    match member(item, "profiles"@) {
        Some(JsonView::Object(fields)) => fields.map_values(|f: (Seq<char>, JsonView)| profile_of(f)),
        _ => Seq::empty(),
    }
}

/// The card that one item of `pactl list cards` describes: it needs an
/// index and a name.
pub open spec fn card_of(item: JsonView) -> Option<AudioCardView> {
    match (member_u64(item, "index"@), member_text(item, "name"@)) {
        (Some(index), Some(name)) => Some(
            AudioCardView {
                index: index as u32,
                name,
                description: match property_text(item, "device.description"@) {
                    Some(description) => description,
                    None => name,
                },
                active_profile: match member_text(item, "active_profile"@) {
                    Some(profile) => profile,
                    None => Seq::empty(),
                },
                profiles: card_profiles(item),
            },
        ),
        _ => None,
    }
}

/// The cards that the output of `pactl --format=json list cards` lists.
/// Only `pactl` lists cards.
pub open spec fn cards_of(backend: BackendType, output: Option<Seq<char>>) -> Seq<AudioCardView> {
    match output {
        Some(text) => if backend == BackendType::Pactl {
            json_items(text).filter_map(|item: JsonView| card_of(item))
        } else {
            Seq::empty()
        },
        None => Seq::empty(),
    }
}

fn read_profiles(item: &Json) -> (list: Vec<AudioProfile>)
    ensures
        profile_views(list@) == card_profiles(item@),
{
    let mut out: Vec<AudioProfile> = Vec::new();
    assert(profile_views(out@) =~= Seq::<AudioProfileView>::empty());
    let fields = match item.get("profiles") {
        Some(profiles) => match profiles.as_object() {
            Some(fields) => fields,
            None => {
                return out;
            },
        },
        None => {
            return out;
        },
    };
    let mut i: usize = 0;
    while i < fields.len()
        invariant
            i <= fields.len(),
            out.len() == i,
            forall|j: int| 0 <= j < i ==> (#[trigger] out[j])@ == profile_of(field_views(fields@)[j]),
        decreases fields.len() - i,
    {
        proof {
            lemma_field_views(fields@);
        }
        let field = &fields[i];
        let description = match field.value.get_str("description") {
            Some(description) => description.clone(),
            None => field.name.clone(),
        };
        let available = match field.value.get_bool("available") {
            Some(available) => available,
            None => true,
        };
        out.push(AudioProfile { name: field.name.clone(), description, available });
        i += 1;
    }
    proof {
        lemma_field_views(fields@);
        assert(profile_views(out@) =~= field_views(fields@).map_values(
            |f: (Seq<char>, JsonView)| profile_of(f),
        ));
    }
    out
}

fn read_card(item: &Json) -> (card: Option<AudioCard>)
    ensures
        match card {
            Some(c) => card_of(item@) == Some(c@),
            None => card_of(item@) is None,
        },
{
    match (item.get_u64("index"), item.get_str("name")) {
        (Some(index), Some(name)) => {
            let description = match read_property(item, "device.description") {
                Some(description) => description.clone(),
                None => name.clone(),
            };
            let active_profile = match item.get_str("active_profile") {
                Some(profile) => profile.clone(),
                None => String::new(),
            };
            Some(
                AudioCard {
                    index: #[verifier::truncate]
                    (index as u32),
                    name: name.clone(),
                    description,
                    active_profile,
                    profiles: read_profiles(item),
                },
            )
        },
        _ => None,
    }
}

/// The sound cards that `pactl --format=json list cards` printed; `output`
/// is missing where the tool could not be run.
pub fn list_cards(backend: BackendType, output: Option<&str>) -> (list: Vec<AudioCard>)
    ensures
        card_views(list@) == cards_of(backend, crate::text::opt_text(output)),
{
    let mut out: Vec<AudioCard> = Vec::new();
    let ghost reader = |item: JsonView| card_of(item);
    assert(card_views(out@) =~= Seq::<AudioCardView>::empty());
    let text = match output {
        Some(text) => text,
        None => {
            return out;
        },
    };
    if backend != BackendType::Pactl {
        return out;
    }
    let doc = match parse_array(text) {
        Some(doc) => doc,
        None => {
            assert(Seq::<JsonView>::empty().filter_map(reader) =~= Seq::<AudioCardView>::empty());
            return out;
        },
    };
    let items = match doc.as_array() {
        Some(items) => items,
        None => {
            return out;
        },
    };
    let ghost all = json_views(items@);
    let mut i: usize = 0;
    assert(card_views(out@) =~= all.take(0).filter_map(reader));
    while i < items.len()
        invariant
            i <= items.len(),
            all == json_views(items@),
            reader == (|item: JsonView| card_of(item)),
            card_views(out@) == all.take(i as int).filter_map(reader),
        decreases items.len() - i,
    {
        proof {
            lemma_json_views(items@);
            all.lemma_filter_map_take_succ(reader, i as int);
        }
        let ghost before = out@;
        match read_card(&items[i]) {
            Some(card) => {
                out.push(card);
                assert(card_views(out@) =~= card_views(before) + seq![card@]);
            },
            None => {
                assert(card_views(before) + Seq::<AudioCardView>::empty() =~= card_views(before));
            },
        }
        i += 1;
    }
    proof {
        lemma_json_views(items@);
        assert(all.take(items.len() as int) == all);
    }
    out
}

// ---------------------------------------------------------------------------
// The event listener
// ---------------------------------------------------------------------------

/// The listener for changes of the audio state: it holds the flag that
/// keeps its worker running.
pub struct AudioEventListener {
    running: bool,
}

impl AudioEventListener {
    /// A listener whose worker is not running.
    pub fn new() -> (listener: AudioEventListener)
        ensures
            !listener.spec_running(),
    {
        AudioEventListener { running: false }
    }

    /// Whether the worker is to go on.
    pub closed spec fn spec_running(&self) -> bool {
        self.running
    }

    /// Whether the worker is to go on.
    #[verifier::when_used_as_spec(spec_running)]
    pub fn is_running(&self) -> (running: bool)
        ensures
            running == self.spec_running(),
    {
        self.running
    }

    /// Sets the flag: the worker is to run.
    pub fn start(&mut self)
        ensures
            final(self).spec_running(),
    {
        self.running = true;
    }

    /// Clears the flag: the worker ends at its next look at it.
    pub fn stop(&mut self)
        ensures
            !final(self).spec_running(),
    {
        self.running = false;
    }
}

/// Where the listener's worker stands: what it is waiting for.
#[derive(Debug, Clone, Copy, PartialEq, Eq, Structural)]
pub enum WorkerState {
    /// Not started.
    Idle,
    /// For the backend to be detected.
    Detecting,
    /// For a pause to end, after which it starts over.
    Resting,
    /// For `pactl subscribe` to be spawned.
    Spawning,
    /// For the next line of `pactl subscribe`.
    Streaming,
    /// For the pause after `pactl subscribe` has ended.
    Settling,
    /// For the pause between two polls of `wpctl`.
    Polling,
    /// For the backend to be detected again, between two polls.
    Repolling,
    /// Ended.
    Exited,
}

/// What the worker has just seen.
#[derive(Debug, Clone)]
pub enum WorkerEvent {
    /// The worker was started.
    Started,
    /// The detection found this backend.
    Detected(BackendType),
    /// `pactl subscribe` was spawned, or could not be.
    Spawned(bool),
    /// A line of `pactl subscribe`, or its end or failure.
    Line(Option<String>),
    /// The pause is over.
    Slept,
}

/// What the worker does next. The last action of a step brings the next
/// event, unless it is `Exit`.
#[derive(Debug, Clone, Copy, PartialEq, Eq, Structural)]
pub enum WorkerAction {
    /// Detect the backend.
    Detect,
    /// Store this backend as the current one.
    Store(BackendType),
    /// Tell the consumer to refresh.
    Notify,
    /// Pause for this many seconds.
    Sleep(u64),
    /// Spawn `pactl subscribe`.
    Spawn,
    /// Read the next line of `pactl subscribe`.
    ReadLine,
    /// Kill `pactl subscribe`.
    Kill,
    /// End the worker.
    Exit,
}

/// A line of `pactl subscribe` that tells of a change worth a refresh.
pub open spec fn is_audio_change(line: Seq<char>) -> bool {
    contains(line, "sink"@) || contains(line, "source"@) || contains(line, "server"@)
}

/// The start of a round: the worker ends if it is no longer to run, and
/// detects the backend otherwise.
pub open spec fn round_start(running: bool) -> (WorkerState, Seq<WorkerAction>) {
    if running {
        (WorkerState::Detecting, seq![WorkerAction::Detect])
    } else {
        (WorkerState::Exited, seq![WorkerAction::Exit])
    }
}

/// The start of a poll of `wpctl`: the worker ends if it is no longer to
/// run; otherwise it notifies and pauses for two seconds.
pub open spec fn poll_start(running: bool) -> (WorkerState, Seq<WorkerAction>) {
    if running {
        (WorkerState::Polling, seq![WorkerAction::Notify, WorkerAction::Sleep(2)])
    } else {
        (WorkerState::Exited, seq![WorkerAction::Exit])
    }
}

/// What comes first, and then a step.
pub open spec fn after(first: Seq<WorkerAction>, then: (WorkerState, Seq<WorkerAction>)) -> (
    WorkerState,
    Seq<WorkerAction>,
) {
    (then.0, first + then.1)
}

/// The worker's rule. Without a backend it pauses three seconds and starts
/// over. With `pactl` it notifies once, follows `pactl subscribe` and
/// notifies for each change; when the stream ends it pauses two seconds,
/// notifies and starts over. With `wpctl` it polls every two seconds until
/// another backend appears. It looks at the running flag at the start of
/// each round, before each line and before each poll.
pub open spec fn worker_next(state: WorkerState, running: bool, event: WorkerEvent) -> (
    WorkerState,
    Seq<WorkerAction>,
) {
    match (state, event) {
        (WorkerState::Idle, WorkerEvent::Started) => round_start(running),
        (WorkerState::Detecting, WorkerEvent::Detected(backend)) => match backend {
            BackendType::Unavailable => (
                WorkerState::Resting,
                seq![WorkerAction::Store(backend), WorkerAction::Sleep(3)],
            ),
            BackendType::Pactl => (
                WorkerState::Spawning,
                seq![WorkerAction::Store(backend), WorkerAction::Notify, WorkerAction::Spawn],
            ),
            BackendType::Wpctl => after(seq![WorkerAction::Store(backend)], poll_start(running)),
        },
        (WorkerState::Resting, WorkerEvent::Slept) => round_start(running),
        (WorkerState::Spawning, WorkerEvent::Spawned(spawned)) => if spawned {
            (WorkerState::Streaming, seq![WorkerAction::ReadLine])
        } else {
            (WorkerState::Resting, seq![WorkerAction::Sleep(3)])
        },
        (WorkerState::Streaming, WorkerEvent::Line(line)) => if !running {
            (WorkerState::Exited, seq![WorkerAction::Kill, WorkerAction::Exit])
        } else {
            match line {
                Some(text) => if is_audio_change(text@) {
                    (WorkerState::Streaming, seq![WorkerAction::Notify, WorkerAction::ReadLine])
                } else {
                    (WorkerState::Streaming, seq![WorkerAction::ReadLine])
                },
                None => (WorkerState::Settling, seq![WorkerAction::Kill, WorkerAction::Sleep(2)]),
            }
        },
        (WorkerState::Settling, WorkerEvent::Slept) => after(
            seq![WorkerAction::Notify],
            round_start(running),
        ),
        (WorkerState::Polling, WorkerEvent::Slept) => (
            WorkerState::Repolling,
            seq![WorkerAction::Detect],
        ),
        (WorkerState::Repolling, WorkerEvent::Detected(backend)) => if backend
            != BackendType::Wpctl {
            after(seq![WorkerAction::Store(backend), WorkerAction::Notify], round_start(running))
        } else {
            poll_start(running)
        },
        _ => (state, Seq::empty()),
    }
}

fn start_round(running: bool, first: Vec<WorkerAction>) -> (step: (WorkerState, Vec<WorkerAction>))
    ensures
        (step.0, step.1@) == after(first@, round_start(running)),
{
    let mut actions = first;
    if running {
        actions.push(WorkerAction::Detect);
        assert(actions@ =~= first@ + seq![WorkerAction::Detect]);
        (WorkerState::Detecting, actions)
    } else {
        actions.push(WorkerAction::Exit);
        assert(actions@ =~= first@ + seq![WorkerAction::Exit]);
        (WorkerState::Exited, actions)
    }
}

fn start_poll(running: bool, first: Vec<WorkerAction>) -> (step: (WorkerState, Vec<WorkerAction>))
    ensures
        (step.0, step.1@) == after(first@, poll_start(running)),
{
    let mut actions = first;
    if running {
        actions.push(WorkerAction::Notify);
        actions.push(WorkerAction::Sleep(2));
        assert(actions@ =~= first@ + seq![WorkerAction::Notify, WorkerAction::Sleep(2)]);
        (WorkerState::Polling, actions)
    } else {
        actions.push(WorkerAction::Exit);
        assert(actions@ =~= first@ + seq![WorkerAction::Exit]);
        (WorkerState::Exited, actions)
    }
}

/// Whether a line of `pactl subscribe` tells of a change worth a refresh.
pub fn check_audio_change(line: &str) -> (change: bool)
    ensures
        change == is_audio_change(line@),
{
    let chars = chars_of(line);
    contains_chars(&chars, &chars_of("sink")) || contains_chars(&chars, &chars_of("source"))
        || contains_chars(&chars, &chars_of("server"))
}

/// Decides what the worker does after `event`, given the running flag as it
/// is now.
pub fn worker_step(state: WorkerState, running: bool, event: WorkerEvent) -> (step: (
    WorkerState,
    Vec<WorkerAction>,
))
    ensures
        (step.0, step.1@) == worker_next(state, running, event),
{
    let mut actions: Vec<WorkerAction> = Vec::new();
    proof {
        assert(forall|s: Seq<WorkerAction>| Seq::<WorkerAction>::empty() + s =~= s);
    }
    match (state, event) {
        (WorkerState::Idle, WorkerEvent::Started) => start_round(running, actions),
        (WorkerState::Detecting, WorkerEvent::Detected(backend)) => {
            actions.push(WorkerAction::Store(backend));
            match backend {
                BackendType::Unavailable => {
                    actions.push(WorkerAction::Sleep(3));
                    assert(actions@ =~= seq![WorkerAction::Store(backend), WorkerAction::Sleep(3)]);
                    (WorkerState::Resting, actions)
                },
                BackendType::Pactl => {
                    actions.push(WorkerAction::Notify);
                    actions.push(WorkerAction::Spawn);
                    assert(actions@ =~= seq![
                        WorkerAction::Store(backend),
                        WorkerAction::Notify,
                        WorkerAction::Spawn,
                    ]);
                    (WorkerState::Spawning, actions)
                },
                BackendType::Wpctl => {
                    assert(actions@ =~= seq![WorkerAction::Store(backend)]);
                    start_poll(running, actions)
                },
            }
        },
        (WorkerState::Resting, WorkerEvent::Slept) => start_round(running, actions),
        (WorkerState::Spawning, WorkerEvent::Spawned(spawned)) => {
            if spawned {
                actions.push(WorkerAction::ReadLine);
                assert(actions@ =~= seq![WorkerAction::ReadLine]);
                (WorkerState::Streaming, actions)
            } else {
                actions.push(WorkerAction::Sleep(3));
                assert(actions@ =~= seq![WorkerAction::Sleep(3)]);
                (WorkerState::Resting, actions)
            }
        },
        (WorkerState::Streaming, WorkerEvent::Line(line)) => {
            if !running {
                actions.push(WorkerAction::Kill);
                actions.push(WorkerAction::Exit);
                assert(actions@ =~= seq![WorkerAction::Kill, WorkerAction::Exit]);
                (WorkerState::Exited, actions)
            } else {
                match line {
                    Some(text) => {
                        if check_audio_change(text.as_str()) {
                            actions.push(WorkerAction::Notify);
                            actions.push(WorkerAction::ReadLine);
                            assert(actions@ =~= seq![WorkerAction::Notify, WorkerAction::ReadLine]);
                        } else {
                            actions.push(WorkerAction::ReadLine);
                            assert(actions@ =~= seq![WorkerAction::ReadLine]);
                        }
                        (WorkerState::Streaming, actions)
                    },
                    None => {
                        actions.push(WorkerAction::Kill);
                        actions.push(WorkerAction::Sleep(2));
                        assert(actions@ =~= seq![WorkerAction::Kill, WorkerAction::Sleep(2)]);
                        (WorkerState::Settling, actions)
                    },
                }
            }
        },
        (WorkerState::Settling, WorkerEvent::Slept) => {
            actions.push(WorkerAction::Notify);
            assert(actions@ =~= seq![WorkerAction::Notify]);
            start_round(running, actions)
        },
        (WorkerState::Polling, WorkerEvent::Slept) => {
            actions.push(WorkerAction::Detect);
            assert(actions@ =~= seq![WorkerAction::Detect]);
            (WorkerState::Repolling, actions)
        },
        (WorkerState::Repolling, WorkerEvent::Detected(backend)) => {
            if backend != BackendType::Wpctl {
                actions.push(WorkerAction::Store(backend));
                actions.push(WorkerAction::Notify);
                assert(actions@ =~= seq![WorkerAction::Store(backend), WorkerAction::Notify]);
                start_round(running, actions)
            } else {
                start_poll(running, actions)
            }
        },
        (state, _) => {
            assert(actions@ =~= Seq::<WorkerAction>::empty());
            (state, actions)
        },
    }
}

} // verus!
