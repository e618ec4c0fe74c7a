use crowbar::system::audio::{
    check_audio_change, current_backend, detect_backend, get_info, get_muted_pactl,
    get_source_info, get_volume_pactl, list_cards, list_sink_inputs, list_sinks,
    list_source_outputs, list_sources, move_sink_input, move_source_output, parse_devices_pactl,
    parse_volume_percent, parse_wpctl_devices, set_backend, set_card_profile,
    set_default_sink, set_default_source, set_sink_input_mute, set_sink_input_volume,
    set_source_output_mute, set_source_output_volume, set_source_volume, set_volume,
    toggle_mute, toggle_source_mute, worker_step, AudioEventListener, BackendType,
    DeviceReading, VolumeReading, WorkerAction, WorkerEvent, WorkerState,
};
use crowbar::json::parse_json;
use crowbar::system::audio::WorkerAction::{Detect, Exit, Kill, Notify, ReadLine, Sleep, Spawn, Store};
use crowbar::system::Command;

fn line(command: Option<Command>) -> Option<String> {
    command.map(|c| format!("{} {}", c.program, c.args.join(" ")))
}

fn some(s: &str) -> Option<String> {
    Some(s.to_string())
}

#[test]
fn backend_codes() {
    assert_eq!(BackendType::from_u8(0), BackendType::Unavailable);
    assert_eq!(BackendType::from_u8(1), BackendType::Pactl);
    assert_eq!(BackendType::from_u8(2), BackendType::Wpctl);
    assert_eq!(BackendType::from_u8(3), BackendType::Unavailable);
    assert_eq!(BackendType::from_u8(255), BackendType::Unavailable);
    for b in [BackendType::Unavailable, BackendType::Pactl, BackendType::Wpctl] {
        assert_eq!(BackendType::from_u8(b.code()), b);
        assert_eq!(current_backend(set_backend(b)), b);
    }
    assert_eq!(set_backend(BackendType::Wpctl), 2);
}

#[test]
fn backend_detection_prefers_pactl() {
    assert_eq!(detect_backend(true, true), BackendType::Pactl);
    assert_eq!(detect_backend(true, false), BackendType::Pactl);
    assert_eq!(detect_backend(false, true), BackendType::Wpctl);
    assert_eq!(detect_backend(false, false), BackendType::Unavailable);
}

#[test]
fn pactl_volume_is_the_first_percentage() {
    let out = "Volume: front-left: 55707 /  85% / -4.23 dB,   front-right: 55707 /  84% / -4.23 dB\n        balance 0.00\n";
    assert_eq!(get_volume_pactl(out), Some(85));
    assert_eq!(get_volume_pactl("x% 12% 13%"), Some(12));
    assert_eq!(get_volume_pactl("-5% later"), Some(-5));
    assert_eq!(get_volume_pactl("+7%"), Some(7));
    assert_eq!(get_volume_pactl("85 %"), None);
    assert_eq!(get_volume_pactl("99999999999% 3%"), Some(3));
    assert_eq!(get_volume_pactl(""), None);
    assert_eq!(get_volume_pactl("%"), None);
}

#[test]
fn pactl_mute_is_a_yes_in_the_output() {
    assert!(get_muted_pactl(&some("Mute: yes\n")));
    assert!(!get_muted_pactl(&some("Mute: no\n")));
    assert!(get_muted_pactl(&some("eyes")));
    assert!(!get_muted_pactl(&some("")));
    assert!(!get_muted_pactl(&None));
}

#[test]
fn audio_info_from_readings() {
    let info = get_info(&VolumeReading::Pactl {
        volume: some("Volume: front-left: 1 / 40% / x"),
        mute: some("Mute: yes"),
    });
    assert_eq!((info.volume, info.muted, info.available), (40, true, true));
    let info = get_info(&VolumeReading::Pactl { volume: some("garbage"), mute: some("Mute: yes") });
    assert_eq!((info.volume, info.muted, info.available), (0, false, false));
    let info = get_info(&VolumeReading::Pactl { volume: None, mute: some("Mute: yes") });
    assert_eq!((info.volume, info.muted, info.available), (0, false, false));
    let info = get_info(&VolumeReading::Pactl { volume: some("10%"), mute: None });
    assert_eq!((info.volume, info.muted, info.available), (10, false, true));
    let info = get_info(&VolumeReading::Wpctl(Some((55, true))));
    assert_eq!((info.volume, info.muted, info.available), (55, true, true));
    let info = get_info(&VolumeReading::Wpctl(None));
    assert_eq!((info.volume, info.muted, info.available), (0, false, false));
    let info = get_info(&VolumeReading::Unavailable);
    assert_eq!((info.volume, info.muted, info.available), (0, false, false));
    let source = get_source_info(&VolumeReading::Wpctl(Some((150, false))));
    assert_eq!((source.volume, source.muted, source.available), (150, false, true));
    let source = get_source_info(&VolumeReading::Unavailable);
    assert!(!source.available);
}

#[test]
fn volume_commands_clamp() {
    let p = BackendType::Pactl;
    let w = BackendType::Wpctl;
    let n = BackendType::Unavailable;
    assert_eq!(line(set_volume(p, 55)), some("pactl set-sink-volume @DEFAULT_SINK@ 55%"));
    assert_eq!(line(set_volume(p, 151)), some("pactl set-sink-volume @DEFAULT_SINK@ 150%"));
    assert_eq!(line(set_volume(p, -3)), some("pactl set-sink-volume @DEFAULT_SINK@ 0%"));
    assert_eq!(line(set_volume(p, 0)), some("pactl set-sink-volume @DEFAULT_SINK@ 0%"));
    assert_eq!(line(set_volume(p, 150)), some("pactl set-sink-volume @DEFAULT_SINK@ 150%"));
    assert_eq!(line(set_volume(w, 70)), some("wpctl set-volume @DEFAULT_AUDIO_SINK@ 70%"));
    assert_eq!(line(set_volume(w, i32::MAX)), some("wpctl set-volume @DEFAULT_AUDIO_SINK@ 150%"));
    assert_eq!(line(set_volume(n, 70)), None);
    assert_eq!(
        line(set_source_volume(p, 20)),
        some("pactl set-source-volume @DEFAULT_SOURCE@ 20%")
    );
    assert_eq!(
        line(set_source_volume(w, i32::MIN)),
        some("wpctl set-volume @DEFAULT_AUDIO_SOURCE@ 0%")
    );
    assert_eq!(line(set_source_volume(n, 20)), None);
}

#[test]
fn mute_commands() {
    assert_eq!(
        line(toggle_mute(BackendType::Pactl)),
        some("pactl set-sink-mute @DEFAULT_SINK@ toggle")
    );
    assert_eq!(
        line(toggle_mute(BackendType::Wpctl)),
        some("wpctl set-mute @DEFAULT_AUDIO_SINK@ toggle")
    );
    assert_eq!(line(toggle_mute(BackendType::Unavailable)), None);
    assert_eq!(
        line(toggle_source_mute(BackendType::Pactl)),
        some("pactl set-source-mute @DEFAULT_SOURCE@ toggle")
    );
    assert_eq!(
        line(toggle_source_mute(BackendType::Wpctl)),
        some("wpctl set-mute @DEFAULT_AUDIO_SOURCE@ toggle")
    );
    assert_eq!(line(toggle_source_mute(BackendType::Unavailable)), None);
}

#[test]
fn stream_commands_are_pactl_only() {
    let p = BackendType::Pactl;
    assert_eq!(line(set_sink_input_volume(p, 12, 200)), some("pactl set-sink-input-volume 12 150%"));
    assert_eq!(line(set_sink_input_mute(p, 12, "toggle")), some("pactl set-sink-input-mute 12 toggle"));
    assert_eq!(
        line(set_source_output_volume(p, 0, -1)),
        some("pactl set-source-output-volume 0 0%")
    );
    assert_eq!(
        line(set_source_output_mute(p, 4294967295, "1")),
        some("pactl set-source-output-mute 4294967295 1")
    );
    assert_eq!(line(move_sink_input(p, 3, "alsa_out")), some("pactl move-sink-input 3 alsa_out"));
    assert_eq!(
        line(move_source_output(p, 3, "alsa_in")),
        some("pactl move-source-output 3 alsa_in")
    );
    assert_eq!(
        line(set_card_profile(p, "card0", "output:hdmi")),
        some("pactl set-card-profile card0 output:hdmi")
    );
    for b in [BackendType::Wpctl, BackendType::Unavailable] {
        assert_eq!(line(set_sink_input_volume(b, 12, 50)), None);
        assert_eq!(line(set_sink_input_mute(b, 12, "toggle")), None);
        assert_eq!(line(set_source_output_volume(b, 12, 50)), None);
        assert_eq!(line(set_source_output_mute(b, 12, "toggle")), None);
        assert_eq!(line(move_sink_input(b, 3, "x")), None);
        assert_eq!(line(move_source_output(b, 3, "x")), None);
        assert_eq!(line(set_card_profile(b, "c", "p")), None);
    }
}

#[test]
fn default_device_commands() {
    assert_eq!(line(set_default_sink(BackendType::Pactl, "alsa")), some("pactl set-default-sink alsa"));
    assert_eq!(line(set_default_sink(BackendType::Wpctl, "47")), some("wpctl set-default 47"));
    assert_eq!(line(set_default_sink(BackendType::Unavailable, "47")), None);
    assert_eq!(
        line(set_default_source(BackendType::Pactl, "mic")),
        some("pactl set-default-source mic")
    );
    assert_eq!(line(set_default_source(BackendType::Wpctl, "48")), some("wpctl set-default 48"));
    assert_eq!(line(set_default_source(BackendType::Unavailable, "48")), None);
}

#[test]
fn volume_objects() {
    let read = |text: &str| parse_volume_percent(&parse_json(text).expect("json"));
    assert_eq!(
        read(r#"{"front-left":{"value":65536,"value_percent":"100%"},"front-right":{"value_percent":"50%"}}"#),
        100
    );
    assert_eq!(read(r#"{"b":{"value_percent":"40%"},"a":{"value_percent":"30%"}}"#), 30);
    assert_eq!(read(r#"{"a":{"value_percent":"bad"},"b":{"value_percent":" 65 %"}}"#), 65);
    assert_eq!(read(r#"{"a":{"value_percent":"6 5%"},"b":{"value_percent":"65% "}}"#), 100);
    assert_eq!(read(r#"{"a":{"value_percent":"bad"},"b":{"value_percent":" 65%"}}"#), 65);
    assert_eq!(read(r#"{"a":{"value_percent":75},"b":{"other":"1%"}}"#), 100);
    assert_eq!(read(r#"{}"#), 100);
    assert_eq!(read(r#"[{"value_percent":"10%"}]"#), 100);
    assert_eq!(read(r#""10%""#), 100);
}

const SINK_INPUTS: &str = r#"[
 {"index":7,"sink":"alsa_output.a","mute":true,
  "volume":{"front-left":{"value_percent":"80%"}},
  "properties":{"application.name":"Firefox","media.name":"Video","application.process.binary":"firefox"}},
 {"index":8,"properties":{"media.name":"Song"}},
 {"index":9,"name":"raw stream","properties":{}},
 {"index":10},
 {"index":11,"properties":{"application.name":"pw","application.process.binary":"pipewire"}},
 {"index":12,"properties":{"application.process.binary":"pipewire-pulse"}},
 {"name":"no index"},
 {"index":-1,"name":"negative"},
 {"index":4294967303,"name":"wraps"},
 "junk"
]"#;

#[test]
fn sink_inputs_are_listed() {
    let list = list_sink_inputs(BackendType::Pactl, Some(SINK_INPUTS));
    let seen: Vec<(u32, &str, &str, i32, bool)> = list
        .iter()
        .map(|s| (s.index, s.name.as_str(), s.sink_name.as_str(), s.volume, s.muted))
        .collect();
    assert_eq!(
        seen,
        vec![
            (7, "Firefox", "alsa_output.a", 80, true),
            (8, "Song", "", 100, false),
            (9, "raw stream", "", 100, false),
            (10, "Unknown", "", 100, false),
            (7, "wraps", "", 100, false),
        ]
    );
}

#[test]
fn sink_inputs_need_pactl_and_json() {
    assert!(list_sink_inputs(BackendType::Wpctl, Some(SINK_INPUTS)).is_empty());
    assert!(list_sink_inputs(BackendType::Unavailable, Some(SINK_INPUTS)).is_empty());
    assert!(list_sink_inputs(BackendType::Pactl, None).is_empty());
    assert!(list_sink_inputs(BackendType::Pactl, Some("not json")).is_empty());
    assert!(list_sink_inputs(BackendType::Pactl, Some(r#"{"index":1}"#)).is_empty());
    assert!(list_sink_inputs(BackendType::Pactl, Some("[]")).is_empty());
}

#[test]
fn source_outputs_are_listed() {
    let text = r#"[{"index":3,"source":"mic.a","sink":"ignored","mute":false,
       "properties":{"application.name":"Recorder"}},
      {"index":4,"source":7,"properties":{"application.process.binary":"pipewire"}}]"#;
    let list = list_source_outputs(BackendType::Pactl, Some(text));
    assert_eq!(list.len(), 1);
    assert_eq!(list[0].index, 3);
    assert_eq!(list[0].name, "Recorder");
    assert_eq!(list[0].source_name, "mic.a");
    assert_eq!(list[0].volume, 100);
    assert!(!list[0].muted);
    assert!(list_source_outputs(BackendType::Wpctl, Some(text)).is_empty());
    assert!(list_source_outputs(BackendType::Pactl, None).is_empty());
}

#[test]
fn cards_are_listed() {
    let text = r#"[
      {"index":0,"name":"alsa_card.pci","active_profile":"output:analog",
       "properties":{"device.description":"Built-in Audio"},
       "profiles":{"output:analog":{"description":"Analog Out","available":true},
                   "off":{"available":false},
                   "input:mic":{"description":"Mic"}}},
      {"index":1,"name":"bare"},
      {"index":2},
      {"name":"no index"},
      {"index":3,"name":"odd","profiles":["a"],"active_profile":5}
    ]"#;
    let cards = list_cards(BackendType::Pactl, Some(text));
    assert_eq!(cards.len(), 3);
    assert_eq!(cards[0].index, 0);
    assert_eq!(cards[0].name, "alsa_card.pci");
    assert_eq!(cards[0].description, "Built-in Audio");
    assert_eq!(cards[0].active_profile, "output:analog");
    let profiles: Vec<(&str, &str, bool)> = cards[0]
        .profiles
        .iter()
        .map(|p| (p.name.as_str(), p.description.as_str(), p.available))
        .collect();
    assert_eq!(
        profiles,
        vec![
            ("input:mic", "Mic", true),
            ("off", "off", false),
            ("output:analog", "Analog Out", true),
        ]
    );
    assert_eq!(cards[1].description, "bare");
    assert_eq!(cards[1].active_profile, "");
    assert!(cards[1].profiles.is_empty());
    assert_eq!(cards[2].name, "odd");
    assert!(cards[2].profiles.is_empty());
    assert_eq!(cards[2].active_profile, "");
    assert!(list_cards(BackendType::Wpctl, Some(text)).is_empty());
    assert!(list_cards(BackendType::Pactl, None).is_empty());
    assert!(list_cards(BackendType::Pactl, Some("{}")).is_empty());
}

const PACTL_DEVICES: &str = r#"[
  {"name":"alsa_output.a","description":"Speakers"},
  {"name":"alsa_output.a.monitor","description":"Monitor of Speakers"},
  {"name":"bluez.b"},
  {"description":"nameless"},
  {"name":7}
]"#;

#[test]
fn pactl_devices_are_listed() {
    let list = parse_devices_pactl(PACTL_DEVICES, "bluez.b");
    let seen: Vec<(&str, &str, bool)> =
        list.iter().map(|d| (d.name.as_str(), d.description.as_str(), d.is_default)).collect();
    assert_eq!(
        seen,
        vec![
            ("alsa_output.a", "Speakers", false),
            ("alsa_output.a.monitor", "Monitor of Speakers", false),
            ("bluez.b", "bluez.b", true),
        ]
    );
    assert!(parse_devices_pactl("nope", "x").is_empty());
}

const WPCTL_STATUS: &str = "PipeWire 'pipewire-0' [1.0.5]\n └─ Clients:\n        33. WirePlumber\n\nAudio\n ├─ Devices:\n │      41. Built-in Audio                      [alsa]\n │\n ├─ Sinks:\n │  *   47. Built-in Audio Analog Stereo        [vol: 0.40]\n │      52. HDMI Output [vol: 1.00]\n │      no number here. Only text\n │      60.    \n │\n ├─ Sources:\n │  *   48. Built-in Mic  [vol: 1.00]\n │      49. Monitor of Built-in Audio [vol: 1.00]\n │\n ├─ Filters:\n │      77. never reached\nVideo\n ├─ Sinks:\n │      99. not audio\n";

#[test]
fn wpctl_devices_are_listed() {
    let sinks = parse_wpctl_devices(WPCTL_STATUS, "Sinks");
    let seen: Vec<(&str, &str, bool)> =
        sinks.iter().map(|d| (d.name.as_str(), d.description.as_str(), d.is_default)).collect();
    assert_eq!(
        seen,
        vec![("47", "Built-in Audio Analog Stereo", true), ("52", "HDMI Output", false)]
    );
    let sources = parse_wpctl_devices(WPCTL_STATUS, "Sources");
    let seen: Vec<&str> = sources.iter().map(|d| d.name.as_str()).collect();
    assert_eq!(seen, vec!["48", "49"]);
    let devices = parse_wpctl_devices(WPCTL_STATUS, "Devices");
    assert_eq!(devices.len(), 1);
    assert_eq!(devices[0].name, "41");
    assert_eq!(devices[0].description, "Built-in Audio");
    let clients = parse_wpctl_devices(WPCTL_STATUS, "Clients");
    assert!(clients.is_empty());
    assert!(parse_wpctl_devices(WPCTL_STATUS, "Nothing").is_empty());
    assert!(parse_wpctl_devices("", "Sinks").is_empty());
    let ends = parse_wpctl_devices("Sinks:\n │  1. a\nbreak\n │  2. b\n", "Sinks");
    assert_eq!(ends.len(), 1);
    assert_eq!(ends[0].description, "a");
}

#[test]
fn sinks_and_sources_from_readings() {
    let pactl = DeviceReading::Pactl { default_name: some(" alsa_output.a \n"), listing: some(PACTL_DEVICES) };
    let sinks = list_sinks(&pactl);
    assert_eq!(sinks.len(), 3);
    assert!(sinks[0].is_default);
    assert!(!sinks[2].is_default);
    let sources = list_sources(&pactl);
    let names: Vec<&str> = sources.iter().map(|d| d.name.as_str()).collect();
    assert_eq!(names, vec!["alsa_output.a", "bluez.b"]);
    let none_default = DeviceReading::Pactl { default_name: None, listing: some(PACTL_DEVICES) };
    assert!(list_sinks(&none_default).iter().all(|d| !d.is_default));
    let unread = DeviceReading::Pactl { default_name: some("x"), listing: None };
    assert!(list_sinks(&unread).is_empty());
    assert!(list_sources(&unread).is_empty());
    let wpctl = DeviceReading::Wpctl(some(WPCTL_STATUS));
    assert_eq!(list_sinks(&wpctl).len(), 2);
    let names: Vec<String> = list_sources(&wpctl).iter().map(|d| d.name.clone()).collect();
    assert_eq!(names, vec!["48".to_string()]);
    assert!(list_sinks(&DeviceReading::Wpctl(None)).is_empty());
    assert!(list_sources(&DeviceReading::Wpctl(None)).is_empty());
    assert!(list_sinks(&DeviceReading::Unavailable).is_empty());
    assert!(list_sources(&DeviceReading::Unavailable).is_empty());
}

#[test]
fn listener_flag() {
    let mut l = AudioEventListener::new();
    assert!(!l.is_running());
    l.stop();
    assert!(!l.is_running());
    l.start();
    assert!(l.is_running());
    l.stop();
    l.stop();
    assert!(!l.is_running());
}

#[test]
fn changes_worth_a_refresh() {
    assert!(check_audio_change("Event 'change' on sink #47"));
    assert!(check_audio_change("Event 'new' on source-output #3"));
    assert!(check_audio_change("Event 'change' on server #0"));
    assert!(!check_audio_change("Event 'change' on client #12"));
    assert!(!check_audio_change("Event 'change' on card #1"));
    assert!(!check_audio_change(""));
}

fn step(state: WorkerState, running: bool, event: WorkerEvent) -> (WorkerState, Vec<WorkerAction>) {
    worker_step(state, running, event)
}

#[test]
fn worker_without_backend_rests() {
    assert_eq!(step(WorkerState::Idle, true, WorkerEvent::Started), (WorkerState::Detecting, vec![Detect]));
    assert_eq!(step(WorkerState::Idle, false, WorkerEvent::Started), (WorkerState::Exited, vec![Exit]));
    assert_eq!(
        step(WorkerState::Detecting, true, WorkerEvent::Detected(BackendType::Unavailable)),
        (WorkerState::Resting, vec![Store(BackendType::Unavailable), Sleep(3)])
    );
    assert_eq!(step(WorkerState::Resting, true, WorkerEvent::Slept), (WorkerState::Detecting, vec![Detect]));
    assert_eq!(step(WorkerState::Resting, false, WorkerEvent::Slept), (WorkerState::Exited, vec![Exit]));
}

#[test]
fn worker_follows_pactl() {
    assert_eq!(
        step(WorkerState::Detecting, true, WorkerEvent::Detected(BackendType::Pactl)),
        (WorkerState::Spawning, vec![Store(BackendType::Pactl), Notify, Spawn])
    );
    assert_eq!(
        step(WorkerState::Spawning, true, WorkerEvent::Spawned(false)),
        (WorkerState::Resting, vec![Sleep(3)])
    );
    assert_eq!(
        step(WorkerState::Spawning, true, WorkerEvent::Spawned(true)),
        (WorkerState::Streaming, vec![ReadLine])
    );
    assert_eq!(
        step(WorkerState::Streaming, true, WorkerEvent::Line(some("Event 'change' on sink #1"))),
        (WorkerState::Streaming, vec![Notify, ReadLine])
    );
    assert_eq!(
        step(WorkerState::Streaming, true, WorkerEvent::Line(some("Event 'new' on client #1"))),
        (WorkerState::Streaming, vec![ReadLine])
    );
    assert_eq!(
        step(WorkerState::Streaming, false, WorkerEvent::Line(some("Event 'change' on sink #1"))),
        (WorkerState::Exited, vec![Kill, Exit])
    );
    assert_eq!(
        step(WorkerState::Streaming, false, WorkerEvent::Line(None)),
        (WorkerState::Exited, vec![Kill, Exit])
    );
    assert_eq!(
        step(WorkerState::Streaming, true, WorkerEvent::Line(None)),
        (WorkerState::Settling, vec![Kill, Sleep(2)])
    );
    assert_eq!(
        step(WorkerState::Settling, true, WorkerEvent::Slept),
        (WorkerState::Detecting, vec![Notify, Detect])
    );
    assert_eq!(
        step(WorkerState::Settling, false, WorkerEvent::Slept),
        (WorkerState::Exited, vec![Notify, Exit])
    );
}

#[test]
fn worker_polls_wpctl() {
    assert_eq!(
        step(WorkerState::Detecting, true, WorkerEvent::Detected(BackendType::Wpctl)),
        (WorkerState::Polling, vec![Store(BackendType::Wpctl), Notify, Sleep(2)])
    );
    assert_eq!(
        step(WorkerState::Detecting, false, WorkerEvent::Detected(BackendType::Wpctl)),
        (WorkerState::Exited, vec![Store(BackendType::Wpctl), Exit])
    );
    assert_eq!(step(WorkerState::Polling, true, WorkerEvent::Slept), (WorkerState::Repolling, vec![Detect]));
    assert_eq!(
        step(WorkerState::Repolling, true, WorkerEvent::Detected(BackendType::Wpctl)),
        (WorkerState::Polling, vec![Notify, Sleep(2)])
    );
    assert_eq!(
        step(WorkerState::Repolling, false, WorkerEvent::Detected(BackendType::Wpctl)),
        (WorkerState::Exited, vec![Exit])
    );
    assert_eq!(
        step(WorkerState::Repolling, true, WorkerEvent::Detected(BackendType::Pactl)),
        (WorkerState::Detecting, vec![Store(BackendType::Pactl), Notify, Detect])
    );
    assert_eq!(
        step(WorkerState::Repolling, false, WorkerEvent::Detected(BackendType::Unavailable)),
        (WorkerState::Exited, vec![Store(BackendType::Unavailable), Notify, Exit])
    );
}

#[test]
fn worker_ignores_what_it_does_not_wait_for() {
    assert_eq!(step(WorkerState::Exited, true, WorkerEvent::Started), (WorkerState::Exited, vec![]));
    assert_eq!(step(WorkerState::Idle, true, WorkerEvent::Slept), (WorkerState::Idle, vec![]));
    assert_eq!(
        step(WorkerState::Streaming, true, WorkerEvent::Spawned(true)),
        (WorkerState::Streaming, vec![])
    );
    assert_eq!(
        step(WorkerState::Polling, true, WorkerEvent::Line(None)),
        (WorkerState::Polling, vec![])
    );
}
