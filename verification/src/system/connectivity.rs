//! Wireless network and Bluetooth: what `nmcli` and `bluetoothctl` print,
//! the commands that connect and disconnect, and the icons of the states.

use vstd::prelude::*;
use crate::order::{arranged, is_sorted_by, key_rows, push_text_key, stable_order, text_key};
use crate::system::{
    Command, CommandRun, invoke, judge_by_output, judge_by_status, outcome_view, output_outcome,
    status_outcome,
};
use crate::text::{
    chars_of, contains, contains_chars, ends_with, ends_with_chars, find, find_chars,
    find_chars_from, find_from, is_text, lemma_find_from, lines, lines_of, opt_text, owned,
    parse_i32, read_i32, rfind_char, rfind_char_in, rows, rsplitn, rsplitn_chars, same_chars,
    slice_of, split, split_chars, starts_with, starts_with_chars, string_of, trim, trim_chars,
};

verus! {

/// The state of the wireless network.
#[derive(Debug, Clone)]
pub struct WiFiInfo {
    pub enabled: bool,
    pub connected: bool,
    pub ssid: String,
    pub signal: i32,
}

/// What a wireless state holds.
pub struct WiFiInfoView {
    pub enabled: bool,
    pub connected: bool,
    pub ssid: Seq<char>,
    pub signal: i32,
}

impl View for WiFiInfo {
    type V = WiFiInfoView;

    open spec fn view(&self) -> WiFiInfoView {
        WiFiInfoView {
            enabled: self.enabled,
            connected: self.connected,
            ssid: self.ssid@,
            signal: self.signal,
        }
    }
}

/// One wireless network in reach.
#[derive(Debug, Clone)]
pub struct WiFiNetwork {
    pub ssid: String,
    pub signal: i32,
    pub security: String,
    pub connected: bool,
    pub saved: bool,
}

/// What a wireless network holds.
pub struct WiFiNetworkView {
    pub ssid: Seq<char>,
    pub signal: i32,
    pub security: Seq<char>,
    pub connected: bool,
    pub saved: bool,
}

impl View for WiFiNetwork {
    type V = WiFiNetworkView;

    open spec fn view(&self) -> WiFiNetworkView {
        WiFiNetworkView {
            ssid: self.ssid@,
            signal: self.signal,
            security: self.security@,
            connected: self.connected,
            saved: self.saved,
        }
    }
}

/// What a list of wireless networks holds, in order.
pub open spec fn network_views(list: Seq<WiFiNetwork>) -> Seq<WiFiNetworkView> {
    list.map_values(|n: WiFiNetwork| n@)
}

/// The number that a text holds, or zero.
pub open spec fn number_or_zero(text: Seq<char>) -> i32 {
    match parse_i32(text) {
        Some(v) => v as i32,
        None => 0,
    }
}

/// The first line from `i` on that begins with `yes:`.
pub open spec fn active_line(lines: Seq<Seq<char>>, i: int) -> Option<Seq<char>>
    decreases lines.len() - i,
{
    if i < 0 || i >= lines.len() {
        None
    } else if starts_with(lines[i], "yes:"@) {
        Some(lines[i])
    } else {
        active_line(lines, i + 1)
    }
}

/// The state without a connection.
pub open spec fn unconnected(enabled: bool) -> WiFiInfoView {
    WiFiInfoView { enabled, connected: false, ssid: Seq::empty(), signal: 0 }
}

/// The wireless state. `radio` is the output of `nmcli radio wifi`,
/// `listing` that of `nmcli -t -f ACTIVE,SSID,SIGNAL dev wifi`; each is
/// missing where the tool could not be run. The radio is on where the first
/// says `enabled`; the connection is that of the first line of the second
/// that begins with `yes:`, if it has three fields.
pub open spec fn wifi_info(radio: Option<&str>, listing: Option<&str>) -> WiFiInfoView {
    match radio {
        None => unconnected(false),
        Some(state) => if trim(state@) != "enabled"@ {
            unconnected(false)
        } else {
            match listing {
                None => unconnected(true),
                Some(text) => match active_line(lines(text@), 0) {
                    None => unconnected(true),
                    Some(line) => {
                        let parts = split(line, ':');
                        if parts.len() >= 3 {
                            WiFiInfoView {
                                enabled: true,
                                connected: true,
                                ssid: parts[1],
                                signal: number_or_zero(parts[2]),
                            }
                        } else {
                            unconnected(true)
                        }
                    },
                },
            }
        },
    }
}

fn read_number_or_zero(text: &Vec<char>) -> (n: i32)
    ensures
        n == number_or_zero(text@),
{
    match read_i32(text) {
        Some(v) => v,
        None => 0,
    }
}

/// The wireless state, from what `nmcli` printed.
#[verifier::loop_isolation(false)]
pub fn get_wifi_info(radio: Option<&str>, listing: Option<&str>) -> (info: WiFiInfo)
    ensures
        info@ == wifi_info(radio, listing),
{
    let mut info = WiFiInfo { enabled: false, connected: false, ssid: String::new(), signal: 0 };
    let state = match radio {
        Some(state) => state,
        None => {
            return info;
        },
    };
    if !is_text(&trim_chars(&chars_of(state)), "enabled") {
        return info;
    }
    info.enabled = true;
    let text = match listing {
        Some(text) => text,
        None => {
            return info;
        },
    };
    let all = lines_of(&chars_of(text));
    let mark = chars_of("yes:");
    let mut i: usize = 0;
    while i < all.len()
        invariant
            i <= all.len(),
            mark@ == "yes:"@,
            rows(all@) == lines(text@),
            active_line(rows(all@), 0) == active_line(rows(all@), i as int),
            info@ == unconnected(true),
        decreases all.len() - i,
    {
        let line = &all[i];
        assert(rows(all@)[i as int] == line@);
        if starts_with_chars(line, &mark) {
            let parts = split_chars(line, ':');
            if parts.len() >= 3 {
                assert(rows(parts@)[1] == parts@[1]@);
                assert(rows(parts@)[2] == parts@[2]@);
                info.connected = true;
                info.ssid = string_of(&parts[1]);
                info.signal = read_number_or_zero(&parts[2]);
            }
            return info;
        }
        i += 1;
    }
    info
}

/// The names of the saved wireless connections among the lines from `i` on
/// of `nmcli -t -f NAME,TYPE connection show`: a line is cut at its last
/// colon, and counts where what follows the colon holds `wireless`.
pub open spec fn saved_from(lines: Seq<Seq<char>>, i: int) -> Seq<Seq<char>>
    decreases lines.len() - i,
{
    if i < 0 || i >= lines.len() {
        Seq::empty()
    } else {
        let parts = rsplitn(lines[i], ':', 2);
        (if parts.len() == 2 && contains(parts[0], "wireless"@) {
            seq![parts[1]]
        } else {
            Seq::empty()
        }) + saved_from(lines, i + 1)
    }
}

/// The names of the saved wireless connections.
pub open spec fn saved_connections(output: Option<&str>) -> Seq<Seq<char>> {
    match output {
        Some(text) => saved_from(lines(text@), 0),
        None => Seq::empty(),
    }
}

/// Reads the names of the saved wireless connections from the output of
/// `nmcli -t -f NAME,TYPE connection show`, which is missing where the tool
/// could not be run.
pub fn get_saved_wifi_connections(output: Option<&str>) -> (names: Vec<Vec<char>>)
    ensures
        rows(names@) == saved_connections(output),
{
    let mut out: Vec<Vec<char>> = Vec::new();
    assert(rows(out@) =~= Seq::<Seq<char>>::empty());
    let text = match output {
        Some(text) => text,
        None => {
            return out;
        },
    };
    let all = lines_of(&chars_of(text));
    let mark = chars_of("wireless");
    let mut i: usize = 0;
    while i < all.len()
        invariant
            i <= all.len(),
            mark@ == "wireless"@,
            rows(all@) == lines(text@),
            rows(out@) + saved_from(rows(all@), i as int) == saved_from(rows(all@), 0),
        decreases all.len() - i,
    {
        assert(rows(all@)[i as int] == all@[i as int]@);
        let parts = rsplitn_chars(&all[i], ':', 2);
        let ghost before = out@;
        if parts.len() == 2 {
            assert(rows(parts@)[0] == parts@[0]@);
            assert(rows(parts@)[1] == parts@[1]@);
        }
        if parts.len() == 2 && contains_chars(&parts[0], &mark) {
            let name = slice_of(&parts[1], 0, parts[1].len());
            assert(name@ == parts@[1]@);
            out.push(name);
            assert(rows(out@) =~= rows(before).push(name@));
            assert(rows(before).push(name@) + saved_from(rows(all@), i + 1) =~= rows(before) + (
                seq![name@] + saved_from(rows(all@), i + 1)));
        } else {
            assert(Seq::<Seq<char>>::empty() + saved_from(rows(all@), i + 1) =~= saved_from(
                rows(all@),
                i + 1,
            ));
        }
        i += 1;
    }
    assert(rows(out@) + Seq::<Seq<char>>::empty() =~= rows(out@));
    out
}

/// The network that one line of `nmcli -t -f SSID,SIGNAL,SECURITY,ACTIVE
/// dev wifi list` describes. The line is cut from the right, for the name
/// may hold colons. A line without four fields or without a name describes
/// none.
pub open spec fn network_of(line: Seq<char>, saved: Seq<Seq<char>>) -> Option<WiFiNetworkView> {
    let parts = rsplitn(trim(line), ':', 4);
    if trim(line).len() == 0 || parts.len() < 4 || parts[3].len() == 0 {
        None
    } else {
        Some(
            WiFiNetworkView {
                ssid: parts[3],
                signal: number_or_zero(parts[2]),
                security: parts[1],
                connected: parts[0] == "yes"@,
                saved: saved.contains(parts[3]),
            },
        )
    }
}

/// Some network of the list has the name `ssid`.
pub open spec fn has_ssid(list: Seq<WiFiNetworkView>, ssid: Seq<char>) -> bool {
    exists|k: int| 0 <= k < list.len() && (#[trigger] list[k]).ssid == ssid
}

/// The networks found once the lines from `i` on are read, `found` being
/// those found before: each name counts once, the first time it occurs.
pub open spec fn network_scan(
    lines: Seq<Seq<char>>,
    saved: Seq<Seq<char>>,
    i: int,
    found: Seq<WiFiNetworkView>,
) -> Seq<WiFiNetworkView>
    decreases lines.len() - i,
{
    if i < 0 || i >= lines.len() {
        found
    } else {
        match network_of(lines[i], saved) {
            Some(network) => if has_ssid(found, network.ssid) {
                network_scan(lines, saved, i + 1, found)
            } else {
                network_scan(lines, saved, i + 1, found.push(network))
            },
            None => network_scan(lines, saved, i + 1, found),
        }
    }
}

/// The networks in reach, in the order of the scan.
pub open spec fn networks_found(saved_output: Option<&str>, scan_output: Option<&str>) -> Seq<
    WiFiNetworkView,
> {
    match scan_output {
        Some(text) => network_scan(lines(text@), saved_connections(saved_output), 0, Seq::empty()),
        None => Seq::empty(),
    }
}

/// The key by which networks are sorted: the connected one first, then the
/// stronger signal first.
pub open spec fn network_key(network: WiFiNetworkView) -> Seq<i64> {
    seq![
        if network.connected {
            0i64
        } else {
            1i64
        },
        (-(network.signal as int)) as i64,
    ]
}

fn name_listed(list: &Vec<Vec<char>>, name: &Vec<char>) -> (listed: bool)
    ensures
        listed == rows(list@).contains(name@),
{
    let mut i: usize = 0;
    while i < list.len()
        invariant
            i <= list.len(),
            forall|j: int| 0 <= j < i ==> rows(list@)[j] != name@,
        decreases list.len() - i,
    {
        if same_chars(&list[i], name) {
            assert(rows(list@)[i as int] == name@);
            return true;
        }
        i += 1;
    }
    false
}

fn ssid_found(list: &Vec<WiFiNetwork>, ssid: &Vec<char>) -> (found: bool)
    ensures
        found == has_ssid(network_views(list@), ssid@),
{
    let mut i: usize = 0;
    while i < list.len()
        invariant
            i <= list.len(),
            forall|j: int| 0 <= j < i ==> (#[trigger] network_views(list@)[j]).ssid != ssid@,
        decreases list.len() - i,
    {
        if same_chars(&chars_of(list[i].ssid.as_str()), ssid) {
            assert(network_views(list@)[i as int].ssid == ssid@);
            return true;
        }
        i += 1;
    }
    false
}

fn read_network(line: &Vec<char>, saved: &Vec<Vec<char>>) -> (network: Option<WiFiNetwork>)
    ensures
        match network {
            Some(n) => network_of(line@, rows(saved@)) == Some(n@),
            None => network_of(line@, rows(saved@)) is None,
        },
{
    let inner = trim_chars(line);
    if inner.len() == 0 {
        return None;
    }
    let parts = rsplitn_chars(&inner, ':', 4);
    if parts.len() < 4 {
        return None;
    }
    assert(rows(parts@)[0] == parts@[0]@);
    assert(rows(parts@)[1] == parts@[1]@);
    assert(rows(parts@)[2] == parts@[2]@);
    assert(rows(parts@)[3] == parts@[3]@);
    if parts[3].len() == 0 {
        return None;
    }
    Some(
        WiFiNetwork {
            ssid: string_of(&parts[3]),
            signal: read_number_or_zero(&parts[2]),
            security: string_of(&parts[1]),
            connected: is_text(&parts[0], "yes"),
            saved: name_listed(saved, &parts[3]),
        },
    )
}

fn copy_network(network: &WiFiNetwork) -> (copy: WiFiNetwork)
    ensures
        copy@ == network@,
{
    WiFiNetwork {
        ssid: network.ssid.clone(),
        signal: network.signal,
        security: network.security.clone(),
        connected: network.connected,
        saved: network.saved,
    }
}

/// The networks in reach, the connected one first and then by falling
/// signal, from the outputs of `nmcli -t -f NAME,TYPE connection show` and
/// `nmcli -t -f SSID,SIGNAL,SECURITY,ACTIVE dev wifi list --rescan yes`.
pub fn scan_wifi_networks(saved_output: Option<&str>, scan_output: Option<&str>) -> (list: Vec<
    WiFiNetwork,
>)
    ensures
        is_sorted_by(
            networks_found(saved_output, scan_output),
            networks_found(saved_output, scan_output).map_values(
                |n: WiFiNetworkView| network_key(n),
            ),
            network_views(list@),
        ),
{
    let saved = get_saved_wifi_connections(saved_output);
    let mut found: Vec<WiFiNetwork> = Vec::new();
    assert(network_views(found@) =~= Seq::<WiFiNetworkView>::empty());
    match scan_output {
        Some(text) => {
            let all = lines_of(&chars_of(text));
            let mut i: usize = 0;
            while i < all.len()
                invariant
                    i <= all.len(),
                    rows(all@) == lines(text@),
                    rows(saved@) == saved_connections(saved_output),
                    network_scan(rows(all@), rows(saved@), i as int, network_views(found@))
                        == network_scan(rows(all@), rows(saved@), 0, Seq::empty()),
                decreases all.len() - i,
            {
                assert(rows(all@)[i as int] == all@[i as int]@);
                match read_network(&all[i], &saved) {
                    Some(network) => {
                        if !ssid_found(&found, &chars_of(network.ssid.as_str())) {
                            let ghost before = found@;
                            found.push(network);
                            assert(network_views(found@) =~= network_views(before).push(network@));
                        }
                    },
                    None => {},
                }
                i += 1;
            }
        },
        None => {},
    }
    let ghost found_views = network_views(found@);
    assert(found_views == networks_found(saved_output, scan_output));
    let mut keys: Vec<Vec<i64>> = Vec::new();
    let mut k: usize = 0;
    while k < found.len()
        invariant
            k <= found.len(),
            keys.len() == k,
            found_views == network_views(found@),
            forall|j: int| 0 <= j < k ==> (#[trigger] keys[j])@ == network_key(found_views[j]),
        decreases found.len() - k,
    {
        let mut key: Vec<i64> = Vec::new();
        key.push(if found[k].connected {
            0
        } else {
            1
        });
        key.push(-(found[k].signal as i64));
        assert(key@ =~= network_key(found_views[k as int]));
        keys.push(key);
        k += 1;
    }
    assert(key_rows(keys@) =~= found_views.map_values(|n: WiFiNetworkView| network_key(n)));
    let order = stable_order(&keys);
    let mut out: Vec<WiFiNetwork> = Vec::new();
    let mut k: usize = 0;
    while k < order.len()
        invariant
            k <= order.len(),
            order.len() == found.len(),
            out.len() == k,
            found_views == network_views(found@),
            forall|j: int| 0 <= j < order.len() ==> (#[trigger] order[j]) < found.len(),
            forall|j: int| 0 <= j < k ==> (#[trigger] out[j])@ == found_views[order[j] as int],
        decreases order.len() - k,
    {
        out.push(copy_network(&found[order[k]]));
        k += 1;
    }
    assert(network_views(out@) =~= arranged(found_views, order@));
    out
}


// ---------------------------------------------------------------------------
// Wireless commands
// ---------------------------------------------------------------------------

fn nmcli(args: &Vec<&str>) -> (command: Command)
    ensures
        command@.program == "nmcli"@,
        command@.args.len() == args.len(),
        forall|i: int| 0 <= i < args.len() ==> (#[trigger] command@.args[i]) == args[i]@,
{
    let mut command = Command::new("nmcli");
    let mut i: usize = 0;
    while i < args.len()
        invariant
            i <= args.len(),
            command@.program == "nmcli"@,
            command@.args.len() == i,
            forall|j: int| 0 <= j < i ==> (#[trigger] command@.args[j]) == args[j]@,
        decreases args.len() - i,
    {
        command = command.arg(args[i]);
        i += 1;
    }
    command
}

/// The arguments with which `nmcli` connects to the network `ssid`.
pub open spec fn connect_args(ssid: Seq<char>, password: Option<Seq<char>>) -> Seq<Seq<char>> {
    seq!["dev"@, "wifi"@, "connect"@, ssid] + match password {
        Some(p) => seq!["password"@, p],
        None => Seq::empty(),
    }
}

/// The command that connects to the network `ssid`, with a password where
/// one is given.
pub fn connect_wifi(ssid: &str, password: Option<&str>) -> (command: Command)
    ensures
        command@ == invoke("nmcli"@, connect_args(ssid@, opt_text(password))),
{
    let mut args: Vec<&str> = Vec::new();
    args.push("dev");
    args.push("wifi");
    args.push("connect");
    args.push(ssid);
    match password {
        Some(p) => {
            args.push("password");
            args.push(p);
        },
        None => {},
    }
    let command = nmcli(&args);
    assert(command@.args =~= connect_args(ssid@, opt_text(password)));
    command
}

/// The command that connects to the hidden network `ssid`.
pub fn connect_hidden_wifi(ssid: &str, password: &str) -> (command: Command)
    ensures
        command@ == invoke(
            "nmcli"@,
            seq![
                "dev"@,
                "wifi"@,
                "connect"@,
                ssid@,
                "password"@,
                password@,
                "hidden"@,
                "yes"@,
            ],
        ),
{
    let mut args: Vec<&str> = Vec::new();
    args.push("dev");
    args.push("wifi");
    args.push("connect");
    args.push(ssid);
    args.push("password");
    args.push(password);
    args.push("hidden");
    args.push("yes");
    let command = nmcli(&args);
    assert(command@.args =~= seq![
        "dev"@,
        "wifi"@,
        "connect"@,
        ssid@,
        "password"@,
        password@,
        "hidden"@,
        "yes"@,
    ]);
    command
}

/// How an attempt to connect went.
pub fn connect_outcome(run: &CommandRun) -> (outcome: Result<(), String>)
    ensures
        outcome_view(outcome) == status_outcome(*run, "nmcli"@, "Connection"@),
{
    judge_by_status(run, "nmcli", "Connection")
}

/// The first line from `i` on that ends with `:wifi`.
pub open spec fn wifi_line(lines: Seq<Seq<char>>, i: int) -> Option<Seq<char>>
    decreases lines.len() - i,
{
    if i < 0 || i >= lines.len() {
        None
    } else if ends_with(lines[i], ":wifi"@) {
        Some(lines[i])
    } else {
        wifi_line(lines, i + 1)
    }
}

/// The wireless device among those that `nmcli -t -f DEVICE,TYPE device`
/// lists: what stands before the first colon of the first line that ends
/// with `:wifi`, and `wlan0` where there is no such line.
pub open spec fn wifi_device(listing: Seq<char>) -> Seq<char> {
    match wifi_line(lines(listing), 0) {
        Some(line) => split(line, ':')[0],
        None => "wlan0"@,
    }
}

/// The command that disconnects the wireless device, or why there is none.
/// `listing` is the output of `nmcli -t -f DEVICE,TYPE device`, missing
/// where the tool could not be run.
#[verifier::loop_isolation(false)]
pub fn disconnect_wifi(listing: Option<&str>) -> (command: Result<Command, String>)
    ensures
        match listing {
            Some(text) => command matches Ok(c) && c@ == invoke(
                "nmcli"@,
                seq!["dev"@, "disconnect"@, wifi_device(text@)],
            ),
            None => command matches Err(why) && why@ == "Failed to list devices"@,
        },
{
    let text = match listing {
        Some(text) => text,
        None => {
            return Err(owned("Failed to list devices"));
        },
    };
    let all = lines_of(&chars_of(text));
    let mark = chars_of(":wifi");
    let mut device = owned("wlan0");
    let mut i: usize = 0;
    while i < all.len()
        invariant
            i <= all.len(),
            wifi_line(rows(all@), 0) == wifi_line(rows(all@), i as int),
            device@ == "wlan0"@,
        decreases all.len() - i,
    {
        assert(rows(all@)[i as int] == all@[i as int]@);
        if ends_with_chars(&all[i], &mark) {
            let parts = split_chars(&all[i], ':');
            assert(rows(parts@).len() > 0) by {
                lemma_split_is_not_empty(all@[i as int]@, ':', 0, 0);
            }
            assert(rows(parts@)[0] == parts@[0]@);
            device = string_of(&parts[0]);
            break;
        }
        i += 1;
    }
    let mut args: Vec<&str> = Vec::new();
    args.push("dev");
    args.push("disconnect");
    args.push(device.as_str());
    let command = nmcli(&args);
    assert(command@.args =~= seq!["dev"@, "disconnect"@, wifi_device(text@)]);
    Ok(command)
}

/// Cutting a text at a separator gives at least one piece.
pub proof fn lemma_split_is_not_empty(s: Seq<char>, sep: char, start: int, i: int)
    requires
        0 <= i,
    ensures
        crate::text::split_scan(s, sep, start, i).len() > 0,
    decreases s.len() - i,
{
    if i < s.len() && s[i] != sep {
        lemma_split_is_not_empty(s, sep, start, i + 1);
    }
}

/// How an attempt to disconnect went.
pub fn disconnect_outcome(run: &CommandRun) -> (outcome: Result<(), String>)
    ensures
        outcome_view(outcome) == status_outcome(*run, "nmcli"@, "Disconnect"@),
{
    judge_by_status(run, "nmcli", "Disconnect")
}

/// The command that forgets the saved network `ssid`.
pub fn forget_wifi(ssid: &str) -> (command: Command)
    ensures
        command@ == invoke("nmcli"@, seq!["connection"@, "delete"@, ssid@]),
{
    let mut args: Vec<&str> = Vec::new();
    args.push("connection");
    args.push("delete");
    args.push(ssid);
    let command = nmcli(&args);
    assert(command@.args =~= seq!["connection"@, "delete"@, ssid@]);
    command
}

/// How an attempt to forget a network went.
pub fn forget_outcome(run: &CommandRun) -> (outcome: Result<(), String>)
    ensures
        outcome_view(outcome) == status_outcome(*run, "nmcli"@, "Forget"@),
{
    judge_by_status(run, "nmcli", "Forget")
}

/// The word that switches a radio on or off.
pub open spec fn switch_word(enabled: bool) -> Seq<char> {
    if enabled {
        "on"@
    } else {
        "off"@
    }
}

/// The command that switches the wireless radio on or off.
pub fn set_wifi_enabled(enabled: bool) -> (command: Command)
    ensures
        command@ == invoke("nmcli"@, seq!["radio"@, "wifi"@, switch_word(enabled)]),
{
    let mut args: Vec<&str> = Vec::new();
    args.push("radio");
    args.push("wifi");
    args.push(if enabled {
        "on"
    } else {
        "off"
    });
    let command = nmcli(&args);
    assert(command@.args =~= seq!["radio"@, "wifi"@, switch_word(enabled)]);
    command
}

// ---------------------------------------------------------------------------
// Icons
// ---------------------------------------------------------------------------

/// The name of the icon for a signal of `signal` percent.
pub open spec fn signal_icon(signal: i32) -> Seq<char> {
    if signal >= 80 {
        "network-wireless-signal-excellent-symbolic"@
    } else if signal >= 60 {
        "network-wireless-signal-good-symbolic"@
    } else if signal >= 40 {
        "network-wireless-signal-ok-symbolic"@
    } else if signal >= 20 {
        "network-wireless-signal-weak-symbolic"@
    } else {
        "network-wireless-signal-none-symbolic"@
    }
}

/// The name of the icon for a wireless state.
pub open spec fn wifi_icon(info: WiFiInfoView) -> Seq<char> {
    if !info.enabled {
        "network-wireless-disabled-symbolic"@
    } else if !info.connected {
        "network-wireless-offline-symbolic"@
    } else {
        signal_icon(info.signal)
    }
}

/// The name of the icon for a signal of `signal` percent.
pub fn get_wifi_signal_icon(signal: i32) -> (icon: &'static str)
    ensures
        icon@ == signal_icon(signal),
{
    if signal >= 80 {
        "network-wireless-signal-excellent-symbolic"
    } else if signal >= 60 {
        "network-wireless-signal-good-symbolic"
    } else if signal >= 40 {
        "network-wireless-signal-ok-symbolic"
    } else if signal >= 20 {
        "network-wireless-signal-weak-symbolic"
    } else {
        "network-wireless-signal-none-symbolic"
    }
}

/// The name of the icon for a wireless state.
pub fn get_wifi_icon(info: &WiFiInfo) -> (icon: &'static str)
    ensures
        icon@ == wifi_icon(info@),
{
    if !info.enabled {
        "network-wireless-disabled-symbolic"
    } else if !info.connected {
        "network-wireless-offline-symbolic"
    } else {
        get_wifi_signal_icon(info.signal)
    }
}


// ---------------------------------------------------------------------------
// Bluetooth
// ---------------------------------------------------------------------------

/// The state of Bluetooth.
#[derive(Debug, Clone)]
pub struct BluetoothInfo {
    pub available: bool,
    pub powered: bool,
    pub connected: bool,
    pub device: String,
}

/// What a Bluetooth state holds.
pub struct BluetoothInfoView {
    pub available: bool,
    pub powered: bool,
    pub connected: bool,
    pub device: Seq<char>,
}

impl View for BluetoothInfo {
    type V = BluetoothInfoView;

    open spec fn view(&self) -> BluetoothInfoView {
        BluetoothInfoView {
            available: self.available,
            powered: self.powered,
            connected: self.connected,
            device: self.device@,
        }
    }
}

/// One Bluetooth device.
#[derive(Debug, Clone)]
pub struct BluetoothDevice {
    pub mac: String,
    pub name: String,
    pub paired: bool,
    pub connected: bool,
    pub battery: Option<i32>,
}

/// What a Bluetooth device holds.
pub struct BluetoothDeviceView {
    pub mac: Seq<char>,
    pub name: Seq<char>,
    pub paired: bool,
    pub connected: bool,
    pub battery: Option<i32>,
}

impl View for BluetoothDevice {
    type V = BluetoothDeviceView;

    open spec fn view(&self) -> BluetoothDeviceView {
        BluetoothDeviceView {
            mac: self.mac@,
            name: self.name@,
            paired: self.paired,
            connected: self.connected,
            battery: self.battery,
        }
    }
}

/// What a list of Bluetooth devices holds, in order.
pub open spec fn bluetooth_views(list: Seq<BluetoothDevice>) -> Seq<BluetoothDeviceView> {
    list.map_values(|d: BluetoothDevice| d@)
}

/// The one-character text of a space.
pub open spec fn space() -> Seq<char> {
    seq![' ']
}

/// Address and name on a line `Device <address> <name>`: what stands
/// between the first two spaces, and what follows the second. A line with
/// fewer than two spaces has neither.
pub open spec fn device_fields(line: Seq<char>) -> Option<(Seq<char>, Seq<char>)> {
    match find(line, space()) {
        Some(a) => match find_from(line, space(), a + 1) {
            Some(b) => Some((line.subrange(a + 1, b), line.skip(b + 1))),
            None => None,
        },
        None => None,
    }
}

fn read_device_fields(line: &Vec<char>) -> (fields: Option<(Vec<char>, Vec<char>)>)
    ensures
        match fields {
            Some((mac, name)) => device_fields(line@) == Some((mac@, name@)),
            None => device_fields(line@) is None,
        },
{
    let blank: Vec<char> = vec![' '];
    assert(blank@ == space());
    match find_chars(line, &blank) {
        Some(a) => match find_chars_from(line, &blank, a + 1) {
            Some(b) => {
                proof {
                    lemma_find_from(line@, space(), a + 1);
                }
                Some((slice_of(line, a + 1, b), slice_of(line, b + 1, line.len())))
            },
            None => None,
        },
        None => None,
    }
}

/// Whether the adapter is powered, by the lines from `i` on of
/// `bluetoothctl show`: the last line that begins, after its white space,
/// with `Powered:` decides, by holding `yes` or not.
pub open spec fn powered_scan(lines: Seq<Seq<char>>, i: int, powered: bool) -> bool
    decreases lines.len() - i,
{
    if i < 0 || i >= lines.len() {
        powered
    } else if starts_with(trim(lines[i]), "Powered:"@) {
        powered_scan(lines, i + 1, contains(trim(lines[i]), "yes"@))
    } else {
        powered_scan(lines, i + 1, powered)
    }
}

/// The first line from `i` on that begins with `Device`.
pub open spec fn device_line(lines: Seq<Seq<char>>, i: int) -> Option<Seq<char>>
    decreases lines.len() - i,
{
    if i < 0 || i >= lines.len() {
        None
    } else if starts_with(lines[i], "Device"@) {
        Some(lines[i])
    } else {
        device_line(lines, i + 1)
    }
}

/// The Bluetooth state. `tool_runs` says whether `bluetoothctl --version`
/// could be run; `show` is the output of `bluetoothctl show`, `connected`
/// that of `bluetoothctl devices Connected`, each missing where the tool
/// could not be run.
pub open spec fn bluetooth_info(tool_runs: bool, show: Option<&str>, connected: Option<&str>) -> BluetoothInfoView {
    let off = BluetoothInfoView {
        available: tool_runs,
        powered: false,
        connected: false,
        device: Seq::empty(),
    };
    if !tool_runs {
        off
    } else {
        match show {
            None => off,
            Some(text) => if !powered_scan(lines(text@), 0, false) {
                off
            } else {
                let on = BluetoothInfoView { powered: true, ..off };
                match connected {
                    None => on,
                    Some(list) => match device_line(lines(list@), 0) {
                        None => on,
                        Some(line) => BluetoothInfoView {
                            connected: true,
                            device: match device_fields(line) {
                                Some((mac, name)) => name,
                                None => Seq::empty(),
                            },
                            ..on
                        },
                    },
                }
            },
        }
    }
}

/// The Bluetooth state, from what `bluetoothctl` printed.
#[verifier::loop_isolation(false)]
pub fn get_bluetooth_info(tool_runs: bool, show: Option<&str>, connected: Option<&str>) -> (info:
    BluetoothInfo)
    ensures
        info@ == bluetooth_info(tool_runs, show, connected),
{
    let mut info = BluetoothInfo {
        available: tool_runs,
        powered: false,
        connected: false,
        device: String::new(),
    };
    if !tool_runs {
        return info;
    }
    let text = match show {
        Some(text) => text,
        None => {
            return info;
        },
    };
    let all = lines_of(&chars_of(text));
    let label = chars_of("Powered:");
    let yes = chars_of("yes");
    let mut powered = false;
    let mut i: usize = 0;
    while i < all.len()
        invariant
            i <= all.len(),
            powered_scan(rows(all@), 0, false) == powered_scan(rows(all@), i as int, powered),
        decreases all.len() - i,
    {
        assert(rows(all@)[i as int] == all@[i as int]@);
        let line = trim_chars(&all[i]);
        if starts_with_chars(&line, &label) {
            powered = contains_chars(&line, &yes);
        }
        i += 1;
    }
    if !powered {
        return info;
    }
    info.powered = true;
    let list = match connected {
        Some(list) => list,
        None => {
            return info;
        },
    };
    let found = lines_of(&chars_of(list));
    let mark = chars_of("Device");
    let mut j: usize = 0;
    while j < found.len()
        invariant
            j <= found.len(),
            device_line(rows(found@), 0) == device_line(rows(found@), j as int),
            info@ == (BluetoothInfoView {
                available: true,
                powered: true,
                connected: false,
                device: Seq::empty(),
            }),
        decreases found.len() - j,
    {
        assert(rows(found@)[j as int] == found@[j as int]@);
        if starts_with_chars(&found[j], &mark) {
            info.connected = true;
            match read_device_fields(&found[j]) {
                Some((mac, name)) => {
                    info.device = string_of(&name);
                },
                None => {},
            }
            return info;
        }
        j += 1;
    }
    info
}

/// Address and name of one device that `bluetoothctl devices` lists.
#[derive(Debug, Clone)]
pub struct DeviceEntry {
    pub mac: String,
    pub name: String,
}

/// The devices that the lines from `i` on list: each line that begins with
/// `Device` and has an address and a name.
pub open spec fn entries_from(lines: Seq<Seq<char>>, i: int) -> Seq<(Seq<char>, Seq<char>)>
    decreases lines.len() - i,
{
    if i < 0 || i >= lines.len() {
        Seq::empty()
    } else {
        (if starts_with(lines[i], "Device"@) {
            match device_fields(lines[i]) {
                Some(fields) => seq![fields],
                None => Seq::empty(),
            }
        } else {
            Seq::empty()
        }) + entries_from(lines, i + 1)
    }
}

/// What a list of device entries holds, in order.
pub open spec fn entry_views(list: Seq<DeviceEntry>) -> Seq<(Seq<char>, Seq<char>)> {
    list.map_values(|e: DeviceEntry| (e.mac@, e.name@))
}

/// The devices that an output of `bluetoothctl devices` lists.
pub open spec fn listed_devices(output: Option<&str>) -> Seq<(Seq<char>, Seq<char>)> {
    match output {
        Some(text) => entries_from(lines(text@), 0),
        None => Seq::empty(),
    }
}

/// Reads the devices from an output of `bluetoothctl devices`, which is
/// missing where the tool could not be run.
pub fn parse_device_lines(output: Option<&str>) -> (list: Vec<DeviceEntry>)
    ensures
        entry_views(list@) == listed_devices(output),
{
    let mut out: Vec<DeviceEntry> = Vec::new();
    assert(entry_views(out@) =~= Seq::<(Seq<char>, Seq<char>)>::empty());
    let text = match output {
        Some(text) => text,
        None => {
            return out;
        },
    };
    let all = lines_of(&chars_of(text));
    let mark = chars_of("Device");
    let mut i: usize = 0;
    while i < all.len()
        invariant
            i <= all.len(),
            mark@ == "Device"@,
            rows(all@) == lines(text@),
            entry_views(out@) + entries_from(rows(all@), i as int) == entries_from(rows(all@), 0),
        decreases all.len() - i,
    {
        assert(rows(all@)[i as int] == all@[i as int]@);
        let ghost before = out@;
        let fields = if starts_with_chars(&all[i], &mark) {
            read_device_fields(&all[i])
        } else {
            None
        };
        match fields {
            Some((mac, name)) => {
                out.push(DeviceEntry { mac: string_of(&mac), name: string_of(&name) });
                assert(entry_views(out@) =~= entry_views(before).push((mac@, name@)));
                assert(entry_views(before).push((mac@, name@)) + entries_from(rows(all@), i + 1)
                    =~= entry_views(before) + (seq![(mac@, name@)] + entries_from(
                    rows(all@),
                    i + 1,
                )));
            },
            None => {
                assert(Seq::<(Seq<char>, Seq<char>)>::empty() + entries_from(rows(all@), i + 1)
                    =~= entries_from(rows(all@), i + 1));
            },
        }
        i += 1;
    }
    assert(entry_views(out@) + Seq::<(Seq<char>, Seq<char>)>::empty() =~= entry_views(out@));
    out
}

/// The number between the last `(` and the last `)` of a line, as in
/// `Battery Percentage: 0x55 (85)`.
pub open spec fn battery_value(line: Seq<char>) -> Option<i32> {
    match (rfind_char(line, '(', line.len() as int), rfind_char(line, ')', line.len() as int)) {
        (Some(left), Some(right)) => if left + 1 <= right {
            match parse_i32(line.subrange(left + 1, right)) {
                Some(v) => Some(v as i32),
                None => None,
            }
        } else {
            None
        },
        _ => None,
    }
}

/// Whether a device is connected and how full its battery is, by the lines
/// from `i` on of `bluetoothctl info`: a line `Connected:` sets the flag by
/// holding `yes` or not; a line `Battery Percentage:` with a number in
/// brackets sets the battery.
pub open spec fn device_scan(lines: Seq<Seq<char>>, i: int, state: (bool, Option<i32>)) -> (
    bool,
    Option<i32>,
)
    decreases lines.len() - i,
{
    if i < 0 || i >= lines.len() {
        state
    } else {
        let line = trim(lines[i]);
        let connected = if starts_with(line, "Connected:"@) {
            contains(line, "yes"@)
        } else {
            state.0
        };
        let battery = if starts_with(line, "Battery Percentage:"@) {
            match battery_value(line) {
                Some(v) => Some(v),
                None => state.1,
            }
        } else {
            state.1
        };
        device_scan(lines, i + 1, (connected, battery))
    }
}

/// What `bluetoothctl info` says of a device.
pub open spec fn device_info(output: Option<&str>) -> (bool, Option<i32>) {
    match output {
        Some(text) => device_scan(lines(text@), 0, (false, None)),
        None => (false, None),
    }
}

fn read_battery_value(line: &Vec<char>) -> (value: Option<i32>)
    ensures
        value == battery_value(line@),
{
    match (rfind_char_in(line, '(', line.len()), rfind_char_in(line, ')', line.len())) {
        (Some(left), Some(right)) => {
            if left + 1 <= right {
                read_i32(&slice_of(line, left + 1, right))
            } else {
                None
            }
        },
        _ => None,
    }
}

/// Whether a device is connected and how full its battery is, from the
/// output of `bluetoothctl info`, which is missing where the tool could not
/// be run.
pub fn get_device_info(output: Option<&str>) -> (state: (bool, Option<i32>))
    ensures
        state == device_info(output),
{
    let text = match output {
        Some(text) => text,
        None => {
            return (false, None);
        },
    };
    let all = lines_of(&chars_of(text));
    let connected_label = chars_of("Connected:");
    let battery_label = chars_of("Battery Percentage:");
    let yes = chars_of("yes");
    let mut connected = false;
    let mut battery: Option<i32> = None;
    let mut i: usize = 0;
    while i < all.len()
        invariant
            i <= all.len(),
            connected_label@ == "Connected:"@,
            battery_label@ == "Battery Percentage:"@,
            yes@ == "yes"@,
            rows(all@) == lines(text@),
            device_scan(rows(all@), 0, (false, None)) == device_scan(
                rows(all@),
                i as int,
                (connected, battery),
            ),
        decreases all.len() - i,
    {
        assert(rows(all@)[i as int] == all@[i as int]@);
        let line = trim_chars(&all[i]);
        if starts_with_chars(&line, &connected_label) {
            connected = contains_chars(&line, &yes);
        }
        if starts_with_chars(&line, &battery_label) {
            match read_battery_value(&line) {
                Some(v) => {
                    battery = Some(v);
                },
                None => {},
            }
        }
        i += 1;
    }
    (connected, battery)
}

/// The paired device that an entry and what `bluetoothctl info` said of it
/// give.
pub open spec fn paired_device(entry: (Seq<char>, Seq<char>), info: Option<String>) -> BluetoothDeviceView {
    let state = match info {
        Some(text) => device_scan(lines(text@), 0, (false, None)),
        None => (false, None),
    };
    BluetoothDeviceView {
        mac: entry.0,
        name: entry.1,
        paired: true,
        connected: state.0,
        battery: state.1,
    }
}

/// The paired devices in the order of the list.
pub open spec fn paired_found(entries: Seq<(Seq<char>, Seq<char>)>, infos: Seq<Option<String>>) -> Seq<
    BluetoothDeviceView,
> {
    Seq::new(entries.len(), |i: int| paired_device(entries[i], infos[i]))
}

/// The key by which paired devices are sorted: the connected ones first,
/// then by name.
pub open spec fn bluetooth_key(device: BluetoothDeviceView) -> Seq<i64> {
    seq![if device.connected {
        0i64
    } else {
        1i64
    }] + text_key(device.name)
}

fn copy_device(device: &BluetoothDevice) -> (copy: BluetoothDevice)
    ensures
        copy@ == device@,
{
    BluetoothDevice {
        mac: device.mac.clone(),
        name: device.name.clone(),
        paired: device.paired,
        connected: device.connected,
        battery: device.battery,
    }
}

/// The paired devices, the connected ones first and then by name.
/// `entries` are the devices that `bluetoothctl devices Paired` lists, and
/// `infos` holds for each, at the same position, the output of
/// `bluetoothctl info` for its address.
pub fn get_paired_devices(entries: &Vec<DeviceEntry>, infos: &Vec<Option<String>>) -> (list: Vec<
    BluetoothDevice,
>)
    requires
        infos.len() == entries.len(),
    ensures
        is_sorted_by(
            paired_found(entry_views(entries@), infos@),
            paired_found(entry_views(entries@), infos@).map_values(
                |d: BluetoothDeviceView| bluetooth_key(d),
            ),
            bluetooth_views(list@),
        ),
{
    let mut found: Vec<BluetoothDevice> = Vec::new();
    let mut keys: Vec<Vec<i64>> = Vec::new();
    let ghost wanted = paired_found(entry_views(entries@), infos@);
    let mut i: usize = 0;
    while i < entries.len()
        invariant
            i <= entries.len(),
            infos.len() == entries.len(),
            wanted == paired_found(entry_views(entries@), infos@),
            found.len() == i,
            keys.len() == i,
            forall|j: int| 0 <= j < i ==> (#[trigger] found[j])@ == wanted[j],
            forall|j: int| 0 <= j < i ==> (#[trigger] keys[j])@ == bluetooth_key(wanted[j]),
        decreases entries.len() - i,
    {
        let info = match &infos[i] {
            Some(text) => get_device_info(Some(text.as_str())),
            None => get_device_info(None),
        };
        let device = BluetoothDevice {
            mac: entries[i].mac.clone(),
            name: entries[i].name.clone(),
            paired: true,
            connected: info.0,
            battery: info.1,
        };
        let mut key: Vec<i64> = Vec::new();
        key.push(if device.connected {
            0
        } else {
            1
        });
        push_text_key(&mut key, &chars_of(device.name.as_str()));
        assert(key@ =~= bluetooth_key(wanted[i as int]));
        found.push(device);
        keys.push(key);
        i += 1;
    }
    assert(bluetooth_views(found@) =~= wanted);
    assert(key_rows(keys@) =~= wanted.map_values(|d: BluetoothDeviceView| bluetooth_key(d)));
    let order = stable_order(&keys);
    let mut out: Vec<BluetoothDevice> = Vec::new();
    let mut k: usize = 0;
    while k < order.len()
        invariant
            k <= order.len(),
            order.len() == found.len(),
            out.len() == k,
            wanted == bluetooth_views(found@),
            forall|j: int| 0 <= j < order.len() ==> (#[trigger] order[j]) < found.len(),
            forall|j: int| 0 <= j < k ==> (#[trigger] out[j])@ == wanted[order[j] as int],
        decreases order.len() - k,
    {
        out.push(copy_device(&found[order[k]]));
        k += 1;
    }
    assert(bluetooth_views(out@) =~= arranged(wanted, order@));
    out
}

/// Some device of the list has the address `mac`.
pub open spec fn has_mac(list: Seq<BluetoothDeviceView>, mac: Seq<char>) -> bool {
    exists|k: int| 0 <= k < list.len() && (#[trigger] list[k]).mac == mac
}

/// The device in reach that an entry stands for: none where it is paired
/// already, or where its name is only its address.
pub open spec fn scanned_device(entry: (Seq<char>, Seq<char>), paired: Seq<BluetoothDeviceView>) -> Option<
    BluetoothDeviceView,
> {
    if has_mac(paired, entry.0) || entry.1 == entry.0 {
        None
    } else {
        Some(
            BluetoothDeviceView {
                mac: entry.0,
                name: entry.1,
                paired: false,
                connected: false,
                battery: None,
            },
        )
    }
}

/// The reader of the devices in reach beside the paired ones.
pub open spec fn scan_reader(paired: Seq<BluetoothDeviceView>) -> spec_fn(
    (Seq<char>, Seq<char>),
) -> Option<BluetoothDeviceView> {
    |entry: (Seq<char>, Seq<char>)| scanned_device(entry, paired)
}

fn mac_found(list: &Vec<BluetoothDevice>, mac: &Vec<char>) -> (found: bool)
    ensures
        found == has_mac(bluetooth_views(list@), mac@),
{
    let mut i: usize = 0;
    while i < list.len()
        invariant
            i <= list.len(),
            forall|j: int| 0 <= j < i ==> (#[trigger] bluetooth_views(list@)[j]).mac != mac@,
        decreases list.len() - i,
    {
        if same_chars(&chars_of(list[i].mac.as_str()), mac) {
            assert(bluetooth_views(list@)[i as int].mac == mac@);
            return true;
        }
        i += 1;
    }
    false
}

/// The devices in reach that are not paired, in the order in which
/// `bluetoothctl devices` lists them after a scan.
pub fn scan_bluetooth_devices(output: Option<&str>, paired: &Vec<BluetoothDevice>) -> (list: Vec<
    BluetoothDevice,
>)
    ensures
        bluetooth_views(list@) == listed_devices(output).filter_map(
            scan_reader(bluetooth_views(paired@)),
        ),
{
    let entries = parse_device_lines(output);
    let ghost all = entry_views(entries@);
    let ghost reader = scan_reader(bluetooth_views(paired@));
    let mut out: Vec<BluetoothDevice> = Vec::new();
    let mut i: usize = 0;
    assert(bluetooth_views(out@) =~= all.take(0).filter_map(reader));
    while i < entries.len()
        invariant
            i <= entries.len(),
            all == entry_views(entries@),
            reader == scan_reader(bluetooth_views(paired@)),
            bluetooth_views(out@) == all.take(i as int).filter_map(reader),
        decreases entries.len() - i,
    {
        proof {
            all.lemma_filter_map_take_succ(reader, i as int);
        }
        let ghost before = out@;
        let mac = chars_of(entries[i].mac.as_str());
        let name = chars_of(entries[i].name.as_str());
        if mac_found(paired, &mac) || same_chars(&name, &mac) {
            assert(bluetooth_views(before) + Seq::<BluetoothDeviceView>::empty()
                =~= bluetooth_views(before));
        } else {
            let device = BluetoothDevice {
                mac: entries[i].mac.clone(),
                name: entries[i].name.clone(),
                paired: false,
                connected: false,
                battery: None,
            };
            out.push(device);
            assert(bluetooth_views(out@) =~= bluetooth_views(before) + seq![device@]);
        }
        i += 1;
    }
    assert(all.take(entries.len() as int) == all);
    out
}

fn bluetoothctl(action: &str, target: &str) -> (command: Command)
    ensures
        command@ == invoke("bluetoothctl"@, seq![action@, target@]),
{
    let command = Command::new("bluetoothctl").arg(action).arg(target);
    assert(command@.args =~= seq![action@, target@]);
    command
}

/// The command that connects the device at `mac`.
pub fn connect_bluetooth(mac: &str) -> (command: Command)
    ensures
        command@ == invoke("bluetoothctl"@, seq!["connect"@, mac@]),
{
    bluetoothctl("connect", mac)
}

/// How an attempt to connect a device went: it succeeded where the tool
/// printed `Connection successful`.
pub fn connect_bluetooth_outcome(run: &CommandRun) -> (outcome: Result<(), String>)
    ensures
        outcome_view(outcome) == output_outcome(
            *run,
            "bluetoothctl"@,
            "Connection"@,
            "Connection successful"@,
            "Connection successful"@,
        ),
{
    judge_by_output(run, "bluetoothctl", "Connection", "Connection successful", "Connection successful")
}

/// The command that disconnects the device at `mac`.
pub fn disconnect_bluetooth(mac: &str) -> (command: Command)
    ensures
        command@ == invoke("bluetoothctl"@, seq!["disconnect"@, mac@]),
{
    bluetoothctl("disconnect", mac)
}

/// How an attempt to disconnect a device went: it succeeded where the tool
/// printed `Successful`.
pub fn disconnect_bluetooth_outcome(run: &CommandRun) -> (outcome: Result<(), String>)
    ensures
        outcome_view(outcome) == output_outcome(
            *run,
            "bluetoothctl"@,
            "Disconnect"@,
            "Successful"@,
            "Successful"@,
        ),
{
    judge_by_output(run, "bluetoothctl", "Disconnect", "Successful", "Successful")
}

/// The command that pairs the device at `mac`.
pub fn pair_bluetooth(mac: &str) -> (command: Command)
    ensures
        command@ == invoke("bluetoothctl"@, seq!["pair"@, mac@]),
{
    bluetoothctl("pair", mac)
}

/// How an attempt to pair a device went, and the command that trusts the
/// device, to be run after a pairing that succeeded. It succeeded where the
/// tool printed `Pairing successful` or `already exists`.
pub fn pair_bluetooth_outcome(run: &CommandRun, mac: &str) -> (outcome: Result<Command, String>)
    ensures
        match output_outcome(
            *run,
            "bluetoothctl"@,
            "Pairing"@,
            "Pairing successful"@,
            "already exists"@,
        ) {
            Ok(_) => outcome matches Ok(trust) && trust@ == invoke(
                "bluetoothctl"@,
                seq!["trust"@, mac@],
            ),
            Err(why) => outcome matches Err(text) && text@ == why,
        },
{
    match judge_by_output(run, "bluetoothctl", "Pairing", "Pairing successful", "already exists") {
        Ok(_) => Ok(bluetoothctl("trust", mac)),
        Err(why) => Err(why),
    }
}

/// The command that removes the device at `mac`.
pub fn remove_bluetooth(mac: &str) -> (command: Command)
    ensures
        command@ == invoke("bluetoothctl"@, seq!["remove"@, mac@]),
{
    bluetoothctl("remove", mac)
}

/// How an attempt to remove a device went.
pub fn remove_bluetooth_outcome(run: &CommandRun) -> (outcome: Result<(), String>)
    ensures
        outcome_view(outcome) == status_outcome(*run, "bluetoothctl"@, "Remove"@),
{
    judge_by_status(run, "bluetoothctl", "Remove")
}

/// The command that switches the Bluetooth adapter on or off.
pub fn set_bluetooth_enabled(enabled: bool) -> (command: Command)
    ensures
        command@ == invoke("bluetoothctl"@, seq!["power"@, switch_word(enabled)]),
{
    bluetoothctl(
        "power",
        if enabled {
            "on"
        } else {
            "off"
        },
    )
}

/// The name of the icon for a Bluetooth state.
pub open spec fn bluetooth_icon(info: BluetoothInfoView) -> Seq<char> {
    if !info.available || !info.powered {
        "bluetooth-disabled-symbolic"@
    } else if info.connected {
        "bluetooth-active-symbolic"@
    } else {
        "bluetooth-symbolic"@
    }
}

/// The name of the icon for a Bluetooth state.
pub fn get_bluetooth_icon(info: &BluetoothInfo) -> (icon: &'static str)
    ensures
        icon@ == bluetooth_icon(info@),
{
    if !info.available || !info.powered {
        "bluetooth-disabled-symbolic"
    } else if info.connected {
        "bluetooth-active-symbolic"
    } else {
        "bluetooth-symbolic"
    }
}

} // verus!
