use crowbar::system::connectivity::{
    connect_bluetooth, connect_bluetooth_outcome, connect_hidden_wifi, connect_outcome,
    connect_wifi, disconnect_bluetooth, disconnect_bluetooth_outcome, disconnect_outcome,
    disconnect_wifi, forget_outcome, forget_wifi, get_bluetooth_icon, get_bluetooth_info,
    get_device_info, get_paired_devices, get_saved_wifi_connections, get_wifi_icon,
    get_wifi_info, get_wifi_signal_icon, pair_bluetooth, pair_bluetooth_outcome,
    parse_device_lines, remove_bluetooth, remove_bluetooth_outcome, scan_bluetooth_devices,
    scan_wifi_networks, set_bluetooth_enabled, set_wifi_enabled, BluetoothInfo, WiFiInfo,
};
use crowbar::system::{Command, CommandOutput};

fn line(c: &Command) -> String {
    format!("{} {}", c.program, c.args.join(" "))
}

fn ran(success: bool, stdout: &str, stderr: &str) -> Result<CommandOutput, String> {
    Ok(CommandOutput { success, stdout: stdout.to_string(), stderr: stderr.to_string() })
}

#[test]
fn wifi_info_is_read() {
    let info = get_wifi_info(Some("enabled\n"), Some("no:Other:40\nyes:Home Net:72\nyes:Second:10\n"));
    assert!(info.enabled && info.connected);
    assert_eq!(info.ssid, "Home Net");
    assert_eq!(info.signal, 72);
}

#[test]
fn wifi_info_without_connection() {
    let check = |radio: Option<&str>, list: Option<&str>, enabled: bool| {
        let info = get_wifi_info(radio, list);
        assert_eq!(info.enabled, enabled);
        assert!(!info.connected);
        assert_eq!(info.ssid, "");
        assert_eq!(info.signal, 0);
    };
    check(None, Some("yes:A:1"), false);
    check(Some("disabled\n"), Some("yes:A:1"), false);
    check(Some("Enabled"), Some("yes:A:1"), false);
    check(Some("enabled"), None, true);
    check(Some("enabled"), Some(""), true);
    check(Some("enabled"), Some("no:A:1\n yes:B:2"), true);
    check(Some("enabled"), Some("yes:\nyes:B:2"), true);
}

#[test]
fn wifi_info_details() {
    let info = get_wifi_info(Some(" enabled "), Some("yes:My:Net:80"));
    assert!(info.connected);
    assert_eq!(info.ssid, "My");
    assert_eq!(info.signal, 0);
    let info = get_wifi_info(Some("enabled"), Some("yes::"));
    assert!(info.connected);
    assert_eq!((info.ssid.as_str(), info.signal), ("", 0));
    let info = get_wifi_info(Some("enabled"), Some("yes:x:-7"));
    assert_eq!(info.signal, -7);
}

#[test]
fn saved_connections_are_the_wireless_ones() {
    let out = "Home Net:802-11-wireless\nWired:802-3-ethernet\nCafe:guest:802-11-wireless\nlo:loopback\nodd\n:wireless\n";
    let names: Vec<String> = get_saved_wifi_connections(Some(out))
        .into_iter()
        .map(|n| n.into_iter().collect())
        .collect();
    assert_eq!(names, vec!["Home Net", "Cafe:guest", ""]);
    assert!(get_saved_wifi_connections(None).is_empty());
    assert!(get_saved_wifi_connections(Some("")).is_empty());
}

#[test]
fn networks_are_scanned_and_sorted() {
    let saved = "Home:802-11-wireless\nOld:802-11-wireless\n";
    let scan = "Cafe:40:WPA2:no\nHome:70:WPA2:yes\n  Strong:90::no  \nHome:99:WPA2:no\n\nMy:Net:55:WPA1 WPA2:no\n:80:WPA2:no\nshort:1:no\nWeak:x:WPA2:no\nCafe2:40:WPA3:no\n";
    let list = scan_wifi_networks(Some(saved), Some(scan));
    let seen: Vec<(&str, i32, &str, bool, bool)> = list
        .iter()
        .map(|n| (n.ssid.as_str(), n.signal, n.security.as_str(), n.connected, n.saved))
        .collect();
    assert_eq!(
        seen,
        vec![
            ("Home", 70, "WPA2", true, true),
            ("Strong", 90, "", false, false),
            ("My:Net", 55, "WPA1 WPA2", false, false),
            ("Cafe", 40, "WPA2", false, false),
            ("Cafe2", 40, "WPA3", false, false),
            ("Weak", 0, "WPA2", false, false),
        ]
    );
}

#[test]
fn networks_without_a_scan() {
    assert!(scan_wifi_networks(Some("Home:802-11-wireless"), None).is_empty());
    assert!(scan_wifi_networks(None, Some("")).is_empty());
    let list = scan_wifi_networks(None, Some("A:1:s:yes\nB:1:s:yes"));
    assert_eq!(list.len(), 2);
    assert_eq!(list[0].ssid, "A");
    assert!(list.iter().all(|n| n.connected && !n.saved));
}

#[test]
fn wifi_commands() {
    assert_eq!(line(&connect_wifi("Home Net", None)), "nmcli dev wifi connect Home Net");
    assert_eq!(connect_wifi("Home Net", None).args, vec!["dev", "wifi", "connect", "Home Net"]);
    assert_eq!(
        connect_wifi("Home", Some("p w")).args,
        vec!["dev", "wifi", "connect", "Home", "password", "p w"]
    );
    assert_eq!(
        connect_hidden_wifi("Hid", "pw").args,
        vec!["dev", "wifi", "connect", "Hid", "password", "pw", "hidden", "yes"]
    );
    assert_eq!(forget_wifi("Old").args, vec!["connection", "delete", "Old"]);
    assert_eq!(line(&set_wifi_enabled(true)), "nmcli radio wifi on");
    assert_eq!(line(&set_wifi_enabled(false)), "nmcli radio wifi off");
}

#[test]
fn wifi_is_disconnected_on_its_device() {
    match disconnect_wifi(Some("lo:loopback\nwlp3s0:wifi\nwlan1:wifi\n")) {
        Ok(c) => assert_eq!(line(&c), "nmcli dev disconnect wlp3s0"),
        Err(e) => panic!("{}", e),
    }
    match disconnect_wifi(Some("eth0:ethernet\nwlan0:wifi-p2p\n")) {
        Ok(c) => assert_eq!(line(&c), "nmcli dev disconnect wlan0"),
        Err(e) => panic!("{}", e),
    }
    match disconnect_wifi(Some("a:b:wifi\n")) {
        Ok(c) => assert_eq!(c.args, vec!["dev", "disconnect", "a"]),
        Err(e) => panic!("{}", e),
    }
    match disconnect_wifi(Some(":wifi\n")) {
        Ok(c) => assert_eq!(c.args, vec!["dev", "disconnect", ""]),
        Err(e) => panic!("{}", e),
    }
    match disconnect_wifi(None) {
        Err(e) => assert_eq!(e, "Failed to list devices"),
        Ok(_) => panic!("no listing"),
    }
}

#[test]
fn wifi_outcomes() {
    assert_eq!(connect_outcome(&ran(true, "", "")), Ok(()));
    assert_eq!(
        connect_outcome(&ran(false, "", "Error: bad password\n")),
        Err("Connection failed: Error: bad password".to_string())
    );
    assert_eq!(
        connect_outcome(&Err("not found".to_string())),
        Err("Failed to run nmcli: not found".to_string())
    );
    assert_eq!(
        disconnect_outcome(&ran(false, "", " x ")),
        Err("Disconnect failed: x".to_string())
    );
    assert_eq!(forget_outcome(&ran(false, "", "")), Err("Forget failed: ".to_string()));
    assert_eq!(forget_outcome(&ran(true, "", "warn")), Ok(()));
}

#[test]
fn wifi_icons() {
    for (signal, icon) in [
        (100, "network-wireless-signal-excellent-symbolic"),
        (80, "network-wireless-signal-excellent-symbolic"),
        (79, "network-wireless-signal-good-symbolic"),
        (60, "network-wireless-signal-good-symbolic"),
        (59, "network-wireless-signal-ok-symbolic"),
        (40, "network-wireless-signal-ok-symbolic"),
        (39, "network-wireless-signal-weak-symbolic"),
        (20, "network-wireless-signal-weak-symbolic"),
        (19, "network-wireless-signal-none-symbolic"),
        (0, "network-wireless-signal-none-symbolic"),
        (-5, "network-wireless-signal-none-symbolic"),
    ] {
        assert_eq!(get_wifi_signal_icon(signal), icon);
        let info = WiFiInfo { enabled: true, connected: true, ssid: "x".to_string(), signal };
        assert_eq!(get_wifi_icon(&info), icon);
    }
    let off = WiFiInfo { enabled: false, connected: true, ssid: String::new(), signal: 90 };
    assert_eq!(get_wifi_icon(&off), "network-wireless-disabled-symbolic");
    let idle = WiFiInfo { enabled: true, connected: false, ssid: String::new(), signal: 90 };
    assert_eq!(get_wifi_icon(&idle), "network-wireless-offline-symbolic");
}

#[test]
fn bluetooth_info_is_read() {
    let show = "Controller AA:BB (public)\n\tName: host\n\tPowered: yes\n\tDiscoverable: no\n";
    let info = get_bluetooth_info(true, Some(show), Some("Device 11:22:33 My Head Phones\nDevice 44:55 Other\n"));
    assert!(info.available && info.powered && info.connected);
    assert_eq!(info.device, "My Head Phones");
    let info = get_bluetooth_info(true, Some(show), Some("noise\nDevice 11:22:33\n"));
    assert!(info.connected);
    assert_eq!(info.device, "");
    let info = get_bluetooth_info(true, Some(show), Some(""));
    assert!(info.powered && !info.connected);
    let info = get_bluetooth_info(true, Some(show), None);
    assert!(info.powered && !info.connected);
}

#[test]
fn bluetooth_info_when_off() {
    let state = |i: BluetoothInfo| (i.available, i.powered, i.connected, i.device);
    let none = (false, false, false, String::new());
    let off = (true, false, false, String::new());
    assert_eq!(state(get_bluetooth_info(false, Some("Powered: yes"), Some("Device a b"))), none);
    assert_eq!(state(get_bluetooth_info(true, None, Some("Device a b"))), off);
    assert_eq!(state(get_bluetooth_info(true, Some("Powered: no"), Some("Device a b"))), off);
    assert_eq!(state(get_bluetooth_info(true, Some("Powered: yes\nPowered: no"), Some("Device a b"))), off);
    assert_eq!(state(get_bluetooth_info(true, Some("PowerState: yes"), Some("Device a b"))), off);
    let on = get_bluetooth_info(true, Some("Powered: no\n  Powered: yes  "), Some("Device a b c"));
    assert_eq!(state(on), (true, true, true, "b c".to_string()));
}

#[test]
fn device_lines_are_read() {
    let out = "Device AA:BB:CC Keyboard K380\n[NEW] Device 00:11 no\nDevice DD:EE\nDevice  FF:00 name\nDeviceXX:YY z w\n";
    let list = parse_device_lines(Some(out));
    let seen: Vec<(&str, &str)> = list.iter().map(|e| (e.mac.as_str(), e.name.as_str())).collect();
    assert_eq!(seen, vec![("AA:BB:CC", "Keyboard K380"), ("", "FF:00 name"), ("z", "w")]);
    assert!(parse_device_lines(None).is_empty());
    assert!(parse_device_lines(Some("")).is_empty());
}

#[test]
fn device_info_is_read() {
    let out = "Device AA:BB (public)\n\tName: K380\n\tConnected: yes\n\tBattery Percentage: 0x55 (85)\n";
    assert_eq!(get_device_info(Some(out)), (true, Some(85)));
    assert_eq!(get_device_info(Some("Connected: no\nBattery Percentage: 0x0a (10)")), (false, Some(10)));
    assert_eq!(get_device_info(Some("Connected: yes\nConnected: no")), (false, None));
    assert_eq!(get_device_info(Some("Battery Percentage: (1)\nBattery Percentage: (x)")), (false, Some(1)));
    assert_eq!(get_device_info(Some("Battery Percentage: 55")), (false, None));
    assert_eq!(get_device_info(Some("Battery Percentage: (1) (22)")), (false, Some(22)));
    assert_eq!(get_device_info(Some("Battery Percentage: (1) (")), (false, None));
    assert_eq!(get_device_info(Some("Battery Percentage: )3(")), (false, None));
    assert_eq!(get_device_info(Some("Battery: (3)")), (false, None));
    assert_eq!(get_device_info(Some("")), (false, None));
    assert_eq!(get_device_info(None), (false, None));
}

#[test]
fn paired_devices_are_sorted() {
    let entries = parse_device_lines(Some(
        "Device 01 speaker\nDevice 02 Mouse\nDevice 03 keyboard\nDevice 04 Headset\nDevice 05 Mouse\n",
    ));
    let infos = vec![
        None,
        Some("Connected: yes\nBattery Percentage: 0x32 (50)".to_string()),
        Some("Connected: no".to_string()),
        Some("Connected: yes".to_string()),
        Some("Connected: yes\nBattery Percentage: 0x01 (1)".to_string()),
    ];
    let list = get_paired_devices(&entries, &infos);
    let seen: Vec<(&str, &str, bool, Option<i32>)> = list
        .iter()
        .map(|d| (d.mac.as_str(), d.name.as_str(), d.connected, d.battery))
        .collect();
    assert_eq!(
        seen,
        vec![
            ("04", "Headset", true, None),
            ("02", "Mouse", true, Some(50)),
            ("05", "Mouse", true, Some(1)),
            ("03", "keyboard", false, None),
            ("01", "speaker", false, None),
        ]
    );
    assert!(list.iter().all(|d| d.paired));
    assert!(get_paired_devices(&Vec::new(), &Vec::new()).is_empty());
}

#[test]
fn scanned_devices_leave_out_the_paired() {
    let paired = get_paired_devices(
        &parse_device_lines(Some("Device AA Known\n")),
        &vec![Some("Connected: yes".to_string())],
    );
    let out = "Device AA Known\nDevice BB New Thing\nDevice CC CC\nDevice DD x\nDevice BB Again\n";
    let list = scan_bluetooth_devices(Some(out), &paired);
    let seen: Vec<(&str, &str)> = list.iter().map(|d| (d.mac.as_str(), d.name.as_str())).collect();
    assert_eq!(seen, vec![("BB", "New Thing"), ("DD", "x"), ("BB", "Again")]);
    assert!(list.iter().all(|d| !d.paired && !d.connected && d.battery.is_none()));
    assert!(scan_bluetooth_devices(None, &paired).is_empty());
    assert_eq!(scan_bluetooth_devices(Some(out), &Vec::new()).len(), 4);
}

#[test]
fn bluetooth_commands() {
    assert_eq!(line(&connect_bluetooth("AA:BB")), "bluetoothctl connect AA:BB");
    assert_eq!(line(&disconnect_bluetooth("AA:BB")), "bluetoothctl disconnect AA:BB");
    assert_eq!(line(&pair_bluetooth("AA:BB")), "bluetoothctl pair AA:BB");
    assert_eq!(line(&remove_bluetooth("AA:BB")), "bluetoothctl remove AA:BB");
    assert_eq!(line(&set_bluetooth_enabled(true)), "bluetoothctl power on");
    assert_eq!(line(&set_bluetooth_enabled(false)), "bluetoothctl power off");
}

#[test]
fn bluetooth_outcomes() {
    assert_eq!(connect_bluetooth_outcome(&ran(false, "Connection successful", "")), Ok(()));
    assert_eq!(
        connect_bluetooth_outcome(&ran(true, " Failed to connect: org.bluez.Error.Failed \n", "")),
        Err("Connection failed: Failed to connect: org.bluez.Error.Failed".to_string())
    );
    assert_eq!(
        connect_bluetooth_outcome(&Err("gone".to_string())),
        Err("Failed to run bluetoothctl: gone".to_string())
    );
    assert_eq!(disconnect_bluetooth_outcome(&ran(true, "Successful disconnected", "")), Ok(()));
    assert_eq!(
        disconnect_bluetooth_outcome(&ran(true, "successful", "")),
        Err("Disconnect failed: successful".to_string())
    );
    match pair_bluetooth_outcome(&ran(true, "Pairing successful", ""), "AA") {
        Ok(trust) => assert_eq!(line(&trust), "bluetoothctl trust AA"),
        Err(e) => panic!("{}", e),
    }
    match pair_bluetooth_outcome(&ran(false, "Error: already exists", ""), "AA") {
        Ok(trust) => assert_eq!(trust.args, vec!["trust", "AA"]),
        Err(e) => panic!("{}", e),
    }
    assert_eq!(
        pair_bluetooth_outcome(&ran(true, "no", ""), "AA").err(),
        Some("Pairing failed: no".to_string())
    );
    assert_eq!(
        pair_bluetooth_outcome(&Err("x".to_string()), "AA").err(),
        Some("Failed to run bluetoothctl: x".to_string())
    );
    assert_eq!(remove_bluetooth_outcome(&ran(true, "", "")), Ok(()));
    assert_eq!(
        remove_bluetooth_outcome(&ran(false, "out", "Device not available\n")),
        Err("Remove failed: Device not available".to_string())
    );
}

#[test]
fn bluetooth_icons() {
    let info = |available, powered, connected| BluetoothInfo {
        available,
        powered,
        connected,
        device: String::new(),
    };
    assert_eq!(get_bluetooth_icon(&info(false, false, false)), "bluetooth-disabled-symbolic");
    assert_eq!(get_bluetooth_icon(&info(false, true, true)), "bluetooth-disabled-symbolic");
    assert_eq!(get_bluetooth_icon(&info(true, false, true)), "bluetooth-disabled-symbolic");
    assert_eq!(get_bluetooth_icon(&info(true, true, true)), "bluetooth-active-symbolic");
    assert_eq!(get_bluetooth_icon(&info(true, true, false)), "bluetooth-symbolic");
}
