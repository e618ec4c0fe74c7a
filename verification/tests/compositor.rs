use crowbar::hyprland::client::{ClientError, HyprlandClient, Request, Response, Window, Workspace};
use crowbar::hyprland::events::{
    parse_event_line, reader_step, EventKind, EventListener, HyprEvent, ListenerError,
    ListenerState, ReaderAction, ReaderEvent,
};
use crowbar::hyprland::socket_path;
use crowbar::json::{parse_json, Json, JsonNumber};

fn client() -> HyprlandClient {
    match HyprlandClient::new(Some("abc123"), Some("/run/user/1000"), true) {
        Ok(c) => c,
        Err(e) => panic!("no client: {}", e.message()),
    }
}

fn finish_ok(request: Request, reply: &str) -> Result<Response, ClientError> {
    request.finish(Ok(reply.to_string()))
}

#[test]
fn socket_paths_follow_the_environment() {
    assert_eq!(socket_path(Some("/tmp/rt"), "sig", ".socket.sock"), "/tmp/rt/hypr/sig/.socket.sock");
    assert_eq!(socket_path(None, "sig", ".socket2.sock"), "/run/user/1000/hypr/sig/.socket2.sock");
    assert_eq!(
        HyprlandClient::command_socket(None, "x y"),
        "/run/user/1000/hypr/x y/.socket.sock"
    );
}

#[test]
fn client_needs_the_signature() {
    match HyprlandClient::new(None, Some("/run/user/1000"), true) {
        Err(ClientError::NotConfigured) => {}
        _ => panic!("expected NotConfigured"),
    }
    let e = ClientError::NotConfigured;
    assert_eq!(e.message(), "HYPRLAND_INSTANCE_SIGNATURE not set");
}

#[test]
fn client_needs_the_socket_file() {
    match HyprlandClient::new(Some("sig"), None, false) {
        Err(ClientError::SocketNotFound(path)) => {
            assert_eq!(path, "/run/user/1000/hypr/sig/.socket.sock");
            assert_eq!(
                ClientError::SocketNotFound(path).message(),
                "Hyprland socket not found: /run/user/1000/hypr/sig/.socket.sock"
            );
        }
        _ => panic!("expected SocketNotFound"),
    }
}

#[test]
fn client_remembers_its_socket() {
    let c = client();
    assert_eq!(c.socket_path(), "/run/user/1000/hypr/abc123/.socket.sock");
    assert_eq!(c.workspaces().socket_path(), "/run/user/1000/hypr/abc123/.socket.sock");
}

#[test]
fn query_commands_ask_for_json() {
    let c = client();
    assert_eq!(c.workspaces().command(), "j/workspaces");
    assert_eq!(c.active_workspace().command(), "j/activeworkspace");
    assert_eq!(c.active_window().command(), "j/activewindow");
    assert_eq!(c.clients().command(), "j/clients");
    assert_eq!(HyprlandClient::json_command("monitors"), "j/monitors");
}

#[test]
fn dispatch_commands_are_spelled_out() {
    let c = client();
    assert_eq!(c.switch_workspace(3).command(), "dispatch workspace 3");
    assert_eq!(c.switch_workspace(-98).command(), "dispatch workspace -98");
    assert_eq!(c.switch_workspace(0).command(), "dispatch workspace 0");
    assert_eq!(c.switch_workspace(i32::MIN).command(), "dispatch workspace -2147483648");
    assert_eq!(c.switch_workspace(i32::MAX).command(), "dispatch workspace 2147483647");
    assert_eq!(c.focus_window("0x55aa").command(), "dispatch focuswindow address:0x55aa");
    assert_eq!(c.close_window("0x55aa").command(), "dispatch closewindow address:0x55aa");
    assert_eq!(
        c.minimize_window("0x55aa").command(),
        "dispatch movetoworkspacesilent special:minimized,address:0x55aa"
    );
    assert_eq!(
        c.restore_window("0x55aa").command(),
        "dispatch movetoworkspace e+0,address:0x55aa"
    );
    assert_eq!(c.dispatch("exec kitty").command(), "dispatch exec kitty");
}

#[test]
fn workspace_reply_round_trip() {
    let reply = r#"{"id":3,"name":"3","windows":2,"monitor":"DP-1"}"#;
    match finish_ok(client().active_workspace(), reply) {
        Ok(Response::Workspace(w)) => {
            assert_eq!(w.id, 3);
            assert_eq!(w.name, "3");
            assert_eq!(w.windows, 2);
            assert_eq!(w.monitor, "DP-1");
        }
        _ => panic!("expected a workspace"),
    }
}

#[test]
fn workspace_without_monitor_gets_an_empty_one() {
    let reply = r#"{"windows":0,"name":"special:minimized","id":-98,"extra":[1,2]}"#;
    match finish_ok(client().active_workspace(), reply) {
        Ok(Response::Workspace(w)) => {
            assert_eq!(w.id, -98);
            assert_eq!(w.name, "special:minimized");
            assert_eq!(w.windows, 0);
            assert_eq!(w.monitor, "");
        }
        _ => panic!("expected a workspace"),
    }
}

#[test]
fn workspace_written_as_a_list_of_fields() {
    match finish_ok(client().active_workspace(), r#"[7,"seven",1]"#) {
        Ok(Response::Workspace(w)) => {
            assert_eq!((w.id, w.windows), (7, 1));
            assert_eq!(w.name, "seven");
            assert_eq!(w.monitor, "");
        }
        _ => panic!("expected a workspace"),
    }
    assert!(matches!(
        finish_ok(client().active_workspace(), r#"[7,"seven",1,"DP-1",0]"#),
        Err(ClientError::Parse(_))
    ));
    assert!(matches!(
        finish_ok(client().active_workspace(), r#"[7,"seven"]"#),
        Err(ClientError::Parse(_))
    ));
}

#[test]
fn workspace_list_reply() {
    let reply = r#"[{"id":1,"name":"1","windows":3,"monitor":"eDP-1"},
                    {"id":2,"name":"two","windows":0,"monitor":"eDP-1"}]"#;
    match finish_ok(client().workspaces(), reply) {
        Ok(Response::Workspaces(list)) => {
            assert_eq!(list.len(), 2);
            assert_eq!(list[0].id, 1);
            assert_eq!(list[1].name, "two");
            assert_eq!(list[1].windows, 0);
        }
        _ => panic!("expected workspaces"),
    }
    match finish_ok(client().workspaces(), "[]") {
        Ok(Response::Workspaces(list)) => assert!(list.is_empty()),
        _ => panic!("expected no workspaces"),
    }
}

#[test]
fn window_reply_with_defaults() {
    let reply = r#"{"address":"0x1","class":"kitty"}"#;
    match finish_ok(client().active_window(), reply) {
        Ok(Response::Window(w)) => {
            assert_eq!(w.address, "0x1");
            assert_eq!(w.title, "");
            assert_eq!(w.class, "kitty");
            assert_eq!(w.workspace.id, 0);
            assert_eq!(w.workspace.name, "");
        }
        _ => panic!("expected a window"),
    }
}

#[test]
fn window_list_reply() {
    let reply = r#"[{"address":"0x1","title":"a","class":"kitty","workspace":{"id":4,"name":"4"}},
                    {"address":"0x2","title":"b","class":"firefox","workspace":{"id":-98,"name":"special:minimized"}}]"#;
    match finish_ok(client().clients(), reply) {
        Ok(Response::Windows(list)) => {
            assert_eq!(list.len(), 2);
            assert_eq!(list[0].workspace.id, 4);
            assert_eq!(list[1].workspace.name, "special:minimized");
            assert_eq!(list[1].class, "firefox");
        }
        _ => panic!("expected windows"),
    }
}

#[test]
fn reply_that_is_no_json_is_a_parse_error() {
    match finish_ok(client().workspaces(), "not json") {
        Err(ClientError::Parse(why)) => {
            assert!(!why.is_empty());
            assert!(ClientError::Parse(why).message().starts_with("Failed to parse JSON: "));
        }
        _ => panic!("expected a parse error"),
    }
}

#[test]
fn reply_of_another_shape_is_a_parse_error() {
    for reply in [
        r#"{"id":"3","name":"3","windows":2}"#,
        r#"{"id":3,"windows":2}"#,
        r#"{"id":3.0,"name":"3","windows":2}"#,
        r#"{"id":4294967296,"name":"3","windows":2}"#,
        r#"{"id":3,"name":null,"windows":2}"#,
        r#"{"id":3,"name":"3","windows":2,"monitor":7}"#,
        r#""workspace""#,
        "17",
        "null",
    ] {
        match finish_ok(client().active_workspace(), reply) {
            Err(ClientError::Parse(why)) => {
                assert_eq!(why, "reply does not have the expected shape")
            }
            _ => panic!("expected a parse error for {}", reply),
        }
    }
    assert!(matches!(
        finish_ok(client().workspaces(), r#"{"id":3,"name":"3","windows":2}"#),
        Err(ClientError::Parse(_))
    ));
    assert!(matches!(
        finish_ok(client().workspaces(), r#"[{"id":3,"name":"3","windows":2},{"id":4}]"#),
        Err(ClientError::Parse(_))
    ));
    assert!(matches!(
        finish_ok(client().active_window(), r#"{"address":"0x1","class":"c","workspace":{"id":1}}"#),
        Err(ClientError::Parse(_))
    ));
}

#[test]
fn transport_failure_is_an_io_error() {
    for request in [client().workspaces(), client().switch_workspace(2), client().dispatch("x")] {
        match request.finish(Err("Failed to connect to Hyprland: refused".to_string())) {
            Err(ClientError::Io(why)) => {
                assert_eq!(why, "Failed to connect to Hyprland: refused");
                assert_eq!(
                    ClientError::Io(why).message(),
                    "Failed to connect to Hyprland: refused"
                );
            }
            _ => panic!("expected an I/O error"),
        }
    }
}

#[test]
fn dispatch_reply_is_not_looked_at() {
    for reply in ["ok", "", "Invalid dispatcher", "{not json"] {
        assert!(matches!(finish_ok(client().switch_workspace(1), reply), Ok(Response::Done)));
        assert!(matches!(finish_ok(client().close_window("0x1"), reply), Ok(Response::Done)));
    }
}

#[test]
fn restore_stops_at_a_failed_move() {
    let request = client().restore_window("0xdead");
    match request.finish(Err("Failed to send command: broken pipe".to_string())) {
        Err(ClientError::Io(why)) => assert_eq!(why, "Failed to send command: broken pipe"),
        Ok(Response::Next(_)) => panic!("focus must not follow a failed move"),
        _ => panic!("expected the move's failure"),
    }
}

#[test]
fn restore_focuses_after_the_move() {
    let request = client().restore_window("0xdead");
    let focus = match finish_ok(request, "ok") {
        Ok(Response::Next(focus)) => focus,
        _ => panic!("expected the focus request"),
    };
    assert_eq!(focus.command(), "dispatch focuswindow address:0xdead");
    assert_eq!(focus.socket_path(), "/run/user/1000/hypr/abc123/.socket.sock");
    assert!(matches!(focus.clone().finish(Ok("ok".to_string())), Ok(Response::Done)));
    match focus.finish(Err("Failed to read response: reset".to_string())) {
        Err(ClientError::Io(why)) => assert_eq!(why, "Failed to read response: reset"),
        _ => panic!("expected the focus's failure"),
    }
}

#[test]
fn json_documents_are_read_in_full() {
    let doc = match parse_json(r#"{"b":[1,-2,3.5,true,null,"x"],"a":{"k":"v"}}"#) {
        Ok(doc) => doc,
        Err(e) => panic!("{}", e),
    };
    let b = doc.get("b").and_then(|v| v.as_array()).expect("array");
    assert_eq!(b.len(), 6);
    assert_eq!(b[0].as_u64(), Some(1));
    assert_eq!(b[0].as_i32(), Some(1));
    assert_eq!(b[1].as_u64(), None);
    assert_eq!(b[1].as_i32(), Some(-2));
    assert!(matches!(b[2], Json::Number(JsonNumber::Float)));
    assert_eq!(b[3].as_bool(), Some(true));
    assert!(matches!(b[4], Json::Null));
    assert_eq!(b[5].as_str().map(|s| s.as_str()), Some("x"));
    assert_eq!(doc.get("a").and_then(|v| v.get_str("k")).map(|s| s.as_str()), Some("v"));
    assert!(doc.get("c").is_none());
    assert!(b[0].get("a").is_none());
    assert!(parse_json("{").is_err());
    assert!(parse_json("").is_err());
}

#[test]
fn known_event_lines_are_classified() {
    let cases = [
        ("workspace>>3", EventKind::Workspace, "3"),
        ("workspacev2>>3,three", EventKind::Workspace, "3,three"),
        ("activewindow>>kitty,~", EventKind::ActiveWindow, "kitty,~"),
        ("activewindowv2>>55aa", EventKind::ActiveWindow, "55aa"),
        ("openwindow>>55aa,1,kitty,zsh", EventKind::OpenWindow, "55aa,1,kitty,zsh"),
        ("closewindow>>55aa", EventKind::CloseWindow, "55aa"),
        ("windowtitle>>55aa", EventKind::WindowTitle, "55aa"),
        ("windowtitlev2>>55aa,title", EventKind::WindowTitle, "55aa,title"),
        ("createworkspace>>4", EventKind::CreateWorkspace, "4"),
        ("createworkspacev2>>4,4", EventKind::CreateWorkspace, "4,4"),
        ("destroyworkspace>>4", EventKind::DestroyWorkspace, "4"),
        ("destroyworkspacev2>>4,4", EventKind::DestroyWorkspace, "4,4"),
    ];
    for (line, kind, payload) in cases {
        match parse_event_line(line) {
            Some(event) => {
                assert_eq!(event.kind(), kind, "{}", line);
                assert_eq!(event.payload(), payload, "{}", line);
            }
            None => panic!("no event for {}", line),
        }
    }
}

#[test]
fn payload_is_kept_verbatim() {
    for payload in ["", " ", "a>>b", ">", ">>", "  padded  ", "tab\there", "ünï,cødé"] {
        let line = format!("windowtitle>>{}", payload);
        match parse_event_line(&line) {
            Some(HyprEvent::WindowTitle(data)) => assert_eq!(data, payload),
            _ => panic!("no window title event for {:?}", line),
        }
    }
}

#[test]
fn other_lines_give_no_event() {
    for line in [
        "",
        "workspace",
        "workspace>3",
        "monitoradded>>DP-1",
        "workspacev3>>1",
        " workspace>>1",
        "Workspace>>1",
        ">>workspace",
        "openwindowv2>>1",
        "closewindowv2>>1",
    ] {
        assert!(parse_event_line(line).is_none(), "{:?}", line);
    }
}

#[test]
fn event_of_kind_round_trip() {
    let e = HyprEvent::of_kind(EventKind::CloseWindow, "abc".to_string());
    assert!(matches!(e, HyprEvent::CloseWindow(_)));
    assert_eq!(e.kind(), EventKind::CloseWindow);
    assert_eq!(e.payload(), "abc");
}

#[test]
fn listener_needs_the_signature() {
    match EventListener::new(None, None) {
        Err(ListenerError::NotConfigured) => {}
        _ => panic!("expected NotConfigured"),
    }
    assert_eq!(ListenerError::NotConfigured.message(), "HYPRLAND_INSTANCE_SIGNATURE not set");
}

#[test]
fn listener_life_cycle() {
    let mut l = match EventListener::new(Some("sig"), Some("/r")) {
        Ok(l) => l,
        Err(_) => panic!("no listener"),
    };
    assert_eq!(l.socket_path(), "/r/hypr/sig/.socket2.sock");
    assert_eq!(l.state(), ListenerState::Idle);
    assert!(!l.is_running());
    match l.start(Err("refused".to_string())) {
        Err(ListenerError::Io(why)) => {
            assert_eq!(why, "refused");
            assert_eq!(
                ListenerError::Io(why).message(),
                "Failed to connect to event socket: refused"
            );
        }
        _ => panic!("expected an I/O error"),
    }
    assert_eq!(l.state(), ListenerState::Idle);
    assert!(l.start(Ok(())).is_ok());
    assert_eq!(l.state(), ListenerState::Streaming);
    assert!(l.is_running());
    l.stop();
    assert_eq!(l.state(), ListenerState::Stopped);
    assert!(!l.is_running());
    assert_eq!(l.socket_path(), "/r/hypr/sig/.socket2.sock");
}

#[test]
fn stopping_a_stopped_listener_changes_nothing() {
    let mut l = match EventListener::new(Some("sig"), None) {
        Ok(l) => l,
        Err(_) => panic!("no listener"),
    };
    l.stop();
    assert_eq!(l.state(), ListenerState::Idle);
    assert!(l.start(Ok(())).is_ok());
    l.stop();
    l.stop();
    l.stop();
    assert_eq!(l.state(), ListenerState::Stopped);
    assert!(!l.is_running());
}

#[test]
fn reader_follows_its_rule() {
    assert!(matches!(
        reader_step(true, ReaderEvent::Line("workspace>>2".to_string())),
        ReaderAction::Forward(HyprEvent::Workspace(_))
    ));
    match reader_step(true, ReaderEvent::Line("openwindow>>a,b".to_string())) {
        ReaderAction::Forward(e) => assert_eq!(e.payload(), "a,b"),
        _ => panic!("expected a forward"),
    }
    assert!(matches!(
        reader_step(true, ReaderEvent::Line("unknown>>2".to_string())),
        ReaderAction::ReadNext
    ));
    assert!(matches!(
        reader_step(true, ReaderEvent::Line("no delimiter".to_string())),
        ReaderAction::ReadNext
    ));
    assert!(matches!(
        reader_step(false, ReaderEvent::Line("workspace>>2".to_string())),
        ReaderAction::Exit
    ));
    assert!(matches!(reader_step(true, ReaderEvent::ReadFailed), ReaderAction::Exit));
    assert!(matches!(reader_step(true, ReaderEvent::Delivered), ReaderAction::ReadNext));
    assert!(matches!(reader_step(true, ReaderEvent::ChannelClosed), ReaderAction::Exit));
    assert!(matches!(reader_step(false, ReaderEvent::ChannelClosed), ReaderAction::Exit));
}

#[test]
fn workspace_and_window_from_json_values() {
    let doc = parse_json(r#"{"id":5,"name":"5","windows":1}"#).expect("json");
    let w = Workspace::from_json(&doc).expect("workspace");
    assert_eq!((w.id, w.windows), (5, 1));
    assert!(Window::from_json(&doc).is_none());
    let list = parse_json(r#"[{"address":"a","class":"c"}]"#).expect("json");
    let windows = Window::list_from_json(&list).expect("windows");
    assert_eq!(windows.len(), 1);
    assert_eq!(windows[0].address, "a");
    assert!(Workspace::list_from_json(&list).is_none());
}
