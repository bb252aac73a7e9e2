use amp_extras::diagnostics::{handle_diagnostics, BufferDiagnostics, RawDiagnostic};
use amp_extras::visible_files::{visible_uris, WindowBuffer};
use amp_extras::hub::Hub;
use amp_extras::json::{parse_json, Json};
use amp_extras::notifications::{
    send_append_to_prompt, send_diagnostics_changed, send_plugin_metadata, send_selection_changed,
    send_selection_if_changed, send_user_sent_message, send_visible_files_changed, ChangeCell,
};
use amp_extras::selection::{cursor_selection, handle_selection, Mark};
use amp_extras::visible_files::handle_visible_files;

fn s(x: &str) -> Json {
    Json::Str(x.to_string())
}

fn hub_with(n: usize) -> (Hub, Vec<u64>) {
    let mut hub = Hub::new();
    let mut ids = Vec::new();
    for _ in 0..n {
        let id = hub.next_client_id();
        hub.register(id);
        ids.push(id);
    }
    (hub, ids)
}

fn one(hub: &mut Hub, id: u64) -> Json {
    let frames = hub.take_outbound(id);
    assert_eq!(frames.len(), 1);
    parse_json(&frames[0]).unwrap()
}

#[test]
fn test_send_plugin_metadata() {
    let (mut hub, ids) = hub_with(1);
    assert!(send_plugin_metadata(&mut hub, "0.1.0", "/path/to/plugin").is_ok());
    let value = one(&mut hub, ids[0]);
    let m = value.get("serverNotification").unwrap().get("pluginMetadata").unwrap();
    assert_eq!(m.get("version"), Some(&s("0.1.0")));
    assert_eq!(m.get("pluginDirectory"), Some(&s("/path/to/plugin")));
}

#[test]
fn test_send_selection_changed() {
    let (mut hub, ids) = hub_with(1);
    assert!(send_selection_changed(&mut hub, "file:///test.txt", 10, 5, 10, 15, "selected").is_ok());
    let value = one(&mut hub, ids[0]);
    let n = value.get("serverNotification").unwrap().get("selectionDidChange").unwrap();
    assert_eq!(n.get("uri"), Some(&s("file:///test.txt")));
    let sel = match n.get("selections") {
        Some(Json::Array(a)) => &a[0],
        _ => panic!("selections missing"),
    };
    let range = sel.get("range").unwrap();
    assert_eq!(range.get("startLine"), Some(&Json::Int(10)));
    assert_eq!(range.get("startCharacter"), Some(&Json::Int(5)));
    assert_eq!(range.get("endLine"), Some(&Json::Int(10)));
    assert_eq!(range.get("endCharacter"), Some(&Json::Int(15)));
    assert_eq!(sel.get("content"), Some(&s("selected")));
}

#[test]
fn test_send_visible_files_changed() {
    let (mut hub, ids) = hub_with(1);
    let uris = vec!["file:///file1.txt".to_string(), "file:///file2.txt".to_string()];
    assert!(send_visible_files_changed(&mut hub, uris).is_ok());
    let value = one(&mut hub, ids[0]);
    let n = value.get("serverNotification").unwrap().get("visibleFilesDidChange").unwrap();
    assert_eq!(n.get("uris"), Some(&Json::Array(vec![s("file:///file1.txt"), s("file:///file2.txt")])));
}

#[test]
fn test_broadcast_to_multiple_clients() {
    let (mut hub, ids) = hub_with(2);
    assert!(send_plugin_metadata(&mut hub, "0.1.0", "/plugin").is_ok());
    let a = hub.take_outbound(ids[0]);
    let b = hub.take_outbound(ids[1]);
    assert_eq!(a.len(), 1);
    assert_eq!(a, b);
}

#[test]
fn test_send_user_sent_message() {
    let (mut hub, ids) = hub_with(1);
    assert!(send_user_sent_message(&mut hub, "Hello from Neovim!").is_ok());
    let value = one(&mut hub, ids[0]);
    let n = value.get("serverNotification").unwrap().get("userSentMessage").unwrap();
    assert_eq!(n.get("message"), Some(&s("Hello from Neovim!")));
}

#[test]
fn test_send_append_to_prompt() {
    let (mut hub, ids) = hub_with(1);
    assert!(send_append_to_prompt(&mut hub, "@file.rs#L10-L20").is_ok());
    let value = one(&mut hub, ids[0]);
    let n = value.get("serverNotification").unwrap().get("appendToPrompt").unwrap();
    assert_eq!(n.get("message"), Some(&s("@file.rs#L10-L20")));
}

#[test]
fn test_send_user_sent_message_empty() {
    let (mut hub, ids) = hub_with(1);
    send_user_sent_message(&mut hub, "").unwrap();
    let value = one(&mut hub, ids[0]);
    let n = value.get("serverNotification").unwrap().get("userSentMessage").unwrap();
    assert_eq!(n.get("message"), Some(&s("")));
}

#[test]
fn test_send_append_to_prompt_multiline() {
    let (mut hub, ids) = hub_with(1);
    let multiline_text = "Line 1\nLine 2\nLine 3";
    assert!(send_append_to_prompt(&mut hub, multiline_text).is_ok());
    let value = one(&mut hub, ids[0]);
    let n = value.get("serverNotification").unwrap().get("appendToPrompt").unwrap();
    assert_eq!(n.get("message"), Some(&s(multiline_text)));
}

#[test]
fn test_user_messages_broadcast_to_all_clients() {
    let (mut hub, ids) = hub_with(2);
    assert!(send_user_sent_message(&mut hub, "test message").is_ok());
    for id in ids {
        let v = one(&mut hub, id);
        let n = v.get("serverNotification").unwrap().get("userSentMessage").unwrap();
        assert_eq!(n.get("message"), Some(&s("test message")));
    }
}

#[test]
fn diagnostics_changed_carries_entries() {
    let (mut hub, ids) = hub_with(1);
    send_diagnostics_changed(&mut hub, vec![Json::Object(vec![("uri".to_string(), s("file:///x"))])]).unwrap();
    let v = one(&mut hub, ids[0]);
    let n = v.get("serverNotification").unwrap().get("diagnosticsDidChange").unwrap();
    assert_eq!(n.get("entries"), Some(&Json::Array(vec![Json::Object(vec![("uri".to_string(), s("file:///x"))])])));
}

#[test]
fn identical_selection_is_sent_once() {
    let (mut hub, ids) = hub_with(1);
    let mut cell = ChangeCell::new();
    let state = cursor_selection("file:///a.rs", Mark { row: 3, col: 4 });
    assert!(handle_selection(&mut cell, &mut hub, &state));
    assert!(!handle_selection(&mut cell, &mut hub, &state));
    let frames = hub.take_outbound(ids[0]);
    assert_eq!(frames.len(), 1);
    let v = parse_json(&frames[0]).unwrap();
    let n = v.get("serverNotification").unwrap().get("selectionDidChange").unwrap();
    let sel = match n.get("selections") {
        Some(Json::Array(a)) => &a[0],
        _ => panic!("selections missing"),
    };
    assert_eq!(sel.get("range").unwrap().get("startLine"), Some(&Json::Int(2)));
    assert_eq!(sel.get("content"), Some(&s("")));
}

#[test]
fn alternating_selection_sends_each() {
    let (mut hub, ids) = hub_with(1);
    let mut cell = ChangeCell::new();
    assert!(send_selection_if_changed(&mut cell, &mut hub, "file:///a", 0, 0, 0, 0, ""));
    assert!(send_selection_if_changed(&mut cell, &mut hub, "file:///a", 1, 0, 1, 0, ""));
    assert!(send_selection_if_changed(&mut cell, &mut hub, "file:///a", 0, 0, 0, 0, ""));
    assert_eq!(hub.take_outbound(ids[0]).len(), 3);
}

#[test]
fn visible_files_order_does_not_matter() {
    let (mut hub, ids) = hub_with(1);
    let mut cell = ChangeCell::new();
    assert!(handle_visible_files(&mut cell, &mut hub, vec!["file:///B.rs".to_string(), "file:///A.rs".to_string()]));
    assert!(!handle_visible_files(&mut cell, &mut hub, vec!["file:///A.rs".to_string(), "file:///B.rs".to_string()]));
    let v = one(&mut hub, ids[0]);
    let n = v.get("serverNotification").unwrap().get("visibleFilesDidChange").unwrap();
    assert_eq!(n.get("uris"), Some(&Json::Array(vec![s("file:///A.rs"), s("file:///B.rs")])));
}

#[test]
fn visible_files_are_sent_once_each() {
    let (mut hub, ids) = hub_with(1);
    let mut cell = ChangeCell::new();
    let uris = vec!["file:///B.rs".to_string(), "file:///A.rs".to_string(), "file:///B.rs".to_string()];
    assert!(handle_visible_files(&mut cell, &mut hub, uris));
    let v = one(&mut hub, ids[0]);
    let n = v.get("serverNotification").unwrap().get("visibleFilesDidChange").unwrap();
    assert_eq!(n.get("uris"), Some(&Json::Array(vec![s("file:///A.rs"), s("file:///B.rs")])));
}

#[test]
fn visible_uris_from_windows() {
    let wins = vec![
        WindowBuffer { path: "/p/b c.rs".to_string(), exists: true },
        WindowBuffer { path: "".to_string(), exists: false },
        WindowBuffer { path: "/p/gone.rs".to_string(), exists: false },
        WindowBuffer { path: "/p/b c.rs".to_string(), exists: true },
        WindowBuffer { path: "/p/a.rs".to_string(), exists: true },
    ];
    assert_eq!(visible_uris(&wins), vec!["file:///p/b%20c.rs".to_string(), "file:///p/a.rs".to_string()]);
}

#[test]
fn unchanged_diagnostics_are_sent_once() {
    let (mut hub, ids) = hub_with(1);
    let mut cell = ChangeCell::new();
    let bufs = vec![BufferDiagnostics {
        path: "/p/a.rs".to_string(),
        canonical_path: "/p/a.rs".to_string(),
        loaded: true,
        uri: "file:///p/a.rs".to_string(),
        diagnostics: vec![RawDiagnostic { lnum: 0, col: 0, end_lnum: None, end_col: None, severity: Some(1), message: "e".to_string() }],
        lines: vec!["x".to_string()],
        disk_lines: None,
    }];
    assert!(handle_diagnostics(&mut cell, &mut hub, &bufs));
    assert!(!handle_diagnostics(&mut cell, &mut hub, &bufs));
    let v = one(&mut hub, ids[0]);
    let n = v.get("serverNotification").unwrap().get("diagnosticsDidChange").unwrap();
    assert!(matches!(n.get("entries"), Some(Json::Array(a)) if a.len() == 1));
}
