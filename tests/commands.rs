use amp_extras::commands::{
    dispatch, file_reference, line_reference, list_commands, ping_command, selection_reference,
    send_buffer, send_file_ref, send_line_ref, send_selection, send_selection_ref, server_status,
    SendFileRefResponse, SendLineRefResponse, SendSelectionParams, SendSelectionRefParams,
    SendSelectionRefResponse, SendSelectionResponse, SendBufferResponse,
};
use amp_extras::errors::AmpError;
use amp_extras::json::Json;
use amp_extras::lifecycle::Server;

fn obj(pairs: Vec<(&str, Json)>) -> Json {
    Json::Object(pairs.into_iter().map(|(k, v)| (k.to_string(), v)).collect())
}

fn s(x: &str) -> Json {
    Json::Str(x.to_string())
}

fn running_server() -> Server {
    let mut server = Server::new();
    server.start(5000, "t".to_string(), "/p/5000.json".to_string()).unwrap();
    let hub = &mut server.handle.as_mut().unwrap().hub;
    let id = hub.next_client_id();
    hub.register(id);
    server
}

fn drain(server: &mut Server) -> Vec<String> {
    let hub = &mut server.handle.as_mut().unwrap().hub;
    hub.take_outbound(1)
}

#[test]
fn test_list_commands_includes_ping() {
    let commands = list_commands();
    assert!(commands.contains(&"ping".to_string()));
}

#[test]
fn test_list_commands_is_sorted() {
    let commands = list_commands();
    let mut sorted = commands.clone();
    sorted.sort();
    assert_eq!(commands, sorted);
}

#[test]
fn test_list_commands_not_empty() {
    let commands = list_commands();
    assert!(!commands.is_empty());
}

#[test]
fn send_file_ref_test_reference_format() {
    let relative_path = "src/lib.rs";
    let expected = "@src/lib.rs";
    let formatted = file_reference(relative_path);
    assert_eq!(formatted, expected);
}

#[test]
fn test_reference_with_special_chars() {
    let relative_path = "my file (2).rs";
    let expected = "@my file (2).rs";
    let formatted = file_reference(relative_path);
    assert_eq!(formatted, expected);
}

#[test]
fn send_line_ref_test_reference_format() {
    let relative_path = "src/lib.rs";
    let line = 42;
    let expected = "@src/lib.rs#L42";
    let formatted = line_reference(relative_path, line);
    assert_eq!(formatted, expected);
}

#[test]
fn test_reference_format_large_line() {
    let relative_path = "src/main.rs";
    let line = 9999;
    let expected = "@src/main.rs#L9999";
    let formatted = line_reference(relative_path, line);
    assert_eq!(formatted, expected);
}

#[test]
fn test_reference_format_range() {
    let file_path = "src/main.rs";
    let start_line = 10;
    let end_line = 20;
    let expected = "@src/main.rs#L10-L20";
    let formatted = selection_reference(file_path, start_line, end_line);
    assert_eq!(formatted, expected);
}

#[test]
fn test_reference_format_single_line() {
    let file_path = "src/lib.rs";
    let line = 5;
    let expected = "@src/lib.rs#L5";
    let formatted = selection_reference(file_path, line, line);
    assert_eq!(formatted, expected);
}

#[test]
fn reference_line_zero_and_large() {
    assert_eq!(line_reference("a", 0), "@a#L0");
    assert_eq!(line_reference("a", u64::MAX), "@a#L18446744073709551615");
}

#[test]
fn test_dispatch_ping() {
    let args = obj(vec![("message", s("hello"))]);
    let value = dispatch("ping", args).unwrap();
    assert_eq!(value.get("pong"), Some(&Json::Bool(true)));
    assert_eq!(value.get("message"), Some(&s("hello")));
}

#[test]
fn mod_test_dispatch_unknown_command() {
    let result = dispatch("unknown.command", obj(vec![]));
    match result {
        Err(AmpError::CommandNotFound(cmd)) => assert_eq!(cmd, "unknown.command"),
        _ => panic!("Expected CommandNotFound error"),
    }
}

#[test]
fn test_dispatch_with_empty_args() {
    let result = dispatch("ping", obj(vec![])).unwrap();
    assert_eq!(result.get("pong"), Some(&Json::Bool(true)));
}

#[test]
fn test_dispatch_with_null_args() {
    let result = dispatch("ping", Json::Null).unwrap();
    assert_eq!(result.get("pong"), Some(&Json::Bool(true)));
}

#[test]
fn test_ping_adds_pong_field() {
    let result = ping_command(obj(vec![("test", s("value"))]));
    assert_eq!(result.get("pong"), Some(&Json::Bool(true)));
    assert_eq!(result.get("test"), Some(&s("value")));
}

#[test]
fn test_ping_with_empty_object() {
    let result = ping_command(obj(vec![]));
    assert_eq!(result.get("pong"), Some(&Json::Bool(true)));
}

#[test]
fn test_ping_with_non_object() {
    let result = ping_command(Json::Int(42));
    assert_eq!(result.get("pong"), Some(&Json::Bool(true)));
}

#[test]
fn test_ping_preserves_fields() {
    let args = obj(vec![("field1", s("value1")), ("field2", Json::Int(42)), ("field3", Json::Bool(true))]);
    let result = ping_command(args);
    assert_eq!(result.get("pong"), Some(&Json::Bool(true)));
    assert_eq!(result.get("field1"), Some(&s("value1")));
    assert_eq!(result.get("field2"), Some(&Json::Int(42)));
    assert_eq!(result.get("field3"), Some(&Json::Bool(true)));
}

#[test]
fn ping_replaces_existing_pong() {
    let result = ping_command(obj(vec![("pong", Json::Bool(false))]));
    assert_eq!(result, obj(vec![("pong", Json::Bool(true))]));
}

#[test]
fn send_selection_ref_test_params_deserialize() {
    let params = obj(vec![("start_line", Json::Int(10)), ("end_line", Json::Int(20))]);
    let parsed = SendSelectionRefParams::from_json(&params).unwrap();
    assert_eq!(parsed.start_line, 10);
    assert_eq!(parsed.end_line, 20);
}

#[test]
fn send_selection_ref_test_params_deserialize_single_line() {
    let params = obj(vec![("start_line", Json::Int(5)), ("end_line", Json::Int(5))]);
    let parsed = SendSelectionRefParams::from_json(&params).unwrap();
    assert_eq!(parsed.start_line, 5);
    assert_eq!(parsed.end_line, 5);
}

#[test]
fn send_selection_ref_test_params_missing_fields() {
    let params = obj(vec![("start_line", Json::Int(10))]);
    assert!(SendSelectionRefParams::from_json(&params).is_err());
}

#[test]
fn send_selection_test_params_deserialize() {
    let params = obj(vec![("start_line", Json::Int(10)), ("end_line", Json::Int(20))]);
    let parsed = SendSelectionParams::from_json(&params).unwrap();
    assert_eq!(parsed.start_line, 10);
    assert_eq!(parsed.end_line, 20);
}

#[test]
fn send_selection_test_params_deserialize_single_line() {
    let params = obj(vec![("start_line", Json::Int(5)), ("end_line", Json::Int(5))]);
    let parsed = SendSelectionParams::from_json(&params).unwrap();
    assert_eq!(parsed.start_line, 5);
    assert_eq!(parsed.end_line, 5);
}

#[test]
fn send_selection_test_params_missing_fields() {
    let params = obj(vec![("start_line", Json::Int(10))]);
    assert!(SendSelectionParams::from_json(&params).is_err());
}

#[test]
fn send_file_ref_test_response_serialize() {
    let json = SendFileRefResponse { success: true, reference: "@src/main.rs".to_string() }.to_json();
    assert_eq!(json.get("success"), Some(&Json::Bool(true)));
    assert_eq!(json.get("reference"), Some(&s("@src/main.rs")));
}

#[test]
fn send_line_ref_test_response_serialize() {
    let json = SendLineRefResponse { success: true, reference: "@src/main.rs#L10".to_string() }.to_json();
    assert_eq!(json.get("success"), Some(&Json::Bool(true)));
    assert_eq!(json.get("reference"), Some(&s("@src/main.rs#L10")));
}

#[test]
fn send_selection_ref_test_response_serialize() {
    let json = SendSelectionRefResponse { success: true, reference: "@src/main.rs#L10-L20".to_string() }.to_json();
    assert_eq!(json.get("success"), Some(&Json::Bool(true)));
    assert_eq!(json.get("reference"), Some(&s("@src/main.rs#L10-L20")));
}

#[test]
fn send_selection_test_response_serialize() {
    let json = SendSelectionResponse { success: true }.to_json();
    assert_eq!(json.get("success"), Some(&Json::Bool(true)));
}

#[test]
fn send_buffer_test_response_serialize() {
    let json = SendBufferResponse { success: true }.to_json();
    assert_eq!(json.get("success"), Some(&Json::Bool(true)));
}

#[test]
fn test_send_file_ref_without_server() {
    let mut server = Server::new();
    assert!(send_file_ref(&mut server, "/proj/src/main.rs", "/proj").is_err());
}

#[test]
fn send_file_ref_sends_relative_reference() {
    let mut server = running_server();
    let r = send_file_ref(&mut server, "/proj/src/main.rs", "/proj").unwrap();
    assert_eq!(r.get("reference"), Some(&s("@src/main.rs")));
    let frames = drain(&mut server);
    assert_eq!(frames, vec![r#"{"serverNotification":{"appendToPrompt":{"message":"@src/main.rs"}}}"#.to_string()]);
}

#[test]
fn send_file_ref_unnamed_buffer_is_error() {
    let mut server = running_server();
    assert!(send_file_ref(&mut server, "", "/proj").is_err());
    assert!(drain(&mut server).is_empty());
}

#[test]
fn send_line_ref_outside_cwd_keeps_absolute_path() {
    let mut server = running_server();
    let r = send_line_ref(&mut server, "/other/x.rs", "/proj", 7).unwrap();
    assert_eq!(r.get("reference"), Some(&s("@/other/x.rs#L7")));
}

#[test]
fn send_selection_ref_formats_range() {
    let mut server = running_server();
    let params = obj(vec![("start_line", Json::Int(10)), ("end_line", Json::Int(20))]);
    let r = send_selection_ref(&mut server, &params, "/proj/src/main.rs", "/proj/").unwrap();
    assert_eq!(r.get("reference"), Some(&s("@src/main.rs#L10-L20")));
}

#[test]
fn test_send_selection_ref_without_server() {
    let mut server = Server::new();
    let params = obj(vec![("start_line", Json::Int(10)), ("end_line", Json::Int(20))]);
    assert!(send_selection_ref(&mut server, &params, "/proj/a.rs", "/proj").is_err());
}

#[test]
fn send_selection_sends_line_range() {
    let mut server = running_server();
    let lines = vec!["one".to_string(), "two".to_string(), "three".to_string()];
    let params = obj(vec![("start_line", Json::Int(2)), ("end_line", Json::Int(3))]);
    send_selection(&mut server, &params, &lines).unwrap();
    let frames = drain(&mut server);
    assert_eq!(frames, vec![r#"{"serverNotification":{"appendToPrompt":{"message":"two\nthree"}}}"#.to_string()]);
}

#[test]
fn send_selection_range_outside_buffer_is_invalid_args() {
    let mut server = running_server();
    let lines = vec!["one".to_string()];
    let params = obj(vec![("start_line", Json::Int(0)), ("end_line", Json::Int(1))]);
    assert!(matches!(send_selection(&mut server, &params, &lines), Err(AmpError::InvalidArgs { .. })));
    let params = obj(vec![("start_line", Json::Int(1)), ("end_line", Json::Int(2))]);
    assert!(matches!(send_selection(&mut server, &params, &lines), Err(AmpError::InvalidArgs { .. })));
}

#[test]
fn send_buffer_sends_whole_buffer() {
    let mut server = running_server();
    let lines = vec!["a".to_string(), "b".to_string()];
    send_buffer(&mut server, &lines).unwrap();
    let frames = drain(&mut server);
    assert_eq!(frames, vec![r#"{"serverNotification":{"appendToPrompt":{"message":"a\nb"}}}"#.to_string()]);
}

#[test]
fn test_send_buffer_accepts_empty_params() {
    let mut server = Server::new();
    assert!(send_buffer(&mut server, &vec![]).is_err());
}

#[test]
fn test_server_status_when_stopped() {
    let server = Server::new();
    let status = server_status(&server);
    assert_eq!(status.get("running"), Some(&Json::Bool(false)));
    assert_eq!(status.get("port"), Some(&Json::Null));
    assert_eq!(status.get("clients"), Some(&Json::Int(0)));
}

#[test]
fn server_status_when_running() {
    let server = running_server();
    let status = server_status(&server);
    assert_eq!(status.get("running"), Some(&Json::Bool(true)));
    assert_eq!(status.get("port"), Some(&Json::Int(5000)));
    assert_eq!(status.get("clients"), Some(&Json::Int(1)));
}
