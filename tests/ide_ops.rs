use amp_extras::errors::AmpError;
use amp_extras::diagnostics::get_diagnostics_result;
use amp_extras::ide_ops::{
    authenticate, buffer_content, edit_file_lines, edit_file_params, edit_file_result, get_diagnostics_params,
    map_severity, normalize_path, notify_params, ping, ping_now, read_file_params, read_file_result, to_relative,
};
use amp_extras::json::Json;

fn obj(pairs: Vec<(&str, Json)>) -> Json {
    Json::Object(pairs.into_iter().map(|(k, v)| (k.to_string(), v)).collect())
}

fn s(x: &str) -> Json {
    Json::Str(x.to_string())
}

#[test]
fn test_ping_returns_pong() {
    let result = ping_now(obj(vec![])).unwrap();
    assert_eq!(result.get("pong"), Some(&Json::Bool(true)));
    assert!(result.get("ts").is_some());
}

#[test]
fn test_ping_with_message() {
    let result = ping_now(obj(vec![("message", s("hello"))])).unwrap();
    assert_eq!(result.get("message"), Some(&s("hello")));
}

#[test]
fn test_ping_without_message() {
    let result = ping_now(obj(vec![("other", s("data"))])).unwrap();
    assert_eq!(result.get("pong"), Some(&Json::Bool(true)));
    assert!(result.get("ts").is_some());
}

#[test]
fn test_ping_timestamp_format() {
    let result = ping_now(obj(vec![])).unwrap();
    let ts = result.get_str("ts").unwrap();
    assert!(chrono::DateTime::parse_from_rfc3339(&ts).is_ok());
    assert!(ts.ends_with("+00:00"));
}

#[test]
fn ping_echoes_given_time_stamp() {
    let result = ping(obj(vec![]), "2025-01-11T12:00:00+00:00").unwrap();
    assert_eq!(result.get_str("ts"), Some("2025-01-11T12:00:00+00:00".to_string()));
    assert_eq!(ping(Json::Null, "t").unwrap().get("pong"), Some(&Json::Bool(true)));
}

#[test]
fn test_authenticate_success() {
    let result = authenticate(obj(vec![])).unwrap();
    assert_eq!(result.get("authenticated"), Some(&Json::Bool(true)));
}

#[test]
fn test_authenticate_with_params() {
    let result = authenticate(obj(vec![("token", s("abc123"))])).unwrap();
    assert_eq!(result.get("authenticated"), Some(&Json::Bool(true)));
}

#[test]
fn ide_ops_test_get_diagnostics_empty() {
    let params = obj(vec![("path", s("/tmp/test.txt"))]);
    let path = get_diagnostics_params(&params).unwrap();
    assert_eq!(path, Some("/tmp/test.txt".to_string()));
    let result = get_diagnostics_result(&vec![], path.as_deref(), path.as_deref());
    assert_eq!(result.get("entries"), Some(&Json::Array(vec![])));
}

#[test]
fn ide_ops_test_get_diagnostics_no_params() {
    let path = get_diagnostics_params(&obj(vec![])).unwrap();
    assert_eq!(path, None);
    let result = get_diagnostics_result(&vec![], None, None);
    assert!(matches!(result.get("entries"), Some(Json::Array(_))));
}

#[test]
fn diagnostics_path_argument_types() {
    assert_eq!(get_diagnostics_params(&obj(vec![("path", Json::Null)])).unwrap(), None);
    assert!(get_diagnostics_params(&obj(vec![("path", Json::Int(3))])).is_err());
}

#[test]
fn ide_ops_test_read_file_missing_path_param() {
    let result = read_file_params(&obj(vec![]));
    assert!(result.is_err());
    match result {
        Err(AmpError::InvalidArgs { command, .. }) => assert_eq!(command, "ide/readFile"),
        _ => panic!("Expected InvalidArgs"),
    }
}

#[test]
fn ide_ops_test_read_file_invalid_params() {
    let result = read_file_params(&obj(vec![("path", Json::Int(123))]));
    assert!(matches!(result, Err(AmpError::InvalidArgs { .. })));
}

#[test]
fn ide_ops_test_edit_file_missing_params() {
    let result = edit_file_params(&obj(vec![("path", s("/tmp/test.txt"))]));
    assert!(result.is_err());
    match result {
        Err(AmpError::InvalidArgs { command, .. }) => assert_eq!(command, "ide/editFile"),
        _ => panic!("Expected InvalidArgs"),
    }
}

#[test]
fn edit_file_params_accepted() {
    assert_eq!(
        edit_file_params(&obj(vec![("path", s("/a")), ("content", s("x"))])).unwrap(),
        ("/a".to_string(), "x".to_string())
    );
}

#[test]
fn ide_ops_test_nvim_notify_missing_message() {
    let result = notify_params(&obj(vec![]));
    assert!(result.is_err());
    match result {
        Err(AmpError::InvalidArgs { command, .. }) => assert_eq!(command, "nvim/notify"),
        _ => panic!("Expected InvalidArgs"),
    }
}

#[test]
fn ide_ops_test_nvim_notify_invalid_params() {
    let result = notify_params(&obj(vec![("message", Json::Int(123))]));
    assert!(matches!(result, Err(AmpError::InvalidArgs { .. })));
}

#[test]
fn test_nvim_notify_parses_params() {
    let result = notify_params(&obj(vec![("message", s("Test notification"))]));
    assert!(result.is_ok());
}

#[test]
fn read_result_shape() {
    let r = read_file_result("alpha".to_string());
    assert_eq!(r, obj(vec![("success", Json::Bool(true)), ("content", s("alpha")), ("encoding", s("utf-8"))]));
}

#[test]
fn edit_result_message() {
    let r = edit_file_result("/tmp/f.txt", 123);
    assert_eq!(r.get("message"), Some(&s("Wrote 123 bytes to /tmp/f.txt")));
    assert_eq!(r.get("appliedChanges"), Some(&Json::Bool(true)));
    assert_eq!(r.get("success"), Some(&Json::Bool(true)));
}

#[test]
fn edit_then_read_returns_content_verbatim() {
    for content in ["beta\n", "", "a\nb", "\n\n", "one line"] {
        let lines = edit_file_lines(content);
        assert!(!lines.is_empty());
        assert_eq!(buffer_content(&lines), content);
    }
    assert_eq!(edit_file_lines("beta\n"), vec!["beta".to_string(), String::new()]);
}

#[test]
fn severity_names() {
    assert_eq!(map_severity(Some(1)), "ERROR");
    assert_eq!(map_severity(Some(2)), "WARNING");
    assert_eq!(map_severity(Some(3)), "INFO");
    assert_eq!(map_severity(Some(4)), "HINT");
    assert_eq!(map_severity(Some(9)), "INFO");
    assert_eq!(map_severity(None), "INFO");
}

#[test]
fn normalize_relative_and_absolute() {
    assert_eq!(normalize_path("/abs/x", "/cwd"), "/abs/x");
    assert_eq!(normalize_path("rel/x", "/cwd"), "/cwd/rel/x");
    assert_eq!(normalize_path("rel", "/"), "/rel");
    let once = normalize_path("a/b", "/w");
    assert_eq!(normalize_path(&once, "/w"), once);
}

#[test]
fn to_relative_strips_the_working_directory() {
    assert_eq!(to_relative("/home/user/project/src/main.rs", "/home/user/project"), "src/main.rs");
    assert_eq!(to_relative("/home/user/project/main.rs", "/home/user/project/"), "main.rs");
    assert_eq!(to_relative("/etc/hosts", "/home/user/project"), "/etc/hosts");
    assert_eq!(to_relative("/home/user/projectx/a.rs", "/home/user/project"), "/home/user/projectx/a.rs");
}
