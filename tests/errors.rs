use amp_extras::errors::AmpError;

#[test]
fn test_error_display() {
    let err = AmpError::CommandNotFound("test.command".to_string());
    assert_eq!(err.to_message(), "Command not found: test.command");
}

#[test]
fn test_user_message() {
    let err = AmpError::CommandNotFound("test.command".to_string());
    assert!(err.user_message().contains("test.command"));
    assert!(err.user_message().contains("AmpHelp"));
}

#[test]
fn test_error_category() {
    assert_eq!(AmpError::CommandNotFound("test".to_string()).category(), "command");
    assert_eq!(
        AmpError::InvalidArgs { command: "test".to_string(), reason: "bad".to_string() }.category(),
        "arguments"
    );
}

#[test]
fn test_from_string() {
    let err = AmpError::Other("test error".to_string());
    assert_eq!(err.to_message(), "test error");
}

#[test]
fn wire_codes_follow_the_taxonomy() {
    assert_eq!(AmpError::SerdeError("x".into()).to_jsonrpc_code(), -32700);
    assert_eq!(AmpError::InvalidRequest("x".into()).to_jsonrpc_code(), -32600);
    assert_eq!(AmpError::CommandNotFound("x".into()).to_jsonrpc_code(), -32601);
    assert_eq!(AmpError::InvalidArgs { command: "c".into(), reason: "r".into() }.to_jsonrpc_code(), -32602);
    assert_eq!(AmpError::Other("x".into()).to_jsonrpc_code(), -32603);
    assert_eq!(AmpError::WebSocketError("x".into()).to_jsonrpc_code(), -32001);
    assert_eq!(AmpError::DatabaseError("x".into()).to_jsonrpc_code(), -32002);
    assert_eq!(AmpError::IoError("x".into()).to_jsonrpc_code(), -32003);
    assert_eq!(AmpError::AmpCliError("x".into()).to_jsonrpc_code(), -32004);
    assert_eq!(AmpError::ConfigError("x".into()).to_jsonrpc_code(), -32005);
    assert_eq!(AmpError::HubError("x".into()).to_jsonrpc_code(), -32006);
    assert_eq!(AmpError::NotificationError("x".into()).to_jsonrpc_code(), -32007);
    assert_eq!(AmpError::ConversionError("x".into()).to_jsonrpc_code(), -32008);
}

#[test]
fn invalid_args_message() {
    let err = AmpError::InvalidArgs { command: "ide/readFile".to_string(), reason: "missing field `path`".to_string() };
    assert_eq!(err.to_message(), "Invalid arguments for command 'ide/readFile': missing field `path`");
    assert_eq!(err.user_message(), "Invalid arguments for 'ide/readFile': missing field `path`");
    assert_eq!(AmpError::AlreadyRunning.to_message(), "Server already running");
}
