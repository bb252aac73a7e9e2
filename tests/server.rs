use amp_extras::errors::AmpError;
use amp_extras::lifecycle::Server;

#[test]
fn test_stop_without_start() {
    let mut server = Server::new();
    let stopped = server.stop();
    assert!(stopped.is_none());
    assert!(!server.is_running());
}

#[test]
fn test_is_running_when_not_started() {
    let mut server = Server::new();
    server.stop();
    assert!(!server.is_running());
}

#[test]
fn test_get_hub_when_not_running() {
    let mut server = Server::new();
    server.stop();
    assert!(server.get_hub().is_none());
}

#[test]
fn start_returns_port_token_and_path() {
    let mut server = Server::new();
    let (port, token, path) = server
        .start(4242, "tok".to_string(), "/home/u/.local/share/amp/ide/4242.json".to_string())
        .unwrap();
    assert_eq!(port, 4242);
    assert_eq!(token, "tok");
    assert_eq!(path, "/home/u/.local/share/amp/ide/4242.json");
    assert!(server.is_running());
    assert_eq!(server.get_port(), Some(4242));
    assert_eq!(server.client_count(), 0);
}

#[test]
fn start_twice_is_already_running() {
    let mut server = Server::new();
    server.start(1000, "a".to_string(), "/p/1000.json".to_string()).unwrap();
    assert!(server.ensure_stopped().is_err());
    let second = server.start(1001, "b".to_string(), "/p/1001.json".to_string());
    assert_eq!(second, Err(AmpError::AlreadyRunning));
    assert_eq!(server.get_port(), Some(1000));
}

#[test]
fn stop_twice_does_not_error() {
    let mut server = Server::new();
    server.start(1000, "a".to_string(), "/p/1000.json".to_string()).unwrap();
    let first = server.stop().unwrap();
    assert!(first.shutdown);
    assert_eq!(first.lockfile_path, "/p/1000.json");
    assert!(server.stop().is_none());
    assert!(!server.is_running());
    assert_eq!(server.get_port(), None);
    server.start(1002, "c".to_string(), "/p/1002.json".to_string()).unwrap();
    assert_eq!(server.get_port(), Some(1002));
}
