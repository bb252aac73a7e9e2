use amp_extras::auth::{accept_client, check_handshake, Handshake};
use amp_extras::connection::{METADATA_DELAY_MS, STATE_DELAY_MS};
use amp_extras::hub::Hub;

#[test]
fn test_successful_handshake() {
    assert_eq!(check_handshake(None, "/?auth=test_token_12345", "test_token_12345"), Handshake::Accept);
    assert_eq!(check_handshake(Some("127.0.0.1:4000"), "/?auth=test_token_12345", "test_token_12345"), Handshake::Accept);
}

#[test]
fn test_handshake_wrong_token() {
    let d = check_handshake(None, "/?auth=wrong_token", "correct_token");
    assert_eq!(d, Handshake::Unauthorized);
    assert_eq!(d.status(), 401);
}

#[test]
fn test_handshake_missing_token() {
    let d = check_handshake(None, "/", "required_token");
    assert_eq!(d, Handshake::Unauthorized);
    assert_eq!(d.status(), 401);
    assert_eq!(check_handshake(None, "/?other=required_token", "required_token"), Handshake::Unauthorized);
}

#[test]
fn handshake_decodes_percent_escapes_and_takes_first_auth() {
    assert_eq!(check_handshake(None, "/?auth=a%20b", "a b"), Handshake::Accept);
    assert_eq!(check_handshake(None, "/?auth=x&auth=tok", "tok"), Handshake::Unauthorized);
}

#[test]
fn wrong_token_registers_nobody() {
    let mut hub = Hub::new();
    let d = check_handshake(None, "/?auth=wrong", "right");
    assert!(accept_client(&mut hub, d).is_none());
    assert_eq!(hub.client_count(), 0);
}

#[test]
fn right_token_registers_and_schedules_initial_state() {
    let mut hub = Hub::new();
    let d = check_handshake(None, "/?auth=right", "right");
    let s = accept_client(&mut hub, d).unwrap();
    assert_eq!(hub.client_count(), 1);
    assert_eq!(s.metadata_delay_ms, METADATA_DELAY_MS);
    assert_eq!(s.metadata_delay_ms, 200);
    assert_eq!(s.state_delay_ms, STATE_DELAY_MS);
    assert_eq!(s.state_delay_ms, 50);
    hub.broadcast("hello");
    assert_eq!(hub.take_outbound(s.client), vec!["hello".to_string()]);
}
