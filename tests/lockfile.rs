use amp_extras::json::{parse_json, Json};
use amp_extras::lockfile::{generate_token, ide_name, lockfile_dir, lockfile_dir_in, lockfile_path, Lockfile};

#[test]
fn test_generate_token_length() {
    let token = generate_token(32);
    assert_eq!(token.len(), 32);
}

#[test]
fn test_generate_token_charset() {
    let token = generate_token(100);
    assert!(token.chars().all(|c| c.is_ascii_alphanumeric()));
}

#[test]
fn test_generate_token_randomness() {
    let token1 = generate_token(32);
    let token2 = generate_token(32);
    assert_ne!(token1, token2);
}

#[test]
fn empty_token() {
    assert_eq!(generate_token(0), "");
}

#[test]
fn test_lockfile_dir() {
    let dir = lockfile_dir().unwrap();
    assert!(dir.ends_with("amp/ide"));
    assert_eq!(lockfile_dir_in("/home/u"), "/home/u/.local/share/amp/ide");
}

#[test]
fn lockfile_path_uses_port() {
    assert_eq!(lockfile_path("/home/u/.local/share/amp/ide", 12345), "/home/u/.local/share/amp/ide/12345.json");
}

#[test]
fn ide_name_formats_version() {
    assert_eq!(ide_name(0, 10, 1), "nvim 0.10.1");
    assert_eq!(ide_name(0, 0, 0), "nvim");
}

#[test]
fn test_lockfile_json_format() {
    let lockfile = Lockfile {
        port: 54321,
        auth_token: "abc123".to_string(),
        pid: 99999,
        workspace_folders: vec!["/home/user".to_string()],
        ide_name: "nvim 0.10".to_string(),
    };
    let json = lockfile.to_text();
    assert!(json.contains("\"port\":"));
    assert!(json.contains("\"authToken\":"));
    assert!(json.contains("\"pid\":"));
    assert!(json.contains("\"workspaceFolders\":"));
    assert!(json.contains("\"ideName\":"));
    let v = parse_json(&json).unwrap();
    assert_eq!(v.get("port"), Some(&Json::Int(54321)));
    assert_eq!(v.get("authToken"), Some(&Json::Str("abc123".to_string())));
    assert_eq!(v.get("workspaceFolders"), Some(&Json::Array(vec![Json::Str("/home/user".to_string())])));
}
