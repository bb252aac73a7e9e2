use amp_extras::ide_ops::to_relative;
use amp_extras::uri::{from_uri, to_uri};

#[test]
fn test_to_uri() {
    let uri = to_uri("/tmp/test.txt");
    assert!(uri.is_ok());
    assert_eq!(uri.unwrap(), "file:///tmp/test.txt");
}

#[test]
fn test_to_uri_with_spaces() {
    let uri = to_uri("/tmp/my file.txt");
    assert!(uri.is_ok());
    assert_eq!(uri.unwrap(), "file:///tmp/my%20file.txt");
}

#[test]
fn test_from_uri() {
    let path = from_uri("file:///tmp/test.txt");
    assert!(path.is_ok());
    assert_eq!(path.unwrap(), "/tmp/test.txt");
}

#[test]
fn path_test_from_uri_invalid() {
    let result = from_uri("http://example.com/file.txt");
    assert!(result.is_err());
}

#[test]
fn test_roundtrip() {
    let path = "/home/user/project/src/main.rs";
    let uri = to_uri(path);
    assert!(uri.is_ok());
    let back = from_uri(&uri.unwrap());
    assert!(back.is_ok());
    assert_eq!(back.unwrap(), path);
}

#[test]
fn test_uri_from_path() {
    let uri = to_uri("/tmp/test_file.rs").unwrap();
    assert!(uri.starts_with("file://"));
    assert!(uri.contains("test_file.rs"));
}

#[test]
fn test_uri_from_path_with_spaces() {
    let uri = to_uri("/tmp/test file with spaces.rs").unwrap();
    assert!(uri.starts_with("file://"));
    assert!(uri.contains("%20"));
}

#[test]
fn test_uri_roundtrip() {
    let path = "/tmp/roundtrip_test.rs";
    let uri = to_uri(path).unwrap();
    let back = from_uri(&uri).unwrap();
    assert_eq!(path, back);
}

#[test]
fn test_uri_roundtrip_with_special_chars() {
    let path = "/tmp/special chars & symbols.rs";
    let uri = to_uri(path).unwrap();
    let back = from_uri(&uri).unwrap();
    assert_eq!(path, back);
}

#[test]
fn uri_test_to_relative() {
    let relative = to_relative("/tmp/src/main.rs", "/tmp");
    assert!(relative == "src/main.rs" || relative.contains("/tmp/src/main.rs"));
    assert_eq!(relative, "src/main.rs");
}

#[test]
fn test_to_relative_same_dir() {
    let relative = to_relative("/tmp/file.rs", "/tmp");
    assert!(relative == "file.rs" || relative.contains("/tmp/file.rs"));
    assert_eq!(relative, "file.rs");
}

#[test]
fn test_to_relative_outside_cwd() {
    let relative = to_relative("/home/user/file.rs", "/tmp");
    assert!(relative.starts_with("/") || relative.starts_with("../"));
}

#[test]
fn uri_test_from_uri_invalid() {
    let result = from_uri("http://example.com/file.txt");
    assert!(result.is_err());
}

#[test]
fn roundtrip_with_unicode_and_reserved_characters() {
    for p in ["/tmp/my file.txt", "/tmp/ünïcødé/ファイル.rs", "/tmp/a#b?c.txt", "/tmp/100%.txt"] {
        let uri = to_uri(p).unwrap();
        assert!(uri.starts_with("file://"));
        assert!(!uri.contains(' '));
        assert_eq!(from_uri(&uri).unwrap(), p);
    }
}

#[test]
fn other_schemes_are_not_file_uris() {
    assert!(from_uri("http://localhost/x").is_err());
    assert!(to_uri("relative/x.txt").is_err());
}
