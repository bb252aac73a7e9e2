use amp_extras::util::ct_eq;

#[test]
fn test_ct_eq_equal() {
    assert!(ct_eq("hello", "hello"));
    assert!(ct_eq("", ""));
}

#[test]
fn test_ct_eq_not_equal() {
    assert!(!ct_eq("hello", "world"));
    assert!(!ct_eq("hello", "hell"));
    assert!(!ct_eq("hello", "hello!"));
}

#[test]
fn test_ct_eq_different_lengths() {
    assert!(!ct_eq("short", "longer"));
    assert!(!ct_eq("", "not empty"));
}

#[test]
fn test_constant_time_comparison() {
    let token1 = "abcdefghijklmnop";
    let token2 = "abcdefghijklmnop";
    let token3 = "xxxxxxxxxxxxxxxx";
    assert!(ct_eq(token1, token2));
    assert!(!ct_eq(token1, token3));
}

#[test]
fn ct_eq_differs_only_in_last_byte() {
    assert!(!ct_eq("abcdefghijklmnoq", "abcdefghijklmnop"));
    assert!(!ct_eq("bbcdefghijklmnop", "abcdefghijklmnop"));
}

#[test]
fn ct_eq_unicode() {
    assert!(ct_eq("héllo", "héllo"));
    assert!(!ct_eq("héllo", "hello"));
}
