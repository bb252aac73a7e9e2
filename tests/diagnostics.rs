use amp_extras::diagnostics::{get_diagnostics_result, BufferDiagnostics, RawDiagnostic};
use amp_extras::json::Json;

fn s(x: &str) -> Json {
    Json::Str(x.to_string())
}

fn diag(lnum: u32, col: u32, severity: Option<u8>, message: &str) -> RawDiagnostic {
    RawDiagnostic { lnum, col, end_lnum: None, end_col: None, severity, message: message.to_string() }
}

fn buffer(path: &str, diagnostics: Vec<RawDiagnostic>) -> BufferDiagnostics {
    BufferDiagnostics {
        path: path.to_string(),
        canonical_path: path.to_string(),
        loaded: true,
        uri: format!("file://{}", path),
        diagnostics,
        lines: vec!["fn main() {".to_string(), "    let x = 1;".to_string()],
        disk_lines: None,
    }
}

fn entries(v: &Json) -> Vec<&Json> {
    match v.get("entries") {
        Some(Json::Array(a)) => a.iter().collect(),
        _ => panic!("entries missing"),
    }
}

#[test]
fn test_diagnostics_with_errors() {
    let bufs = vec![buffer("/p/a.rs", vec![diag(1, 8, Some(1), "unused variable")])];
    let r = get_diagnostics_result(&bufs, None, None);
    let e = entries(&r);
    assert_eq!(e.len(), 1);
    assert_eq!(e[0].get("uri"), Some(&s("file:///p/a.rs")));
    let d = match e[0].get("diagnostics") {
        Some(Json::Array(a)) => &a[0],
        _ => panic!("diagnostics missing"),
    };
    assert_eq!(d.get("severity"), Some(&s("ERROR")));
    assert_eq!(d.get("description"), Some(&s("unused variable")));
    assert_eq!(d.get("lineContent"), Some(&s("    let x = 1;")));
    let range = d.get("range").unwrap();
    assert_eq!(range.get("startLine"), Some(&Json::Int(1)));
    assert_eq!(range.get("startCharacter"), Some(&Json::Int(8)));
    assert_eq!(range.get("endLine"), Some(&Json::Int(1)));
    assert_eq!(range.get("endCharacter"), Some(&Json::Int(8)));
    assert_eq!(d.get("startOffset"), Some(&Json::Int(8)));
    assert_eq!(d.get("endOffset"), Some(&Json::Int(8)));
}

#[test]
fn test_diagnostics_filters_by_path() {
    let bufs = vec![
        buffer("/p/src/a.rs", vec![diag(0, 0, Some(2), "w")]),
        buffer("/q/b.rs", vec![diag(0, 0, Some(2), "w")]),
    ];
    let r = get_diagnostics_result(&bufs, Some("/p/src"), Some("/p/src"));
    let e = entries(&r);
    assert_eq!(e.len(), 1);
    assert_eq!(e[0].get("uri"), Some(&s("file:///p/src/a.rs")));
}

#[test]
fn filter_matches_canonical_paths() {
    let mut b = buffer("/private/tmp/x.rs", vec![diag(0, 0, None, "m")]);
    b.canonical_path = "/private/tmp/x.rs".to_string();
    let r = get_diagnostics_result(&vec![b], Some("/tmp"), Some("/private/tmp"));
    assert_eq!(entries(&r).len(), 1);
}

#[test]
fn test_diagnostics_severity_mapping() {
    let bufs = vec![buffer(
        "/p/a.rs",
        vec![diag(0, 0, Some(1), "e"), diag(0, 0, Some(2), "w"), diag(0, 0, Some(3), "i"), diag(0, 0, Some(4), "h"), diag(0, 0, None, "n")],
    )];
    let r = get_diagnostics_result(&bufs, None, None);
    let e = entries(&r);
    let ds = match e[0].get("diagnostics") {
        Some(Json::Array(a)) => a,
        _ => panic!("diagnostics missing"),
    };
    let sev: Vec<&Json> = ds.iter().map(|d| d.get("severity").unwrap()).collect();
    assert_eq!(sev, vec![&s("ERROR"), &s("WARNING"), &s("INFO"), &s("HINT"), &s("INFO")]);
}

#[test]
fn test_diagnostics_multiple_buffers() {
    let bufs = vec![buffer("/p/a.rs", vec![diag(0, 0, None, "a")]), buffer("/p/b.rs", vec![diag(0, 0, None, "b")])];
    let r = get_diagnostics_result(&bufs, None, None);
    assert_eq!(entries(&r).len(), 2);
}

#[test]
fn test_diagnostics_empty_when_none() {
    let mut unloaded = buffer("/p/c.rs", vec![diag(0, 0, None, "c")]);
    unloaded.loaded = false;
    let bufs = vec![buffer("/p/a.rs", vec![]), buffer("", vec![diag(0, 0, None, "x")]), unloaded];
    let r = get_diagnostics_result(&bufs, None, None);
    assert!(entries(&r).is_empty());
}

#[test]
fn end_positions_and_disk_lines() {
    let mut b = buffer("/p/a.rs", vec![RawDiagnostic { lnum: 5, col: 2, end_lnum: Some(6), end_col: Some(3), severity: Some(2), message: "m".to_string() }]);
    b.disk_lines = Some(vec!["0".into(), "1".into(), "2".into(), "3".into(), "4".into(), "five".into()]);
    let r = get_diagnostics_result(&vec![b], None, None);
    let e = entries(&r);
    let d = match e[0].get("diagnostics") {
        Some(Json::Array(a)) => &a[0],
        _ => panic!("diagnostics missing"),
    };
    assert_eq!(d.get("lineContent"), Some(&s("five")));
    assert_eq!(d.get("range").unwrap().get("endLine"), Some(&Json::Int(6)));
    assert_eq!(d.get("endOffset"), Some(&Json::Int(3)));
}
