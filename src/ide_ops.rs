//! The IDE operations: `ping`, `authenticate`, `readFile`, `editFile`,
//! `getDiagnostics` and `nvim/notify`. The editor and the disk are reached by
//! the caller; these functions check arguments and build results.
use vstd::prelude::*;
use crate::errors::AmpError;
use crate::json::{entries_view, entry, jstr, lemma_object_view, member, str_member, Json, JsonV};
use crate::text::{concat, concat4, decimal, decimal_string, is_prefix, starts_with};

verus! {

/// The `ping` result: the `message` member echoed when there is one, else a
/// pong with the time stamp `now`.
pub open spec fn ping_spec(params: JsonV, now: Seq<char>) -> JsonV {
    match member(params, "message"@) {
        Some(m) => JsonV::Object(seq![("message"@, m)]),
        None => JsonV::Object(seq![("pong"@, JsonV::Bool(true)), ("ts"@, JsonV::Str(now))]),
    }
}

/// Handles `ping`; `now` is the current time in RFC 3339, UTC.
pub fn ping(params: Json, now: &str) -> (r: Result<Json, AmpError>)
    ensures
        r matches Ok(v) && v@ == ping_spec(params@, now@),
{
    let ghost pv = params@;
    if let Json::Object(mut e) = params {
        proof {
            lemma_object_view(e);
        }
        if let Some(m) = crate::json::take_entry(&mut e, "message") {
            let mut out: Vec<(String, Json)> = Vec::new();
            let ghost mv = m@;
            out.push(entry("message", m));
            proof {
                lemma_object_view(out);
            }
            assert(entries_view(out@) =~= seq![("message"@, mv)]);
            return Ok(Json::Object(out));
        }
    }
    let mut out: Vec<(String, Json)> = Vec::new();
    out.push(entry("pong", Json::Bool(true)));
    out.push(entry("ts", jstr(now)));
    proof {
        lemma_object_view(out);
    }
    assert(entries_view(out@) =~= seq![("pong"@, JsonV::Bool(true)), ("ts"@, JsonV::Str(now@))]);
    Ok(Json::Object(out))
}

/// Whether a time stamp is in UTC: it ends with the offset `+00:00`.
pub open spec fn is_utc_stamp(t: Seq<char>) -> bool {
    t.len() >= 6 && t.subrange(t.len() - 6, t.len() as int) == "+00:00"@
}

/// Relies on chrono's `Utc::now` and `DateTime::to_rfc3339`: the current
/// time in RFC 3339, which for the UTC offset ends in `+00:00` (chrono
/// writes the offset without `Z`).
#[verifier::external_body]
pub fn now_rfc3339() -> (r: String)
    ensures
        is_utc_stamp(r@),
{
    chrono::Utc::now().to_rfc3339()
}

/// Handles `ping` at the current time.
pub fn ping_now(params: Json) -> (r: Result<Json, AmpError>)
    ensures
        r is Ok,
        exists|now: Seq<char>| is_utc_stamp(now) && r->Ok_0@ == ping_spec(params@, now),
{
    let now = now_rfc3339();
    ping(params, now.as_str())
}

/// Handles `authenticate`: the handshake already checked the token.
pub fn authenticate(_params: Json) -> (r: Result<Json, AmpError>)
    ensures
        r matches Ok(v) && v@ == JsonV::Object(seq![("authenticated"@, JsonV::Bool(true))]),
{
    let mut out: Vec<(String, Json)> = Vec::new();
    out.push(entry("authenticated", Json::Bool(true)));
    proof {
        lemma_object_view(out);
    }
    assert(entries_view(out@) =~= seq![("authenticated"@, JsonV::Bool(true))]);
    Ok(Json::Object(out))
}

/// Reads a required string argument; a missing or non-string one is
/// `InvalidArgs` for `command`.
pub fn required_str(params: &Json, key: &str, command: &str) -> (r: Result<String, AmpError>)
    ensures
        match str_member(params@, key@) {
            Some(s) => r matches Ok(t) && t@ == s,
            None => r matches Err(AmpError::InvalidArgs { command: c, .. }) && c@ == command@,
        },
{
    match params.get_str(key) {
        Some(s) => Ok(s),
        None => Err(AmpError::InvalidArgs {
            command: command.to_owned(),
            reason: concat4("missing field `", key, "`", ""),
        }),
    }
}

/// The `readFile` argument: the path.
pub fn read_file_params(params: &Json) -> (r: Result<String, AmpError>)
    ensures
        match str_member(params@, "path"@) {
            Some(s) => r matches Ok(t) && t@ == s,
            None => r matches Err(AmpError::InvalidArgs { command: c, .. }) && c@ == "ide/readFile"@,
        },
{
    required_str(params, "path", "ide/readFile")
}

/// The `editFile` arguments: the path and the new content.
pub fn edit_file_params(params: &Json) -> (r: Result<(String, String), AmpError>)
    ensures
        match (str_member(params@, "path"@), str_member(params@, "content"@)) {
            (Some(p), Some(c)) => r matches Ok((tp, tc)) && tp@ == p && tc@ == c,
            _ => r matches Err(AmpError::InvalidArgs { command: c, .. }) && c@ == "ide/editFile"@,
        },
{
    let path = required_str(params, "path", "ide/editFile")?;
    let content = required_str(params, "content", "ide/editFile")?;
    Ok((path, content))
}

/// The `nvim/notify` argument: the message.
pub fn notify_params(params: &Json) -> (r: Result<String, AmpError>)
    ensures
        match str_member(params@, "message"@) {
            Some(s) => r matches Ok(t) && t@ == s,
            None => r matches Err(AmpError::InvalidArgs { command: c, .. }) && c@ == "nvim/notify"@,
        },
{
    required_str(params, "message", "nvim/notify")
}

/// The `getDiagnostics` argument: an optional path filter; `null` or absent
/// means no filter.
pub fn get_diagnostics_params(params: &Json) -> (r: Result<Option<String>, AmpError>)
    ensures
        match member(params@, "path"@) {
            None => r matches Ok(None),
            Some(JsonV::Null) => r matches Ok(None),
            Some(JsonV::Str(s)) => r matches Ok(Some(t)) && t@ == s,
            Some(_) => r matches Err(AmpError::InvalidArgs { .. }),
        },
{
    match params.get("path") {
        None => Ok(None),
        Some(Json::Null) => Ok(None),
        Some(Json::Str(s)) => Ok(Some(s.clone())),
        Some(_) => Err(AmpError::InvalidArgs {
            command: "getDiagnostics".to_owned(),
            reason: "invalid type for `path`, expected a string".to_owned(),
        }),
    }
}

/// The `readFile` result for a content.
pub open spec fn read_result_spec(content: Seq<char>) -> JsonV {
    JsonV::Object(seq![
        ("success"@, JsonV::Bool(true)),
        ("content"@, JsonV::Str(content)),
        ("encoding"@, JsonV::Str("utf-8"@)),
    ])
}

/// Builds the `readFile` result.
pub fn read_file_result(content: String) -> (r: Json)
    ensures
        r@ == read_result_spec(content@),
{
    let mut out: Vec<(String, Json)> = Vec::new();
    let ghost c = content@;
    out.push(entry("success", Json::Bool(true)));
    out.push(entry("content", Json::Str(content)));
    out.push(entry("encoding", jstr("utf-8")));
    proof {
        lemma_object_view(out);
    }
    assert(entries_view(out@) =~= seq![
        ("success"@, JsonV::Bool(true)),
        ("content"@, JsonV::Str(c)),
        ("encoding"@, JsonV::Str("utf-8"@)),
    ]);
    Json::Object(out)
}

/// The `editFile` result: how many bytes went to which path.
pub open spec fn edit_result_spec(path: Seq<char>, bytes: nat) -> JsonV {
    JsonV::Object(seq![
        ("success"@, JsonV::Bool(true)),
        ("message"@, JsonV::Str("Wrote "@ + decimal(bytes) + " bytes to "@ + path)),
        ("appliedChanges"@, JsonV::Bool(true)),
    ])
}

/// Builds the `editFile` result; `bytes` is the content's length in bytes.
pub fn edit_file_result(path: &str, bytes: u64) -> (r: Json)
    ensures
        r@ == edit_result_spec(path@, bytes as nat),
{
    let n = decimal_string(bytes);
    let message = concat4("Wrote ", n.as_str(), " bytes to ", path);
    let ghost m = message@;
    let mut out: Vec<(String, Json)> = Vec::new();
    out.push(entry("success", Json::Bool(true)));
    out.push(entry("message", Json::Str(message)));
    out.push(entry("appliedChanges", Json::Bool(true)));
    proof {
        lemma_object_view(out);
    }
    assert(entries_view(out@) =~= seq![
        ("success"@, JsonV::Bool(true)),
        ("message"@, JsonV::Str(m)),
        ("appliedChanges"@, JsonV::Bool(true)),
    ]);
    Json::Object(out)
}

/// Lines joined with `\n` between them.
pub open spec fn join_lines(lines: Seq<Seq<char>>) -> Seq<char>
    decreases lines.len(),
{
    if lines.len() == 0 {
        Seq::empty()
    } else if lines.len() == 1 {
        lines[0]
    } else {
        join_lines(lines.drop_last()) + seq!['\n'] + lines.last()
    }
}

/// The texts of lines.
pub open spec fn lines_view(lines: Seq<String>) -> Seq<Seq<char>> {
    lines.map_values(|l: String| l@)
}

/// Whether `lines` is `content` cut at each `\n`: at least one line, none
/// holding a `\n`, and joined back they give `content`.
pub open spec fn is_line_split(lines: Seq<Seq<char>>, content: Seq<char>) -> bool {
    &&& lines.len() >= 1
    &&& forall|i: int| 0 <= i < lines.len() ==> !lines[i].contains('\n')
    &&& join_lines(lines) == content
}

/// Relies on `str::split` with the pattern `'\n'`: the pieces between the
/// separators, in order, the empty ones included (so at least one).
#[verifier::external_body]
fn split_newlines(s: &str) -> (r: Vec<String>)
    ensures
        is_line_split(lines_view(r@), s@),
{
    s.split('\n').map(|l| l.to_string()).collect()
}

/// The buffer lines that `editFile` puts in place of a loaded buffer's lines.
pub fn edit_file_lines(content: &str) -> (r: Vec<String>)
    ensures
        is_line_split(lines_view(r@), content@),
{
    split_newlines(content)
}

/// The content of a buffer: its lines joined with `\n`.
pub fn buffer_content(lines: &Vec<String>) -> (r: String)
    ensures
        r@ == join_lines(lines_view(lines@)),
{
    let ghost lv = lines_view(lines@);
    if lines.len() == 0 {
        return String::new();
    }
    let mut s = lines[0].clone();
    let mut i: usize = 1;
    assert(lv.subrange(0, 1).drop_last() =~= Seq::<Seq<char>>::empty());
    while i < lines.len()
        invariant
            1 <= i <= lines@.len(),
            lv == lines_view(lines@),
            s@ == join_lines(lv.subrange(0, i as int)),
        decreases lines.len() - i,
    {
        s.append("\n");
        s.append(lines[i].as_str());
        assert(lv.subrange(0, i + 1).drop_last() =~= lv.subrange(0, i as int));
        proof {
            reveal_strlit("\n");
        }
        i += 1;
    }
    assert(lv.subrange(0, lines@.len() as int) =~= lv);
    s
}

/// What `readFile` returns for a loaded buffer after `editFile` replaced its
/// lines with the split content: the content itself.
pub proof fn law_edit_then_read(lines: Seq<Seq<char>>, content: Seq<char>)
    requires
        is_line_split(lines, content),
    ensures
        read_result_spec(join_lines(lines)) == read_result_spec(content),
{
}

/// The severity name of an editor severity level; unknown or absent is `INFO`.
pub open spec fn severity_spec(severity: Option<u8>) -> Seq<char> {
    match severity {
        Some(1) => "ERROR"@,
        Some(2) => "WARNING"@,
        Some(4) => "HINT"@,
        _ => "INFO"@,
    }
}

/// Maps an editor diagnostic severity (1 to 4) to its name.
pub fn map_severity(severity: Option<u8>) -> (r: &'static str)
    ensures
        r@ == severity_spec(severity),
{
    match severity {
        Some(1) => "ERROR",
        Some(2) => "WARNING",
        Some(4) => "HINT",
        _ => "INFO",
    }
}

/// Whether a path is absolute.
pub open spec fn is_absolute(p: Seq<char>) -> bool {
    p.len() > 0 && p[0] == '/'
}

/// A path resolved against a working directory.
pub open spec fn normalize_spec(path: Seq<char>, cwd: Seq<char>) -> Seq<char> {
    if is_absolute(path) {
        path
    } else if cwd.len() > 0 && cwd.last() == '/' {
        cwd + path
    } else {
        cwd + "/"@ + path
    }
}

/// Resolves `path` against `cwd` unless it is absolute already.
pub fn normalize_path(path: &str, cwd: &str) -> (r: String)
    ensures
        r@ == normalize_spec(path@, cwd@),
{
    let n = path.unicode_len();
    if n > 0 && path.get_char(0) == '/' {
        return path.to_owned();
    }
    let m = cwd.unicode_len();
    if m > 0 && cwd.get_char(m - 1) == '/' {
        concat(cwd, path)
    } else {
        crate::text::concat3(cwd, "/", path)
    }
}

/// Normalizing twice is normalizing once, for an absolute working directory.
pub proof fn law_normalize_idempotent(path: Seq<char>, cwd: Seq<char>)
    requires
        is_absolute(cwd),
    ensures
        normalize_spec(normalize_spec(path, cwd), cwd) == normalize_spec(path, cwd),
{
    reveal_strlit("/");
    if !is_absolute(path) {
        let n = normalize_spec(path, cwd);
        assert(n[0] == cwd[0]);
    }
}

/// A path relative to `cwd` when it lies below it, else the path itself.
pub open spec fn relative_spec(path: Seq<char>, cwd: Seq<char>) -> Seq<char> {
    let dir = if cwd.len() > 0 && cwd.last() == '/' { cwd } else { cwd + "/"@ };
    if is_prefix(dir, path) && path.len() > dir.len() {
        path.subrange(dir.len() as int, path.len() as int)
    } else {
        path
    }
}

/// Strips the working directory from a path below it.
pub fn to_relative(path: &str, cwd: &str) -> (r: String)
    ensures
        r@ == relative_spec(path@, cwd@),
{
    let m = cwd.unicode_len();
    let dir = if m > 0 && cwd.get_char(m - 1) == '/' {
        cwd.to_owned()
    } else {
        concat(cwd, "/")
    };
    let d = dir.as_str().unicode_len();
    let n = path.unicode_len();
    if starts_with(path, dir.as_str()) && n > d {
        path.substring_char(d, n).to_owned()
    } else {
        path.to_owned()
    }
}

} // verus!
