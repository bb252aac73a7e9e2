//! The command registry: named methods that the router falls back to, and
//! the `@path` references that the prompt commands send.
use vstd::prelude::*;
use crate::errors::AmpError;
use crate::json::{entries_view, entry, lemma_object_view, member, without_entry, Json, JsonV};
use crate::hub::broadcast_spec;
use crate::ide_ops::{buffer_content, join_lines, lines_view, relative_spec, to_relative};
use crate::lifecycle::Server;
use crate::notifications::{message_spec, notification_text};
use crate::text::{concat, concat3, decimal, decimal_string};

verus! {

/// The names of the registered commands, in sorted order.
pub open spec fn registered() -> Seq<Seq<char>> {
    seq!["ping"@]
}

/// All registered command names, sorted.
pub fn list_commands() -> (r: Vec<String>)
    ensures
        r@.map_values(|s: String| s@) == registered(),
{
    let mut v: Vec<String> = Vec::new();
    v.push("ping".to_owned());
    assert(v@.map_values(|s: String| s@) =~= registered());
    v
}

/// The `ping` command result: the arguments' members with `pong: true` set.
pub open spec fn ping_command_spec(args: JsonV) -> JsonV {
    match args {
        JsonV::Object(e) => JsonV::Object(without_entry(e, "pong"@) + seq![("pong"@, JsonV::Bool(true))]),
        _ => JsonV::Object(seq![("pong"@, JsonV::Bool(true))]),
    }
}

/// Test command: echoes the argument object with an added `pong` member.
pub fn ping_command(args: Json) -> (r: Json)
    ensures
        r@ == ping_command_spec(args@),
{
    let mut e = match args {
        Json::Object(e) => {
            proof {
                lemma_object_view(e);
            }
            e
        },
        _ => Vec::new(),
    };
    let ghost before = entries_view(e@);
    let _ = crate::json::take_entry(&mut e, "pong");
    let ghost mid = entries_view(e@);
    e.push(entry("pong", Json::Bool(true)));
    assert(entries_view(e@) =~= mid + seq![("pong"@, JsonV::Bool(true))]);
    proof {
        lemma_object_view(e);
        if !(args@ is Object) {
            assert(before =~= Seq::<(Seq<char>, JsonV)>::empty());
            assert(mid =~= Seq::<(Seq<char>, JsonV)>::empty());
        }
    }
    Json::Object(e)
}

/// What dispatching `command` gives: the command's result, or
/// `CommandNotFound` naming it.
pub open spec fn dispatch_spec(command: Seq<char>, args: JsonV) -> Option<JsonV> {
    if command == "ping"@ {
        Some(ping_command_spec(args))
    } else {
        None
    }
}

/// Runs a registered command by name.
pub fn dispatch(command: &str, args: Json) -> (r: Result<Json, AmpError>)
    ensures
        match dispatch_spec(command@, args@) {
            Some(v) => r matches Ok(x) && x@ == v,
            None => r matches Err(AmpError::CommandNotFound(c)) && c@ == command@,
        },
{
    let c = command.to_owned();
    if c.eq(&"ping".to_owned()) {
        Ok(ping_command(args))
    } else {
        Err(AmpError::CommandNotFound(c))
    }
}

/// `@path`.
pub open spec fn file_ref_spec(path: Seq<char>) -> Seq<char> {
    "@"@ + path
}

/// `@path#L<line>`.
pub open spec fn line_ref_spec(path: Seq<char>, line: nat) -> Seq<char> {
    "@"@ + path + "#L"@ + decimal(line)
}

/// `@path#L<s>` for one line, `@path#L<s>-L<e>` for a range.
pub open spec fn selection_ref_spec(path: Seq<char>, start: nat, end: nat) -> Seq<char> {
    if start == end {
        line_ref_spec(path, start)
    } else {
        line_ref_spec(path, start) + "-L"@ + decimal(end)
    }
}

/// The reference to a whole file.
pub fn file_reference(path: &str) -> (r: String)
    ensures
        r@ == file_ref_spec(path@),
{
    concat("@", path)
}

/// The reference to one line of a file (1-indexed).
pub fn line_reference(path: &str, line: u64) -> (r: String)
    ensures
        r@ == line_ref_spec(path@, line as nat),
{
    let n = decimal_string(line);
    concat3(concat("@", path).as_str(), "#L", n.as_str())
}

/// The reference to a line range of a file (1-indexed, inclusive).
pub fn selection_reference(path: &str, start_line: u64, end_line: u64) -> (r: String)
    ensures
        r@ == selection_ref_spec(path@, start_line as nat, end_line as nat),
{
    let first = line_reference(path, start_line);
    if start_line == end_line {
        first
    } else {
        let e = decimal_string(end_line);
        concat3(first.as_str(), "-L", e.as_str())
    }
}

/// Arguments of `send_selection_ref`: a 1-indexed inclusive line range.
#[derive(Debug, Clone, Copy, PartialEq, Eq)]
pub struct SendSelectionRefParams {
    pub start_line: u64,
    pub end_line: u64,
}

/// Arguments of `send_selection`: a 1-indexed inclusive line range.
#[derive(Debug, Clone, Copy, PartialEq, Eq)]
pub struct SendSelectionParams {
    pub start_line: u64,
    pub end_line: u64,
}

/// A non-negative integer member.
pub open spec fn line_member(v: JsonV, key: Seq<char>) -> Option<nat> {
    match member(v, key) {
        Some(JsonV::Int(n)) => if n >= 0 { Some(n as nat) } else { None },
        _ => None,
    }
}

/// Reads a non-negative integer argument.
fn required_line(params: &Json, key: &str, command: &str) -> (r: Result<u64, AmpError>)
    ensures
        match line_member(params@, key@) {
            Some(n) => r matches Ok(x) && x as nat == n,
            None => r matches Err(AmpError::InvalidArgs { .. }),
        },
{
    match params.get(key) {
        Some(Json::Int(n)) => {
            if *n >= 0 {
                Ok(*n as u64)
            } else {
                Err(AmpError::InvalidArgs { command: command.to_owned(), reason: concat("negative ", key) })
            }
        },
        _ => Err(AmpError::InvalidArgs { command: command.to_owned(), reason: concat("missing field ", key) }),
    }
}

impl SendSelectionRefParams {
    /// Reads `start_line` and `end_line`; both are required.
    pub fn from_json(params: &Json) -> (r: Result<SendSelectionRefParams, AmpError>)
        ensures
            match (line_member(params@, "start_line"@), line_member(params@, "end_line"@)) {
                (Some(s), Some(e)) => r matches Ok(p) && p.start_line == s && p.end_line == e,
                _ => r matches Err(AmpError::InvalidArgs { .. }),
            },
    {
        match required_line(params, "start_line", "send_selection_ref") {
            Ok(start_line) => match required_line(params, "end_line", "send_selection_ref") {
                Ok(end_line) => Ok(SendSelectionRefParams { start_line, end_line }),
                Err(e) => Err(e),
            },
            Err(e) => Err(e),
        }
    }
}

impl SendSelectionParams {
    /// Reads `start_line` and `end_line`; both are required.
    pub fn from_json(params: &Json) -> (r: Result<SendSelectionParams, AmpError>)
        ensures
            match (line_member(params@, "start_line"@), line_member(params@, "end_line"@)) {
                (Some(s), Some(e)) => r matches Ok(p) && p.start_line == s && p.end_line == e,
                _ => r matches Err(AmpError::InvalidArgs { .. }),
            },
    {
        match required_line(params, "start_line", "send_selection") {
            Ok(start_line) => match required_line(params, "end_line", "send_selection") {
                Ok(end_line) => Ok(SendSelectionParams { start_line, end_line }),
                Err(e) => Err(e),
            },
            Err(e) => Err(e),
        }
    }
}

/// Result of `send_file_ref`.
#[derive(Debug)]
pub struct SendFileRefResponse {
    pub success: bool,
    pub reference: String,
}

/// Result of `send_line_ref`.
#[derive(Debug)]
pub struct SendLineRefResponse {
    pub success: bool,
    pub reference: String,
}

/// Result of `send_selection_ref`.
#[derive(Debug)]
pub struct SendSelectionRefResponse {
    pub success: bool,
    pub reference: String,
}

/// Result of `send_selection`.
#[derive(Debug)]
pub struct SendSelectionResponse {
    pub success: bool,
}

/// Result of `send_buffer`.
#[derive(Debug)]
pub struct SendBufferResponse {
    pub success: bool,
}

/// `{success, reference}` on the wire.
pub open spec fn reference_result_spec(success: bool, reference: Seq<char>) -> JsonV {
    JsonV::Object(seq![("success"@, JsonV::Bool(success)), ("reference"@, JsonV::Str(reference))])
}

/// `{success}` on the wire.
pub open spec fn success_result_spec(success: bool) -> JsonV {
    JsonV::Object(seq![("success"@, JsonV::Bool(success))])
}

fn reference_json(success: bool, reference: String) -> (r: Json)
    ensures
        r@ == reference_result_spec(success, reference@),
{
    let ghost rv = reference@;
    let mut out: Vec<(String, Json)> = Vec::new();
    out.push(entry("success", Json::Bool(success)));
    out.push(entry("reference", Json::Str(reference)));
    proof {
        lemma_object_view(out);
    }
    assert(entries_view(out@) =~= seq![("success"@, JsonV::Bool(success)), ("reference"@, JsonV::Str(rv))]);
    Json::Object(out)
}

fn success_json(success: bool) -> (r: Json)
    ensures
        r@ == success_result_spec(success),
{
    let mut out: Vec<(String, Json)> = Vec::new();
    out.push(entry("success", Json::Bool(success)));
    proof {
        lemma_object_view(out);
    }
    assert(entries_view(out@) =~= seq![("success"@, JsonV::Bool(success))]);
    Json::Object(out)
}

impl SendFileRefResponse {
    /// The wire value.
    pub fn to_json(self) -> (r: Json)
        ensures
            r@ == reference_result_spec(self.success, self.reference@),
    {
        reference_json(self.success, self.reference)
    }
}

impl SendLineRefResponse {
    /// The wire value.
    pub fn to_json(self) -> (r: Json)
        ensures
            r@ == reference_result_spec(self.success, self.reference@),
    {
        reference_json(self.success, self.reference)
    }
}

impl SendSelectionRefResponse {
    /// The wire value.
    pub fn to_json(self) -> (r: Json)
        ensures
            r@ == reference_result_spec(self.success, self.reference@),
    {
        reference_json(self.success, self.reference)
    }
}

impl SendSelectionResponse {
    /// The wire value.
    pub fn to_json(self) -> (r: Json)
        ensures
            r@ == success_result_spec(self.success),
    {
        success_json(self.success)
    }
}

impl SendBufferResponse {
    /// The wire value.
    pub fn to_json(self) -> (r: Json)
        ensures
            r@ == success_result_spec(self.success),
    {
        success_json(self.success)
    }
}

/// What a prompt command did to the server: `message` went out as
/// `appendToPrompt` through the running server.
pub open spec fn appended(before: Server, after: Server, message: Seq<char>) -> bool {
    &&& before.running_spec()
    &&& after.running_spec()
    &&& after.handle->Some_0.hub@ == broadcast_spec(
        before.handle->Some_0.hub@,
        notification_text("appendToPrompt"@, message_spec(message)),
    )
}

/// Sends `reference` to the prompt and reports it.
fn send_reference(server: &mut Server, reference: String) -> (r: Result<Json, AmpError>)
    requires
        old(server).wf(),
    ensures
        final(server).wf(),
        old(server).running_spec() ==> (r matches Ok(v) && v@ == reference_result_spec(true, reference@))
            && appended(*old(server), *final(server), reference@),
        !old(server).running_spec() ==> (r matches Err(AmpError::Other(_)) && *final(server) == *old(server)),
{
    match server.append_to_prompt(reference.as_str()) {
        Ok(()) => Ok(reference_json(true, reference)),
        Err(e) => Err(e),
    }
}

/// `send_file_ref`: sends `@<path relative to cwd>` for the current buffer.
/// A buffer without a name is an error.
pub fn send_file_ref(server: &mut Server, buffer_path: &str, cwd: &str) -> (r: Result<Json, AmpError>)
    requires
        old(server).wf(),
    ensures
        final(server).wf(),
        buffer_path@.len() == 0 ==> (r matches Err(AmpError::Other(_)) && *final(server) == *old(server)),
        buffer_path@.len() > 0 && old(server).running_spec() ==> ({
            let reference = file_ref_spec(relative_spec(buffer_path@, cwd@));
            (r matches Ok(v) && v@ == reference_result_spec(true, reference))
                && appended(*old(server), *final(server), reference)
        }),
        buffer_path@.len() > 0 && !old(server).running_spec() ==> (r matches Err(AmpError::Other(_))
            && *final(server) == *old(server)),
{
    if buffer_path.unicode_len() == 0 {
        return Err(AmpError::Other("Current buffer has no filename".to_owned()));
    }
    let rel = to_relative(buffer_path, cwd);
    send_reference(server, file_reference(rel.as_str()))
}

/// `send_line_ref`: sends `@<path>#L<line>` for the cursor's line (1-indexed).
pub fn send_line_ref(server: &mut Server, buffer_path: &str, cwd: &str, line: u64) -> (r: Result<Json, AmpError>)
    requires
        old(server).wf(),
    ensures
        final(server).wf(),
        buffer_path@.len() == 0 ==> (r matches Err(AmpError::Other(_)) && *final(server) == *old(server)),
        buffer_path@.len() > 0 && old(server).running_spec() ==> ({
            let reference = line_ref_spec(relative_spec(buffer_path@, cwd@), line as nat);
            (r matches Ok(v) && v@ == reference_result_spec(true, reference))
                && appended(*old(server), *final(server), reference)
        }),
        buffer_path@.len() > 0 && !old(server).running_spec() ==> (r matches Err(AmpError::Other(_))
            && *final(server) == *old(server)),
{
    if buffer_path.unicode_len() == 0 {
        return Err(AmpError::Other("Current buffer has no filename".to_owned()));
    }
    let rel = to_relative(buffer_path, cwd);
    send_reference(server, line_reference(rel.as_str(), line))
}

/// `send_selection_ref`: sends `@<path>#L<s>` or `@<path>#L<s>-L<e>` for
/// the line range in `params`.
pub fn send_selection_ref(server: &mut Server, params: &Json, buffer_path: &str, cwd: &str) -> (r: Result<Json, AmpError>)
    requires
        old(server).wf(),
    ensures
        final(server).wf(),
        r is Err ==> *final(server) == *old(server),
        (line_member(params@, "start_line"@) is None || line_member(params@, "end_line"@) is None)
            ==> r matches Err(AmpError::InvalidArgs { .. }),
        line_member(params@, "start_line"@) is Some && line_member(params@, "end_line"@) is Some
            && buffer_path@.len() > 0 && old(server).running_spec() ==> ({
            let s = line_member(params@, "start_line"@)->Some_0;
            let e = line_member(params@, "end_line"@)->Some_0;
            let reference = selection_ref_spec(relative_spec(buffer_path@, cwd@), s, e);
            (r matches Ok(v) && v@ == reference_result_spec(true, reference))
                && appended(*old(server), *final(server), reference)
        }),
        line_member(params@, "start_line"@) is Some && line_member(params@, "end_line"@) is Some
            && buffer_path@.len() == 0 ==> r matches Err(AmpError::Other(_)),
        line_member(params@, "start_line"@) is Some && line_member(params@, "end_line"@) is Some
            && !old(server).running_spec() ==> r matches Err(AmpError::Other(_)),
{
    let p = match SendSelectionRefParams::from_json(params) {
        Ok(p) => p,
        Err(e) => return Err(e),
    };
    if buffer_path.unicode_len() == 0 {
        return Err(AmpError::Other("Current buffer has no filename".to_owned()));
    }
    let rel = to_relative(buffer_path, cwd);
    send_reference(server, selection_reference(rel.as_str(), p.start_line, p.end_line))
}

/// `send_selection`: sends the text of lines `start_line..=end_line`
/// (1-indexed) of the current buffer. A range outside the buffer is
/// `InvalidArgs`.
pub fn send_selection(server: &mut Server, params: &Json, buffer_lines: &Vec<String>) -> (r: Result<Json, AmpError>)
    requires
        old(server).wf(),
    ensures
        final(server).wf(),
        r is Err ==> *final(server) == *old(server),
        line_member(params@, "start_line"@) is Some && line_member(params@, "end_line"@) is Some
            && 1 <= line_member(params@, "start_line"@)->Some_0 <= line_member(params@, "end_line"@)->Some_0
            && line_member(params@, "end_line"@)->Some_0 <= buffer_lines@.len() && old(server).running_spec() ==> ({
            let s = line_member(params@, "start_line"@)->Some_0;
            let e = line_member(params@, "end_line"@)->Some_0;
            let content = join_lines(lines_view(buffer_lines@).subrange(s - 1, e as int));
            (r matches Ok(v) && v@ == success_result_spec(true))
                && appended(*old(server), *final(server), content)
        }),
        line_member(params@, "start_line"@) is Some && line_member(params@, "end_line"@) is Some
            && !(1 <= line_member(params@, "start_line"@)->Some_0 <= line_member(params@, "end_line"@)->Some_0
            && line_member(params@, "end_line"@)->Some_0 <= buffer_lines@.len()) ==> r matches Err(AmpError::InvalidArgs { .. }),
        (line_member(params@, "start_line"@) is None || line_member(params@, "end_line"@) is None)
            ==> r matches Err(AmpError::InvalidArgs { .. }),
        line_member(params@, "start_line"@) is Some && line_member(params@, "end_line"@) is Some
            && 1 <= line_member(params@, "start_line"@)->Some_0 <= line_member(params@, "end_line"@)->Some_0
            && line_member(params@, "end_line"@)->Some_0 <= buffer_lines@.len() && !old(server).running_spec()
            ==> r matches Err(AmpError::Other(_)),
{
    let p = match SendSelectionParams::from_json(params) {
        Ok(p) => p,
        Err(e) => return Err(e),
    };
    if p.start_line < 1 || p.start_line > p.end_line || p.end_line > buffer_lines.len() as u64 {
        return Err(AmpError::InvalidArgs {
            command: "send_selection".to_owned(),
            reason: "line range outside the buffer".to_owned(),
        });
    }
    let mut picked: Vec<String> = Vec::new();
    let mut i: usize = (p.start_line - 1) as usize;
    let end = p.end_line as usize;
    let ghost lv = lines_view(buffer_lines@);
    let ghost first = (p.start_line - 1) as int;
    while i < end
        invariant
            0 <= first <= i <= end,
            end <= buffer_lines@.len(),
            lv.len() == buffer_lines@.len(),
            lv == lines_view(buffer_lines@),
            lines_view(picked@) == lv.subrange(first, i as int),
        decreases end - i,
    {
        let ghost pv = picked@;
        let line = buffer_lines[i].clone();
        picked.push(line);
        assert(picked@ == pv.push(line));
        assert(lines_view(picked@) =~= lines_view(pv).push(line@));
        assert(lv[i as int] == buffer_lines@[i as int]@);
        assert(lv.subrange(first, i + 1) =~= lv.subrange(first, i as int).push(lv[i as int]));
        i += 1;
    }
    let content = buffer_content(&picked);
    match server.append_to_prompt(content.as_str()) {
        Ok(()) => Ok(success_json(true)),
        Err(e) => Err(e),
    }
}

/// `send_buffer`: sends the whole current buffer.
pub fn send_buffer(server: &mut Server, buffer_lines: &Vec<String>) -> (r: Result<Json, AmpError>)
    requires
        old(server).wf(),
    ensures
        final(server).wf(),
        old(server).running_spec() ==> (r matches Ok(v) && v@ == success_result_spec(true))
            && appended(*old(server), *final(server), join_lines(lines_view(buffer_lines@))),
        !old(server).running_spec() ==> (r matches Err(AmpError::Other(_)) && *final(server) == *old(server)),
{
    let content = buffer_content(buffer_lines);
    match server.append_to_prompt(content.as_str()) {
        Ok(()) => Ok(success_json(true)),
        Err(e) => Err(e),
    }
}

/// A count on the wire: an integer, or its decimal text beyond `i64`.
pub open spec fn count_json(n: nat) -> JsonV {
    if n <= i64::MAX {
        JsonV::Int(n as int)
    } else {
        JsonV::Number(decimal(n))
    }
}

/// `server_status`: whether the server runs, its port (or null) and its
/// number of clients.
pub fn server_status(server: &Server) -> (r: Json)
    ensures
        r@ == JsonV::Object(seq![
            ("running"@, JsonV::Bool(server.running_spec())),
            ("port"@, if server.running_spec() { JsonV::Int(server.handle->Some_0.port as int) } else { JsonV::Null }),
            ("clients"@, count_json(if server.running_spec() { server.handle->Some_0.hub@.len() } else { 0 })),
        ]),
{
    let running = server.is_running();
    let port = match server.get_port() {
        Some(p) => Json::Int(p as i64),
        None => Json::Null,
    };
    let clients = server.client_count();
    let count = if clients as u64 <= i64::MAX as u64 {
        Json::Int(clients as i64)
    } else {
        Json::Number(decimal_string(clients as u64))
    };
    let ghost cv = count@;
    let ghost pv = port@;
    let mut out: Vec<(String, Json)> = Vec::new();
    out.push(entry("running", Json::Bool(running)));
    out.push(entry("port", port));
    out.push(entry("clients", count));
    proof {
        lemma_object_view(out);
    }
    assert(entries_view(out@) =~= seq![
        ("running"@, JsonV::Bool(running)),
        ("port"@, pv),
        ("clients"@, cv),
    ]);
    Json::Object(out)
}

} // verus!
