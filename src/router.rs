//! Dialect detection, method routing and response rendering.
use vstd::prelude::*;
use crate::commands::{dispatch, dispatch_spec};
use crate::errors::AmpError;
use crate::ide_ops::{
    authenticate, edit_file_params, is_utc_stamp, get_diagnostics_params, notify_params, ping, ping_spec,
    read_file_params,
};
use crate::json::{
    entries_view, entry, find_entry, lemma_first_at, lemma_object_view, member,
    norm_view, parse_json, str_member, take_entry, to_json_string, without_entry, json_text, parsed_json,
    Json, JsonV,
};
use crate::rpc::{
    client_request_json, error_json, is_id, server_response_json, ErrorObject, Id, ServerResponse,
};
use crate::text::str_eq;

verus! {

/// Where the response to a message goes, as it stands on the wire.
pub enum ReplyV {
    Wrapped { id: Seq<char>, method: Seq<char> },
    JsonRpc { id: JsonV },
    Silent,
}

/// Where the response to a message goes: a wrapped response under the
/// request's id and method name, a JSON-RPC response under its id, or none
/// (a notification).
#[derive(Debug)]
pub enum Reply {
    Wrapped { id: String, method: String },
    JsonRpc { id: Id },
    Silent,
}

impl View for Reply {
    type V = ReplyV;

    open spec fn view(&self) -> ReplyV {
        match self {
            Reply::Wrapped { id, method } => ReplyV::Wrapped { id: id@, method: method@ },
            Reply::JsonRpc { id } => ReplyV::JsonRpc { id: id@ },
            Reply::Silent => ReplyV::Silent,
        }
    }
}

/// A decoded message, as values.
pub enum IncomingV {
    Call { reply: ReplyV, method: Seq<char>, params: JsonV },
    Invalid { reply: ReplyV },
}

/// A decoded message: a method call, or a request whose envelope breaks the
/// rules but whose id can still be answered.
#[derive(Debug)]
pub enum Incoming {
    Call { reply: Reply, method: String, params: Json },
    Invalid { reply: Reply },
}

impl View for Incoming {
    type V = IncomingV;

    open spec fn view(&self) -> IncomingV {
        match self {
            Incoming::Call { reply, method, params } => IncomingV::Call {
                reply: reply@,
                method: method@,
                params: params@,
            },
            Incoming::Invalid { reply } => IncomingV::Invalid { reply: reply@ },
        }
    }
}

/// Why a message gets no response at all.
pub enum Rejection {
    /// Neither `clientRequest` nor `jsonrpc` at the top level.
    UnknownFormat,
    /// A request or notification whose id or shape cannot be read.
    Unreadable,
}

/// Decoding of a wrapped request's inner object.
pub open spec fn wrapped_spec(inner: JsonV) -> Result<IncomingV, Rejection> {
    match inner {
        JsonV::Object(e) => match str_member(inner, "id"@) {
            Some(id) => {
                let rest = without_entry(e, "id"@);
                if rest.len() == 1 {
                    Ok(IncomingV::Call {
                        reply: ReplyV::Wrapped { id, method: rest[0].0 },
                        method: rest[0].0,
                        params: rest[0].1,
                    })
                } else {
                    Ok(IncomingV::Invalid { reply: ReplyV::Wrapped { id, method: Seq::empty() } })
                }
            },
            None => Err(Rejection::Unreadable),
        },
        _ => Err(Rejection::Unreadable),
    }
}

/// The `params` member, `null` when absent.
pub open spec fn params_of(v: JsonV) -> JsonV {
    match member(v, "params"@) {
        Some(p) => p,
        None => JsonV::Null,
    }
}

/// Decoding of a JSON-RPC message: with an `id` it is a request, without
/// one a notification.
pub open spec fn jsonrpc_spec(v: JsonV) -> Result<IncomingV, Rejection> {
    let well_formed = str_member(v, "jsonrpc"@) is Some && str_member(v, "method"@) is Some;
    let method = match str_member(v, "method"@) {
        Some(m) => m,
        None => Seq::empty(),
    };
    match member(v, "id"@) {
        Some(id) => if !is_id(id) {
            Err(Rejection::Unreadable)
        } else if well_formed {
            Ok(IncomingV::Call { reply: ReplyV::JsonRpc { id }, method, params: params_of(v) })
        } else {
            Ok(IncomingV::Invalid { reply: ReplyV::JsonRpc { id } })
        },
        None => if well_formed {
            Ok(IncomingV::Call { reply: ReplyV::Silent, method, params: params_of(v) })
        } else {
            Err(Rejection::Unreadable)
        },
    }
}

/// Dialect detection: `clientRequest` selects the wrapped dialect, else
/// `jsonrpc` selects JSON-RPC, else the format is unknown.
pub open spec fn decode_spec(v: JsonV) -> Result<IncomingV, Rejection> {
    match member(v, "clientRequest"@) {
        Some(inner) => wrapped_spec(inner),
        None => if member(v, "jsonrpc"@) is Some {
            jsonrpc_spec(v)
        } else {
            Err(Rejection::UnknownFormat)
        },
    }
}

/// The error that a decoding outcome surfaces as.
pub open spec fn rejected_as(k: Rejection, e: AmpError) -> bool {
    match k {
        Rejection::UnknownFormat => e is UnknownFormat,
        Rejection::Unreadable => e is InvalidRequest,
    }
}

fn decode_wrapped(inner: Json) -> (r: Result<Incoming, AmpError>)
    ensures
        match wrapped_spec(inner@) {
            Ok(i) => r matches Ok(x) && x@ == i,
            Err(k) => r matches Err(e) && rejected_as(k, e),
        },
{
    match inner {
        Json::Object(mut e) => {
            let ghost ev = entries_view(e@);
            proof {
                lemma_object_view(e);
            }
            let id: Option<String> = match find_entry(&e, "id") {
                Some(i) => {
                    proof {
                        lemma_first_at(ev, "id"@, i as int);
                    }
                    match &e[i].1 {
                        Json::Str(s) => Some(s.clone()),
                        _ => None,
                    }
                },
                None => None,
            };
            match id {
                Some(id) => {
                    let _ = take_entry(&mut e, "id");
                    if e.len() == 1 {
                        let (method, params) = e.pop().unwrap();
                        let m = method.clone();
                        Ok(Incoming::Call { reply: Reply::Wrapped { id, method: m }, method, params })
                    } else {
                        Ok(Incoming::Invalid { reply: Reply::Wrapped { id, method: String::new() } })
                    }
                },
                None => Err(AmpError::InvalidRequest("clientRequest needs a string id".to_owned())),
            }
        },
        _ => Err(AmpError::InvalidRequest("clientRequest must be an object".to_owned())),
    }
}

fn decode_jsonrpc(v: Json) -> (r: Result<Incoming, AmpError>)
    requires
        member(v@, "jsonrpc"@) is Some,
    ensures
        match jsonrpc_spec(v@) {
            Ok(i) => r matches Ok(x) && x@ == i,
            Err(k) => r matches Err(e) && rejected_as(k, e),
        },
{
    let well_formed = v.get_str("jsonrpc").is_some();
    let method = v.get_str("method");
    let has_id = v.get("id").is_some();
    let id: Option<Id> = match v.get("id") {
        Some(j) => Id::from_json(j),
        None => None,
    };
    if has_id && id.is_none() {
        return Err(AmpError::InvalidRequest("request id must be a string or an integer".to_owned()));
    }
    let ghost vv = v@;
    let params = match v {
        Json::Object(mut e) => {
            proof {
                lemma_object_view(e);
            }
            match take_entry(&mut e, "params") {
                Some(p) => p,
                None => Json::Null,
            }
        },
        _ => Json::Null,
    };
    assert(params@ == params_of(vv));
    match (id, method) {
        (Some(id), Some(method)) => {
            if well_formed {
                Ok(Incoming::Call { reply: Reply::JsonRpc { id }, method, params })
            } else {
                Ok(Incoming::Invalid { reply: Reply::JsonRpc { id } })
            }
        },
        (Some(id), None) => Ok(Incoming::Invalid { reply: Reply::JsonRpc { id } }),
        (None, Some(method)) => {
            if well_formed {
                Ok(Incoming::Call { reply: Reply::Silent, method, params })
            } else {
                Err(AmpError::InvalidRequest("notification needs jsonrpc and method".to_owned()))
            }
        },
        (None, None) => Err(AmpError::InvalidRequest("notification needs jsonrpc and method".to_owned())),
    }
}

/// Decodes a parsed message according to its dialect.
pub fn decode_message(v: Json) -> (r: Result<Incoming, AmpError>)
    ensures
        match decode_spec(v@) {
            Ok(i) => r matches Ok(x) && x@ == i,
            Err(k) => r matches Err(e) && rejected_as(k, e),
        },
{
    match v {
        Json::Object(mut e) => {
            let ghost ev = entries_view(e@);
            proof {
                lemma_object_view(e);
            }
            match take_entry(&mut e, "clientRequest") {
                Some(inner) => decode_wrapped(inner),
                None => {
                    let rest = Json::Object(e);
                    proof {
                        lemma_object_view(e);
                        assert(entries_view(e@) == ev);
                    }
                    if rest.get("jsonrpc").is_some() {
                        decode_jsonrpc(rest)
                    } else {
                        Err(AmpError::UnknownFormat)
                    }
                },
            }
        },
        _ => Err(AmpError::UnknownFormat),
    }
}

/// What a handler produced, as values: a result, or an error's code and text.
pub open spec fn outcome_view(r: Result<Json, AmpError>) -> Result<JsonV, (int, Seq<char>)> {
    match r {
        Ok(v) => Ok(v@),
        Err(e) => Err((e.code_spec(), e.message_spec())),
    }
}

/// The JSON-RPC response object.
pub open spec fn jsonrpc_response_json(id: JsonV, outcome: Result<JsonV, (int, Seq<char>)>) -> JsonV {
    match outcome {
        Ok(x) => JsonV::Object(seq![("jsonrpc"@, JsonV::Str("2.0"@)), ("id"@, id), ("result"@, x)]),
        Err((c, m)) => JsonV::Object(
            seq![("jsonrpc"@, JsonV::Str("2.0"@)), ("id"@, id), ("error"@, error_json(c, m))],
        ),
    }
}

/// The response to a message: none for a notification; otherwise the
/// dialect's response object under the request's id.
pub open spec fn response_spec(reply: ReplyV, outcome: Result<JsonV, (int, Seq<char>)>) -> Option<JsonV> {
    match reply {
        ReplyV::Silent => None,
        ReplyV::Wrapped { id, method } => Some(
            match outcome {
                Ok(x) => server_response_json(id, seq![(method, x)]),
                Err((c, m)) => server_response_json(id, seq![("error"@, error_json(c, m))]),
            },
        ),
        ReplyV::JsonRpc { id } => Some(jsonrpc_response_json(id, outcome)),
    }
}

impl crate::rpc::Response {
    /// A success response.
    pub fn success(id: Id, result: Json) -> (r: crate::rpc::Response)
        ensures
            r.id@ == id@,
            r.result matches Some(x) && x@ == result@,
            r.error is None,
            r.jsonrpc@ == "2.0"@,
    {
        crate::rpc::Response { jsonrpc: "2.0".to_owned(), id, result: Some(result), error: None }
    }

    /// An error response.
    pub fn failure(id: Id, error: ErrorObject) -> (r: crate::rpc::Response)
        ensures
            r.id@ == id@,
            r.result is None,
            r.error == Some(error),
            r.jsonrpc@ == "2.0"@,
    {
        crate::rpc::Response { jsonrpc: "2.0".to_owned(), id, result: None, error: Some(error) }
    }

    /// The wire value: `jsonrpc`, `id`, then `result` or `error`.
    pub fn to_json(self) -> (r: Json)
        ensures
            self.jsonrpc@ == "2.0"@ && self.error is None && self.result is Some ==> r@
                == jsonrpc_response_json(self.id@, Ok(self.result->Some_0@)),
            self.jsonrpc@ == "2.0"@ && self.result is None && self.error is Some
                && self.error->Some_0.data is None ==> r@ == jsonrpc_response_json(
                self.id@,
                Err((self.error->Some_0.code as int, self.error->Some_0.message@)),
            ),
    {
        let mut out: Vec<(String, Json)> = Vec::new();
        let ghost jv = self.jsonrpc@;
        let ghost idv = self.id@;
        out.push(entry("jsonrpc", Json::Str(self.jsonrpc)));
        out.push(entry("id", self.id.to_json()));
        let ghost res = self.result;
        let ghost err = self.error;
        if let Some(x) = self.result {
            out.push(entry("result", x));
        }
        if let Some(eo) = self.error {
            out.push(entry("error", eo.to_json()));
        }
        proof {
            lemma_object_view(out);
            if res is Some && err is None {
                assert(entries_view(out@) =~= seq![("jsonrpc"@, JsonV::Str(jv)), ("id"@, idv), ("result"@, res->Some_0@)]);
            }
            if res is None && err is Some && err->Some_0.data is None {
                assert(entries_view(out@) =~= seq![("jsonrpc"@, JsonV::Str(jv)), ("id"@, idv), ("error"@, error_json(err->Some_0.code as int, err->Some_0.message@))]);
            }
        }
        Json::Object(out)
    }
}

/// Renders the response to a message from what its handler produced.
pub fn respond(reply: Reply, result: Result<Json, AmpError>) -> (r: Option<Json>)
    ensures
        match (r, response_spec(reply@, outcome_view(result))) {
            (Some(x), Some(y)) => x@ == y,
            (None, None) => true,
            _ => false,
        },
{
    match reply {
        Reply::Silent => None,
        Reply::Wrapped { id, method } => {
            let resp = match result {
                Ok(v) => ServerResponse::success(id, method, v),
                Err(e) => ServerResponse::error(id, ErrorObject::from_error(&e)),
            };
            Some(resp.to_json())
        },
        Reply::JsonRpc { id } => {
            let resp = match result {
                Ok(v) => crate::rpc::Response::success(id, v),
                Err(e) => crate::rpc::Response::failure(id, ErrorObject::from_error(&e)),
            };
            Some(resp.to_json())
        },
    }
}

/// Work that only the editor host can do, with its checked arguments.
#[derive(Debug)]
pub enum HostCall {
    ReadFile { path: String },
    EditFile { path: String, content: String },
    GetDiagnostics { path: Option<String> },
    Notify { message: String },
}

/// Where a method call went: answered here, or handed to the host.
#[derive(Debug)]
pub enum Routed {
    Done(Result<Json, AmpError>),
    Host(HostCall),
}

/// The IDE operation a method name selects; bare names and `ide/` names
/// select the same operation.
pub enum Operation {
    Ping,
    Authenticate,
    ReadFile,
    EditFile,
    GetDiagnostics,
    Notify,
    Command,
}

/// The routing table.
pub open spec fn operation_of(method: Seq<char>) -> Operation {
    if method == "ping"@ || method == "ide/ping"@ {
        Operation::Ping
    } else if method == "authenticate"@ {
        Operation::Authenticate
    } else if method == "readFile"@ || method == "ide/readFile"@ {
        Operation::ReadFile
    } else if method == "editFile"@ || method == "ide/editFile"@ {
        Operation::EditFile
    } else if method == "getDiagnostics"@ {
        Operation::GetDiagnostics
    } else if method == "nvim/notify"@ {
        Operation::Notify
    } else {
        Operation::Command
    }
}

/// What routing `method` with `params` at time `now` must give.
pub open spec fn route_ok(method: Seq<char>, params: JsonV, now: Seq<char>, r: Routed) -> bool {
    match operation_of(method) {
        Operation::Ping => r matches Routed::Done(Ok(v)) && v@ == ping_spec(params, now),
        Operation::Authenticate => r matches Routed::Done(Ok(v))
            && v@ == JsonV::Object(seq![("authenticated"@, JsonV::Bool(true))]),
        Operation::ReadFile => match str_member(params, "path"@) {
            Some(p) => r matches Routed::Host(HostCall::ReadFile { path }) && path@ == p,
            None => r matches Routed::Done(Err(AmpError::InvalidArgs { .. })),
        },
        Operation::EditFile => match (str_member(params, "path"@), str_member(params, "content"@)) {
            (Some(p), Some(c)) => r matches Routed::Host(HostCall::EditFile { path, content })
                && path@ == p && content@ == c,
            _ => r matches Routed::Done(Err(AmpError::InvalidArgs { .. })),
        },
        Operation::GetDiagnostics => match member(params, "path"@) {
            None => r matches Routed::Host(HostCall::GetDiagnostics { path: None }),
            Some(JsonV::Null) => r matches Routed::Host(HostCall::GetDiagnostics { path: None }),
            Some(JsonV::Str(s)) => r matches Routed::Host(HostCall::GetDiagnostics { path: Some(t) })
                && t@ == s,
            Some(_) => r matches Routed::Done(Err(AmpError::InvalidArgs { .. })),
        },
        Operation::Notify => match str_member(params, "message"@) {
            Some(m) => r matches Routed::Host(HostCall::Notify { message }) && message@ == m,
            None => r matches Routed::Done(Err(AmpError::InvalidArgs { .. })),
        },
        Operation::Command => match dispatch_spec(method, params) {
            Some(v) => r matches Routed::Done(Ok(x)) && x@ == v,
            None => r matches Routed::Done(Err(AmpError::CommandNotFound(c))) && c@ == method,
        },
    }
}

/// Routes a method call; `now` is the current time in RFC 3339, UTC.
pub fn route_method(method: &str, params: Json, now: &str) -> (r: Routed)
    ensures
        route_ok(method@, params@, now@, r),
{
    if str_eq(method, "ping") || str_eq(method, "ide/ping") {
        Routed::Done(ping(params, now))
    } else if str_eq(method, "authenticate") {
        Routed::Done(authenticate(params))
    } else if str_eq(method, "readFile") || str_eq(method, "ide/readFile") {
        match read_file_params(&params) {
            Ok(path) => Routed::Host(HostCall::ReadFile { path }),
            Err(e) => Routed::Done(Err(e)),
        }
    } else if str_eq(method, "editFile") || str_eq(method, "ide/editFile") {
        match edit_file_params(&params) {
            Ok((path, content)) => Routed::Host(HostCall::EditFile { path, content }),
            Err(e) => Routed::Done(Err(e)),
        }
    } else if str_eq(method, "getDiagnostics") {
        match get_diagnostics_params(&params) {
            Ok(path) => Routed::Host(HostCall::GetDiagnostics { path }),
            Err(e) => Routed::Done(Err(e)),
        }
    } else if str_eq(method, "nvim/notify") {
        match notify_params(&params) {
            Ok(message) => Routed::Host(HostCall::Notify { message }),
            Err(e) => Routed::Done(Err(e)),
        }
    } else {
        Routed::Done(dispatch(method, params))
    }
}

/// A decoded and routed message: where its response goes, and what it asks.
#[derive(Debug)]
pub struct Dispatch {
    pub reply: Reply,
    pub routed: Routed,
}

/// Parses, decodes and routes an incoming text frame. Malformed JSON is a
/// `SerdeError`; a message of neither dialect, or one whose id cannot be
/// read, gets no response. A request with a broken envelope is answered with
/// `InvalidRequest`.
pub fn handle_text(text: &str, now: &str) -> (r: Result<Dispatch, AmpError>)
    ensures
        parsed_json(text@) is None ==> r matches Err(AmpError::SerdeError(_)),
        parsed_json(text@) matches Some(v) ==> match decode_spec(norm_view(v)) {
            Err(k) => r matches Err(e) && rejected_as(k, e),
            Ok(IncomingV::Invalid { reply }) => r matches Ok(d) && d.reply@ == reply
                && d.routed matches Routed::Done(Err(AmpError::InvalidRequest(_))),
            Ok(IncomingV::Call { reply, method, params }) => r matches Ok(d) && d.reply@ == reply
                && route_ok(method, params, now@, d.routed),
        },
{
    let v = match parse_json(text) {
        Ok(v) => v,
        Err(m) => return Err(AmpError::SerdeError(m)),
    };
    match decode_message(v) {
        Ok(Incoming::Call { reply, method, params }) => {
            let routed = route_method(method.as_str(), params, now);
            Ok(Dispatch { reply, routed })
        },
        Ok(Incoming::Invalid { reply }) => Ok(Dispatch {
            reply,
            routed: Routed::Done(Err(AmpError::InvalidRequest(
                "a request carries exactly one method beside its id".to_owned(),
            ))),
        }),
        Err(e) => Err(e),
    }
}

/// `handle_text` at the current time: whatever the clock says, the outcome
/// is the one `handle_text` gives for some time stamp.
pub fn handle_text_now(text: &str) -> (r: Result<Dispatch, AmpError>)
    ensures
        parsed_json(text@) is None ==> r matches Err(AmpError::SerdeError(_)),
        parsed_json(text@) matches Some(v) ==> match decode_spec(norm_view(v)) {
            Err(k) => r matches Err(e) && rejected_as(k, e),
            Ok(IncomingV::Invalid { reply }) => r matches Ok(d) && d.reply@ == reply
                && d.routed matches Routed::Done(Err(AmpError::InvalidRequest(_))),
            Ok(IncomingV::Call { reply, method, params }) => r matches Ok(d) && d.reply@ == reply
                && exists|now: Seq<char>| is_utc_stamp(now) && route_ok(method, params, now, d.routed),
        },
{
    let now = crate::ide_ops::now_rfc3339();
    handle_text(text, now.as_str())
}

/// The text of a response, if any.
pub open spec fn replied(o: Option<String>, j: Option<JsonV>) -> bool {
    match (o, j) {
        (None, None) => true,
        (Some(s), Some(x)) => s@ == json_text(x),
        _ => false,
    }
}

/// Renders the text frame that answers a dispatched message.
pub fn complete(reply: Reply, result: Result<Json, AmpError>) -> (r: Option<String>)
    ensures
        replied(r, response_spec(reply@, outcome_view(result))),
{
    match respond(reply, result) {
        Some(j) => Some(to_json_string(&j)),
        None => None,
    }
}

/// The id a message carries: inside `clientRequest` for the wrapped
/// dialect, at the top level for JSON-RPC.
pub open spec fn request_id(v: JsonV) -> Option<JsonV> {
    match member(v, "clientRequest"@) {
        Some(inner) => member(inner, "id"@),
        None => member(v, "id"@),
    }
}

/// The id a response carries, in either dialect.
pub open spec fn response_id(j: JsonV) -> Option<JsonV> {
    match member(j, "serverResponse"@) {
        Some(inner) => member(inner, "id"@),
        None => member(j, "id"@),
    }
}

/// The reply target of a decoded message.
pub open spec fn reply_of(i: IncomingV) -> ReplyV {
    match i {
        IncomingV::Call { reply, .. } => reply,
        IncomingV::Invalid { reply } => reply,
    }
}

/// A JSON-RPC request envelope.
pub open spec fn jsonrpc_request_json(id: JsonV, method: Seq<char>, params: JsonV) -> JsonV {
    JsonV::Object(seq![
        ("jsonrpc"@, JsonV::Str("2.0"@)),
        ("id"@, id),
        ("method"@, JsonV::Str(method)),
        ("params"@, params),
    ])
}

/// The envelope keys are pairwise distinct.
proof fn lemma_keys_distinct()
    ensures
        "jsonrpc"@ != "id"@,
        "jsonrpc"@ != "method"@,
        "jsonrpc"@ != "params"@,
        "jsonrpc"@ != "clientRequest"@,
        "jsonrpc"@ != "serverResponse"@,
        "id"@ != "method"@,
        "id"@ != "params"@,
        "id"@ != "clientRequest"@,
        "id"@ != "serverResponse"@,
        "method"@ != "params"@,
        "method"@ != "clientRequest"@,
        "params"@ != "clientRequest"@,
        "result"@ != "serverResponse"@,
        "error"@ != "serverResponse"@,
        "result"@ != "id"@,
        "error"@ != "id"@,
{
    reveal_strlit("jsonrpc");
    reveal_strlit("id");
    reveal_strlit("method");
    reveal_strlit("params");
    reveal_strlit("clientRequest");
    reveal_strlit("serverResponse");
    reveal_strlit("result");
    reveal_strlit("error");
    assert("jsonrpc"@.len() == 7);
    assert("id"@.len() == 2);
    assert("method"@.len() == 6);
    assert("params"@.len() == 6);
    assert("method"@[0] != "params"@[0]);
    assert("clientRequest"@.len() == 13);
    assert("serverResponse"@.len() == 14);
    assert("result"@.len() == 6);
    assert("error"@.len() == 5);
}

/// Every request that carries a readable id gets exactly one response,
/// whatever its handler produced, and that response carries the same id.
pub proof fn law_request_answered_with_its_id(v: JsonV, outcome: Result<JsonV, (int, Seq<char>)>)
    requires
        decode_spec(v) is Ok,
        request_id(v) is Some,
    ensures
        response_spec(reply_of(decode_spec(v)->Ok_0), outcome) matches Some(j) && response_id(j)
            == request_id(v),
{
    lemma_keys_distinct();
    let reply = reply_of(decode_spec(v)->Ok_0);
    match member(v, "clientRequest"@) {
        Some(inner) => {
            let id = str_member(inner, "id"@)->Some_0;
            let data = match outcome {
                Ok(x) => seq![(reply->Wrapped_method, x)],
                Err((c, m)) => seq![("error"@, error_json(c, m))],
            };
            let inner_resp = seq![("id"@, JsonV::Str(id))] + data;
            let top = seq![("serverResponse"@, JsonV::Object(inner_resp))];
            lemma_first_at(top, "serverResponse"@, 0);
            lemma_first_at(inner_resp, "id"@, 0);
        },
        None => {
            let id = member(v, "id"@)->Some_0;
            let last = match outcome {
                Ok(x) => ("result"@, x),
                Err((c, m)) => ("error"@, error_json(c, m)),
            };
            let e = seq![("jsonrpc"@, JsonV::Str("2.0"@)), ("id"@, id), last];
            assert(!crate::json::has_entry(e, "serverResponse"@)) by {
                assert forall|i: int| 0 <= i < e.len() implies e[i].0 != "serverResponse"@ by {
                    if i == 2 {
                        assert(last.0 == "result"@ || last.0 == "error"@);
                    }
                }
            }
            lemma_first_at(e, "id"@, 1);
            assert(jsonrpc_response_json(id, outcome) == JsonV::Object(e));
        },
    }
}

/// A notification (a JSON-RPC message without an id) gets no response.
pub proof fn law_notification_unanswered(v: JsonV, outcome: Result<JsonV, (int, Seq<char>)>)
    requires
        member(v, "clientRequest"@) is None,
        member(v, "id"@) is None,
        decode_spec(v) is Ok,
    ensures
        response_spec(reply_of(decode_spec(v)->Ok_0), outcome) is None,
{
}

/// A wrapped request built from a method name, an id and parameters decodes
/// back to that method name, id and parameters.
pub proof fn law_wrapped_round_trip(id: Seq<char>, method: Seq<char>, params: JsonV)
    requires
        method != "id"@,
    ensures
        decode_spec(client_request_json(id, seq![(method, params)])) == Ok::<IncomingV, Rejection>(
            IncomingV::Call { reply: ReplyV::Wrapped { id, method }, method, params },
        ),
{
    let inner = seq![("id"@, JsonV::Str(id))] + seq![(method, params)];
    let top = seq![("clientRequest"@, JsonV::Object(inner))];
    lemma_first_at(top, "clientRequest"@, 0);
    lemma_first_at(inner, "id"@, 0);
    assert(inner.remove(0) =~= seq![(method, params)]);
}

/// A JSON-RPC request built from an id, a method name and parameters
/// decodes back to them.
pub proof fn law_jsonrpc_round_trip(id: JsonV, method: Seq<char>, params: JsonV)
    requires
        is_id(id),
    ensures
        decode_spec(jsonrpc_request_json(id, method, params)) == Ok::<IncomingV, Rejection>(
            IncomingV::Call { reply: ReplyV::JsonRpc { id }, method, params },
        ),
{
    lemma_keys_distinct();
    let e = seq![
        ("jsonrpc"@, JsonV::Str("2.0"@)),
        ("id"@, id),
        ("method"@, JsonV::Str(method)),
        ("params"@, params),
    ];
    assert(!crate::json::has_entry(e, "clientRequest"@));
    lemma_first_at(e, "jsonrpc"@, 0);
    lemma_first_at(e, "id"@, 1);
    lemma_first_at(e, "method"@, 2);
    lemma_first_at(e, "params"@, 3);
}

} // verus!
