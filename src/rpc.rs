//! The two wire dialects: JSON-RPC 2.0 and the wrapped
//! `clientRequest` / `serverResponse` / `serverNotification` envelopes.
use vstd::prelude::*;
use crate::errors::AmpError;
use crate::json::{entries_view, entry, json_view, lemma_object_view, Json, JsonV};

verus! {

/// A JSON-RPC id: a string or an integer.
#[derive(Debug, Clone, PartialEq, Eq, Hash)]
pub enum Id {
    String(String),
    Number(i64),
}

impl View for Id {
    type V = JsonV;

    /// The id as it stands on the wire.
    open spec fn view(&self) -> JsonV {
        match self {
            Id::String(s) => JsonV::Str(s@),
            Id::Number(n) => JsonV::Int(*n as int),
        }
    }
}

/// Whether a wire value can serve as an id.
pub open spec fn is_id(v: JsonV) -> bool {
    v is Str || (v matches JsonV::Int(n) && i64::MIN <= n <= i64::MAX)
}

impl Id {
    /// Reads an id from a wire value.
    pub fn from_json(v: &Json) -> (r: Option<Id>)
        ensures
            match r {
                Some(id) => is_id(v@) && id@ == v@,
                None => !is_id(v@),
            },
    {
        match v {
            Json::Str(s) => Some(Id::String(s.clone())),
            Json::Int(n) => Some(Id::Number(*n)),
            _ => None,
        }
    }

    /// The wire value of the id.
    pub fn to_json(&self) -> (r: Json)
        ensures
            r@ == self@,
    {
        match self {
            Id::String(s) => Json::Str(s.clone()),
            Id::Number(n) => Json::Int(*n),
        }
    }
}

/// JSON-RPC 2.0 request.
#[derive(Debug)]
pub struct Request {
    pub jsonrpc: String,
    pub id: Id,
    pub method: String,
    pub params: Json,
}

/// JSON-RPC 2.0 response: exactly one of `result` and `error` is set.
#[derive(Debug)]
pub struct Response {
    pub jsonrpc: String,
    pub id: Id,
    pub result: Option<Json>,
    pub error: Option<ErrorObject>,
}

/// JSON-RPC 2.0 notification.
#[derive(Debug)]
pub struct Notification {
    pub jsonrpc: String,
    pub method: String,
    pub params: Json,
}

/// JSON-RPC 2.0 error object.
#[derive(Debug)]
pub struct ErrorObject {
    pub code: i32,
    pub message: String,
    pub data: Option<Json>,
}

/// Wrapped-dialect request: `{"clientRequest": {...}}`.
#[derive(Debug)]
pub struct ClientRequest {
    pub client_request: ClientRequestInner,
}

/// Inside of a wrapped request: the id and the method-named members.
#[derive(Debug)]
pub struct ClientRequestInner {
    pub id: String,
    pub method_data: Vec<(String, Json)>,
}

/// Wrapped-dialect response: `{"serverResponse": {...}}`.
#[derive(Debug)]
pub struct ServerResponse {
    pub server_response: ServerResponseInner,
}

/// Inside of a wrapped response: the id and one method-named or `error` member.
#[derive(Debug)]
pub struct ServerResponseInner {
    pub id: String,
    pub response_data: Vec<(String, Json)>,
}

/// Wrapped-dialect notification: `{"serverNotification": {name: data}}`.
#[derive(Debug)]
pub struct ServerNotification {
    pub server_notification: Vec<(String, Json)>,
}

/// A wrapped request reduced to its id, method name and parameters.
#[derive(Debug)]
pub struct ParsedRequest {
    pub id: String,
    pub method: String,
    pub params: Json,
}

/// The error object `{code, message}` on the wire.
pub open spec fn error_json(code: int, message: Seq<char>) -> JsonV {
    JsonV::Object(seq![("code"@, JsonV::Int(code)), ("message"@, JsonV::Str(message))])
}

/// The error object with its optional `data` member.
pub open spec fn error_object_json(code: int, message: Seq<char>, data: Option<JsonV>) -> JsonV {
    match data {
        None => error_json(code, message),
        Some(d) => JsonV::Object(
            seq![("code"@, JsonV::Int(code)), ("message"@, JsonV::Str(message)), ("data"@, d)],
        ),
    }
}

/// The model of an optional value.
pub open spec fn opt_view(o: Option<Json>) -> Option<JsonV> {
    match o {
        Some(j) => Some(j@),
        None => None,
    }
}

/// A wrapped response envelope around its inner members.
pub open spec fn server_response_json(id: Seq<char>, data: Seq<(Seq<char>, JsonV)>) -> JsonV {
    JsonV::Object(seq![("serverResponse"@, JsonV::Object(seq![("id"@, JsonV::Str(id))] + data))])
}

/// A wrapped request envelope around its inner members.
pub open spec fn client_request_json(id: Seq<char>, data: Seq<(Seq<char>, JsonV)>) -> JsonV {
    JsonV::Object(seq![("clientRequest"@, JsonV::Object(seq![("id"@, JsonV::Str(id))] + data))])
}

/// A wrapped notification envelope.
pub open spec fn server_notification_json(name: Seq<char>, data: JsonV) -> JsonV {
    JsonV::Object(seq![("serverNotification"@, JsonV::Object(seq![(name, data)]))])
}

impl ErrorObject {
    /// The error object of a domain error, with its code and display text.
    pub fn from_error(e: &AmpError) -> (r: ErrorObject)
        ensures
            r.code as int == e.code_spec(),
            r.message@ == e.message_spec(),
            r.data is None,
    {
        ErrorObject { code: e.to_jsonrpc_code(), message: e.to_message(), data: None }
    }

    /// The wire value; `data` is left out when absent.
    pub fn to_json(self) -> (r: Json)
        ensures
            r@ == error_object_json(self.code as int, self.message@, opt_view(self.data)),
    {
        let ghost dv = opt_view(self.data);
        let mut e: Vec<(String, Json)> = Vec::new();
        e.push(entry("code", Json::Int(self.code as i64)));
        e.push(entry("message", Json::Str(self.message)));
        if let Some(d) = self.data {
            e.push(entry("data", d));
        }
        let r = Json::Object(e);
        proof {
            lemma_object_view(e);
            match dv {
                None => {
                    assert(entries_view(e@) =~= seq![("code"@, JsonV::Int(self.code as int)), ("message"@, JsonV::Str(self.message@))]);
                },
                Some(d) => {
                    assert(entries_view(e@) =~= seq![("code"@, JsonV::Int(self.code as int)), ("message"@, JsonV::Str(self.message@)), ("data"@, d)]);
                },
            }
        }
        r
    }
}

impl ClientRequest {
    /// The wire value of the request.
    pub open spec fn json_spec(&self) -> JsonV {
        client_request_json(self.client_request.id@, entries_view(self.client_request.method_data@))
    }

    /// Builds the wire value.
    pub fn to_json(self) -> (r: Json)
        ensures
            r@ == self.json_spec(),
    {
        let mut inner: Vec<(String, Json)> = Vec::new();
        inner.push(entry("id", Json::Str(self.client_request.id)));
        let mut data = self.client_request.method_data;
        let ghost dv = entries_view(data@);
        inner.append(&mut data);
        let mut outer: Vec<(String, Json)> = Vec::new();
        outer.push(entry("clientRequest", Json::Object(inner)));
        let ghost iv = inner;
        let ghost ov = outer;
        let r = Json::Object(outer);
        proof {
            lemma_object_view(iv);
            lemma_object_view(ov);
        }
        assert(entries_view(inner@) =~= seq![("id"@, JsonV::Str(self.client_request.id@))] + dv);
        assert(entries_view(outer@) =~= seq![("clientRequest"@, json_view(Json::Object(inner)))]);
        r
    }

    /// Splits the request into id, method name and parameters; the request
    /// must carry exactly one method-named member beside its id.
    pub fn parse(self) -> (r: Result<ParsedRequest, AmpError>)
        ensures
            self.client_request.method_data@.len() == 1 <==> r is Ok,
            r matches Ok(p) ==> {
                &&& p.id@ == self.client_request.id@
                &&& p.method@ == self.client_request.method_data@[0].0@
                &&& p.params@ == self.client_request.method_data@[0].1@
            },
            r matches Err(e) ==> e is InvalidRequest,
    {
        let mut data = self.client_request.method_data;
        if data.len() != 1 {
            return Err(AmpError::InvalidRequest("ClientRequest must have exactly one method".to_owned()));
        }
        let (method, params) = data.pop().unwrap();
        Ok(ParsedRequest { id: self.client_request.id, method, params })
    }
}

impl ServerResponse {
    /// The wire value of the response.
    pub open spec fn json_spec(&self) -> JsonV {
        server_response_json(self.server_response.id@, entries_view(self.server_response.response_data@))
    }

    /// A success response: the result stands under the method's name.
    pub fn success(id: String, method: String, result: Json) -> (r: ServerResponse)
        ensures
            r.json_spec() == server_response_json(id@, seq![(method@, result@)]),
    {
        let mut response_data: Vec<(String, Json)> = Vec::new();
        let ghost m = method@;
        let ghost v = result@;
        response_data.push((method, result));
        assert(entries_view(response_data@) =~= seq![(m, v)]);
        ServerResponse { server_response: ServerResponseInner { id, response_data } }
    }

    /// An error response: the error object stands under `error`.
    pub fn error(id: String, error: ErrorObject) -> (r: ServerResponse)
        ensures
            r.json_spec() == server_response_json(
                id@,
                seq![("error"@, error_object_json(error.code as int, error.message@, opt_view(error.data)))],
            ),
    {
        let ghost ev = error_object_json(error.code as int, error.message@, opt_view(error.data));
        let mut response_data: Vec<(String, Json)> = Vec::new();
        response_data.push(entry("error", error.to_json()));
        assert(entries_view(response_data@) =~= seq![("error"@, ev)]);
        ServerResponse { server_response: ServerResponseInner { id, response_data } }
    }

    /// Builds the wire value.
    pub fn to_json(self) -> (r: Json)
        ensures
            r@ == self.json_spec(),
    {
        let mut inner: Vec<(String, Json)> = Vec::new();
        inner.push(entry("id", Json::Str(self.server_response.id)));
        let mut data = self.server_response.response_data;
        let ghost dv = entries_view(data@);
        inner.append(&mut data);
        let mut outer: Vec<(String, Json)> = Vec::new();
        outer.push(entry("serverResponse", Json::Object(inner)));
        let ghost iv = inner;
        let ghost ov = outer;
        let r = Json::Object(outer);
        proof {
            lemma_object_view(iv);
            lemma_object_view(ov);
        }
        assert(entries_view(inner@) =~= seq![("id"@, JsonV::Str(self.server_response.id@))] + dv);
        assert(entries_view(outer@) =~= seq![("serverResponse"@, json_view(Json::Object(inner)))]);
        r
    }
}

impl ServerNotification {
    /// A notification carrying `data` under its name.
    pub fn new(notification_name: String, data: Json) -> (r: ServerNotification)
        ensures
            entries_view(r.server_notification@) == seq![(notification_name@, data@)],
    {
        let mut server_notification: Vec<(String, Json)> = Vec::new();
        let ghost n = notification_name@;
        let ghost d = data@;
        server_notification.push((notification_name, data));
        assert(entries_view(server_notification@) =~= seq![(n, d)]);
        ServerNotification { server_notification }
    }

    /// Builds the wire value.
    pub fn to_json(self) -> (r: Json)
        ensures
            r@ == JsonV::Object(seq![("serverNotification"@, JsonV::Object(entries_view(self.server_notification@)))]),
    {
        let mut outer: Vec<(String, Json)> = Vec::new();
        let ghost sv = self.server_notification;
        proof {
            lemma_object_view(sv);
        }
        outer.push(entry("serverNotification", Json::Object(self.server_notification)));
        let ghost ov = outer;
        let r = Json::Object(outer);
        proof {
            lemma_object_view(ov);
        }
        assert(entries_view(outer@) =~= seq![("serverNotification"@, JsonV::Object(entries_view(self.server_notification@)))]);
        r
    }
}

} // verus!
