//! The messages of the protocol and their line encodings.
//!
//! A request carries an id, the name of an action and positional JSON
//! parameters. A response is tagged by `status`: `"ok"` with a `result`, or
//! `"error"` with an `error` message; both repeat the request's id. An event
//! is an unsolicited message `{"type":"event","event":..,"data":..}` whose
//! `data` field is left out when there is no payload.

use serde_json::Value;
use vstd::prelude::*;
use vstd::string::*;

use crate::json::{
    json_string_text, json_string_value, json_text_of_value, lemma_json_string_roundtrip,
    lemma_json_string_single_line, str_to_json, value_to_json,
};

verus! {

/// A request from the host: `{"id":..,"action":..,"params":[..]}`.
#[derive(Debug, Clone, PartialEq)]
pub struct Request {
    /// Identifier that the response repeats.
    pub id: String,
    /// Name of the action to invoke.
    pub action: String,
    /// Positional parameters of the action.
    pub params: Vec<Value>,
}

/// A response to one request.
#[derive(Debug, Clone, PartialEq)]
pub enum Response {
    /// The action succeeded with `result`.
    Success { id: String, result: Value },
    /// The action failed, or could not be run, with the message `error`.
    Error { id: String, error: String },
}

/// An unsolicited event, with an optional JSON payload.
#[derive(Debug, Clone, PartialEq)]
pub struct Event {
    /// Name of the event.
    pub event: String,
    /// Payload; the encoded event has no `data` field when it is `None`.
    pub data: Option<Value>,
}

/// A message could not be rendered as JSON text. The renderings here never
/// fail (strings and JSON values always render), so no function of this
/// library returns it; it stands in the signatures where rendering is
/// fallible in general.
#[derive(Debug, Clone, Copy, PartialEq, Eq)]
pub enum EncodeError {
    Serialization,
}

/// A text that holds no `'\n'`.
pub open spec fn single_line(s: Seq<char>) -> bool {
    !s.contains('\n')
}

/// Two texts without `'\n'` make one without it.
pub proof fn lemma_single_line_concat(a: Seq<char>, b: Seq<char>)
    requires
        single_line(a),
        single_line(b),
    ensures
        single_line(a + b),
{
    if (a + b).contains('\n') {
        let i = choose|i: int| 0 <= i < (a + b).len() && (a + b)[i] == '\n';
        if i < a.len() {
            assert(a[i] == '\n');
        } else {
            assert(b[i - a.len()] == '\n');
        }
    }
}

/// The object `{"status":"ok","id":<id>,"result":<result>}`, from the JSON
/// texts of its id and result.
pub open spec fn success_object_text(id_json: Seq<char>, result_json: Seq<char>) -> Seq<char> {
    "{\"status\":\"ok\",\"id\":"@ + id_json + ",\"result\":"@ + result_json + "}"@
}

/// The object `{"status":"error","id":<id>,"error":<error>}`, from the JSON
/// texts of its id and message.
pub open spec fn error_object_text(id_json: Seq<char>, error_json: Seq<char>) -> Seq<char> {
    "{\"status\":\"error\",\"id\":"@ + id_json + ",\"error\":"@ + error_json + "}"@
}

/// The object `{"type":"event","event":<name>}`, with `,"data":<data>`
/// before the closing brace where there is a payload, from the JSON texts
/// of its name and payload.
pub open spec fn event_object_text(name_json: Seq<char>, data_json: Option<Seq<char>>) -> Seq<char> {
    match data_json {
        None => "{\"type\":\"event\",\"event\":"@ + name_json + "}"@,
        Some(d) => "{\"type\":\"event\",\"event\":"@ + name_json + ",\"data\":"@ + d + "}"@,
    }
}

/// The object `{"status":"error","error":<error>}` that answers text that
/// is no request, from the JSON text of its message.
pub open spec fn parse_error_object_text(error_json: Seq<char>) -> Seq<char> {
    "{\"status\":\"error\",\"error\":"@ + error_json + "}"@
}

/// The JSON text of a response: the `status` tag first, then the id, then
/// the result or the error message.
pub open spec fn response_text(resp: Response) -> Seq<char> {
    match resp {
        Response::Success { id, result } => success_object_text(json_string_text(id@), json_text_of_value(result)),
        Response::Error { id, error } => error_object_text(json_string_text(id@), json_string_text(error@)),
    }
}

/// The JSON text of an event named `event` with the payload `data`.
pub open spec fn event_text(event: Seq<char>, data: Option<Value>) -> Seq<char> {
    event_object_text(
        json_string_text(event),
        match data {
            None => None,
            Some(v) => Some(json_text_of_value(v)),
        },
    )
}

/// The string fields of a rendered response are JSON string literals that
/// read back as the response's own strings: its id, and the message of an
/// error.
pub proof fn lemma_response_strings_read_back(resp: Response)
    ensures
        resp matches Response::Success { id, result } ==> response_text(resp) == success_object_text(
            json_string_text(id@),
            json_text_of_value(result),
        ) && json_string_value(json_string_text(id@)) == Some(id@),
        resp matches Response::Error { id, error } ==> response_text(resp) == error_object_text(
            json_string_text(id@),
            json_string_text(error@),
        ) && json_string_value(json_string_text(id@)) == Some(id@) && json_string_value(
            json_string_text(error@),
        ) == Some(error@),
        resp matches Response::Success { id, result } ==> response_text(resp) == "{\"status\":\"ok\",\"id\":"@
            + json_string_text(id@) + ",\"result\":"@ + json_text_of_value(result) + "}"@,
        resp matches Response::Error { id, error } ==> response_text(resp) == "{\"status\":\"error\",\"id\":"@
            + json_string_text(id@) + ",\"error\":"@ + json_string_text(error@) + "}"@,
{
    match resp {
        Response::Success { id, result } => {
            lemma_json_string_roundtrip(id@);
        },
        Response::Error { id, error } => {
            lemma_json_string_roundtrip(id@);
            lemma_json_string_roundtrip(error@);
        },
    }
}

/// The objects put each part under its own key, whatever the texts of the
/// parts: the id under `"id"`, the result under `"result"`, the message
/// under `"error"`, the event name under `"event"` and the payload under
/// `"data"`, after the tag.
pub proof fn lemma_objects_place_fields(a: Seq<char>, b: Seq<char>)
    ensures
        success_object_text(a, b) == "{\"status\":\"ok\",\"id\":"@ + a + ",\"result\":"@ + b + "}"@,
        error_object_text(a, b) == "{\"status\":\"error\",\"id\":"@ + a + ",\"error\":"@ + b + "}"@,
        parse_error_object_text(a) == "{\"status\":\"error\",\"error\":"@ + a + "}"@,
        event_object_text(a, None) == "{\"type\":\"event\",\"event\":"@ + a + "}"@,
        event_object_text(a, Some(b)) == "{\"type\":\"event\",\"event\":"@ + a + ",\"data\":"@ + b + "}"@,
{
}

/// The name in a rendered event is a JSON string literal that reads back as
/// the event's name, and the payload, where there is one, is its JSON text.
pub proof fn lemma_event_strings_read_back(event: Seq<char>, data: Option<Value>)
    ensures
        json_string_value(json_string_text(event)) == Some(event),
        data matches Some(v) ==> event_text(event, data) == "{\"type\":\"event\",\"event\":"@
            + json_string_text(event) + ",\"data\":"@ + json_text_of_value(v) + "}"@,
        data is None ==> event_text(event, data) == "{\"type\":\"event\",\"event\":"@ + json_string_text(event)
            + "}"@,
{
    lemma_json_string_roundtrip(event);
}

/// Joins `a`, `b` and `c` into one text; without `'\n'` in any of them
/// there is none in the whole.
fn join3(a: &str, b: &str, c: &str) -> (t: String)
    ensures
        t@ == a@ + b@ + c@,
        single_line(a@) && single_line(b@) && single_line(c@) ==> single_line(t@),
{
    let mut t = String::from_str(a);
    t.append(b);
    t.append(c);
    proof {
        if single_line(a@) && single_line(b@) && single_line(c@) {
            lemma_single_line_concat(a@, b@);
            lemma_single_line_concat(a@ + b@, c@);
        }
    }
    t
}

/// Joins `head` and the two parts of an object into one text, as `join3`.
fn join5(head: &str, x: &str, sep: &str, y: &str, tail: &str) -> (t: String)
    ensures
        t@ == head@ + x@ + sep@ + y@ + tail@,
        single_line(head@) && single_line(x@) && single_line(sep@) && single_line(y@) && single_line(tail@)
            ==> single_line(t@),
{
    let mut t = join3(head, x, sep);
    let ghost first = t@;
    t.append(y);
    t.append(tail);
    proof {
        if single_line(first) && single_line(y@) && single_line(tail@) {
            lemma_single_line_concat(first, y@);
            lemma_single_line_concat(first + y@, tail@);
        }
    }
    t
}

/// The success object with the given JSON texts of id and result.
pub fn success_object(id_json: &str, result_json: &str) -> (t: String)
    ensures
        t@ == success_object_text(id_json@, result_json@),
        single_line(id_json@) && single_line(result_json@) ==> single_line(t@),
{
    proof {
        reveal_strlit("{\"status\":\"ok\",\"id\":");
        reveal_strlit(",\"result\":");
        reveal_strlit("}");
    }
    join5("{\"status\":\"ok\",\"id\":", id_json, ",\"result\":", result_json, "}")
}

/// The error object with the given JSON texts of id and message.
pub fn error_object(id_json: &str, error_json: &str) -> (t: String)
    ensures
        t@ == error_object_text(id_json@, error_json@),
        single_line(id_json@) && single_line(error_json@) ==> single_line(t@),
{
    proof {
        reveal_strlit("{\"status\":\"error\",\"id\":");
        reveal_strlit(",\"error\":");
        reveal_strlit("}");
    }
    join5("{\"status\":\"error\",\"id\":", id_json, ",\"error\":", error_json, "}")
}

/// The object that answers text that is no request, with the given JSON
/// text of its message.
pub fn parse_error_object(error_json: &str) -> (t: String)
    ensures
        t@ == parse_error_object_text(error_json@),
        single_line(error_json@) ==> single_line(t@),
{
    proof {
        reveal_strlit("{\"status\":\"error\",\"error\":");
        reveal_strlit("}");
    }
    join3("{\"status\":\"error\",\"error\":", error_json, "}")
}

/// The event object with the given JSON texts of name and payload.
pub fn event_object(name_json: &str, data_json: Option<&str>) -> (t: String)
    ensures
        t@ == event_object_text(name_json@, (match data_json { Some(d) => Some(d@), None => None })),
        single_line(name_json@) && (data_json matches Some(d) ==> single_line(d@)) ==> single_line(t@),
{
    proof {
        reveal_strlit("{\"type\":\"event\",\"event\":");
        reveal_strlit(",\"data\":");
        reveal_strlit("}");
    }
    match data_json {
        None => join3("{\"type\":\"event\",\"event\":", name_json, "}"),
        Some(d) => join5("{\"type\":\"event\",\"event\":", name_json, ",\"data\":", d, "}"),
    }
}

impl Response {
    /// The id of the request this response answers.
    pub open spec fn spec_id(self) -> String {
        match self {
            Response::Success { id, .. } => id,
            Response::Error { id, .. } => id,
        }
    }

    /// Renders the response as one line of JSON text (without the line
    /// terminator).
    pub fn to_json(&self) -> (r: Result<String, EncodeError>)
        ensures
            r is Ok,
            r matches Ok(t) ==> t@ == response_text(*self),
            r matches Ok(t) ==> single_line(t@),
    {
        match self {
            Response::Success { id, result } => {
                let i = match str_to_json(id.as_str()) {
                    Ok(t) => t,
                    Err(_) => return Err(EncodeError::Serialization),
                };
                let r = match value_to_json(result) {
                    Ok(t) => t,
                    Err(_) => return Err(EncodeError::Serialization),
                };
                proof {
                    lemma_json_string_single_line(id@);
                }
                Ok(success_object(i.as_str(), r.as_str()))
            },
            Response::Error { id, error } => {
                let i = match str_to_json(id.as_str()) {
                    Ok(t) => t,
                    Err(_) => return Err(EncodeError::Serialization),
                };
                let e = match str_to_json(error.as_str()) {
                    Ok(t) => t,
                    Err(_) => return Err(EncodeError::Serialization),
                };
                proof {
                    lemma_json_string_single_line(id@);
                    lemma_json_string_single_line(error@);
                }
                Ok(error_object(i.as_str(), e.as_str()))
            },
        }
    }
}

impl Event {
    /// An event named `event` with the payload `data`.
    pub fn new(event: &str, data: Option<Value>) -> (e: Event)
        ensures
            e.event@ == event@,
            e.data == data,
    {
        Event { event: String::from_str(event), data }
    }

    /// Renders the event as one line of JSON text (without the line
    /// terminator).
    pub fn to_json(&self) -> (r: Result<String, EncodeError>)
        ensures
            r is Ok,
            r matches Ok(t) ==> t@ == event_text(self.event@, self.data),
            r matches Ok(t) ==> single_line(t@),
    {
        let name = match str_to_json(self.event.as_str()) {
            Ok(t) => t,
            Err(_) => return Err(EncodeError::Serialization),
        };
        proof {
            lemma_json_string_single_line(self.event@);
        }
        match &self.data {
            None => Ok(event_object(name.as_str(), None)),
            Some(v) => {
                let d = match value_to_json(v) {
                    Ok(t) => t,
                    Err(_) => return Err(EncodeError::Serialization),
                };
                Ok(event_object(name.as_str(), Some(d.as_str())))
            },
        }
    }
}

} // verus!
