//! The server core: the table of action handlers, the dispatch of requests,
//! and the lines that the server writes back.
//!
//! Reading from the input stream and writing to the output stream belong to
//! the caller; this module decides what is written for each line that is
//! read and for each event that is emitted.

use serde_json::Value;
use vstd::prelude::*;
use vstd::string::*;

use crate::lines::{
    frame, framed, invalid_json_reply, invalid_json_text, is_one_line, serialization_failed_reply,
    serialization_failed_text,
};
use crate::json::{json_string_text, json_string_value, json_text_of_value, lemma_json_string_roundtrip};
use crate::protocol::{
    event_text, lemma_objects_place_fields, response_text, single_line, EncodeError, Event, Request, Response,
};

verus! {

/// The line written for a response.
pub open spec fn response_line(resp: Response) -> Seq<char> {
    framed(response_text(resp))
}

/// The line written for an event.
pub open spec fn event_line(event: Seq<char>, data: Option<Value>) -> Seq<char> {
    framed(event_text(event, data))
}

/// An event line is the tag, the event's full name as a JSON string literal
/// under `"event"`, the payload's JSON text under `"data"` where there is a
/// payload, and one `'\n'`; the name reads back exactly.
pub proof fn lemma_event_line_fields(event: Seq<char>, data: Option<Value>)
    ensures
        json_string_value(json_string_text(event)) == Some(event),
        data is None ==> event_line(event, data) == "{\"type\":\"event\",\"event\":"@ + json_string_text(event)
            + "}"@ + seq!['\n'],
        data matches Some(v) ==> event_line(event, data) == "{\"type\":\"event\",\"event\":"@
            + json_string_text(event) + ",\"data\":"@ + json_text_of_value(v) + "}"@ + seq!['\n'],
{
    lemma_json_string_roundtrip(event);
    lemma_objects_place_fields(json_string_text(event), seq![]);
    if let Some(v) = data {
        lemma_objects_place_fields(json_string_text(event), json_text_of_value(v));
    }
}

/// The line written for a response is its object and one `'\n'`: the id as
/// a JSON string literal under `"id"`, then the result's JSON text under
/// `"result"` or the message as a JSON string literal under `"error"`.
pub proof fn lemma_response_line_fields(resp: Response)
    ensures
        resp matches Response::Success { id, result } ==> response_line(resp) == "{\"status\":\"ok\",\"id\":"@
            + json_string_text(id@) + ",\"result\":"@ + json_text_of_value(result) + "}"@ + seq!['\n'],
        resp matches Response::Error { id, error } ==> response_line(resp) == "{\"status\":\"error\",\"id\":"@
            + json_string_text(id@) + ",\"error\":"@ + json_string_text(error@) + "}"@ + seq!['\n'],
{
    match resp {
        Response::Success { id, result } => {
            lemma_objects_place_fields(json_string_text(id@), json_text_of_value(result));
        },
        Response::Error { id, error } => {
            lemma_objects_place_fields(json_string_text(id@), json_string_text(error@));
        },
    }
}

/// Turns events into output lines. Every line it gives is one JSON object
/// followed by a single `'\n'`; the caller writes it to the output stream
/// shared with the responses.
#[derive(Debug, Clone, Copy)]
pub struct EventEmitter {}

impl EventEmitter {
    /// An emitter.
    pub fn new() -> (e: EventEmitter) {
        EventEmitter {}
    }

    /// The line for the event `event` with the payload `data`.
    pub fn emit(&self, event: &str, data: Value) -> (r: Result<String, EncodeError>)
        ensures
            r is Ok,
            r matches Ok(l) ==> l@ == event_line(event@, Some(data)),
            r matches Ok(l) ==> is_one_line(l@),
    {
        self.emit_value(event, Some(data))
    }

    /// The line for the event `event` without a payload.
    pub fn emit_empty(&self, event: &str) -> (r: Result<String, EncodeError>)
        ensures
            r is Ok,
            r matches Ok(l) ==> l@ == event_line(event@, None),
            r matches Ok(l) ==> is_one_line(l@),
    {
        self.emit_value(event, None)
    }

    fn emit_value(&self, event: &str, data: Option<Value>) -> (r: Result<String, EncodeError>)
        ensures
            r is Ok,
            r matches Ok(l) ==> l@ == event_line(event@, data),
            r matches Ok(l) ==> is_one_line(l@),
    {
        let ev = Event::new(event, data);
        match ev.to_json() {
            Ok(text) => Ok(frame(text)),
            Err(e) => Err(e),
        }
    }
}

/// A handler accepts every parameter list: the server may call it on
/// whatever a request carries.
pub open spec fn accepts_all_params<H: Fn(Vec<Value>) -> Result<Value, String>>(h: H) -> bool {
    forall|p: Vec<Value>| call_requires(h, (p,))
}

/// The message of the error response to a request for an action that has
/// no handler.
pub open spec fn unknown_action_message(action: Seq<char>) -> Seq<char> {
    "unknown action: "@ + action
}

/// The response that a handler's outcome gives for the request `id`.
pub open spec fn outcome_response(id: String, out: Result<Value, String>) -> Response {
    match out {
        Ok(v) => Response::Success { id, result: v },
        Err(m) => Response::Error { id, error: m },
    }
}

/// A JSON-RPC server core: a table from action names to handlers, and the
/// framing of the lines that answer requests and announce events.
pub struct BinaryServer<H> {
    handlers: Vec<(String, H)>,
    emitter: EventEmitter,
}

impl<H: Fn(Vec<Value>) -> Result<Value, String>> View for BinaryServer<H> {
    type V = Map<Seq<char>, H>;

    /// The handler of each registered action.
    closed spec fn view(&self) -> Map<Seq<char>, H> {
        Map::new(
            |k: Seq<char>| exists|i: int| 0 <= i < self.handlers@.len() && #[trigger] self.handlers@[i].0@ == k,
            |k: Seq<char>| self.handlers@[self.index_of(k)].1,
        )
    }
}

impl<H: Fn(Vec<Value>) -> Result<Value, String>> BinaryServer<H> {
    /// The position of the action `k` in the table.
    closed spec fn index_of(&self, k: Seq<char>) -> int {
        choose|i: int| 0 <= i < self.handlers@.len() && #[trigger] self.handlers@[i].0@ == k
    }

    /// Each action appears once in the table, and every handler accepts
    /// every parameter list.
    pub closed spec fn wf(&self) -> bool {
        &&& forall|i: int, j: int|
            0 <= i < j < self.handlers@.len() ==> #[trigger] self.handlers@[i].0@ != #[trigger] self.handlers@[j].0@
        &&& forall|i: int| 0 <= i < self.handlers@.len() ==> accepts_all_params(#[trigger] self.handlers@[i].1)
    }

    proof fn lemma_index_of(&self, i: int)
        requires
            self.wf(),
            0 <= i < self.handlers@.len(),
        ensures
            self.index_of(self.handlers@[i].0@) == i,
            self@.contains_key(self.handlers@[i].0@),
            self@[self.handlers@[i].0@] == self.handlers@[i].1,
    {
        let k = self.handlers@[i].0@;
        assert(self.handlers@[i].0@ == k);
        let j = self.index_of(k);
        if j != i {
            if j < i {
                assert(self.handlers@[j].0@ != self.handlers@[i].0@);
            } else {
                assert(self.handlers@[i].0@ != self.handlers@[j].0@);
            }
        }
    }

    /// The response that `resp` may be to `req`: the outcome of the
    /// action's handler on the request's parameters, or, where no handler is
    /// registered for the action, an error that names the action. Either way
    /// the response carries the request's id.
    pub open spec fn answers(&self, req: Request, resp: Response) -> bool {
        if self@.contains_key(req.action@) {
            exists|out: Result<Value, String>|
                call_ensures(self@[req.action@], (req.params,), out) && resp == #[trigger] outcome_response(req.id, out)
        } else {
            resp matches Response::Error { id, error } && id == req.id && error@ == unknown_action_message(req.action@)
        }
    }

    /// The handler table after `register(action, h)` holds `h` for
    /// `action`: a request for `action` is answered with `h`'s outcome, and
    /// a request for any other action is answered as before.
    pub proof fn lemma_register_then_answer(
        before: &Self,
        after: &Self,
        action: Seq<char>,
        h: H,
        req: Request,
        resp: Response,
    )
        requires
            after@ == before@.insert(action, h),
        ensures
            req.action@ == action ==> (after.answers(req, resp) <==> exists|out: Result<Value, String>|
                call_ensures(h, (req.params,), out) && resp == #[trigger] outcome_response(req.id, out)),
            req.action@ != action ==> (after.answers(req, resp) <==> before.answers(req, resp)),
    {
    }

    /// Registering an action that has no handler yet adds one to the count
    /// of actions; registering one that has a handler replaces it and keeps
    /// the count.
    pub proof fn lemma_register_count(before: &Self, after: &Self, action: Seq<char>, h: H)
        requires
            before.wf(),
            after@ == before@.insert(action, h),
        ensures
            after@.len() == before@.len() + if before@.contains_key(action) { 0int } else { 1int },
    {
        before.lemma_len();
    }

    /// Where the action's handler can only return `out` on the request's
    /// parameters, the answer is fixed by it: `Ok(v)` is a success with
    /// result `v` and `Err(m)` an error with message `m`, both with the
    /// request's id; and the line written for the answer carries exactly
    /// these.
    pub proof fn lemma_handler_outcome_decides(&self, req: Request, resp: Response, out: Result<Value, String>)
        requires
            self.answers(req, resp),
            self@.contains_key(req.action@),
            forall|o: Result<Value, String>| #[trigger] call_ensures(self@[req.action@], (req.params,), o) ==> o == out,
        ensures
            out matches Ok(v) ==> resp == (Response::Success { id: req.id, result: v }),
            out matches Err(m) ==> resp == (Response::Error { id: req.id, error: m }),
            out matches Ok(v) ==> response_line(resp) == "{\"status\":\"ok\",\"id\":"@ + json_string_text(req.id@)
                + ",\"result\":"@ + json_text_of_value(v) + "}"@ + seq!['\n'],
            out matches Err(m) ==> response_line(resp) == "{\"status\":\"error\",\"id\":"@
                + json_string_text(req.id@) + ",\"error\":"@ + json_string_text(m@) + "}"@ + seq!['\n'],
    {
        let o = choose|o: Result<Value, String>|
            call_ensures(self@[req.action@], (req.params,), o) && resp == #[trigger] outcome_response(req.id, o);
        assert(o == out);
        lemma_response_line_fields(resp);
    }

    /// A request for an action without a handler is answered with an error
    /// that carries the request's id and the message `unknown action: `
    /// followed by the action, and the line written for it carries exactly
    /// these.
    pub proof fn lemma_unknown_action_answer(&self, req: Request, resp: Response)
        requires
            self.answers(req, resp),
            !self@.contains_key(req.action@),
        ensures
            resp matches Response::Error { id, error } && id == req.id && error@ == "unknown action: "@ + req.action@,
            response_line(resp) == "{\"status\":\"error\",\"id\":"@ + json_string_text(req.id@) + ",\"error\":"@
                + json_string_text("unknown action: "@ + req.action@) + "}"@ + seq!['\n'],
    {
        lemma_response_line_fields(resp);
    }

    /// Every answer repeats the id of the request it answers.
    pub proof fn lemma_answer_keeps_id(&self, req: Request, resp: Response)
        requires
            self.answers(req, resp),
        ensures
            resp.spec_id() == req.id,
    {
        if self@.contains_key(req.action@) {
            let out = choose|out: Result<Value, String>|
                call_ensures(self@[req.action@], (req.params,), out) && resp == #[trigger] outcome_response(
                    req.id,
                    out,
                );
        }
    }

    /// A server with no handlers.
    pub fn new() -> (s: Self)
        ensures
            s.wf(),
            s@ == Map::<Seq<char>, H>::empty(),
    {
        let s = BinaryServer { handlers: Vec::new(), emitter: EventEmitter::new() };
        assert(s@ =~= Map::<Seq<char>, H>::empty());
        s
    }

    /// The emitter for events on the server's output.
    pub fn emitter(&self) -> (e: EventEmitter) {
        self.emitter
    }

    /// The position of `action` in the table, if it is registered.
    fn find(&self, action: &String) -> (r: Option<usize>)
        requires
            self.wf(),
        ensures
            r is None <==> !self@.contains_key(action@),
            r matches Some(i) ==> i < self.handlers@.len() && self.handlers@[i as int].0@ == action@,
    {
        let n = self.handlers.len();
        let mut i: usize = 0;
        while i < n
            invariant
                n == self.handlers@.len(),
                i <= n,
                forall|j: int| 0 <= j < i ==> self.handlers@[j].0@ != action@,
            decreases n - i,
        {
            if self.handlers[i].0 == *action {
                return Some(i);
            }
            i = i + 1;
        }
        assert(!self@.contains_key(action@));
        None
    }

    /// Registers `handler` for `action`, replacing the handler that the
    /// action had before.
    pub fn register(&mut self, action: &str, handler: H)
        requires
            old(self).wf(),
            accepts_all_params(handler),
        ensures
            final(self).wf(),
            final(self)@ == old(self)@.insert(action@, handler),
    {
        let key = String::from_str(action);
        let ghost old_table = self.handlers@;
        match self.find(&key) {
            Some(i) => {
                self.handlers.set(i, (key, handler));
                proof {
                    self.lemma_index_of(i as int);
                    assert forall|k: Seq<char>| old(self)@.contains_key(k) && k != action@
                        implies #[trigger] self@.contains_key(k) && self@[k] == old(self)@[k] by {
                        let j = old(self).index_of(k);
                        old(self).lemma_index_of(j);
                        self.lemma_index_of(j);
                    }
                    assert forall|k: Seq<char>| #[trigger] self@.contains_key(k)
                        implies k == action@ || old(self)@.contains_key(k) by {
                        let j = self.index_of(k);
                        if j != i {
                            assert(old_table[j].0@ == k);
                        }
                    }
                    assert(self@ =~= old(self)@.insert(action@, handler));
                }
            },
            None => {
                self.handlers.push((key, handler));
                proof {
                    let n = old_table.len() as int;
                    assert(self.handlers@[n].0@ == action@);
                    assert forall|k: Seq<char>| old(self)@.contains_key(k)
                        implies #[trigger] self@.contains_key(k) && self@[k] == old(self)@[k] by {
                        let j = old(self).index_of(k);
                        old(self).lemma_index_of(j);
                        self.lemma_index_of(j);
                    }
                    self.lemma_index_of(n);
                    assert forall|k: Seq<char>| #[trigger] self@.contains_key(k)
                        implies k == action@ || old(self)@.contains_key(k) by {
                        let j = self.index_of(k);
                        if j < n {
                            assert(old_table[j].0@ == k);
                        }
                    }
                    assert(self@ =~= old(self)@.insert(action@, handler));
                }
            },
        }
    }

    /// The actions of the table, in the order of the table.
    closed spec fn actions(&self) -> Seq<Seq<char>> {
        self.handlers@.map_values(|e: (String, H)| e.0@)
    }

    proof fn lemma_len(&self)
        requires
            self.wf(),
        ensures
            self@.dom().finite(),
            self@.len() == self.handlers@.len(),
    {
        let keys = self.actions();
        assert forall|i: int, j: int| 0 <= i < keys.len() && 0 <= j < keys.len() && i != j
            implies keys[i] != keys[j] by {
            if i < j {
                assert(self.handlers@[i].0@ != self.handlers@[j].0@);
            } else {
                assert(self.handlers@[j].0@ != self.handlers@[i].0@);
            }
        }
        assert forall|k: Seq<char>| #[trigger] self@.dom().contains(k) <==> keys.to_set().contains(k) by {
            if self@.dom().contains(k) {
                let i = self.index_of(k);
                assert(keys[i] == k);
            }
            if keys.to_set().contains(k) {
                let i = choose|i: int| 0 <= i < keys.len() && keys[i] == k;
                assert(self.handlers@[i].0@ == k);
            }
        }
        assert(self@.dom() =~= keys.to_set());
        keys.unique_seq_to_set();
    }

    /// The number of registered actions.
    pub fn handler_count(&self) -> (n: usize)
        requires
            self.wf(),
        ensures
            n == self@.len(),
    {
        proof {
            self.lemma_len();
        }
        self.handlers.len()
    }

    /// Whether a handler is registered for `action`.
    pub fn has_handler(&self, action: &str) -> (b: bool)
        requires
            self.wf(),
        ensures
            b == self@.contains_key(action@),
    {
        let key = String::from_str(action);
        self.find(&key).is_some()
    }

    /// Answers one request: runs the action's handler on the parameters and
    /// turns its outcome into a response, or answers with an error that
    /// names the action when it has no handler.
    pub fn handle_request(&self, req: Request) -> (resp: Response)
        requires
            self.wf(),
        ensures
            self.answers(req, resp),
    {
        let ghost req0 = req;
        match self.find(&req.action) {
            Some(i) => {
                proof {
                    self.lemma_index_of(i as int);
                }
                let Request { id, action, params } = req;
                let out = (self.handlers[i].1)(params);
                let resp = match out {
                    Ok(result) => Response::Success { id, result },
                    Err(error) => Response::Error { id, error },
                };
                assert(resp == outcome_response(req0.id, out));
                resp
            },
            None => {
                let mut error = String::from_str("unknown action: ");
                error.append(req.action.as_str());
                Response::Error { id: req.id, error }
            },
        }
    }
}

impl<H: Fn(Vec<Value>) -> Result<Value, String>> BinaryServer<H> {
    /// The line for the event `event` with the payload `data`.
    pub fn emit_event(&self, event: &str, data: Value) -> (r: Result<String, EncodeError>)
        ensures
            r is Ok,
            r matches Ok(l) ==> l@ == event_line(event@, Some(data)),
            r matches Ok(l) ==> is_one_line(l@),
    {
        self.emitter.emit(event, data)
    }

    /// The line for the event `event` without a payload.
    pub fn emit_event_empty(&self, event: &str) -> (r: Result<String, EncodeError>)
        ensures
            r is Ok,
            r matches Ok(l) ==> l@ == event_line(event@, None),
            r matches Ok(l) ==> is_one_line(l@),
    {
        self.emitter.emit_empty(event)
    }

    /// The line that answers one request line, given what parsing its text
    /// gave: the request, or the parser's error message.
    ///
    /// A request is answered with the rendered response of `handle_request`;
    /// text that is no request is answered with an error object whose
    /// message is `invalid json: ` and the parser's message, as a JSON string
    /// literal. Every answer is a single line.
    pub fn reply(&self, parsed: Result<Request, String>) -> (line: String)
        requires
            self.wf(),
        ensures
            parsed matches Err(m) ==> line@ == framed(invalid_json_text(m@)),
            parsed matches Ok(req) ==> exists|resp: Response|
                #[trigger] self.answers(req, resp) && line@ == response_line(resp),
            is_one_line(line@),
    {
        match parsed {
            Ok(req) => {
                let resp = self.handle_request(req);
                match resp.to_json() {
                    Ok(text) => frame(text),
                    Err(_) => serialization_failed_reply(),
                }
            },
            Err(msg) => invalid_json_reply(msg.as_str()),
        }
    }
}

impl<H: Fn(Vec<Value>) -> Result<Value, String>> Default for BinaryServer<H> {
    /// A server with no handlers.
    fn default() -> (s: Self)
        ensures
            s.wf(),
            s@ == Map::<Seq<char>, H>::empty(),
    {
        Self::new()
    }
}

} // verus!
