//! The line discipline of the protocol: what of an input line is a
//! request, and how output lines are framed.

use vstd::prelude::*;
use vstd::string::*;

use crate::json::{
    json_string_text, json_string_value, lemma_json_string_roundtrip, lemma_json_string_single_line, str_to_json,
};
use crate::protocol::{parse_error_object, parse_error_object_text, single_line};

verus! {

/// A line terminator character.
pub open spec fn is_line_break(c: char) -> bool {
    c == '\n' || c == '\r'
}

/// The text of an input line without the line terminator characters at its
/// end (every trailing `'\n'` and `'\r'`, in any order).
pub open spec fn trim_line_end(s: Seq<char>) -> Seq<char>
    decreases s.len(),
{
    if s.len() > 0 && is_line_break(s.last()) {
        trim_line_end(s.drop_last())
    } else {
        s
    }
}

/// An output line: the text, then one `'\n'`.
pub open spec fn framed(text: Seq<char>) -> Seq<char> {
    text + seq!['\n']
}

/// Trimming keeps a prefix of the line, removes only line terminator
/// characters, and leaves text that does not end in one.
pub proof fn lemma_trim_line_end_shape(s: Seq<char>)
    ensures
        trim_line_end(s).len() <= s.len(),
        trim_line_end(s) == s.subrange(0, trim_line_end(s).len() as int),
        forall|j: int| trim_line_end(s).len() <= j < s.len() ==> is_line_break(#[trigger] s[j]),
        trim_line_end(s).len() > 0 ==> !is_line_break(trim_line_end(s).last()),
        forall|j: int| trim_line_end(s).len() <= j < s.len() ==> #[trigger] s[j] == '\n' || s[j] == '\r',
        trim_line_end(s).len() > 0 ==> trim_line_end(s).last() != '\n' && trim_line_end(s).last() != '\r',
    decreases s.len(),
{
    if s.len() > 0 && is_line_break(s.last()) {
        lemma_trim_line_end_shape(s.drop_last());
        let t = trim_line_end(s.drop_last());
        assert(s.drop_last().subrange(0, t.len() as int) =~= s.subrange(0, t.len() as int));
        assert forall|j: int| t.len() <= j < s.len() implies is_line_break(#[trigger] s[j]) by {
            if j < s.len() - 1 {
                assert(s[j] == s.drop_last()[j]);
            }
        }
    } else {
        assert(s.subrange(0, s.len() as int) =~= s);
    }
}

/// Trimming twice is trimming once.
pub proof fn lemma_trim_line_end_idempotent(s: Seq<char>)
    ensures
        trim_line_end(trim_line_end(s)) == trim_line_end(s),
{
    lemma_trim_line_end_shape(s);
}

/// A line terminator at the end of a line, `"\n"` or `"\r\n"`, does not
/// change the text of the line.
pub proof fn lemma_trim_line_end_terminator(s: Seq<char>)
    ensures
        trim_line_end(s + seq!['\n']) == trim_line_end(s),
        trim_line_end(s + seq!['\r', '\n']) == trim_line_end(s),
{
    assert((s + seq!['\n']).drop_last() =~= s);
    let crlf = s + seq!['\r', '\n'];
    let cr = s + seq!['\r'];
    assert(crlf.last() == '\n');
    assert(crlf.drop_last() =~= cr);
    assert(cr.last() == '\r');
    assert(cr.drop_last() =~= s);
    assert(trim_line_end(crlf) == trim_line_end(cr));
    assert(trim_line_end(cr) == trim_line_end(s));
}

/// A complete output line: text without `'\n'`, then one `'\n'`.
pub open spec fn is_one_line(l: Seq<char>) -> bool {
    l.len() > 0 && l.last() == '\n' && single_line(l.drop_last())
}

/// The message of the answer to text that is not a request: the parser's
/// message after `invalid json: `.
pub open spec fn invalid_json_message(msg: Seq<char>) -> Seq<char> {
    "invalid json: "@ + msg
}

/// The answer to an input line that is not a request: an error object whose
/// message is the string literal of `invalid json: ` and the parser's
/// message.
pub open spec fn invalid_json_text(msg: Seq<char>) -> Seq<char> {
    parse_error_object_text(json_string_text(invalid_json_message(msg)))
}

/// The message of the answer to unparsable text is a JSON string literal
/// that reads back as `invalid json: ` and the parser's message.
pub proof fn lemma_invalid_json_reads_back(msg: Seq<char>)
    ensures
        invalid_json_text(msg) == "{\"status\":\"error\",\"error\":"@ + json_string_text(invalid_json_message(msg))
            + "}"@,
        json_string_value(json_string_text(invalid_json_message(msg))) == Some(invalid_json_message(msg)),
        invalid_json_message(msg) == "invalid json: "@ + msg,
        framed(invalid_json_text(msg)) == "{\"status\":\"error\",\"error\":"@ + json_string_text("invalid json: "@ + msg)
            + "}"@ + seq!['\n'],
{
    lemma_json_string_roundtrip(invalid_json_message(msg));
}

/// An output line is its text and one `'\n'` after it.
pub proof fn lemma_framed(text: Seq<char>)
    ensures
        framed(text) == text + seq!['\n'],
        framed(text).len() == text.len() + 1,
        framed(text).last() == '\n',
        framed(text).drop_last() == text,
{
    assert(framed(text).drop_last() =~= text);
}

/// The answer written in place of a response that cannot be written.
pub open spec fn serialization_failed_text() -> Seq<char> {
    "{\"status\":\"error\",\"error\":\"serialization failed\"}"@
}

/// The text of an input line that carries a request: the line without its
/// terminator, or `None` when nothing else is left of it (such a line is
/// skipped).
pub fn request_text(line: &str) -> (r: Option<&str>)
    ensures
        r is None <==> trim_line_end(line@).len() == 0,
        r matches Some(t) ==> t@ == trim_line_end(line@),
{
    let n = line.unicode_len();
    let mut k = n;
    assert(line@.subrange(0, n as int) =~= line@);
    while k > 0 && is_break_char(line.get_char(k - 1))
        invariant
            n == line@.len(),
            k <= n,
            trim_line_end(line@) == trim_line_end(line@.subrange(0, k as int)),
        decreases k,
    {
        assert(line@.subrange(0, k as int).drop_last() =~= line@.subrange(0, k - 1));
        k = k - 1;
    }
    if k == 0 {
        assert(line@.subrange(0, 0) =~= Seq::<char>::empty());
        None
    } else {
        Some(line.substring_char(0, k))
    }
}

fn is_break_char(c: char) -> (b: bool)
    ensures
        b == is_line_break(c),
{
    c == '\n' || c == '\r'
}

/// Appends the line terminator to a rendered message.
pub(crate) fn frame(text: String) -> (line: String)
    ensures
        line@ == framed(text@),
        single_line(text@) ==> is_one_line(line@),
{
    let mut line = text;
    line.append("\n");
    proof {
        reveal_strlit("\n");
        assert(line@ =~= framed(text@));
        assert(line@.drop_last() =~= text@);
    }
    line
}

/// The line written in place of a response that cannot be written.
pub fn serialization_failed_reply() -> (line: String)
    ensures
        line@ == framed(serialization_failed_text()),
        is_one_line(line@),
{
    let text = String::from_str("{\"status\":\"error\",\"error\":\"serialization failed\"}");
    proof {
        reveal_strlit("{\"status\":\"error\",\"error\":\"serialization failed\"}");
    }
    frame(text)
}

/// The line that answers text that is not a request: an error object whose
/// message is `invalid json: ` and the parser's message `msg`, rendered as a
/// JSON string literal.
pub fn invalid_json_reply(msg: &str) -> (line: String)
    ensures
        line@ == framed(invalid_json_text(msg@)),
        is_one_line(line@),
{
    let mut message = String::from_str("invalid json: ");
    message.append(msg);
    let quoted = match str_to_json(message.as_str()) {
        Ok(t) => t,
        Err(_) => return serialization_failed_reply(),
    };
    proof {
        lemma_json_string_single_line(message@);
    }
    frame(parse_error_object(quoted.as_str()))
}

/// What became of one attempt to read an input line.
#[derive(Debug, Clone, Copy, PartialEq, Eq)]
pub enum ReadOutcome {
    /// The input stream could not be taken (its lock is poisoned).
    InputUnavailable,
    /// Reading failed.
    Failed,
    /// Reading gave this many bytes; none means the end of the input.
    Bytes(usize),
}

/// What the server loop does next with a line it tried to read.
#[derive(Debug, Clone, Copy, PartialEq, Eq)]
pub enum LineStep<'a> {
    /// Stop serving.
    Stop,
    /// Go on with the next line; nothing is written for this one.
    Skip,
    /// Answer the request whose text this is.
    Handle(&'a str),
}

/// The decision of the server loop after one read: it stops when the input
/// cannot be taken or has ended, goes on past a failed read or a blank
/// line, and otherwise answers the text of the line.
pub fn next_step<'a>(outcome: ReadOutcome, line: &'a str) -> (step: LineStep<'a>)
    ensures
        outcome == ReadOutcome::InputUnavailable ==> step == LineStep::Stop,
        outcome == ReadOutcome::Failed ==> step == LineStep::Skip,
        outcome == ReadOutcome::Bytes(0) ==> step == LineStep::Stop,
        (outcome matches ReadOutcome::Bytes(n) && n > 0) ==> (if trim_line_end(line@).len() == 0 {
            step == LineStep::Skip
        } else {
            step matches LineStep::Handle(t) && t@ == trim_line_end(line@)
        }),
{
    match outcome {
        ReadOutcome::InputUnavailable => LineStep::Stop,
        ReadOutcome::Failed => LineStep::Skip,
        ReadOutcome::Bytes(n) => {
            if n == 0 {
                LineStep::Stop
            } else {
                match request_text(line) {
                    Some(t) => LineStep::Handle(t),
                    None => LineStep::Skip,
                }
            }
        },
    }
}

/// The line to write after an answer line was written, or could not be:
/// the fixed `serialization failed` line when the answer to a request could
/// not be written, and nothing otherwise (a failed write of the answer to
/// unparsable text is not followed up).
pub fn after_write(answered_request: bool, written: bool) -> (fallback: Option<String>)
    ensures
        fallback is Some <==> answered_request && !written,
        fallback matches Some(l) ==> l@ == framed(serialization_failed_text()),
{
    if answered_request && !written {
        Some(serialization_failed_reply())
    } else {
        None
    }
}

} // verus!
