//! The JSON values that travel through the protocol, and the calls into
//! `serde_json` that render them as text.
//!
//! A string renders as a JSON string literal by the escaping rules below; a
//! JSON value renders as serde_json's compact text, which is named here and
//! not spelled out.

use vstd::prelude::*;

verus! {

/// `serde_json::Value` is carried through the library as an opaque value.
#[verifier::external_type_specification]
#[verifier::external_body]
pub struct ExValue(serde_json::Value);

/// `serde_json::Error`, the error type of `serde_json::to_string`.
#[verifier::external_type_specification]
#[verifier::external_body]
pub struct ExJsonError(serde_json::Error);

/// `Clone` of `serde_json::Value`, which is derived: the copy is the same
/// JSON value as the original.
pub assume_specification[ <serde_json::Value as Clone>::clone ](v: &serde_json::Value) -> (r: serde_json::Value)
    ensures
        r == *v,
;

/// The lower-case hexadecimal digit of `d` (`0 <= d < 16`).
pub open spec fn hex_digit(d: int) -> char {
    if d < 10 {
        (d + 48) as char
    } else {
        (d + 87) as char
    }
}

/// How one character stands inside a JSON string literal: `"` and `\` and
/// the control characters are escaped (`\b \t \n \f \r` by name, the others
/// as `\u00xx` in lower-case hex); every other character stands as itself.
pub open spec fn escape_char(c: char) -> Seq<char> {
    if c == '"' {
        seq!['\\', '"']
    } else if c == '\\' {
        seq!['\\', '\\']
    } else if c == '\u{8}' {
        seq!['\\', 'b']
    } else if c == '\t' {
        seq!['\\', 't']
    } else if c == '\n' {
        seq!['\\', 'n']
    } else if c == '\u{c}' {
        seq!['\\', 'f']
    } else if c == '\r' {
        seq!['\\', 'r']
    } else if (c as u32) < 0x20 {
        seq!['\\', 'u', '0', '0', hex_digit((c as u32) as int / 16), hex_digit((c as u32) as int % 16)]
    } else {
        seq![c]
    }
}

/// The characters of `s`, each as it stands inside a JSON string literal.
pub open spec fn escape_str(s: Seq<char>) -> Seq<char>
    decreases s.len(),
{
    if s.len() == 0 {
        seq![]
    } else {
        escape_char(s[0]) + escape_str(s.drop_first())
    }
}

/// The JSON string literal of the characters `s`.
pub open spec fn json_string_text(s: Seq<char>) -> Seq<char> {
    seq!['"'] + escape_str(s) + seq!['"']
}

/// The compact JSON text that `serde_json::to_string` gives for the value
/// `v`.
pub uninterp spec fn json_text_of_value(v: serde_json::Value) -> Seq<char>;

/// Renders a string as a JSON string literal with `serde_json::to_string`.
///
/// Trusted: rendering succeeds (the output is a `Vec` and a string has no
/// map keys), and the text is the string literal of `s` by the escaping
/// rules of `escape_char`, which is what `format_escaped_str` writes.
#[verifier::external_body]
pub(crate) fn str_to_json(s: &str) -> (r: Result<String, serde_json::Error>)
    ensures
        r is Ok,
        r matches Ok(t) ==> t@ == json_string_text(s@),
{
    serde_json::to_string(s)
}

/// Renders a JSON value as compact text with `serde_json::to_string`.
///
/// Trusted: rendering succeeds (the output is a `Vec` and every map key of
/// a `Value` is a string), the result is the named text of `v`, and the
/// text holds no `'\n'`: string literals escape every control character and
/// the compact form writes no whitespace.
#[verifier::external_body]
pub(crate) fn value_to_json(v: &serde_json::Value) -> (r: Result<String, serde_json::Error>)
    ensures
        r is Ok,
        r matches Ok(t) ==> t@ == json_text_of_value(*v),
        r matches Ok(t) ==> !t@.contains('\n'),
{
    serde_json::to_string(v)
}

/// The value of a hexadecimal digit character, if it is one.
pub open spec fn hex_value(c: char) -> Option<int> {
    if '0' <= c && c <= '9' {
        Some(c as int - 48)
    } else if 'a' <= c && c <= 'f' {
        Some(c as int - 87)
    } else if 'A' <= c && c <= 'F' {
        Some(c as int - 55)
    } else {
        None
    }
}

/// The character that the four hex digits `h` encode, where it lies below
/// U+D800. That covers every `\u` escape that `escape_char` writes; escapes
/// of higher code points and surrogate pairs are not read here.
pub open spec fn unicode_escape_value(h: Seq<char>) -> Option<char> {
    match (hex_value(h[0]), hex_value(h[1]), hex_value(h[2]), hex_value(h[3])) {
        (Some(a), Some(b), Some(c), Some(d)) => {
            let n = ((a * 16 + b) * 16 + c) * 16 + d;
            if n < 0xD800 {
                Some((n as u32) as char)
            } else {
                None
            }
        },
        _ => None,
    }
}

/// The characters that the body of a JSON string literal (the text between
/// its quotes) denotes, or `None` where the text is not such a body: a raw
/// `"` or control character, or a `\` that starts no escape sequence.
pub open spec fn unescape_str(t: Seq<char>) -> Option<Seq<char>>
    decreases t.len(),
{
    if t.len() == 0 {
        Some(seq![])
    } else if t[0] == '"' || (t[0] as u32) < 0x20 {
        None
    } else if t[0] != '\\' {
        match unescape_str(t.drop_first()) {
            Some(rest) => Some(seq![t[0]] + rest),
            None => None,
        }
    } else if t.len() < 2 {
        None
    } else {
        let e = t[1];
        let simple: Option<char> = if e == '"' {
            Some('"')
        } else if e == '\\' {
            Some('\\')
        } else if e == '/' {
            Some('/')
        } else if e == 'b' {
            Some('\u{8}')
        } else if e == 'f' {
            Some('\u{c}')
        } else if e == 'n' {
            Some('\n')
        } else if e == 'r' {
            Some('\r')
        } else if e == 't' {
            Some('\t')
        } else {
            None
        };
        if simple is Some {
            match unescape_str(t.subrange(2, t.len() as int)) {
                Some(rest) => Some(seq![simple->0] + rest),
                None => None,
            }
        } else if e == 'u' && t.len() >= 6 {
            match unicode_escape_value(t.subrange(2, 6)) {
                Some(c) => match unescape_str(t.subrange(6, t.len() as int)) {
                    Some(rest) => Some(seq![c] + rest),
                    None => None,
                },
                None => None,
            }
        } else {
            None
        }
    }
}

/// The characters of a JSON string literal `t`, or `None` where `t` is not
/// one.
pub open spec fn json_string_value(t: Seq<char>) -> Option<Seq<char>> {
    if t.len() >= 2 && t[0] == '"' && t[t.len() - 1] == '"' {
        unescape_str(t.subrange(1, t.len() - 1))
    } else {
        None
    }
}

proof fn lemma_hex_digit(d: int)
    requires
        0 <= d < 16,
    ensures
        hex_value(hex_digit(d)) == Some(d),
{
}

proof fn lemma_escape_char_unescapes(c: char, rest: Seq<char>, tail: Seq<char>)
    requires
        unescape_str(rest) == Some(tail),
    ensures
        unescape_str(escape_char(c) + rest) == Some(seq![c] + tail),
{
    let t = escape_char(c) + rest;
    let n = c as u32;
    if c == '"' || c == '\\' || c == '\u{8}' || c == '\t' || c == '\n' || c == '\u{c}' || c == '\r' {
        assert(t.subrange(2, t.len() as int) =~= rest);
    } else if n < 0x20 {
        lemma_hex_digit(n as int / 16);
        lemma_hex_digit(n as int % 16);
        let h = t.subrange(2, 6);
        assert(h =~= seq!['0', '0', hex_digit(n as int / 16), hex_digit(n as int % 16)]);
        vstd::utf8::char_u32_cast(c, n);
        assert(unicode_escape_value(h) == Some(c));
        assert(t.subrange(6, t.len() as int) =~= rest);
    } else {
        assert(t.drop_first() =~= rest);
    }
}

/// The body of a rendered string literal denotes exactly the string.
pub proof fn lemma_escape_str_unescapes(s: Seq<char>)
    ensures
        unescape_str(escape_str(s)) == Some(s),
    decreases s.len(),
{
    if s.len() == 0 {
    } else {
        lemma_escape_str_unescapes(s.drop_first());
        lemma_escape_char_unescapes(s[0], escape_str(s.drop_first()), s.drop_first());
        assert(seq![s[0]] + s.drop_first() =~= s);
    }
}

/// A rendered string literal is a JSON string literal that reads back as
/// the string it renders.
pub proof fn lemma_json_string_roundtrip(s: Seq<char>)
    ensures
        json_string_value(json_string_text(s)) == Some(s),
{
    let t = json_string_text(s);
    assert(t.subrange(1, t.len() - 1) =~= escape_str(s));
    lemma_escape_str_unescapes(s);
}

/// A rendered string literal holds no `'\n'`.
pub proof fn lemma_json_string_single_line(s: Seq<char>)
    ensures
        !json_string_text(s).contains('\n'),
{
    lemma_escape_str_single_line(s);
    let t = json_string_text(s);
    if t.contains('\n') {
        let i = choose|i: int| 0 <= i < t.len() && t[i] == '\n';
        if 0 < i < t.len() - 1 {
            assert(escape_str(s)[i - 1] == '\n');
        }
    }
}

proof fn lemma_escape_str_single_line(s: Seq<char>)
    ensures
        !escape_str(s).contains('\n'),
    decreases s.len(),
{
    if s.len() > 0 {
        lemma_escape_str_single_line(s.drop_first());
        let e = escape_char(s[0]);
        let r = escape_str(s.drop_first());
        let n = s[0] as u32;
        if n < 0x20 {
            lemma_hex_digit(n as int / 16);
            lemma_hex_digit(n as int % 16);
        }
        assert(!e.contains('\n'));
        if (e + r).contains('\n') {
            let i = choose|i: int| 0 <= i < (e + r).len() && (e + r)[i] == '\n';
            if i < e.len() {
                assert(e[i] == '\n');
            } else {
                assert(r[i - e.len()] == '\n');
            }
        }
    }
}

} // verus!
