//! JSON text for the descriptions of notebooks and the contents of notes.
use vstd::prelude::*;

verus! {

/// What `serde_json` makes of `text` as a JSON value: the compact text of
/// that value, or `None` where `text` does not parse as JSON.
pub uninterp spec fn json_normal(text: Seq<char>) -> Option<Seq<char>>;

/// Whether `text` parses as a JSON value.
pub open spec fn is_json(text: Seq<char>) -> bool {
    json_normal(text) is Some
}

/// `serde_json::from_str::<serde_json::Value>`, with the value it parses
/// written back out by its `Display`: the compact JSON text of `text`, or
/// `None` where it does not parse. The result is named, not stated: how the
/// value is laid out (spacing, the order of the members of an object, how
/// numbers are written) is left to `serde_json`.
#[verifier::external_body]
fn normal_json(text: &str) -> (r: Option<String>)
    ensures
        r.deep_view() == json_normal(text@),
{
    serde_json::from_str::<serde_json::Value>(text).ok().map(|v| v.to_string())
}

/// The hexadecimal digit, in lower case, of `n`, below 16.
pub open spec fn hex_digit(n: int) -> char {
    if n < 10 {
        (0x30 + n) as char
    } else {
        (0x61 + n - 10) as char
    }
}

/// How `c` stands inside a JSON string literal: `"` and `\` behind a
/// backslash, backspace, tab, line feed, form feed and carriage return as
/// `\b`, `\t`, `\n`, `\f`, `\r`, every other character below 0x20 as `\u00`
/// and two hexadecimal digits in lower case, and any other character as it
/// is.
pub open spec fn escaped(c: char) -> Seq<char> {
    let n = c as int;
    if c == '"' {
        seq!['\\', '"']
    } else if c == '\\' {
        seq!['\\', '\\']
    } else if n == 0x08 {
        seq!['\\', 'b']
    } else if n == 0x09 {
        seq!['\\', 't']
    } else if n == 0x0a {
        seq!['\\', 'n']
    } else if n == 0x0c {
        seq!['\\', 'f']
    } else if n == 0x0d {
        seq!['\\', 'r']
    } else if n < 0x20 {
        seq!['\\', 'u', '0', '0', hex_digit(n / 16), hex_digit(n % 16)]
    } else {
        seq![c]
    }
}

/// The characters of `text`, each as it stands inside a JSON string.
pub open spec fn escaped_text(text: Seq<char>) -> Seq<char>
    decreases text.len(),
{
    if text.len() == 0 {
        Seq::empty()
    } else {
        escaped(text[0]) + escaped_text(text.drop_first())
    }
}

/// The JSON string literal that stands for `text`: its characters escaped,
/// between double quotes.
pub open spec fn json_string(text: Seq<char>) -> Seq<char> {
    seq!['"'] + escaped_text(text) + seq!['"']
}

/// The `Display` of `serde_json::Value::String`: the JSON string literal of
/// `text`, as `json_string` spells it out.
#[verifier::external_body]
fn quote(text: &str) -> (r: String)
    ensures
        r@ == json_string(text@),
{
    serde_json::Value::String(text.to_string()).to_string()
}

/// What `json_or_text` gives for `input`.
pub open spec fn json_or_text_spec(input: Seq<char>) -> Seq<char> {
    match json_normal(input) {
        Some(value) => value,
        None => "{\"text\":"@ + json_string(input) + "}"@,
    }
}

/// The JSON text for a description or content given as `input`: the input
/// as the JSON value it parses as, in compact form, and otherwise an object
/// whose `text` member is the input as a string.
pub fn json_or_text(input: &str) -> (r: String)
    ensures
        r@ == json_or_text_spec(input@),
{
    match normal_json(input) {
        Some(value) => value,
        None => {
            let mut out = String::from_str("{\"text\":");
            let quoted = quote(input);
            out.append(quoted.as_str());
            out.append("}");
            out
        },
    }
}

} // verus!
