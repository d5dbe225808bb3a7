//! JSON text of string lists, through `serde_json`.
use vstd::prelude::*;

verus! {

#[verifier::external_type_specification]
#[verifier::external_body]
pub struct ExJsonError(serde_json::Error);

/// A hexadecimal digit, lower case, as serde_json writes them.
pub open spec fn hex_digit(n: int) -> char {
    if n < 10 {
        (48 + n) as char
    } else {
        (87 + n) as char
    }
}

/// How serde_json writes one character inside a string: `"` and `\` and the
/// control characters below U+0020 are escaped (`\b`, `\t`, `\n`, `\f`,
/// `\r`, else `\u00` and two hex digits); every other character is written
/// as it is.
pub open spec fn json_escape_char(c: char) -> Seq<char> {
    if c == '"' {
        seq!['\\', '"']
    } else if c == '\\' {
        seq!['\\', '\\']
    } else if c == '\x08' {
        seq!['\\', 'b']
    } else if c == '\t' {
        seq!['\\', 't']
    } else if c == '\n' {
        seq!['\\', 'n']
    } else if c == '\x0c' {
        seq!['\\', 'f']
    } else if c == '\r' {
        seq!['\\', 'r']
    } else if (c as int) < 0x20 {
        seq!['\\', 'u', '0', '0', hex_digit((c as int) / 16), hex_digit((c as int) % 16)]
    } else {
        seq![c]
    }
}

/// The escaped contents of a JSON string.
pub open spec fn json_escape(s: Seq<char>) -> Seq<char>
    decreases s.len(),
{
    if s.len() == 0 {
        seq![]
    } else {
        json_escape(s.drop_last()) + json_escape_char(s.last())
    }
}

/// A string as a JSON string literal.
pub open spec fn json_string(s: Seq<char>) -> Seq<char> {
    seq!['"'] + json_escape(s) + seq!['"']
}

/// The string literals of a list, separated by commas.
pub open spec fn json_items(items: Seq<Seq<char>>) -> Seq<char>
    decreases items.len(),
{
    if items.len() == 0 {
        seq![]
    } else if items.len() == 1 {
        json_string(items[0])
    } else {
        json_items(items.drop_last()) + seq![','] + json_string(items.last())
    }
}

/// The compact JSON text of a list of strings, as `serde_json::to_string`
/// writes it: `[`, the string literals separated by `,`, then `]`.
pub open spec fn json_of_strings(items: Seq<Seq<char>>) -> Seq<char> {
    seq!['['] + json_items(items) + seq![']']
}

/// What `serde_json::from_str::<Vec<String>>` reads from a text, `None` when it
/// fails.
pub uninterp spec fn spec_strings_of_json(text: Seq<char>) -> Option<Seq<Seq<char>>>;

/// `serde_json::to_string` on a list of strings. Its documentation names two
/// ways to fail, a `Serialize` impl that fails and a map with keys that are
/// not strings; neither applies to a `Vec<String>` (serialised as a sequence
/// of strings into an in-memory buffer), so the call succeeds. The compact
/// formatter writes `[`, `,` between elements and `]`, and each string goes
/// through `format_escaped_str` (its `ESCAPE` table and `write_char_escape`),
/// which `json_of_strings` spells out.
#[verifier::external_body]
fn to_json_strings(items: &Vec<String>) -> (r: Result<String, serde_json::Error>)
    ensures
        r is Ok,
        r matches Ok(s) ==> s@ == json_of_strings(items.deep_view()),
{
    serde_json::to_string(items)
}

/// `serde_json::from_str::<Vec<String>>` on a text, its error dropped.
#[verifier::external_body]
fn from_json_strings(text: &str) -> (r: Option<Vec<String>>)
    ensures
        r.is_some() == spec_strings_of_json(text@).is_some(),
        r matches Some(v) ==> Some(v.deep_view()) == spec_strings_of_json(text@),
{
    serde_json::from_str::<Vec<String>>(text).ok()
}

/// The JSON text stored for a list of strings (tags, distraction events).
pub fn encode_strings(items: &Vec<String>) -> (s: String)
    ensures
        s@ == json_of_strings(items.deep_view()),
{
    match to_json_strings(items) {
        Ok(s) => s,
        Err(_) => {
            assert(false);
            String::new()
        },
    }
}

/// The list of strings stored as JSON text; a text that is not a JSON list of
/// strings reads as the empty list.
pub fn decode_strings(text: &str) -> (r: Vec<String>)
    ensures
        r.deep_view() == (match spec_strings_of_json(text@) {
            Some(v) => v,
            None => Seq::<Seq<char>>::empty(),
        }),
{
    match from_json_strings(text) {
        Some(v) => v,
        None => {
            let v: Vec<String> = Vec::new();
            assert(v.deep_view() =~= Seq::<Seq<char>>::empty());
            v
        },
    }
}

} // verus!
