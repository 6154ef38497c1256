//! JSON documents parsed by `serde_json`, and what the library reads of
//! them.
//!
//! A [`JsonDoc`] keeps the text it was parsed from beside the parsed value;
//! its view is that text. Each lookup is a call into `serde_json` whose
//! result is named, as a function of the document text and the arguments,
//! by an uninterpreted spec function below.
use vstd::prelude::*;


verus! {

/// `serde_json::Value`, carried through as an opaque value.
#[verifier::external_type_specification]
#[verifier::external_body]
pub struct ExJsonValue(serde_json::Value);

/// `serde_json::Error`, carried through as an opaque value.
#[verifier::external_type_specification]
#[verifier::external_body]
pub struct ExJsonError(serde_json::Error);

/// Whether `serde_json::from_str::<serde_json::Value>` accepts `text`.
pub uninterp spec fn json_valid(text: Seq<char>) -> bool;

/// In the document that `serde_json` parses from `text`, the string found
/// by `Value::pointer(pointer)` and `Value::as_str`; `None` where the
/// pointer finds nothing or no string.
pub uninterp spec fn json_str_at(text: Seq<char>, pointer: Seq<char>) -> Option<Seq<char>>;

/// In the document parsed from `text`, the integer found by
/// `Value::pointer(pointer)` and `Value::as_u64`.
pub uninterp spec fn json_u64_at(text: Seq<char>, pointer: Seq<char>) -> Option<u64>;

/// In the document parsed from `text`, the length of the array found by
/// `Value::pointer(pointer)` and `Value::as_array`.
pub uninterp spec fn json_array_len_at(text: Seq<char>, pointer: Seq<char>) -> Option<nat>;

/// In the document parsed from `text`, whether `Value::pointer(pointer)`
/// finds an object.
pub uninterp spec fn json_object_at(text: Seq<char>, pointer: Seq<char>) -> bool;

/// The lower-case hexadecimal digit of `d` (for `d < 16`).
pub open spec fn hex_digit(d: int) -> char {
    if d < 10 {
        (48 + d) as char
    } else {
        (87 + d) as char
    }
}

/// How serde_json writes `c` inside a JSON string: `"` and `\` after a
/// backslash; backspace, tab, line feed, form feed and carriage return as
/// `\b`, `\t`, `\n`, `\f`, `\r`; the other control characters below
/// U+0020 as `\u00` and two lower-case hex digits; everything else as it is.
pub open spec fn json_escaped_char(c: char) -> Seq<char> {
    let u = c as u32;
    if c == '"' {
        seq!['\\', '"']
    } else if c == '\\' {
        seq!['\\', '\\']
    } else if u == 0x08 {
        seq!['\\', 'b']
    } else if u == 0x09 {
        seq!['\\', 't']
    } else if u == 0x0A {
        seq!['\\', 'n']
    } else if u == 0x0C {
        seq!['\\', 'f']
    } else if u == 0x0D {
        seq!['\\', 'r']
    } else if u < 0x20 {
        seq!['\\', 'u', '0', '0', hex_digit(u as int / 16), hex_digit(u as int % 16)]
    } else {
        seq![c]
    }
}

/// The characters of `s`, each written as in a JSON string.
pub open spec fn json_escaped(s: Seq<char>) -> Seq<char>
    decreases s.len(),
{
    if s.len() == 0 {
        Seq::empty()
    } else {
        json_escaped(s.drop_last()) + json_escaped_char(s.last())
    }
}

/// The JSON string literal of `s`, as `serde_json::to_string` writes it.
pub open spec fn json_quoted(s: Seq<char>) -> Seq<char> {
    seq!['"'] + json_escaped(s) + seq!['"']
}

/// Whether `a` comes before `b` in the order of their code points, the
/// order in which a `BTreeMap` keeps `String` keys (UTF-8 keeps it).
pub open spec fn text_less(a: Seq<char>, b: Seq<char>) -> bool
    decreases a.len(),
{
    if a.len() == 0 {
        b.len() > 0
    } else if b.len() == 0 {
        false
    } else if a[0] != b[0] {
        (a[0] as u32) < (b[0] as u32)
    } else {
        text_less(a.drop_first(), b.drop_first())
    }
}

/// Whether the keys of `entries` come in strictly increasing order.
pub open spec fn keys_ascending(entries: Seq<(Seq<char>, Seq<char>)>) -> bool {
    forall|i: int, j: int|
        0 <= i < j < entries.len() ==> text_less(#[trigger] entries[i].0, #[trigger] entries[j].0)
}

/// The members of a JSON object of strings, written compactly: each key and
/// value as JSON strings with a colon between, members separated by commas.
pub open spec fn json_members(entries: Seq<(Seq<char>, Seq<char>)>) -> Seq<char>
    decreases entries.len(),
{
    if entries.len() == 0 {
        Seq::empty()
    } else {
        let last = entries.last();
        let member = json_quoted(last.0) + seq![':'] + json_quoted(last.1);
        if entries.len() == 1 {
            member
        } else {
            json_members(entries.drop_last()) + seq![','] + member
        }
    }
}

/// The compact JSON text of the object whose members are `entries`, in
/// that order.
pub open spec fn json_object_text(entries: Seq<(Seq<char>, Seq<char>)>) -> Seq<char> {
    seq!['{'] + json_members(entries) + seq!['}']
}

/// What `serde_json::to_string` gives for the JSON object whose members are
/// `entries` (keys with string values, inserted in this order into a
/// `serde_json::Map`).
pub uninterp spec fn json_string_object(entries: Seq<(Seq<char>, Seq<char>)>) -> Seq<char>;

/// A JSON value that `serde_json` parsed, with the text it came from.
#[derive(Debug)]
pub struct JsonDoc {
    text: String,
    value: serde_json::Value,
}

impl View for JsonDoc {
    type V = Seq<char>;

    /// The text the document was parsed from.
    closed spec fn view(&self) -> Seq<char> {
        self.text@
    }
}

impl JsonDoc {
    /// The value serde_json parsed from the document's text.
    pub closed spec fn parsed(&self) -> serde_json::Value {
        self.value
    }

    /// The parsed value, handed out for serialization.
    pub fn into_value(self) -> (res: serde_json::Value)
        ensures
            res == self.parsed(),
    {
        self.value
    }

    /// The text the document was parsed from.
    pub fn text(&self) -> (res: &str)
        ensures
            res@ == self@,
    {
        self.text.as_str()
    }
}

/// Calls `serde_json::from_str::<serde_json::Value>` on `text`. Claimed:
/// the result is `None` exactly when serde_json rejects the text (named
/// `json_valid`), and a document keeps the text it was parsed from.
#[verifier::external_body]
pub(crate) fn parse_json_doc(text: &str) -> (res: Option<JsonDoc>)
    ensures
        res is Some <==> json_valid(text@),
        res matches Some(doc) ==> doc@ == text@,
{
    match serde_json::from_str::<serde_json::Value>(text) {
        Ok(value) => Some(JsonDoc { text: text.to_string(), value }),
        Err(_) => None,
    }
}

/// Calls `Value::pointer` and then `Value::as_str` on the document's value.
/// Claimed: the string found is `json_str_at` of the document's text and
/// the pointer, which holds because the value was parsed from that text.
#[verifier::external_body]
pub(crate) fn doc_str_at(doc: &JsonDoc, pointer: &str) -> (res: Option<String>)
    ensures
        res is Some <==> json_str_at(doc@, pointer@) is Some,
        res matches Some(s) ==> json_str_at(doc@, pointer@) == Some(s@),
{
    doc.value.pointer(pointer).and_then(serde_json::Value::as_str).map(String::from)
}

/// Calls `Value::pointer` and then `Value::as_u64` on the document's value.
/// Claimed: the integer found is `json_u64_at` of the text and pointer.
#[verifier::external_body]
pub(crate) fn doc_u64_at(doc: &JsonDoc, pointer: &str) -> (res: Option<u64>)
    ensures
        res == json_u64_at(doc@, pointer@),
{
    doc.value.pointer(pointer).and_then(serde_json::Value::as_u64)
}

/// Calls `Value::pointer` and then `Value::as_array` on the document's
/// value, giving the array's length. Claimed: it is `json_array_len_at` of
/// the text and pointer.
#[verifier::external_body]
pub(crate) fn doc_array_len_at(doc: &JsonDoc, pointer: &str) -> (res: Option<usize>)
    ensures
        res is Some <==> json_array_len_at(doc@, pointer@) is Some,
        res matches Some(n) ==> json_array_len_at(doc@, pointer@) == Some(n as nat),
{
    doc.value.pointer(pointer).and_then(serde_json::Value::as_array).map(Vec::len)
}

/// Calls `Value::pointer` and then `Value::is_object` on the document's
/// value (`false` where the pointer finds nothing). Claimed: the answer is
/// `json_object_at` of the text and pointer.
#[verifier::external_body]
pub(crate) fn doc_object_at(doc: &JsonDoc, pointer: &str) -> (res: bool)
    ensures
        res == json_object_at(doc@, pointer@),
{
    doc.value.pointer(pointer).map_or(false, serde_json::Value::is_object)
}

/// Calls `serde_json::to_string` on a string slice. Claimed: it succeeds
/// (it fails only through a failing `Serialize` or non-string map keys,
/// and a `str` has neither), giving `json_quoted` of the slice: the slice
/// in double quotes, escaped by serde_json's escape table.
#[verifier::external_body]
pub(crate) fn quote_json(s: &str) -> (res: Result<String, serde_json::Error>)
    ensures
        res is Ok,
        res matches Ok(q) ==> q@ == json_quoted(s@),
{
    serde_json::to_string(s)
}

/// Inserts `entries` into a `serde_json::Map` as string values and calls
/// `serde_json::to_string` on the object. Claimed: it succeeds (the keys
/// are strings and every value serializes), giving `json_string_object` of
/// the entries; where the keys come in increasing order, which is the
/// order the `BTreeMap` behind `serde_json::Map` keeps, that is the compact
/// object text with the members in the given order.
#[verifier::external_body]
pub(crate) fn string_object_json(entries: &Vec<(String, String)>) -> (res: Result<
    String,
    serde_json::Error,
>)
    ensures
        res is Ok,
        res matches Ok(t) ==> t@ == json_string_object(entries.deep_view()),
        res matches Ok(t) ==> (keys_ascending(entries.deep_view()) ==> t@ == json_object_text(
            entries.deep_view(),
        )),
{
    let mut map = serde_json::Map::new();
    for (key, value) in entries {
        map.insert(key.clone(), serde_json::Value::String(value.clone()));
    }
    serde_json::to_string(&serde_json::Value::Object(map))
}

/// Calls the `Display` of a `serde_json::Error`. Nothing is claimed of the
/// text.
#[verifier::external_body]
pub(crate) fn json_error_text(error: &serde_json::Error) -> String {
    error.to_string()
}

} // verus!
