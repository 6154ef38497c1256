//! What a finished CLI call gives: its output read as JSON, or the error.
use vstd::prelude::*;
use vstd::utf8::{decode_utf8, valid_utf8};
use crate::json::{JsonDoc, json_valid, parse_json_doc};
use crate::openclaw::runtime::OpenClawError;
use crate::text::{append_str, chars_of, decode_lossy, owned, string_of_range, trim, trimmed, utf8_lossy};

verus! {

/// What a finished CLI call gives, from the text of its standard output
/// and error: the JSON of the output where it succeeded, else the error
/// with the trimmed standard error.
pub open spec fn command_result_is(
    res: Result<JsonDoc, OpenClawError>,
    preview: Seq<char>,
    success: bool,
    out_text: Seq<char>,
    err_text: Seq<char>,
) -> bool {
    let out = trimmed(out_text);
    let err = trimmed(err_text);
    if !success {
        res matches Err(OpenClawError::CommandFailed { command, stderr: s }) && command@ == preview
            && s@ == (if err.len() == 0 {
            "sem stderr"@
        } else {
            err
        })
    } else {
        match json_output(out) {
            Ok(t) => res matches Ok(doc) && doc@ == t,
            Err(m) => res matches Err(OpenClawError::Parse { details }) && details@ == m
                + "; stderr: "@ + err,
        }
    }
}

/// What a finished CLI call gives, from the bytes of its standard output
/// and error, decoded as UTF-8 with replacement.
pub open spec fn command_outcome_is(
    res: Result<JsonDoc, OpenClawError>,
    preview: Seq<char>,
    success: bool,
    stdout: Seq<u8>,
    stderr: Seq<u8>,
) -> bool {
    command_result_is(res, preview, success, utf8_lossy(stdout), utf8_lossy(stderr))
}

/// What a finished CLI call gives, from the text of its output: on success
/// the JSON document of its standard output, else the failure with its
/// standard error.
pub fn command_result(command_preview: String, success: bool, out_text: &str, err_text: &str) -> (res:
    Result<JsonDoc, OpenClawError>)
    ensures
        command_result_is(res, command_preview@, success, out_text@, err_text@),
        !success ==> (res matches Err(OpenClawError::CommandFailed { command, .. }) && command@
            == command_preview@),
        success ==> (json_output(trimmed(out_text@)) matches Ok(t) ==> (res matches Ok(doc) && doc@
            == t)),
{
    let out = trim(out_text);
    let err = trim(err_text);
    if !success {
        let stderr = if err.as_str().is_empty() {
            owned("sem stderr")
        } else {
            err
        };
        return Err(OpenClawError::CommandFailed { command: command_preview, stderr });
    }
    match parse_json_output(out.as_str()) {
        Ok(doc) => Ok(doc),
        Err(details) => {
            let mut details = details;
            append_str(&mut details, "; stderr: ");
            append_str(&mut details, err.as_str());
            Err(OpenClawError::Parse { details })
        },
    }
}

/// What a finished CLI call gives, from the bytes of its output.
pub fn command_outcome(command_preview: String, success: bool, stdout: &[u8], stderr: &[u8]) -> (res:
    Result<JsonDoc, OpenClawError>)
    ensures
        command_outcome_is(res, command_preview@, success, stdout@, stderr@),
        valid_utf8(stdout@) && valid_utf8(stderr@) ==> command_result_is(
            res,
            command_preview@,
            success,
            decode_utf8(stdout@),
            decode_utf8(stderr@),
        ),
{
    let out_text = decode_lossy(stdout);
    let err_text = decode_lossy(stderr);
    command_result(command_preview, success, out_text.as_str(), err_text.as_str())
}

/// Whether `s` has a `{` at `p` from which the rest of `s` is a JSON
/// document.
pub open spec fn opens_json_at(s: Seq<char>, p: int) -> bool {
    0 <= p < s.len() && s[p] == '{' && json_valid(s.subrange(p, s.len() as int))
}

/// The last position below `end` at which `s` opens a JSON document.
pub open spec fn last_json_open_below(s: Seq<char>, end: nat) -> Option<nat>
    decreases end,
{
    if end == 0 {
        None
    } else if opens_json_at(s, end - 1) {
        Some((end - 1) as nat)
    } else {
        last_json_open_below(s, (end - 1) as nat)
    }
}

/// The search for an opening `{` finds the last one below `end` from which
/// the rest parses, and nothing when there is none.
pub proof fn lemma_last_json_open_below(s: Seq<char>, end: nat)
    ensures
        match last_json_open_below(s, end) {
            Some(p) => p < end && opens_json_at(s, p as int) && forall|q: int|
                p < q < end ==> !opens_json_at(s, q),
            None => forall|q: int| 0 <= q < end ==> !opens_json_at(s, q),
        },
    decreases end,
{
    if end > 0 && !opens_json_at(s, end - 1) {
        lemma_last_json_open_below(s, (end - 1) as nat);
    }
}

/// The last suffix of `s` that opens with `{` and is a JSON document.
pub open spec fn last_json_object(s: Seq<char>) -> Option<Seq<char>> {
    match last_json_open_below(s, s.len()) {
        Some(p) => Some(s.subrange(p as int, s.len() as int)),
        None => None,
    }
}

/// The outcome of reading the CLI's standard output as JSON: the text that
/// is parsed, or the reason there is none.
pub open spec fn json_output(raw: Seq<char>) -> Result<Seq<char>, Seq<char>> {
    let t = trimmed(raw);
    if t.len() == 0 {
        Err("stdout vazio"@)
    } else if json_valid(t) {
        Ok(t)
    } else {
        match last_json_object(t) {
            Some(c) => Ok(c),
            None => Err("retorno nao e JSON valido"@),
        }
    }
}

/// The last suffix of `raw` that opens with `{` and parses as JSON: the
/// final JSON object of output that carries other lines before it.
pub fn extract_last_json_object(raw: &str) -> (res: Option<String>)
    ensures
        match last_json_object(raw@) {
            Some(c) => res matches Some(r) && r@ == c,
            None => res is None,
        },
{
    let v = chars_of(raw);
    let n = v.len();
    let mut i = n;
    while i > 0
        invariant
            i <= n == v@.len(),
            v@ == raw@,
            last_json_open_below(raw@, n as nat) == last_json_open_below(raw@, i as nat),
        decreases i,
    {
        if v[i - 1] == '{' {
            let candidate = string_of_range(&v, i - 1, n);
            if parse_json_doc(candidate.as_str()).is_some() {
                return Some(candidate);
            }
        }
        i -= 1;
    }
    None
}

/// The JSON document in the CLI's standard output: the whole trimmed
/// output where it parses, else its last JSON object.
pub fn parse_json_output(raw: &str) -> (res: Result<JsonDoc, String>)
    ensures
        match json_output(raw@) {
            Ok(t) => res matches Ok(doc) && doc@ == t,
            Err(m) => res matches Err(e) && e@ == m,
        },
{
    let t = trim(raw);
    if t.as_str().is_empty() {
        return Err(owned("stdout vazio"));
    }
    if let Some(doc) = parse_json_doc(t.as_str()) {
        return Ok(doc);
    }
    proof {
        lemma_last_json_open_below(t@, t@.len());
    }
    if let Some(extracted) = extract_last_json_object(t.as_str()) {
        if let Some(doc) = parse_json_doc(extracted.as_str()) {
            return Ok(doc);
        }
    }
    Err(owned("retorno nao e JSON valido"))
}

/// What is read from the CLI's output is always a JSON document, and it is
/// the trimmed output itself or a suffix of it that opens with `{`.
pub proof fn lemma_json_output_parses(raw: Seq<char>)
    ensures
        json_output(raw) matches Ok(t) ==> json_valid(t) && (t == trimmed(raw) || (t.len() > 0
            && t[0] == '{' && exists|p: int|
            0 <= p <= trimmed(raw).len() && t == trimmed(raw).subrange(
                p,
                trimmed(raw).len() as int,
            ))),
{
    let t = trimmed(raw);
    lemma_last_json_open_below(t, t.len());
    if let Some(p) = last_json_open_below(t, t.len()) {
        assert(t.subrange(p as int, t.len() as int)[0] == t[p as int]);
    }
}

/// Only a failed call is a failed command; a call that succeeded gives the
/// JSON of its standard output where there is one, whatever its standard
/// error holds, and otherwise a parse error.
pub proof fn lemma_command_result_by_exit(
    res: Result<JsonDoc, OpenClawError>,
    preview: Seq<char>,
    success: bool,
    out_text: Seq<char>,
    err_text: Seq<char>,
)
    requires
        command_result_is(res, preview, success, out_text, err_text),
    ensures
        !success ==> (res matches Err(OpenClawError::CommandFailed { command, .. }) && command@
            == preview),
        success ==> !(res matches Err(OpenClawError::CommandFailed { .. })),
        success ==> (json_output(trimmed(out_text)) matches Ok(t) ==> (res matches Ok(doc) && doc@
            == t)),
        success && json_output(trimmed(out_text)) is Err ==> (res matches Err(
            OpenClawError::Parse { .. },
        )),
{
}

} // verus!
