//! The agent's JSON report, normalized into a chat response.
use vstd::prelude::*;
use crate::json::{JsonDoc, doc_array_len_at, doc_object_at, doc_str_at, doc_u64_at, json_array_len_at, json_object_at, json_str_at, json_u64_at};
use crate::text::{append_str, decimal, join, joined, lemma_trimmed_idempotent, owned, push_decimal, same_text, trim, trimmed};

verus! {

/// What the agent answered, gathered from the CLI's JSON report.
#[derive(Debug)]
pub struct OpenClawChatResponse {
    pub run_id: Option<String>,
    pub status: Option<String>,
    pub summary: Option<String>,
    pub reply: String,
    pub payloads: Vec<String>,
    pub duration_ms: Option<u64>,
    pub provider: Option<String>,
    pub model: Option<String>,
    pub usage: Option<OpenClawUsage>,
    pub skills: Vec<String>,
    pub tools: Vec<String>,
}

/// The tokens a chat used, as far as the report tells.
#[derive(Debug)]
pub struct OpenClawUsage {
    pub input: Option<u64>,
    pub output: Option<u64>,
    pub cache_read: Option<u64>,
    pub cache_write: Option<u64>,
    pub total: Option<u64>,
}

/// The text of an optional string.
pub open spec fn opt_view(o: Option<String>) -> Option<Seq<char>> {
    match o {
        Some(s) => Some(s@),
        None => None,
    }
}

/// A text trimmed, where something is left of it.
pub open spec fn present_text(o: Option<Seq<char>>) -> Option<Seq<char>> {
    match o {
        Some(t) => if trimmed(t).len() > 0 {
            Some(trimmed(t))
        } else {
            None
        },
        None => None,
    }
}

/// The trimmed, non-blank string at `pointer` in the document `doc`.
pub open spec fn string_at(doc: Seq<char>, pointer: Seq<char>) -> Option<Seq<char>> {
    present_text(json_str_at(doc, pointer))
}

/// `first`, else `second`.
pub open spec fn or_else(first: Option<Seq<char>>, second: Option<Seq<char>>) -> Option<Seq<char>> {
    match first {
        Some(t) => Some(t),
        None => second,
    }
}

/// The pointer to member `key` of element `i` of the array at `base`.
pub open spec fn entry_pointer(base: Seq<char>, i: nat, key: Seq<char>) -> Seq<char> {
    base + "/"@ + decimal(i) + "/"@ + key
}

/// For each element of the array at `base` (none where there is no
/// array), the string of its member `key`, if it has one.
pub open spec fn entry_texts(doc: Seq<char>, base: Seq<char>, key: Seq<char>) -> Seq<
    Option<Seq<char>>,
> {
    match json_array_len_at(doc, base) {
        Some(n) => Seq::new(n, |i: int| json_str_at(doc, entry_pointer(base, i as nat, key))),
        None => Seq::empty(),
    }
}

/// The texts, trimmed, leaving out those that are missing or blank.
pub open spec fn kept_texts(raw: Seq<Option<Seq<char>>>) -> Seq<Seq<char>>
    decreases raw.len(),
{
    if raw.len() == 0 {
        Seq::empty()
    } else {
        match present_text(raw.last()) {
            Some(t) => kept_texts(raw.drop_last()).push(t),
            None => kept_texts(raw.drop_last()),
        }
    }
}

/// The texts, trimmed, leaving out those that are missing or blank and
/// those seen before.
pub open spec fn distinct_texts(raw: Seq<Option<Seq<char>>>) -> Seq<Seq<char>>
    decreases raw.len(),
{
    if raw.len() == 0 {
        Seq::empty()
    } else {
        let before = distinct_texts(raw.drop_last());
        match present_text(raw.last()) {
            Some(t) => if before.contains(t) {
                before
            } else {
                before.push(t)
            },
            None => before,
        }
    }
}

/// `res` reports these token counts: none where all five are missing.
pub open spec fn usage_counts_are(
    res: Option<OpenClawUsage>,
    input: Option<u64>,
    output: Option<u64>,
    cache_read: Option<u64>,
    cache_write: Option<u64>,
    total: Option<u64>,
) -> bool {
    if input is None && output is None && cache_read is None && cache_write is None
        && total is None {
        res is None
    } else {
        res matches Some(u) && u.input == input && u.output == output && u.cache_read
            == cache_read && u.cache_write == cache_write && u.total == total
    }
}

/// `res` is the usage report of the object at `pointer`: none where there
/// is no object, else the counts of its members.
pub open spec fn usage_is(res: Option<OpenClawUsage>, doc: Seq<char>, pointer: Seq<char>) -> bool {
    if !json_object_at(doc, pointer) {
        res is None
    } else {
        usage_counts_are(
            res,
            json_u64_at(doc, pointer + "/input"@),
            json_u64_at(doc, pointer + "/output"@),
            json_u64_at(doc, pointer + "/cacheRead"@),
            json_u64_at(doc, pointer + "/cacheWrite"@),
            json_u64_at(doc, pointer + "/total"@),
        )
    }
}

/// A text, trimmed, where something is left of it.
pub fn present_string(o: Option<String>) -> (res: Option<String>)
    ensures
        opt_view(res) == present_text(opt_view(o)),
{
    match o {
        Some(s) => {
            let t = trim(s.as_str());
            if t.as_str().is_empty() {
                None
            } else {
                Some(t)
            }
        },
        None => None,
    }
}

/// The usage report of these token counts: none where all are missing.
pub fn usage_from_counts(
    input: Option<u64>,
    output: Option<u64>,
    cache_read: Option<u64>,
    cache_write: Option<u64>,
    total: Option<u64>,
) -> (res: Option<OpenClawUsage>)
    ensures
        usage_counts_are(res, input, output, cache_read, cache_write, total),
{
    let usage = OpenClawUsage { input, output, cache_read, cache_write, total };
    if usage.input.is_none() && usage.output.is_none() && usage.cache_read.is_none()
        && usage.cache_write.is_none() && usage.total.is_none() {
        return None;
    }
    Some(usage)
}

/// The trimmed, non-blank string at `pointer` in `root`.
pub fn get_string(root: &JsonDoc, pointer: &str) -> (res: Option<String>)
    ensures
        opt_view(res) == string_at(root@, pointer@),
{
    present_string(doc_str_at(root, pointer))
}

/// The unsigned integer at `pointer` in `root`.
pub fn get_u64(root: &JsonDoc, pointer: &str) -> (res: Option<u64>)
    ensures
        res == json_u64_at(root@, pointer@),
{
    doc_u64_at(root, pointer)
}

fn entry_pointer_text(base: &str, i: usize, key: &str) -> (res: String)
    ensures
        res@ == entry_pointer(base@, i as nat, key@),
{
    let mut p = owned(base);
    append_str(&mut p, "/");
    push_decimal(&mut p, i as u128);
    append_str(&mut p, "/");
    append_str(&mut p, key);
    p
}

fn contains_text(v: &Vec<String>, t: &str) -> (res: bool)
    ensures
        res == v.deep_view().contains(t@),
{
    let mut k: usize = 0;
    while k < v.len()
        invariant
            k <= v.len(),
            forall|m: int| 0 <= m < k ==> v.deep_view()[m] != t@,
        decreases v.len() - k,
    {
        if same_text(v[k].as_str(), t) {
            assert(v.deep_view()[k as int] == t@);
            return true;
        }
        k += 1;
    }
    false
}

/// The texts, trimmed, leaving out those that are missing or blank and,
/// where `distinct`, those seen before.
fn select_texts(raw: &Vec<Option<String>>, distinct: bool) -> (res: Vec<String>)
    ensures
        distinct ==> res.deep_view() == distinct_texts(raw.deep_view()),
        !distinct ==> res.deep_view() == kept_texts(raw.deep_view()),
{
    let ghost all = raw.deep_view();
    let mut out: Vec<String> = Vec::new();
    for i in 0..raw.len()
        invariant
            all == raw.deep_view(),
            distinct ==> out.deep_view() == distinct_texts(all.take(i as int)),
            !distinct ==> out.deep_view() == kept_texts(all.take(i as int)),
    {
        let ghost before = out.deep_view();
        assert(all.take(i + 1).drop_last() =~= all.take(i as int));
        assert(all.take(i + 1).last() == all[i as int]);
        if let Some(s) = &raw[i] {
            assert(all[i as int] == Some(s@));
            let t = trim(s.as_str());
            if !t.as_str().is_empty() {
                if !distinct || !contains_text(&out, t.as_str()) {
                    out.push(t);
                    assert(out.deep_view() =~= before.push(t@));
                }
            }
        }
    }
    assert(all.take(raw.len() as int) =~= all);
    out
}

/// The texts, trimmed, without those that are missing or blank.
pub fn kept_entries(raw: &Vec<Option<String>>) -> (res: Vec<String>)
    ensures
        res.deep_view() == kept_texts(raw.deep_view()),
{
    select_texts(raw, false)
}

/// The texts, trimmed, without those that are missing or blank and without
/// repeats, in the order they first appear.
pub fn distinct_entries(raw: &Vec<Option<String>>) -> (res: Vec<String>)
    ensures
        res.deep_view() == distinct_texts(raw.deep_view()),
{
    select_texts(raw, true)
}

/// For each element of the array at `pointer` in `root`, the string of its
/// member `key`, if it has one; nothing where there is no array.
pub fn entry_texts_of(root: &JsonDoc, pointer: &str, key: &str) -> (res: Vec<Option<String>>)
    ensures
        res.deep_view() == entry_texts(root@, pointer@, key@),
{
    let ghost raw = entry_texts(root@, pointer@, key@);
    let mut out: Vec<Option<String>> = Vec::new();
    let n = match doc_array_len_at(root, pointer) {
        Some(n) => n,
        None => {
            assert(out.deep_view() =~= raw);
            return out;
        },
    };
    for i in 0..n
        invariant
            raw == entry_texts(root@, pointer@, key@),
            raw.len() == n,
            out.deep_view() == raw.take(i as int),
    {
        let p = entry_pointer_text(pointer, i, key);
        let found = doc_str_at(root, p.as_str());
        let ghost before = out.deep_view();
        assert(raw[i as int] == json_str_at(root@, p@));
        assert(found.deep_view() == raw[i as int]);
        let ghost found_view = found.deep_view();
        out.push(found);
        assert(out.deep_view() =~= before.push(found_view));
        assert(out.deep_view() =~= raw.take(i + 1));
    }
    assert(raw.take(n as int) =~= raw);
    out
}

/// The names (members `name`) of the entries in the array at `pointer`,
/// trimmed, without blank ones and without repeats, in the order they first
/// appear.
pub fn list_entry_names(root: &JsonDoc, pointer: &str) -> (res: Vec<String>)
    ensures
        res.deep_view() == distinct_texts(entry_texts(root@, pointer@, "name"@)),
{
    let raw = entry_texts_of(root, pointer, "name");
    distinct_entries(&raw)
}

fn member_u64(root: &JsonDoc, pointer: &str, member: &str) -> (res: Option<u64>)
    ensures
        res == json_u64_at(root@, pointer@ + member@),
{
    let mut p = owned(pointer);
    append_str(&mut p, member);
    doc_u64_at(root, p.as_str())
}

/// The token counts of the usage object at `pointer`; none where there is
/// no object or it tells no count.
pub fn build_usage(root: &JsonDoc, pointer: &str) -> (res: Option<OpenClawUsage>)
    ensures
        usage_is(res, root@, pointer@),
        res is Some ==> json_object_at(root@, pointer@),
        res matches Some(u) ==> {
            &&& u.input == json_u64_at(root@, pointer@ + "/input"@)
            &&& u.output == json_u64_at(root@, pointer@ + "/output"@)
            &&& u.cache_read == json_u64_at(root@, pointer@ + "/cacheRead"@)
            &&& u.cache_write == json_u64_at(root@, pointer@ + "/cacheWrite"@)
            &&& u.total == json_u64_at(root@, pointer@ + "/total"@)
        },
{
    if !doc_object_at(root, pointer) {
        return None;
    }
    usage_from_counts(
        member_u64(root, pointer, "/input"),
        member_u64(root, pointer, "/output"),
        member_u64(root, pointer, "/cacheRead"),
        member_u64(root, pointer, "/cacheWrite"),
        member_u64(root, pointer, "/total"),
    )
}

/// The pieces of the agent's report that the response carries: run, status
/// and summary; the non-blank payload texts and the reply that joins them
/// with blank lines; duration, provider and model (from the agent's meta,
/// else from the system prompt report); token usage; and the distinct
/// names of the skills and tools.
pub fn normalize_chat_response(raw: &JsonDoc) -> (res: OpenClawChatResponse)
    ensures
        opt_view(res.run_id) == string_at(raw@, "/runId"@),
        opt_view(res.status) == string_at(raw@, "/status"@),
        opt_view(res.summary) == string_at(raw@, "/summary"@),
        res.duration_ms == json_u64_at(raw@, "/result/meta/durationMs"@),
        opt_view(res.provider) == or_else(
            string_at(raw@, "/result/meta/agentMeta/provider"@),
            string_at(raw@, "/result/meta/systemPromptReport/provider"@),
        ),
        opt_view(res.model) == or_else(
            string_at(raw@, "/result/meta/agentMeta/model"@),
            string_at(raw@, "/result/meta/systemPromptReport/model"@),
        ),
        res.payloads.deep_view() == kept_texts(entry_texts(raw@, "/result/payloads"@, "text"@)),
        res.reply@ == joined(res.payloads.deep_view(), "\n\n"@),
        usage_is(res.usage, raw@, "/result/meta/agentMeta/usage"@),
        res.skills.deep_view() == distinct_texts(
            entry_texts(raw@, "/result/meta/systemPromptReport/skills/entries"@, "name"@),
        ),
        res.tools.deep_view() == distinct_texts(
            entry_texts(raw@, "/result/meta/systemPromptReport/tools/entries"@, "name"@),
        ),
{
    let run_id = get_string(raw, "/runId");
    let status = get_string(raw, "/status");
    let summary = get_string(raw, "/summary");
    let duration_ms = get_u64(raw, "/result/meta/durationMs");
    let provider = match get_string(raw, "/result/meta/agentMeta/provider") {
        Some(p) => Some(p),
        None => get_string(raw, "/result/meta/systemPromptReport/provider"),
    };
    let model = match get_string(raw, "/result/meta/agentMeta/model") {
        Some(m) => Some(m),
        None => get_string(raw, "/result/meta/systemPromptReport/model"),
    };
    let payload_texts = entry_texts_of(raw, "/result/payloads", "text");
    let payloads = kept_entries(&payload_texts);
    let reply = if payloads.len() == 0 {
        String::new()
    } else {
        join(&payloads, "\n\n")
    };
    assert(payloads.len() == 0 ==> payloads.deep_view() =~= Seq::<Seq<char>>::empty());
    let usage = build_usage(raw, "/result/meta/agentMeta/usage");
    let skills = list_entry_names(raw, "/result/meta/systemPromptReport/skills/entries");
    let tools = list_entry_names(raw, "/result/meta/systemPromptReport/tools/entries");
    OpenClawChatResponse {
        run_id,
        status,
        summary,
        reply,
        payloads,
        duration_ms,
        provider,
        model,
        usage,
        skills,
        tools,
    }
}

/// The kept texts are trimmed and not empty.
pub proof fn lemma_kept_texts(raw: Seq<Option<Seq<char>>>)
    ensures
        forall|i: int|
            0 <= i < kept_texts(raw).len() ==> #[trigger] kept_texts(raw)[i].len() > 0
                && trimmed(kept_texts(raw)[i]) == kept_texts(raw)[i],
    decreases raw.len(),
{
    if raw.len() > 0 {
        let before = kept_texts(raw.drop_last());
        lemma_kept_texts(raw.drop_last());
        if let Some(t) = raw.last() {
            lemma_trimmed_idempotent(t);
            if trimmed(t).len() > 0 {
                let k = kept_texts(raw);
                assert(k == before.push(trimmed(t)));
                assert forall|i: int| 0 <= i < k.len() implies #[trigger] k[i].len() > 0 && trimmed(
                    k[i],
                ) == k[i] by {
                    if i < before.len() {
                        assert(k[i] == before[i]);
                    } else {
                        assert(k[i] == trimmed(t));
                    }
                }
            }
        }
    }
}

/// The distinct texts are trimmed, not empty, and each appears once; a text
/// is among them exactly when some entry gives it.
pub proof fn lemma_distinct_texts(raw: Seq<Option<Seq<char>>>)
    ensures
        distinct_texts(raw).no_duplicates(),
        forall|i: int|
            0 <= i < distinct_texts(raw).len() ==> #[trigger] distinct_texts(raw)[i].len() > 0
                && trimmed(distinct_texts(raw)[i]) == distinct_texts(raw)[i],
        forall|t: Seq<char>|
            distinct_texts(raw).contains(t) <==> exists|i: int|
                0 <= i < raw.len() && #[trigger] present_text(raw[i]) == Some(t),
    decreases raw.len(),
{
    if raw.len() > 0 {
        let prefix = raw.drop_last();
        let before = distinct_texts(prefix);
        lemma_distinct_texts(prefix);
        let d = distinct_texts(raw);
        let last = present_text(raw.last());
        if let Some(t) = raw.last() {
            lemma_trimmed_idempotent(t);
        }
        if last is Some && !before.contains(last->0) {
            let t0 = last->0;
            assert(d == before.push(t0));
            assert forall|i: int, j: int| 0 <= i < j < d.len() implies d[i] != d[j] by {
                if j == d.len() - 1 {
                    assert(d[j] == t0);
                    assert(d[i] == before[i]);
                    if d[i] == d[j] {
                        assert(before.contains(t0));
                    }
                } else {
                    assert(d[i] == before[i] && d[j] == before[j]);
                }
            }
            assert forall|i: int| 0 <= i < d.len() implies #[trigger] d[i].len() > 0 && trimmed(d[i])
                == d[i] by {
                if i < before.len() {
                    assert(d[i] == before[i]);
                }
            }
        } else {
            assert(d == before);
        }
        assert forall|t: Seq<char>|
            d.contains(t) <==> exists|i: int|
                0 <= i < raw.len() && #[trigger] present_text(raw[i]) == Some(t) by {
            if d.contains(t) {
                if before.contains(t) {
                    let i = choose|i: int|
                        0 <= i < prefix.len() && #[trigger] present_text(prefix[i]) == Some(t);
                    assert(prefix[i] == raw[i]);
                    assert(present_text(raw[i]) == Some(t));
                } else {
                    let k = choose|k: int| 0 <= k < d.len() && d[k] == t;
                    assert(d != before);
                    assert(k == d.len() - 1);
                    assert(present_text(raw[raw.len() - 1]) == Some(t));
                }
            }
            if exists|i: int| 0 <= i < raw.len() && #[trigger] present_text(raw[i]) == Some(t) {
                let i = choose|i: int| 0 <= i < raw.len() && #[trigger] present_text(raw[i]) == Some(t);
                if i < raw.len() - 1 {
                    assert(prefix[i] == raw[i]);
                    assert(present_text(prefix[i]) == Some(t));
                    assert(before.contains(t));
                    let k = choose|k: int| 0 <= k < before.len() && before[k] == t;
                    assert(d[k] == t);
                } else {
                    assert(last == Some(t));
                    if before.contains(t) {
                        let k = choose|k: int| 0 <= k < before.len() && before[k] == t;
                        assert(d[k] == t);
                    } else {
                        assert(d[d.len() - 1] == t);
                    }
                }
            }
        }
    }
}

/// Texts that are not empty join into an empty text exactly when there
/// are none: the reply is empty exactly when no payload has text.
pub proof fn lemma_joined_empty(parts: Seq<Seq<char>>, sep: Seq<char>)
    requires
        forall|i: int| 0 <= i < parts.len() ==> #[trigger] parts[i].len() > 0,
    ensures
        (joined(parts, sep).len() == 0) == (parts.len() == 0),
{
    if parts.len() > 1 {
        assert(parts.last().len() > 0);
    } else if parts.len() == 1 {
        assert(parts[0].len() > 0);
    }
}

/// Each count of a usage report is the integer of the member of the same
/// name in the usage object (`input`, `output`, `cacheRead`, `cacheWrite`,
/// `total`); there is a report exactly when the object exists and tells at
/// least one count.
pub proof fn lemma_usage_members(res: Option<OpenClawUsage>, doc: Seq<char>, pointer: Seq<char>)
    requires
        usage_is(res, doc, pointer),
    ensures
        res matches Some(u) ==> {
            &&& u.input == json_u64_at(doc, pointer + "/input"@)
            &&& u.output == json_u64_at(doc, pointer + "/output"@)
            &&& u.cache_read == json_u64_at(doc, pointer + "/cacheRead"@)
            &&& u.cache_write == json_u64_at(doc, pointer + "/cacheWrite"@)
            &&& u.total == json_u64_at(doc, pointer + "/total"@)
        },
        res is Some <==> json_object_at(doc, pointer) && (json_u64_at(doc, pointer + "/input"@)
            is Some || json_u64_at(doc, pointer + "/output"@) is Some || json_u64_at(
            doc,
            pointer + "/cacheRead"@,
        ) is Some || json_u64_at(doc, pointer + "/cacheWrite"@) is Some || json_u64_at(
            doc,
            pointer + "/total"@,
        ) is Some),
{
}

} // verus!
