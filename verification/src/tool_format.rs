//! One-line descriptions of tool calls and their results for the transcript:
//! parameters read from the call's JSON, shell commands, short summaries of
//! values, and bounded previews of outputs.
use vstd::prelude::*;
use crate::json::{bool_of, get_spec, member, member_of, str_eq, str_of, JsonValue};
use crate::text::{
    chars_of, dec, dec_int, join, push_char, push_chars, push_dec, push_dec_i64, push_str,
    string_of, trim, trim_chars,
};

verus! {

// ---------------------------------------------------------------------------
// Parameters
// ---------------------------------------------------------------------------

/// The optional value behind an optional reference.
pub open spec fn opt_val(v: Option<&JsonValue>) -> Option<JsonValue> {
    match v {
        Some(x) => Some(*x),
        None => None,
    }
}

/// `param_str`: the member `key` of the parameters, when it is a string that
/// is not blank, trimmed.
pub open spec fn param_str_spec(params: Option<JsonValue>, key: Seq<char>) -> Option<Seq<char>> {
    match str_of(member(params, key)) {
        Some(s) => if trim(s).len() > 0 {
            Some(trim(s))
        } else {
            None
        },
        None => None,
    }
}

/// The trimmed text of `s`, when it is not blank.
fn trimmed_nonblank(s: &str) -> (r: Option<String>)
    ensures
        r matches Some(t) ==> trim(s@).len() > 0 && t@ == trim(s@),
        r is None ==> trim(s@).len() == 0,
{
    let cs = chars_of(s);
    let t = trim_chars(cs.as_slice());
    if t.len() == 0 {
        None
    } else {
        Some(string_of(t.as_slice()))
    }
}

/// A string parameter, trimmed; absent, not a string or blank gives `None`.
pub fn param_str(params: Option<&JsonValue>, key: &str) -> (r: Option<String>)
    ensures
        match r {
            Some(s) => param_str_spec(opt_val(params), key@) == Some(s@),
            None => param_str_spec(opt_val(params), key@) is None,
        },
{
    match member_of(params, key) {
        Some(v) => match v.as_str() {
            Some(s) => trimmed_nonblank(s),
            None => None,
        },
        None => None,
    }
}

/// A boolean parameter.
pub fn param_bool(params: Option<&JsonValue>, key: &str) -> (r: Option<bool>)
    ensures
        r == bool_of(member(opt_val(params), key@)),
{
    match member_of(params, key) {
        Some(v) => v.as_bool(),
        None => None,
    }
}

/// The optional text behind an optional string reference.
pub open spec fn opt_str(s: Option<&str>) -> Option<Seq<char>> {
    match s {
        Some(x) => Some(x@),
        None => None,
    }
}

/// `ref` for the `reference` root, nothing for any other.
pub open spec fn root_tag_spec(root: Option<Seq<char>>) -> Option<Seq<char>> {
    if root == Some("reference"@) {
        Some("ref"@)
    } else {
        None
    }
}

/// The short tag of a root: `ref` for the reference root.
pub fn root_tag(root: Option<&str>) -> (r: Option<&'static str>)
    ensures
        opt_str(r) == root_tag_spec(opt_str(root)),
{
    match root {
        Some(x) => if str_eq(x, "reference") {
            Some("ref")
        } else {
            None
        },
        None => None,
    }
}

/// A path, marked `ref:` when it is under the reference root.
pub open spec fn path_with_root_spec(root: Option<Seq<char>>, path: Seq<char>) -> Seq<char> {
    if root == Some("reference"@) {
        "ref:"@ + path
    } else {
        path
    }
}

pub fn format_path_with_root(root: Option<&str>, path: &str) -> (r: String)
    ensures
        r@ == path_with_root_spec(opt_str(root), path@),
{
    let is_ref = match root {
        Some(x) => str_eq(x, "reference"),
        None => false,
    };
    let mut out = String::new();
    if is_ref {
        push_str(&mut out, "ref:");
    }
    push_str(&mut out, path);
    assert(out@ =~= path_with_root_spec(opt_str(root), path@));
    out
}

/// The reference-root tag of the `root` parameter, as text.
pub open spec fn root_param_tag(params: Option<JsonValue>) -> Option<Seq<char>> {
    root_tag_spec(param_str_spec(params, "root"@))
}

/// ` (ref)` when the `root` parameter names the reference root.
pub open spec fn root_suffix(params: Option<JsonValue>) -> Seq<char> {
    match root_param_tag(params) {
        Some(t) => " ("@ + t + ")"@,
        None => seq![],
    }
}

fn push_root_suffix(out: &mut String, params: Option<&JsonValue>)
    ensures
        final(out)@ == old(out)@ + root_suffix(opt_val(params)),
{
    let root = param_str(params, "root");
    let tag = match &root {
        Some(r) => root_tag(Some(r.as_str())),
        None => root_tag(None),
    };
    match tag {
        Some(t) => {
            push_str(out, " (");
            push_str(out, t);
            push_str(out, ")");
        },
        None => {},
    }
    assert(final(out)@ =~= old(out)@ + root_suffix(opt_val(params)));
}

// ---------------------------------------------------------------------------
// The started lines of the tools that have one of their own
// ---------------------------------------------------------------------------

/// `ACTION PATH`, the path marked by its root.
pub open spec fn file_action_spec(action: Seq<char>, params: Option<JsonValue>) -> Option<Seq<char>> {
    match param_str_spec(params, "path"@) {
        Some(path) => Some(action + " "@ + path_with_root_spec(param_str_spec(params, "root"@), path)),
        None => None,
    }
}

pub fn format_file_action(action: &str, params: Option<&JsonValue>) -> (r: Option<String>)
    ensures
        opt_string(r) == file_action_spec(action@, opt_val(params)),
{
    let path = match param_str(params, "path") {
        Some(p) => p,
        None => return None,
    };
    let root = param_str(params, "root");
    let shown = match &root {
        Some(x) => format_path_with_root(Some(x.as_str()), path.as_str()),
        None => format_path_with_root(None, path.as_str()),
    };
    let mut out = String::new();
    push_str(&mut out, action);
    push_str(&mut out, " ");
    push_str(&mut out, shown.as_str());
    assert(out@ =~= file_action_spec(action@, opt_val(params))->0);
    Some(out)
}

/// The text of an optional string.
pub open spec fn opt_string(r: Option<String>) -> Option<Seq<char>> {
    match r {
        Some(s) => Some(s@),
        None => None,
    }
}

pub open spec fn file_glob_spec(params: Option<JsonValue>) -> Option<Seq<char>> {
    match param_str_spec(params, "pattern"@) {
        Some(p) => Some("glob \""@ + p + "\""@ + root_suffix(params)),
        None => None,
    }
}

pub fn format_file_glob(params: Option<&JsonValue>) -> (r: Option<String>)
    ensures
        opt_string(r) == file_glob_spec(opt_val(params)),
{
    let pattern = match param_str(params, "pattern") {
        Some(p) => p,
        None => return None,
    };
    let mut out = String::new();
    push_str(&mut out, "glob \"");
    push_str(&mut out, pattern.as_str());
    push_str(&mut out, "\"");
    push_root_suffix(&mut out, params);
    assert(out@ =~= file_glob_spec(opt_val(params))->0);
    Some(out)
}

pub open spec fn file_grep_spec(params: Option<JsonValue>) -> Option<Seq<char>> {
    match param_str_spec(params, "query"@) {
        Some(q) => Some(
            "grep \""@ + q + "\""@ + (match param_str_spec(params, "include_glob"@) {
                Some(g) => " in "@ + g,
                None => seq![],
            }) + root_suffix(params),
        ),
        None => None,
    }
}

pub fn format_file_grep(params: Option<&JsonValue>) -> (r: Option<String>)
    ensures
        opt_string(r) == file_grep_spec(opt_val(params)),
{
    let query = match param_str(params, "query") {
        Some(q) => q,
        None => return None,
    };
    let mut out = String::new();
    push_str(&mut out, "grep \"");
    push_str(&mut out, query.as_str());
    push_str(&mut out, "\"");
    match param_str(params, "include_glob") {
        Some(g) => {
            push_str(&mut out, " in ");
            push_str(&mut out, g.as_str());
        },
        None => {},
    }
    push_root_suffix(&mut out, params);
    assert(out@ =~= file_grep_spec(opt_val(params))->0);
    Some(out)
}

pub open spec fn repo_search_spec(params: Option<JsonValue>) -> Option<Seq<char>> {
    match param_str_spec(params, "query"@) {
        Some(q) => Some("search \""@ + q + "\""@ + root_suffix(params)),
        None => None,
    }
}

pub fn format_repo_search(params: Option<&JsonValue>) -> (r: Option<String>)
    ensures
        opt_string(r) == repo_search_spec(opt_val(params)),
{
    let query = match param_str(params, "query") {
        Some(q) => q,
        None => return None,
    };
    let mut out = String::new();
    push_str(&mut out, "search \"");
    push_str(&mut out, query.as_str());
    push_str(&mut out, "\"");
    push_root_suffix(&mut out, params);
    assert(out@ =~= repo_search_spec(opt_val(params))->0);
    Some(out)
}

pub fn format_repo_index(params: Option<&JsonValue>) -> (r: Option<String>)
    ensures
        opt_string(r) == Some("repo index"@ + root_suffix(opt_val(params))),
{
    let mut out = String::new();
    push_str(&mut out, "repo index");
    push_root_suffix(&mut out, params);
    assert(out@ =~= "repo index"@ + root_suffix(opt_val(params)));
    Some(out)
}

pub fn format_repo_symbols(params: Option<&JsonValue>) -> (r: Option<String>)
    ensures
        opt_string(r) == Some("repo symbols"@ + root_suffix(opt_val(params))),
{
    let mut out = String::new();
    push_str(&mut out, "repo symbols");
    push_root_suffix(&mut out, params);
    assert(out@ =~= "repo symbols"@ + root_suffix(opt_val(params)));
    Some(out)
}

pub open spec fn fs_mkdir_spec(params: Option<JsonValue>) -> Option<Seq<char>> {
    match param_str_spec(params, "path"@) {
        Some(p) => if bool_of(member(params, "recursive"@)) == Some(true) {
            Some("mkdir -p "@ + p)
        } else {
            Some("mkdir "@ + p)
        },
        None => None,
    }
}

pub fn format_fs_mkdir(params: Option<&JsonValue>) -> (r: Option<String>)
    ensures
        opt_string(r) == fs_mkdir_spec(opt_val(params)),
{
    let path = match param_str(params, "path") {
        Some(p) => p,
        None => return None,
    };
    let recursive = match param_bool(params, "recursive") {
        Some(b) => b,
        None => false,
    };
    let mut out = String::new();
    if recursive {
        push_str(&mut out, "mkdir -p ");
    } else {
        push_str(&mut out, "mkdir ");
    }
    push_str(&mut out, path.as_str());
    assert(out@ =~= fs_mkdir_spec(opt_val(params))->0);
    Some(out)
}

/// `HEAD VALUE` for a required string parameter `key`.
pub open spec fn headed_param_spec(head: Seq<char>, params: Option<JsonValue>, key: Seq<char>) -> Option<
    Seq<char>,
> {
    match param_str_spec(params, key) {
        Some(v) => Some(head + v),
        None => None,
    }
}

fn headed_param(head: &str, params: Option<&JsonValue>, key: &str) -> (r: Option<String>)
    ensures
        opt_string(r) == headed_param_spec(head@, opt_val(params), key@),
{
    let v = match param_str(params, key) {
        Some(v) => v,
        None => return None,
    };
    let mut out = String::new();
    push_str(&mut out, head);
    push_str(&mut out, v.as_str());
    Some(out)
}

pub fn format_process_kill(params: Option<&JsonValue>) -> (r: Option<String>)
    ensures
        opt_string(r) == headed_param_spec("kill "@, opt_val(params), "process_id"@),
{
    headed_param("kill ", params, "process_id")
}

pub fn format_process_interrupt(params: Option<&JsonValue>) -> (r: Option<String>)
    ensures
        opt_string(r) == headed_param_spec("interrupt "@, opt_val(params), "process_id"@),
{
    headed_param("interrupt ", params, "process_id")
}

pub fn format_artifact_read(params: Option<&JsonValue>) -> (r: Option<String>)
    ensures
        opt_string(r) == headed_param_spec("artifact read "@, opt_val(params), "artifact_id"@),
{
    headed_param("artifact read ", params, "artifact_id")
}

pub fn format_artifact_delete(params: Option<&JsonValue>) -> (r: Option<String>)
    ensures
        opt_string(r) == headed_param_spec("artifact delete "@, opt_val(params), "artifact_id"@),
{
    headed_param("artifact delete ", params, "artifact_id")
}

pub fn format_mcp_list_tools(params: Option<&JsonValue>) -> (r: Option<String>)
    ensures
        opt_string(r) == headed_param_spec("mcp list_tools "@, opt_val(params), "server"@),
{
    headed_param("mcp list_tools ", params, "server")
}

pub fn format_mcp_list_resources(params: Option<&JsonValue>) -> (r: Option<String>)
    ensures
        opt_string(r) == headed_param_spec("mcp list_resources "@, opt_val(params), "server"@),
{
    headed_param("mcp list_resources ", params, "server")
}

/// A string parameter, or `-` when it is missing.
pub open spec fn param_or_dash(params: Option<JsonValue>, key: Seq<char>) -> Seq<char> {
    match param_str_spec(params, key) {
        Some(v) => v,
        None => "-"@,
    }
}

pub fn format_mcp_call(params: Option<&JsonValue>) -> (r: Option<String>)
    ensures
        opt_string(r) == Some(
            "mcp "@ + param_or_dash(opt_val(params), "server"@) + "."@ + param_or_dash(
                opt_val(params),
                "tool"@,
            ),
        ),
{
    let mut out = String::new();
    push_str(&mut out, "mcp ");
    match param_str(params, "server") {
        Some(s) => push_str(&mut out, s.as_str()),
        None => push_str(&mut out, "-"),
    }
    push_str(&mut out, ".");
    match param_str(params, "tool") {
        Some(s) => push_str(&mut out, s.as_str()),
        None => push_str(&mut out, "-"),
    }
    assert(out@ =~= "mcp "@ + param_or_dash(opt_val(params), "server"@) + "."@ + param_or_dash(
        opt_val(params),
        "tool"@,
    ));
    Some(out)
}

// ---------------------------------------------------------------------------
// Short summaries of values
// ---------------------------------------------------------------------------

/// `truncate_tool_text`: at most 120 characters, then `…`.
pub open spec fn tool_text_spec(value: Seq<char>) -> Seq<char> {
    if value.len() <= 120 {
        value
    } else {
        value.take(120).push('…')
    }
}

/// Cuts `value` to 120 characters, marking the cut with `…`.
pub fn truncate_tool_text(value: &str) -> (r: String)
    ensures
        r@ == tool_text_spec(value@),
{
    let cs = chars_of(value);
    if cs.len() <= 120 {
        return string_of(cs.as_slice());
    }
    let head = crate::text::slice_chars(cs.as_slice(), 0, 120);
    let mut out = string_of(head.as_slice());
    push_char(&mut out, '…');
    assert(out@ =~= tool_text_spec(value@));
    out
}

/// `bool::to_string`.
pub open spec fn bool_text(b: bool) -> Seq<char> {
    if b { "true"@ } else { "false"@ }
}

/// `summarize_tool_value`: a scalar as text, a string on one line and cut
/// short, a collection as its size in brackets or braces; nothing for null.
pub open spec fn value_summary(v: JsonValue) -> Option<Seq<char>> {
    match v {
        JsonValue::Null => None,
        JsonValue::Bool(b) => Some(bool_text(b)),
        JsonValue::Number(n) => Some(n.text@),
        JsonValue::String(s) => {
            let n = crate::render::single_line_spec(s@);
            if n.len() == 0 {
                None
            } else {
                Some(tool_text_spec(n))
            }
        },
        JsonValue::Array(a) => Some("["@ + dec(a.len() as nat) + "]"@),
        JsonValue::Object(o) => Some("{"@ + dec(o.len() as nat) + "}"@),
    }
}

pub fn summarize_tool_value(value: &JsonValue) -> (r: Option<String>)
    ensures
        opt_string(r) == value_summary(*value),
{
    match value {
        JsonValue::Null => None,
        JsonValue::Bool(b) => {
            let s = if *b { crate::text::owned("true") } else { crate::text::owned("false") };
            Some(s)
        },
        JsonValue::Number(n) => Some(crate::text::owned(n.text.as_str())),
        JsonValue::String(s) => {
            let normalized = crate::render::normalize_single_line(s.as_str());
            let nc = chars_of(normalized.as_str());
            if nc.len() == 0 {
                None
            } else {
                Some(truncate_tool_text(normalized.as_str()))
            }
        },
        JsonValue::Array(a) => {
            let mut out = String::new();
            push_str(&mut out, "[");
            push_dec(&mut out, a.len() as u64);
            push_str(&mut out, "]");
            assert(out@ =~= value_summary(*value)->0);
            Some(out)
        },
        JsonValue::Object(o) => {
            let mut out = String::new();
            push_str(&mut out, "{");
            push_dec(&mut out, o.len() as u64);
            push_str(&mut out, "}");
            assert(out@ =~= value_summary(*value)->0);
            Some(out)
        },
    }
}

/// The `key=summary` part of one object entry, when its summary is not blank.
pub open spec fn kv_item(entry: (String, JsonValue)) -> Option<Seq<char>> {
    match value_summary(entry.1) {
        Some(s) => if trim(s).len() > 0 {
            Some(entry.0@ + "="@ + s)
        } else {
            None
        },
        None => None,
    }
}

/// The parts of an object's summary, in entry order, at most six.
pub open spec fn kv_parts(entries: Seq<(String, JsonValue)>) -> Seq<Seq<char>>
    decreases entries.len(),
{
    if entries.len() == 0 {
        seq![]
    } else {
        let prev = kv_parts(entries.drop_last());
        if prev.len() >= 6 {
            prev
        } else {
            match kv_item(entries.last()) {
                Some(p) => prev.push(p),
                None => prev,
            }
        }
    }
}

/// `summarize_tool_kv`: an object as `[k1=v1, k2=v2, ...]` (empty when no
/// entry has a summary); any other value as its own summary.
pub open spec fn kv_summary(v: JsonValue) -> Seq<char> {
    match v {
        JsonValue::Object(entries) => {
            let parts = kv_parts(entries@);
            if parts.len() == 0 {
                seq![]
            } else {
                "["@ + join(parts, ", "@) + "]"@
            }
        },
        _ => match value_summary(v) {
            Some(s) => s,
            None => seq![],
        },
    }
}

proof fn lemma_kv_parts_len(entries: Seq<(String, JsonValue)>)
    ensures
        kv_parts(entries).len() <= 6,
        kv_parts(entries).len() <= entries.len(),
    decreases entries.len(),
{
    if entries.len() > 0 {
        lemma_kv_parts_len(entries.drop_last());
    }
}

/// A summary of a tool's parameters or result.
pub fn summarize_tool_kv(value: &JsonValue) -> (r: String)
    ensures
        r@ == kv_summary(*value),
{
    match value {
        JsonValue::Object(entries) => {
            let mut parts: Vec<Vec<char>> = Vec::new();
            let mut i: usize = 0;
            while i < entries.len()
                invariant_except_break
                    i <= entries.len(),
                    crate::text::deep_chars(parts@) == kv_parts(entries@.take(i as int)),
                    parts.len() < 6,
                ensures
                    i <= entries.len(),
                    crate::text::deep_chars(parts@) == kv_parts(entries@.take(i as int)),
                    i == entries.len() || parts.len() >= 6,
                decreases entries.len() - i,
            {
                assert(entries@.take(i + 1).drop_last() =~= entries@.take(i as int));
                assert(entries@.take(i + 1).last() == entries@[i as int]);
                let item = match summarize_tool_value(&entries[i].1) {
                    Some(s) => {
                        let sc = chars_of(s.as_str());
                        if trim_chars(sc.as_slice()).len() > 0 {
                            let mut part = chars_of(entries[i].0.as_str());
                            part.push('=');
                            crate::text::extend_chars(&mut part, sc.as_slice());
                            Some(part)
                        } else {
                            None
                        }
                    },
                    None => None,
                };
                let ghost before = crate::text::deep_chars(parts@);
                match item {
                    Some(part) => {
                        let ghost pv = part@;
                        parts.push(part);
                        proof {
                            reveal_strlit("=");
                        }
                        assert(pv =~= kv_item(entries@[i as int])->0);
                        assert(crate::text::deep_chars(parts@) =~= before.push(pv));
                    },
                    None => {},
                }
                i += 1;
                if parts.len() >= 6 {
                    break;
                }
            }
            proof {
                assert(entries@.take(entries.len() as int) =~= entries@);
                if i < entries.len() {
                    lemma_kv_parts_stays(entries@, i as int);
                }
            }
            if parts.len() == 0 {
                return String::new();
            }
            let joined = crate::text::join_chars(&parts, &[',', ' ']);
            let mut out = String::new();
            push_str(&mut out, "[");
            push_chars(&mut out, joined.as_slice());
            push_str(&mut out, "]");
            proof {
                reveal_strlit(", ");
                assert([',', ' ']@ =~= ", "@);
            }
            assert(out@ =~= kv_summary(*value));
            out
        },
        _ => match summarize_tool_value(value) {
            Some(s) => s,
            None => String::new(),
        },
    }
}

/// Once six parts are collected, later entries add none.
proof fn lemma_kv_parts_stays(entries: Seq<(String, JsonValue)>, i: int)
    requires
        0 <= i <= entries.len(),
        kv_parts(entries.take(i)).len() >= 6,
    ensures
        kv_parts(entries) == kv_parts(entries.take(i)),
    decreases entries.len() - i,
{
    if i < entries.len() {
        assert(entries.take(i + 1).drop_last() =~= entries.take(i));
        lemma_kv_parts_stays(entries, i + 1);
    } else {
        assert(entries.take(i) =~= entries);
    }
}

/// `is_denied`: the value's `denied` member is `true`.
pub fn is_denied(value: &JsonValue) -> (r: bool)
    ensures
        r == (bool_of(get_spec(*value, "denied"@)) == Some(true)),
{
    match value.get("denied") {
        Some(v) => match v.as_bool() {
            Some(b) => b,
            None => false,
        },
        None => false,
    }
}

// ---------------------------------------------------------------------------
// Artifact writes
// ---------------------------------------------------------------------------

pub open spec fn artifact_write_spec(params: Option<JsonValue>) -> Seq<char> {
    "artifact write"@ + (match param_str_spec(params, "artifact_type"@) {
        Some(t) => " "@ + t,
        None => seq![],
    }) + (match param_str_spec(params, "summary"@) {
        Some(s) => if tool_text_spec(s).len() > 0 {
            " \""@ + tool_text_spec(s) + "\""@
        } else {
            seq![]
        },
        None => seq![],
    })
}

pub fn format_artifact_write(params: Option<&JsonValue>) -> (r: Option<String>)
    ensures
        opt_string(r) == Some(artifact_write_spec(opt_val(params))),
{
    let mut out = String::new();
    push_str(&mut out, "artifact write");
    match param_str(params, "artifact_type") {
        Some(t) => {
            push_str(&mut out, " ");
            push_str(&mut out, t.as_str());
        },
        None => {},
    }
    match param_str(params, "summary") {
        Some(s) => {
            let summary = truncate_tool_text(s.as_str());
            let sc = chars_of(summary.as_str());
            if sc.len() > 0 {
                push_str(&mut out, " \"");
                push_str(&mut out, summary.as_str());
                push_str(&mut out, "\"");
            }
        },
        None => {},
    }
    assert(out@ =~= artifact_write_spec(opt_val(params)));
    Some(out)
}

// ---------------------------------------------------------------------------
// Which tools get a line of their own
// ---------------------------------------------------------------------------

pub open spec fn suppress_started_spec(tool: Seq<char>) -> bool {
    tool == "process/start"@ || tool == "process/inspect"@ || tool == "process/tail"@ || tool
        == "process/follow"@
}

pub open spec fn suppress_completed_spec(tool: Seq<char>) -> bool {
    tool == "process/inspect"@ || tool == "process/tail"@ || tool == "process/follow"@
}

/// The process tools whose start is shown another way.
pub fn should_suppress_tool_started(tool: &str) -> (r: bool)
    ensures
        r == suppress_started_spec(tool@),
{
    str_eq(tool, "process/start") || str_eq(tool, "process/inspect") || str_eq(tool, "process/tail")
        || str_eq(tool, "process/follow")
}

/// The process tools whose completion is shown another way.
pub fn should_suppress_tool_completed(tool: &str) -> (r: bool)
    ensures
        r == suppress_completed_spec(tool@),
{
    str_eq(tool, "process/inspect") || str_eq(tool, "process/tail") || str_eq(tool, "process/follow")
}

// ---------------------------------------------------------------------------
// Shell commands
// ---------------------------------------------------------------------------

pub open spec fn shell_wrapper_spec(cmd: Seq<char>) -> bool {
    cmd == "bash"@ || cmd == "sh"@ || cmd == "zsh"@ || cmd == "/bin/bash"@ || cmd == "/bin/sh"@
        || cmd == "/bin/zsh"@
}

/// A shell that runs a `-lc` command.
pub fn is_shell_wrapper(cmd: &str) -> (r: bool)
    ensures
        r == shell_wrapper_spec(cmd@),
{
    str_eq(cmd, "bash") || str_eq(cmd, "sh") || str_eq(cmd, "zsh") || str_eq(cmd, "/bin/bash")
        || str_eq(cmd, "/bin/sh") || str_eq(cmd, "/bin/zsh")
}

/// What `format!("{:?}", s)` prints for a string: the `Debug` form of `str`.
pub uninterp spec fn str_debug(s: Seq<char>) -> Seq<char>;

/// `<str as Debug>::fmt`, through `format!("{:?}")`: the quoted, escaped form of `s`.
#[verifier::external_body]
fn debug_quoted(s: &str) -> (r: String)
    ensures
        r@ == str_debug(s@),
{
    format!("{s:?}")
}

/// A character that needs no quoting in a shell word.
pub open spec fn shell_safe(c: char) -> bool {
    ('a' <= c && c <= 'z') || ('A' <= c && c <= 'Z') || ('0' <= c && c <= '9') || c == '-' || c
        == '_' || c == '.' || c == '/' || c == ':'
}

/// `format_shell_arg`: `""` for an empty word, the word itself when every
/// character is safe, its quoted `Debug` form otherwise.
pub open spec fn shell_arg_spec(value: Seq<char>) -> Seq<char> {
    if value.len() == 0 {
        "\"\""@
    } else if forall|i: int| 0 <= i < value.len() ==> shell_safe(#[trigger] value[i]) {
        value
    } else {
        str_debug(value)
    }
}

pub fn format_shell_arg(value: &str) -> (r: String)
    ensures
        r@ == shell_arg_spec(value@),
{
    let cs = chars_of(value);
    if cs.len() == 0 {
        return crate::text::owned("\"\"");
    }
    let mut safe = true;
    let mut i: usize = 0;
    while i < cs.len()
        invariant
            i <= cs.len(),
            cs@ == value@,
            safe == forall|j: int| 0 <= j < i ==> shell_safe(#[trigger] cs@[j]),
        decreases cs.len() - i,
    {
        let c = cs[i];
        let ok = ('a' <= c && c <= 'z') || ('A' <= c && c <= 'Z') || ('0' <= c && c <= '9') || c
            == '-' || c == '_' || c == '.' || c == '/' || c == ':';
        safe = safe && ok;
        i += 1;
    }
    if safe {
        crate::text::owned(value)
    } else {
        debug_quoted(value)
    }
}

/// The views of a list of strings.
pub open spec fn texts(v: Seq<String>) -> Seq<Seq<char>> {
    v.map_values(|s: String| s@)
}

/// `format_argv`: the words, each formatted as a shell word, joined by spaces.
pub open spec fn argv_spec(argv: Seq<Seq<char>>) -> Seq<char> {
    join(argv.map_values(|a: Seq<char>| shell_arg_spec(a)), " "@)
}

pub fn format_argv(argv: &[String]) -> (r: String)
    ensures
        r@ == argv_spec(texts(argv@)),
{
    let ghost words = texts(argv@).map_values(|a: Seq<char>| shell_arg_spec(a));
    let mut out = String::new();
    let mut i: usize = 0;
    while i < argv.len()
        invariant
            i <= argv.len(),
            words == texts(argv@).map_values(|a: Seq<char>| shell_arg_spec(a)),
            out@ == join(words.take(i as int), " "@),
        decreases argv.len() - i,
    {
        if i > 0 {
            push_str(&mut out, " ");
        }
        let w = format_shell_arg(argv[i].as_str());
        push_str(&mut out, w.as_str());
        proof {
            assert(words.take(i + 1).drop_last() =~= words.take(i as int));
            assert(words[i as int] == w@);
            if i == 0 {
                assert(out@ =~= join(words.take(1), " "@));
            } else {
                assert(out@ =~= join(words.take(i as int), " "@) + " "@ + words[i as int]);
            }
        }
        i += 1;
    }
    assert(words.take(argv.len() as int) =~= words);
    out
}

/// `extract_shell_command`: the command of `SHELL -lc CMD` or of
/// `/usr/bin/env SHELL -lc CMD`, trimmed, when it is not blank.
pub open spec fn shell_command_spec(argv: Seq<Seq<char>>) -> Option<Seq<char>> {
    if argv.len() >= 3 && shell_wrapper_spec(argv[0]) && argv[1] == "-lc"@ {
        if trim(argv[2]).len() == 0 {
            None
        } else {
            Some(trim(argv[2]))
        }
    } else if argv.len() >= 4 && argv[0] == "/usr/bin/env"@ && shell_wrapper_spec(argv[1]) && argv[2]
        == "-lc"@ {
        if trim(argv[3]).len() == 0 {
            None
        } else {
            Some(trim(argv[3]))
        }
    } else {
        None
    }
}

pub fn extract_shell_command(argv: &[String]) -> (r: Option<String>)
    ensures
        opt_string(r) == shell_command_spec(texts(argv@)),
{
    if argv.len() >= 3 && is_shell_wrapper(argv[0].as_str()) && str_eq(argv[1].as_str(), "-lc") {
        return trimmed_nonblank(argv[2].as_str());
    }
    if argv.len() >= 4 && str_eq(argv[0].as_str(), "/usr/bin/env") && is_shell_wrapper(
        argv[1].as_str(),
    ) && str_eq(argv[2].as_str(), "-lc") {
        return trimmed_nonblank(argv[3].as_str());
    }
    None
}

/// `format_cwd_display`: the trimmed working directory, unless it is blank,
/// `.`, or the thread's own (trimmed, non-empty) working directory.
pub open spec fn cwd_display_spec(cwd: Seq<char>, thread_cwd: Option<Seq<char>>) -> Option<Seq<char>> {
    let t = trim(cwd);
    if t.len() == 0 || t == "."@ {
        None
    } else if thread_cwd is Some && trim(thread_cwd->0).len() > 0 && trim(thread_cwd->0) == t {
        None
    } else {
        Some(t)
    }
}

pub fn format_cwd_display(cwd: &str, thread_cwd: Option<&str>) -> (r: Option<String>)
    ensures
        opt_string(r) == cwd_display_spec(cwd@, opt_str(thread_cwd)),
{
    let cs = chars_of(cwd);
    let t = trim_chars(cs.as_slice());
    if t.len() == 0 || crate::text::chars_eq_str(t.as_slice(), ".") {
        return None;
    }
    match thread_cwd {
        Some(tc) => {
            let tcs = chars_of(tc);
            let tt = trim_chars(tcs.as_slice());
            if tt.len() > 0 && crate::text::chars_eq(tt.as_slice(), t.as_slice()) {
                return None;
            }
        },
        None => {},
    }
    Some(string_of(t.as_slice()))
}

/// `format_process_started_line`: `$ CMD`, with ` (cwd=DIR)` when the
/// directory is worth showing; nothing when the command is empty.
pub open spec fn process_started_spec(
    argv: Seq<Seq<char>>,
    cwd: Seq<char>,
    thread_cwd: Option<Seq<char>>,
) -> Option<Seq<char>> {
    let cmd = match shell_command_spec(argv) {
        Some(c) => c,
        None => argv_spec(argv),
    };
    if cmd.len() == 0 {
        None
    } else {
        Some(
            "$ "@ + cmd + (match cwd_display_spec(cwd, thread_cwd) {
                Some(d) => " (cwd="@ + d + ")"@,
                None => seq![],
            }),
        )
    }
}

pub fn format_process_started_line(argv: &[String], cwd: &str, thread_cwd: Option<&str>) -> (r: Option<
    String,
>)
    ensures
        opt_string(r) == process_started_spec(texts(argv@), cwd@, opt_str(thread_cwd)),
{
    let cmd = match extract_shell_command(argv) {
        Some(c) => c,
        None => format_argv(argv),
    };
    let cc = chars_of(cmd.as_str());
    if cc.len() == 0 {
        return None;
    }
    let mut line = String::new();
    push_str(&mut line, "$ ");
    push_str(&mut line, cmd.as_str());
    match format_cwd_display(cwd, thread_cwd) {
        Some(d) => {
            push_str(&mut line, " (cwd=");
            push_str(&mut line, d.as_str());
            push_str(&mut line, ")");
        },
        None => {},
    }
    assert(line@ =~= process_started_spec(texts(argv@), cwd@, opt_str(thread_cwd))->0);
    Some(line)
}

// ---------------------------------------------------------------------------
// Started and result lines
// ---------------------------------------------------------------------------

/// The line of a tool that has a formatter of its own (`None` for other
/// tools, or when the formatter finds its parameters missing).
pub open spec fn known_started_line(tool: Seq<char>, params: Option<JsonValue>) -> Option<Seq<char>> {
    if tool == "file/read"@ {
        file_action_spec("read"@, params)
    } else if tool == "file/write"@ {
        file_action_spec("write"@, params)
    } else if tool == "file/edit"@ {
        file_action_spec("edit"@, params)
    } else if tool == "file/patch"@ {
        file_action_spec("patch"@, params)
    } else if tool == "file/delete"@ {
        file_action_spec("delete"@, params)
    } else if tool == "file/glob"@ {
        file_glob_spec(params)
    } else if tool == "file/grep"@ {
        file_grep_spec(params)
    } else if tool == "repo/search"@ {
        repo_search_spec(params)
    } else if tool == "repo/index"@ {
        Some("repo index"@ + root_suffix(params))
    } else if tool == "repo/symbols"@ {
        Some("repo symbols"@ + root_suffix(params))
    } else if tool == "fs/mkdir"@ {
        fs_mkdir_spec(params)
    } else if tool == "process/kill"@ {
        headed_param_spec("kill "@, params, "process_id"@)
    } else if tool == "process/interrupt"@ {
        headed_param_spec("interrupt "@, params, "process_id"@)
    } else if tool == "artifact/list"@ {
        Some("artifact list"@)
    } else if tool == "artifact/read"@ {
        headed_param_spec("artifact read "@, params, "artifact_id"@)
    } else if tool == "artifact/write"@ {
        Some(artifact_write_spec(params))
    } else if tool == "artifact/delete"@ {
        headed_param_spec("artifact delete "@, params, "artifact_id"@)
    } else if tool == "mcp/list_servers"@ {
        Some("mcp list servers"@)
    } else if tool == "mcp/list_tools"@ {
        headed_param_spec("mcp list_tools "@, params, "server"@)
    } else if tool == "mcp/list_resources"@ {
        headed_param_spec("mcp list_resources "@, params, "server"@)
    } else if tool == "mcp/call"@ {
        Some("mcp "@ + param_or_dash(params, "server"@) + "."@ + param_or_dash(params, "tool"@))
    } else if tool == "subagent/spawn"@ {
        Some("subagent spawn"@)
    } else {
        None
    }
}

/// `t` ends `s`.
pub open spec fn ends_with_seq(s: Seq<char>, t: Seq<char>) -> bool {
    t.len() <= s.len() && s.skip(s.len() - t.len()) == t
}

proof fn lemma_ends_with_concat(a: Seq<char>, t: Seq<char>)
    ensures
        ends_with_seq(a + t, t),
{
    assert((a + t).skip((a + t).len() - t.len()) =~= t);
}

/// Every tool that searches or indexes under a root (file/glob, file/grep,
/// repo/search, repo/index, repo/symbols) ends its started line with the
/// same root suffix of its parameters (` (ref)` for the reference root).
pub proof fn lemma_root_tools_end_with_root_suffix(tool: Seq<char>, params: Option<JsonValue>)
    requires
        tool == "file/glob"@ || tool == "file/grep"@ || tool == "repo/search"@ || tool == "repo/index"@ || tool
            == "repo/symbols"@,
    ensures
        known_started_line(tool, params) matches Some(l) ==> started_line_spec(tool, params) == l && ends_with_seq(
            l,
            root_suffix(params),
        ),
{
    reveal_strlit("file/read");
    reveal_strlit("file/write");
    reveal_strlit("file/edit");
    reveal_strlit("file/patch");
    reveal_strlit("file/delete");
    reveal_strlit("file/glob");
    reveal_strlit("file/grep");
    reveal_strlit("repo/search");
    reveal_strlit("repo/index");
    reveal_strlit("repo/symbols");
    let suffix = root_suffix(params);
    if tool == "file/glob"@ {
        assert(tool != "file/read"@ && tool != "file/write"@ && tool != "file/edit"@) by {
            assert(tool[5] != "file/read"@[5] && tool[5] != "file/write"@[5] && tool[5] != "file/edit"@[5]);
        }
        assert(tool != "file/patch"@ && tool != "file/delete"@) by {
            assert(tool[5] != "file/patch"@[5] && tool[5] != "file/delete"@[5]);
        }
        match param_str_spec(params, "pattern"@) {
            Some(p) => lemma_ends_with_concat("glob \""@ + p + "\""@, suffix),
            None => {},
        }
    } else if tool == "file/grep"@ {
        assert(tool != "file/read"@ && tool != "file/write"@ && tool != "file/edit"@) by {
            assert(tool[5] != "file/read"@[5] && tool[5] != "file/write"@[5] && tool[5] != "file/edit"@[5]);
        }
        assert(tool != "file/patch"@ && tool != "file/delete"@ && tool != "file/glob"@) by {
            assert(tool[5] != "file/patch"@[5] && tool[5] != "file/delete"@[5] && tool[6] != "file/glob"@[6]);
        }
        match param_str_spec(params, "query"@) {
            Some(q) => lemma_ends_with_concat(
                "grep \""@ + q + "\""@ + (match param_str_spec(params, "include_glob"@) {
                    Some(g) => " in "@ + g,
                    None => seq![],
                }),
                suffix,
            ),
            None => {},
        }
    } else {
        assert(tool != "file/read"@ && tool != "file/write"@ && tool != "file/edit"@) by {
            assert(tool[0] != "file/read"@[0] && tool[0] != "file/write"@[0] && tool[0] != "file/edit"@[0]);
        }
        assert(tool != "file/patch"@ && tool != "file/delete"@ && tool != "file/glob"@ && tool != "file/grep"@) by {
            assert(tool[0] != "file/patch"@[0] && tool[0] != "file/delete"@[0] && tool[0] != "file/glob"@[0]
                && tool[0] != "file/grep"@[0]);
        }
        if tool == "repo/search"@ {
            match param_str_spec(params, "query"@) {
                Some(q) => lemma_ends_with_concat("search \""@ + q + "\""@, suffix),
                None => {},
            }
        } else if tool == "repo/index"@ {
            assert(tool != "repo/search"@) by {
                assert(tool[5] != "repo/search"@[5]);
            }
            lemma_ends_with_concat("repo index"@, suffix);
        } else {
            assert(tool != "repo/search"@ && tool != "repo/index"@) by {
                assert(tool[6] != "repo/search"@[6] && tool[5] != "repo/index"@[5]);
            }
            lemma_ends_with_concat("repo symbols"@, suffix);
        }
    }
}

/// `format_tool_started_line`: the tool's own line, or else its name
/// followed by the summary of its parameters (when not blank).
pub open spec fn started_line_spec(tool: Seq<char>, params: Option<JsonValue>) -> Seq<char> {
    match known_started_line(tool, params) {
        Some(line) => line,
        None => {
            let summary = match params {
                Some(p) => kv_summary(p),
                None => seq![],
            };
            if trim(summary).len() == 0 {
                tool
            } else {
                tool + " "@ + summary
            }
        },
    }
}

fn known_started_line_exec(tool: &str, params: Option<&JsonValue>) -> (r: Option<String>)
    ensures
        opt_string(r) == known_started_line(tool@, opt_val(params)),
{
    if str_eq(tool, "file/read") {
        format_file_action("read", params)
    } else if str_eq(tool, "file/write") {
        format_file_action("write", params)
    } else if str_eq(tool, "file/edit") {
        format_file_action("edit", params)
    } else if str_eq(tool, "file/patch") {
        format_file_action("patch", params)
    } else if str_eq(tool, "file/delete") {
        format_file_action("delete", params)
    } else if str_eq(tool, "file/glob") {
        format_file_glob(params)
    } else if str_eq(tool, "file/grep") {
        format_file_grep(params)
    } else if str_eq(tool, "repo/search") {
        format_repo_search(params)
    } else if str_eq(tool, "repo/index") {
        format_repo_index(params)
    } else if str_eq(tool, "repo/symbols") {
        format_repo_symbols(params)
    } else if str_eq(tool, "fs/mkdir") {
        format_fs_mkdir(params)
    } else if str_eq(tool, "process/kill") {
        format_process_kill(params)
    } else if str_eq(tool, "process/interrupt") {
        format_process_interrupt(params)
    } else if str_eq(tool, "artifact/list") {
        Some(crate::text::owned("artifact list"))
    } else if str_eq(tool, "artifact/read") {
        format_artifact_read(params)
    } else if str_eq(tool, "artifact/write") {
        format_artifact_write(params)
    } else if str_eq(tool, "artifact/delete") {
        format_artifact_delete(params)
    } else if str_eq(tool, "mcp/list_servers") {
        Some(crate::text::owned("mcp list servers"))
    } else if str_eq(tool, "mcp/list_tools") {
        format_mcp_list_tools(params)
    } else if str_eq(tool, "mcp/list_resources") {
        format_mcp_list_resources(params)
    } else if str_eq(tool, "mcp/call") {
        format_mcp_call(params)
    } else if str_eq(tool, "subagent/spawn") {
        Some(crate::text::owned("subagent spawn"))
    } else {
        None
    }
}

/// The transcript line for a tool call that has started (always a line).
pub fn format_tool_started_line(tool: &str, params: Option<&JsonValue>) -> (r: Option<String>)
    ensures
        opt_string(r) == Some(started_line_spec(tool@, opt_val(params))),
{
    match known_started_line_exec(tool, params) {
        Some(line) => return Some(line),
        None => {},
    }
    let summary = match params {
        Some(p) => summarize_tool_kv(p),
        None => String::new(),
    };
    let sc = chars_of(summary.as_str());
    let mut out = crate::text::owned(tool);
    if trim_chars(sc.as_slice()).len() > 0 {
        push_str(&mut out, " ");
        push_str(&mut out, summary.as_str());
    }
    assert(out@ =~= started_line_spec(tool@, opt_val(params)));
    Some(out)
}

/// `format_tool_result_line`: `TOOL → SUMMARY`, except for the process tools
/// shown another way and for a blank summary.
pub open spec fn result_line_spec(tool: Seq<char>, result: JsonValue) -> Option<Seq<char>> {
    if suppress_completed_spec(tool) || tool == "process/start"@ {
        None
    } else if trim(kv_summary(result)).len() == 0 {
        None
    } else {
        Some(tool + " → "@ + kv_summary(result))
    }
}

pub fn format_tool_result_line(tool: &str, result: &JsonValue) -> (r: Option<String>)
    ensures
        opt_string(r) == result_line_spec(tool@, *result),
{
    if should_suppress_tool_completed(tool) || str_eq(tool, "process/start") {
        return None;
    }
    let summary = summarize_tool_kv(result);
    let sc = chars_of(summary.as_str());
    if trim_chars(sc.as_slice()).len() == 0 {
        return None;
    }
    let mut out = crate::text::owned(tool);
    push_str(&mut out, " → ");
    push_str(&mut out, summary.as_str());
    assert(out@ =~= result_line_spec(tool@, *result)->0);
    Some(out)
}

// ---------------------------------------------------------------------------
// Agent tool names
// ---------------------------------------------------------------------------

/// The position of the first `c` in `s`.
pub open spec fn first_index_of(s: Seq<char>, c: char) -> Option<nat>
    decreases s.len(),
{
    if s.len() == 0 {
        None
    } else {
        match first_index_of(s.drop_last(), c) {
            Some(i) => Some(i),
            None => if s.last() == c {
                Some((s.len() - 1) as nat)
            } else {
                None
            },
        }
    }
}

pub fn first_index_pub(s: &[char], c: char) -> (r: Option<usize>)
    ensures
        match r {
            Some(i) => first_index_of(s@, c) == Some(i as nat) && i < s.len(),
            None => first_index_of(s@, c) is None,
        },
{
    let mut i: usize = 0;
    while i < s.len()
        invariant
            i <= s.len(),
            first_index_of(s@.take(i as int), c) is None,
        decreases s.len() - i,
    {
        assert(s@.take(i + 1).drop_last() =~= s@.take(i as int));
        if s[i] == c {
            proof {
                lemma_first_index_stays(s@, i as int, c);
            }
            return Some(i);
        }
        i += 1;
    }
    assert(s@.take(s.len() as int) =~= s@);
    None
}

proof fn lemma_first_index_stays(s: Seq<char>, i: int, c: char)
    requires
        0 <= i < s.len(),
        first_index_of(s.take(i), c) is None,
        s[i] == c,
    ensures
        first_index_of(s, c) == Some(i as nat),
    decreases s.len(),
{
    if i < s.len() - 1 {
        assert(s.drop_last().take(i) =~= s.take(i));
        lemma_first_index_stays(s.drop_last(), i, c);
    } else {
        assert(s.drop_last() =~= s.take(i));
    }
}

/// `normalize_agent_tool_name`: `group_action` becomes `group/action`; a name
/// with a `/` already, or with nothing after its first `_`, stays as it is.
pub open spec fn agent_tool_name_spec(tool: Seq<char>) -> Seq<char> {
    if first_index_of(tool, '/') is Some {
        tool
    } else {
        match first_index_of(tool, '_') {
            Some(i) => if i + 1 == tool.len() {
                tool
            } else {
                tool.take(i as int) + seq!['/'] + tool.skip(i + 1 as int)
            },
            None => tool,
        }
    }
}

pub fn normalize_agent_tool_name(tool: &str) -> (r: String)
    ensures
        r@ == agent_tool_name_spec(tool@),
{
    let cs = chars_of(tool);
    if first_index_pub(cs.as_slice(), '/').is_some() {
        return crate::text::owned(tool);
    }
    match first_index_pub(cs.as_slice(), '_') {
        Some(i) => {
            if i == cs.len() - 1 {
                return crate::text::owned(tool);
            }
            let group = crate::text::slice_chars(cs.as_slice(), 0, i);
            let action = crate::text::slice_chars(cs.as_slice(), i + 1, cs.len());
            let mut out = string_of(group.as_slice());
            push_char(&mut out, '/');
            push_chars(&mut out, action.as_slice());
            assert(out@ =~= agent_tool_name_spec(tool@));
            out
        },
        None => crate::text::owned(tool),
    }
}

// ---------------------------------------------------------------------------
// Bounded previews of outputs
// ---------------------------------------------------------------------------

/// `s` without its trailing newlines (`trim_end_matches('\n')`).
pub open spec fn strip_trailing_newlines(s: Seq<char>) -> Seq<char>
    decreases s.len(),
{
    if s.len() > 0 && s.last() == '\n' {
        strip_trailing_newlines(s.drop_last())
    } else {
        s
    }
}

/// Copying one line's characters into the preview: the text so far, the
/// characters used, and whether the budget ran out (an ellipsis was added).
pub open spec fn copy_line(st: (Seq<char>, nat), line: Seq<char>, max_chars: nat) -> (Seq<char>, nat, bool)
    decreases line.len(),
{
    if line.len() == 0 {
        (st.0, st.1, false)
    } else {
        let p = copy_line(st, line.drop_last(), max_chars);
        if p.2 {
            p
        } else if p.1 >= max_chars {
            (p.0.push('…'), p.1, true)
        } else {
            (p.0.push(line.last()), crate::render::sat_add(p.1, 1), false)
        }
    }
}

/// Copying the lines into the preview: the text so far, the characters and
/// lines used, and whether a limit was hit.  A line break counts as a character.
pub open spec fn copy_lines(lines: Seq<Seq<char>>, max_lines: nat, max_chars: nat) -> (Seq<char>, nat, nat, bool)
    decreases lines.len(),
{
    if lines.len() == 0 {
        (seq![], 0, 0, false)
    } else {
        let p = copy_lines(lines.drop_last(), max_lines, max_chars);
        if p.3 {
            p
        } else if p.2 >= max_lines {
            ((if p.0.len() > 0 { p.0.push('\n') } else { p.0 }).push('…'), p.1, p.2, true)
        } else {
            let st: (Seq<char>, nat) = if p.2 > 0 {
                (p.0.push('\n'), crate::render::sat_add(p.1, 1))
            } else {
                (p.0, p.1)
            };
            let r = copy_line(st, lines.last(), max_chars);
            (r.0, r.1, crate::render::sat_add(p.2, 1), r.2)
        }
    }
}

/// `truncate_multiline_output`: the text without trailing newlines, cut
/// after `max_lines` lines or `max_chars` characters (each at least 1), an
/// ellipsis marking the cut.
pub open spec fn multiline_spec(text: Seq<char>, max_lines: nat, max_chars: nat) -> Seq<char> {
    let ml: nat = if max_lines == 0 { 1 } else { max_lines };
    let mc: nat = if max_chars == 0 { 1 } else { max_chars };
    copy_lines(crate::text::split_on(strip_trailing_newlines(text), '\n'), ml, mc).0
}

proof fn lemma_copy_line_stopped(st: (Seq<char>, nat), line: Seq<char>, j: int, m: int, mc: nat)
    requires
        0 <= j <= m <= line.len(),
        copy_line(st, line.take(j), mc).2,
    ensures
        copy_line(st, line.take(m), mc) == copy_line(st, line.take(j), mc),
    decreases m - j,
{
    if m > j {
        lemma_copy_line_stopped(st, line, j, m - 1, mc);
        assert(line.take(m).drop_last() =~= line.take(m - 1));
    }
}

proof fn lemma_copy_lines_stopped(lines: Seq<Seq<char>>, j: int, m: int, ml: nat, mc: nat)
    requires
        0 <= j <= m <= lines.len(),
        copy_lines(lines.take(j), ml, mc).3,
    ensures
        copy_lines(lines.take(m), ml, mc) == copy_lines(lines.take(j), ml, mc),
    decreases m - j,
{
    if m > j {
        lemma_copy_lines_stopped(lines, j, m - 1, ml, mc);
        assert(lines.take(m).drop_last() =~= lines.take(m - 1));
    }
}

/// Copies one line into `out`; `false` when the character budget ran out.
fn copy_line_exec(out: &mut String, used: &mut usize, line: &[char], max_chars: usize) -> (ok: bool)
    ensures
        (final(out)@, *final(used) as nat, !ok) == copy_line(
            (old(out)@, *old(used) as nat),
            line@,
            max_chars as nat,
        ),
{
    let ghost st = (out@, *used as nat);
    let mut i: usize = 0;
    while i < line.len()
        invariant_except_break
            i <= line.len(),
            (out@, *used as nat, false) == copy_line(st, line@.take(i as int), max_chars as nat),
        ensures
            i <= line.len(),
            i < line.len() ==> (out@, *used as nat, true) == copy_line(
                st,
                line@.take(i + 1),
                max_chars as nat,
            ),
            i == line.len() ==> (out@, *used as nat, false) == copy_line(
                st,
                line@.take(i as int),
                max_chars as nat,
            ),
        decreases line.len() - i,
    {
        assert(line@.take(i + 1).drop_last() =~= line@.take(i as int));
        assert(line@.take(i + 1).last() == line[i as int]);
        if *used >= max_chars {
            push_char(out, '…');
            break;
        }
        push_char(out, line[i]);
        *used = (*used).saturating_add(1);
        i += 1;
    }
    proof {
        assert(line@.take(line.len() as int) =~= line@);
        if i < line.len() {
            lemma_copy_line_stopped(st, line@, i + 1, line.len() as int, max_chars as nat);
        }
    }
    i == line.len()
}

/// A preview of `text` within `max_lines` lines and `max_chars` characters.
pub fn truncate_multiline_output(text: &str, max_lines: usize, max_chars: usize) -> (r: String)
    ensures
        r@ == multiline_spec(text@, max_lines as nat, max_chars as nat),
{
    let cs = chars_of(text);
    let mut end = cs.len();
    assert(cs@.take(cs.len() as int) =~= cs@);
    while end > 0 && cs[end - 1] == '\n'
        invariant
            end <= cs.len(),
            strip_trailing_newlines(cs@.take(end as int)) == strip_trailing_newlines(cs@),
        decreases end,
    {
        assert(cs@.take(end - 1) =~= cs@.take(end as int).drop_last());
        end -= 1;
    }
    assert(cs@.take(cs.len() as int) =~= cs@);
    let body = crate::text::slice_chars(cs.as_slice(), 0, end);
    assert(body@ =~= cs@.take(end as int));
    assert(strip_trailing_newlines(body@) == body@);
    let max_lines = if max_lines == 0 { 1 } else { max_lines };
    let max_chars = if max_chars == 0 { 1 } else { max_chars };
    let lines = crate::text::split_char(body.as_slice(), '\n');
    let ghost lv = crate::text::deep_chars(lines@);
    let mut out = String::new();
    let mut chars_used: usize = 0;
    let mut lines_used: usize = 0;
    let mut k: usize = 0;
    while k < lines.len()
        invariant_except_break
            k <= lines.len(),
            lv == crate::text::deep_chars(lines@),
            lv == crate::text::split_on(body@, '\n'),
            (out@, chars_used as nat, lines_used as nat, false) == copy_lines(
                lv.take(k as int),
                max_lines as nat,
                max_chars as nat,
            ),
        ensures
            k <= lines.len(),
            k < lines.len() ==> copy_lines(lv.take(k + 1), max_lines as nat, max_chars as nat).0
                == out@ && copy_lines(lv.take(k + 1), max_lines as nat, max_chars as nat).3,
            k == lines.len() ==> copy_lines(lv.take(k as int), max_lines as nat, max_chars as nat).0
                == out@,
        decreases lines.len() - k,
    {
        assert(lv.take(k + 1).drop_last() =~= lv.take(k as int));
        assert(lv.take(k + 1).last() == lines@[k as int]@);
        if lines_used >= max_lines {
            if chars_of(out.as_str()).len() > 0 {
                push_char(&mut out, '\n');
            }
            push_char(&mut out, '…');
            break;
        }
        if lines_used > 0 {
            push_char(&mut out, '\n');
            chars_used = chars_used.saturating_add(1);
        }
        let ok = copy_line_exec(&mut out, &mut chars_used, lines[k].as_slice(), max_chars);
        lines_used = lines_used.saturating_add(1);
        if !ok {
            break;
        }
        k += 1;
    }
    proof {
        assert(lv.take(lv.len() as int) =~= lv);
        if k < lines.len() {
            lemma_copy_lines_stopped(lv, k + 1, lv.len() as int, max_lines as nat, max_chars as nat);
        }
    }
    out
}

// ---------------------------------------------------------------------------
// The main text of a tool's output
// ---------------------------------------------------------------------------

/// The first of two members that is present (`a.or_else(|| b)`).
pub open spec fn or_present(a: Option<JsonValue>, b: Option<JsonValue>) -> Option<JsonValue> {
    if a is Some { a } else { b }
}

/// A text worth showing: present and not blank.
pub open spec fn nonblank(s: Option<Seq<char>>) -> bool {
    s is Some && trim(s->0).len() > 0
}

/// The stdout and stderr of an output joined: stdout trimmed at the end, then
/// (after a blank line and `[stderr]` when both are there) stderr trimmed at the end.
pub open spec fn streams_text(stdout: Option<Seq<char>>, stderr: Option<Seq<char>>) -> Seq<char> {
    let a: Seq<char> = if nonblank(stdout) { crate::text::trim_end(stdout->0) } else { seq![] };
    if nonblank(stderr) {
        (if a.len() > 0 { a + "\n\n"@ + "[stderr]\n"@ } else { a }) + crate::text::trim_end(stderr->0)
    } else {
        a
    }
}

/// The first of `output`, `content`, `diff`, `patch` that is a non-blank string.
pub open spec fn fallback_text(v: JsonValue) -> Option<Seq<char>> {
    if nonblank(str_of(get_spec(v, "output"@))) {
        str_of(get_spec(v, "output"@))
    } else if nonblank(str_of(get_spec(v, "content"@))) {
        str_of(get_spec(v, "content"@))
    } else if nonblank(str_of(get_spec(v, "diff"@))) {
        str_of(get_spec(v, "diff"@))
    } else if nonblank(str_of(get_spec(v, "patch"@))) {
        str_of(get_spec(v, "patch"@))
    } else {
        None
    }
}

/// `extract_primary_tool_text`: a non-blank string itself; for an object,
/// its `text`, else its stdout/stderr (or their tails) joined, else the first
/// non-blank of `output`, `content`, `diff`, `patch`.
pub open spec fn primary_text_spec(v: JsonValue) -> Option<Seq<char>> {
    match v {
        JsonValue::String(s) => if trim(s@).len() == 0 {
            None
        } else {
            Some(s@)
        },
        JsonValue::Object(_) => {
            let text = str_of(get_spec(v, "text"@));
            let stdout = str_of(or_present(get_spec(v, "stdout"@), get_spec(v, "stdout_tail"@)));
            let stderr = str_of(or_present(get_spec(v, "stderr"@), get_spec(v, "stderr_tail"@)));
            if text is Some {
                text
            } else if stdout is Some || stderr is Some {
                let out = streams_text(stdout, stderr);
                if trim(out).len() == 0 {
                    None
                } else {
                    Some(out)
                }
            } else {
                fallback_text(v)
            }
        },
        _ => None,
    }
}

/// The string member `key`, when present and a string.
fn str_member(v: &JsonValue, key: &str) -> (r: Option<String>)
    ensures
        opt_string(r) == str_of(get_spec(*v, key@)),
{
    match v.get(key) {
        Some(x) => match x.as_str() {
            Some(s) => Some(crate::text::owned(s)),
            None => None,
        },
        None => None,
    }
}

/// The string member `a`, or `b` when `a` is absent.
fn str_member_or(v: &JsonValue, a: &str, b: &str) -> (r: Option<String>)
    ensures
        opt_string(r) == str_of(or_present(get_spec(*v, a@), get_spec(*v, b@))),
{
    let first = match v.get(a) {
        Some(x) => Some(x),
        None => v.get(b),
    };
    match first {
        Some(x) => match x.as_str() {
            Some(s) => Some(crate::text::owned(s)),
            None => None,
        },
        None => None,
    }
}

fn is_nonblank(s: &Option<String>) -> (r: bool)
    ensures
        r == nonblank(opt_string(*s)),
{
    match s {
        Some(x) => {
            let cs = chars_of(x.as_str());
            trim_chars(cs.as_slice()).len() > 0
        },
        None => false,
    }
}

fn push_trim_end(out: &mut String, s: &str)
    ensures
        final(out)@ == old(out)@ + crate::text::trim_end(s@),
{
    let cs = chars_of(s);
    let t = crate::text::trim_end_chars(cs.as_slice());
    push_chars(out, t.as_slice());
}

/// The text of a tool's output worth showing first.
pub fn extract_primary_tool_text(value: &JsonValue) -> (r: Option<String>)
    ensures
        opt_string(r) == primary_text_spec(*value),
{
    match value {
        JsonValue::String(s) => {
            let cs = chars_of(s.as_str());
            if trim_chars(cs.as_slice()).len() == 0 {
                None
            } else {
                Some(crate::text::owned(s.as_str()))
            }
        },
        JsonValue::Object(_) => {
            let text = str_member(value, "text");
            if text.is_some() {
                return text;
            }
            let stdout = str_member_or(value, "stdout", "stdout_tail");
            let stderr = str_member_or(value, "stderr", "stderr_tail");
            if stdout.is_some() || stderr.is_some() {
                let mut out = String::new();
                if is_nonblank(&stdout) {
                    match &stdout {
                        Some(x) => push_trim_end(&mut out, x.as_str()),
                        None => {},
                    }
                }
                if is_nonblank(&stderr) {
                    if chars_of(out.as_str()).len() > 0 {
                        push_str(&mut out, "\n\n");
                        push_str(&mut out, "[stderr]\n");
                    }
                    match &stderr {
                        Some(x) => push_trim_end(&mut out, x.as_str()),
                        None => {},
                    }
                }
                assert(out@ =~= streams_text(opt_string(stdout), opt_string(stderr)));
                let oc = chars_of(out.as_str());
                if trim_chars(oc.as_slice()).len() == 0 {
                    None
                } else {
                    Some(out)
                }
            } else {
                let output = str_member(value, "output");
                if is_nonblank(&output) {
                    return output;
                }
                let content = str_member(value, "content");
                if is_nonblank(&content) {
                    return content;
                }
                let diff = str_member(value, "diff");
                if is_nonblank(&diff) {
                    return diff;
                }
                let patch = str_member(value, "patch");
                if is_nonblank(&patch) {
                    return patch;
                }
                None
            }
        },
        _ => None,
    }
}

// ---------------------------------------------------------------------------
// The short facts of a tool's result
// ---------------------------------------------------------------------------

/// `tool_meta_brief`: ` [process_id=..., path=..., exit_code=..., truncated=true, denied=true]`
/// with the parts that apply, or nothing.
pub open spec fn meta_parts(v: JsonValue) -> Seq<Seq<char>> {
    let pid = str_of(get_spec(v, "process_id"@));
    let rpath = str_of(get_spec(v, "resolved_path"@));
    let path = str_of(get_spec(v, "path"@));
    let code = crate::json::i64_of(get_spec(v, "exit_code"@));
    let p1: Seq<Seq<char>> = if nonblank(pid) {
        seq!["process_id="@ + crate::render::single_line_spec(pid->0)]
    } else {
        seq![]
    };
    let p2: Seq<Seq<char>> = if nonblank(rpath) {
        seq!["path="@ + crate::render::single_line_spec(rpath->0)]
    } else if nonblank(path) {
        seq!["path="@ + crate::render::single_line_spec(path->0)]
    } else {
        seq![]
    };
    let p3: Seq<Seq<char>> = match code {
        Some(c) => seq!["exit_code="@ + dec_int(c as int)],
        None => seq![],
    };
    let p4: Seq<Seq<char>> = if bool_of(get_spec(v, "truncated"@)) == Some(true) {
        seq!["truncated=true"@]
    } else {
        seq![]
    };
    let p5: Seq<Seq<char>> = if bool_of(get_spec(v, "denied"@)) == Some(true) {
        seq!["denied=true"@]
    } else {
        seq![]
    };
    p1 + p2 + p3 + p4 + p5
}

pub open spec fn meta_brief_spec(v: JsonValue) -> Seq<char> {
    let parts = meta_parts(v);
    if parts.len() == 0 {
        seq![]
    } else {
        " ["@ + join(parts, ", "@) + "]"@
    }
}

fn push_part(parts: &mut Vec<Vec<char>>, head: &str, tail: &str)
    ensures
        crate::text::deep_chars(final(parts)@) == crate::text::deep_chars(old(parts)@).push(
            head@ + tail@,
        ),
{
    let mut p = chars_of(head);
    let t = chars_of(tail);
    crate::text::extend_chars(&mut p, t.as_slice());
    let ghost before = crate::text::deep_chars(parts@);
    let ghost pv = p@;
    parts.push(p);
    assert(crate::text::deep_chars(parts@) =~= before.push(pv));
}

/// The short facts of a tool's result.
pub fn tool_meta_brief(value: &JsonValue) -> (r: String)
    ensures
        r@ == meta_brief_spec(*value),
{
    let mut parts: Vec<Vec<char>> = Vec::new();
    let pid = str_member(value, "process_id");
    if is_nonblank(&pid) {
        match &pid {
            Some(x) => {
                let n = crate::render::normalize_single_line(x.as_str());
                push_part(&mut parts, "process_id=", n.as_str());
            },
            None => {},
        }
    }
    let ghost a1 = crate::text::deep_chars(parts@);
    let rpath = str_member(value, "resolved_path");
    let path = str_member(value, "path");
    if is_nonblank(&rpath) {
        match &rpath {
            Some(x) => {
                let n = crate::render::normalize_single_line(x.as_str());
                push_part(&mut parts, "path=", n.as_str());
            },
            None => {},
        }
    } else if is_nonblank(&path) {
        match &path {
            Some(x) => {
                let n = crate::render::normalize_single_line(x.as_str());
                push_part(&mut parts, "path=", n.as_str());
            },
            None => {},
        }
    }
    let ghost a2 = crate::text::deep_chars(parts@);
    let code = match value.get("exit_code") {
        Some(x) => x.as_i64(),
        None => None,
    };
    match code {
        Some(c) => {
            let mut digits = String::new();
            push_dec_i64(&mut digits, c);
            push_part(&mut parts, "exit_code=", digits.as_str());
        },
        None => {},
    }
    let ghost a3 = crate::text::deep_chars(parts@);
    let truncated = match value.get("truncated") {
        Some(x) => x.as_bool(),
        None => None,
    };
    if truncated == Some(true) {
        push_part(&mut parts, "truncated=true", "");
    }
    let ghost a4 = crate::text::deep_chars(parts@);
    let denied = match value.get("denied") {
        Some(x) => x.as_bool(),
        None => None,
    };
    if denied == Some(true) {
        push_part(&mut parts, "denied=true", "");
    }
    proof {
        let v = *value;
        reveal_strlit("");
        assert("truncated=true"@ + ""@ =~= "truncated=true"@);
        assert("denied=true"@ + ""@ =~= "denied=true"@);
        let pid_s = str_of(get_spec(v, "process_id"@));
        let p1: Seq<Seq<char>> = if nonblank(pid_s) {
            seq!["process_id="@ + crate::render::single_line_spec(pid_s->0)]
        } else {
            seq![]
        };
        assert(a1 =~= p1);
        assert(crate::text::deep_chars(parts@) =~= meta_parts(v));
    }
    if parts.len() == 0 {
        return String::new();
    }
    let joined = crate::text::join_chars(&parts, &[',', ' ']);
    let mut out = String::new();
    push_str(&mut out, " [");
    push_chars(&mut out, joined.as_slice());
    push_str(&mut out, "]");
    proof {
        reveal_strlit(", ");
        assert([',', ' ']@ =~= ", "@);
    }
    assert(out@ =~= meta_brief_spec(*value));
    out
}

// ---------------------------------------------------------------------------
// Token usage
// ---------------------------------------------------------------------------

pub open spec fn usage_input_spec(usage: JsonValue) -> Option<u64> {
    crate::json::u64_of(or_present(get_spec(usage, "input_tokens"@), get_spec(usage, "prompt_tokens"@)))
}

pub open spec fn usage_output_spec(usage: JsonValue) -> Option<u64> {
    crate::json::u64_of(
        or_present(get_spec(usage, "output_tokens"@), get_spec(usage, "completion_tokens"@)),
    )
}

/// `total_tokens`, or else input plus output (saturating) when both are known.
pub open spec fn usage_total_spec(usage: JsonValue) -> Option<u64> {
    match crate::json::u64_of(get_spec(usage, "total_tokens"@)) {
        Some(t) => Some(t),
        None => match (usage_input_spec(usage), usage_output_spec(usage)) {
            (Some(i), Some(o)) => Some(
                if i + o > u64::MAX {
                    u64::MAX
                } else {
                    (i + o) as u64
                },
            ),
            _ => None,
        },
    }
}

/// `cache_input_tokens`, or the `cached_tokens` of the input or prompt token details.
pub open spec fn usage_cache_spec(usage: JsonValue) -> Option<u64> {
    let a = crate::json::u64_of(get_spec(usage, "cache_input_tokens"@));
    let b = crate::json::u64_of(member(get_spec(usage, "input_tokens_details"@), "cached_tokens"@));
    let c = crate::json::u64_of(member(get_spec(usage, "prompt_tokens_details"@), "cached_tokens"@));
    if a is Some {
        a
    } else if b is Some {
        b
    } else {
        c
    }
}

fn u64_member_or(v: &JsonValue, a: &str, b: &str) -> (r: Option<u64>)
    ensures
        r == crate::json::u64_of(or_present(get_spec(*v, a@), get_spec(*v, b@))),
{
    let first = match v.get(a) {
        Some(x) => Some(x),
        None => v.get(b),
    };
    match first {
        Some(x) => x.as_u64(),
        None => None,
    }
}

pub fn usage_input_tokens(usage: &JsonValue) -> (r: Option<u64>)
    ensures
        r == usage_input_spec(*usage),
{
    u64_member_or(usage, "input_tokens", "prompt_tokens")
}

pub fn usage_output_tokens(usage: &JsonValue) -> (r: Option<u64>)
    ensures
        r == usage_output_spec(*usage),
{
    u64_member_or(usage, "output_tokens", "completion_tokens")
}

pub fn usage_total_tokens(usage: &JsonValue) -> (r: Option<u64>)
    ensures
        r == usage_total_spec(*usage),
{
    let total = match usage.get("total_tokens") {
        Some(x) => x.as_u64(),
        None => None,
    };
    let input = usage_input_tokens(usage);
    let output = usage_output_tokens(usage);
    match total {
        Some(t) => Some(t),
        None => match (input, output) {
            (Some(i), Some(o)) => Some(i.saturating_add(o)),
            _ => None,
        },
    }
}

pub fn usage_cache_input_tokens(usage: &JsonValue) -> (r: Option<u64>)
    ensures
        r == usage_cache_spec(*usage),
{
    let a = match usage.get("cache_input_tokens") {
        Some(x) => x.as_u64(),
        None => None,
    };
    if a.is_some() {
        return a;
    }
    let b = match member_of(usage.get("input_tokens_details"), "cached_tokens") {
        Some(x) => x.as_u64(),
        None => None,
    };
    if b.is_some() {
        return b;
    }
    match member_of(usage.get("prompt_tokens_details"), "cached_tokens") {
        Some(x) => x.as_u64(),
        None => None,
    }
}

} // verus!
