//! Parsing of the composer's last line: slash commands (`/model ...`),
//! inline role (`@...`) and skill (`$...`) tokens, and the list commands
//! `/allowed-tools` and `/execpolicy-rules`.
use vstd::prelude::*;
use crate::text::{
    byte_len, byte_offset, char_len_utf8, lemma_byte_len_prefix, chars_eq, chars_eq_str, chars_of, deep_chars, is_whitespace, is_ws,
    lemma_trim_end_len_bound, lower_seq, slice_chars, split_first_ws, split_head, split_rest,
    split_char, split_on, split_words, string_of, to_lower, trim, trim_chars, trim_end,
    trim_end_chars, trim_start,
    trim_start_chars, utf8_len, words,
};

verus! {

/// Which inline palette a composer context opens.
#[derive(Debug, Clone, Copy, PartialEq, Eq, Structural)]
pub enum InlinePaletteKind {
    Command,
    Role,
    Skill,
    Model,
    ApprovalPolicy,
    SandboxPolicy,
    SandboxNetworkAccess,
    AllowedTools,
    ExecpolicyRules,
}

/// The palette kind and the query typed for it.
#[derive(Debug)]
pub struct InlineContext {
    pub kind: InlinePaletteKind,
    pub query: String,
}

#[derive(Debug, Clone, Copy, PartialEq, Eq)]
pub enum InlineListCommandKind {
    AllowedTools,
    ExecpolicyRules,
}

#[derive(Debug, Clone, PartialEq, Eq)]
pub enum InlineListCommandSetting {
    Missing,
    Clear,
    Values(Vec<String>),
}

#[derive(Debug, Clone, PartialEq, Eq)]
pub struct InlineListCommand {
    pub kind: InlineListCommandKind,
    pub setting: InlineListCommandSetting,
}

// ---------------------------------------------------------------------------
// Specification
// ---------------------------------------------------------------------------

/// Character index where the last line of `s` starts (just after the last `'\n'`).
pub open spec fn last_line_start(s: Seq<char>) -> nat
    decreases s.len(),
{
    if s.len() == 0 {
        0
    } else if s.last() == '\n' {
        s.len()
    } else {
        last_line_start(s.drop_last())
    }
}

/// The text after the last `'\n'` of `s`.
pub open spec fn last_line(s: Seq<char>) -> Seq<char> {
    s.skip(last_line_start(s) as int)
}

/// Number of leading `c` characters of `s`.
pub open spec fn leading_count(s: Seq<char>, c: char) -> nat
    decreases s.len(),
{
    if s.len() > 0 && s[0] == c {
        1 + leading_count(s.drop_first(), c)
    } else {
        0
    }
}

/// `str::trim_start_matches(c)`.
pub open spec fn strip_leading(s: Seq<char>, c: char) -> Seq<char> {
    s.skip(leading_count(s, c) as int)
}

/// The palette that a slash command word selects.
pub open spec fn slash_kind(token: Seq<char>) -> InlinePaletteKind {
    if token == "mode"@ {
        InlinePaletteKind::Role
    } else if token == "model"@ {
        InlinePaletteKind::Model
    } else if token == "approval-policy"@ {
        InlinePaletteKind::ApprovalPolicy
    } else if token == "sandbox-policy"@ {
        InlinePaletteKind::SandboxPolicy
    } else if token == "sandbox-network"@ {
        InlinePaletteKind::SandboxNetworkAccess
    } else if token == "allowed-tools"@ {
        InlinePaletteKind::AllowedTools
    } else if token == "execpolicy-rules"@ {
        InlinePaletteKind::ExecpolicyRules
    } else {
        InlinePaletteKind::Command
    }
}

/// The context of a line that starts with `/`.
pub open spec fn slash_context(line: Seq<char>) -> (InlinePaletteKind, Seq<char>) {
    let body = trim_start(strip_leading(line, '/'));
    if body.len() == 0 {
        (InlinePaletteKind::Command, seq![])
    } else {
        let token = trim(split_head(body));
        let rest = trim_start(split_rest(body));
        if token.len() == 0 {
            (InlinePaletteKind::Command, seq![])
        } else {
            let kind = slash_kind(token);
            (kind, if kind == InlinePaletteKind::Command { token } else { rest })
        }
    }
}

/// The last whitespace-separated word of `line`, or the empty text.
pub open spec fn last_word(line: Seq<char>) -> Seq<char> {
    if words(line).len() > 0 {
        words(line).last()
    } else {
        seq![]
    }
}

/// What `parse_inline_context` finds in `input`.
pub open spec fn inline_context_of(input: Seq<char>) -> Option<(InlinePaletteKind, Seq<char>)> {
    let ends_with_ws = input.len() > 0 && is_ws(input.last());
    let line = trim_end(last_line(input));
    if line.len() == 0 {
        None
    } else if line[0] == '/' {
        Some(slash_context(line))
    } else if ends_with_ws {
        None
    } else {
        let token = last_word(line);
        if token.len() == 0 {
            None
        } else if token[0] == '@' {
            Some((InlinePaletteKind::Role, token.drop_first()))
        } else if token[0] == '$' {
            Some((InlinePaletteKind::Skill, token.drop_first()))
        } else {
            None
        }
    }
}

/// Index of the last whitespace character of `s`, if any.
pub open spec fn last_ws(s: Seq<char>) -> Option<nat>
    decreases s.len(),
{
    if s.len() == 0 {
        None
    } else if is_ws(s.last()) {
        Some((s.len() - 1) as nat)
    } else {
        last_ws(s.drop_last())
    }
}

/// Character index where the last word of a trimmed line starts.
pub open spec fn token_start(line: Seq<char>) -> nat {
    match last_ws(line) {
        Some(i) => i + 1,
        None => 0,
    }
}

/// The span `inline_token_span` reports for `input`, in character positions:
/// the start of the token and the end of the trimmed last line.
pub open spec fn token_span_chars(input: Seq<char>, trigger: char) -> Option<(nat, nat)> {
    let start = last_line_start(input);
    let line = trim_end(last_line(input));
    if line.len() == 0 {
        None
    } else {
        let t = token_start(line);
        if t < line.len() && line[t as int] == trigger {
            Some((start + t, start + line.len()))
        } else {
            None
        }
    }
}

/// The trimmed, non-empty pieces of `parts`, each kept at its first occurrence.
pub open spec fn list_values(parts: Seq<Seq<char>>) -> Seq<Seq<char>>
    decreases parts.len(),
{
    if parts.len() == 0 {
        seq![]
    } else {
        let prev = list_values(parts.drop_last());
        let v = trim(parts.last());
        if v.len() == 0 || prev.contains(v) {
            prev
        } else {
            prev.push(v)
        }
    }
}

pub enum ListSettingSpec {
    Missing,
    Clear,
    Values(Seq<Seq<char>>),
}

/// What `parse_inline_list_command_setting` makes of `raw`.
pub open spec fn list_setting_of(raw: Seq<char>) -> ListSettingSpec {
    let t = trim(raw);
    if t.len() == 0 {
        ListSettingSpec::Missing
    } else if lower_seq(t) == "clear"@ || lower_seq(t) == "none"@ || lower_seq(t) == "null"@ {
        ListSettingSpec::Clear
    } else {
        let values = list_values(split_on(t, ','));
        if values.len() == 0 {
            ListSettingSpec::Missing
        } else {
            ListSettingSpec::Values(values)
        }
    }
}

/// The texts of a list of strings.
pub open spec fn strings_view(v: Seq<String>) -> Seq<Seq<char>> {
    v.map_values(|x: String| x@)
}

pub open spec fn setting_view(s: InlineListCommandSetting) -> ListSettingSpec {
    match s {
        InlineListCommandSetting::Missing => ListSettingSpec::Missing,
        InlineListCommandSetting::Clear => ListSettingSpec::Clear,
        InlineListCommandSetting::Values(v) => ListSettingSpec::Values(strings_view(v@)),
    }
}

/// The list command word of a line that starts with `/`, with the text after it.
pub open spec fn list_command_of(input: Seq<char>) -> Option<(InlineListCommandKind, Seq<char>)> {
    let line = trim_end(last_line(input));
    if !(line.len() > 0 && line[0] == '/') {
        None
    } else {
        let body = trim_start(strip_leading(line, '/'));
        let token = trim(split_head(body));
        let rest = split_rest(body);
        if token == "allowed-tools"@ {
            Some((InlineListCommandKind::AllowedTools, rest))
        } else if token == "execpolicy-rules"@ {
            Some((InlineListCommandKind::ExecpolicyRules, rest))
        } else {
            None
        }
    }
}

// ---------------------------------------------------------------------------
// Lemmas
// ---------------------------------------------------------------------------

pub proof fn lemma_last_line_start(s: Seq<char>)
    ensures
        last_line_start(s) <= s.len(),
        forall|k: int| last_line_start(s) <= k < s.len() ==> #[trigger] s[k] != '\n',
        last_line_start(s) > 0 ==> s[last_line_start(s) - 1] == '\n',
    decreases s.len(),
{
    if s.len() > 0 && s.last() != '\n' {
        lemma_last_line_start(s.drop_last());
        assert forall|k: int| last_line_start(s) <= k < s.len() implies #[trigger] s[k] != '\n' by {
            if k < s.len() - 1 {
                assert(s.drop_last()[k] == s[k]);
            }
        }
    }
}

pub proof fn lemma_leading_count(s: Seq<char>, c: char)
    ensures
        leading_count(s, c) <= s.len(),
    decreases s.len(),
{
    if s.len() > 0 && s[0] == c {
        lemma_leading_count(s.drop_first(), c);
    }
}

pub proof fn lemma_last_ws(s: Seq<char>)
    ensures
        match last_ws(s) {
            Some(i) => i < s.len() && is_ws(s[i as int]) && forall|k: int|
                i < k < s.len() ==> !is_ws(#[trigger] s[k]),
            None => forall|k: int| 0 <= k < s.len() ==> !is_ws(#[trigger] s[k]),
        },
    decreases s.len(),
{
    if s.len() > 0 && !is_ws(s.last()) {
        lemma_last_ws(s.drop_last());
        match last_ws(s) {
            Some(i) => {
                assert forall|k: int| i < k < s.len() implies !is_ws(#[trigger] s[k]) by {
                    if k < s.len() - 1 {
                        assert(s.drop_last()[k] == s[k]);
                    }
                }
            },
            None => {
                assert forall|k: int| 0 <= k < s.len() implies !is_ws(#[trigger] s[k]) by {
                    if k < s.len() - 1 {
                        assert(s.drop_last()[k] == s[k]);
                    }
                }
            },
        }
    }
}

/// Every value of a parsed list is non-empty, trimmed, and occurs once.
pub proof fn lemma_list_values_distinct(parts: Seq<Seq<char>>)
    ensures
        forall|i: int, j: int|
            0 <= i < j < list_values(parts).len() ==> list_values(parts)[i] != list_values(
                parts,
            )[j],
        forall|i: int|
            0 <= i < list_values(parts).len() ==> #[trigger] list_values(parts)[i].len() > 0,
    decreases parts.len(),
{
    if parts.len() > 0 {
        lemma_list_values_distinct(parts.drop_last());
        let prev = list_values(parts.drop_last());
        let v = trim(parts.last());
        if !(v.len() == 0 || prev.contains(v)) {
            let cur = prev.push(v);
            assert forall|i: int, j: int| 0 <= i < j < cur.len() implies cur[i] != cur[j] by {
                if j == cur.len() - 1 {
                    if cur[i] == cur[j] {
                        assert(prev[i] == v);
                        assert(prev.contains(v));
                    }
                } else {
                    assert(cur[i] == prev[i] && cur[j] == prev[j]);
                }
            }
        }
    }
}

// ---------------------------------------------------------------------------
// Executable code
// ---------------------------------------------------------------------------

/// Character index where the last line starts.
pub(crate) fn last_line_start_index(s: &[char]) -> (k: usize)
    ensures
        k == last_line_start(s@),
{
    let mut k = s.len();
    assert(s@.take(k as int) =~= s@);
    while k > 0 && s[k - 1] != '\n'
        invariant
            k <= s.len(),
            last_line_start(s@) == last_line_start(s@.take(k as int)),
        decreases k,
    {
        assert(s@.take(k as int).drop_last() =~= s@.take(k - 1));
        k -= 1;
    }
    k
}

/// The byte offset where the last line of `input` starts, and that line.
pub fn last_line_bounds(input: &str) -> (out: (usize, &str))
    requires
        byte_len(input@) <= usize::MAX,
    ensures
        out.0 == byte_len(input@.take(last_line_start(input@) as int)),
        out.1@ == last_line(input@),
{
    let cs = chars_of(input);
    let k = last_line_start_index(cs.as_slice());
    proof {
        lemma_last_line_start(input@);
        lemma_byte_len_prefix(input@, k as int);
    }
    let n = byte_offset(cs.as_slice(), k);
    let line = input.substring_char(k, cs.len());
    assert(line@ =~= last_line(input@));
    (n, line)
}

/// `trim_start(trim_start_matches('/'))` of a line.
fn slash_body(line: &[char]) -> (body: Vec<char>)
    ensures
        body@ == trim_start(strip_leading(line@, '/')),
{
    let mut k: usize = 0;
    assert(line@.skip(0) =~= line@);
    while k < line.len() && line[k] == '/'
        invariant
            k <= line.len(),
            leading_count(line@, '/') == k + leading_count(line@.skip(k as int), '/'),
        decreases line.len() - k,
    {
        assert(line@.skip(k as int).drop_first() =~= line@.skip(k + 1));
        k += 1;
    }
    let stripped = slice_chars(line, k, line.len());
    assert(stripped@ =~= strip_leading(line@, '/'));
    trim_start_chars(stripped.as_slice())
}

fn slash_kind_exec(token: &[char]) -> (k: InlinePaletteKind)
    ensures
        k == slash_kind(token@),
{
    if chars_eq_str(token, "mode") {
        InlinePaletteKind::Role
    } else if chars_eq_str(token, "model") {
        InlinePaletteKind::Model
    } else if chars_eq_str(token, "approval-policy") {
        InlinePaletteKind::ApprovalPolicy
    } else if chars_eq_str(token, "sandbox-policy") {
        InlinePaletteKind::SandboxPolicy
    } else if chars_eq_str(token, "sandbox-network") {
        InlinePaletteKind::SandboxNetworkAccess
    } else if chars_eq_str(token, "allowed-tools") {
        InlinePaletteKind::AllowedTools
    } else if chars_eq_str(token, "execpolicy-rules") {
        InlinePaletteKind::ExecpolicyRules
    } else {
        InlinePaletteKind::Command
    }
}

/// Which inline palette the composer text `input` asks for, and its query.
pub fn parse_inline_context(input: &str) -> (out: Option<InlineContext>)
    ensures
        match inline_context_of(input@) {
            None => out is None,
            Some(spec) => out matches Some(ctx) && ctx.kind == spec.0 && ctx.query@ == spec.1,
        },
{
    let cs = chars_of(input);
    let ends_with_whitespace = cs.len() > 0 && is_whitespace(cs[cs.len() - 1]);
    let k = last_line_start_index(cs.as_slice());
    proof {
        lemma_last_line_start(input@);
    }
    let raw_line = slice_chars(cs.as_slice(), k, cs.len());
    assert(raw_line@ =~= last_line(input@));
    let line = trim_end_chars(raw_line.as_slice());
    if line.len() == 0 {
        return None;
    }
    if line[0] == '/' {
        let body = slash_body(line.as_slice());
        if body.len() == 0 {
            return Some(InlineContext { kind: InlinePaletteKind::Command, query: String::new() });
        }
        let (head, rest_raw) = split_first_ws(body.as_slice());
        let token = trim_chars(head.as_slice());
        let rest = trim_start_chars(rest_raw.as_slice());
        if token.len() == 0 {
            return Some(InlineContext { kind: InlinePaletteKind::Command, query: String::new() });
        }
        let kind = slash_kind_exec(token.as_slice());
        let query = match kind {
            InlinePaletteKind::Command => string_of(token.as_slice()),
            _ => string_of(rest.as_slice()),
        };
        return Some(InlineContext { kind, query });
    }
    if ends_with_whitespace {
        return None;
    }
    let ws = split_words(line.as_slice());
    if ws.len() == 0 {
        return None;
    }
    let token = &ws[ws.len() - 1];
    assert(token@ == last_word(line@));
    if token.len() == 0 {
        return None;
    }
    let prefix = token[0];
    let rest = slice_chars(token.as_slice(), 1, token.len());
    assert(rest@ =~= token@.drop_first());
    if prefix == '@' {
        Some(InlineContext { kind: InlinePaletteKind::Role, query: string_of(rest.as_slice()) })
    } else if prefix == '$' {
        Some(InlineContext { kind: InlinePaletteKind::Skill, query: string_of(rest.as_slice()) })
    } else {
        None
    }
}

/// Index of the last whitespace character of `s`, if any.
pub(crate) fn last_ws_index(s: &[char]) -> (r: Option<usize>)
    ensures
        match last_ws(s@) {
            Some(i) => r == Some(i as usize),
            None => r is None,
        },
{
    let mut k = s.len();
    assert(s@.take(k as int) =~= s@);
    while k > 0 && !is_whitespace(s[k - 1])
        invariant
            k <= s.len(),
            last_ws(s@) == last_ws(s@.take(k as int)),
        decreases k,
    {
        assert(s@.take(k as int).drop_last() =~= s@.take(k - 1));
        k -= 1;
    }
    if k == 0 {
        None
    } else {
        Some(k - 1)
    }
}

/// The byte span of the last word of `input` when that word starts with `trigger`:
/// from the word's first byte to the end of the trimmed last line.
pub fn inline_token_span(input: &str, trigger: char) -> (out: Option<(usize, usize)>)
    requires
        byte_len(input@) <= usize::MAX,
        match last_ws(trim_end(last_line(input@))) {
            Some(i) => utf8_len(trim_end(last_line(input@))[i as int]) == 1,
            None => true,
        },
    ensures
        match token_span_chars(input@, trigger) {
            None => out is None,
            Some(span) => out == Some(
                (
                    byte_len(input@.take(span.0 as int)) as usize,
                    byte_len(input@.take(span.1 as int)) as usize,
                ),
            ),
        },
{
    let cs = chars_of(input);
    let k = last_line_start_index(cs.as_slice());
    proof {
        lemma_last_line_start(input@);
    }
    let raw_line = slice_chars(cs.as_slice(), k, cs.len());
    assert(raw_line@ =~= last_line(input@));
    let line = trim_end_chars(raw_line.as_slice());
    proof {
        lemma_trim_end_len_bound(raw_line@);
        lemma_last_ws(line@);
    }
    if line.len() == 0 {
        return None;
    }
    let t = match last_ws_index(line.as_slice()) {
        Some(i) => i + 1,
        None => 0,
    };
    if t < line.len() && line[t] == trigger {
        let start = k + t;
        let end = k + line.len();
        assert(end <= cs.len());
        proof {
            lemma_byte_len_prefix(input@, start as int);
            lemma_byte_len_prefix(input@, end as int);
        }
        let a = byte_offset(cs.as_slice(), start);
        let b = byte_offset(cs.as_slice(), end);
        Some((a, b))
    } else {
        None
    }
}

fn contains_value(list: &Vec<Vec<char>>, v: &[char]) -> (r: bool)
    ensures
        r == deep_chars(list@).contains(v@),
{
    let mut i: usize = 0;
    while i < list.len()
        invariant
            i <= list.len(),
            forall|j: int| 0 <= j < i ==> list@[j]@ != v@,
        decreases list.len() - i,
    {
        if chars_eq(list[i].as_slice(), v) {
            assert(deep_chars(list@)[i as int] == v@);
            return true;
        }
        i += 1;
    }
    assert forall|j: int| 0 <= j < deep_chars(list@).len() implies deep_chars(list@)[j] != v@ by {
        assert(deep_chars(list@)[j] == list@[j]@);
    }
    false
}

/// What follows a list command: missing, a request to clear, or the distinct
/// comma-separated values in their first-seen order.
pub fn parse_inline_list_command_setting(raw: &str) -> (out: InlineListCommandSetting)
    ensures
        setting_view(out) == list_setting_of(raw@),
        out matches InlineListCommandSetting::Values(v) ==> v.len() > 0 && forall|i: int, j: int|
            0 <= i < j < v.len() ==> v@[i]@ != v@[j]@,
{
    let cs = chars_of(raw);
    let trimmed = trim_chars(cs.as_slice());
    if trimmed.len() == 0 {
        return InlineListCommandSetting::Missing;
    }
    let lowered = to_lower(trimmed.as_slice());
    if chars_eq_str(lowered.as_slice(), "clear") || chars_eq_str(lowered.as_slice(), "none")
        || chars_eq_str(lowered.as_slice(), "null") {
        return InlineListCommandSetting::Clear;
    }
    let parts = split_char(trimmed.as_slice(), ',');
    let ghost ps = deep_chars(parts@);
    let mut values: Vec<Vec<char>> = Vec::new();
    let mut i: usize = 0;
    while i < parts.len()
        invariant
            i <= parts.len(),
            ps == deep_chars(parts@),
            deep_chars(values@) == list_values(ps.take(i as int)),
        decreases parts.len() - i,
    {
        assert(ps.take(i + 1).drop_last() =~= ps.take(i as int));
        assert(ps.take(i + 1).last() == parts@[i as int]@);
        let value = trim_chars(parts[i].as_slice());
        if value.len() > 0 && !contains_value(&values, value.as_slice()) {
            values.push(value);
            assert(deep_chars(values@) =~= list_values(ps.take(i + 1)));
        }
        i += 1;
    }
    assert(ps.take(parts.len() as int) =~= ps);
    proof {
        lemma_list_values_distinct(ps);
    }
    if values.len() == 0 {
        return InlineListCommandSetting::Missing;
    }
    let mut out: Vec<String> = Vec::new();
    let mut j: usize = 0;
    while j < values.len()
        invariant
            j <= values.len(),
            out.len() == j,
            forall|q: int| 0 <= q < j ==> #[trigger] out@[q]@ == values@[q]@,
        decreases values.len() - j,
    {
        let sv = string_of(values[j].as_slice());
        out.push(sv);
        j += 1;
    }
    assert(strings_view(out@) =~= deep_chars(values@));
    proof {
        assert forall|a: int, b: int| 0 <= a < b < out.len() implies out@[a]@ != out@[b]@ by {
            assert(deep_chars(values@)[a] == values@[a]@);
            assert(deep_chars(values@)[b] == values@[b]@);
        }
    }
    InlineListCommandSetting::Values(out)
}

/// The list command on the last line of `input`, if it is one.
pub fn parse_inline_list_command(input: &str) -> (out: Option<InlineListCommand>)
    ensures
        match list_command_of(input@) {
            None => out is None,
            Some(spec) => out matches Some(cmd) && cmd.kind == spec.0 && setting_view(cmd.setting)
                == list_setting_of(spec.1),
        },
{
    let cs = chars_of(input);
    let k = last_line_start_index(cs.as_slice());
    proof {
        lemma_last_line_start(input@);
    }
    let raw_line = slice_chars(cs.as_slice(), k, cs.len());
    assert(raw_line@ =~= last_line(input@));
    let line = trim_end_chars(raw_line.as_slice());
    if !(line.len() > 0 && line[0] == '/') {
        return None;
    }
    let body = slash_body(line.as_slice());
    let (head, rest) = split_first_ws(body.as_slice());
    let token = trim_chars(head.as_slice());
    let kind = if chars_eq_str(token.as_slice(), "allowed-tools") {
        InlineListCommandKind::AllowedTools
    } else if chars_eq_str(token.as_slice(), "execpolicy-rules") {
        InlineListCommandKind::ExecpolicyRules
    } else {
        return None;
    };
    let rest_s = string_of(rest.as_slice());
    let setting = parse_inline_list_command_setting(rest_s.as_str());
    Some(InlineListCommand { kind, setting })
}

} // verus!
