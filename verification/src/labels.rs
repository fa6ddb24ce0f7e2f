//! Fixed labels and texts: status names, filter labels, badges and help.
use vstd::prelude::*;
use crate::text::{chars_of, dec, join, push_dec, push_str, string_of};

verus! {

/// The help overlay text.
pub open spec fn help_text() -> Seq<char> {
    "keys:\n\n"@ + "  Ctrl-K           command palette\n"@ + "  /                command palette\n"@ + "  Ctrl-Q           quit\n"@ + "  Esc/Ctrl-C       clear input / quit when empty\n\n"@ + "thread view:\n\n"@ + "  Enter            send input\n"@ + "  Ctrl/Cmd-Enter   newline\n"@ + "  Tab              cycle thinking intensity\n"@ + "  @                roles\n"@ + "  $                skills\n"@ + "  ↑/↓              scroll transcript (menu closed)\n"@ + "  Ctrl+↑/↓         scroll transcript (menu open)\n"@ + "  PageUp/PageDown  scroll transcript (page)\n"@ + "  Home/End         top/bottom + follow\n"@ + "  Ctrl-A           approvals overlay\n"@ + "  Ctrl-P           processes overlay\n"@ + "  Ctrl-O           artifacts overlay\n\n"@ + "  Ctrl-K (overlay) overlay command palette\n\n"@ + "slash commands:\n\n"@ + "  /allowed-tools <a,b>      set thread allowed_tools\n"@ + "  /allowed-tools clear      clear thread allowed_tools\n"@ + "  /execpolicy-rules <a,b>   set thread execpolicy_rules\n"@ + "  /execpolicy-rules clear   clear thread execpolicy_rules\n\n"@ + "thread picker:\n\n"@ + "  n                new thread\n"@ + "  h                toggle include archived\n"@ + "  l                toggle linkage filter\n"@ + "  a                toggle auto-apply-error filter\n"@ + "  b                toggle fan-in-blocked filter\n"@ + "  s                toggle subagent-approval filter\n"@ + "  c                clear thread picker filters\n"@ + "  r                refresh\n"@ + "  ↑/↓ Enter        open\n"@
}

/// The text of the help overlay: keys, thread view, slash commands, thread picker.
pub fn tui_help_text() -> (out: String)
    ensures
        out@ == help_text(),
{
    let mut out = String::new();
    push_str(&mut out, "keys:\n\n");
    push_str(&mut out, "  Ctrl-K           command palette\n");
    push_str(&mut out, "  /                command palette\n");
    push_str(&mut out, "  Ctrl-Q           quit\n");
    push_str(&mut out, "  Esc/Ctrl-C       clear input / quit when empty\n\n");
    push_str(&mut out, "thread view:\n\n");
    push_str(&mut out, "  Enter            send input\n");
    push_str(&mut out, "  Ctrl/Cmd-Enter   newline\n");
    push_str(&mut out, "  Tab              cycle thinking intensity\n");
    push_str(&mut out, "  @                roles\n");
    push_str(&mut out, "  $                skills\n");
    push_str(&mut out, "  ↑/↓              scroll transcript (menu closed)\n");
    push_str(&mut out, "  Ctrl+↑/↓         scroll transcript (menu open)\n");
    push_str(&mut out, "  PageUp/PageDown  scroll transcript (page)\n");
    push_str(&mut out, "  Home/End         top/bottom + follow\n");
    push_str(&mut out, "  Ctrl-A           approvals overlay\n");
    push_str(&mut out, "  Ctrl-P           processes overlay\n");
    push_str(&mut out, "  Ctrl-O           artifacts overlay\n\n");
    push_str(&mut out, "  Ctrl-K (overlay) overlay command palette\n\n");
    push_str(&mut out, "slash commands:\n\n");
    push_str(&mut out, "  /allowed-tools <a,b>      set thread allowed_tools\n");
    push_str(&mut out, "  /allowed-tools clear      clear thread allowed_tools\n");
    push_str(&mut out, "  /execpolicy-rules <a,b>   set thread execpolicy_rules\n");
    push_str(&mut out, "  /execpolicy-rules clear   clear thread execpolicy_rules\n\n");
    push_str(&mut out, "thread picker:\n\n");
    push_str(&mut out, "  n                new thread\n");
    push_str(&mut out, "  h                toggle include archived\n");
    push_str(&mut out, "  l                toggle linkage filter\n");
    push_str(&mut out, "  a                toggle auto-apply-error filter\n");
    push_str(&mut out, "  b                toggle fan-in-blocked filter\n");
    push_str(&mut out, "  s                toggle subagent-approval filter\n");
    push_str(&mut out, "  c                clear thread picker filters\n");
    push_str(&mut out, "  r                refresh\n");
    push_str(&mut out, "  ↑/↓ Enter        open\n");
    assert(out@ =~= help_text());
    out
}

/// The active thread picker filters, joined by `+`, or `all`.
pub open spec fn filter_label_text(link: bool, auto: bool, fanin: bool, subagent: bool) -> Seq<char> {
    let labels = (if link { seq!["link"@] } else { seq![] }) + (if auto { seq!["auto"@] } else { seq![] })
        + (if fanin { seq!["fanin"@] } else { seq![] }) + (if subagent { seq!["subagent"@] } else { seq![] });
    if labels.len() == 0 {
        "all"@
    } else {
        join(labels, "+"@)
    }
}

pub fn thread_picker_filter_label(
    only_fan_out_linkage_issue: bool,
    only_fan_out_auto_apply_error: bool,
    only_fan_in_dependency_blocked: bool,
    only_subagent_proxy_approval: bool,
) -> (out: String)
    ensures
        out@ == filter_label_text(
            only_fan_out_linkage_issue,
            only_fan_out_auto_apply_error,
            only_fan_in_dependency_blocked,
            only_subagent_proxy_approval,
        ),
{
    let mut labels: Vec<Vec<char>> = Vec::new();
    if only_fan_out_linkage_issue {
        labels.push(chars_of("link"));
    }
    if only_fan_out_auto_apply_error {
        labels.push(chars_of("auto"));
    }
    if only_fan_in_dependency_blocked {
        labels.push(chars_of("fanin"));
    }
    if only_subagent_proxy_approval {
        labels.push(chars_of("subagent"));
    }
    let ghost spec_labels = (if only_fan_out_linkage_issue { seq!["link"@] } else { seq![] }) + (if only_fan_out_auto_apply_error { seq!["auto"@] } else { seq![] })
        + (if only_fan_in_dependency_blocked { seq!["fanin"@] } else { seq![] }) + (if only_subagent_proxy_approval { seq!["subagent"@] } else { seq![] });
    assert(crate::text::deep_chars(labels@) =~= spec_labels);
    if labels.len() == 0 {
        return string_of(chars_of("all").as_slice());
    }
    let plus = chars_of("+");
    let joined = crate::text::join_chars(&labels, plus.as_slice());
    string_of(joined.as_slice())
}

/// A thread's badge for pending subagent approvals, capped at `sub999+`.
pub fn subagent_pending_badge(count: usize) -> (out: String)
    ensures
        count > 999 ==> out@ == "sub999+"@,
        count <= 999 ==> out@ == "sub"@ + dec(count as nat),
{
    if count > 999 {
        string_of(chars_of("sub999+").as_slice())
    } else {
        let mut out = String::new();
        push_str(&mut out, "sub");
        push_dec(&mut out, count as u64);
        out
    }
}

#[derive(Debug, Clone, Copy, PartialEq, Eq, Structural)]
pub enum ApprovalDecision {
    Approved,
    Denied,
}

pub fn approval_decision_str(value: ApprovalDecision) -> (r: &'static str)
    ensures
        r@ == match value {
            ApprovalDecision::Approved => "approved"@,
            ApprovalDecision::Denied => "denied"@,
        },
{
    match value {
        ApprovalDecision::Approved => "approved",
        ApprovalDecision::Denied => "denied",
    }
}

#[derive(Debug, Clone, Copy, PartialEq, Eq)]
pub enum ModelRoutingRuleSource {
    Subagent,
    ProjectOverride,
    KeywordRule,
    Skill,
    RoleDefault,
    GlobalDefault,
}

/// The name of the rule that routed a model.
pub open spec fn routing_source_text(value: ModelRoutingRuleSource) -> Seq<char> {
    match value {
        ModelRoutingRuleSource::Subagent => "subagent"@,
        ModelRoutingRuleSource::ProjectOverride => "project_override"@,
        ModelRoutingRuleSource::KeywordRule => "keyword_rule"@,
        ModelRoutingRuleSource::Skill => "skill"@,
        ModelRoutingRuleSource::RoleDefault => "role_default"@,
        ModelRoutingRuleSource::GlobalDefault => "global_default"@,
    }
}

pub fn model_routing_rule_source_str(value: ModelRoutingRuleSource) -> (r: &'static str)
    ensures
        r@ == routing_source_text(value),
{
    match value {
        ModelRoutingRuleSource::Subagent => "subagent",
        ModelRoutingRuleSource::ProjectOverride => "project_override",
        ModelRoutingRuleSource::KeywordRule => "keyword_rule",
        ModelRoutingRuleSource::Skill => "skill",
        ModelRoutingRuleSource::RoleDefault => "role_default",
        ModelRoutingRuleSource::GlobalDefault => "global_default",
    }
}

#[derive(Debug, Clone, Copy, PartialEq, Eq)]
pub enum ToolStatus {
    Completed,
    Failed,
    Denied,
    Cancelled,
}

pub fn tool_status_str(value: ToolStatus) -> (r: &'static str)
    ensures
        r@ == match value {
            ToolStatus::Completed => "completed"@,
            ToolStatus::Failed => "failed"@,
            ToolStatus::Denied => "denied"@,
            ToolStatus::Cancelled => "cancelled"@,
        },
{
    match value {
        ToolStatus::Completed => "completed",
        ToolStatus::Failed => "failed",
        ToolStatus::Denied => "denied",
        ToolStatus::Cancelled => "cancelled",
    }
}

#[derive(Debug, Clone, Copy, PartialEq, Eq, Structural)]
pub enum TurnStatus {
    Completed,
    Interrupted,
    Failed,
    Cancelled,
    Stuck,
}

/// The name of a turn's status.
pub open spec fn turn_status_text(value: TurnStatus) -> Seq<char> {
    match value {
        TurnStatus::Completed => "completed"@,
        TurnStatus::Interrupted => "interrupted"@,
        TurnStatus::Failed => "failed"@,
        TurnStatus::Cancelled => "cancelled"@,
        TurnStatus::Stuck => "stuck"@,
    }
}

pub fn turn_status_str(value: TurnStatus) -> (r: &'static str)
    ensures
        r@ == turn_status_text(value),
{
    match value {
        TurnStatus::Completed => "completed",
        TurnStatus::Interrupted => "interrupted",
        TurnStatus::Failed => "failed",
        TurnStatus::Cancelled => "cancelled",
        TurnStatus::Stuck => "stuck",
    }
}

#[derive(Debug, Clone, Copy, PartialEq, Eq, Structural)]
pub enum ProcessStatus {
    Running,
    Exited,
    Abandoned,
}

pub open spec fn process_status_text(value: ProcessStatus) -> Seq<char> {
    match value {
        ProcessStatus::Running => "running"@,
        ProcessStatus::Exited => "exited"@,
        ProcessStatus::Abandoned => "abandoned"@,
    }
}

pub fn process_status_str(value: ProcessStatus) -> (r: &'static str)
    ensures
        r@ == process_status_text(value),
{
    match value {
        ProcessStatus::Running => "running",
        ProcessStatus::Exited => "exited",
        ProcessStatus::Abandoned => "abandoned",
    }
}

/// `parts` joined: each part occurs in the result.
proof fn lemma_join_contains(parts: Seq<Seq<char>>, sep: Seq<char>, i: int)
    requires
        0 <= i < parts.len(),
    ensures
        crate::text::contains_seq(join(parts, sep), parts[i]),
    decreases parts.len(),
{
    let j = join(parts, sep);
    if parts.len() == 1 {
        assert(j == parts[0]);
        assert(crate::text::occurs_at(j, parts[i], 0)) by {
            assert(j.subrange(0, parts[i].len() as int) =~= parts[i]);
        }
    } else {
        let q = parts.drop_last();
        let jq = join(q, sep);
        assert(j == jq + sep + parts.last());
        if i == parts.len() - 1 {
            let k: int = (jq.len() + sep.len()) as int;
            assert(crate::text::occurs_at(j, parts[i], k)) by {
                assert(j.subrange(k, k + parts[i].len()) =~= parts[i]);
            }
        } else {
            lemma_join_contains(q, sep, i);
            assert(q[i] == parts[i]);
            let k = choose|k: int| crate::text::occurs_at(jq, parts[i], k);
            assert(crate::text::occurs_at(j, parts[i], k)) by {
                assert(j.subrange(k, k + parts[i].len()) =~= jq.subrange(k, k + parts[i].len()));
            }
        }
    }
}

/// The picker's filter label says `all` exactly when no filter is on, and
/// names every filter that is on.
pub proof fn lemma_filter_label_names_filters(link: bool, auto: bool, fanin: bool, subagent: bool)
    ensures
        (filter_label_text(link, auto, fanin, subagent) == "all"@) <==> !(link || auto || fanin || subagent),
        link ==> crate::text::contains_seq(filter_label_text(link, auto, fanin, subagent), "link"@),
        auto ==> crate::text::contains_seq(filter_label_text(link, auto, fanin, subagent), "auto"@),
        fanin ==> crate::text::contains_seq(filter_label_text(link, auto, fanin, subagent), "fanin"@),
        subagent ==> crate::text::contains_seq(filter_label_text(link, auto, fanin, subagent), "subagent"@),
        (link && !auto && !fanin && !subagent) ==> filter_label_text(link, auto, fanin, subagent) == "link"@,
        (!link && auto && !fanin && !subagent) ==> filter_label_text(link, auto, fanin, subagent) == "auto"@,
        (!link && !auto && fanin && !subagent) ==> filter_label_text(link, auto, fanin, subagent) == "fanin"@,
        (!link && !auto && !fanin && subagent) ==> filter_label_text(link, auto, fanin, subagent) == "subagent"@,
{
    reveal_strlit("all");
    reveal_strlit("link");
    reveal_strlit("auto");
    reveal_strlit("fanin");
    reveal_strlit("subagent");
    let a: Seq<Seq<char>> = if link { seq!["link"@] } else { seq![] };
    let b: Seq<Seq<char>> = if auto { seq!["auto"@] } else { seq![] };
    let c: Seq<Seq<char>> = if fanin { seq!["fanin"@] } else { seq![] };
    let d: Seq<Seq<char>> = if subagent { seq!["subagent"@] } else { seq![] };
    let labels = a + b + c + d;
    let t = filter_label_text(link, auto, fanin, subagent);
    if link {
        assert(labels[0] == "link"@);
        lemma_join_contains(labels, "+"@, 0);
    }
    if auto {
        let i = a.len() as int;
        assert(labels[i] == "auto"@);
        lemma_join_contains(labels, "+"@, i);
    }
    if fanin {
        let i = (a.len() + b.len()) as int;
        assert(labels[i] == "fanin"@);
        lemma_join_contains(labels, "+"@, i);
    }
    if subagent {
        let i = (a.len() + b.len() + c.len()) as int;
        assert(labels[i] == "subagent"@);
        lemma_join_contains(labels, "+"@, i);
    }
    if labels.len() == 1 {
        assert(join(labels, "+"@) == labels[0]);
    }
    if link || auto || fanin || subagent {
        assert(labels.len() > 0);
        if t == "all"@ {
            // every name is longer than `all`, so none occurs in it
            if link {
                let k = choose|k: int| crate::text::occurs_at(t, "link"@, k);
            } else if auto {
                let k = choose|k: int| crate::text::occurs_at(t, "auto"@, k);
            } else if fanin {
                let k = choose|k: int| crate::text::occurs_at(t, "fanin"@, k);
            } else {
                let k = choose|k: int| crate::text::occurs_at(t, "subagent"@, k);
            }
            assert(false);
        }
    } else {
        assert(labels.len() == 0);
    }
}

/// A process's status label tells the statuses apart: no two statuses share
/// a label.
pub proof fn lemma_process_status_text_distinct(a: ProcessStatus, b: ProcessStatus)
    ensures
        process_status_text(a) == process_status_text(b) ==> a == b,
{
    reveal_strlit("running");
    reveal_strlit("exited");
    reveal_strlit("abandoned");
    assert("running"@ != "exited"@) by {
        assert("running"@[0] != "exited"@[0]);
    }
    assert("running"@ != "abandoned"@) by {
        assert("running"@[0] != "abandoned"@[0]);
    }
    assert("exited"@ != "abandoned"@) by {
        assert("exited"@[0] != "abandoned"@[0]);
    }
}

/// The footer's context figure: the share of the context window left, when
/// the window is known (`percent_left`), else the tokens used.
pub open spec fn context_left_spec(total_tokens_used: u64, percent_left: Option<u64>) -> Seq<char> {
    match percent_left {
        Some(p) => dec(p as nat) + "% context left"@,
        None => if total_tokens_used > 0 {
            dec(total_tokens_used as nat) + " used"@
        } else {
            "100% context left"@
        },
    }
}

pub fn context_left_text(total_tokens_used: u64, percent_left: Option<u64>) -> (r: String)
    ensures
        r@ == context_left_spec(total_tokens_used, percent_left),
{
    let mut out = String::new();
    match percent_left {
        Some(p) => {
            push_dec(&mut out, p);
            push_str(&mut out, "% context left");
        },
        None => {
            if total_tokens_used > 0 {
                push_dec(&mut out, total_tokens_used);
                push_str(&mut out, " used");
            } else {
                push_str(&mut out, "100% context left");
            }
        },
    }
    out
}

} // verus!
