//! Decisions of the watch and inbox views: which events may change which
//! summaries, when to ring the bell, what changed between two summaries,
//! and the one-line debug and summary texts.
use vstd::prelude::*;
use crate::approvals::SubagentPendingSummary;
use crate::json::str_eq;
use crate::labels::TurnStatus;
use crate::text::{chars_of, dec, join, push_dec, push_str};

verus! {

// ---------------------------------------------------------------------------
// Events
// ---------------------------------------------------------------------------

/// The attention markers the watch distinguishes.
#[derive(Debug, Clone, Copy, PartialEq, Eq, Structural)]
pub enum AttentionMarkerKind {
    FanOutLinkageIssue,
    FanOutAutoApplyError,
    TokenBudgetWarning,
    TokenBudgetExceeded,
    Other,
}

/// The kinds of thread events the watch reacts to, with the fields it reads.
#[derive(Debug, Clone, Copy, PartialEq, Eq, Structural)]
pub enum ThreadEventKind {
    ApprovalRequested,
    ApprovalDecided,
    TurnStarted,
    TurnCompleted(TurnStatus),
    ToolCompleted,
    AttentionMarkerSet(AttentionMarkerKind),
    AttentionMarkerCleared(AttentionMarkerKind),
    ProcessStarted,
    ProcessExited(Option<i32>),
    Other,
}

pub open spec fn auto_apply_event(e: ThreadEventKind) -> bool {
    match e {
        ThreadEventKind::TurnStarted | ThreadEventKind::TurnCompleted(_)
        | ThreadEventKind::ToolCompleted => true,
        ThreadEventKind::AttentionMarkerSet(m) | ThreadEventKind::AttentionMarkerCleared(m) => m
            == AttentionMarkerKind::FanOutLinkageIssue || m
            == AttentionMarkerKind::FanOutAutoApplyError,
        _ => false,
    }
}

pub open spec fn fan_in_event(e: ThreadEventKind) -> bool {
    match e {
        ThreadEventKind::TurnStarted | ThreadEventKind::TurnCompleted(_)
        | ThreadEventKind::ToolCompleted => true,
        _ => false,
    }
}

pub open spec fn subagent_pending_event(e: ThreadEventKind) -> bool {
    match e {
        ThreadEventKind::ApprovalRequested | ThreadEventKind::ApprovalDecided
        | ThreadEventKind::TurnStarted | ThreadEventKind::TurnCompleted(_) => true,
        _ => false,
    }
}

/// Turns, tool completions and the fan-out markers may change the auto-apply summary.
pub fn watch_auto_apply_summary_maybe_changed_by_event(event: &ThreadEventKind) -> (r: bool)
    ensures
        r == auto_apply_event(*event),
{
    match event {
        ThreadEventKind::TurnStarted | ThreadEventKind::TurnCompleted(_)
        | ThreadEventKind::ToolCompleted => true,
        ThreadEventKind::AttentionMarkerSet(m) | ThreadEventKind::AttentionMarkerCleared(m) => {
            match m {
                AttentionMarkerKind::FanOutLinkageIssue | AttentionMarkerKind::FanOutAutoApplyError => true,
                _ => false,
            }
        },
        _ => false,
    }
}

/// Turns and tool completions may change the fan-in dependency blocker.
pub fn watch_fan_in_dependency_blocker_maybe_changed_by_event(event: &ThreadEventKind) -> (r: bool)
    ensures
        r == fan_in_event(*event),
{
    match event {
        ThreadEventKind::TurnStarted | ThreadEventKind::TurnCompleted(_)
        | ThreadEventKind::ToolCompleted => true,
        _ => false,
    }
}

/// The fan-in result diagnostics change on the same events as the blocker.
pub fn watch_fan_in_result_diagnostics_maybe_changed_by_event(event: &ThreadEventKind) -> (r: bool)
    ensures
        r == fan_in_event(*event),
{
    watch_fan_in_dependency_blocker_maybe_changed_by_event(event)
}

/// Approvals and turns may change the pending subagent approvals.
pub fn watch_subagent_pending_summary_maybe_changed_by_event(event: &ThreadEventKind) -> (r: bool)
    ensures
        r == subagent_pending_event(*event),
{
    match event {
        ThreadEventKind::ApprovalRequested | ThreadEventKind::ApprovalDecided
        | ThreadEventKind::TurnStarted | ThreadEventKind::TurnCompleted(_) => true,
        _ => false,
    }
}

/// The same test as the watch's, for the interface's own pending summary.
pub fn subagent_pending_summary_maybe_changed_by_event(event: &ThreadEventKind) -> (r: bool)
    ensures
        r == subagent_pending_event(*event),
{
    watch_subagent_pending_summary_maybe_changed_by_event(event)
}

pub fn should_refresh_watch_auto_apply_summary(events: &[ThreadEventKind]) -> (r: bool)
    ensures
        r == exists|i: int| 0 <= i < events.len() && auto_apply_event(#[trigger] events@[i]),
{
    let mut i: usize = 0;
    while i < events.len()
        invariant
            i <= events.len(),
            forall|j: int| 0 <= j < i ==> !auto_apply_event(#[trigger] events@[j]),
        decreases events.len() - i,
    {
        if watch_auto_apply_summary_maybe_changed_by_event(&events[i]) {
            return true;
        }
        i += 1;
    }
    false
}

pub fn should_refresh_watch_fan_in_dependency_blocker_summary(events: &[ThreadEventKind]) -> (r: bool)
    ensures
        r == exists|i: int| 0 <= i < events.len() && fan_in_event(#[trigger] events@[i]),
{
    let mut i: usize = 0;
    while i < events.len()
        invariant
            i <= events.len(),
            forall|j: int| 0 <= j < i ==> !fan_in_event(#[trigger] events@[j]),
        decreases events.len() - i,
    {
        if watch_fan_in_dependency_blocker_maybe_changed_by_event(&events[i]) {
            return true;
        }
        i += 1;
    }
    false
}

pub fn should_refresh_watch_fan_in_result_diagnostics_summary(events: &[ThreadEventKind]) -> (r: bool)
    ensures
        r == exists|i: int| 0 <= i < events.len() && fan_in_event(#[trigger] events@[i]),
{
    let mut i: usize = 0;
    while i < events.len()
        invariant
            i <= events.len(),
            forall|j: int| 0 <= j < i ==> !fan_in_event(#[trigger] events@[j]),
        decreases events.len() - i,
    {
        if watch_fan_in_result_diagnostics_maybe_changed_by_event(&events[i]) {
            return true;
        }
        i += 1;
    }
    false
}

pub fn should_refresh_watch_subagent_pending_summary(events: &[ThreadEventKind]) -> (r: bool)
    ensures
        r == exists|i: int| 0 <= i < events.len() && subagent_pending_event(#[trigger] events@[i]),
{
    let mut i: usize = 0;
    while i < events.len()
        invariant
            i <= events.len(),
            forall|j: int| 0 <= j < i ==> !subagent_pending_event(#[trigger] events@[j]),
        decreases events.len() - i,
    {
        if watch_subagent_pending_summary_maybe_changed_by_event(&events[i]) {
            return true;
        }
        i += 1;
    }
    false
}

/// Any of the summaries may have changed.
pub fn should_refresh_watch_detail_summary(events: &[ThreadEventKind]) -> (r: bool)
    ensures
        r == exists|i: int|
            0 <= i < events.len() && (auto_apply_event(#[trigger] events@[i]) || fan_in_event(
                events@[i],
            ) || subagent_pending_event(events@[i])),
{
    let a = should_refresh_watch_auto_apply_summary(events);
    let b = should_refresh_watch_fan_in_dependency_blocker_summary(events);
    let c = should_refresh_watch_fan_in_result_diagnostics_summary(events);
    let d = should_refresh_watch_subagent_pending_summary(events);
    a || b || c || d
}

/// The attention state an event moves a thread to, if any.
pub open spec fn attention_state_spec(e: ThreadEventKind) -> Option<Seq<char>> {
    match e {
        ThreadEventKind::ApprovalRequested => Some("need_approval"@),
        ThreadEventKind::TurnStarted => Some("running"@),
        ThreadEventKind::AttentionMarkerSet(m) => match m {
            AttentionMarkerKind::FanOutLinkageIssue | AttentionMarkerKind::FanOutAutoApplyError => Some(
                "failed"@,
            ),
            AttentionMarkerKind::TokenBudgetWarning => Some("token_budget_warning"@),
            AttentionMarkerKind::TokenBudgetExceeded => Some("token_budget_exceeded"@),
            AttentionMarkerKind::Other => None,
        },
        ThreadEventKind::TurnCompleted(status) => match status {
            TurnStatus::Completed => Some("done"@),
            TurnStatus::Interrupted => Some("interrupted"@),
            TurnStatus::Failed => Some("failed"@),
            TurnStatus::Cancelled => Some("cancelled"@),
            TurnStatus::Stuck => Some("stuck"@),
        },
        ThreadEventKind::ProcessStarted => Some("running"@),
        ThreadEventKind::ProcessExited(code) => match code {
            Some(c) => if c != 0 {
                Some("failed"@)
            } else {
                None
            },
            None => None,
        },
        _ => None,
    }
}

pub fn attention_state_update(event: &ThreadEventKind) -> (r: Option<&'static str>)
    ensures
        crate::tool_format::opt_str(r) == attention_state_spec(*event),
{
    match event {
        ThreadEventKind::ApprovalRequested => Some("need_approval"),
        ThreadEventKind::TurnStarted => Some("running"),
        ThreadEventKind::AttentionMarkerSet(m) => match m {
            AttentionMarkerKind::FanOutLinkageIssue | AttentionMarkerKind::FanOutAutoApplyError => Some(
                "failed",
            ),
            AttentionMarkerKind::TokenBudgetWarning => Some("token_budget_warning"),
            AttentionMarkerKind::TokenBudgetExceeded => Some("token_budget_exceeded"),
            AttentionMarkerKind::Other => None,
        },
        ThreadEventKind::TurnCompleted(status) => match status {
            TurnStatus::Completed => Some("done"),
            TurnStatus::Interrupted => Some("interrupted"),
            TurnStatus::Failed => Some("failed"),
            TurnStatus::Cancelled => Some("cancelled"),
            TurnStatus::Stuck => Some("stuck"),
        },
        ThreadEventKind::ProcessStarted => Some("running"),
        ThreadEventKind::ProcessExited(code) => match code {
            Some(c) => if *c != 0 {
                Some("failed")
            } else {
                None
            },
            None => None,
        },
        _ => None,
    }
}

// ---------------------------------------------------------------------------
// Bells
// ---------------------------------------------------------------------------

/// A condition rose: it is present now and was absent before.
pub open spec fn rising_edge(last_present: Option<bool>, present: bool) -> bool {
    present && last_present == Some(false)
}

pub fn should_notify_presence_rising_edge(last_present: Option<bool>, present: bool) -> (r: bool)
    ensures
        r == rising_edge(last_present, present),
{
    present && last_present == Some(false)
}

/// A bell rang less than `debounce_ms` before `now_ms`.
pub open spec fn debounced(last_bell_at: Option<u64>, now_ms: u64, debounce_ms: u64) -> bool {
    match last_bell_at {
        Some(t) => (if now_ms > t { now_ms - t } else { 0 }) < debounce_ms,
        None => false,
    }
}

/// Whether a condition's rising edge rings the bell at `now_ms` (milliseconds
/// on a monotonic clock): never on the first observation, only on a rising
/// edge, and not again within `debounce_ms` of the last bell.  Records the
/// condition and, when it rings, the time.
pub fn should_emit_presence_bell(
    present: bool,
    debounce_ms: u64,
    last_present: &mut Option<bool>,
    last_bell_at: &mut Option<u64>,
    now_ms: u64,
) -> (r: bool)
    ensures
        *final(last_present) == Some(present),
        r == ((*old(last_present)) is Some && rising_edge(*old(last_present), present) && !debounced(
            *old(last_bell_at),
            now_ms,
            debounce_ms,
        )),
        *final(last_bell_at) == (if r { Some(now_ms) } else { *old(last_bell_at) }),
{
    if last_present.is_none() {
        *last_present = Some(present);
        return false;
    }
    let mut should_emit = false;
    if should_notify_presence_rising_edge(*last_present, present) {
        let is_debounced = match *last_bell_at {
            Some(t) => now_ms.saturating_sub(t) < debounce_ms,
            None => false,
        };
        if !is_debounced {
            *last_bell_at = Some(now_ms);
            should_emit = true;
        }
    }
    *last_present = Some(present);
    should_emit
}

/// The attention states that ring the bell.
pub open spec fn bell_state(state: Seq<char>) -> bool {
    state == "need_approval"@ || state == "failed"@ || state == "stuck"@
}

/// Whether entering `state` at `now_ms` rings the bell: only for the states
/// that ask for attention, and not again within `debounce_ms` of the last
/// bell for the same state.  Records the state and, when it rings, the time.
pub fn should_ring_attention_bell(
    state: &'static str,
    debounce_ms: u64,
    last_state: &mut Option<&'static str>,
    last_bell_at: &mut Option<u64>,
    now_ms: u64,
) -> (r: bool)
    ensures
        crate::tool_format::opt_str(*final(last_state)) == Some(state@),
        r == (bell_state(state@) && !(crate::tool_format::opt_str(*old(last_state)) == Some(state@)
            && debounced(*old(last_bell_at), now_ms, debounce_ms))),
        *final(last_bell_at) == (if r { Some(now_ms) } else { *old(last_bell_at) }),
{
    let notify = str_eq(state, "need_approval") || str_eq(state, "failed") || str_eq(state, "stuck");
    if !notify {
        *last_state = Some(state);
        return false;
    }
    let same = match *last_state {
        Some(s) => str_eq(s, state),
        None => false,
    };
    let recent = match *last_bell_at {
        Some(t) => now_ms.saturating_sub(t) < debounce_ms,
        None => false,
    };
    let ring = !(same && recent);
    if ring {
        *last_bell_at = Some(now_ms);
    }
    *last_state = Some(state);
    ring
}

// ---------------------------------------------------------------------------
// Pending subagent approvals
// ---------------------------------------------------------------------------

/// The view of a summary's states: `(state, count)` in order.
pub open spec fn states_view(states: Seq<(String, usize)>) -> Seq<(Seq<char>, usize)> {
    states.map_values(|e: (String, usize)| (e.0@, e.1))
}

fn states_equal(a: &Vec<(String, usize)>, b: &Vec<(String, usize)>) -> (r: bool)
    ensures
        r == (states_view(a@) == states_view(b@)),
{
    if a.len() != b.len() {
        proof {
            assert(states_view(a@).len() != states_view(b@).len());
        }
        return false;
    }
    let mut i: usize = 0;
    while i < a.len()
        invariant
            i <= a.len(),
            a.len() == b.len(),
            forall|j: int| 0 <= j < i ==> states_view(a@)[j] == states_view(b@)[j],
        decreases a.len() - i,
    {
        if !str_eq(a[i].0.as_str(), b[i].0.as_str()) || a[i].1 != b[i].1 {
            proof {
                assert(states_view(a@)[i as int] != states_view(b@)[i as int]);
            }
            return false;
        }
        i += 1;
    }
    assert(states_view(a@) =~= states_view(b@));
    true
}

/// `subagent_pending_changed_fields`: `total` and/or `states`, for each that
/// differs from the last summary (both when there was none).
pub open spec fn pending_changed_spec(last: Option<SubagentPendingSummary>, current: SubagentPendingSummary) -> Seq<
    Seq<char>,
> {
    let t: Seq<Seq<char>> = match last {
        Some(l) => if l.total == current.total {
            seq![]
        } else {
            seq!["total"@]
        },
        None => seq!["total"@],
    };
    let s: Seq<Seq<char>> = match last {
        Some(l) => if states_view(l.states@) == states_view(current.states@) {
            seq![]
        } else {
            seq!["states"@]
        },
        None => seq!["states"@],
    };
    t + s
}

pub fn subagent_pending_changed_fields(
    last: Option<&SubagentPendingSummary>,
    current: &SubagentPendingSummary,
) -> (r: Vec<&'static str>)
    requires
        crate::pending_summary::summary_wf(*current),
        last matches Some(l) ==> crate::pending_summary::summary_wf(*l),
    ensures
        r@.map_values(|s: &'static str| s@) == pending_changed_spec(
            match last {
                Some(l) => Some(*l),
                None => None,
            },
            *current,
        ),
{
    let mut changed: Vec<&'static str> = Vec::new();
    let total_same = match last {
        Some(l) => l.total == current.total,
        None => false,
    };
    if !total_same {
        changed.push("total");
    }
    let states_same = match last {
        Some(l) => states_equal(&l.states, &current.states),
        None => false,
    };
    if !states_same {
        changed.push("states");
    }
    assert(changed@.map_values(|s: &'static str| s@) =~= pending_changed_spec(
        match last {
            Some(l) => Some(*l),
            None => None,
        },
        *current,
    ));
    changed
}

/// `state:count`.
pub open spec fn state_count(e: (String, usize)) -> Seq<char> {
    e.0@ + ":"@ + dec(e.1 as nat)
}

/// `format_subagent_pending_summary`: `subagent_pending: total=N states=a:1, b:2`.
pub open spec fn pending_summary_text(summary: SubagentPendingSummary) -> Seq<char> {
    "subagent_pending: total="@ + dec(summary.total as nat) + " states="@ + join(
        summary.states@.map_values(|e: (String, usize)| state_count(e)),
        ", "@,
    )
}

pub fn format_subagent_pending_summary(summary: &SubagentPendingSummary) -> (r: String)
    requires
        crate::pending_summary::summary_wf(*summary),
    ensures
        r@ == pending_summary_text(*summary),
{
    let ghost parts = summary.states@.map_values(|e: (String, usize)| state_count(e));
    let mut states = String::new();
    let mut i: usize = 0;
    while i < summary.states.len()
        invariant
            i <= summary.states.len(),
            parts == summary.states@.map_values(|e: (String, usize)| state_count(e)),
            states@ == join(parts.take(i as int), ", "@),
        decreases summary.states.len() - i,
    {
        if i > 0 {
            push_str(&mut states, ", ");
        }
        push_str(&mut states, summary.states[i].0.as_str());
        push_str(&mut states, ":");
        push_dec(&mut states, summary.states[i].1 as u64);
        proof {
            assert(parts.take(i + 1).drop_last() =~= parts.take(i as int));
            assert(parts[i as int] == state_count(summary.states@[i as int]));
            if i == 0 {
                assert(states@ =~= join(parts.take(1), ", "@));
            } else {
                assert(states@ =~= join(parts.take(i as int), ", "@) + ", "@ + parts[i as int]);
            }
        }
        i += 1;
    }
    assert(parts.take(summary.states.len() as int) =~= parts);
    let mut out = String::new();
    push_str(&mut out, "subagent_pending: total=");
    push_dec(&mut out, summary.total as u64);
    push_str(&mut out, " states=");
    push_str(&mut out, states.as_str());
    assert(out@ =~= pending_summary_text(*summary));
    out
}

// ---------------------------------------------------------------------------
// Shortened hints
// ---------------------------------------------------------------------------

/// `shorten_path`: a path longer than `max_len` bytes becomes `...` and its
/// last `max_len - 3` characters.
pub open spec fn shorten_path_spec(path: Seq<char>, max_len: nat) -> Seq<char> {
    if crate::text::byte_len(path) <= max_len {
        path
    } else {
        let keep: nat = if max_len > 3 { (max_len - 3) as nat } else { 0 };
        let k: nat = if keep < path.len() { keep } else { path.len() };
        "..."@ + path.skip(path.len() - k)
    }
}

pub fn shorten_path(path: &str, max_len: usize) -> (r: String)
    requires
        crate::text::byte_len(path@) <= usize::MAX,
    ensures
        r@ == shorten_path_spec(path@, max_len as nat),
{
    let cs = chars_of(path);
    assert(cs@.take(cs.len() as int) =~= cs@);
    let blen = crate::text::byte_offset(cs.as_slice(), cs.len());
    if blen <= max_len {
        return crate::text::owned(path);
    }
    let keep = max_len.saturating_sub(3);
    let k = if keep < cs.len() { keep } else { cs.len() };
    let tail = crate::text::slice_chars(cs.as_slice(), cs.len() - k, cs.len());
    let mut out = String::new();
    push_str(&mut out, "...");
    crate::text::push_chars(&mut out, tail.as_slice());
    assert(out@ =~= shorten_path_spec(path@, max_len as nat));
    out
}

/// The hint keys whose value is a path or a command worth shortening.
pub open spec fn shortened_key(key: Seq<char>) -> bool {
    key == "path"@ || key == "requirement"@ || key == "argv"@ || key == "cwd"@ || key
        == "approve_cmd"@ || key == "deny_cmd"@
}

/// `shorten_watch_approval_hint`: `key=value` with a shortened value for the
/// path-like keys; any other hint unchanged.
pub open spec fn shorten_hint_spec(hint: Seq<char>, max_len: nat) -> Seq<char> {
    match crate::tool_format::first_index_of(hint, '=') {
        Some(i) => {
            let key = hint.take(i as int);
            let value = hint.skip(i + 1 as int);
            if shortened_key(key) {
                key + "="@ + shorten_path_spec(value, max_len)
            } else {
                hint
            }
        },
        None => hint,
    }
}

proof fn lemma_first_index_extend(s: Seq<char>, t: Seq<char>, c: char)
    requires
        first_index_of_is_some(s, c),
    ensures
        crate::tool_format::first_index_of(s + t, c) == crate::tool_format::first_index_of(s, c),
    decreases t.len(),
{
    if t.len() == 0 {
        assert(s + t =~= s);
    } else {
        lemma_first_index_extend(s, t.drop_last(), c);
        assert((s + t).drop_last() =~= s + t.drop_last());
    }
}

pub open spec fn first_index_of_is_some(s: Seq<char>, c: char) -> bool {
    crate::tool_format::first_index_of(s, c) is Some
}

proof fn lemma_first_index_absent(s: Seq<char>, c: char)
    requires
        forall|i: int| 0 <= i < s.len() ==> s[i] != c,
    ensures
        crate::tool_format::first_index_of(s, c) is None,
    decreases s.len(),
{
    if s.len() > 0 {
        lemma_first_index_absent(s.drop_last(), c);
    }
}

/// A hint whose key is one of `path`, `requirement`, `argv`, `cwd`,
/// `approve_cmd` and `deny_cmd` keeps its key; a value longer than
/// `max_len` bytes becomes `...` and the value's last `max_len - 3`
/// characters (so at most `max(max_len, 3)` characters), a shorter one stays.
pub proof fn lemma_shortened_hint_keys(key: Seq<char>, value: Seq<char>, max_len: nat)
    requires
        key == "path"@ || key == "requirement"@ || key == "argv"@ || key == "cwd"@ || key == "approve_cmd"@
            || key == "deny_cmd"@,
    ensures
        ({
            let r = shorten_hint_spec(key + "="@ + value, max_len);
            let keep: nat = if max_len > 3 { (max_len - 3) as nat } else { 0 };
            let k: nat = if keep < value.len() { keep } else { value.len() };
            &&& crate::text::byte_len(value) <= max_len ==> r == key + "="@ + value
            &&& crate::text::byte_len(value) > max_len ==> r == key + "="@ + "..."@ + value.skip(value.len() - k)
            &&& crate::text::byte_len(value) > max_len ==> r.len() - key.len() - 1 <= (if max_len > 3 { max_len } else { 3 })
        }),
{
    reveal_strlit("=");
    reveal_strlit("...");
    reveal_strlit("path");
    reveal_strlit("requirement");
    reveal_strlit("argv");
    reveal_strlit("cwd");
    reveal_strlit("approve_cmd");
    reveal_strlit("deny_cmd");
    let hint = key + "="@ + value;
    assert forall|i: int| 0 <= i < key.len() implies key[i] != '=' by {}
    lemma_first_index_absent(key, '=');
    assert(crate::tool_format::first_index_of(key + "="@, '=') == Some(key.len())) by {
        assert((key + "="@).drop_last() =~= key);
    }
    lemma_first_index_extend(key + "="@, value, '=');
    assert(hint =~= (key + "="@) + value);
    assert(hint.take(key.len() as int) =~= key);
    assert(hint.skip((key.len() + 1) as int) =~= value);
    assert(shortened_key(key));
}

/// A hint whose key is none of the path-like keys comes out unchanged.
pub proof fn lemma_other_hint_keys_unchanged(key: Seq<char>, value: Seq<char>, max_len: nat)
    requires
        forall|i: int| 0 <= i < key.len() ==> key[i] != '=',
        key != "path"@ && key != "requirement"@ && key != "argv"@ && key != "cwd"@ && key != "approve_cmd"@
            && key != "deny_cmd"@,
    ensures
        shorten_hint_spec(key + "="@ + value, max_len) == key + "="@ + value,
{
    reveal_strlit("=");
    let hint = key + "="@ + value;
    lemma_first_index_absent(key, '=');
    assert(crate::tool_format::first_index_of(key + "="@, '=') == Some(key.len())) by {
        assert((key + "="@).drop_last() =~= key);
    }
    lemma_first_index_extend(key + "="@, value, '=');
    assert(hint =~= (key + "="@) + value);
    assert(hint.take(key.len() as int) =~= key);
}

pub fn shorten_watch_approval_hint(hint: String, max_len: usize) -> (r: String)
    requires
        crate::text::byte_len(hint@) <= usize::MAX,
    ensures
        r@ == shorten_hint_spec(hint@, max_len as nat),
{
    let cs = chars_of(hint.as_str());
    let eq = crate::tool_format::first_index_pub(cs.as_slice(), '=');
    match eq {
        Some(i) => {
            let key = crate::text::string_of(crate::text::slice_chars(cs.as_slice(), 0, i).as_slice());
            let value = crate::text::string_of(
                crate::text::slice_chars(cs.as_slice(), i + 1, cs.len()).as_slice(),
            );
            let k = key.as_str();
            if str_eq(k, "path") || str_eq(k, "requirement") || str_eq(k, "argv") || str_eq(k, "cwd")
                || str_eq(k, "approve_cmd") || str_eq(k, "deny_cmd") {
                proof {
                    crate::text::lemma_byte_len_suffix(hint@, i + 1);
                }
                let short = shorten_path(value.as_str(), max_len);
                let mut out = key;
                push_str(&mut out, "=");
                push_str(&mut out, short.as_str());
                assert(out@ =~= shorten_hint_spec(hint@, max_len as nat));
                out
            } else {
                hint
            }
        },
        None => hint,
    }
}

// ---------------------------------------------------------------------------
// Debug lines
// ---------------------------------------------------------------------------

/// Where a summary came from in one refresh.
#[derive(Debug, Clone, Copy, PartialEq, Eq, Structural)]
pub enum SummarySource {
    Previous,
    Attention,
    Artifact,
    Absent,
}

pub open spec fn source_label_spec(source: SummarySource) -> Seq<char> {
    match source {
        SummarySource::Previous => "previous"@,
        SummarySource::Attention => "attention"@,
        SummarySource::Artifact => "artifact"@,
        SummarySource::Absent => "none"@,
    }
}

pub fn summary_source_label(source: SummarySource) -> (r: &'static str)
    ensures
        r@ == source_label_spec(source),
{
    match source {
        SummarySource::Previous => "previous",
        SummarySource::Attention => "attention",
        SummarySource::Artifact => "artifact",
        SummarySource::Absent => "none",
    }
}

/// `format_watch_summary_refresh_debug`: which summaries were refreshed and
/// where each came from.
pub open spec fn refresh_debug_text(
    iteration: u64,
    event_count: usize,
    refresh: (bool, bool, bool, bool),
    sources: (SummarySource, SummarySource, SummarySource, SummarySource),
) -> Seq<char> {
    "watch_summary_refresh iter="@ + dec(iteration as nat) + " events="@ + dec(event_count as nat)
        + " auto_apply(refresh="@ + crate::tool_format::bool_text(refresh.0) + ",source="@
        + source_label_spec(sources.0) + ") fan_in(refresh="@ + crate::tool_format::bool_text(
        refresh.1,
    ) + ",source="@ + source_label_spec(sources.1) + ") fan_in_diag(refresh="@
        + crate::tool_format::bool_text(refresh.2) + ",source="@ + source_label_spec(sources.2)
        + ") subagent(refresh="@ + crate::tool_format::bool_text(refresh.3) + ",source="@
        + source_label_spec(sources.3) + ")"@
}

fn push_bool(out: &mut String, b: bool)
    ensures
        final(out)@ == old(out)@ + crate::tool_format::bool_text(b),
{
    if b {
        push_str(out, "true");
    } else {
        push_str(out, "false");
    }
}

pub fn format_watch_summary_refresh_debug(
    iteration: u64,
    event_count: usize,
    refresh_auto_apply: bool,
    refresh_fan_in_blocker: bool,
    refresh_fan_in_diagnostics: bool,
    refresh_subagent_pending: bool,
    auto_apply_source: SummarySource,
    fan_in_source: SummarySource,
    fan_in_diagnostics_source: SummarySource,
    subagent_source: SummarySource,
) -> (r: String)
    ensures
        r@ == refresh_debug_text(
            iteration,
            event_count,
            (
                refresh_auto_apply,
                refresh_fan_in_blocker,
                refresh_fan_in_diagnostics,
                refresh_subagent_pending,
            ),
            (auto_apply_source, fan_in_source, fan_in_diagnostics_source, subagent_source),
        ),
{
    let mut out = String::new();
    push_str(&mut out, "watch_summary_refresh iter=");
    push_dec(&mut out, iteration);
    push_str(&mut out, " events=");
    push_dec(&mut out, event_count as u64);
    push_str(&mut out, " auto_apply(refresh=");
    push_bool(&mut out, refresh_auto_apply);
    push_str(&mut out, ",source=");
    push_str(&mut out, summary_source_label(auto_apply_source));
    push_str(&mut out, ") fan_in(refresh=");
    push_bool(&mut out, refresh_fan_in_blocker);
    push_str(&mut out, ",source=");
    push_str(&mut out, summary_source_label(fan_in_source));
    push_str(&mut out, ") fan_in_diag(refresh=");
    push_bool(&mut out, refresh_fan_in_diagnostics);
    push_str(&mut out, ",source=");
    push_str(&mut out, summary_source_label(fan_in_diagnostics_source));
    push_str(&mut out, ") subagent(refresh=");
    push_bool(&mut out, refresh_subagent_pending);
    push_str(&mut out, ",source=");
    push_str(&mut out, summary_source_label(subagent_source));
    push_str(&mut out, ")");
    assert(out@ =~= refresh_debug_text(
        iteration,
        event_count,
        (
            refresh_auto_apply,
            refresh_fan_in_blocker,
            refresh_fan_in_diagnostics,
            refresh_subagent_pending,
        ),
        (auto_apply_source, fan_in_source, fan_in_diagnostics_source, subagent_source),
    ));
    out
}

/// Counters of how the inbox found its summaries in one pass.
#[derive(Debug, Clone, Copy, Default)]
pub struct InboxSummaryCacheStats {
    pub fan_out_meta: usize,
    pub fan_out_cache_some: usize,
    pub fan_out_cache_none: usize,
    pub fan_out_attention: usize,
    pub fan_out_fetch_some: usize,
    pub fan_out_fetch_none: usize,
    pub fan_in_meta: usize,
    pub fan_in_cache_some: usize,
    pub fan_in_cache_none: usize,
    pub fan_in_attention: usize,
    pub fan_in_fetch_some: usize,
    pub fan_in_fetch_none: usize,
    pub fan_in_skip_unblocked: usize,
    pub fan_in_diag_meta: usize,
    pub fan_in_diag_cache_some: usize,
    pub fan_in_diag_cache_none: usize,
    pub fan_in_diag_attention: usize,
    pub fan_in_diag_fetch_some: usize,
    pub fan_in_diag_fetch_none: usize,
    pub fan_in_diag_skip_absent: usize,
    pub subagent_meta: usize,
    pub subagent_cache_some: usize,
    pub subagent_cache_none: usize,
    pub subagent_attention_some: usize,
    pub subagent_attention_none: usize,
    pub subagent_fetch_some: usize,
    pub subagent_fetch_none: usize,
    pub subagent_skip_no_pending: usize,
}

/// `format_inbox_summary_cache_stats`: one debug line with every counter.
pub open spec fn cache_stats_text(
    iteration: u64,
    prev_count: usize,
    cur_count: usize,
    stats: InboxSummaryCacheStats,
) -> Seq<char> {
    "inbox_summary_cache iter="@ + dec(iteration as nat) + " prev="@ + dec(prev_count as nat) + " cur="@ + dec(cur_count as nat) + " fan_out(meta="@ + dec(stats.fan_out_meta as nat) + ",cache_some="@ + dec(stats.fan_out_cache_some as nat) + ",cache_none="@ + dec(stats.fan_out_cache_none as nat) + ",attention="@ + dec(stats.fan_out_attention as nat) + ",fetch_some="@ + dec(stats.fan_out_fetch_some as nat) + ",fetch_none="@ + dec(stats.fan_out_fetch_none as nat) + ") fan_in(meta="@ + dec(stats.fan_in_meta as nat) + ",cache_some="@ + dec(stats.fan_in_cache_some as nat) + ",cache_none="@ + dec(stats.fan_in_cache_none as nat) + ",attention="@ + dec(stats.fan_in_attention as nat) + ",fetch_some="@ + dec(stats.fan_in_fetch_some as nat) + ",fetch_none="@ + dec(stats.fan_in_fetch_none as nat) + ",skip_unblocked="@ + dec(stats.fan_in_skip_unblocked as nat) + ") fan_in_diag(meta="@ + dec(stats.fan_in_diag_meta as nat) + ",cache_some="@ + dec(stats.fan_in_diag_cache_some as nat) + ",cache_none="@ + dec(stats.fan_in_diag_cache_none as nat) + ",attention="@ + dec(stats.fan_in_diag_attention as nat) + ",fetch_some="@ + dec(stats.fan_in_diag_fetch_some as nat) + ",fetch_none="@ + dec(stats.fan_in_diag_fetch_none as nat) + ",skip_absent="@ + dec(stats.fan_in_diag_skip_absent as nat) + ") subagent(meta="@ + dec(stats.subagent_meta as nat) + ",cache_some="@ + dec(stats.subagent_cache_some as nat) + ",cache_none="@ + dec(stats.subagent_cache_none as nat) + ",attention_some="@ + dec(stats.subagent_attention_some as nat) + ",attention_none="@ + dec(stats.subagent_attention_none as nat) + ",fetch_some="@ + dec(stats.subagent_fetch_some as nat) + ",fetch_none="@ + dec(stats.subagent_fetch_none as nat) + ",skip_no_pending="@ + dec(stats.subagent_skip_no_pending as nat) + ")"@
}

pub fn format_inbox_summary_cache_stats(
    iteration: u64,
    prev_count: usize,
    cur_count: usize,
    stats: &InboxSummaryCacheStats,
) -> (r: String)
    ensures
        r@ == cache_stats_text(iteration, prev_count, cur_count, *stats),
{
    let mut out = String::new();
    push_str(&mut out, "inbox_summary_cache iter=");
    push_dec(&mut out, iteration);
    push_str(&mut out, " prev=");
    push_dec(&mut out, prev_count as u64);
    push_str(&mut out, " cur=");
    push_dec(&mut out, cur_count as u64);
    push_str(&mut out, " fan_out(meta=");
    push_dec(&mut out, stats.fan_out_meta as u64);
    push_str(&mut out, ",cache_some=");
    push_dec(&mut out, stats.fan_out_cache_some as u64);
    push_str(&mut out, ",cache_none=");
    push_dec(&mut out, stats.fan_out_cache_none as u64);
    push_str(&mut out, ",attention=");
    push_dec(&mut out, stats.fan_out_attention as u64);
    push_str(&mut out, ",fetch_some=");
    push_dec(&mut out, stats.fan_out_fetch_some as u64);
    push_str(&mut out, ",fetch_none=");
    push_dec(&mut out, stats.fan_out_fetch_none as u64);
    push_str(&mut out, ") fan_in(meta=");
    push_dec(&mut out, stats.fan_in_meta as u64);
    push_str(&mut out, ",cache_some=");
    push_dec(&mut out, stats.fan_in_cache_some as u64);
    push_str(&mut out, ",cache_none=");
    push_dec(&mut out, stats.fan_in_cache_none as u64);
    push_str(&mut out, ",attention=");
    push_dec(&mut out, stats.fan_in_attention as u64);
    push_str(&mut out, ",fetch_some=");
    push_dec(&mut out, stats.fan_in_fetch_some as u64);
    push_str(&mut out, ",fetch_none=");
    push_dec(&mut out, stats.fan_in_fetch_none as u64);
    push_str(&mut out, ",skip_unblocked=");
    push_dec(&mut out, stats.fan_in_skip_unblocked as u64);
    push_str(&mut out, ") fan_in_diag(meta=");
    push_dec(&mut out, stats.fan_in_diag_meta as u64);
    push_str(&mut out, ",cache_some=");
    push_dec(&mut out, stats.fan_in_diag_cache_some as u64);
    push_str(&mut out, ",cache_none=");
    push_dec(&mut out, stats.fan_in_diag_cache_none as u64);
    push_str(&mut out, ",attention=");
    push_dec(&mut out, stats.fan_in_diag_attention as u64);
    push_str(&mut out, ",fetch_some=");
    push_dec(&mut out, stats.fan_in_diag_fetch_some as u64);
    push_str(&mut out, ",fetch_none=");
    push_dec(&mut out, stats.fan_in_diag_fetch_none as u64);
    push_str(&mut out, ",skip_absent=");
    push_dec(&mut out, stats.fan_in_diag_skip_absent as u64);
    push_str(&mut out, ") subagent(meta=");
    push_dec(&mut out, stats.subagent_meta as u64);
    push_str(&mut out, ",cache_some=");
    push_dec(&mut out, stats.subagent_cache_some as u64);
    push_str(&mut out, ",cache_none=");
    push_dec(&mut out, stats.subagent_cache_none as u64);
    push_str(&mut out, ",attention_some=");
    push_dec(&mut out, stats.subagent_attention_some as u64);
    push_str(&mut out, ",attention_none=");
    push_dec(&mut out, stats.subagent_attention_none as u64);
    push_str(&mut out, ",fetch_some=");
    push_dec(&mut out, stats.subagent_fetch_some as u64);
    push_str(&mut out, ",fetch_none=");
    push_dec(&mut out, stats.subagent_fetch_none as u64);
    push_str(&mut out, ",skip_no_pending=");
    push_dec(&mut out, stats.subagent_skip_no_pending as u64);
    push_str(&mut out, ")");
    assert(out@ =~= cache_stats_text(iteration, prev_count, cur_count, *stats));
    out
}

} // verus!
