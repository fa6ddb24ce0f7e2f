//! What the open thread's events do to the interface: the transcript they
//! add to, the header values and flags they change, and the reply that
//! streams in before its message arrives.
use vstd::prelude::*;
use crate::json::JsonValue;
use crate::labels::{
    model_routing_rule_source_str, turn_status_str, ModelRoutingRuleSource, ToolStatus, TurnStatus,
};
use crate::render::{TranscriptEntry, TranscriptRole};
use crate::text::{chars_of, owned, push_str, starts_with_chars, starts_with_seq, trim, trim_chars};
use crate::ids::{push_uuid, uuid_text};
use crate::tool_format::{
    format_process_started_line, format_tool_result_line, format_tool_started_line, opt_str, opt_string, opt_val,
    process_started_spec, result_line_spec, should_suppress_tool_completed, should_suppress_tool_started,
    started_line_spec, suppress_completed_spec, suppress_started_spec, texts,
};
use crate::ui_state::{usage_recorded, StreamingState, UiCore, MAX_TRANSCRIPT_ITEMS};
use crate::watch::{subagent_pending_event, subagent_pending_summary_maybe_changed_by_event, ThreadEventKind};

verus! {

/// An event of the open thread, as the interface reads it.
#[derive(Debug)]
pub enum UiEventKind {
    TurnStarted { turn_id: u128, input: String },
    AssistantMessage {
        turn_id: Option<u128>,
        text: String,
        response_id: Option<String>,
        token_usage: Option<JsonValue>,
    },
    AgentStep { response_id: String, token_usage: Option<JsonValue> },
    ModelRouted { selected_model: String, rule_source: ModelRoutingRuleSource, reason: Option<String> },
    TurnCompleted { turn_id: u128, status: TurnStatus },
    ToolStarted { tool_id: u128, tool: String, params: Option<JsonValue> },
    ToolCompleted { tool_id: u128, status: ToolStatus, result: Option<JsonValue> },
    ProcessStarted { argv: Vec<String>, cwd: String },
    ThreadConfigUpdated {
        mode: Option<String>,
        role: Option<String>,
        model: Option<String>,
        thinking: Option<String>,
    },
    ApprovalRequested,
    ApprovalDecided,
    Other,
}

/// What the caller does after an event was applied.
#[derive(Debug)]
pub enum EventFollowUp {
    Nothing,
    /// A turn start that was under way is over: stop waiting for it.
    AbortTurnStart,
    /// A tool failed: describe the failure of the tool of this name and add
    /// it to the transcript as an error.
    DescribeToolFailure { name: String },
}

/// The kind the watch decisions read of an event.
pub open spec fn watch_kind(e: UiEventKind) -> ThreadEventKind {
    match e {
        UiEventKind::TurnStarted { .. } => ThreadEventKind::TurnStarted,
        UiEventKind::TurnCompleted { status, .. } => ThreadEventKind::TurnCompleted(status),
        UiEventKind::ToolCompleted { .. } => ThreadEventKind::ToolCompleted,
        UiEventKind::ProcessStarted { .. } => ThreadEventKind::ProcessStarted,
        UiEventKind::ApprovalRequested => ThreadEventKind::ApprovalRequested,
        UiEventKind::ApprovalDecided => ThreadEventKind::ApprovalDecided,
        _ => ThreadEventKind::Other,
    }
}

fn watch_kind_of(e: &UiEventKind) -> (r: ThreadEventKind)
    ensures
        r == watch_kind(*e),
{
    match e {
        UiEventKind::TurnStarted { .. } => ThreadEventKind::TurnStarted,
        UiEventKind::TurnCompleted { status, .. } => ThreadEventKind::TurnCompleted(*status),
        UiEventKind::ToolCompleted { .. } => ThreadEventKind::ToolCompleted,
        UiEventKind::ProcessStarted { .. } => ThreadEventKind::ProcessStarted,
        UiEventKind::ApprovalRequested => ThreadEventKind::ApprovalRequested,
        UiEventKind::ApprovalDecided => ThreadEventKind::ApprovalDecided,
        _ => ThreadEventKind::Other,
    }
}

/// The transcript as roles and texts.
pub open spec fn tview(t: Seq<TranscriptEntry>) -> Seq<(TranscriptRole, Seq<char>)> {
    t.map_values(|e: TranscriptEntry| (e.role, e.text@))
}

/// One entry appended to a bounded transcript (the oldest dropped when full).
pub open spec fn bounded_push(t: Seq<(TranscriptRole, Seq<char>)>, e: (TranscriptRole, Seq<char>)) -> Seq<(TranscriptRole, Seq<char>)> {
    (if t.len() >= MAX_TRANSCRIPT_ITEMS { t.drop_first() } else { t }).push(e)
}

/// Entries appended one by one.
pub open spec fn bounded_push_all(t: Seq<(TranscriptRole, Seq<char>)>, es: Seq<(TranscriptRole, Seq<char>)>) -> Seq<(TranscriptRole, Seq<char>)>
    decreases es.len(),
{
    if es.len() == 0 {
        t
    } else {
        bounded_push(bounded_push_all(t, es.drop_last()), es.last())
    }
}

/// An entry when its text is not blank.
pub open spec fn if_text(role: TranscriptRole, text: Seq<char>) -> Seq<(TranscriptRole, Seq<char>)> {
    if trim(text).len() > 0 { seq![(role, text)] } else { seq![] }
}

/// The entries an assistant message adds: the streamed reasoning, the
/// streamed reply when the message does not repeat it, and the message.
pub open spec fn message_entries(streamed: Option<(Seq<char>, Seq<char>)>, text: Seq<char>) -> Seq<(TranscriptRole, Seq<char>)> {
    match streamed {
        Some((output, thinking)) => {
            let keep_output = trim(output).len() > 0 && (trim(text).len() == 0 || !starts_with_seq(trim(text), trim(output)));
            if_text(TranscriptRole::Thinking, thinking) + (if keep_output {
                seq![(TranscriptRole::Assistant, output)]
            } else {
                seq![]
            }) + if_text(TranscriptRole::Assistant, text)
        },
        None => if_text(TranscriptRole::Assistant, text),
    }
}

/// The line a model routing adds.
pub open spec fn routed_line(model: Seq<char>, source: ModelRoutingRuleSource, reason: Option<Seq<char>>) -> Seq<char> {
    "[model] "@ + model + " ("@ + crate::labels::routing_source_text(source) + ")"@ + match reason {
        Some(r) => if trim(r).len() > 0 { " - "@ + r } else { seq![] },
        None => seq![],
    }
}

/// A header value replaced by a non-blank one.
pub open spec fn header_value(old: Option<String>, new: Option<String>) -> Option<String> {
    match new {
        Some(v) => if trim(v@).len() > 0 { Some(v) } else { old },
        None => old,
    }
}

/// The state with the pending-subagent flag raised by the event.
pub open spec fn flagged(before: UiCore, e: UiEventKind) -> UiCore {
    UiCore {
        subagent_pending_summary_needs_refresh: before.subagent_pending_summary_needs_refresh || subagent_pending_event(
            watch_kind(e),
        ),
        ..before
    }
}

/// Only the transcript changed, by these entries.
pub open spec fn entries_added(before: UiCore, after: UiCore, es: Seq<(TranscriptRole, Seq<char>)>) -> bool {
    &&& after == (UiCore { transcript: after.transcript, ..before })
    &&& tview(after.transcript@) == bounded_push_all(tview(before.transcript@), es)
}

/// The entries a completed tool's result adds.
pub open spec fn tool_result_entries(name: Seq<char>, result: Option<JsonValue>) -> Seq<(TranscriptRole, Seq<char>)> {
    if suppress_completed_spec(name) || suppress_started_spec(name) {
        seq![]
    } else {
        match result {
            Some(r) => if r is Null {
                seq![]
            } else {
                match result_line_spec(name, r) {
                    Some(line) => seq![(TranscriptRole::Tool, line)],
                    None => seq![],
                }
            },
            None => seq![],
        }
    }
}

/// What a completed tool does: its name leaves the table of running tools;
/// a success adds its result, a failure is handed to the caller to describe.
pub open spec fn tool_completed_step(
    before: UiCore,
    after: UiCore,
    tool_id: u128,
    status: ToolStatus,
    result: Option<JsonValue>,
    f: EventFollowUp,
) -> bool {
    let name: Seq<char> = if before.tool_events@.contains_key(tool_id) {
        before.tool_events@[tool_id]@
    } else {
        "tool"@
    };
    &&& after.tool_events@ == before.tool_events@.remove(tool_id)
    &&& if status == ToolStatus::Completed {
        &&& f is Nothing
        &&& entries_added(UiCore { tool_events: after.tool_events, ..before }, after, tool_result_entries(name, result))
    } else {
        &&& after == (UiCore { tool_events: after.tool_events, ..before })
        &&& f matches EventFollowUp::DescribeToolFailure { name: n } && n@ == name
    }
}

/// What an event does, once the pending-subagent flag is raised.
#[verifier::opaque]
pub open spec fn kind_step(before: UiCore, after: UiCore, seq: u64, e: UiEventKind, f: EventFollowUp) -> bool {
    match e {
        UiEventKind::TurnStarted { turn_id, input } => {
            &&& f == (if before.turn_start_pending { EventFollowUp::AbortTurnStart } else { EventFollowUp::Nothing })
            &&& entries_added(
                UiCore {
                    turn_start_pending: false,
                    active_turn_id: Some(turn_id),
                    header_needs_refresh: true,
                    ..before
                },
                after,
                seq![(TranscriptRole::User, input@)],
            )
        },
        UiEventKind::AssistantMessage { turn_id, text, response_id, token_usage } => {
            let matched = turn_id matches Some(t) && before.streaming matches Some(s) && s.turn_id == t;
            let streamed: Option<(Seq<char>, Seq<char>)> = if matched {
                Some((before.streaming->0.output_text@, before.streaming->0.thinking@))
            } else {
                None
            };
            &&& f is Nothing
            &&& usage_recorded(
                before,
                after,
                opt_string(response_id),
                match token_usage {
                    Some(u) => crate::tool_format::usage_total_spec(u),
                    None => None,
                },
                seq,
            )
            &&& entries_added(
                UiCore {
                    total_tokens_used: after.total_tokens_used,
                    counted_usage_responses: after.counted_usage_responses,
                    streaming: if matched { None } else { before.streaming },
                    ..before
                },
                after,
                message_entries(streamed, text@),
            )
        },
        UiEventKind::AgentStep { response_id, token_usage } => {
            &&& f is Nothing
            &&& usage_recorded(
                before,
                after,
                Some(response_id@),
                match token_usage {
                    Some(u) => crate::tool_format::usage_total_spec(u),
                    None => None,
                },
                seq,
            )
            &&& after == (UiCore {
                total_tokens_used: after.total_tokens_used,
                counted_usage_responses: after.counted_usage_responses,
                ..before
            })
        },
        UiEventKind::ModelRouted { selected_model, rule_source, reason } => f is Nothing && entries_added(
            UiCore {
                header: crate::ui_state::HeaderInfo { model: Some(selected_model), ..before.header },
                header_needs_refresh: true,
                ..before
            },
            after,
            seq![(TranscriptRole::System, routed_line(selected_model@, rule_source, opt_string(reason)))],
        ),
        UiEventKind::TurnCompleted { turn_id, status } => f is Nothing && entries_added(
            UiCore {
                active_turn_id: if before.active_turn_id == Some(turn_id) { None } else { before.active_turn_id },
                header_needs_refresh: true,
                ..before
            },
            after,
            seq![(TranscriptRole::System, "[turn] "@ + uuid_text(turn_id) + " "@ + crate::labels::turn_status_text(status))],
        ),
        UiEventKind::ToolStarted { tool_id, tool, params } => f is Nothing && after.tool_events@ == before.tool_events@.insert(
            tool_id,
            tool,
        ) && entries_added(
            UiCore { tool_events: after.tool_events, ..before },
            after,
            if suppress_started_spec(tool@) {
                seq![]
            } else {
                seq![(TranscriptRole::Tool, started_line_spec(tool@, params))]
            },
        ),
        UiEventKind::ToolCompleted { tool_id, status, result } => tool_completed_step(before, after, tool_id, status, result, f),
        UiEventKind::ProcessStarted { argv, cwd } => f is Nothing && entries_added(
            before,
            after,
            match process_started_spec(texts(argv@), cwd@, opt_string(before.thread_cwd)) {
                Some(line) => seq![(TranscriptRole::Tool, line)],
                None => seq![],
            },
        ),
        UiEventKind::ThreadConfigUpdated { mode, role, model, thinking } => f is Nothing && after == (UiCore {
            header: crate::ui_state::HeaderInfo {
                mode: header_value(before.header.mode, mode),
                role: header_value(before.header.role, role),
                model: header_value(before.header.model, model),
                thinking: header_value(before.header.thinking, thinking),
                ..before.header
            },
            header_needs_refresh: true,
            ..before
        }),
        _ => f is Nothing && after == before,
    }
}

/// What an event of the open thread does.
pub open spec fn event_step(before: UiCore, after: UiCore, seq: u64, e: UiEventKind, f: EventFollowUp) -> bool {
    kind_step(flagged(before, e), after, seq, e, f)
}

proof fn lemma_push_all_append(
    t: Seq<(TranscriptRole, Seq<char>)>,
    a: Seq<(TranscriptRole, Seq<char>)>,
    b: Seq<(TranscriptRole, Seq<char>)>,
)
    ensures
        bounded_push_all(bounded_push_all(t, a), b) == bounded_push_all(t, a + b),
    decreases b.len(),
{
    if b.len() == 0 {
        assert(a + b =~= a);
    } else {
        lemma_push_all_append(t, a, b.drop_last());
        assert((a + b).drop_last() =~= a + b.drop_last());
        assert((a + b).last() == b.last());
    }
}

proof fn lemma_entries_chain(
    a: UiCore,
    b: UiCore,
    c: UiCore,
    e1: Seq<(TranscriptRole, Seq<char>)>,
    e2: Seq<(TranscriptRole, Seq<char>)>,
)
    requires
        entries_added(a, b, e1),
        entries_added(b, c, e2),
    ensures
        entries_added(a, c, e1 + e2),
{
    lemma_push_all_append(tview(a.transcript@), e1, e2);
}

proof fn lemma_tview_push(before: Seq<TranscriptEntry>, e: TranscriptEntry, after: Seq<TranscriptEntry>)
    requires
        after == (if before.len() >= MAX_TRANSCRIPT_ITEMS { before.drop_first() } else { before }).push(e),
    ensures
        tview(after) == bounded_push_all(tview(before), seq![(e.role, e.text@)]),
{
    let t0 = tview(before);
    let kept = if before.len() >= MAX_TRANSCRIPT_ITEMS { before.drop_first() } else { before };
    assert(tview(kept) =~= (if t0.len() >= MAX_TRANSCRIPT_ITEMS { t0.drop_first() } else { t0 }));
    assert(tview(after) =~= tview(kept).push((e.role, e.text@)));
    assert(seq![(e.role, e.text@)].drop_last() =~= Seq::<(TranscriptRole, Seq<char>)>::empty());
    reveal_with_fuel(bounded_push_all, 2);
}

impl UiCore {
    /// Adds an entry to the transcript.
    fn add_entry(&mut self, role: TranscriptRole, text: String)
        requires
            old(self).transcript@.len() <= MAX_TRANSCRIPT_ITEMS,
        ensures
            entries_added(*old(self), *final(self), seq![(role, text@)]),
            final(self).transcript@.len() <= MAX_TRANSCRIPT_ITEMS,
    {
        let ghost e = TranscriptEntry { role, text };
        let ghost before = self.transcript@;
        self.push_transcript(TranscriptEntry { role, text });
        proof {
            lemma_tview_push(before, e, self.transcript@);
        }
    }

    /// Adds an entry when its text is not blank.
    fn add_entry_if_text(&mut self, role: TranscriptRole, text: String)
        requires
            old(self).transcript@.len() <= MAX_TRANSCRIPT_ITEMS,
        ensures
            entries_added(*old(self), *final(self), if_text(role, text@)),
            final(self).transcript@.len() <= MAX_TRANSCRIPT_ITEMS,
    {
        let cs = chars_of(text.as_str());
        if trim_chars(cs.as_slice()).len() > 0 {
            self.add_entry(role, text);
        }
    }
}

fn routed_line_string(model: &str, source: ModelRoutingRuleSource, reason: Option<&str>) -> (r: String)
    ensures
        r@ == routed_line(model@, source, opt_str(reason)),
{
    let mut line = owned("[model] ");
    push_str(&mut line, model);
    push_str(&mut line, " (");
    push_str(&mut line, model_routing_rule_source_str(source));
    push_str(&mut line, ")");
    match reason {
        Some(r) => {
            let rc = chars_of(r);
            if trim_chars(rc.as_slice()).len() > 0 {
                push_str(&mut line, " - ");
                push_str(&mut line, r);
            }
        },
        None => {},
    }
    line
}

fn header_value_exec(old: Option<String>, new: Option<String>) -> (r: Option<String>)
    ensures
        r == header_value(old, new),
{
    match new {
        Some(v) => {
            let vc = chars_of(v.as_str());
            if trim_chars(vc.as_slice()).len() > 0 {
                Some(v)
            } else {
                old
            }
        },
        None => old,
    }
}

impl UiCore {
    fn on_turn_started(&mut self, seq: u64, turn_id: u128, input: String) -> (f: EventFollowUp)
        requires
            old(self).transcript@.len() <= MAX_TRANSCRIPT_ITEMS,
        ensures
            kind_step(*old(self), *final(self), seq, UiEventKind::TurnStarted { turn_id, input }, f),
            final(self).transcript@.len() <= MAX_TRANSCRIPT_ITEMS,
    {
        reveal(kind_step);
        let f = if self.turn_start_pending { EventFollowUp::AbortTurnStart } else { EventFollowUp::Nothing };
        self.turn_start_pending = false;
        self.active_turn_id = Some(turn_id);
        self.header_needs_refresh = true;
        self.add_entry(TranscriptRole::User, input);
        f
    }

    #[verifier::spinoff_prover]
    fn on_assistant_message(
        &mut self,
        seq: u64,
        turn_id: Option<u128>,
        text: String,
        response_id: Option<String>,
        token_usage: Option<JsonValue>,
    ) -> (f: EventFollowUp)
        requires
            old(self).transcript@.len() <= MAX_TRANSCRIPT_ITEMS,
        ensures
            kind_step(
                *old(self),
                *final(self),
                seq,
                UiEventKind::AssistantMessage { turn_id, text, response_id, token_usage },
                f,
            ),
            final(self).transcript@.len() <= MAX_TRANSCRIPT_ITEMS,
    {
        reveal(kind_step);
        let rid: Option<&str> = match &response_id {
            Some(r) => Some(r.as_str()),
            None => None,
        };
        self.record_token_usage(rid, token_usage.as_ref(), seq);
        let ghost s1 = *self;
        let matched = match (turn_id, &self.streaming) {
            (Some(t), Some(st)) => st.turn_id == t,
            _ => false,
        };
        let streamed = if matched {
            self.streaming.take()
        } else {
            None
        };
        let ghost s2 = *self;
        assert(s2 == (UiCore { streaming: if matched { None } else { s1.streaming }, ..s1 }));
        match streamed {
            Some(st) => {
                let ghost output = st.output_text@;
                self.add_entry_if_text(TranscriptRole::Thinking, st.thinking);
                let ghost s3 = *self;
                let oc = chars_of(st.output_text.as_str());
                let ot = trim_chars(oc.as_slice());
                let tc = chars_of(text.as_str());
                let tt = trim_chars(tc.as_slice());
                let keep = ot.len() > 0 && (tt.len() == 0 || !starts_with_chars(tt.as_slice(), ot.as_slice()));
                if keep {
                    self.add_entry(TranscriptRole::Assistant, st.output_text);
                }
                let ghost s4 = *self;
                proof {
                    let mid: Seq<(TranscriptRole, Seq<char>)> = if keep {
                        seq![(TranscriptRole::Assistant, output)]
                    } else {
                        seq![]
                    };
                    if !keep {
                        assert(entries_added(s3, s4, mid)) by {
                            assert(tview(s3.transcript@) =~= bounded_push_all(tview(s3.transcript@), mid));
                        }
                    }
                    lemma_entries_chain(s2, s3, s4, if_text(TranscriptRole::Thinking, st.thinking@), mid);
                }
                self.add_entry_if_text(TranscriptRole::Assistant, text);
                proof {
                    lemma_entries_chain(
                        s2,
                        s4,
                        *self,
                        if_text(TranscriptRole::Thinking, st.thinking@) + (if keep {
                            seq![(TranscriptRole::Assistant, output)]
                        } else {
                            seq![]
                        }),
                        if_text(TranscriptRole::Assistant, text@),
                    );
                }
            },
            None => {
                self.add_entry_if_text(TranscriptRole::Assistant, text);
            },
        }
        EventFollowUp::Nothing
    }
}

impl UiCore {
    fn on_agent_step(&mut self, seq: u64, response_id: String, token_usage: Option<JsonValue>) -> (f: EventFollowUp)
        ensures
            kind_step(*old(self), *final(self), seq, UiEventKind::AgentStep { response_id, token_usage }, f),
            final(self).transcript == old(self).transcript,
    {
        reveal(kind_step);
        self.record_token_usage(Some(response_id.as_str()), token_usage.as_ref(), seq);
        EventFollowUp::Nothing
    }

    fn on_model_routed(&mut self, seq: u64, selected_model: String, rule_source: ModelRoutingRuleSource, reason: Option<String>) -> (f: EventFollowUp)
        requires
            old(self).transcript@.len() <= MAX_TRANSCRIPT_ITEMS,
        ensures
            kind_step(*old(self), *final(self), seq, UiEventKind::ModelRouted { selected_model, rule_source, reason }, f),
            final(self).transcript@.len() <= MAX_TRANSCRIPT_ITEMS,
    {
        reveal(kind_step);
        let r: Option<&str> = match &reason {
            Some(x) => Some(x.as_str()),
            None => None,
        };
        let line = routed_line_string(selected_model.as_str(), rule_source, r);
        self.header.model = Some(selected_model);
        self.header_needs_refresh = true;
        self.add_entry(TranscriptRole::System, line);
        EventFollowUp::Nothing
    }

    fn on_turn_completed(&mut self, seq: u64, turn_id: u128, status: TurnStatus) -> (f: EventFollowUp)
        requires
            old(self).transcript@.len() <= MAX_TRANSCRIPT_ITEMS,
        ensures
            kind_step(*old(self), *final(self), seq, UiEventKind::TurnCompleted { turn_id, status }, f),
            final(self).transcript@.len() <= MAX_TRANSCRIPT_ITEMS,
    {
        reveal(kind_step);
        if self.active_turn_id == Some(turn_id) {
            self.active_turn_id = None;
        }
        self.header_needs_refresh = true;
        let mut line = owned("[turn] ");
        push_uuid(&mut line, turn_id);
        push_str(&mut line, " ");
        push_str(&mut line, turn_status_str(status));
        self.add_entry(TranscriptRole::System, line);
        EventFollowUp::Nothing
    }

    fn on_tool_started(&mut self, seq: u64, tool_id: u128, tool: String, params: Option<JsonValue>) -> (f: EventFollowUp)
        requires
            old(self).transcript@.len() <= MAX_TRANSCRIPT_ITEMS,
        ensures
            kind_step(*old(self), *final(self), seq, UiEventKind::ToolStarted { tool_id, tool, params }, f),
            final(self).transcript@.len() <= MAX_TRANSCRIPT_ITEMS,
    {
        reveal(kind_step);
        let suppressed = should_suppress_tool_started(tool.as_str());
        let line = format_tool_started_line(tool.as_str(), params.as_ref());
        self.tool_events.insert(tool_id, tool);
        let ghost s1 = *self;
        if !suppressed {
            match line {
                Some(l) => self.add_entry(TranscriptRole::Tool, l),
                None => {},
            }
        } else {
            assert(tview(s1.transcript@) =~= bounded_push_all(tview(s1.transcript@), seq![]));
        }
        EventFollowUp::Nothing
    }

    fn on_process_started(&mut self, seq: u64, argv: Vec<String>, cwd: String) -> (f: EventFollowUp)
        requires
            old(self).transcript@.len() <= MAX_TRANSCRIPT_ITEMS,
        ensures
            kind_step(*old(self), *final(self), seq, UiEventKind::ProcessStarted { argv, cwd }, f),
            final(self).transcript@.len() <= MAX_TRANSCRIPT_ITEMS,
    {
        reveal(kind_step);
        let thread_cwd: Option<&str> = match &self.thread_cwd {
            Some(c) => Some(c.as_str()),
            None => None,
        };
        let line = format_process_started_line(argv.as_slice(), cwd.as_str(), thread_cwd);
        match line {
            Some(l) => self.add_entry(TranscriptRole::Tool, l),
            None => {
                assert(tview(self.transcript@) =~= bounded_push_all(tview(self.transcript@), seq![]));
            },
        }
        EventFollowUp::Nothing
    }

    fn on_config_updated(
        &mut self,
        seq: u64,
        mode: Option<String>,
        role: Option<String>,
        model: Option<String>,
        thinking: Option<String>,
    ) -> (f: EventFollowUp)
        ensures
            kind_step(*old(self), *final(self), seq, UiEventKind::ThreadConfigUpdated { mode, role, model, thinking }, f),
            final(self).transcript == old(self).transcript,
    {
        reveal(kind_step);
        let m = self.header.mode.take();
        self.header.mode = header_value_exec(m, mode);
        let r = self.header.role.take();
        self.header.role = header_value_exec(r, role);
        let md = self.header.model.take();
        self.header.model = header_value_exec(md, model);
        let t = self.header.thinking.take();
        self.header.thinking = header_value_exec(t, thinking);
        self.header_needs_refresh = true;
        EventFollowUp::Nothing
    }
}

/// The line a completed tool's result adds, if any.
fn tool_result_entry(name: &str, result: &Option<JsonValue>) -> (r: Option<String>)
    ensures
        opt_string(r) == match *result {
            Some(v) => if v is Null { None } else { result_line_spec(name@, v) },
            None => None,
        },
{
    match result {
        Some(r) => match r {
            JsonValue::Null => None,
            _ => format_tool_result_line(name, r),
        },
        None => None,
    }
}

proof fn lemma_kind_step_tool_completed(
    before: UiCore,
    after: UiCore,
    seq: u64,
    tool_id: u128,
    status: ToolStatus,
    result: Option<JsonValue>,
    f: EventFollowUp,
)
    requires
        tool_completed_step(before, after, tool_id, status, result, f),
    ensures
        kind_step(before, after, seq, UiEventKind::ToolCompleted { tool_id, status, result }, f),
{
    reveal(kind_step);
}

proof fn lemma_kind_step_unchanged(s: UiCore, seq: u64, e: UiEventKind)
    requires
        e is ApprovalRequested || e is ApprovalDecided || e is Other,
    ensures
        kind_step(s, s, seq, e, EventFollowUp::Nothing),
{
    reveal(kind_step);
}

impl UiCore {
    #[verifier::spinoff_prover]
    fn on_tool_completed(&mut self, seq: u64, tool_id: u128, status: ToolStatus, result: Option<JsonValue>) -> (f: EventFollowUp)
        requires
            old(self).transcript@.len() <= MAX_TRANSCRIPT_ITEMS,
        ensures
            kind_step(*old(self), *final(self), seq, UiEventKind::ToolCompleted { tool_id, status, result }, f),
            final(self).transcript@.len() <= MAX_TRANSCRIPT_ITEMS,
    {
        let ghost before = *self;
        let f = self.complete_tool(tool_id, status, result);
        proof {
            lemma_kind_step_tool_completed(before, *self, seq, tool_id, status, result, f);
        }
        f
    }

    #[verifier::spinoff_prover]
    #[verifier::rlimit(60)]
    fn complete_tool(&mut self, tool_id: u128, status: ToolStatus, result: Option<JsonValue>) -> (f: EventFollowUp)
        requires
            old(self).transcript@.len() <= MAX_TRANSCRIPT_ITEMS,
        ensures
            tool_completed_step(*old(self), *final(self), tool_id, status, result, f),
            final(self).transcript@.len() <= MAX_TRANSCRIPT_ITEMS,
    {
        let ghost m0 = self.tool_events@;
        let info = self.tool_events.remove(&tool_id);
        let name = match info {
            Some(n) => n,
            None => owned("tool"),
        };
        assert(name@ == (if m0.contains_key(tool_id) { m0[tool_id]@ } else { "tool"@ }));
        let completed = match status {
            ToolStatus::Completed => true,
            _ => false,
        };
        if !completed {
            return EventFollowUp::DescribeToolFailure { name };
        }
        self.add_tool_result(name.as_str(), &result);
        EventFollowUp::Nothing
    }

    fn add_tool_result(&mut self, name: &str, result: &Option<JsonValue>)
        requires
            old(self).transcript@.len() <= MAX_TRANSCRIPT_ITEMS,
        ensures
            entries_added(*old(self), *final(self), tool_result_entries(name@, *result)),
            final(self).transcript@.len() <= MAX_TRANSCRIPT_ITEMS,
    {
        if should_suppress_tool_completed(name) || should_suppress_tool_started(name) {
            assert(tview(self.transcript@) =~= bounded_push_all(tview(self.transcript@), seq![]));
            return;
        }
        let line = tool_result_entry(name, result);
        match line {
            Some(l) => self.add_entry(TranscriptRole::Tool, l),
            None => {
                assert(tview(self.transcript@) =~= bounded_push_all(tview(self.transcript@), seq![]));
            },
        }
    }

    /// Raises the pending-subagent flag where the event may change that summary.
    fn raise_subagent_flag(&mut self, event: &UiEventKind)
        ensures
            *final(self) == flagged(*old(self), *event),
    {
        let k = watch_kind_of(event);
        if subagent_pending_summary_maybe_changed_by_event(&k) {
            self.subagent_pending_summary_needs_refresh = true;
        }
    }

    /// Applies an event of the open thread.
    pub fn apply_event(&mut self, seq: u64, event: UiEventKind) -> (f: EventFollowUp)
        requires
            old(self).transcript@.len() <= MAX_TRANSCRIPT_ITEMS,
        ensures
            event_step(*old(self), *final(self), seq, event, f),
            final(self).transcript@.len() <= MAX_TRANSCRIPT_ITEMS,
    {
        self.raise_subagent_flag(&event);
        self.dispatch_event(seq, event)
    }

    fn dispatch_event(&mut self, seq: u64, event: UiEventKind) -> (f: EventFollowUp)
        requires
            old(self).transcript@.len() <= MAX_TRANSCRIPT_ITEMS,
        ensures
            kind_step(*old(self), *final(self), seq, event, f),
            final(self).transcript@.len() <= MAX_TRANSCRIPT_ITEMS,
    {
        match event {
            UiEventKind::TurnStarted { turn_id, input } => self.on_turn_started(seq, turn_id, input),
            UiEventKind::AssistantMessage { turn_id, text, response_id, token_usage } => self.on_assistant_message(
                seq,
                turn_id,
                text,
                response_id,
                token_usage,
            ),
            UiEventKind::AgentStep { response_id, token_usage } => self.on_agent_step(seq, response_id, token_usage),
            UiEventKind::ModelRouted { selected_model, rule_source, reason } => self.on_model_routed(
                seq,
                selected_model,
                rule_source,
                reason,
            ),
            UiEventKind::TurnCompleted { turn_id, status } => self.on_turn_completed(seq, turn_id, status),
            UiEventKind::ToolStarted { tool_id, tool, params } => self.on_tool_started(seq, tool_id, tool, params),
            UiEventKind::ToolCompleted { tool_id, status, result } => self.on_tool_completed(
                seq,
                tool_id,
                status,
                result,
            ),
            UiEventKind::ProcessStarted { argv, cwd } => self.on_process_started(seq, argv, cwd),
            UiEventKind::ThreadConfigUpdated { mode, role, model, thinking } => self.on_config_updated(
                seq,
                mode,
                role,
                model,
                thinking,
            ),
            _ => {
                proof {
                    lemma_kind_step_unchanged(*self, seq, event);
                }
                EventFollowUp::Nothing
            },
        }
    }

    /// Takes an event the server sent: only the open thread's events, and
    /// each once (in order of their sequence numbers), are applied.
    pub fn accept_event(&mut self, thread_id: u128, seq: u64, event: UiEventKind) -> (f: EventFollowUp)
        requires
            old(self).transcript@.len() <= MAX_TRANSCRIPT_ITEMS,
        ensures
            if old(self).active_thread == Some(thread_id) && seq > old(self).last_seq {
                event_step(UiCore { last_seq: seq, ..*old(self) }, *final(self), seq, event, f)
            } else {
                *final(self) == *old(self) && f is Nothing
            },
            final(self).transcript@.len() <= MAX_TRANSCRIPT_ITEMS,
    {
        if self.active_thread == Some(thread_id) && seq > self.last_seq {
            self.last_seq = seq;
            self.apply_event(seq, event)
        } else {
            EventFollowUp::Nothing
        }
    }
}

/// Which part of a streaming reply a piece of text extends.
#[derive(Debug, Clone, Copy, PartialEq, Eq, Structural)]
pub enum DeltaKind {
    OutputText,
    Thinking,
    Warning,
    Other,
}

/// What a piece of streamed text does.
pub open spec fn delta_step(before: UiCore, after: UiCore, thread_id: u128, turn_id: u128, kind: DeltaKind, delta: Seq<char>) -> bool {
    if delta.len() == 0 || before.active_thread != Some(thread_id) {
        after == before
    } else {
        match kind {
            DeltaKind::OutputText | DeltaKind::Thinking => {
                let cont = before.streaming matches Some(st) && st.turn_id == turn_id;
                let (out0, think0): (Seq<char>, Seq<char>) = if cont {
                    (before.streaming->0.output_text@, before.streaming->0.thinking@)
                } else {
                    (seq![], seq![])
                };
                &&& after == (UiCore { streaming: after.streaming, ..before })
                &&& after.streaming matches Some(st) && st.turn_id == turn_id && (if kind == DeltaKind::OutputText {
                    st.output_text@ == out0 + delta && st.thinking@ == think0
                } else {
                    st.output_text@ == out0 && st.thinking@ == think0 + delta
                })
            },
            DeltaKind::Warning => entries_added(before, after, seq![(TranscriptRole::System, "warning: "@ + delta)]),
            DeltaKind::Other => after == before,
        }
    }
}

impl UiCore {
    /// Takes a piece of streamed text of `turn_id` in `thread_id`.
    pub fn apply_delta(&mut self, thread_id: u128, turn_id: u128, kind: DeltaKind, delta: &str)
        requires
            old(self).transcript@.len() <= MAX_TRANSCRIPT_ITEMS,
        ensures
            delta_step(*old(self), *final(self), thread_id, turn_id, kind, delta@),
            final(self).transcript@.len() <= MAX_TRANSCRIPT_ITEMS,
    {
        let dc = chars_of(delta);
        if dc.len() == 0 || self.active_thread != Some(thread_id) {
            return;
        }
        match kind {
            DeltaKind::OutputText | DeltaKind::Thinking => {
                let output = kind == DeltaKind::OutputText;
                let st = match self.streaming.take() {
                    Some(mut st) => {
                        if st.turn_id == turn_id {
                            if output {
                                push_str(&mut st.output_text, delta);
                            } else {
                                push_str(&mut st.thinking, delta);
                            }
                            st
                        } else {
                            StreamingState {
                                turn_id,
                                output_text: if output { owned(delta) } else { String::new() },
                                thinking: if output { String::new() } else { owned(delta) },
                            }
                        }
                    },
                    None => StreamingState {
                        turn_id,
                        output_text: if output { owned(delta) } else { String::new() },
                        thinking: if output { String::new() } else { owned(delta) },
                    },
                };
                self.streaming = Some(st);
            },
            DeltaKind::Warning => {
                let mut line = owned("warning: ");
                push_str(&mut line, delta);
                self.add_entry(TranscriptRole::System, line);
            },
            DeltaKind::Other => {},
        }
    }
}

} // verus!
