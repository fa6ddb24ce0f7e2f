use omne_tui::events::{DeltaKind, EventFollowUp, UiEventKind};
use omne_tui::json::{JsonNumber, JsonValue};
use omne_tui::labels::{ModelRoutingRuleSource, ToolStatus, TurnStatus};
use omne_tui::render::TranscriptRole;
use omne_tui::ui_state::UiCore;

const THREAD: u128 = 7;
const TURN: u128 = 0x0123_4567_89ab_cdef_0123_4567_89ab_cdef;

fn state() -> UiCore {
    let mut s = UiCore::new(false);
    s.active_thread = Some(THREAD);
    s
}

fn entries(s: &UiCore) -> Vec<(TranscriptRole, String)> {
    s.transcript.iter().map(|e| (e.role, e.text.clone())).collect()
}

fn text(v: &str) -> JsonValue {
    JsonValue::String(v.to_string())
}

fn num(v: u64) -> JsonValue {
    JsonValue::Number(JsonNumber { text: v.to_string(), as_u64: Some(v), as_i64: Some(v as i64) })
}

fn obj(entries: Vec<(&str, JsonValue)>) -> JsonValue {
    JsonValue::Object(entries.into_iter().map(|(k, v)| (k.to_string(), v)).collect())
}

#[test]
fn turn_started_adds_the_input_and_ends_a_pending_start() {
    let mut s = state();
    s.turn_start_pending = true;
    let f = s.apply_event(1, UiEventKind::TurnStarted { turn_id: TURN, input: "hello".to_string() });
    assert!(matches!(f, EventFollowUp::AbortTurnStart));
    assert!(!s.turn_start_pending);
    assert_eq!(s.active_turn_id, Some(TURN));
    assert!(s.header_needs_refresh);
    assert!(s.subagent_pending_summary_needs_refresh);
    assert_eq!(entries(&s), vec![(TranscriptRole::User, "hello".to_string())]);
    let f = s.apply_event(2, UiEventKind::TurnStarted { turn_id: TURN, input: "again".to_string() });
    assert!(matches!(f, EventFollowUp::Nothing));
}

#[test]
fn assistant_message_flushes_the_streamed_reply() {
    let mut s = state();
    s.apply_delta(THREAD, TURN, DeltaKind::Thinking, "pondering");
    s.apply_delta(THREAD, TURN, DeltaKind::OutputText, "Hel");
    s.apply_delta(THREAD, TURN, DeltaKind::OutputText, "lo");
    let st = s.streaming.as_ref().unwrap();
    assert_eq!(st.output_text, "Hello");
    assert_eq!(st.thinking, "pondering");
    let f = s.apply_event(
        3,
        UiEventKind::AssistantMessage {
            turn_id: Some(TURN),
            text: "Hello there".to_string(),
            response_id: Some("r1".to_string()),
            token_usage: Some(obj(vec![("total_tokens", num(12))])),
        },
    );
    assert!(matches!(f, EventFollowUp::Nothing));
    assert!(s.streaming.is_none());
    assert_eq!(
        entries(&s),
        vec![
            (TranscriptRole::Thinking, "pondering".to_string()),
            (TranscriptRole::Assistant, "Hello there".to_string()),
        ]
    );
    assert_eq!(s.total_tokens_used, 12);
    assert!(!s.subagent_pending_summary_needs_refresh);
}

#[test]
fn assistant_message_keeps_a_streamed_reply_it_does_not_repeat() {
    let mut s = state();
    s.apply_delta(THREAD, TURN, DeltaKind::OutputText, "draft");
    s.apply_event(
        4,
        UiEventKind::AssistantMessage { turn_id: Some(TURN), text: "final".to_string(), response_id: None, token_usage: None },
    );
    assert_eq!(
        entries(&s),
        vec![
            (TranscriptRole::Assistant, "draft".to_string()),
            (TranscriptRole::Assistant, "final".to_string()),
        ]
    );
}

#[test]
fn assistant_message_of_another_turn_leaves_the_stream() {
    let mut s = state();
    s.apply_delta(THREAD, TURN, DeltaKind::OutputText, "partial");
    s.apply_event(
        5,
        UiEventKind::AssistantMessage { turn_id: Some(1), text: "   ".to_string(), response_id: None, token_usage: None },
    );
    assert!(entries(&s).is_empty());
    assert_eq!(s.streaming.as_ref().unwrap().output_text, "partial");
}

#[test]
fn model_routed_sets_the_header_model_and_explains() {
    let mut s = state();
    s.apply_event(
        6,
        UiEventKind::ModelRouted {
            selected_model: "gpt-x".to_string(),
            rule_source: ModelRoutingRuleSource::KeywordRule,
            reason: Some("matched review".to_string()),
        },
    );
    assert_eq!(s.header.model.as_deref(), Some("gpt-x"));
    assert_eq!(
        entries(&s),
        vec![(TranscriptRole::System, "[model] gpt-x (keyword_rule) - matched review".to_string())]
    );
    s.apply_event(
        7,
        UiEventKind::ModelRouted {
            selected_model: "m2".to_string(),
            rule_source: ModelRoutingRuleSource::GlobalDefault,
            reason: Some("  ".to_string()),
        },
    );
    assert_eq!(entries(&s)[1].1, "[model] m2 (global_default)");
}

#[test]
fn turn_completed_clears_the_active_turn() {
    let mut s = state();
    s.active_turn_id = Some(TURN);
    s.apply_event(8, UiEventKind::TurnCompleted { turn_id: TURN, status: TurnStatus::Interrupted });
    assert_eq!(s.active_turn_id, None);
    assert_eq!(
        entries(&s),
        vec![(TranscriptRole::System, "[turn] 01234567-89ab-cdef-0123-456789abcdef interrupted".to_string())]
    );
    assert!(s.subagent_pending_summary_needs_refresh);
    s.active_turn_id = Some(3);
    s.apply_event(9, UiEventKind::TurnCompleted { turn_id: TURN, status: TurnStatus::Completed });
    assert_eq!(s.active_turn_id, Some(3));
}

#[test]
fn tool_started_and_completed_lines() {
    let mut s = state();
    s.apply_event(
        10,
        UiEventKind::ToolStarted { tool_id: 1, tool: "file/read".to_string(), params: Some(obj(vec![("path", text("a.rs"))])) },
    );
    assert_eq!(s.tool_events.get(&1).map(|t| t.as_str()), Some("file/read"));
    let f = s.apply_event(
        11,
        UiEventKind::ToolCompleted { tool_id: 1, status: ToolStatus::Completed, result: Some(obj(vec![("bytes", num(3))])) },
    );
    assert!(matches!(f, EventFollowUp::Nothing));
    assert!(s.tool_events.is_empty());
    assert_eq!(entries(&s).len(), 2);
    assert_eq!(entries(&s)[0].0, TranscriptRole::Tool);
    assert_eq!(entries(&s)[1], (TranscriptRole::Tool, "file/read → [bytes=3]".to_string()));
}

#[test]
fn suppressed_tools_add_no_lines() {
    let mut s = state();
    s.apply_event(12, UiEventKind::ToolStarted { tool_id: 2, tool: "process/start".to_string(), params: None });
    assert!(entries(&s).is_empty());
    s.apply_event(
        13,
        UiEventKind::ToolCompleted { tool_id: 2, status: ToolStatus::Completed, result: Some(obj(vec![("x", num(1))])) },
    );
    assert!(entries(&s).is_empty());
    assert!(s.tool_events.is_empty());
}

#[test]
fn a_failed_tool_is_handed_back_by_name() {
    let mut s = state();
    s.apply_event(14, UiEventKind::ToolStarted { tool_id: 3, tool: "custom/tool".to_string(), params: None });
    let f = s.apply_event(15, UiEventKind::ToolCompleted { tool_id: 3, status: ToolStatus::Failed, result: None });
    match f {
        EventFollowUp::DescribeToolFailure { name } => assert_eq!(name, "custom/tool"),
        _ => panic!("expected a failure to describe"),
    }
    let f = s.apply_event(16, UiEventKind::ToolCompleted { tool_id: 9, status: ToolStatus::Denied, result: None });
    match f {
        EventFollowUp::DescribeToolFailure { name } => assert_eq!(name, "tool"),
        _ => panic!("expected a failure to describe"),
    }
    assert_eq!(entries(&s).len(), 1);
}

#[test]
fn process_started_line_shows_the_command() {
    let mut s = state();
    s.thread_cwd = Some("/x".to_string());
    s.apply_event(
        17,
        UiEventKind::ProcessStarted { argv: vec!["bash".to_string(), "-lc".to_string(), "make".to_string()], cwd: "/w".to_string() },
    );
    assert_eq!(entries(&s), vec![(TranscriptRole::Tool, "$ make (cwd=/w)".to_string())]);
}

#[test]
fn config_update_replaces_only_non_blank_values() {
    let mut s = state();
    s.header.mode = Some("code".to_string());
    s.header.role = Some("dev".to_string());
    s.apply_event(
        18,
        UiEventKind::ThreadConfigUpdated {
            mode: Some("review".to_string()),
            role: Some("  ".to_string()),
            model: Some("m".to_string()),
            thinking: None,
        },
    );
    assert_eq!(s.header.mode.as_deref(), Some("review"));
    assert_eq!(s.header.role.as_deref(), Some("dev"));
    assert_eq!(s.header.model.as_deref(), Some("m"));
    assert_eq!(s.header.thinking, None);
    assert!(s.header_needs_refresh);
    assert!(entries(&s).is_empty());
}

#[test]
fn approval_events_only_raise_the_pending_flag() {
    let mut s = state();
    s.apply_event(19, UiEventKind::ApprovalRequested);
    assert!(s.subagent_pending_summary_needs_refresh);
    let mut t = state();
    t.apply_event(20, UiEventKind::Other);
    assert!(!t.subagent_pending_summary_needs_refresh);
    assert!(entries(&t).is_empty());
}

#[test]
fn accept_event_takes_each_event_of_the_open_thread_once() {
    let mut s = state();
    s.accept_event(THREAD, 5, UiEventKind::TurnStarted { turn_id: TURN, input: "a".to_string() });
    assert_eq!(s.last_seq, 5);
    s.accept_event(THREAD, 5, UiEventKind::TurnStarted { turn_id: TURN, input: "b".to_string() });
    s.accept_event(THREAD, 4, UiEventKind::TurnStarted { turn_id: TURN, input: "c".to_string() });
    s.accept_event(99, 6, UiEventKind::TurnStarted { turn_id: TURN, input: "d".to_string() });
    assert_eq!(s.last_seq, 5);
    s.accept_event(THREAD, 6, UiEventKind::TurnStarted { turn_id: TURN, input: "e".to_string() });
    assert_eq!(
        entries(&s),
        vec![(TranscriptRole::User, "a".to_string()), (TranscriptRole::User, "e".to_string())]
    );
}

#[test]
fn deltas_of_other_threads_or_empty_are_ignored() {
    let mut s = state();
    s.apply_delta(99, TURN, DeltaKind::OutputText, "x");
    s.apply_delta(THREAD, TURN, DeltaKind::OutputText, "");
    s.apply_delta(THREAD, TURN, DeltaKind::Other, "y");
    assert!(s.streaming.is_none());
    s.apply_delta(THREAD, TURN, DeltaKind::OutputText, "one");
    s.apply_delta(THREAD, 1, DeltaKind::OutputText, "two");
    let st = s.streaming.as_ref().unwrap();
    assert_eq!(st.turn_id, 1);
    assert_eq!(st.output_text, "two");
    s.apply_delta(THREAD, 1, DeltaKind::Warning, "slow down");
    assert_eq!(entries(&s), vec![(TranscriptRole::System, "warning: slow down".to_string())]);
}
