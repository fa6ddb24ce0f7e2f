use omne_tui::approvals::SubagentPendingSummary;
use omne_tui::labels::TurnStatus;
use omne_tui::pending::PendingAction;
use omne_tui::watch::{
    attention_state_update, format_inbox_summary_cache_stats, format_subagent_pending_summary,
    format_watch_summary_refresh_debug, shorten_path, shorten_watch_approval_hint,
    should_emit_presence_bell, should_notify_presence_rising_edge,
    should_refresh_watch_auto_apply_summary, should_refresh_watch_detail_summary,
    should_refresh_watch_fan_in_dependency_blocker_summary,
    should_refresh_watch_fan_in_result_diagnostics_summary,
    should_refresh_watch_subagent_pending_summary, should_ring_attention_bell,
    subagent_pending_changed_fields, subagent_pending_summary_maybe_changed_by_event,
    summary_source_label, AttentionMarkerKind, InboxSummaryCacheStats, SummarySource,
    ThreadEventKind,
};

fn summary(total: usize, states: &[(&str, usize)]) -> SubagentPendingSummary {
    SubagentPendingSummary {
        total,
        states: states.iter().map(|(s, c)| (s.to_string(), *c)).collect(),
    }
}

#[test]
fn refresh_decisions_follow_the_event_kinds() {
    let marker = [ThreadEventKind::AttentionMarkerSet(AttentionMarkerKind::FanOutAutoApplyError)];
    assert!(should_refresh_watch_auto_apply_summary(&marker));
    assert!(!should_refresh_watch_fan_in_dependency_blocker_summary(&marker));
    assert!(!should_refresh_watch_subagent_pending_summary(&marker));

    let cleared = [ThreadEventKind::AttentionMarkerCleared(AttentionMarkerKind::TokenBudgetWarning)];
    assert!(!should_refresh_watch_auto_apply_summary(&cleared));
    assert!(!should_refresh_watch_detail_summary(&cleared));

    let tool = [ThreadEventKind::Other, ThreadEventKind::ToolCompleted];
    assert!(should_refresh_watch_fan_in_dependency_blocker_summary(&tool));
    assert!(should_refresh_watch_fan_in_result_diagnostics_summary(&tool));
    assert!(!should_refresh_watch_subagent_pending_summary(&tool));

    let approval = [ThreadEventKind::ApprovalDecided];
    assert!(should_refresh_watch_subagent_pending_summary(&approval));
    assert!(!should_refresh_watch_auto_apply_summary(&approval));
    assert!(should_refresh_watch_detail_summary(&approval));
    assert!(subagent_pending_summary_maybe_changed_by_event(&ThreadEventKind::TurnCompleted(TurnStatus::Failed)));
    assert!(!subagent_pending_summary_maybe_changed_by_event(&ThreadEventKind::ProcessStarted));

    let none: [ThreadEventKind; 0] = [];
    assert!(!should_refresh_watch_detail_summary(&none));
}

#[test]
fn attention_state_updates() {
    assert_eq!(attention_state_update(&ThreadEventKind::ApprovalRequested), Some("need_approval"));
    assert_eq!(attention_state_update(&ThreadEventKind::TurnCompleted(TurnStatus::Stuck)), Some("stuck"));
    assert_eq!(attention_state_update(&ThreadEventKind::ProcessExited(Some(1))), Some("failed"));
    assert_eq!(attention_state_update(&ThreadEventKind::ProcessExited(Some(0))), None);
    assert_eq!(attention_state_update(&ThreadEventKind::ProcessExited(None)), None);
    assert_eq!(
        attention_state_update(&ThreadEventKind::AttentionMarkerSet(AttentionMarkerKind::TokenBudgetExceeded)),
        Some("token_budget_exceeded")
    );
    assert_eq!(attention_state_update(&ThreadEventKind::ToolCompleted), None);
}

#[test]
fn presence_bell_rings_on_rising_edges_outside_the_debounce() {
    let mut last = None;
    let mut bell = None;
    // The first observation only records the state.
    assert!(!should_emit_presence_bell(true, 1000, &mut last, &mut bell, 0));
    assert_eq!(last, Some(true));
    assert!(!should_emit_presence_bell(false, 1000, &mut last, &mut bell, 10));
    assert!(should_emit_presence_bell(true, 1000, &mut last, &mut bell, 20));
    assert_eq!(bell, Some(20));
    assert!(!should_emit_presence_bell(false, 1000, &mut last, &mut bell, 30));
    // Within the debounce window: no bell, and the bell time stays.
    assert!(!should_emit_presence_bell(true, 1000, &mut last, &mut bell, 500));
    assert_eq!(bell, Some(20));
    assert!(!should_emit_presence_bell(false, 1000, &mut last, &mut bell, 600));
    assert!(should_emit_presence_bell(true, 1000, &mut last, &mut bell, 1020));
    assert_eq!(bell, Some(1020));
    // Staying present is no edge.
    assert!(!should_emit_presence_bell(true, 0, &mut last, &mut bell, 5000));
}

#[test]
fn rising_edge_needs_a_known_absence() {
    assert!(should_notify_presence_rising_edge(Some(false), true));
    assert!(!should_notify_presence_rising_edge(None, true));
    assert!(!should_notify_presence_rising_edge(Some(true), true));
    assert!(!should_notify_presence_rising_edge(Some(false), false));
}

#[test]
fn attention_bell_rings_for_attention_states_once_per_window() {
    let mut last = None;
    let mut bell = None;
    assert!(!should_ring_attention_bell("running", 1000, &mut last, &mut bell, 0));
    assert_eq!(last, Some("running"));
    assert!(should_ring_attention_bell("failed", 1000, &mut last, &mut bell, 10));
    assert!(!should_ring_attention_bell("failed", 1000, &mut last, &mut bell, 20));
    assert!(should_ring_attention_bell("stuck", 1000, &mut last, &mut bell, 30));
    assert!(should_ring_attention_bell("stuck", 1000, &mut last, &mut bell, 2000));
    assert_eq!(bell, Some(2000));
}

#[test]
fn pending_summary_changes_are_reported_by_field() {
    let a = summary(2, &[("failed", 1), ("running", 1)]);
    let b = summary(2, &[("failed", 2)]);
    let c = summary(3, &[("failed", 1), ("running", 1)]);
    assert_eq!(subagent_pending_changed_fields(None, &a), vec!["total", "states"]);
    assert!(subagent_pending_changed_fields(Some(&a), &a).is_empty());
    assert_eq!(subagent_pending_changed_fields(Some(&a), &b), vec!["states"]);
    assert_eq!(subagent_pending_changed_fields(Some(&a), &c), vec!["total"]);
}

#[test]
fn pending_summary_text() {
    let a = summary(3, &[("failed", 1), ("running", 2)]);
    assert_eq!(format_subagent_pending_summary(&a), "subagent_pending: total=3 states=failed:1, running:2");
    assert_eq!(format_subagent_pending_summary(&summary(0, &[])), "subagent_pending: total=0 states=");
}

#[test]
fn paths_and_hints_are_shortened_from_the_left() {
    assert_eq!(shorten_path("abcdefghij", 8), "...fghij");
    assert_eq!(shorten_path("abc", 8), "abc");
    assert_eq!(shorten_path("abcdef", 2), "...");
    assert_eq!(
        shorten_watch_approval_hint("path=/very/long/path/file.txt".to_string(), 10),
        "path=...ile.txt"
    );
    assert_eq!(shorten_watch_approval_hint("tool=abcdefghijklmnop".to_string(), 5), "tool=abcdefghijklmnop");
    assert_eq!(shorten_watch_approval_hint("no separator".to_string(), 3), "no separator");
}

#[test]
fn refresh_debug_line() {
    let line = format_watch_summary_refresh_debug(
        4,
        2,
        true,
        false,
        true,
        false,
        SummarySource::Previous,
        SummarySource::Attention,
        SummarySource::Artifact,
        SummarySource::Absent,
    );
    assert_eq!(
        line,
        "watch_summary_refresh iter=4 events=2 auto_apply(refresh=true,source=previous) fan_in(refresh=false,source=attention) fan_in_diag(refresh=true,source=artifact) subagent(refresh=false,source=none)"
    );
    assert_eq!(summary_source_label(SummarySource::Absent), "none");
}

#[test]
fn cache_stats_line() {
    let mut stats = InboxSummaryCacheStats::default();
    stats.fan_out_meta = 5;
    stats.subagent_skip_no_pending = 9;
    let line = format_inbox_summary_cache_stats(1, 2, 3, &stats);
    assert_eq!(
        line,
        "inbox_summary_cache iter=1 prev=2 cur=3 \
fan_out(meta=5,cache_some=0,cache_none=0,attention=0,fetch_some=0,fetch_none=0) \
fan_in(meta=0,cache_some=0,cache_none=0,attention=0,fetch_some=0,fetch_none=0,skip_unblocked=0) \
fan_in_diag(meta=0,cache_some=0,cache_none=0,attention=0,fetch_some=0,fetch_none=0,skip_absent=0) \
subagent(meta=0,cache_some=0,cache_none=0,attention_some=0,attention_none=0,fetch_some=0,fetch_none=0,skip_no_pending=9)"
    );
}

#[test]
fn pending_action_reports_its_approval() {
    let a = PendingAction::ArtifactRead { thread_id: 1, artifact_id: 2, max_bytes: 10, version: Some(3), approval_id: 77 };
    assert_eq!(a.approval_id(), 77);
    let k = PendingAction::ProcessKill { thread_id: 1, process_id: 2, approval_id: 5 };
    assert_eq!(k.approval_id(), 5);
}
