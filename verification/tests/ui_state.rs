use omne_tui::approvals::{ApprovalsFilter, ApprovalsOverlay};
use omne_tui::json::{JsonNumber, JsonValue};
use omne_tui::keys::KeyCode;
use omne_tui::render::{TranscriptEntry, TranscriptRole};
use omne_tui::ui_state::{
    attention_badge, handle_key_text_overlay, is_error_message, next_thinking_level, Overlay,
    TextOverlay, ThreadMeta, UiCore, MAX_TRANSCRIPT_ITEMS,
};

fn approvals_overlay() -> ApprovalsOverlay {
    ApprovalsOverlay {
        thread_id: 1,
        approvals: vec![],
        all_approvals: vec![],
        selected: 0,
        remember: false,
        filter: ApprovalsFilter::All,
        subagent_pending_summary: None,
    }
}

fn thread(id: u128, linkage: bool, auto: bool, fanin: bool, pending: usize) -> ThreadMeta {
    ThreadMeta {
        thread_id: id,
        cwd: Some("/repo".to_string()),
        attention_state: "running".to_string(),
        has_plan_ready: false,
        has_diff_ready: false,
        has_fan_out_linkage_issue: linkage,
        has_fan_out_auto_apply_error: auto,
        has_fan_in_dependency_blocked: fanin,
        pending_subagent_proxy_approvals: pending,
        has_test_failed: false,
        created_at: None,
        updated_at: None,
        title: None,
        first_message: None,
    }
}

#[test]
fn toggle_overlay_command_palette_opens_with_context_status_and_closes() {
    let mut state = UiCore::new(false);
    state.overlays.push(Overlay::Approvals(approvals_overlay()));
    assert!(state.toggle_overlay_command_palette(0));
    match state.overlays.last().expect("palette opened") {
        Overlay::CommandPalette(view) => assert_eq!(view.title, "approvals"),
        _ => panic!("expected command palette overlay"),
    }
    assert_eq!(state.status.as_deref(), Some("overlay commands: approvals"));
    assert!(state.status_expires_at.is_some());

    assert!(state.toggle_overlay_command_palette(0));
    match state.overlays.last().expect("approvals remains") {
        Overlay::Approvals(_) => {}
        _ => panic!("expected approvals overlay after close"),
    }
}

#[test]
fn toggle_overlay_command_palette_ignores_non_overlay_types() {
    let mut state = UiCore::new(false);
    state.overlays.push(Overlay::Text(TextOverlay { title: "Help".to_string(), text: "body".to_string(), scroll: 0 }));
    assert!(!state.toggle_overlay_command_palette(0));
    match state.overlays.last().expect("text overlay") {
        Overlay::Text(view) => assert_eq!(view.title, "Help"),
        _ => panic!("expected text overlay"),
    }
    assert_eq!(state.status.as_deref(), Some("overlay commands unavailable"));
    assert!(state.status_expires_at.is_some());
    let mut empty = UiCore::new(false);
    assert!(!empty.toggle_overlay_command_palette(0));
    assert!(empty.status.is_none());
}

#[test]
fn temporary_status_expires_after_ttl() {
    let mut state = UiCore::new(false);
    state.set_temporary_status("overlay commands unavailable".to_string(), 0, 100);
    assert_eq!(state.status.as_deref(), Some("overlay commands unavailable"));
    assert!(state.expire_status_if_needed(100));
    assert!(state.status.is_none());
}

#[test]
fn regular_status_does_not_expire_without_ttl() {
    let mut state = UiCore::new(false);
    state.set_status("refreshed".to_string());
    assert_eq!(state.status.as_deref(), Some("refreshed"));
    assert!(!state.expire_status_if_needed(10_000));
    assert_eq!(state.status.as_deref(), Some("refreshed"));
}

#[test]
fn temporary_status_waits_for_its_time() {
    let mut state = UiCore::new(false);
    state.set_temporary_status("saved".to_string(), 2000, 1000);
    assert_eq!(state.status_expires_at, Some(3000));
    assert!(!state.expire_status_if_needed(2999));
    assert!(state.expire_status_if_needed(3000));
}

#[test]
fn errors_stay_and_reach_the_transcript() {
    let mut state = UiCore::new(false);
    state.set_temporary_status("refresh Error: boom".to_string(), 10, 0);
    assert_eq!(state.status_expires_at, None);
    assert!(state.transcript.is_empty());
    state.active_thread = Some(7);
    state.set_status("thread/start failed".to_string());
    assert_eq!(state.transcript.len(), 1);
    assert_eq!(state.transcript[0].role, TranscriptRole::Error);
    state.dismiss_non_error_status();
    assert_eq!(state.status.as_deref(), Some("thread/start failed"));
    state.set_status("ok".to_string());
    state.dismiss_non_error_status();
    assert!(state.status.is_none());
    assert!(is_error_message("Request TIMEOUT"));
    assert!(is_error_message("approval denied"));
    assert!(!is_error_message("all good"));
}

#[test]
fn transcript_keeps_the_latest_entries() {
    let mut state = UiCore::new(false);
    for i in 0..(MAX_TRANSCRIPT_ITEMS + 3) {
        state.push_transcript(TranscriptEntry { role: TranscriptRole::System, text: i.to_string() });
    }
    assert_eq!(state.transcript.len(), MAX_TRANSCRIPT_ITEMS);
    assert_eq!(state.transcript[0].text, "3");
    assert_eq!(state.transcript.last().unwrap().text, (MAX_TRANSCRIPT_ITEMS + 2).to_string());
}

#[test]
fn clear_thread_picker_filters_resets_all_attention_flags() {
    let mut state = UiCore::new(false);
    assert!(!state.clear_thread_picker_filters());
    state.only_fan_out_linkage_issue = true;
    state.only_fan_out_auto_apply_error = true;
    state.only_fan_in_dependency_blocked = true;
    state.only_subagent_proxy_approval = true;
    assert!(state.clear_thread_picker_filters());
    assert!(!state.only_fan_out_linkage_issue);
    assert!(!state.only_fan_out_auto_apply_error);
    assert!(!state.only_fan_in_dependency_blocked);
    assert!(!state.only_subagent_proxy_approval);
}

#[test]
fn apply_thread_picker_filters_can_focus_linkage_issue_threads() {
    let t1 = || thread(1, false, false, false, 0);
    let t2 = || thread(2, true, true, true, 2);
    let mut state = UiCore::new(false);
    assert_eq!(state.apply_thread_picker_filters(vec![t1(), t2()]).len(), 2);

    state.only_fan_out_linkage_issue = true;
    let linkage_only = state.apply_thread_picker_filters(vec![t1(), t2()]);
    assert_eq!(linkage_only.len(), 1);
    assert_eq!(linkage_only[0].thread_id, 2);

    state.only_fan_out_linkage_issue = false;
    state.only_fan_out_auto_apply_error = true;
    let auto_only = state.apply_thread_picker_filters(vec![t1(), t2()]);
    assert_eq!(auto_only.len(), 1);
    assert_eq!(auto_only[0].thread_id, 2);

    state.only_fan_out_linkage_issue = true;
    let both = state.apply_thread_picker_filters(vec![t1(), t2()]);
    assert_eq!(both.len(), 1);

    state.only_fan_out_linkage_issue = false;
    state.only_fan_out_auto_apply_error = false;
    state.only_fan_in_dependency_blocked = true;
    let fanin_only = state.apply_thread_picker_filters(vec![t1(), t2()]);
    assert_eq!(fanin_only.len(), 1);
    assert_eq!(fanin_only[0].thread_id, 2);

    state.only_fan_in_dependency_blocked = false;
    state.only_subagent_proxy_approval = true;
    let subagent_only = state.apply_thread_picker_filters(vec![t1(), t2()]);
    assert_eq!(subagent_only.len(), 1);
    assert_eq!(subagent_only[0].thread_id, 2);
}

#[test]
fn attention_badges() {
    let mut t = thread(1, false, false, false, 0);
    assert_eq!(attention_badge(&t), "run");
    t.attention_state = "interrupted".to_string();
    assert_eq!(attention_badge(&t), "intr");
    t.attention_state = "weird".to_string();
    assert_eq!(attention_badge(&t), "-");
    t.has_plan_ready = true;
    assert_eq!(attention_badge(&t), "plan");
    t.pending_subagent_proxy_approvals = 1500;
    assert_eq!(attention_badge(&t), "sub999+");
    t.pending_subagent_proxy_approvals = 12;
    assert_eq!(attention_badge(&t), "sub12");
    t.has_fan_out_auto_apply_error = true;
    assert_eq!(attention_badge(&t), "auto!");
}

#[test]
fn thinking_levels_cycle() {
    assert_eq!(next_thinking_level(None), "high");
    assert_eq!(next_thinking_level(Some(" SMALL ")), "medium");
    assert_eq!(next_thinking_level(Some("xhigh")), "small");
    assert_eq!(next_thinking_level(Some("bogus")), "high");
}

#[test]
fn text_overlay_scrolls_and_saturates() {
    let mut v = TextOverlay { title: "t".to_string(), text: "x".to_string(), scroll: 0 };
    handle_key_text_overlay(KeyCode::Up, &mut v);
    assert_eq!(v.scroll, 0);
    handle_key_text_overlay(KeyCode::PageDown, &mut v);
    assert_eq!(v.scroll, 10);
    handle_key_text_overlay(KeyCode::Down, &mut v);
    assert_eq!(v.scroll, 11);
    handle_key_text_overlay(KeyCode::PageUp, &mut v);
    assert_eq!(v.scroll, 1);
    v.scroll = u16::MAX - 3;
    handle_key_text_overlay(KeyCode::PageDown, &mut v);
    assert_eq!(v.scroll, u16::MAX);
}

#[test]
fn command_palette_toggles() {
    let mut state = UiCore::new(false);
    state.transcript_follow = false;
    state.toggle_command_palette();
    match state.overlays.last() {
        Some(Overlay::CommandPalette(p)) => assert_eq!(p.title, "commands"),
        _ => panic!("expected the root palette"),
    }
    assert!(state.transcript_follow);
    state.model_fetch_active = true;
    state.toggle_command_palette();
    assert!(state.overlays.is_empty());
    assert!(!state.model_fetch_active);
}

fn usage(total: u64) -> JsonValue {
    JsonValue::Object(vec![(
        "total_tokens".to_string(),
        JsonValue::Number(JsonNumber { text: total.to_string(), as_u64: Some(total), as_i64: Some(total as i64) }),
    )])
}

#[test]
fn token_usage_is_counted_once_per_response() {
    let mut state = UiCore::new(false);
    state.record_token_usage(Some("r1"), Some(&usage(10)), 5);
    state.record_token_usage(Some("r1"), Some(&usage(10)), 6);
    assert_eq!(state.total_tokens_used, 10);
    state.record_token_usage(Some("  "), Some(&usage(3)), 7);
    state.record_token_usage(None, Some(&usage(3)), 8);
    assert_eq!(state.total_tokens_used, 16);
    state.record_token_usage(Some("r2"), None, 9);
    assert_eq!(state.total_tokens_used, 16);
    state.skip_token_usage_before_seq = Some(20);
    state.record_token_usage(Some("r3"), Some(&usage(100)), 20);
    assert_eq!(state.total_tokens_used, 16);
    state.record_token_usage(Some("r3"), Some(&usage(100)), 21);
    assert_eq!(state.total_tokens_used, 116);
    assert_eq!(state.counted_usage_responses, vec!["r1".to_string(), "r3".to_string()]);
}
