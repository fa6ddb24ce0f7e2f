use omne_tui::json::JsonValue;
use omne_tui::keys::{KeyCode, KeyInput};
use omne_tui::pending_summary::PendingApproval;
use omne_tui::render::{TranscriptEntry, TranscriptRole};
use omne_tui::threads::{extract_openai_provider, HeaderConfig, ThreadStateInfo, ThreadsKeyFollowUp};
use omne_tui::ui_state::{ThreadMeta, UiCore};

fn thread(id: u128, linkage: bool, pending: usize) -> ThreadMeta {
    ThreadMeta {
        thread_id: id,
        cwd: None,
        attention_state: "running".to_string(),
        has_plan_ready: false,
        has_diff_ready: false,
        has_fan_out_linkage_issue: linkage,
        has_fan_out_auto_apply_error: false,
        has_fan_in_dependency_blocked: false,
        pending_subagent_proxy_approvals: pending,
        has_test_failed: false,
        created_at: None,
        updated_at: None,
        title: None,
        first_message: None,
    }
}

fn key(code: KeyCode) -> KeyInput {
    KeyInput::plain(code)
}

fn ids(s: &UiCore) -> Vec<u128> {
    s.threads.iter().map(|t| t.thread_id).collect()
}

fn status_of(f: ThreadsKeyFollowUp) -> Option<String> {
    match f {
        ThreadsKeyFollowUp::RefreshThreads { then_status } => then_status,
        _ => panic!("expected a refresh"),
    }
}

fn obj(entries: Vec<(&str, JsonValue)>) -> JsonValue {
    JsonValue::Object(entries.into_iter().map(|(k, v)| (k.to_string(), v)).collect())
}

#[test]
fn thread_list_is_filtered_and_selection_kept_in_range() {
    let mut s = UiCore::new(false);
    s.selected_thread = 5;
    s.apply_thread_list(vec![thread(1, false, 0), thread(2, true, 0), thread(3, true, 1)]);
    assert_eq!(ids(&s), vec![1, 2, 3]);
    assert_eq!(s.selected_thread, 2);
    s.only_fan_out_linkage_issue = true;
    s.apply_thread_list(vec![thread(1, false, 0), thread(2, true, 0), thread(3, true, 1)]);
    assert_eq!(ids(&s), vec![2, 3]);
    assert_eq!(s.selected_thread, 1);
    s.apply_thread_list(vec![]);
    assert_eq!(s.selected_thread, 0);
}

#[test]
fn picker_keys_toggle_filters_and_ask_for_a_refresh() {
    let mut s = UiCore::new(false);
    assert_eq!(status_of(s.handle_threads_key(key(KeyCode::Char('h')))).as_deref(), Some("thread list: include_archived=on"));
    assert!(s.include_archived);
    assert_eq!(
        status_of(s.handle_threads_key(key(KeyCode::Char('l')))).as_deref(),
        Some("thread filter: fan_out_linkage_issue=on")
    );
    assert_eq!(
        status_of(s.handle_threads_key(key(KeyCode::Char('a')))).as_deref(),
        Some("thread filter: fan_out_auto_apply_error=on")
    );
    assert_eq!(
        status_of(s.handle_threads_key(key(KeyCode::Char('b')))).as_deref(),
        Some("thread filter: fan_in_dependency_blocked=on")
    );
    assert_eq!(
        status_of(s.handle_threads_key(key(KeyCode::Char('s')))).as_deref(),
        Some("thread filter: subagent_proxy_approval=on")
    );
    assert_eq!(
        status_of(s.handle_threads_key(key(KeyCode::Char('s')))).as_deref(),
        Some("thread filter: subagent_proxy_approval=off")
    );
    assert_eq!(status_of(s.handle_threads_key(key(KeyCode::Char('c')))).as_deref(), Some("thread filters cleared"));
    assert!(!s.only_fan_out_linkage_issue && !s.only_fan_out_auto_apply_error && !s.only_fan_in_dependency_blocked);
    assert!(s.include_archived);
    assert_eq!(status_of(s.handle_threads_key(key(KeyCode::Char('c')))).as_deref(), Some("thread filters already clear"));
    assert_eq!(status_of(s.handle_threads_key(key(KeyCode::Char('r')))), None);
}

#[test]
fn picker_keys_move_open_start_and_quit() {
    let mut s = UiCore::new(false);
    assert!(matches!(s.handle_threads_key(key(KeyCode::Enter)), ThreadsKeyFollowUp::Nothing));
    assert!(matches!(s.handle_threads_key(key(KeyCode::Down)), ThreadsKeyFollowUp::Nothing));
    assert_eq!(s.selected_thread, 0);
    s.apply_thread_list(vec![thread(10, false, 0), thread(11, false, 0)]);
    s.handle_threads_key(key(KeyCode::Down));
    s.handle_threads_key(key(KeyCode::Down));
    assert_eq!(s.selected_thread, 1);
    assert!(matches!(s.handle_threads_key(key(KeyCode::Enter)), ThreadsKeyFollowUp::OpenThread(11)));
    s.handle_threads_key(key(KeyCode::Up));
    s.handle_threads_key(key(KeyCode::Up));
    assert_eq!(s.selected_thread, 0);
    assert!(matches!(s.handle_threads_key(key(KeyCode::Char('n'))), ThreadsKeyFollowUp::StartThread));
    assert!(matches!(s.handle_threads_key(key(KeyCode::Char('q'))), ThreadsKeyFollowUp::Quit));
    assert!(matches!(s.handle_threads_key(key(KeyCode::Esc)), ThreadsKeyFollowUp::Quit));
    assert!(matches!(s.handle_threads_key(key(KeyCode::Char('x'))), ThreadsKeyFollowUp::Nothing));
}

#[test]
fn opening_a_thread_starts_its_view_afresh() {
    let mut s = UiCore::new(false);
    s.transcript.push(TranscriptEntry { role: TranscriptRole::User, text: "old".to_string() });
    s.total_tokens_used = 50;
    s.input = "draft".to_string();
    s.model_fetch_active = true;
    s.turn_start_pending = true;
    s.activate_thread(9, 2500);
    assert_eq!(s.active_thread, Some(9));
    assert_eq!(s.last_seq, 500);
    assert!(s.transcript.is_empty());
    assert_eq!(s.total_tokens_used, 0);
    assert!(!s.model_fetch_active && !s.turn_start_pending);
    assert!(s.header_needs_refresh && s.subagent_pending_summary_needs_refresh);
    assert_eq!(s.input, "draft");
    s.activate_thread(9, 10);
    assert_eq!(s.last_seq, 0);
    s.apply_opened_thread_state(ThreadStateInfo { cwd: Some("  /repo ".to_string()), total_tokens_used: 7 }, 10);
    assert_eq!(s.thread_cwd.as_deref(), Some("/repo"));
    assert_eq!(s.total_tokens_used, 7);
    assert_eq!(s.skip_token_usage_before_seq, Some(10));
    s.finish_open_thread(None);
    assert!(!s.header_needs_refresh);
    assert!(s.subagent_pending_summary_needs_refresh);
    s.finish_open_thread(Some("boom".to_string()));
    assert_eq!(s.status.as_deref(), Some("header refresh error: boom"));
}

#[test]
fn returning_to_the_picker_clears_the_thread() {
    let mut s = UiCore::new(false);
    s.activate_thread(3, 0);
    s.input = "x".to_string();
    s.thread_cwd = Some("/w".to_string());
    s.transcript.push(TranscriptEntry { role: TranscriptRole::User, text: "kept".to_string() });
    s.return_to_thread_picker();
    assert_eq!(s.active_thread, None);
    assert_eq!(s.input, "");
    assert_eq!(s.thread_cwd, None);
    assert!(!s.header_needs_refresh);
    assert_eq!(s.transcript.len(), 1);
}

#[test]
fn header_takes_trimmed_values_and_the_last_provider() {
    let mut s = UiCore::new(false);
    let config = HeaderConfig {
        mode: " code ".to_string(),
        role: "   ".to_string(),
        model: "gpt".to_string(),
        thinking: "high".to_string(),
        layers: vec![
            obj(vec![("openai_provider", JsonValue::String("first".to_string()))]),
            obj(vec![("openai_provider", JsonValue::String(" second ".to_string()))]),
            obj(vec![("openai_provider", JsonValue::String("  ".to_string()))]),
            JsonValue::Null,
        ],
        allowed_tools_count: Some(3),
        execpolicy_rules_count: 2,
    };
    s.apply_header_config(config, Some(ThreadStateInfo { cwd: None, total_tokens_used: 4 }));
    assert_eq!(s.header.mode.as_deref(), Some("code"));
    assert_eq!(s.header.role, None);
    assert_eq!(s.header.model.as_deref(), Some("gpt"));
    assert_eq!(s.header.provider.as_deref(), Some("second"));
    assert_eq!(s.header.allowed_tools_count, Some(3));
    assert_eq!(s.header.execpolicy_rules_count, 2);
    assert_eq!(s.total_tokens_used, 4);
    assert_eq!(extract_openai_provider(&[]), None);
}

#[test]
fn tick_plans_the_stale_fetches() {
    let mut s = UiCore::new(false);
    s.set_temporary_status("hello".to_string(), 100, 50);
    let plan = s.plan_tick(120, true);
    assert!(!plan.status_expired);
    assert!(plan.refresh_threads);
    assert_eq!(plan.refresh_header, None);
    let plan = s.plan_tick(150, false);
    assert!(plan.status_expired);
    assert!(s.status.is_none());
    assert!(!plan.refresh_threads);
    s.activate_thread(4, 0);
    let plan = s.plan_tick(200, true);
    assert_eq!(plan.refresh_header, Some(4));
    assert_eq!(plan.refresh_subagent_summary, Some(4));
    assert!(!plan.refresh_threads);
    s.apply_subagent_attention(&[PendingApproval {
        approval_id: 1,
        subagent_proxy_action_id: true,
        action: None,
        child_attention_state: Some("running".to_string()),
    }]);
    assert!(!s.subagent_pending_summary_needs_refresh);
    assert_eq!(s.subagent_pending_summary.as_ref().unwrap().total, 1);
}

#[test]
fn command_trigger_is_put_after_a_space() {
    let mut s = UiCore::new(false);
    s.insert_command_trigger();
    assert_eq!(s.input, "/");
    s.input = "hello".to_string();
    s.insert_command_trigger();
    assert_eq!(s.input, "hello /");
    s.input = "hi ".to_string();
    s.transcript_follow = false;
    s.insert_command_trigger();
    assert_eq!(s.input, "hi /");
    assert!(s.transcript_follow);
}
