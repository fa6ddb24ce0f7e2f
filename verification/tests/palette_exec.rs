use omne_tui::approvals::{ApprovalItem, ApprovalsFilter, ApprovalsOverlay};
use omne_tui::keys::KeyCode;
use omne_tui::palette::{CliApprovalPolicy, PaletteCommand};
use omne_tui::palette_exec::{ConfigChange, PaletteFollowUp};
use omne_tui::ui_state::{Overlay, UiCore};

fn with_root_palette() -> UiCore {
    let mut state = UiCore::new(false);
    state.toggle_command_palette();
    state
}

fn top_title(state: &UiCore) -> String {
    match state.overlays.last() {
        Some(Overlay::CommandPalette(p)) => p.title.clone(),
        Some(Overlay::Text(t)) => t.title.clone(),
        _ => String::new(),
    }
}

#[test]
fn quit_and_close() {
    let mut state = with_root_palette();
    assert!(matches!(state.begin_palette_command(PaletteCommand::Quit), PaletteFollowUp::Quit));
    assert_eq!(state.overlays.len(), 1);
    assert!(matches!(state.begin_palette_command(PaletteCommand::ClosePalette), PaletteFollowUp::Nothing));
    assert!(state.overlays.is_empty());
}

#[test]
fn help_replaces_the_palette_with_the_help_text() {
    let mut state = with_root_palette();
    state.begin_palette_command(PaletteCommand::Help);
    assert_eq!(state.overlays.len(), 1);
    assert_eq!(top_title(&state), "Help");
    match state.overlays.last() {
        Some(Overlay::Text(t)) => {
            assert!(t.text.starts_with("keys:"));
            assert_eq!(t.scroll, 0);
        }
        _ => panic!("expected the help text"),
    }
}

#[test]
fn filter_toggle_refreshes_and_reports() {
    let mut state = with_root_palette();
    match state.begin_palette_command(PaletteCommand::ToggleLinkageFilter) {
        PaletteFollowUp::RefreshThreads { success_status, rebuild_palette } => {
            assert_eq!(success_status, "thread filter: fan_out_linkage_issue=on");
            assert!(rebuild_palette);
            assert!(state.only_fan_out_linkage_issue);
            state.finish_thread_refresh(success_status, rebuild_palette, None);
        }
        _ => panic!("expected a refresh"),
    }
    assert_eq!(state.status.as_deref(), Some("thread filter: fan_out_linkage_issue=on"));
    assert_eq!(state.overlays.len(), 1);
    assert_eq!(top_title(&state), "commands");

    match state.begin_palette_command(PaletteCommand::ClearThreadFilters) {
        PaletteFollowUp::RefreshThreads { success_status, .. } => {
            assert_eq!(success_status, "thread filters cleared");
        }
        _ => panic!("expected a refresh"),
    }
    match state.begin_palette_command(PaletteCommand::ClearThreadFilters) {
        PaletteFollowUp::RefreshThreads { success_status, .. } => {
            assert_eq!(success_status, "thread filters already clear");
        }
        _ => panic!("expected a refresh"),
    }
    match state.begin_palette_command(PaletteCommand::ToggleIncludeArchived) {
        PaletteFollowUp::RefreshThreads { success_status, .. } => {
            assert_eq!(success_status, "thread list: include_archived=on");
        }
        _ => panic!("expected a refresh"),
    }
}

#[test]
fn failed_refresh_is_reported_as_an_error() {
    let mut state = with_root_palette();
    state.active_thread = Some(7);
    state.finish_thread_refresh("refreshed".to_string(), false, Some("boom".to_string()));
    assert_eq!(state.status.as_deref(), Some("refresh error: boom"));
    assert_eq!(state.status_expires_at, None);
    assert_eq!(state.transcript.last().map(|e| e.text.as_str()), Some("refresh error: boom"));
}

#[test]
fn thread_commands_need_an_open_thread() {
    let mut state = with_root_palette();
    assert!(matches!(
        state.begin_palette_command(PaletteCommand::SetMode("plan".to_string())),
        PaletteFollowUp::Nothing
    ));
    assert_eq!(state.status.as_deref(), Some("no active thread"));
    assert_eq!(state.overlays.len(), 1);
}

#[test]
fn configuration_changes_close_the_palette_and_report() {
    let mut state = with_root_palette();
    state.active_thread = Some(7);
    match state.begin_palette_command(PaletteCommand::SetMode("plan".to_string())) {
        PaletteFollowUp::Configure(7, change) => {
            assert!(state.overlays.is_empty());
            assert!(state.finish_thread_configure(&change, None));
            assert_eq!(state.status.as_deref(), Some("mode=plan"));
            assert!(!state.finish_thread_configure(&change, Some("nope".to_string())));
            assert_eq!(state.status.as_deref(), Some("set mode error: nope"));
        }
        _ => panic!("expected a configuration change"),
    }
    let policy = ConfigChange::ApprovalPolicy(CliApprovalPolicy::OnRequest);
    assert!(!state.finish_thread_configure(&policy, None));
    assert_eq!(state.status.as_deref(), Some("approval_policy=on_request"));
    assert!(!state.header_needs_refresh);
    let tools = ConfigChange::AllowedTools("fs/read".to_string());
    assert!(!state.finish_thread_configure(&tools, None));
    assert_eq!(state.status.as_deref(), Some("allowed_tools=[fs/read]"));
    assert!(state.header_needs_refresh);
}

#[test]
fn model_palette_loads_once() {
    let mut state = with_root_palette();
    state.active_thread = Some(7);
    assert!(matches!(state.begin_palette_command(PaletteCommand::PickModel), PaletteFollowUp::FetchModels(7)));
    assert!(state.model_fetch_active);
    assert_eq!(state.status.as_deref(), Some("loading models..."));
    assert_eq!(top_title(&state), "model");
    assert!(matches!(state.begin_palette_command(PaletteCommand::PickModel), PaletteFollowUp::Nothing));
    assert_eq!(state.status.as_deref(), Some("model list already loading"));
}

#[test]
fn mode_palette_lists_the_modes() {
    let mut state = with_root_palette();
    state.active_thread = Some(7);
    assert!(matches!(state.begin_palette_command(PaletteCommand::PickMode), PaletteFollowUp::ExplainConfig(7)));
    state.show_mode_palette(vec!["plan".to_string(), "code".to_string()]);
    assert_eq!(state.overlays.len(), 1);
    assert_eq!(top_title(&state), "mode");
}

#[test]
fn input_commands_hand_back_the_text() {
    let mut state = with_root_palette();
    match state.begin_palette_command(PaletteCommand::PickAllowedTools) {
        PaletteFollowUp::EditInput(text) => assert_eq!(text, "/allowed-tools "),
        _ => panic!("expected an input edit"),
    }
    assert!(state.overlays.is_empty());
}

#[test]
fn overlay_commands_go_to_the_overlay_under_the_palette() {
    let item = |id: u128| ApprovalItem {
        approval_id: id,
        requested_at: "2026-01-01T00:00:00Z".to_string(),
        action: "process/start".to_string(),
        subagent_proxy_action_id: false,
        child_attention_state: None,
        decided: false,
    };
    let mut state = UiCore::new(false);
    state.overlays.push(Overlay::Approvals(ApprovalsOverlay {
        thread_id: 1,
        approvals: vec![item(1), item(2)],
        all_approvals: vec![item(1), item(2)],
        selected: 0,
        remember: false,
        filter: ApprovalsFilter::All,
        subagent_pending_summary: None,
    }));
    assert!(state.toggle_overlay_command_palette(0));
    assert!(matches!(state.begin_palette_command(PaletteCommand::ApprovalsSelectNext), PaletteFollowUp::Nothing));
    match state.overlays.last() {
        Some(Overlay::Approvals(v)) => assert_eq!(v.selected, 1),
        _ => panic!("expected the approvals overlay"),
    }
    match state.begin_palette_command(PaletteCommand::ApprovalsApprove) {
        PaletteFollowUp::ForwardKey(key) => assert_eq!(key.code, KeyCode::Char('y')),
        _ => panic!("expected the key to be forwarded"),
    }
}

#[test]
fn step_errors_are_reported() {
    let mut state = UiCore::new(false);
    state.report_step_error("thread/start", "offline");
    assert_eq!(state.status.as_deref(), Some("thread/start error: offline"));
}
