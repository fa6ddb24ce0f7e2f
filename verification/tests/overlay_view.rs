use omne_tui::approvals::{ApprovalItem, ApprovalsFilter, ApprovalsOverlay, SubagentPendingSummary};
use omne_tui::artifacts::ArtifactMetadata;
use omne_tui::labels::ProcessStatus;
use omne_tui::overlay_view::{approvals_overlay_title, artifact_row_text, process_row_text};
use omne_tui::processes::ProcessInfo;

fn proxy_approval(state: Option<&str>) -> ApprovalItem {
    ApprovalItem {
        approval_id: 7,
        requested_at: "2026-01-01T00:00:00Z".to_string(),
        action: "subagent/proxy_approval".to_string(),
        subagent_proxy_action_id: true,
        child_attention_state: state.map(|s| s.to_string()),
        decided: false,
    }
}

fn overlay(
    approval: ApprovalItem,
    filter: ApprovalsFilter,
    summary: Option<SubagentPendingSummary>,
) -> ApprovalsOverlay {
    ApprovalsOverlay {
        thread_id: 1,
        approvals: vec![approval.clone()],
        all_approvals: vec![approval],
        selected: 0,
        remember: false,
        filter,
        subagent_pending_summary: summary,
    }
}

#[test]
fn approvals_overlay_title_includes_subagent_pending_summary() {
    let summary = SubagentPendingSummary {
        total: 3,
        states: vec![("failed".to_string(), 1), ("running".to_string(), 2)],
    };
    let actual = approvals_overlay_title(&overlay(proxy_approval(None), ApprovalsFilter::All, Some(summary)));
    assert!(actual.contains("sub=3("));
    assert!(actual.contains("running:2"));
    assert!(actual.contains("failed:1"));
}

#[test]
fn approvals_overlay_title_includes_failed_count() {
    let actual =
        approvals_overlay_title(&overlay(proxy_approval(Some("failed")), ApprovalsFilter::All, None));
    assert!(actual.contains("failed=1"));
}

#[test]
fn approvals_overlay_title_includes_filter_label() {
    let actual = approvals_overlay_title(&overlay(
        proxy_approval(Some("failed")),
        ApprovalsFilter::FailedSubagent,
        None,
    ));
    assert!(actual.contains("filter=failed"));
}

#[test]
fn approvals_overlay_title_exact_text() {
    let mut view = overlay(proxy_approval(Some("running")), ApprovalsFilter::RunningSubagent, None);
    view.remember = true;
    assert_eq!(
        approvals_overlay_title(&view),
        "Approvals (↑↓ select t=filter f/F=next/prev-failed y=approve n=deny m=remember r=refresh Esc=close) remember=true filter=running"
    );
}

#[test]
fn process_and_artifact_rows() {
    let p = ProcessInfo {
        process_id: 1,
        thread_id: 2,
        turn_id: None,
        argv: vec!["sleep".to_string(), "1".to_string()],
        cwd: "/tmp".to_string(),
        started_at: "s".to_string(),
        status: ProcessStatus::Running,
        exit_code: None,
        stdout_path: "o".to_string(),
        stderr_path: "e".to_string(),
        last_update_at: "u".to_string(),
    };
    assert_eq!(process_row_text(&p), "[running] 00000000-0000-0000-0000-000000000001 sleep");
    let no_argv = ProcessInfo { argv: Vec::new(), ..p };
    assert_eq!(process_row_text(&no_argv), "[running] 00000000-0000-0000-0000-000000000001 ");

    let meta = ArtifactMetadata {
        artifact_id: 0xab,
        artifact_type: " note ".to_string(),
        summary: "  hello ".to_string(),
        version: 1,
        size_bytes: 3,
        updated_at_unix: 0,
        content_path: "/x".to_string(),
    };
    assert_eq!(artifact_row_text(&meta), "[note] 00000000-0000-0000-0000-0000000000ab hello");
}
