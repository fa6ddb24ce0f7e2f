use std::collections::HashMap;

use omne_tui::approvals::{new_approvals_overlay, ApprovalItem, ApprovalsFilter};
use omne_tui::artifacts::{ArtifactMetadata, ArtifactVersions, ArtifactsOverlay};
use omne_tui::keys::KeyCode;
use omne_tui::labels::{ApprovalDecision, ProcessStatus};
use omne_tui::overlay_actions::{
    approval_decided_status, approvals_key_request, apply_approvals_reload, apply_process_list,
    artifact_list_step, artifact_read_step, artifact_versions_step, artifacts_key_request,
    process_inspect_step, process_signal_step, processes_key_request, ActionOutcome,
    ApprovalsRequest, ArtifactList, ArtifactsRequest, OverlayStep, ProcessesRequest,
};
use omne_tui::palettes::{build_approvals_overlay_palette, build_processes_overlay_palette};
use omne_tui::pending::PendingAction;
use omne_tui::processes::{
    build_process_details, build_process_inspect_text, handle_local_processes_key, select_process,
    ProcessInfo, ProcessInspectResponse, ProcessesLocalKeyResult, ProcessesOverlay,
};

const P1: u128 = 0x1;
const P2: u128 = 0x2;

fn process(id: u128) -> ProcessInfo {
    ProcessInfo {
        process_id: id,
        thread_id: 0xabc,
        turn_id: None,
        argv: vec!["sleep".to_string(), "1".to_string()],
        cwd: "/tmp".to_string(),
        started_at: "2026-01-01T00:00:00Z".to_string(),
        status: ProcessStatus::Running,
        exit_code: None,
        stdout_path: "/tmp/stdout.log".to_string(),
        stderr_path: "/tmp/stderr.log".to_string(),
        last_update_at: "2026-01-01T00:00:00Z".to_string(),
    }
}

fn overlay() -> ProcessesOverlay {
    ProcessesOverlay { thread_id: 0xabc, processes: vec![process(P1), process(P2)], selected: 0 }
}

#[test]
fn handle_local_processes_key_supports_selection_navigation() {
    let mut view = overlay();
    assert_eq!(handle_local_processes_key(&mut view, KeyCode::Down), ProcessesLocalKeyResult::Handled);
    assert_eq!(view.selected, 1);
    assert_eq!(handle_local_processes_key(&mut view, KeyCode::Down), ProcessesLocalKeyResult::Handled);
    assert_eq!(view.selected, 1);
    assert_eq!(handle_local_processes_key(&mut view, KeyCode::Up), ProcessesLocalKeyResult::Handled);
    assert_eq!(view.selected, 0);
    assert_eq!(handle_local_processes_key(&mut view, KeyCode::Up), ProcessesLocalKeyResult::Handled);
    assert_eq!(view.selected, 0);
    assert_eq!(
        handle_local_processes_key(&mut view, KeyCode::Char('r')),
        ProcessesLocalKeyResult::Unhandled
    );
}

#[test]
fn select_process_finds_the_current_process() {
    let items = vec![process(P1), process(P2)];
    assert_eq!(select_process(&items, Some(P2)), 1);
    assert_eq!(select_process(&items, Some(0x99)), 0);
    assert_eq!(select_process(&items, None), 0);
}

#[test]
fn process_details_list_the_fields() {
    let mut p = process(P1);
    p.exit_code = Some(-3);
    p.turn_id = Some(0x7);
    let text = build_process_details(&p);
    assert_eq!(
        text,
        "process_id: 00000000-0000-0000-0000-000000000001\n\
thread_id: 00000000-0000-0000-0000-000000000abc\n\
status: running\n\
turn_id: 00000000-0000-0000-0000-000000000007\n\
started_at: 2026-01-01T00:00:00Z\n\
last_update_at: 2026-01-01T00:00:00Z\n\
exit_code: -3\n\
cwd: /tmp\n\
argv: sleep 1\n\
stdout_path: /tmp/stdout.log\n\
stderr_path: /tmp/stderr.log\n"
    );
    let resp = ProcessInspectResponse { process: process(P1), stdout_tail: "out\n\n".to_string(), stderr_tail: "".to_string() };
    let inspect = build_process_inspect_text(&resp);
    assert!(inspect.starts_with(&build_process_details(&process(P1))));
    assert!(inspect.ends_with("\n# stdout\n\nout\n\n# stderr\n\n"));
}

#[test]
fn processes_overlay_palette_shows_process_actions() {
    let palette = build_processes_overlay_palette(&overlay());
    assert_eq!(palette.title, "processes");
    let labels = palette.items.iter().map(|i| i.label.clone()).collect::<Vec<_>>();
    assert_eq!(labels, vec!["back", "refresh (2)", "select-prev", "select-next", "inspect", "kill", "interrupt"]);
}

#[test]
fn processes_keys_ask_for_the_right_request() {
    let mut view = overlay();
    assert_eq!(processes_key_request(&mut view, KeyCode::Down), ProcessesRequest::Nothing);
    assert_eq!(view.selected, 1);
    assert_eq!(processes_key_request(&mut view, KeyCode::Char('r')), ProcessesRequest::Reload { current: Some(P2) });
    assert_eq!(
        processes_key_request(&mut view, KeyCode::Enter),
        ProcessesRequest::Inspect { process_id: P2, max_lines: 200 }
    );
    assert_eq!(processes_key_request(&mut view, KeyCode::Char('k')), ProcessesRequest::Kill { process_id: P2 });
    assert_eq!(processes_key_request(&mut view, KeyCode::Char('x')), ProcessesRequest::Interrupt { process_id: P2 });
    assert_eq!(processes_key_request(&mut view, KeyCode::Char('z')), ProcessesRequest::Nothing);
    let mut empty = ProcessesOverlay { thread_id: 1, processes: vec![], selected: 0 };
    assert_eq!(processes_key_request(&mut empty, KeyCode::Char('k')), ProcessesRequest::Nothing);
    assert_eq!(processes_key_request(&mut empty, KeyCode::Char('r')), ProcessesRequest::Reload { current: None });
}

#[test]
fn process_answers_lead_to_the_next_step() {
    match process_inspect_step(P1, 200, ActionOutcome::NeedsApproval { thread_id: 5, approval_id: 6 }) {
        OverlayStep::AskApproval { thread_id, approval_id, status, pending } => {
            assert_eq!((thread_id, approval_id), (5, 6));
            assert_eq!(status, "process/inspect needs approval: 00000000-0000-0000-0000-000000000006");
            assert_eq!(pending, PendingAction::ProcessInspect { thread_id: 5, process_id: P1, max_lines: 200, approval_id: 6 });
        }
        other => panic!("unexpected {other:?}"),
    }
    match process_signal_step(true, P1, ActionOutcome::Denied { summary: "policy".to_string() }) {
        OverlayStep::Stay(Some(s)) => assert_eq!(s, "process/kill denied: policy"),
        other => panic!("unexpected {other:?}"),
    }
    match process_signal_step(false, P2, ActionOutcome::Succeeded(())) {
        OverlayStep::ReloadProcesses { status, keep } => {
            assert_eq!(status, "interrupt requested: 00000000-0000-0000-0000-000000000002");
            assert_eq!(keep, P2);
        }
        other => panic!("unexpected {other:?}"),
    }
    let resp = ProcessInspectResponse { process: process(P1), stdout_tail: "o".to_string(), stderr_tail: "e".to_string() };
    match process_inspect_step(P1, 200, ActionOutcome::Succeeded(resp)) {
        OverlayStep::ShowText { title, text } => {
            assert_eq!(title, "Process 00000000-0000-0000-0000-000000000001");
            assert!(text.ends_with("# stdout\n\no\n\n# stderr\n\ne"));
        }
        other => panic!("unexpected {other:?}"),
    }
    let mut view = overlay();
    view.selected = 1;
    apply_process_list(&mut view, vec![process(P2), process(P1)], Some(P1));
    assert_eq!(view.selected, 1);
    apply_process_list(&mut view, vec![process(P2)], Some(P1));
    assert_eq!(view.selected, 0);
}

fn meta(id: u128, version: u32) -> ArtifactMetadata {
    ArtifactMetadata {
        artifact_id: id,
        artifact_type: "report".to_string(),
        summary: "s".to_string(),
        version,
        size_bytes: 1,
        updated_at_unix: 0,
        content_path: "/p".to_string(),
    }
}

fn artifacts(list: Vec<ArtifactMetadata>) -> ArtifactsOverlay {
    ArtifactsOverlay {
        thread_id: 9,
        artifacts: list,
        selected: 0,
        versions_for: None,
        versions: vec![],
        selected_version: 0,
        version_cache: HashMap::new(),
        selected_version_cache: HashMap::new(),
    }
}

#[test]
fn artifact_keys_ask_for_the_right_request() {
    let mut view = artifacts(vec![meta(1, 3), meta(2, 1)]);
    match artifacts_key_request(&mut view, KeyCode::Char('r')) {
        ArtifactsRequest::List { current } => assert_eq!(current, Some(1)),
        other => panic!("unexpected {other:?}"),
    }
    match artifacts_key_request(&mut view, KeyCode::Char('v')) {
        ArtifactsRequest::Versions { artifact_id, latest_version, force_reload } => {
            assert_eq!((artifact_id, latest_version, force_reload), (1, 3, false));
        }
        other => panic!("unexpected {other:?}"),
    }
    match artifacts_key_request(&mut view, KeyCode::Enter) {
        ArtifactsRequest::Read { artifact_id, version, max_bytes } => {
            assert_eq!((artifact_id, version, max_bytes), (1, None, 262144));
        }
        other => panic!("unexpected {other:?}"),
    }
    // Once the versions are cached, `v` shows them without asking.
    view.version_cache.insert(1, vec![3, 2, 1]);
    match artifacts_key_request(&mut view, KeyCode::Char('v')) {
        ArtifactsRequest::Done(Some(s)) => assert_eq!(s, "artifact versions cached: 3 (latest=3, selected=3)"),
        other => panic!("unexpected {other:?}"),
    }
    match artifacts_key_request(&mut view, KeyCode::Char('R')) {
        ArtifactsRequest::Versions { force_reload, .. } => assert!(force_reload),
        other => panic!("unexpected {other:?}"),
    }
    match artifacts_key_request(&mut view, KeyCode::Char('[')) {
        ArtifactsRequest::Done(None) => assert_eq!(view.selected_version, 1),
        other => panic!("unexpected {other:?}"),
    }
    match artifacts_key_request(&mut view, KeyCode::Char('i')) {
        ArtifactsRequest::Read { version, .. } => assert_eq!(version, Some(2)),
        other => panic!("unexpected {other:?}"),
    }
}

#[test]
fn artifact_answers_lead_to_the_next_step() {
    let mut view = artifacts(vec![meta(1, 3), meta(2, 1)]);
    view.version_cache.insert(2, vec![1]);
    view.version_cache.insert(7, vec![4]);
    view.selected_version_cache.insert(7, 0);
    let step = artifact_list_step(
        &mut view,
        Some(2),
        ActionOutcome::Succeeded(ArtifactList { artifacts: vec![meta(2, 1), meta(3, 1)], error_count: 2 }),
    );
    match step {
        OverlayStep::Stay(Some(s)) => assert_eq!(s, "artifact/list errors: 2"),
        other => panic!("unexpected {other:?}"),
    }
    assert_eq!(view.selected, 0);
    assert!(!view.version_cache.contains_key(&7));
    assert!(!view.selected_version_cache.contains_key(&7));
    assert_eq!(view.versions_for, Some(2));
    assert_eq!(view.versions, vec![1]);

    let m = meta(3, 2);
    let step = artifact_versions_step(
        &mut view,
        &m,
        true,
        ActionOutcome::Succeeded(ArtifactVersions { latest_version: 2, versions: vec![2, 1] }),
    );
    match step {
        OverlayStep::Stay(Some(s)) => assert_eq!(s, "artifact versions reloaded: 2 (latest=2, selected=2)"),
        other => panic!("unexpected {other:?}"),
    }
    match artifact_read_step(3, Some(1), 10, ActionOutcome::NeedsApproval { thread_id: 4, approval_id: 5 }) {
        OverlayStep::AskApproval { pending, status, .. } => {
            assert_eq!(pending, PendingAction::ArtifactRead { thread_id: 4, artifact_id: 3, max_bytes: 10, version: Some(1), approval_id: 5 });
            assert_eq!(status, "artifact/read needs approval: 00000000-0000-0000-0000-000000000005");
        }
        other => panic!("unexpected {other:?}"),
    }
    assert!(matches!(artifact_read_step(3, None, 10, ActionOutcome::Succeeded(())), OverlayStep::ShowArtifactRead));
    let mut view2 = artifacts(vec![meta(1, 1)]);
    match artifact_list_step(&mut view2, None, ActionOutcome::Denied { summary: "no".to_string() }) {
        OverlayStep::Stay(Some(s)) => assert_eq!(s, "artifact/list denied: no"),
        other => panic!("unexpected {other:?}"),
    }
    assert_eq!(view2.artifacts.len(), 1);
}

fn approval(id: u128, state: &str, decided: bool) -> ApprovalItem {
    ApprovalItem {
        approval_id: id,
        requested_at: "2026-01-01T00:00:00Z".to_string(),
        action: "subagent/proxy_approval".to_string(),
        subagent_proxy_action_id: true,
        child_attention_state: Some(state.to_string()),
        decided,
    }
}

#[test]
fn approvals_keys_ask_for_the_right_request() {
    let mut view = new_approvals_overlay(1, vec![approval(10, "running", false), approval(11, "failed", true)], 0, None);
    match approvals_key_request(&mut view, KeyCode::Char('y')) {
        ApprovalsRequest::Decide { approval_id, decision, remember } => {
            assert_eq!((approval_id, decision, remember), (10, ApprovalDecision::Approved, false));
        }
        other => panic!("unexpected {other:?}"),
    }
    assert!(matches!(approvals_key_request(&mut view, KeyCode::Char('m')), ApprovalsRequest::Done(Some(_))));
    match approvals_key_request(&mut view, KeyCode::Char('n')) {
        ApprovalsRequest::Decide { decision, remember, .. } => {
            assert_eq!(decision, ApprovalDecision::Denied);
            assert!(remember);
        }
        other => panic!("unexpected {other:?}"),
    }
    assert!(matches!(approvals_key_request(&mut view, KeyCode::Down), ApprovalsRequest::Done(None)));
    // A decided approval is not decided again.
    assert!(matches!(approvals_key_request(&mut view, KeyCode::Char('y')), ApprovalsRequest::Done(None)));
    assert!(matches!(approvals_key_request(&mut view, KeyCode::Enter), ApprovalsRequest::Details { index: 1 }));
    assert!(matches!(approvals_key_request(&mut view, KeyCode::Char('r')), ApprovalsRequest::Reload { current: Some(11) }));
    assert_eq!(
        approval_decided_status(10, ApprovalDecision::Approved),
        "approval decided: 00000000-0000-0000-0000-00000000000a approved"
    );
    view.filter = ApprovalsFilter::FailedSubagent;
    apply_approvals_reload(&mut view, vec![approval(12, "failed", false), approval(11, "failed", false)], Some(11));
    assert_eq!(view.approvals.len(), 2);
    assert_eq!(view.selected, 1);
}

#[test]
fn approvals_overlay_palette_shows_filter_and_failed_navigation_actions() {
    let mut view = new_approvals_overlay(1, vec![approval(10, "running", false), approval(11, "failed", false)], 0, None);
    view.filter = ApprovalsFilter::FailedSubagent;
    view.approvals = vec![approval(11, "failed", false)];
    let palette = build_approvals_overlay_palette(&view);
    assert_eq!(palette.title, "approvals");
    let labels = palette.items.iter().map(|i| i.label.clone()).collect::<Vec<_>>();
    for wanted in ["back", "refresh", "filter=failed (1/2)", "next-failed", "prev-failed", "approve", "deny", "remember=off", "details"] {
        assert!(labels.iter().any(|l| l == wanted), "missing {wanted}");
    }
}
