use std::collections::HashMap;

use omne_tui::artifacts::{ArtifactMetadata, ArtifactVersions, ArtifactsOverlay};
use omne_tui::labels::ProcessStatus;
use omne_tui::overlay_actions::{ActionOutcome, ArtifactList};
use omne_tui::pending::PendingAction;
use omne_tui::pending_flow::{PendingAnswer, PendingFollowUp};
use omne_tui::processes::{ProcessInfo, ProcessInspectResponse, ProcessesOverlay};
use omne_tui::ui_state::{Overlay, UiCore};

fn process(id: u128) -> ProcessInfo {
    ProcessInfo {
        process_id: id,
        thread_id: 1,
        turn_id: None,
        argv: vec!["sleep".to_string()],
        cwd: "/tmp".to_string(),
        started_at: "s".to_string(),
        status: ProcessStatus::Running,
        exit_code: None,
        stdout_path: "o".to_string(),
        stderr_path: "e".to_string(),
        last_update_at: "u".to_string(),
    }
}

fn meta(id: u128, version: u32) -> ArtifactMetadata {
    ArtifactMetadata {
        artifact_id: id,
        artifact_type: "report".to_string(),
        summary: "s".to_string(),
        version,
        size_bytes: 1,
        updated_at_unix: 0,
        content_path: "/p".to_string(),
    }
}

fn artifacts_overlay(thread_id: u128, list: Vec<ArtifactMetadata>) -> ArtifactsOverlay {
    ArtifactsOverlay {
        thread_id,
        artifacts: list,
        selected: 0,
        versions_for: None,
        versions: vec![],
        selected_version: 0,
        version_cache: HashMap::new(),
        selected_version_cache: HashMap::new(),
    }
}

#[test]
fn a_refused_action_waits_again() {
    let mut state = UiCore::new(false);
    state.pending_action = Some(PendingAction::ProcessKill { thread_id: 1, process_id: 2, approval_id: 3 });
    let action = state.take_pending_action().expect("pending");
    assert!(state.pending_action.is_none());
    let f = state.finish_pending_action(action, ActionOutcome::NeedsApproval { thread_id: 1, approval_id: 4 });
    assert!(matches!(f, PendingFollowUp::Nothing));
    assert!(matches!(
        state.pending_action,
        Some(PendingAction::ProcessKill { thread_id: 1, process_id: 2, approval_id: 4 })
    ));
    assert_eq!(state.status.as_deref(), Some("process/kill still needs approval"));
}

#[test]
fn a_denied_action_is_reported() {
    let mut state = UiCore::new(false);
    let action = PendingAction::ArtifactRead { thread_id: 1, artifact_id: 2, max_bytes: 10, version: None, approval_id: 3 };
    state.finish_pending_action(action, ActionOutcome::Denied { summary: "nope".to_string() });
    assert_eq!(state.status.as_deref(), Some("artifact/read denied: nope"));
    assert!(state.pending_action.is_none());
}

#[test]
fn an_inspection_is_shown() {
    let mut state = UiCore::new(false);
    let action = PendingAction::ProcessInspect { thread_id: 1, process_id: 2, max_lines: 10, approval_id: 3 };
    let resp = ProcessInspectResponse { process: process(2), stdout_tail: "out\n".to_string(), stderr_tail: String::new() };
    state.finish_pending_action(action, ActionOutcome::Succeeded(PendingAnswer::Inspected(resp)));
    match state.overlays.last() {
        Some(Overlay::Text(t)) => {
            assert_eq!(t.title, "Process 00000000-0000-0000-0000-000000000002");
            assert!(t.text.contains("# stdout\n\nout"));
        }
        _ => panic!("expected the inspection text"),
    }
}

#[test]
fn a_kill_reloads_the_processes_keeping_the_selection() {
    let mut state = UiCore::new(false);
    state.overlays.push(Overlay::Processes(ProcessesOverlay { thread_id: 1, processes: vec![process(5), process(6)], selected: 1 }));
    let action = PendingAction::ProcessKill { thread_id: 1, process_id: 6, approval_id: 3 };
    let f = state.finish_pending_action(action, ActionOutcome::Succeeded(PendingAnswer::Signalled));
    assert!(matches!(f, PendingFollowUp::RefreshProcesses(1)));
    assert_eq!(state.status.as_deref(), Some("kill requested: 00000000-0000-0000-0000-000000000006"));
    state.refresh_processes_overlay(1, vec![process(4), process(6)]);
    match state.overlays.last() {
        Some(Overlay::Processes(v)) => {
            assert_eq!(v.processes.len(), 2);
            assert_eq!(v.selected, 1);
        }
        _ => panic!("expected the processes overlay"),
    }
    state.refresh_processes_overlay(1, vec![process(7)]);
    match state.overlays.last() {
        Some(Overlay::Processes(v)) => assert_eq!(v.selected, 0),
        _ => panic!("expected the processes overlay"),
    }
}

#[test]
fn an_artifact_list_refreshes_or_opens_the_overlay() {
    let mut state = UiCore::new(false);
    let action = PendingAction::ArtifactList { thread_id: 8, approval_id: 3 };
    let list = ArtifactList { artifacts: vec![meta(1, 2)], error_count: 2 };
    state.finish_pending_action(action, ActionOutcome::Succeeded(PendingAnswer::Listed(list)));
    assert_eq!(state.status.as_deref(), Some("artifact/list errors: 2"));
    assert_eq!(state.overlays.len(), 1);

    state.overlays.clear();
    state.status = None;
    state.overlays.push(Overlay::Artifacts(artifacts_overlay(8, vec![meta(1, 2), meta(2, 3)])));
    if let Some(Overlay::Artifacts(v)) = state.overlays.last_mut() {
        v.selected = 1;
    }
    let action = PendingAction::ArtifactList { thread_id: 8, approval_id: 3 };
    let list = ArtifactList { artifacts: vec![meta(2, 3), meta(3, 1)], error_count: 0 };
    state.finish_pending_action(action, ActionOutcome::Succeeded(PendingAnswer::Listed(list)));
    assert!(state.status.is_none());
    assert_eq!(state.overlays.len(), 1);
    match state.overlays.last() {
        Some(Overlay::Artifacts(v)) => {
            assert_eq!(v.artifacts.len(), 2);
            assert_eq!(v.selected, 0);
        }
        _ => panic!("expected the artifacts overlay"),
    }
}

#[test]
fn artifact_versions_and_reads_are_shown() {
    let mut state = UiCore::new(false);
    state.overlays.push(Overlay::Artifacts(artifacts_overlay(8, vec![meta(1, 3)])));
    let action = PendingAction::ArtifactVersions { thread_id: 8, artifact_id: 1, approval_id: 3 };
    let versions = ArtifactVersions { latest_version: 3, versions: vec![3, 2, 1] };
    state.finish_pending_action(action, ActionOutcome::Succeeded(PendingAnswer::Versions(versions)));
    match state.overlays.last() {
        Some(Overlay::Artifacts(v)) => {
            assert_eq!(v.versions_for, Some(1));
            assert_eq!(v.versions, vec![3, 2, 1]);
            assert_eq!(v.selected_version, 0);
        }
        _ => panic!("expected the artifacts overlay"),
    }

    let action = PendingAction::ArtifactRead { thread_id: 8, artifact_id: 1, max_bytes: 10, version: None, approval_id: 3 };
    state.finish_pending_action(
        action,
        ActionOutcome::Succeeded(PendingAnswer::Read { artifact_id: 1, text: "body".to_string() }),
    );
    match state.overlays.last() {
        Some(Overlay::Text(t)) => {
            assert_eq!(t.title, "Artifact 00000000-0000-0000-0000-000000000001");
            assert_eq!(t.text, "body");
        }
        _ => panic!("expected the artifact text"),
    }
}
