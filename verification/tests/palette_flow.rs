use std::collections::HashMap;

use omne_tui::approvals::{
    handle_local_approvals_key, ApprovalItem, ApprovalsFilter, ApprovalsLocalKeyResult, ApprovalsOverlay,
};
use omne_tui::artifacts::{
    handle_local_artifacts_key, ArtifactMetadata, ArtifactsLocalKeyResult, ArtifactsOverlay,
};
use omne_tui::keys::{KeyCode, KeyInput};
use omne_tui::labels::ProcessStatus;
use omne_tui::palette::{
    handle_key_command_palette, overlay_palette_command_key, CommandPaletteOverlay, PaletteCommand,
};
use omne_tui::processes::{handle_local_processes_key, ProcessInfo, ProcessesLocalKeyResult, ProcessesOverlay};
use omne_tui::ui_state::{build_overlay_palette, Overlay, UiCore};

const ARTIFACT: u128 = 0x1111_1111_0000_0000_0000_0000_0000_0001;

fn approval(id: u128, action: &str) -> ApprovalItem {
    ApprovalItem {
        approval_id: id,
        requested_at: "2026-01-01T00:00:00Z".to_string(),
        action: action.to_string(),
        subagent_proxy_action_id: false,
        child_attention_state: None,
        decided: false,
    }
}

fn approvals_overlay(items: Vec<ApprovalItem>) -> ApprovalsOverlay {
    ApprovalsOverlay {
        thread_id: 1,
        approvals: items.clone(),
        all_approvals: items,
        selected: 0,
        remember: false,
        filter: ApprovalsFilter::All,
        subagent_pending_summary: None,
    }
}

fn process(id: u128, argv0: &str, started_at: &str) -> ProcessInfo {
    ProcessInfo {
        process_id: id,
        thread_id: 2,
        turn_id: None,
        argv: vec![argv0.to_string(), "1".to_string()],
        cwd: "/tmp".to_string(),
        started_at: started_at.to_string(),
        status: ProcessStatus::Running,
        exit_code: None,
        stdout_path: "/tmp/stdout.log".to_string(),
        stderr_path: "/tmp/stderr.log".to_string(),
        last_update_at: started_at.to_string(),
    }
}

fn processes_overlay() -> ProcessesOverlay {
    ProcessesOverlay {
        thread_id: 2,
        processes: vec![process(10, "sleep", "2026-01-01T00:00:00Z"), process(11, "echo", "2026-01-01T00:00:01Z")],
        selected: 0,
    }
}

fn artifacts_overlay(with_versions: bool) -> ArtifactsOverlay {
    let meta = ArtifactMetadata {
        artifact_id: ARTIFACT,
        artifact_type: "report".to_string(),
        summary: "summary".to_string(),
        version: 4,
        size_bytes: 100,
        updated_at_unix: 0,
        content_path: "/tmp/a.md".to_string(),
    };
    if with_versions {
        ArtifactsOverlay {
            thread_id: 3,
            artifacts: vec![meta],
            selected: 0,
            versions_for: Some(ARTIFACT),
            versions: vec![4, 3, 2],
            selected_version: 1,
            version_cache: HashMap::from([(ARTIFACT, vec![4, 3, 2])]),
            selected_version_cache: HashMap::from([(ARTIFACT, 1)]),
        }
    } else {
        ArtifactsOverlay {
            thread_id: 3,
            artifacts: vec![],
            selected: 0,
            versions_for: None,
            versions: vec![],
            selected_version: 0,
            version_cache: HashMap::new(),
            selected_version_cache: HashMap::new(),
        }
    }
}

#[test]
fn overlay_palettes_actions_are_close_or_key_mapped() {
    let approvals_palette =
        build_overlay_palette(Some(&Overlay::Approvals(approvals_overlay(vec![])))).expect("approvals palette");
    let processes_palette = build_overlay_palette(Some(&Overlay::Processes(ProcessesOverlay {
        thread_id: 2,
        processes: vec![],
        selected: 0,
    })))
    .expect("processes palette");
    let artifacts_palette =
        build_overlay_palette(Some(&Overlay::Artifacts(artifacts_overlay(false)))).expect("artifacts palette");

    for palette in [approvals_palette, processes_palette, artifacts_palette] {
        for item in palette.items {
            match item.action {
                PaletteCommand::ClosePalette => {}
                action => assert!(
                    overlay_palette_command_key(&action).is_some(),
                    "palette '{}' has unmapped action '{}'",
                    palette.title,
                    item.label
                ),
            }
        }
    }
}

#[test]
fn overlay_palette_mapped_keys_drive_local_overlay_state_changes() {
    let mut approvals =
        approvals_overlay(vec![approval(1, "process/start"), approval(2, "process/kill")]);

    let select_next_key = overlay_palette_command_key(&PaletteCommand::ApprovalsSelectNext).expect("key");
    match handle_local_approvals_key(&mut approvals, select_next_key.code) {
        ApprovalsLocalKeyResult::Handled(_) => {}
        ApprovalsLocalKeyResult::Unhandled => panic!("expected handled key"),
    }
    assert_eq!(approvals.selected, 1);

    let remember_key = overlay_palette_command_key(&PaletteCommand::ApprovalsToggleRemember).expect("key");
    match handle_local_approvals_key(&mut approvals, remember_key.code) {
        ApprovalsLocalKeyResult::Handled(_) => {}
        ApprovalsLocalKeyResult::Unhandled => panic!("expected handled key"),
    }
    assert!(approvals.remember);

    let mut processes = processes_overlay();
    let process_next_key = overlay_palette_command_key(&PaletteCommand::ProcessesSelectNext).expect("key");
    match handle_local_processes_key(&mut processes, process_next_key.code) {
        ProcessesLocalKeyResult::Handled => {}
        ProcessesLocalKeyResult::Unhandled => panic!("expected handled key"),
    }
    assert_eq!(processes.selected, 1);

    let mut artifacts = artifacts_overlay(true);
    let next_version_key = overlay_palette_command_key(&PaletteCommand::ArtifactsNextVersion).expect("key");
    match handle_local_artifacts_key(&mut artifacts, next_version_key.code) {
        ArtifactsLocalKeyResult::Handled(_) => {}
        ArtifactsLocalKeyResult::Unhandled => panic!("expected handled key"),
    }
    assert_eq!(artifacts.selected_version, 0);

    let prev_version_key = overlay_palette_command_key(&PaletteCommand::ArtifactsPrevVersion).expect("key");
    match handle_local_artifacts_key(&mut artifacts, prev_version_key.code) {
        ArtifactsLocalKeyResult::Handled(_) => {}
        ArtifactsLocalKeyResult::Unhandled => panic!("expected handled key"),
    }
    assert_eq!(artifacts.selected_version, 1);
}

fn select_overlay_palette_command_by_query(view: &mut CommandPaletteOverlay, query: &str) -> PaletteCommand {
    for ch in query.chars() {
        assert!(handle_key_command_palette(KeyInput::plain(KeyCode::Char(ch)), view).is_none());
    }
    handle_key_command_palette(KeyInput::plain(KeyCode::Enter), view).expect("selected action")
}

fn palette_command(state: &mut UiCore, query: &str) -> PaletteCommand {
    match state.overlays.last_mut() {
        Some(Overlay::CommandPalette(view)) => select_overlay_palette_command_by_query(view, query),
        _ => panic!("expected command palette overlay"),
    }
}

#[test]
fn overlay_palette_key_flow_applies_selected_command_to_underlying_approvals() {
    let mut state = UiCore::new(false);
    state.overlays.push(Overlay::Approvals(approvals_overlay(vec![
        approval(1, "process/start"),
        approval(2, "process/kill"),
    ])));

    assert!(state.toggle_overlay_command_palette(0));
    let command = palette_command(&mut state, "select-next");
    assert!(matches!(command, PaletteCommand::ApprovalsSelectNext));

    let mapped_key = overlay_palette_command_key(&command).expect("mapped key");
    assert!(state.apply_overlay_palette_local_key(mapped_key));

    match state.overlays.last().expect("approvals overlay") {
        Overlay::Approvals(view) => {
            assert_eq!(view.selected, 1);
            assert!(!view.remember);
        }
        _ => panic!("expected approvals overlay"),
    }
}

#[test]
fn overlay_palette_key_flow_applies_selected_command_to_underlying_processes() {
    let mut state = UiCore::new(false);
    state.overlays.push(Overlay::Processes(processes_overlay()));

    assert!(state.toggle_overlay_command_palette(0));
    let command = palette_command(&mut state, "select-next");
    assert!(matches!(command, PaletteCommand::ProcessesSelectNext));

    let mapped_key = overlay_palette_command_key(&command).expect("mapped key");
    assert!(state.apply_overlay_palette_local_key(mapped_key));

    match state.overlays.last().expect("processes overlay") {
        Overlay::Processes(view) => assert_eq!(view.selected, 1),
        _ => panic!("expected processes overlay"),
    }
}

#[test]
fn overlay_palette_key_flow_applies_selected_command_to_underlying_artifacts() {
    let mut state = UiCore::new(false);
    state.overlays.push(Overlay::Artifacts(artifacts_overlay(true)));

    assert!(state.toggle_overlay_command_palette(0));
    let command = palette_command(&mut state, "version-next");
    assert!(matches!(command, PaletteCommand::ArtifactsNextVersion));

    let mapped_key = overlay_palette_command_key(&command).expect("mapped key");
    assert!(state.apply_overlay_palette_local_key(mapped_key));

    match state.overlays.last().expect("artifacts overlay") {
        Overlay::Artifacts(view) => {
            assert_eq!(view.selected_version, 0);
            assert_eq!(view.selected_version_cache.get(&ARTIFACT).copied(), Some(0));
        }
        _ => panic!("expected artifacts overlay"),
    }
}

#[test]
fn overlay_palette_local_key_without_overlay_or_for_text() {
    let mut state = UiCore::new(false);
    assert!(!state.apply_overlay_palette_local_key(KeyInput::plain(KeyCode::Down)));
    assert!(state.overlays.is_empty());

    state.overlays.push(Overlay::Approvals(approvals_overlay(vec![approval(1, "process/start")])));
    assert!(state.apply_overlay_palette_local_key(KeyInput::plain(KeyCode::Char('m'))));
    assert_eq!(state.status.as_deref(), Some("remember=true"));
    assert!(!state.apply_overlay_palette_local_key(KeyInput::plain(KeyCode::Char('z'))));
    assert_eq!(state.status.as_deref(), Some("remember=true"));
    assert_eq!(state.overlays.len(), 1);
}
