use std::collections::HashMap;

use omne_tui::artifacts::ArtifactsOverlay;
use omne_tui::keys::{KeyCode, KeyInput};
use omne_tui::palette::{
    handle_key_command_palette, normalize_label, overlay_palette_command_key, CommandPaletteOverlay,
    PaletteCommand, PaletteItem,
};
use omne_tui::palettes::{build_artifacts_overlay_palette, build_model_palette, build_root_palette, RootPaletteState};

fn root_state() -> RootPaletteState {
    RootPaletteState {
        include_archived: false,
        only_fan_out_linkage_issue: false,
        only_fan_out_auto_apply_error: false,
        only_fan_in_dependency_blocked: false,
        only_subagent_proxy_approval: false,
        active_thread: false,
        mode: None,
        model: None,
        allowed_tools_count: None,
        execpolicy_rules_count: 0,
    }
}

fn labels(p: &CommandPaletteOverlay) -> Vec<String> {
    p.items.iter().map(|item| item.label.clone()).collect()
}

#[test]
fn overlay_palette_command_key_maps_overlay_actions_to_expected_keys() {
    let approvals = [
        (PaletteCommand::ApprovalsCycleFilter, KeyCode::Char('t')),
        (PaletteCommand::ApprovalsNextFailed, KeyCode::Char('f')),
        (PaletteCommand::ApprovalsPrevFailed, KeyCode::Char('F')),
        (PaletteCommand::ApprovalsRefresh, KeyCode::Char('r')),
        (PaletteCommand::ApprovalsSelectPrev, KeyCode::Up),
        (PaletteCommand::ApprovalsSelectNext, KeyCode::Down),
        (PaletteCommand::ApprovalsApprove, KeyCode::Char('y')),
        (PaletteCommand::ApprovalsDeny, KeyCode::Char('n')),
        (PaletteCommand::ApprovalsToggleRemember, KeyCode::Char('m')),
        (PaletteCommand::ApprovalsOpenDetails, KeyCode::Enter),
    ];
    for (command, expected_code) in approvals {
        let key = overlay_palette_command_key(&command).expect("approvals key");
        assert_eq!(key.code, expected_code);
        assert!(!key.ctrl);
    }

    let processes = [
        (PaletteCommand::ProcessesRefresh, KeyCode::Char('r')),
        (PaletteCommand::ProcessesSelectPrev, KeyCode::Up),
        (PaletteCommand::ProcessesSelectNext, KeyCode::Down),
        (PaletteCommand::ProcessesInspect, KeyCode::Enter),
        (PaletteCommand::ProcessesKill, KeyCode::Char('k')),
        (PaletteCommand::ProcessesInterrupt, KeyCode::Char('x')),
    ];
    for (command, expected_code) in processes {
        let key = overlay_palette_command_key(&command).expect("processes key");
        assert_eq!(key.code, expected_code);
        assert!(!key.ctrl);
    }

    let artifacts = [
        (PaletteCommand::ArtifactsRefresh, KeyCode::Char('r')),
        (PaletteCommand::ArtifactsSelectPrev, KeyCode::Up),
        (PaletteCommand::ArtifactsSelectNext, KeyCode::Down),
        (PaletteCommand::ArtifactsRead, KeyCode::Enter),
        (PaletteCommand::ArtifactsLoadVersions, KeyCode::Char('v')),
        (PaletteCommand::ArtifactsReloadVersions, KeyCode::Char('R')),
        (PaletteCommand::ArtifactsPrevVersion, KeyCode::Char('[')),
        (PaletteCommand::ArtifactsNextVersion, KeyCode::Char(']')),
        (PaletteCommand::ArtifactsLatestVersion, KeyCode::Char('0')),
    ];
    for (command, expected_code) in artifacts {
        let key = overlay_palette_command_key(&command).expect("artifacts key");
        assert_eq!(key.code, expected_code);
        assert!(!key.ctrl);
    }
}

#[test]
fn overlay_palette_command_key_ignores_non_overlay_actions() {
    assert!(overlay_palette_command_key(&PaletteCommand::Help).is_none());
    assert!(overlay_palette_command_key(&PaletteCommand::Quit).is_none());
    assert!(overlay_palette_command_key(&PaletteCommand::OpenApprovals).is_none());
}

#[test]
fn command_palette_context_label_defaults_and_normalizes() {
    let empty = CommandPaletteOverlay::new("   ", vec![]);
    assert_eq!(empty.context_label(), "commands");

    let approvals = CommandPaletteOverlay::new("Approvals", vec![]);
    assert_eq!(approvals.context_label(), "approvals");
}

#[test]
fn root_palette_shows_current_thread_gate_values() {
    let mut state = root_state();
    state.active_thread = true;
    state.allowed_tools_count = Some(3);
    state.execpolicy_rules_count = 2;
    let labels = labels(&build_root_palette(&state));
    assert!(labels.iter().any(|label| label == "allowed-tools=3"));
    assert!(labels.iter().any(|label| label == "execpolicy-rules=2"));
}

#[test]
fn root_palette_shows_linkage_filter_state() {
    let mut state = root_state();
    let expect = |state: &RootPaletteState, wanted: &[&str]| {
        let labels = labels(&build_root_palette(state));
        for w in wanted {
            assert!(labels.iter().any(|label| label == w), "missing {w}");
        }
    };
    expect(
        &state,
        &["linkage-filter=off", "auto-apply-filter=off", "fan-in-filter=off", "subagent-filter=off", "clear-filters", "archived=off"],
    );
    state.only_fan_out_linkage_issue = true;
    expect(
        &state,
        &["linkage-filter=on", "auto-apply-filter=off", "fan-in-filter=off", "subagent-filter=off", "clear-filters", "archived=off"],
    );
    state.only_fan_out_auto_apply_error = true;
    expect(
        &state,
        &["linkage-filter=on", "auto-apply-filter=on", "fan-in-filter=off", "subagent-filter=off", "clear-filters", "archived=off"],
    );
    state.only_fan_in_dependency_blocked = true;
    expect(
        &state,
        &["linkage-filter=on", "auto-apply-filter=on", "fan-in-filter=on", "subagent-filter=off", "clear-filters", "archived=off"],
    );
    state.only_subagent_proxy_approval = true;
    expect(
        &state,
        &["linkage-filter=on", "auto-apply-filter=on", "fan-in-filter=on", "subagent-filter=on", "clear-filters", "archived=off"],
    );
    state.include_archived = true;
    expect(&state, &["archived=on"]);
}

#[test]
fn artifacts_overlay_palette_shows_artifact_actions() {
    let view = ArtifactsOverlay {
        thread_id: 7,
        artifacts: vec![],
        selected: 0,
        versions_for: None,
        versions: vec![],
        selected_version: 0,
        version_cache: HashMap::new(),
        selected_version_cache: HashMap::new(),
    };
    let palette = build_artifacts_overlay_palette(&view);
    assert_eq!(palette.title, "artifacts");
    let labels = labels(&palette);
    for wanted in [
        "back",
        "refresh (0)",
        "select-prev",
        "select-next",
        "read",
        "versions",
        "versions-reload",
        "version-prev",
        "version-next",
        "version-latest",
    ] {
        assert!(labels.iter().any(|label| label == wanted), "missing {wanted}");
    }
}

#[test]
fn palette_filter_matches_every_query_word_in_label_or_detail() {
    let items = vec![
        PaletteItem::new("new-thread".to_string(), PaletteCommand::NewThread),
        PaletteItem::with_detail("approvals".to_string(), "pending requests".to_string(), PaletteCommand::OpenApprovals),
        PaletteItem::new("quit".to_string(), PaletteCommand::Quit),
    ];
    let mut p = CommandPaletteOverlay::new("Commands", items);
    assert_eq!(p.filtered, vec![0, 1, 2]);
    p.query = "PENDING appr".to_string();
    p.rebuild_filter();
    assert_eq!(p.filtered, vec![1]);
    assert_eq!(p.selected, 0);
    p.query = "zzz".to_string();
    p.rebuild_filter();
    assert!(p.filtered.is_empty());
    assert!(p.selected_action().is_none());
}

#[test]
fn palette_keys_type_move_and_choose() {
    let items = vec![
        PaletteItem::new("alpha".to_string(), PaletteCommand::Help),
        PaletteItem::new("beta".to_string(), PaletteCommand::Quit),
    ];
    let mut p = CommandPaletteOverlay::new("x", items);
    assert!(handle_key_command_palette(KeyInput::plain(KeyCode::Down), &mut p).is_none());
    assert_eq!(p.selected, 1);
    assert!(handle_key_command_palette(KeyInput::plain(KeyCode::Down), &mut p).is_none());
    assert_eq!(p.selected, 1);
    assert!(handle_key_command_palette(KeyInput::plain(KeyCode::Up), &mut p).is_none());
    assert_eq!(p.selected, 0);
    handle_key_command_palette(KeyInput::plain(KeyCode::Char('b')), &mut p);
    assert_eq!(p.query, "b");
    assert_eq!(p.filtered, vec![1]);
    assert!(matches!(
        handle_key_command_palette(KeyInput::plain(KeyCode::Enter), &mut p),
        Some(PaletteCommand::Quit)
    ));
    handle_key_command_palette(KeyInput::plain(KeyCode::Backspace), &mut p);
    assert_eq!(p.query, "");
    assert_eq!(p.filtered, vec![0, 1]);
    assert!(handle_key_command_palette(KeyInput::plain(KeyCode::Esc), &mut p).is_none());
    assert_eq!(p.query, "");
}

#[test]
fn model_palette_is_sorted_and_marks_current() {
    let p = build_model_palette(vec!["zeta".to_string(), "alpha".to_string()], Some("zeta"));
    let labels = labels(&p);
    assert_eq!(labels, vec!["back".to_string(), "alpha".to_string(), "zeta*".to_string()]);
}

#[test]
fn normalize_label_collapses_case_and_whitespace() {
    assert_eq!(normalize_label("  Hello   World "), "hello-world");
}
