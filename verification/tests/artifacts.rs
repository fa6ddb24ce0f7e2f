use std::collections::HashMap;

use omne_tui::artifacts::{
    activate_cached_versions_for_artifact, apply_versions_to_artifacts_overlay,
    artifact_read_error_hint, build_artifact_details, count_missing_versions,
    handle_local_artifacts_key, select_artifact, selected_artifact_version,
    sync_versions_for_selected_artifact, versions_match_latest, ArtifactMetadata,
    ArtifactVersions, ArtifactsLocalKeyResult, ArtifactsOverlay,
};
use omne_tui::keys::KeyCode;

const THREAD: u128 = 0x00000000_0000_0000_0000_000000000001;
const ARTIFACT_A: u128 = 0x11111111_0000_0000_0000_000000000001;
const ARTIFACT_B: u128 = 0x22222222_0000_0000_0000_000000000002;

fn meta(artifact_id: u128, summary: &str, version: u32, path: &str, size: u64) -> ArtifactMetadata {
    ArtifactMetadata {
        artifact_id,
        artifact_type: "report".to_string(),
        summary: summary.to_string(),
        version,
        size_bytes: size,
        updated_at_unix: 0,
        content_path: path.to_string(),
    }
}

#[test]
fn artifact_versions_cache_restores_when_reselecting_artifact() {
    let mut view = ArtifactsOverlay {
        thread_id: THREAD,
        artifacts: vec![
            meta(ARTIFACT_A, "a", 4, "/tmp/a.md", 100),
            meta(ARTIFACT_B, "b", 1, "/tmp/b.md", 20),
        ],
        selected: 0,
        versions_for: None,
        versions: Vec::new(),
        selected_version: 0,
        version_cache: HashMap::new(),
        selected_version_cache: HashMap::new(),
    };

    apply_versions_to_artifacts_overlay(
        &mut view,
        ARTIFACT_A,
        &ArtifactVersions { latest_version: 4, versions: vec![4, 3, 2] },
    );
    view.selected_version = 2;
    view.selected_version_cache.insert(ARTIFACT_A, 2);

    view.selected = 1;
    sync_versions_for_selected_artifact(&mut view);
    assert_eq!(view.versions_for, None);

    view.selected = 0;
    sync_versions_for_selected_artifact(&mut view);
    assert_eq!(view.versions_for, Some(ARTIFACT_A));
    assert_eq!(view.selected_version, 2);
    assert_eq!(view.versions, vec![4, 3, 2]);
}

#[test]
fn handle_local_artifacts_key_supports_version_navigation_and_latest_reset() {
    let mut view = ArtifactsOverlay {
        thread_id: THREAD,
        artifacts: vec![meta(ARTIFACT_A, "a", 4, "/tmp/a.md", 100)],
        selected: 0,
        versions_for: Some(ARTIFACT_A),
        versions: vec![4, 3, 2],
        selected_version: 0,
        version_cache: HashMap::from([(ARTIFACT_A, vec![4, 3, 2])]),
        selected_version_cache: HashMap::from([(ARTIFACT_A, 0)]),
    };

    match handle_local_artifacts_key(&mut view, KeyCode::Char('[')) {
        ArtifactsLocalKeyResult::Handled(_) => {}
        ArtifactsLocalKeyResult::Unhandled => panic!("expected handled key"),
    }
    assert_eq!(view.selected_version, 1);
    assert_eq!(view.selected_version_cache.get(&ARTIFACT_A), Some(&1));

    match handle_local_artifacts_key(&mut view, KeyCode::Char(']')) {
        ArtifactsLocalKeyResult::Handled(_) => {}
        ArtifactsLocalKeyResult::Unhandled => panic!("expected handled key"),
    }
    assert_eq!(view.selected_version, 0);
    assert_eq!(view.selected_version_cache.get(&ARTIFACT_A), Some(&0));

    view.selected_version = 2;
    view.selected_version_cache.insert(ARTIFACT_A, 2);
    let status = match handle_local_artifacts_key(&mut view, KeyCode::Char('0')) {
        ArtifactsLocalKeyResult::Handled(status) => status,
        ArtifactsLocalKeyResult::Unhandled => panic!("expected handled key"),
    };
    assert_eq!(view.selected_version, 0);
    assert_eq!(view.selected_version_cache.get(&ARTIFACT_A), Some(&0));
    assert!(status
        .as_deref()
        .is_some_and(|msg| msg.contains("artifact version reset to latest: 4")));
}

#[test]
fn stale_artifact_versions_cache_is_invalidated() {
    let mut view = ArtifactsOverlay {
        thread_id: THREAD,
        artifacts: vec![meta(ARTIFACT_A, "a", 5, "/tmp/a.md", 100)],
        selected: 0,
        versions_for: None,
        versions: Vec::new(),
        selected_version: 0,
        version_cache: HashMap::from([(ARTIFACT_A, vec![4, 3, 2])]),
        selected_version_cache: HashMap::from([(ARTIFACT_A, 1)]),
    };

    let activated = activate_cached_versions_for_artifact(&mut view, ARTIFACT_A, 5);
    assert!(!activated);
    assert!(!view.version_cache.contains_key(&ARTIFACT_A));
    assert!(!view.selected_version_cache.contains_key(&ARTIFACT_A));
}

#[test]
fn count_missing_versions_detects_possible_pruned_history() {
    assert_eq!(count_missing_versions(&[4, 3, 2]), 0);
    assert_eq!(count_missing_versions(&[10, 9, 7, 6]), 1);
    assert_eq!(count_missing_versions(&[]), 0);
}

#[test]
fn artifact_read_error_hint_guides_latest_fallback() {
    let retained = "rpc error: artifact version not retained: requested=2, latest=4";
    let hint = artifact_read_error_hint(retained).expect("hint");
    assert!(hint.contains("press 0"));

    let missing = "rpc error: artifact version not found: requested=9, latest=4";
    let hint = artifact_read_error_hint(missing).expect("hint");
    assert!(hint.contains("selected version"));
}

#[test]
fn artifact_read_error_hint_ignores_other_errors() {
    let other = "rpc error: permission denied";
    assert!(artifact_read_error_hint(other).is_none());
}

#[test]
fn artifacts_overlay_shows_version_selection_details() {
    let mut view = ArtifactsOverlay {
        thread_id: THREAD,
        artifacts: vec![meta(ARTIFACT_A, "weekly", 4, "/tmp/a.md", 128)],
        selected: 0,
        versions_for: Some(ARTIFACT_A),
        versions: vec![4, 3, 2],
        selected_version: 1,
        version_cache: HashMap::new(),
        selected_version_cache: HashMap::new(),
    };
    let text = build_artifact_details(&view, &view.artifacts[0]);
    assert!(text.contains("artifact_id: 11111111-0000-0000-0000-000000000001\n"));
    assert!(text.contains("selected_version: 3"));
    assert!(text.contains("available_versions: 4, 3, 2"));
    assert!(text.contains("selected_state: historical"));
    assert!(!text.contains("possible_pruned_versions"));
    view.versions = vec![10, 9, 7];
    view.selected_version = 0;
    let text = build_artifact_details(&view, &view.artifacts[0]);
    assert!(text.contains("selected_version: 10"));
    assert!(text.contains("possible_pruned_versions: 1\n"));
    view.versions_for = None;
    let text = build_artifact_details(&view, &view.artifacts[0]);
    assert_eq!(
        text,
        "artifact_id: 11111111-0000-0000-0000-000000000001\nartifact_type: report\nsummary: weekly\n\
latest_version: 4\nselected_version: 4\navailable_versions: press v to load\nsize_bytes: 128\n\
updated_at_unix: 0\ncontent_path: /tmp/a.md\n"
    );
}

#[test]
fn artifact_keys_move_selection_and_resync_versions() {
    let mut view = ArtifactsOverlay {
        thread_id: THREAD,
        artifacts: vec![meta(ARTIFACT_A, "a", 4, "/tmp/a.md", 1), meta(ARTIFACT_B, "b", 2, "/tmp/b.md", 1)],
        selected: 0,
        versions_for: Some(ARTIFACT_A),
        versions: vec![4, 3],
        selected_version: 1,
        version_cache: HashMap::from([(ARTIFACT_A, vec![4, 3]), (ARTIFACT_B, vec![2, 1])]),
        selected_version_cache: HashMap::new(),
    };
    assert!(matches!(handle_local_artifacts_key(&mut view, KeyCode::Down), ArtifactsLocalKeyResult::Handled(None)));
    assert_eq!(view.selected, 1);
    assert_eq!(view.versions_for, Some(ARTIFACT_B));
    assert_eq!(view.versions, vec![2, 1]);
    assert_eq!(view.selected_version, 0);
    assert!(matches!(handle_local_artifacts_key(&mut view, KeyCode::Down), ArtifactsLocalKeyResult::Handled(None)));
    assert_eq!(view.selected, 1);
    assert!(matches!(handle_local_artifacts_key(&mut view, KeyCode::Up), ArtifactsLocalKeyResult::Handled(None)));
    assert_eq!(view.selected, 0);
    assert_eq!(view.versions_for, Some(ARTIFACT_A));
    assert!(matches!(handle_local_artifacts_key(&mut view, KeyCode::Char('x')), ArtifactsLocalKeyResult::Unhandled));
    assert_eq!(selected_artifact_version(&view, &view.artifacts[0]), Some(4));
    assert_eq!(select_artifact(&view.artifacts, Some(ARTIFACT_B)), 1);
    assert_eq!(select_artifact(&view.artifacts, Some(7)), 0);
    assert_eq!(select_artifact(&view.artifacts, None), 0);
    assert!(versions_match_latest(&[4, 3], 4));
    assert!(!versions_match_latest(&[3, 4], 4));
    assert!(!versions_match_latest(&[], 4));
}

#[test]
fn latest_reset_without_versions_reports_latest_on_read() {
    let mut view = ArtifactsOverlay {
        thread_id: THREAD,
        artifacts: vec![meta(ARTIFACT_A, "a", 4, "/tmp/a.md", 1)],
        selected: 0,
        versions_for: None,
        versions: Vec::new(),
        selected_version: 0,
        version_cache: HashMap::new(),
        selected_version_cache: HashMap::new(),
    };
    match handle_local_artifacts_key(&mut view, KeyCode::Char('0')) {
        ArtifactsLocalKeyResult::Handled(Some(msg)) => {
            assert_eq!(msg, "artifact read will use latest version")
        }
        _ => panic!("expected handled key with status"),
    }
}
