use omne_tui::approvals::{
    approval_filter_label, approval_sort_priority, approval_subagent_state_color,
    approval_subagent_state_hint,
    failed_subagent_approval_count, handle_local_approvals_key, new_approvals_overlay,
    next_approvals_filter, next_failed_subagent_approval_index, prev_failed_subagent_approval_index,
    rebuild_filtered_approvals, sort_approvals_for_overlay, ApprovalItem, ApprovalsFilter,
    ApprovalsLocalKeyResult, ApprovalsOverlay,
};
use omne_tui::ids::uuid_string;
use omne_tui::keys::KeyCode;
use omne_tui::style::Color;

fn item(id: u128, action: &str, proxy: bool, state: Option<&str>, requested_at: &str) -> ApprovalItem {
    ApprovalItem {
        approval_id: id,
        requested_at: requested_at.to_string(),
        action: action.to_string(),
        subagent_proxy_action_id: proxy,
        child_attention_state: state.map(|s| s.to_string()),
        decided: false,
    }
}

fn proxy(id: u128, state: &str) -> ApprovalItem {
    item(id, "subagent/proxy_approval", true, Some(state), "2026-01-01T00:00:00Z")
}

fn handled(r: ApprovalsLocalKeyResult) -> Option<String> {
    match r {
        ApprovalsLocalKeyResult::Handled(status) => status,
        ApprovalsLocalKeyResult::Unhandled => panic!("expected handled key"),
    }
}

#[test]
fn sort_approvals_for_overlay_prioritizes_subagent_attention_state() {
    let mut items = vec![
        item(1, "process/start", false, Some("failed"), "2026-01-01T00:00:00Z"),
        item(2, "subagent/proxy_approval", true, Some("running"), "2026-01-02T00:00:00Z"),
        item(3, "subagent/proxy_approval", true, Some("FAILED"), "2026-01-03T00:00:00Z"),
        item(4, "subagent/proxy_approval", true, Some("idle"), "2026-01-04T00:00:00Z"),
    ];
    sort_approvals_for_overlay(&mut items);
    let ordered = items
        .iter()
        .map(|it| (it.action.clone(), it.child_attention_state.clone()))
        .collect::<Vec<_>>();
    assert_eq!(
        ordered,
        vec![
            ("subagent/proxy_approval".to_string(), Some("FAILED".to_string())),
            ("subagent/proxy_approval".to_string(), Some("running".to_string())),
            ("subagent/proxy_approval".to_string(), Some("idle".to_string())),
            ("process/start".to_string(), Some("failed".to_string())),
        ]
    );
}

#[test]
fn sort_approvals_for_overlay_keeps_requested_at_within_same_priority() {
    let mut items = vec![
        item(7, "subagent/proxy_approval", true, Some("running"), "2026-01-03T00:00:00Z"),
        item(8, "subagent/proxy_approval", true, Some("running"), "2026-01-01T00:00:00Z"),
    ];
    sort_approvals_for_overlay(&mut items);
    assert!(items[0].requested_at < items[1].requested_at);
}

#[test]
fn sort_approvals_breaks_ties_by_approval_id() {
    let mut items = vec![proxy(9, "running"), proxy(3, "running"), proxy(5, "running")];
    sort_approvals_for_overlay(&mut items);
    let ids = items.iter().map(|it| it.approval_id).collect::<Vec<_>>();
    assert_eq!(ids, vec![3, 5, 9]);
}

#[test]
fn approval_sort_priority_ranks_states() {
    assert_eq!(approval_sort_priority(&proxy(1, "error")), 0);
    assert_eq!(approval_sort_priority(&proxy(1, "Failed")), 0);
    assert_eq!(approval_sort_priority(&proxy(1, "running")), 1);
    assert_eq!(approval_sort_priority(&proxy(1, "idle")), 2);
    assert_eq!(
        approval_sort_priority(&item(1, "process/start", false, Some("failed"), "x")),
        3
    );
}

#[test]
fn approval_subagent_state_hint_lowercases_and_trims() {
    assert_eq!(
        approval_subagent_state_hint(&proxy(1, "  RUNNING ")),
        Some("running".to_string())
    );
    assert_eq!(approval_subagent_state_hint(&proxy(1, "   ")), None);
    assert_eq!(
        approval_subagent_state_hint(&item(1, "process/start", false, Some("failed"), "x")),
        None
    );
    // The action text alone marks a proxy request.
    assert_eq!(
        approval_subagent_state_hint(&item(1, "Subagent/Proxy_Approval", false, Some("idle"), "x")),
        Some("idle".to_string())
    );
}

#[test]
fn next_failed_subagent_approval_index_wraps_to_next_match() {
    let items = vec![
        proxy(1, "running"),
        item(2, "process/start", false, Some("failed"), "2026-01-01T00:00:00Z"),
        proxy(3, "FAILED"),
    ];
    assert_eq!(next_failed_subagent_approval_index(items.as_slice(), 0), Some(2));
    assert_eq!(next_failed_subagent_approval_index(items.as_slice(), 2), Some(2));
}

#[test]
fn next_failed_subagent_approval_index_returns_none_without_match() {
    let items = vec![proxy(1, "running")];
    assert_eq!(next_failed_subagent_approval_index(items.as_slice(), 0), None);
}

#[test]
fn prev_failed_subagent_approval_index_wraps_to_previous_match() {
    let items = vec![proxy(1, "FAILED"), proxy(2, "running"), proxy(3, "error")];
    assert_eq!(prev_failed_subagent_approval_index(items.as_slice(), 1), Some(0));
    assert_eq!(prev_failed_subagent_approval_index(items.as_slice(), 0), Some(2));
}

#[test]
fn prev_failed_subagent_approval_index_returns_none_without_match() {
    let items = vec![proxy(1, "running")];
    assert_eq!(prev_failed_subagent_approval_index(items.as_slice(), 0), None);
}

#[test]
fn failed_search_on_empty_list_finds_nothing() {
    let items: Vec<ApprovalItem> = vec![];
    assert_eq!(next_failed_subagent_approval_index(items.as_slice(), 0), None);
    assert_eq!(prev_failed_subagent_approval_index(items.as_slice(), 0), None);
}

#[test]
fn failed_subagent_approval_count_counts_only_failed_subagent_items() {
    let items = vec![
        proxy(1, "FAILED"),
        proxy(2, "running"),
        item(3, "process/start", false, Some("failed"), "2026-01-01T00:00:00Z"),
    ];
    assert_eq!(failed_subagent_approval_count(items.as_slice()), 1);
}

#[test]
fn approval_filter_label_and_cycle_cover_all_variants() {
    assert_eq!(approval_filter_label(ApprovalsFilter::All), "all");
    assert_eq!(approval_filter_label(ApprovalsFilter::FailedSubagent), "failed");
    assert_eq!(approval_filter_label(ApprovalsFilter::RunningSubagent), "running");

    assert_eq!(next_approvals_filter(ApprovalsFilter::All), ApprovalsFilter::FailedSubagent);
    assert_eq!(
        next_approvals_filter(ApprovalsFilter::FailedSubagent),
        ApprovalsFilter::RunningSubagent
    );
    assert_eq!(next_approvals_filter(ApprovalsFilter::RunningSubagent), ApprovalsFilter::All);
}

#[test]
fn filter_cycle_returns_after_three_steps() {
    for f in [ApprovalsFilter::All, ApprovalsFilter::FailedSubagent, ApprovalsFilter::RunningSubagent] {
        assert_eq!(next_approvals_filter(next_approvals_filter(next_approvals_filter(f))), f);
    }
}

#[test]
fn rebuild_filtered_approvals_keeps_selection_by_approval_id() {
    let failed_id = 0xf00d;
    let running_id = 0xbeef;
    let mut overlay = ApprovalsOverlay {
        thread_id: 1,
        approvals: vec![],
        all_approvals: vec![proxy(running_id, "running"), proxy(failed_id, "failed")],
        selected: 0,
        remember: false,
        filter: ApprovalsFilter::FailedSubagent,
        subagent_pending_summary: None,
    };
    rebuild_filtered_approvals(&mut overlay, Some(failed_id));
    assert_eq!(overlay.approvals.len(), 1);
    assert_eq!(overlay.approvals[0].approval_id, failed_id);
    assert_eq!(overlay.selected, 0);
}

#[test]
fn handle_local_approvals_key_supports_failed_navigation_and_filter_cycle() {
    let failed_id: u128 = 0x1111_2222_3333_4444_5555_6666_7777_8888;
    let failed_id_2: u128 = 0x9999_aaaa_bbbb_cccc_dddd_eeee_ffff_0000;
    let running_id: u128 = 0x0123_4567_89ab_cdef_0123_4567_89ab_cdef;
    let running_id_2: u128 = 0x0fed_cba9_8765_4321_0fed_cba9_8765_4321;
    let mut overlay = new_approvals_overlay(
        1,
        vec![
            proxy(running_id, "running"),
            proxy(failed_id, "failed"),
            proxy(running_id_2, "running"),
            proxy(failed_id_2, "error"),
        ],
        0,
        None,
    );

    let status = handled(handle_local_approvals_key(&mut overlay, KeyCode::Char('f')));
    assert_eq!(overlay.approvals[overlay.selected].approval_id, failed_id);
    assert!(status.as_deref().is_some_and(|msg| msg.contains(&uuid_string(failed_id))));

    let status = handled(handle_local_approvals_key(&mut overlay, KeyCode::Char('F')));
    assert_eq!(overlay.approvals[overlay.selected].approval_id, failed_id_2);
    assert!(status.as_deref().is_some_and(|msg| msg.contains(&uuid_string(failed_id_2))));

    let status = handled(handle_local_approvals_key(&mut overlay, KeyCode::Char('t')));
    assert_eq!(overlay.filter, ApprovalsFilter::FailedSubagent);
    assert_eq!(overlay.approvals.len(), 2);
    assert!(status.as_deref().is_some_and(|msg| msg.contains("approvals filter=failed")));

    let status = handled(handle_local_approvals_key(&mut overlay, KeyCode::Char('m')));
    assert!(overlay.remember);
    assert!(status.as_deref().is_some_and(|msg| msg.contains("remember=true")));
}

#[test]
fn uuid_string_is_hyphenated_lowercase_hex() {
    assert_eq!(
        uuid_string(0x1111_2222_3333_4444_5555_6666_7777_8888),
        "11112222-3333-4444-5555-666677778888"
    );
    assert_eq!(uuid_string(0xab), "00000000-0000-0000-0000-0000000000ab");
}

#[test]
fn approval_subagent_state_color_maps_running_and_failed() {
    let request = item(1, "subagent/proxy_approval", true, Some("running"), "2026-01-01T00:00:00Z");
    assert_eq!(approval_subagent_state_color(&request), Some(Color::Yellow));

    let request_failed = ApprovalItem { child_attention_state: Some("FAILED".to_string()), ..request };
    assert_eq!(approval_subagent_state_color(&request_failed), Some(Color::LightRed));
}

#[test]
fn approval_subagent_state_color_ignores_non_subagent_action() {
    let request = item(1, "process/start", false, Some("FAILED"), "2026-01-01T00:00:00Z");
    assert_eq!(approval_subagent_state_color(&request), None);
}

#[test]
fn approval_subagent_state_color_other_states() {
    assert_eq!(approval_subagent_state_color(&proxy(1, " Error ")), Some(Color::LightRed));
    assert_eq!(approval_subagent_state_color(&proxy(2, "idle")), None);
    assert_eq!(approval_subagent_state_color(&proxy(3, "   ")), None);
}
