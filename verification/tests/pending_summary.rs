use omne_tui::approvals::{ApprovalsFilter, ApprovalsOverlay};
use omne_tui::pending_summary::{
    is_subagent_proxy_pending_approval, refresh_approvals_overlay_subagent_summary,
    summarize_subagent_pending_approvals, summarize_subagent_pending_approvals_for_overlay,
    summarize_subagent_pending_summary, PendingApproval,
};

fn pending(id: u128, proxy: bool, action: Option<&str>, state: Option<&str>) -> PendingApproval {
    PendingApproval {
        approval_id: id,
        subagent_proxy_action_id: proxy,
        action: action.map(|a| a.to_string()),
        child_attention_state: state.map(|s| s.to_string()),
    }
}

fn states(v: &[(String, usize)]) -> Vec<(&str, usize)> {
    v.iter().map(|(s, n)| (s.as_str(), *n)).collect()
}

#[test]
fn subagent_approvals_are_recognized_by_action_id_or_name() {
    assert!(is_subagent_proxy_pending_approval(&pending(1, true, None, None)));
    assert!(is_subagent_proxy_pending_approval(&pending(2, false, Some("subagent/proxy_approval"), None)));
    assert!(!is_subagent_proxy_pending_approval(&pending(3, false, Some("process/start"), None)));
    assert!(!is_subagent_proxy_pending_approval(&pending(4, false, None, Some("running"))));
}

#[test]
fn pending_approvals_are_counted_by_state_in_order() {
    let ps = vec![
        pending(1, true, None, Some(" Running ")),
        pending(2, false, Some("file/write"), Some("failed")),
        pending(3, false, Some("subagent/proxy_approval"), Some("FAILED")),
        pending(4, true, None, None),
        pending(5, true, None, Some("   ")),
        pending(6, true, None, Some("running")),
    ];
    let s = summarize_subagent_pending_approvals(&ps).unwrap();
    assert_eq!(s.total, 5);
    assert_eq!(states(&s.states), vec![("failed", 1), ("running", 2), ("unknown", 2)]);
    let total: usize = s.states.iter().map(|(_, n)| *n).sum();
    assert_eq!(total, s.total);
}

#[test]
fn no_subagent_approvals_give_no_summary() {
    assert!(summarize_subagent_pending_approvals(&[]).is_none());
    let ps = vec![pending(1, false, Some("file/write"), Some("running"))];
    assert!(summarize_subagent_pending_approvals(&ps).is_none());
    assert!(summarize_subagent_pending_approvals_for_overlay(&ps).is_none());
    assert!(summarize_subagent_pending_summary(&ps).is_none());
}

#[test]
fn the_three_summaries_agree() {
    let ps = vec![pending(1, true, None, Some("b")), pending(2, true, None, Some("a"))];
    let a = summarize_subagent_pending_approvals(&ps).unwrap();
    let b = summarize_subagent_pending_approvals_for_overlay(&ps).unwrap();
    let c = summarize_subagent_pending_summary(&ps).unwrap();
    assert_eq!(states(&a.states), vec![("a", 1), ("b", 1)]);
    assert_eq!(states(&a.states), states(&b.states));
    assert_eq!(states(&a.states), states(&c.states));
}

#[test]
fn the_overlay_summary_is_replaced_or_cleared() {
    let mut view = ApprovalsOverlay {
        thread_id: 1,
        approvals: vec![],
        all_approvals: vec![],
        selected: 0,
        remember: false,
        filter: ApprovalsFilter::All,
        subagent_pending_summary: None,
    };
    let ps = vec![pending(1, true, None, Some("running"))];
    refresh_approvals_overlay_subagent_summary(&mut view, Some(&ps));
    assert_eq!(view.subagent_pending_summary.as_ref().unwrap().total, 1);
    refresh_approvals_overlay_subagent_summary(&mut view, None);
    assert!(view.subagent_pending_summary.is_none());
}
