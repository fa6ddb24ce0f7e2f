use omne_tui::labels::TurnStatus;
use omne_tui::watch::ThreadEventKind;
use omne_tui::watch_loop::{inbox_thread_plan, watch_step, AttentionFetch, WatchState};

fn fresh() -> WatchState {
    WatchState { iteration: 0, since_seq: 0, has_detail_summary: false, suppress_initial_bell: true }
}

#[test]
fn first_round_refreshes_every_summary_and_rings_nothing() {
    let mut s = fresh();
    let p = watch_step(&mut s, true, true, 7, &[ThreadEventKind::TurnStarted, ThreadEventKind::Other]);
    assert_eq!(s.iteration, 1);
    assert_eq!(s.since_seq, 7);
    assert!(s.has_detail_summary && !s.suppress_initial_bell);
    assert_eq!(p.state_update, Some("running"));
    assert_eq!(p.attention, AttentionFetch::Required);
    assert!(p.refresh_detail_summary && p.refresh_auto_apply && p.refresh_fan_in_blocker);
    assert!(p.refresh_fan_in_diagnostics && p.refresh_subagent_pending);
    assert!(!p.ring_state && p.record_presence_only && !p.check_presence);
}

#[test]
fn later_rounds_refresh_only_what_the_events_touch() {
    let mut s = fresh();
    watch_step(&mut s, true, false, 1, &[ThreadEventKind::Other]);
    let p = watch_step(
        &mut s,
        true,
        false,
        2,
        &[ThreadEventKind::ApprovalRequested, ThreadEventKind::ApprovalDecided],
    );
    assert_eq!(p.state_update, Some("need_approval"));
    assert_eq!(p.attention, AttentionFetch::Optional);
    assert!(p.refresh_detail_summary && p.refresh_subagent_pending);
    assert!(!p.refresh_auto_apply && !p.refresh_fan_in_blocker);
    assert!(!p.ring_state);
    let p = watch_step(&mut s, true, false, 3, &[]);
    assert_eq!(s.since_seq, 3);
    assert!(!p.refresh_detail_summary);
    assert_eq!(p.attention, AttentionFetch::Skip);
    assert_eq!(p.state_update, None);
}

#[test]
fn bells_ring_after_the_first_round() {
    let mut s = fresh();
    watch_step(&mut s, false, true, 1, &[]);
    let p = watch_step(&mut s, false, true, 2, &[ThreadEventKind::ApprovalRequested]);
    assert_eq!(p.state_update, Some("need_approval"));
    assert!(p.ring_state && p.check_presence && !p.record_presence_only);
}

#[test]
fn inbox_rings_for_states_that_ask_for_the_user() {
    let mut s = fresh();
    let p = watch_step(&mut s, false, false, 1, &[ThreadEventKind::TurnCompleted(TurnStatus::Stuck)]);
    assert_eq!(p.state_update, Some("stuck"));
    assert!(inbox_thread_plan("failed").attention_bell);
    assert!(inbox_thread_plan("stuck").attention_bell);
    assert!(inbox_thread_plan("need_approval").attention_bell);
    assert!(!inbox_thread_plan("running").attention_bell);
    assert!(inbox_thread_plan("running").check_stale);
    assert!(!inbox_thread_plan("done").check_stale);
}
