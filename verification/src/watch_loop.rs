//! The decisions of the watch loop, one round at a time: after the server
//! answers a subscription with a batch of events, what to fetch, which
//! summaries to refresh and whether a bell may ring.
use vstd::prelude::*;
use crate::watch::{
    attention_state_spec, attention_state_update, auto_apply_event, fan_in_event,
    should_refresh_watch_auto_apply_summary, should_refresh_watch_fan_in_dependency_blocker_summary,
    should_refresh_watch_fan_in_result_diagnostics_summary, should_refresh_watch_subagent_pending_summary,
    subagent_pending_event, ThreadEventKind,
};

verus! {

/// What the watch loop keeps from one round to the next.
#[derive(Debug)]
pub struct WatchState {
    /// Rounds run so far.
    pub iteration: u64,
    /// Events are asked for after this sequence number.
    pub since_seq: u64,
    /// A detail summary was shown already.
    pub has_detail_summary: bool,
    /// The first round only records what is present; it rings no bell.
    pub suppress_initial_bell: bool,
}

/// How the round needs the thread's attention.
#[derive(Debug, Clone, Copy, PartialEq, Eq, Structural)]
pub enum AttentionFetch {
    /// Not at all.
    Skip,
    /// For the bells: a failure ends the watch.
    Required,
    /// For the detail summaries: a failure leaves it out.
    Optional,
}

/// What a round does after its events were printed.
#[derive(Debug)]
pub struct WatchPlan {
    /// The attention state the last of the events moved the thread to.
    pub state_update: Option<&'static str>,
    pub attention: AttentionFetch,
    /// The detail summaries are worked out and shown when they changed.
    pub refresh_detail_summary: bool,
    /// Which of them are fetched again (the others are taken from the last round).
    pub refresh_auto_apply: bool,
    pub refresh_fan_in_blocker: bool,
    pub refresh_fan_in_diagnostics: bool,
    pub refresh_subagent_pending: bool,
    /// The attention-state bell may ring for `state_update`.
    pub ring_state: bool,
    /// The present conditions are only recorded (first round), not rung for.
    pub record_presence_only: bool,
    /// The presence bells are checked.
    pub check_presence: bool,
}

/// The attention state the last event that moves the thread moves it to.
pub open spec fn last_state_update(events: Seq<ThreadEventKind>) -> Option<Seq<char>>
    decreases events.len(),
{
    if events.len() == 0 {
        None
    } else {
        match attention_state_spec(events.last()) {
            Some(s) => Some(s),
            None => last_state_update(events.drop_last()),
        }
    }
}

/// Some event may change a fan-out auto-apply summary.
pub open spec fn any_auto_apply(events: Seq<ThreadEventKind>) -> bool {
    exists|i: int| 0 <= i < events.len() && auto_apply_event(#[trigger] events[i])
}

/// Some event may change a fan-in summary.
pub open spec fn any_fan_in(events: Seq<ThreadEventKind>) -> bool {
    exists|i: int| 0 <= i < events.len() && fan_in_event(#[trigger] events[i])
}

/// Some event may change the pending-subagent summary.
pub open spec fn any_subagent_pending(events: Seq<ThreadEventKind>) -> bool {
    exists|i: int| 0 <= i < events.len() && subagent_pending_event(#[trigger] events[i])
}

/// A round of the watch loop: `details` and `bell` are the watch's options,
/// `last_seq` and `events` the server's answer.
pub open spec fn watch_round(
    before: WatchState,
    after: WatchState,
    details: bool,
    bell: bool,
    last_seq: u64,
    events: Seq<ThreadEventKind>,
    p: WatchPlan,
) -> bool {
    let first = !before.has_detail_summary;
    let refresh = details && events.len() > 0 && (first || any_auto_apply(events) || any_fan_in(events) || any_subagent_pending(events));
    &&& after.iteration == (if before.iteration < u64::MAX { (before.iteration + 1) as u64 } else { u64::MAX })
    &&& after.since_seq == last_seq
    &&& after.has_detail_summary == (before.has_detail_summary || refresh)
    &&& !after.suppress_initial_bell
    &&& crate::tool_format::opt_str(p.state_update) == last_state_update(events)
    &&& p.attention == (if bell { AttentionFetch::Required } else if refresh { AttentionFetch::Optional } else { AttentionFetch::Skip })
    &&& p.refresh_detail_summary == refresh
    &&& p.refresh_auto_apply == (refresh && (first || any_auto_apply(events)))
    &&& p.refresh_fan_in_blocker == (refresh && (first || any_fan_in(events)))
    &&& p.refresh_fan_in_diagnostics == (refresh && (first || any_fan_in(events)))
    &&& p.refresh_subagent_pending == (refresh && (first || any_subagent_pending(events)))
    &&& p.ring_state == (bell && !before.suppress_initial_bell && p.state_update is Some)
    &&& p.record_presence_only == (bell && before.suppress_initial_bell)
    &&& p.check_presence == (bell && !before.suppress_initial_bell)
}

/// The attention state the last moving event of `events` moves the thread to.
fn last_state_update_exec(events: &[ThreadEventKind]) -> (r: Option<&'static str>)
    ensures
        crate::tool_format::opt_str(r) == last_state_update(events@),
{
    let mut r: Option<&'static str> = None;
    let mut i: usize = 0;
    while i < events.len()
        invariant
            i <= events.len(),
            crate::tool_format::opt_str(r) == last_state_update(events@.take(i as int)),
        decreases events.len() - i,
    {
        assert(events@.take(i + 1).drop_last() =~= events@.take(i as int));
        assert(events@.take(i + 1).last() == events@[i as int]);
        match attention_state_update(&events[i]) {
            Some(s) => {
                r = Some(s);
            },
            None => {},
        }
        i += 1;
    }
    assert(events@.take(events.len() as int) =~= events@);
    r
}

/// Plans a round of the watch loop and moves its state on.
pub fn watch_step(
    state: &mut WatchState,
    details: bool,
    bell: bool,
    last_seq: u64,
    events: &[ThreadEventKind],
) -> (p: WatchPlan)
    ensures
        watch_round(*old(state), *final(state), details, bell, last_seq, events@, p),
{
    let first = !state.has_detail_summary;
    let auto_apply = should_refresh_watch_auto_apply_summary(events);
    let blocker = should_refresh_watch_fan_in_dependency_blocker_summary(events);
    let diagnostics = should_refresh_watch_fan_in_result_diagnostics_summary(events);
    let pending = should_refresh_watch_subagent_pending_summary(events);
    let refresh = details && events.len() > 0 && (first || auto_apply || blocker || pending);
    let state_update = last_state_update_exec(events);
    let attention = if bell {
        AttentionFetch::Required
    } else if refresh {
        AttentionFetch::Optional
    } else {
        AttentionFetch::Skip
    };
    let suppress = state.suppress_initial_bell;
    let plan = WatchPlan {
        state_update,
        attention,
        refresh_detail_summary: refresh,
        refresh_auto_apply: refresh && (first || auto_apply),
        refresh_fan_in_blocker: refresh && (first || blocker),
        refresh_fan_in_diagnostics: refresh && (first || diagnostics),
        refresh_subagent_pending: refresh && (first || pending),
        ring_state: bell && !suppress && state_update.is_some(),
        record_presence_only: bell && suppress,
        check_presence: bell && !suppress,
    };
    state.iteration = state.iteration.saturating_add(1);
    state.since_seq = last_seq;
    state.has_detail_summary = state.has_detail_summary || refresh;
    state.suppress_initial_bell = false;
    plan
}

/// What the inbox loop does for one listed thread when bells are on.
#[derive(Debug, Clone, Copy, PartialEq, Eq, Structural)]
pub struct InboxThreadPlan {
    /// The attention-state bell may ring (the state asks for the user);
    /// otherwise the state is only recorded.
    pub attention_bell: bool,
    /// The thread runs: its attention is fetched to see stale processes;
    /// otherwise no stale process is recorded for it.
    pub check_stale: bool,
}

/// An attention state that asks for the user.
pub open spec fn urgent_state(state: Seq<char>) -> bool {
    state == "need_approval"@ || state == "failed"@ || state == "stuck"@
}

/// Plans the bells of one thread of the inbox from its attention state.
pub fn inbox_thread_plan(attention_state: &str) -> (r: InboxThreadPlan)
    ensures
        r.attention_bell == urgent_state(attention_state@),
        r.check_stale == (attention_state@ == "running"@),
{
    let cs = crate::text::chars_of(attention_state);
    let urgent = crate::text::chars_eq_str(cs.as_slice(), "need_approval") || crate::text::chars_eq_str(
        cs.as_slice(),
        "failed",
    ) || crate::text::chars_eq_str(cs.as_slice(), "stuck");
    let running = crate::text::chars_eq_str(cs.as_slice(), "running");
    InboxThreadPlan { attention_bell: urgent, check_stale: running }
}

} // verus!
