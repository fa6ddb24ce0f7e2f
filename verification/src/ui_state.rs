//! The interface's own state: the overlay stack, the status line (errors
//! stay, other messages may expire), the bounded transcript, the thread
//! picker's filters, and the token count.
use vstd::prelude::*;
use crate::approvals::{approvals_key_step, handle_local_approvals_key, ApprovalsLocalKeyResult, ApprovalsOverlay};
use crate::artifacts::{
    artifacts_key_spec, handle_local_artifacts_key, key_result_matches, ArtifactKeyOutcome, ArtifactsLocalKeyResult,
    ArtifactsOverlay,
};
use crate::inline_context::InlinePaletteKind;
use crate::json::JsonValue;
use crate::pending::PendingAction;
use crate::keys::{KeyCode, KeyInput};
use crate::palette::CommandPaletteOverlay;
use crate::palettes::{
    approvals_palette_items, build_approvals_overlay_palette, build_artifacts_overlay_palette,
    build_processes_overlay_palette, fresh_palette, processes_palette_items, artifacts_palette_items,
    RootPaletteState,
};
use crate::processes::{handle_local_processes_key, processes_key_step, ProcessesLocalKeyResult, ProcessesOverlay};
use crate::render::{TranscriptEntry, TranscriptRole};
use crate::json::str_eq;
use crate::text::{chars_of, contains_seq, contains_str, lower_seq, owned, push_str, to_lower, trim};

verus! {

/// A scrollable text pane.
#[derive(Debug)]
pub struct TextOverlay {
    pub title: String,
    pub text: String,
    pub scroll: u16,
}

/// The reply of a turn as it streams in.
#[derive(Debug)]
pub struct StreamingState {
    pub turn_id: u128,
    pub output_text: String,
    pub thinking: String,
}

/// The palette the composer's last line opened, with its kind.
#[derive(Debug)]
pub struct InlinePalette {
    pub kind: InlinePaletteKind,
    pub view: CommandPaletteOverlay,
}

/// One layer of the overlay stack.
pub enum Overlay {
    Approvals(ApprovalsOverlay),
    Processes(ProcessesOverlay),
    Artifacts(ArtifactsOverlay),
    Text(TextOverlay),
    CommandPalette(CommandPaletteOverlay),
}

/// What a key does to a text overlay.
pub open spec fn text_key_step(code: KeyCode, a: TextOverlay, b: TextOverlay) -> bool {
    &&& (b.title == a.title)
    &&& (b.text == a.text)
    &&& (b.scroll == match code {
                KeyCode::Up => if a.scroll >= 1 { (a.scroll - 1) as u16 } else { 0 },
                KeyCode::Down => if a.scroll < u16::MAX { (a.scroll + 1) as u16 } else { u16::MAX },
                KeyCode::PageUp => if a.scroll >= 10 { (a.scroll - 10) as u16 } else { 0 },
                KeyCode::PageDown => if a.scroll <= u16::MAX - 10 {
                    (a.scroll + 10) as u16
                } else {
                    u16::MAX
                },
                _ => a.scroll,
            })
}

/// Up and Down scroll by a line, PageUp and PageDown by ten (saturating).
pub fn handle_key_text_overlay(code: KeyCode, view: &mut TextOverlay)
    ensures
        text_key_step(code, *old(view), *final(view)),
{
    match code {
        KeyCode::Up => {
            view.scroll = view.scroll.saturating_sub(1);
        },
        KeyCode::Down => {
            view.scroll = view.scroll.saturating_add(1);
        },
        KeyCode::PageUp => {
            view.scroll = view.scroll.saturating_sub(10);
        },
        KeyCode::PageDown => {
            view.scroll = view.scroll.saturating_add(10);
        },
        _ => {},
    }
}

/// What the thread picker shows of a thread.
#[derive(Debug)]
pub struct ThreadMeta {
    pub thread_id: u128,
    pub cwd: Option<String>,
    pub attention_state: String,
    pub has_plan_ready: bool,
    pub has_diff_ready: bool,
    pub has_fan_out_linkage_issue: bool,
    pub has_fan_out_auto_apply_error: bool,
    pub has_fan_in_dependency_blocked: bool,
    pub pending_subagent_proxy_approvals: usize,
    pub has_test_failed: bool,
    pub created_at: Option<String>,
    pub updated_at: Option<String>,
    pub title: Option<String>,
    pub first_message: Option<String>,
}

/// The short attention badge of a thread in the picker: the most urgent
/// marker first, then the attention state.
pub open spec fn badge_spec(meta: ThreadMeta) -> Seq<char> {
    if meta.has_fan_out_auto_apply_error {
        "auto!"@
    } else if meta.has_fan_out_linkage_issue {
        "link!"@
    } else if meta.has_fan_in_dependency_blocked {
        "fanin!"@
    } else if meta.pending_subagent_proxy_approvals > 0 {
        if meta.pending_subagent_proxy_approvals > 999 {
            "sub999+"@
        } else {
            "sub"@ + crate::text::dec(meta.pending_subagent_proxy_approvals as nat)
        }
    } else if meta.has_test_failed {
        "test!"@
    } else if meta.has_diff_ready {
        "diff"@
    } else if meta.has_plan_ready {
        "plan"@
    } else {
        let s = meta.attention_state@;
        if s == "need_approval"@ {
            "approve"@
        } else if s == "stuck"@ {
            "stuck"@
        } else if s == "running"@ {
            "run"@
        } else if s == "failed"@ {
            "failed"@
        } else if s == "done"@ {
            "done"@
        } else if s == "idle"@ {
            "idle"@
        } else if s == "paused"@ {
            "paused"@
        } else if s == "interrupted"@ {
            "intr"@
        } else if s == "cancelled"@ {
            "cancel"@
        } else if s == "archived"@ {
            "arch"@
        } else {
            "-"@
        }
    }
}

pub fn attention_badge(meta: &ThreadMeta) -> (r: String)
    ensures
        r@ == badge_spec(*meta),
{
    if meta.has_fan_out_auto_apply_error {
        return owned("auto!");
    }
    if meta.has_fan_out_linkage_issue {
        return owned("link!");
    }
    if meta.has_fan_in_dependency_blocked {
        return owned("fanin!");
    }
    if meta.pending_subagent_proxy_approvals > 0 {
        proof {
            reveal_strlit("sub999+");
            reveal_strlit("sub");
        }
        return crate::labels::subagent_pending_badge(meta.pending_subagent_proxy_approvals);
    }
    if meta.has_test_failed {
        return owned("test!");
    }
    if meta.has_diff_ready {
        return owned("diff");
    }
    if meta.has_plan_ready {
        return owned("plan");
    }
    let s = meta.attention_state.as_str();
    if str_eq(s, "need_approval") {
        owned("approve")
    } else if str_eq(s, "stuck") {
        owned("stuck")
    } else if str_eq(s, "running") {
        owned("run")
    } else if str_eq(s, "failed") {
        owned("failed")
    } else if str_eq(s, "done") {
        owned("done")
    } else if str_eq(s, "idle") {
        owned("idle")
    } else if str_eq(s, "paused") {
        owned("paused")
    } else if str_eq(s, "interrupted") {
        owned("intr")
    } else if str_eq(s, "cancelled") {
        owned("cancel")
    } else if str_eq(s, "archived") {
        owned("arch")
    } else {
        owned("-")
    }
}

/// The thread's header values the palettes show.
#[derive(Debug)]
pub struct HeaderInfo {
    pub mode: Option<String>,
    pub role: Option<String>,
    pub model: Option<String>,
    pub thinking: Option<String>,
    /// The OpenAI provider the thread's configuration names, if any.
    pub provider: Option<String>,
    pub allowed_tools_count: Option<usize>,
    pub execpolicy_rules_count: usize,
}

/// The most transcript entries kept.
pub const MAX_TRANSCRIPT_ITEMS: usize = 5000;

/// The interface's state outside the server.
pub struct UiCore {
    /// The threads the picker lists (those that pass its filters), and the
    /// one selected.
    pub threads: Vec<ThreadMeta>,
    pub selected_thread: usize,
    pub overlays: Vec<Overlay>,
    pub status: Option<String>,
    /// When the status expires, in milliseconds on a monotonic clock.
    pub status_expires_at: Option<u64>,
    pub active_thread: Option<u128>,
    pub header: HeaderInfo,
    pub transcript: Vec<TranscriptEntry>,
    pub transcript_follow: bool,
    /// Lines scrolled from the top of the transcript, and the most there are.
    pub transcript_scroll: u16,
    pub transcript_max_scroll: u16,
    /// Rows the transcript pane shows.
    pub transcript_viewport_height: u16,
    /// A turn is being started.
    pub turn_start_pending: bool,
    /// The turn the open thread runs, once started.
    pub active_turn_id: Option<u128>,
    /// The action that waits for an approval, to run once it is given.
    pub pending_action: Option<PendingAction>,
    /// The reply of the running turn as it streams in.
    pub streaming: Option<StreamingState>,
    /// The names of the tools started and not yet completed.
    pub tool_events: std::collections::HashMap<u128, String>,
    /// The open thread's working directory.
    pub thread_cwd: Option<String>,
    /// The open thread's pending subagent approvals, counted by state.
    pub subagent_pending_summary: Option<crate::approvals::SubagentPendingSummary>,
    /// The pending-subagent summary is to be fetched again.
    pub subagent_pending_summary_needs_refresh: bool,
    /// The last event of the open thread that was applied.
    pub last_seq: u64,
    /// A model list fetch is running.
    pub model_fetch_active: bool,
    /// A model list is awaited (for a palette or the inline model list).
    pub model_fetch_pending: bool,
    /// The composer's text.
    pub input: String,
    /// The palette the composer's last line opened, if any.
    pub inline_palette: Option<InlinePalette>,
    /// The open thread's modes, once asked for.
    pub mode_catalog: Vec<String>,
    pub mode_catalog_loaded: bool,
    /// The skills found on disk, once looked for.
    pub skill_catalog: Vec<String>,
    pub skill_catalog_loaded: bool,
    /// The open thread's models, once fetched.
    pub model_list: Vec<String>,
    pub model_list_loaded: bool,
    /// The header is to be fetched again (the allowed tools or rules changed).
    pub header_needs_refresh: bool,
    pub include_archived: bool,
    pub only_fan_out_linkage_issue: bool,
    pub only_fan_out_auto_apply_error: bool,
    pub only_fan_in_dependency_blocked: bool,
    pub only_subagent_proxy_approval: bool,
    pub total_tokens_used: u64,
    /// The responses whose token usage was counted.
    pub counted_usage_responses: Vec<String>,
    /// Usage of events at or before this sequence number is not counted.
    pub skip_token_usage_before_seq: Option<u64>,
}

/// A message that reports a failure: it names an error, a timeout, a
/// failure or a denial (in any letter case).
pub open spec fn error_message(msg: Seq<char>) -> bool {
    let l = lower_seq(msg);
    contains_seq(l, "error"@) || contains_seq(l, "timeout"@) || contains_seq(l, "failed"@)
        || contains_seq(l, "denied"@)
}

pub fn is_error_message(msg: &str) -> (r: bool)
    ensures
        r == error_message(msg@),
{
    let cs = chars_of(msg);
    let lower = to_lower(cs.as_slice());
    contains_str(lower.as_slice(), "error") || contains_str(lower.as_slice(), "timeout")
        || contains_str(lower.as_slice(), "failed") || contains_str(lower.as_slice(), "denied")
}

/// A thread passes the picker's filters.
pub open spec fn passes_filters(ui: UiCore, t: ThreadMeta) -> bool {
    (!ui.only_fan_out_linkage_issue || t.has_fan_out_linkage_issue) && (!ui.only_fan_out_auto_apply_error
        || t.has_fan_out_auto_apply_error) && (!ui.only_fan_in_dependency_blocked
        || t.has_fan_in_dependency_blocked) && (!ui.only_subagent_proxy_approval
        || t.pending_subagent_proxy_approvals > 0)
}

/// Any of the picker's filters is on.
pub open spec fn any_filter(ui: UiCore) -> bool {
    ui.only_fan_out_linkage_issue || ui.only_fan_out_auto_apply_error || ui.only_fan_in_dependency_blocked
        || ui.only_subagent_proxy_approval
}

/// The palette an overlay offers, if it offers one.
pub open spec fn overlay_palette_spec(top: Overlay, p: CommandPaletteOverlay) -> bool {
    match top {
        Overlay::Approvals(v) => fresh_palette(p, "approvals"@, approvals_palette_items(v)),
        Overlay::Processes(v) => fresh_palette(p, "processes"@, processes_palette_items(v.processes.len() as nat)),
        Overlay::Artifacts(v) => fresh_palette(p, "artifacts"@, artifacts_palette_items(v.artifacts.len() as nat)),
        _ => false,
    }
}

pub open spec fn offers_palette(top: Overlay) -> bool {
    top is Approvals || top is Processes || top is Artifacts
}

/// The top of a stack.
pub open spec fn top_of(overlays: Seq<Overlay>) -> Option<Overlay> {
    if overlays.len() > 0 { Some(overlays.last()) } else { None }
}

pub open spec fn top_is_palette(overlays: Seq<Overlay>) -> bool {
    overlays.len() > 0 && overlays.last() is CommandPalette
}

/// The palette of the overlay on top, if it offers one.
pub fn build_overlay_palette(top: Option<&Overlay>) -> (r: Option<CommandPaletteOverlay>)
    ensures
        match top {
            Some(o) => match r {
                Some(p) => offers_palette(*o) && overlay_palette_spec(*o, p),
                None => !offers_palette(*o),
            },
            None => r is None,
        },
{
    match top {
        Some(Overlay::Approvals(v)) => Some(build_approvals_overlay_palette(v)),
        Some(Overlay::Processes(v)) => Some(build_processes_overlay_palette(v)),
        Some(Overlay::Artifacts(v)) => Some(build_artifacts_overlay_palette(v)),
        _ => None,
    }
}

/// What toggling an overlay's own palette does: a palette on top is closed
/// (and a model fetch stops); otherwise the overlay's palette is opened over
/// it with a two-second status that names it, or the status says there is
/// none.
pub open spec fn overlay_palette_toggled(before: UiCore, after: UiCore, now_ms: u64, r: bool) -> bool {
    &&& (before.overlays@.len() == 0 ==> !r && after.overlays@ == before.overlays@
                && after.status == before.status)
    &&& (top_is_palette(before.overlays@) ==> r && after.overlays@ == before.overlays@.drop_last() && !after.model_fetch_active && !after.model_fetch_pending)
    &&& (before.overlays@.len() > 0 && !top_is_palette(before.overlays@) ==> {
                let top = before.overlays@.last();
                if offers_palette(top) {
                    r && after.overlays@.len() == before.overlays@.len() + 1
                        && after.overlays@.drop_last() == before.overlays@ && (after.overlays@.last() matches Overlay::CommandPalette(p) && overlay_palette_spec(top, p)
                        && temporary_status_shown(
                        after,
                        "overlay commands: "@ + context_label_spec(p.title@),
                        now_ms,
                    ))
                } else {
                    !r && after.overlays@ == before.overlays@ && temporary_status_shown(
                        after,
                        "overlay commands unavailable"@,
                        now_ms,
                    )
                }
            })
}

impl UiCore {
    /// The state at start-up: nothing open, no status, no filters.
    pub fn new(include_archived: bool) -> (r: UiCore)
        ensures
            r.overlays@.len() == 0,
            r.status is None,
            r.status_expires_at is None,
            r.active_thread is None,
            r.transcript@.len() == 0,
            r.include_archived == include_archived,
            !any_filter(r),
            r.total_tokens_used == 0,
            r.threads@.len() == 0,
            r.selected_thread == 0,
            r.transcript_follow,
    {
        UiCore {
            threads: Vec::new(),
            selected_thread: 0,
            overlays: Vec::new(),
            status: None,
            status_expires_at: None,
            active_thread: None,
            header: HeaderInfo {
                mode: None,
                role: None,
                model: None,
                thinking: None,
                provider: None,
                allowed_tools_count: None,
                execpolicy_rules_count: 0,
            },
            transcript: Vec::new(),
            transcript_follow: true,
            transcript_scroll: 0,
            transcript_max_scroll: 0,
            transcript_viewport_height: 0,
            turn_start_pending: false,
            active_turn_id: None,
            pending_action: None,
            streaming: None,
            tool_events: std::collections::HashMap::new(),
            thread_cwd: None,
            subagent_pending_summary: None,
            subagent_pending_summary_needs_refresh: false,
            last_seq: 0,
            model_fetch_active: false,
            model_fetch_pending: false,
            input: String::new(),
            inline_palette: None,
            mode_catalog: Vec::new(),
            mode_catalog_loaded: false,
            skill_catalog: Vec::new(),
            skill_catalog_loaded: false,
            model_list: Vec::new(),
            model_list_loaded: false,
            header_needs_refresh: false,
            include_archived,
            only_fan_out_linkage_issue: false,
            only_fan_out_auto_apply_error: false,
            only_fan_in_dependency_blocked: false,
            only_subagent_proxy_approval: false,
            total_tokens_used: 0,
            counted_usage_responses: Vec::new(),
            skip_token_usage_before_seq: None,
        }
    }

    /// Appends to the transcript, dropping the oldest entry when it is full.
    pub fn push_transcript(&mut self, entry: TranscriptEntry)
        requires
            old(self).transcript@.len() <= MAX_TRANSCRIPT_ITEMS,
        ensures
            final(self).transcript@ == (if old(self).transcript@.len() >= MAX_TRANSCRIPT_ITEMS {
                old(self).transcript@.drop_first()
            } else {
                old(self).transcript@
            }).push(entry),
            final(self).transcript@.len() <= MAX_TRANSCRIPT_ITEMS,
            *final(self) == (UiCore { transcript: final(self).transcript, ..*old(self) }),
            final(self).overlays == old(self).overlays,
            final(self).status == old(self).status,
            final(self).status_expires_at == old(self).status_expires_at,
            final(self).active_thread == old(self).active_thread,
    {
        if self.transcript.len() >= MAX_TRANSCRIPT_ITEMS {
            self.transcript.remove(0);
        }
        self.transcript.push(entry);
    }

    /// Shows an error: it stays until replaced, and is added to the
    /// transcript of the open thread.
    #[verifier::rlimit(60)]
    #[verifier::spinoff_prover]
    pub fn report_error(&mut self, msg: String)
        requires
            old(self).transcript@.len() <= MAX_TRANSCRIPT_ITEMS,
        ensures
            final(self).status == Some(msg),
            final(self).status_expires_at is None,
            *final(self) == (UiCore {
                status: Some(msg),
                status_expires_at: None,
                transcript: final(self).transcript,
                ..*old(self)
            }),
            final(self).overlays == old(self).overlays,
            final(self).active_thread == old(self).active_thread,
            final(self).transcript@.len() <= MAX_TRANSCRIPT_ITEMS,
            old(self).active_thread is Some ==> final(self).transcript@.last().role
                == TranscriptRole::Error && final(self).transcript@.last().text@ == msg@,
            old(self).active_thread is None ==> final(self).transcript == old(self).transcript,
    {
        self.status = Some(msg.clone());
        self.status_expires_at = None;
        if self.active_thread.is_some() {
            self.push_transcript(TranscriptEntry { role: TranscriptRole::Error, text: msg });
        }
    }

    /// Shows a message; an error message is reported as an error.
    pub fn set_status(&mut self, msg: String)
        requires
            old(self).transcript@.len() <= MAX_TRANSCRIPT_ITEMS,
        ensures
            final(self).status == Some(msg),
            final(self).status_expires_at is None,
            *final(self) == (UiCore {
                status: Some(msg),
                status_expires_at: None,
                transcript: final(self).transcript,
                ..*old(self)
            }),
            final(self).overlays == old(self).overlays,
            final(self).transcript@.len() <= MAX_TRANSCRIPT_ITEMS,
            !error_message(msg@) ==> final(self).transcript == old(self).transcript,
    {
        if is_error_message(msg.as_str()) {
            self.report_error(msg);
        } else {
            self.status = Some(msg);
            self.status_expires_at = None;
        }
    }

    /// Shows a message until `ttl_ms` after `now_ms`; an error message is
    /// reported as an error and does not expire.
    pub fn set_temporary_status(&mut self, msg: String, ttl_ms: u64, now_ms: u64)
        requires
            old(self).transcript@.len() <= MAX_TRANSCRIPT_ITEMS,
        ensures
            final(self).status == Some(msg),
            final(self).status_expires_at == (if error_message(msg@) {
                None
            } else {
                Some(if now_ms + ttl_ms > u64::MAX { u64::MAX } else { (now_ms + ttl_ms) as u64 })
            }),
            final(self).overlays == old(self).overlays,
            final(self).transcript@.len() <= MAX_TRANSCRIPT_ITEMS,
            !error_message(msg@) ==> final(self).transcript == old(self).transcript,
    {
        if is_error_message(msg.as_str()) {
            self.report_error(msg);
        } else {
            self.status = Some(msg);
            self.status_expires_at = Some(now_ms.saturating_add(ttl_ms));
        }
    }

    pub fn clear_status(&mut self)
        ensures
            *final(self) == (UiCore { status: None, status_expires_at: None, ..*old(self) }),
            final(self).status is None,
            final(self).status_expires_at is None,
            final(self).overlays == old(self).overlays,
            final(self).transcript == old(self).transcript,
    {
        self.status = None;
        self.status_expires_at = None;
    }

    /// Clears the status unless it reports an error.
    pub fn dismiss_non_error_status(&mut self)
        ensures
            match old(self).status {
                Some(s) => if error_message(s@) {
                    final(self).status == old(self).status && final(self).status_expires_at == old(self).status_expires_at
                } else {
                    final(self).status is None && final(self).status_expires_at is None
                },
                None => final(self).status is None && final(self).status_expires_at == old(self).status_expires_at,
            },
            final(self).overlays == old(self).overlays,
            final(self).transcript == old(self).transcript,
    {
        let dismiss = match &self.status {
            Some(s) => !is_error_message(s.as_str()),
            None => false,
        };
        if dismiss {
            self.clear_status();
        }
    }

    /// Clears a status whose time is up (at `now_ms`); says whether it did.
    pub fn expire_status_if_needed(&mut self, now_ms: u64) -> (r: bool)
        ensures
            r == (match old(self).status_expires_at {
                Some(t) => t <= now_ms,
                None => false,
            }),
            r ==> *final(self) == (UiCore { status: None, status_expires_at: None, ..*old(self) }),
            !r ==> *final(self) == *old(self),
            r ==> final(self).status is None && final(self).status_expires_at is None,
            final(self).overlays == old(self).overlays,
            final(self).transcript == old(self).transcript,
    {
        let due = match self.status_expires_at {
            Some(t) => t <= now_ms,
            None => false,
        };
        if due {
            self.clear_status();
        }
        due
    }

    /// Turns every picker filter off; says whether any was on.
    pub fn clear_thread_picker_filters(&mut self) -> (r: bool)
        ensures
            r == any_filter(*old(self)),
            !any_filter(*final(self)),
            *final(self) == (UiCore {
                only_fan_out_linkage_issue: false,
                only_fan_out_auto_apply_error: false,
                only_fan_in_dependency_blocked: false,
                only_subagent_proxy_approval: false,
                ..*old(self)
            }),
            final(self).include_archived == old(self).include_archived,
            final(self).overlays == old(self).overlays,
            final(self).status == old(self).status,
    {
        let changed = self.only_fan_out_linkage_issue || self.only_fan_out_auto_apply_error
            || self.only_fan_in_dependency_blocked || self.only_subagent_proxy_approval;
        self.only_fan_out_linkage_issue = false;
        self.only_fan_out_auto_apply_error = false;
        self.only_fan_in_dependency_blocked = false;
        self.only_subagent_proxy_approval = false;
        changed
    }

    /// The threads that pass the picker's filters, in order.
    pub fn apply_thread_picker_filters(&self, threads: Vec<ThreadMeta>) -> (r: Vec<ThreadMeta>)
        ensures
            r@ == threads@.filter(|t: ThreadMeta| passes_filters(*self, t)),
    {
        let ghost pred = |t: ThreadMeta| passes_filters(*self, t);
        let ghost all = threads@;
        let n = threads.len();
        let mut rest = threads;
        let mut out: Vec<ThreadMeta> = Vec::new();
        let mut i: usize = 0;
        assert(all.skip(0) =~= all);
        while rest.len() > 0
            invariant
                i <= all.len(),
                all.len() == n,
                rest@ == all.skip(i as int),
                out@ == all.take(i as int).filter(pred),
                pred == (|t: ThreadMeta| passes_filters(*self, t)),
            decreases rest.len(),
        {
            let t = rest.remove(0);
            proof {
                assert(all.take(i + 1).drop_last() =~= all.take(i as int));
                assert(all.take(i + 1).last() == t);
                reveal_with_fuel(Seq::filter, 1);
            }
            let keep = (!self.only_fan_out_linkage_issue || t.has_fan_out_linkage_issue)
                && (!self.only_fan_out_auto_apply_error || t.has_fan_out_auto_apply_error) && (
            !self.only_fan_in_dependency_blocked || t.has_fan_in_dependency_blocked) && (
            !self.only_subagent_proxy_approval || t.pending_subagent_proxy_approvals > 0);
            if keep {
                out.push(t);
            }
            i += 1;
            assert(rest@ =~= all.skip(i as int));
        }
        assert(all.take(i as int) =~= all);
        out
    }

    /// The values the root palette shows.
    pub open spec fn root_state_spec(self) -> RootPaletteState {
        RootPaletteState {
            include_archived: self.include_archived,
            only_fan_out_linkage_issue: self.only_fan_out_linkage_issue,
            only_fan_out_auto_apply_error: self.only_fan_out_auto_apply_error,
            only_fan_in_dependency_blocked: self.only_fan_in_dependency_blocked,
            only_subagent_proxy_approval: self.only_subagent_proxy_approval,
            active_thread: self.active_thread is Some,
            mode: self.header.mode,
            model: self.header.model,
            allowed_tools_count: self.header.allowed_tools_count,
            execpolicy_rules_count: self.header.execpolicy_rules_count,
        }
    }

    /// Replaces the palette on top, or pushes one when the top is not a palette.
    pub fn replace_top_command_palette(&mut self, palette: CommandPaletteOverlay)
        ensures
            top_is_palette(old(self).overlays@) ==> final(self).overlays@ == old(self).overlays@.drop_last().push(
                Overlay::CommandPalette(palette),
            ),
            !top_is_palette(old(self).overlays@) ==> final(self).overlays@ == old(self).overlays@.push(
                Overlay::CommandPalette(palette),
            ),
            *final(self) == (UiCore { overlays: final(self).overlays, ..*old(self) }),
            final(self).status == old(self).status,
            final(self).transcript == old(self).transcript,
    {
        let n = self.overlays.len();
        if n > 0 {
            if let Overlay::CommandPalette(_) = &self.overlays[n - 1] {
                self.overlays.pop();
            }
        }
        self.overlays.push(Overlay::CommandPalette(palette));
    }

    /// Opens the overlay's own command palette over it, or closes the one on
    /// top; says whether it did either.  The status it shows expires after
    /// two seconds (unless it reads as an error).
    #[verifier::spinoff_prover]
    #[verifier::rlimit(40)]
    pub fn toggle_overlay_command_palette(&mut self, now_ms: u64) -> (r: bool)
        requires
            old(self).transcript@.len() <= MAX_TRANSCRIPT_ITEMS,
        ensures
            overlay_palette_toggled(*old(self), *final(self), now_ms, r),
            final(self).transcript@.len() <= MAX_TRANSCRIPT_ITEMS,
    {
        let ghost os0 = self.overlays@;
        let n = self.overlays.len();
        if n == 0 {
            return false;
        }
        if let Overlay::CommandPalette(_) = &self.overlays[n - 1] {
            self.model_fetch_active = false;
            self.model_fetch_pending = false;
            self.overlays.pop();
            assert(self.overlays@ =~= os0.drop_last());
            return true;
        }
        match build_overlay_palette(Some(&self.overlays[n - 1])) {
            Some(palette) => {
                let context = palette.context_label();
                let ghost title = palette.title@;
                self.overlays.push(Overlay::CommandPalette(palette));
                assert(self.overlays@.drop_last() =~= os0);
                let mut msg = String::new();
                push_str(&mut msg, "overlay commands: ");
                push_str(&mut msg, context.as_str());
                assert(msg@ =~= "overlay commands: "@ + context_label_spec(title));
                self.set_temporary_status(msg, 2000, now_ms);
                true
            },
            None => {
                let msg = owned("overlay commands unavailable");
                self.set_temporary_status(msg, 2000, now_ms);
                false
            },
        }
    }
}

/// What toggling the root palette does: a palette on top is closed (and a
/// model fetch stops); otherwise the root palette, fresh, is opened over the
/// stack and the transcript follows again.
pub open spec fn palette_toggled(before: UiCore, after: UiCore) -> bool {
    if top_is_palette(before.overlays@) {
        after.overlays@ == before.overlays@.drop_last() && !after.model_fetch_active && !after.model_fetch_pending
    } else {
        &&& after.overlays@.drop_last() == before.overlays@
        &&& after.overlays@.len() == before.overlays@.len() + 1
        &&& after.transcript_follow
        &&& after.overlays@.last() matches Overlay::CommandPalette(p) && fresh_palette(
            p,
            "commands"@,
            crate::palettes::root_items(before.root_state_spec()),
        )
    }
}

/// Toggling the root palette twice, with no palette on top at first, gives
/// back the overlay stack it started from.
pub proof fn lemma_palette_toggle_twice(a: UiCore, b: UiCore, c: UiCore)
    requires
        !top_is_palette(a.overlays@),
        palette_toggled(a, b),
        palette_toggled(b, c),
    ensures
        c.overlays@ == a.overlays@,
{
    assert(top_is_palette(b.overlays@));
}

/// With no picker filter on, the picker keeps every thread, in order.
pub proof fn lemma_no_filter_keeps_all(ui: UiCore, threads: Seq<ThreadMeta>)
    requires
        !any_filter(ui),
    ensures
        threads.filter(|t: ThreadMeta| passes_filters(ui, t)) == threads,
    decreases threads.len(),
{
    let pred = |t: ThreadMeta| passes_filters(ui, t);
    reveal_with_fuel(Seq::filter, 1);
    if threads.len() > 0 {
        lemma_no_filter_keeps_all(ui, threads.drop_last());
        assert(threads.drop_last().push(threads.last()) =~= threads);
    } else {
        assert(threads.filter(pred) =~= threads);
    }
}

/// The stack a palette key acts on: the one under a palette on top.
pub open spec fn under_palette(overlays: Seq<Overlay>) -> Seq<Overlay> {
    if top_is_palette(overlays) { overlays.drop_last() } else { overlays }
}

/// The overlay's own key handler can take a key (its counters can grow).
pub open spec fn local_key_ok(overlays: Seq<Overlay>) -> bool {
    overlays.len() > 0 ==> match overlays.last() {
        Overlay::Approvals(v) => v.selected + v.approvals.len() < usize::MAX,
        Overlay::Artifacts(v) => v.selected < usize::MAX && v.selected_version < usize::MAX,
        _ => true,
    }
}

/// What an overlay's own handler does with a key: the overlay after it,
/// whether it answered the key, and the message it has to show, if any.
pub open spec fn overlay_key_answer(
    before: Overlay,
    after: Overlay,
    code: KeyCode,
    handled: bool,
    msg: Option<String>,
) -> bool {
    match before {
        Overlay::Approvals(a) => after matches Overlay::Approvals(b) && exists|res: ApprovalsLocalKeyResult|
            #[trigger] approvals_key_step(a, b, code, res) && handled == (res is Handled) && msg == (match res {
            ApprovalsLocalKeyResult::Handled(m) => m,
            ApprovalsLocalKeyResult::Unhandled => None,
        }),
        Overlay::Processes(a) => after matches Overlay::Processes(b) && msg is None && exists|
            res: ProcessesLocalKeyResult,
        | #[trigger] processes_key_step(a, b, code, res) && handled == (res == ProcessesLocalKeyResult::Handled),
        Overlay::Artifacts(a) => after matches Overlay::Artifacts(b) && {
            let (m, o) = artifacts_key_spec(a@, code);
            &&& b@ == m
            &&& handled == !(o is Unhandled)
            &&& match o {
                ArtifactKeyOutcome::HandledLatestReset(v) => msg matches Some(t) && t@
                    == "artifact version reset to latest: "@ + crate::text::dec(v as nat),
                ArtifactKeyOutcome::HandledLatestOnRead => msg matches Some(t) && t@
                    == "artifact read will use latest version"@,
                _ => msg is None,
            }
        },
        _ => after == before && !handled && msg is None,
    }
}

/// What handing a key to the overlay under the palette does to the state:
/// the palette is closed and the overlay's own handler takes the key.
pub open spec fn local_key_step(before: UiCore, after: UiCore, code: KeyCode, handled: bool) -> bool {
    let base = under_palette(before.overlays@);
    if base.len() == 0 {
        !handled && after.overlays@.len() == 0 && after.status == before.status
    } else {
        &&& after.overlays@.len() == base.len()
        &&& after.overlays@.drop_last() == base.drop_last()
        &&& exists|msg: Option<String>|
            #[trigger] overlay_key_answer(base.last(), after.overlays@.last(), code, handled, msg)
                && after.status == (if msg is Some { msg } else { before.status })
    }
}

/// `context_label` of a palette title.
pub open spec fn context_label_spec(title: Seq<char>) -> Seq<char> {
    if trim(title).len() == 0 { "commands"@ } else { lower_seq(trim(title)) }
}

/// The status shows `msg`, expiring two seconds after `now_ms` unless it
/// reads as an error.
pub open spec fn temporary_status_shown(ui: UiCore, msg: Seq<char>, now_ms: u64) -> bool {
    &&& ui.status matches Some(s) && s@ == msg
    &&& ui.status_expires_at == (if error_message(msg) {
        None
    } else {
        Some(if now_ms + 2000 > u64::MAX { u64::MAX } else { (now_ms + 2000) as u64 })
    })
}


/// The thinking levels, in the order the key cycles through them.
pub open spec fn thinking_levels() -> Seq<Seq<char>> {
    seq!["small"@, "medium"@, "high"@, "xhigh"@]
}

/// The position of the current level (trimmed, lower case; `medium` when
/// unset or unknown).
pub open spec fn thinking_index(current: Option<Seq<char>>) -> int {
    let c = match current {
        Some(s) => lower_seq(trim(s)),
        None => "medium"@,
    };
    if c == "small"@ {
        0
    } else if c == "medium"@ {
        1
    } else if c == "high"@ {
        2
    } else if c == "xhigh"@ {
        3
    } else {
        1
    }
}

/// The level after the current one, wrapping around.
pub fn next_thinking_level(current: Option<&str>) -> (r: &'static str)
    ensures
        r@ == thinking_levels()[(thinking_index(crate::tool_format::opt_str(current)) + 1) % 4],
{
    let c: String = match current {
        Some(s) => {
            let cs = chars_of(s);
            let t = crate::text::trim_chars(cs.as_slice());
            crate::text::string_of(to_lower(t.as_slice()).as_slice())
        },
        None => owned("medium"),
    };
    let idx: usize = if str_eq(c.as_str(), "small") {
        0
    } else if str_eq(c.as_str(), "medium") {
        1
    } else if str_eq(c.as_str(), "high") {
        2
    } else if str_eq(c.as_str(), "xhigh") {
        3
    } else {
        1
    };
    let next = (idx + 1) % 4;
    if next == 0 {
        "small"
    } else if next == 1 {
        "medium"
    } else if next == 2 {
        "high"
    } else {
        "xhigh"
    }
}

/// The texts of a list of strings.
pub open spec fn texts(v: Seq<String>) -> Seq<Seq<char>> {
    v.map_values(|s: String| s@)
}

/// The response id that counts: a non-blank one.
pub open spec fn counted_id(response_id: Option<Seq<char>>) -> Option<Seq<char>> {
    match response_id {
        Some(r) => if trim(r).len() > 0 { Some(r) } else { None },
        None => None,
    }
}

/// Usage of an event at or before the skip point is not counted.
pub open spec fn usage_skipped(ui: UiCore, event_seq: u64) -> bool {
    match ui.skip_token_usage_before_seq {
        Some(s) => event_seq <= s,
        None => false,
    }
}

/// What recording a response's usage does: nothing without a total, for a
/// skipped event or for a response already counted; otherwise the total
/// grows (saturating) and a non-blank response id is remembered.
pub open spec fn usage_recorded(
    before: UiCore,
    after: UiCore,
    response_id: Option<Seq<char>>,
    tokens: Option<u64>,
    event_seq: u64,
) -> bool {
    let rid = counted_id(response_id);
    let repeat = match rid {
        Some(r) => texts(before.counted_usage_responses@).contains(r),
        None => false,
    };
    &&& after.skip_token_usage_before_seq == before.skip_token_usage_before_seq
    &&& if tokens is None || usage_skipped(before, event_seq) || repeat {
        after.total_tokens_used == before.total_tokens_used
            && after.counted_usage_responses@ == before.counted_usage_responses@
    } else {
        &&& after.total_tokens_used == (if before.total_tokens_used + tokens->0 > u64::MAX {
            u64::MAX
        } else {
            (before.total_tokens_used + tokens->0) as u64
        })
        &&& texts(after.counted_usage_responses@) == (match rid {
            Some(r) => texts(before.counted_usage_responses@).push(r),
            None => texts(before.counted_usage_responses@),
        })
    }
}

/// A response is counted at most once: once its usage has been counted
/// (it had a total and was not skipped), recording it again changes nothing.
pub proof fn lemma_usage_counted_once(
    a: UiCore,
    b: UiCore,
    c: UiCore,
    r: Seq<char>,
    first: u64,
    second: Option<u64>,
    seq1: u64,
    seq2: u64,
)
    requires
        trim(r).len() > 0,
        !usage_skipped(a, seq1),
        usage_recorded(a, b, Some(r), Some(first), seq1),
        usage_recorded(b, c, Some(r), second, seq2),
    ensures
        c.total_tokens_used == b.total_tokens_used,
        c.counted_usage_responses@ == b.counted_usage_responses@,
{
    let before = texts(a.counted_usage_responses@);
    if !before.contains(r) {
        assert(texts(b.counted_usage_responses@)[before.len() as int] == r);
    }
    assert(texts(b.counted_usage_responses@).contains(r));
}

impl UiCore {
    /// Counts the tokens of a response once: nothing without a total, for
    /// an event at or before the skip point, or for a (non-blank) response
    /// already counted; otherwise the total grows (saturating) and the
    /// response is remembered.
    #[verifier::loop_isolation(false)]
    #[verifier::spinoff_prover]
    #[verifier::rlimit(60)]
    pub fn record_token_usage(&mut self, response_id: Option<&str>, usage: Option<&JsonValue>, event_seq: u64)
        ensures
            *final(self) == (UiCore {
                total_tokens_used: final(self).total_tokens_used,
                counted_usage_responses: final(self).counted_usage_responses,
                ..*old(self)
            }),
            final(self).overlays == old(self).overlays,
            final(self).status == old(self).status,
            final(self).transcript == old(self).transcript,
            usage_recorded(
                *old(self),
                *final(self),
                crate::tool_format::opt_str(response_id),
                match usage {
                    Some(u) => crate::tool_format::usage_total_spec(*u),
                    None => None,
                },
                event_seq,
            ),
    {
        let tokens = match usage {
            Some(u) => crate::tool_format::usage_total_tokens(u),
            None => None,
        };
        let tokens = match tokens {
            Some(t) => t,
            None => return,
        };
        match self.skip_token_usage_before_seq {
            Some(s) => if event_seq <= s {
                return;
            },
            None => {},
        }
        match response_id {
            Some(r) => {
                let rc = chars_of(r);
                if crate::text::trim_chars(rc.as_slice()).len() > 0 {
                    let mut i: usize = 0;
                    while i < self.counted_usage_responses.len()
                        invariant
                            i <= self.counted_usage_responses.len(),
                            forall|j: int| 0 <= j < i ==> self.counted_usage_responses@[j]@ != r@,
                        decreases self.counted_usage_responses.len() - i,
                    {
                        if str_eq(self.counted_usage_responses[i].as_str(), r) {
                            proof {
                                assert(texts(self.counted_usage_responses@)[i as int] == r@);
                                assert(texts(self.counted_usage_responses@).contains(r@));
                            }
                            return;
                        }
                        i += 1;
                    }
                    proof {
                        assert(!texts(self.counted_usage_responses@).contains(r@)) by {
                            if texts(self.counted_usage_responses@).contains(r@) {
                                let j = choose|j: int|
                                    0 <= j < texts(self.counted_usage_responses@).len() && texts(
                                        self.counted_usage_responses@,
                                    )[j] == r@;
                                assert(self.counted_usage_responses@[j]@ == r@);
                            }
                        }
                    }
                    let ghost before = self.counted_usage_responses@;
                    self.counted_usage_responses.push(owned(r));
                    assert(texts(self.counted_usage_responses@) =~= texts(before).push(r@));
                }
            },
            None => {},
        }
        self.total_tokens_used = self.total_tokens_used.saturating_add(tokens);
    }

    /// The values the root palette shows, as the palette builder takes them.
    pub fn root_palette_state(&self) -> (r: RootPaletteState)
        ensures
            r.include_archived == self.include_archived,
            r.only_fan_out_linkage_issue == self.only_fan_out_linkage_issue,
            r.only_fan_out_auto_apply_error == self.only_fan_out_auto_apply_error,
            r.only_fan_in_dependency_blocked == self.only_fan_in_dependency_blocked,
            r.only_subagent_proxy_approval == self.only_subagent_proxy_approval,
            r.active_thread == self.active_thread is Some,
            r.mode == self.header.mode,
            r.model == self.header.model,
            r.allowed_tools_count == self.header.allowed_tools_count,
            r.execpolicy_rules_count == self.header.execpolicy_rules_count,
    {
        RootPaletteState {
            include_archived: self.include_archived,
            only_fan_out_linkage_issue: self.only_fan_out_linkage_issue,
            only_fan_out_auto_apply_error: self.only_fan_out_auto_apply_error,
            only_fan_in_dependency_blocked: self.only_fan_in_dependency_blocked,
            only_subagent_proxy_approval: self.only_subagent_proxy_approval,
            active_thread: self.active_thread.is_some(),
            mode: match &self.header.mode {
                Some(m) => Some(m.clone()),
                None => None,
            },
            model: match &self.header.model {
                Some(m) => Some(m.clone()),
                None => None,
            },
            allowed_tools_count: self.header.allowed_tools_count,
            execpolicy_rules_count: self.header.execpolicy_rules_count,
        }
    }

    /// Closes the palette on top (stopping a model fetch), or opens the root
    /// palette (following the transcript again).
    pub fn toggle_command_palette(&mut self)
        ensures
            palette_toggled(*old(self), *final(self)),
            final(self).status == old(self).status,
            final(self).transcript == old(self).transcript,
    {
        let ghost before = self.overlays@;
        let n = self.overlays.len();
        if n > 0 {
            if let Overlay::CommandPalette(_) = &self.overlays[n - 1] {
                self.model_fetch_active = false;
                self.model_fetch_pending = false;
                self.overlays.pop();
                assert(self.overlays@ =~= before.drop_last());
                return;
            }
        }
        self.transcript_follow = true;
        let state = self.root_palette_state();
        let palette = crate::palettes::build_root_palette(&state);
        self.overlays.push(Overlay::CommandPalette(palette));
        assert(self.overlays@.drop_last() =~= before);
    }
}

/// Hands a key to an overlay's own handler: the overlay after it, whether
/// it answered, and the message it has to show.
fn overlay_take_key(top: Overlay, code: KeyCode) -> (r: (Overlay, bool, Option<String>))
    requires
        local_key_ok(seq![top]),
    ensures
        overlay_key_answer(top, r.0, code, r.1, r.2),
{
    match top {
        Overlay::Approvals(mut v) => {
            let ghost a = v;
            let res = handle_local_approvals_key(&mut v, code);
            assert(approvals_key_step(a, v, code, res));
            match res {
                ApprovalsLocalKeyResult::Handled(s) => (Overlay::Approvals(v), true, s),
                ApprovalsLocalKeyResult::Unhandled => (Overlay::Approvals(v), false, None),
            }
        },
        Overlay::Processes(mut v) => {
            let ghost a = v;
            let res = handle_local_processes_key(&mut v, code);
            let after = Overlay::Processes(v);
            assert(processes_key_step(a, after->Processes_0, code, res));
            match res {
                ProcessesLocalKeyResult::Handled => (after, true, None),
                ProcessesLocalKeyResult::Unhandled => (after, false, None),
            }
        },
        Overlay::Artifacts(mut v) => {
            let res = handle_local_artifacts_key(&mut v, code);
            match res {
                ArtifactsLocalKeyResult::Handled(s) => (Overlay::Artifacts(v), true, s),
                ArtifactsLocalKeyResult::Unhandled => (Overlay::Artifacts(v), false, None),
            }
        },
        other => (other, false, None),
    }
}

impl UiCore {
    /// Hands a key chosen in an overlay's palette to the overlay under it:
    /// the palette on top is closed, and the overlay's own handler takes the
    /// key; what the handler says is shown as the status.  Says whether the
    /// overlay answered the key.
    /// Closes the palette on top, if there is one.
    fn pop_palette_on_top(&mut self)
        ensures
            final(self).overlays@ == under_palette(old(self).overlays@),
            *final(self) == (UiCore { overlays: final(self).overlays, ..*old(self) }),
    {
        let ghost start = self.overlays@;
        let n = self.overlays.len();
        if n > 0 {
            if let Overlay::CommandPalette(_) = &self.overlays[n - 1] {
                self.overlays.pop();
            }
        }
        assert(self.overlays@ =~= under_palette(start));
    }

    /// Takes the overlay on top off the stack.
    pub(crate) fn pop_top(&mut self) -> (r: Option<Overlay>)
        ensures
            match r {
                Some(o) => old(self).overlays@.len() > 0 && o == old(self).overlays@.last()
                    && final(self).overlays@ == old(self).overlays@.drop_last(),
                None => old(self).overlays@.len() == 0 && final(self).overlays@ == old(self).overlays@,
            },
            *final(self) == (UiCore { overlays: final(self).overlays, ..*old(self) }),
    {
        self.overlays.pop()
    }

    /// Puts an overlay on top of the stack.
    pub(crate) fn push_top(&mut self, o: Overlay)
        ensures
            final(self).overlays@ == old(self).overlays@.push(o),
            *final(self) == (UiCore { overlays: final(self).overlays, ..*old(self) }),
    {
        self.overlays.push(o);
    }

    /// Shows a message when there is one.
    fn show_message(&mut self, msg: Option<String>)
        requires
            old(self).transcript@.len() <= MAX_TRANSCRIPT_ITEMS,
        ensures
            final(self).status == (if msg is Some { msg } else { old(self).status }),
            final(self).transcript@.len() <= MAX_TRANSCRIPT_ITEMS,
            *final(self) == (UiCore {
                status: final(self).status,
                status_expires_at: final(self).status_expires_at,
                transcript: final(self).transcript,
                ..*old(self)
            }),
    {
        match msg {
            Some(m) => self.set_status(m),
            None => {},
        }
    }

    /// Hands a key chosen in an overlay's palette to the overlay under it:
    /// the palette on top is closed, and the overlay's own handler takes the
    /// key; what the handler says is shown as the status.  Says whether the
    /// overlay answered the key.
    pub fn apply_overlay_palette_local_key(&mut self, key: KeyInput) -> (r: bool)
        requires
            old(self).transcript@.len() <= MAX_TRANSCRIPT_ITEMS,
            local_key_ok(under_palette(old(self).overlays@)),
        ensures
            final(self).transcript@.len() <= MAX_TRANSCRIPT_ITEMS,
            local_key_step(*old(self), *final(self), key.code, r),
            *final(self) == (UiCore {
                overlays: final(self).overlays,
                status: final(self).status,
                status_expires_at: final(self).status_expires_at,
                transcript: final(self).transcript,
                ..*old(self)
            }),
    {
        self.pop_palette_on_top();
        let ghost base = self.overlays@;
        let top = match self.pop_top() {
            Some(o) => o,
            None => return false,
        };
        let (after, handled, msg) = overlay_take_key(top, key.code);
        let ghost pushed = after;
        let ghost msg_g = msg;
        self.push_top(after);
        assert(self.overlays@.drop_last() =~= base.drop_last());
        let ghost status_before = self.status;
        self.show_message(msg);
        assert(self.overlays@.last() == pushed);
        assert(self.overlays@.len() == base.len());
        assert(self.status == (if msg_g is Some { msg_g } else { status_before }));
        assert(overlay_key_answer(base.last(), pushed, key.code, handled, msg_g));
        handled
    }
}

} // verus!
