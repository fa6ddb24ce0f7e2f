//! The thread picker, and moving between it and an open thread: what a key
//! does in the picker, what a fetched thread list, a newly opened thread
//! and its configuration change in the interface.
use vstd::prelude::*;
use crate::json::{get_spec, str_of, JsonValue};
use crate::keys::{KeyCode, KeyInput};
use crate::palettes::on_off;
use crate::pending_summary::{subagent_count, summarize_subagent_pending_summary, summarizes, PendingApproval};
use crate::text::{chars_of, owned, push_str, string_of, trim, trim_chars};
use crate::ui_state::{any_filter, passes_filters, HeaderInfo, ThreadMeta, UiCore, MAX_TRANSCRIPT_ITEMS};

verus! {

/// What the caller does after a key in the thread picker.
#[derive(Debug)]
pub enum ThreadsKeyFollowUp {
    Nothing,
    Quit,
    /// Fetch the thread list again (then `apply_thread_list`), and show this
    /// status once it is fetched.
    RefreshThreads { then_status: Option<String> },
    /// Start a new thread and open it.
    StartThread,
    /// Open this thread.
    OpenThread(u128),
}

/// The selection kept within a list of `n` threads.
pub open spec fn clamped_selection(selected: usize, n: nat) -> usize {
    if selected >= n {
        if n == 0 { 0 } else { (n - 1) as usize }
    } else {
        selected
    }
}

/// The picker lists the fetched threads that pass its filters.
pub open spec fn threads_listed(before: UiCore, after: UiCore, threads: Seq<ThreadMeta>) -> bool {
    &&& after == (UiCore { threads: after.threads, selected_thread: after.selected_thread, ..before })
    &&& after.threads@ == threads.filter(|t: ThreadMeta| passes_filters(before, t))
    &&& after.selected_thread == clamped_selection(before.selected_thread, after.threads@.len())
}

/// A picker filter toggled, the list to be fetched again with a status.
pub open spec fn refresh_status(f: ThreadsKeyFollowUp, text: Seq<char>) -> bool {
    f matches ThreadsKeyFollowUp::RefreshThreads { then_status: Some(s) } && s@ == text
}

/// A picker filter (or the archived threads) toggled by a key, the list to
/// be fetched again with a status that names the new value.
#[verifier::opaque]
pub open spec fn toggle_step(before: UiCore, after: UiCore, c: char, f: ThreadsKeyFollowUp) -> bool {
    if c == 'h' {
        after == (UiCore { include_archived: !before.include_archived, ..before })
            && refresh_status(f, "thread list: include_archived="@ + on_off(after.include_archived))
    } else if c == 'l' {
        after == (UiCore { only_fan_out_linkage_issue: !before.only_fan_out_linkage_issue, ..before })
            && refresh_status(f, "thread filter: fan_out_linkage_issue="@ + on_off(after.only_fan_out_linkage_issue))
    } else if c == 'a' {
        after == (UiCore { only_fan_out_auto_apply_error: !before.only_fan_out_auto_apply_error, ..before })
            && refresh_status(
            f,
            "thread filter: fan_out_auto_apply_error="@ + on_off(after.only_fan_out_auto_apply_error),
        )
    } else if c == 'b' {
        after == (UiCore { only_fan_in_dependency_blocked: !before.only_fan_in_dependency_blocked, ..before })
            && refresh_status(
            f,
            "thread filter: fan_in_dependency_blocked="@ + on_off(after.only_fan_in_dependency_blocked),
        )
    } else {
        after == (UiCore { only_subagent_proxy_approval: !before.only_subagent_proxy_approval, ..before })
            && refresh_status(
            f,
            "thread filter: subagent_proxy_approval="@ + on_off(after.only_subagent_proxy_approval),
        )
    }
}

/// The picker's filters all turned off, the list to be fetched again with a
/// status that says whether any was on.
#[verifier::opaque]
pub open spec fn clear_step(before: UiCore, after: UiCore, f: ThreadsKeyFollowUp) -> bool {
    after == (UiCore {
        only_fan_out_linkage_issue: false,
        only_fan_out_auto_apply_error: false,
        only_fan_in_dependency_blocked: false,
        only_subagent_proxy_approval: false,
        ..before
    }) && refresh_status(
        f,
        if any_filter(before) { "thread filters cleared"@ } else { "thread filters already clear"@ },
    )
}

/// The selection moved up or down one thread, within the list.
#[verifier::opaque]
pub open spec fn move_step(before: UiCore, after: UiCore, down: bool) -> bool {
    let n = before.threads@.len();
    after == (UiCore {
        selected_thread: if !down {
            if before.selected_thread > 0 { (before.selected_thread - 1) as usize } else { 0 }
        } else if n == 0 {
            before.selected_thread
        } else if before.selected_thread + 1 < n {
            (before.selected_thread + 1) as usize
        } else {
            (n - 1) as usize
        },
        ..before
    })
}

/// What a key does in the thread picker.
#[verifier::opaque]
pub open spec fn threads_key_step(before: UiCore, after: UiCore, key: KeyInput, f: ThreadsKeyFollowUp) -> bool {
    let n = before.threads@.len();
    match key.code {
        KeyCode::Char('q') | KeyCode::Esc => after == before && f is Quit,
        KeyCode::Char('r') => after == before && f matches ThreadsKeyFollowUp::RefreshThreads { then_status: None },
        KeyCode::Char('h') => toggle_step(before, after, 'h', f),
        KeyCode::Char('l') => toggle_step(before, after, 'l', f),
        KeyCode::Char('a') => toggle_step(before, after, 'a', f),
        KeyCode::Char('b') => toggle_step(before, after, 'b', f),
        KeyCode::Char('s') => toggle_step(before, after, 's', f),
        KeyCode::Char('c') => clear_step(before, after, f),
        KeyCode::Char('n') => after == before && f is StartThread,
        KeyCode::Up => move_step(before, after, false) && f is Nothing,
        KeyCode::Down => move_step(before, after, true) && f is Nothing,
        KeyCode::Enter => after == before && if before.selected_thread < n {
            f == ThreadsKeyFollowUp::OpenThread(before.threads@[before.selected_thread as int].thread_id)
        } else {
            f is Nothing
        },
        _ => after == before && f is Nothing,
    }
}


/// The header before its values are fetched.
pub open spec fn blank_header() -> HeaderInfo {
    HeaderInfo {
        mode: None,
        role: None,
        model: None,
        thinking: None,
        provider: None,
        allowed_tools_count: None,
        execpolicy_rules_count: 0,
    }
}

/// The open thread's view started afresh for `thread_id`, its events taken
/// after `last_seq`; the model fetch and the turn start under way are given
/// up (the caller stops their tasks).
pub open spec fn thread_opened(before: UiCore, after: UiCore, thread_id: u128, last_seq: u64) -> bool {
    &&& after == (UiCore {
        active_thread: Some(thread_id),
        header: blank_header(),
        header_needs_refresh: true,
        overlays: after.overlays,
        inline_palette: None,
        last_seq,
        transcript: after.transcript,
        transcript_scroll: 0,
        transcript_follow: true,
        transcript_max_scroll: 0,
        transcript_viewport_height: 0,
        tool_events: after.tool_events,
        streaming: None,
        active_turn_id: None,
        subagent_pending_summary: None,
        subagent_pending_summary_needs_refresh: true,
        total_tokens_used: 0,
        counted_usage_responses: after.counted_usage_responses,
        skip_token_usage_before_seq: None,
        pending_action: None,
        model_fetch_active: false,
        model_fetch_pending: false,
        turn_start_pending: false,
        model_list: after.model_list,
        model_list_loaded: false,
        thread_cwd: None,
        mode_catalog: after.mode_catalog,
        mode_catalog_loaded: false,
        skill_catalog: after.skill_catalog,
        skill_catalog_loaded: false,
        ..before
    })
    &&& after.overlays@.len() == 0
    &&& after.transcript@.len() == 0
    &&& after.tool_events@ == Map::<u128, String>::empty()
    &&& after.counted_usage_responses@.len() == 0
    &&& after.model_list@.len() == 0
    &&& after.mode_catalog@.len() == 0
    &&& after.skill_catalog@.len() == 0
}

/// Back in the thread picker: no thread open, the composer and the thread's
/// state cleared (the transcript stays until a thread is opened); the turn
/// start under way is given up.
pub open spec fn picker_returned(before: UiCore, after: UiCore) -> bool {
    &&& after == (UiCore {
        active_thread: None,
        header: blank_header(),
        header_needs_refresh: false,
        overlays: after.overlays,
        inline_palette: None,
        input: after.input,
        streaming: None,
        active_turn_id: None,
        subagent_pending_summary: None,
        subagent_pending_summary_needs_refresh: false,
        total_tokens_used: 0,
        counted_usage_responses: after.counted_usage_responses,
        skip_token_usage_before_seq: None,
        pending_action: None,
        turn_start_pending: false,
        transcript_scroll: 0,
        transcript_follow: true,
        transcript_max_scroll: 0,
        transcript_viewport_height: 0,
        model_list: after.model_list,
        model_list_loaded: false,
        thread_cwd: None,
        mode_catalog: after.mode_catalog,
        mode_catalog_loaded: false,
        skill_catalog: after.skill_catalog,
        skill_catalog_loaded: false,
        ..before
    })
    &&& after.overlays@.len() == 0
    &&& after.input@.len() == 0
    &&& after.counted_usage_responses@.len() == 0
    &&& after.model_list@.len() == 0
    &&& after.mode_catalog@.len() == 0
    &&& after.skill_catalog@.len() == 0
}

/// A text trimmed, when not blank.
pub open spec fn non_blank(s: Seq<char>) -> Option<Seq<char>> {
    if trim(s).len() > 0 { Some(trim(s)) } else { None }
}

/// An optional text trimmed, when present and not blank.
pub open spec fn opt_non_blank(s: Option<String>) -> Option<Seq<char>> {
    match s {
        Some(v) => non_blank(v@),
        None => None,
    }
}

/// The provider a configuration layer names, trimmed, when not blank.
pub open spec fn layer_provider(layer: JsonValue) -> Option<Seq<char>> {
    match str_of(get_spec(layer, "openai_provider"@)) {
        Some(p) => if trim(p).len() > 0 { Some(trim(p)) } else { None },
        None => None,
    }
}

/// The provider the last layer that names one names.
pub open spec fn provider_of(layers: Seq<JsonValue>) -> Option<Seq<char>>
    decreases layers.len(),
{
    if layers.len() == 0 {
        None
    } else {
        match layer_provider(layers.last()) {
            Some(p) => Some(p),
            None => provider_of(layers.drop_last()),
        }
    }
}

/// The thread's effective configuration, as the header reads it.
pub struct HeaderConfig {
    pub mode: String,
    pub role: String,
    pub model: String,
    pub thinking: String,
    /// The configuration's layers, lowest first.
    pub layers: Vec<JsonValue>,
    /// How many tools are allowed, when the configuration limits them.
    pub allowed_tools_count: Option<usize>,
    pub execpolicy_rules_count: usize,
}

/// The header the configuration gives.
pub open spec fn header_of(c: HeaderConfig) -> (Option<Seq<char>>, Option<Seq<char>>, Option<Seq<char>>, Option<Seq<char>>, Option<Seq<char>>) {
    (non_blank(c.mode@), non_blank(c.role@), non_blank(c.model@), non_blank(c.thinking@), provider_of(c.layers@))
}

/// What the thread's state reports that the interface keeps.
pub struct ThreadStateInfo {
    pub cwd: Option<String>,
    pub total_tokens_used: u64,
}

/// The thread's working directory and token total taken from its state.
pub open spec fn state_taken(before: UiCore, after: UiCore, st: ThreadStateInfo) -> bool {
    &&& after == (UiCore { thread_cwd: after.thread_cwd, total_tokens_used: st.total_tokens_used, ..before })
    &&& crate::tool_format::opt_string(after.thread_cwd) == opt_non_blank(st.cwd)
}

/// The header taken from the thread's configuration (and, when it could be
/// read, the working directory and token total from its state).
pub open spec fn header_applied(before: UiCore, after: UiCore, c: HeaderConfig, st: Option<ThreadStateInfo>) -> bool {
    let mid = UiCore { header: after.header, ..before };
    &&& (crate::tool_format::opt_string(after.header.mode), crate::tool_format::opt_string(after.header.role),
        crate::tool_format::opt_string(after.header.model), crate::tool_format::opt_string(after.header.thinking),
        crate::tool_format::opt_string(after.header.provider)) == header_of(c)
    &&& after.header.allowed_tools_count == c.allowed_tools_count
    &&& after.header.execpolicy_rules_count == c.execpolicy_rules_count
    &&& match st {
        Some(s) => state_taken(mid, after, s),
        None => after == mid,
    }
}

/// What the interface does on a clock tick, besides clearing a status whose
/// time is up: fetch the open thread's header or its pending-subagent
/// summary when either is stale, or the thread list when the picker shows
/// and it is due.
pub struct TickPlan {
    pub status_expired: bool,
    pub refresh_header: Option<u128>,
    pub refresh_subagent_summary: Option<u128>,
    pub refresh_threads: bool,
}

fn non_blank_string(s: &str) -> (r: Option<String>)
    ensures
        crate::tool_format::opt_string(r) == non_blank(s@),
{
    let cs = chars_of(s);
    let t = trim_chars(cs.as_slice());
    if t.len() > 0 {
        Some(string_of(t.as_slice()))
    } else {
        None
    }
}

/// The OpenAI provider the configuration names: that of the last layer
/// whose `openai_provider` is a text that is not blank, trimmed.
pub fn extract_openai_provider(layers: &[JsonValue]) -> (r: Option<String>)
    ensures
        crate::tool_format::opt_string(r) == provider_of(layers@),
{
    let mut i: usize = layers.len();
    assert(layers@.take(i as int) =~= layers@);
    while i > 0
        invariant
            i <= layers.len(),
            provider_of(layers@) == provider_of(layers@.take(i as int)),
        decreases i,
    {
        let ghost prefix = layers@.take(i as int);
        assert(prefix.drop_last() =~= layers@.take(i - 1));
        assert(prefix.last() == layers@[i - 1]);
        let p = match layers[i - 1].get("openai_provider") {
            Some(v) => v.as_str(),
            None => None,
        };
        match p {
            Some(text) => {
                let cs = chars_of(text);
                let t = trim_chars(cs.as_slice());
                if t.len() > 0 {
                    return Some(string_of(t.as_slice()));
                }
            },
            None => {},
        }
        i -= 1;
    }
    assert(layers@.take(0) =~= Seq::<JsonValue>::empty());
    None
}

fn on_off_str(b: bool) -> (r: &'static str)
    ensures
        r@ == on_off(b),
{
    if b {
        "on"
    } else {
        "off"
    }
}

fn with_on_off(prefix: &str, b: bool) -> (r: Option<String>)
    ensures
        r matches Some(s) && s@ == prefix@ + on_off(b),
{
    let mut s = owned(prefix);
    push_str(&mut s, on_off_str(b));
    Some(s)
}

impl UiCore {
    /// Takes a fetched thread list: keeps the threads that pass the picker's
    /// filters, in order, and keeps the selection within them.
    #[verifier::spinoff_prover]
    pub fn apply_thread_list(&mut self, threads: Vec<ThreadMeta>)
        ensures
            threads_listed(*old(self), *final(self), threads@),
    {
        let ghost s0 = *self;
        let listed = self.apply_thread_picker_filters(threads);
        let n = listed.len();
        let sel = if self.selected_thread >= n {
            if n == 0 { 0 } else { n - 1 }
        } else {
            self.selected_thread
        };
        self.threads = listed;
        self.selected_thread = sel;
        assert(*self == (UiCore { threads: self.threads, selected_thread: sel, ..s0 }));
    }

    /// Handles a key in the thread picker.
    pub fn handle_threads_key(&mut self, key: KeyInput) -> (f: ThreadsKeyFollowUp)
        ensures
            threads_key_step(*old(self), *final(self), key, f),
    {
        proof {
            reveal(threads_key_step);
        }
        match key.code {
            KeyCode::Char('q') | KeyCode::Esc => ThreadsKeyFollowUp::Quit,
            KeyCode::Char('r') => ThreadsKeyFollowUp::RefreshThreads { then_status: None },
            KeyCode::Char(c) => {
                if c == 'h' || c == 'l' || c == 'a' || c == 'b' || c == 's' {
                    self.toggle_threads_filter(c)
                } else if c == 'c' {
                    self.clear_threads_filters()
                } else if c == 'n' {
                    ThreadsKeyFollowUp::StartThread
                } else {
                    ThreadsKeyFollowUp::Nothing
                }
            },
            KeyCode::Up => {
                self.move_thread_selection(false);
                ThreadsKeyFollowUp::Nothing
            },
            KeyCode::Down => {
                self.move_thread_selection(true);
                ThreadsKeyFollowUp::Nothing
            },
            KeyCode::Enter => {
                if self.selected_thread < self.threads.len() {
                    ThreadsKeyFollowUp::OpenThread(self.threads[self.selected_thread].thread_id)
                } else {
                    ThreadsKeyFollowUp::Nothing
                }
            },
            _ => ThreadsKeyFollowUp::Nothing,
        }
    }

    #[verifier::spinoff_prover]
    #[verifier::rlimit(40)]
    fn toggle_threads_filter(&mut self, c: char) -> (f: ThreadsKeyFollowUp)
        requires
            c == 'h' || c == 'l' || c == 'a' || c == 'b' || c == 's',
        ensures
            toggle_step(*old(self), *final(self), c, f),
    {
        proof {
            reveal(toggle_step);
        }
        if c == 'h' {
            self.include_archived = !self.include_archived;
            ThreadsKeyFollowUp::RefreshThreads {
                then_status: with_on_off("thread list: include_archived=", self.include_archived),
            }
        } else if c == 'l' {
            self.only_fan_out_linkage_issue = !self.only_fan_out_linkage_issue;
            ThreadsKeyFollowUp::RefreshThreads {
                then_status: with_on_off("thread filter: fan_out_linkage_issue=", self.only_fan_out_linkage_issue),
            }
        } else if c == 'a' {
            self.only_fan_out_auto_apply_error = !self.only_fan_out_auto_apply_error;
            ThreadsKeyFollowUp::RefreshThreads {
                then_status: with_on_off(
                    "thread filter: fan_out_auto_apply_error=",
                    self.only_fan_out_auto_apply_error,
                ),
            }
        } else if c == 'b' {
            self.only_fan_in_dependency_blocked = !self.only_fan_in_dependency_blocked;
            ThreadsKeyFollowUp::RefreshThreads {
                then_status: with_on_off(
                    "thread filter: fan_in_dependency_blocked=",
                    self.only_fan_in_dependency_blocked,
                ),
            }
        } else {
            self.only_subagent_proxy_approval = !self.only_subagent_proxy_approval;
            ThreadsKeyFollowUp::RefreshThreads {
                then_status: with_on_off(
                    "thread filter: subagent_proxy_approval=",
                    self.only_subagent_proxy_approval,
                ),
            }
        }
    }

    #[verifier::spinoff_prover]
    fn clear_threads_filters(&mut self) -> (f: ThreadsKeyFollowUp)
        ensures
            clear_step(*old(self), *final(self), f),
    {
        proof {
            reveal(clear_step);
        }
        let changed = self.clear_thread_picker_filters();
        let text = if changed {
            owned("thread filters cleared")
        } else {
            owned("thread filters already clear")
        };
        ThreadsKeyFollowUp::RefreshThreads { then_status: Some(text) }
    }

    #[verifier::spinoff_prover]
    fn move_thread_selection(&mut self, down: bool)
        ensures
            move_step(*old(self), *final(self), down),
    {
        proof {
            reveal(move_step);
        }
        let n = self.threads.len();
        let sel = if !down {
            self.selected_thread.saturating_sub(1)
        } else if n == 0 {
            self.selected_thread
        } else if self.selected_thread < n - 1 {
            self.selected_thread + 1
        } else {
            n - 1
        };
        self.selected_thread = sel;
    }
}

impl UiCore {
    /// Starts the open thread's view afresh for `thread_id`, taking its
    /// events after `last_seq`.
    #[verifier::spinoff_prover]
    #[verifier::rlimit(80)]
    pub fn reset_thread_state(&mut self, thread_id: u128, last_seq: u64)
        ensures
            thread_opened(*old(self), *final(self), thread_id, last_seq),
    {
        self.active_thread = Some(thread_id);
        self.header = HeaderInfo {
            mode: None,
            role: None,
            model: None,
            thinking: None,
            provider: None,
            allowed_tools_count: None,
            execpolicy_rules_count: 0,
        };
        self.header_needs_refresh = true;
        self.overlays = Vec::new();
        self.inline_palette = None;
        self.last_seq = last_seq;
        self.transcript = Vec::new();
        self.transcript_scroll = 0;
        self.transcript_follow = true;
        self.transcript_max_scroll = 0;
        self.transcript_viewport_height = 0;
        self.tool_events = std::collections::HashMap::new();
        self.streaming = None;
        self.active_turn_id = None;
        self.subagent_pending_summary = None;
        self.subagent_pending_summary_needs_refresh = true;
        self.total_tokens_used = 0;
        self.counted_usage_responses = Vec::new();
        self.skip_token_usage_before_seq = None;
        self.pending_action = None;
        self.model_fetch_active = false;
        self.model_fetch_pending = false;
        self.turn_start_pending = false;
        self.model_list = Vec::new();
        self.model_list_loaded = false;
        self.thread_cwd = None;
        self.mode_catalog = Vec::new();
        self.mode_catalog_loaded = false;
        self.skill_catalog = Vec::new();
        self.skill_catalog_loaded = false;
    }

    /// Opens `thread_id` with the last 2000 of its events before `last_seq`
    /// to be taken again.
    pub fn activate_thread(&mut self, thread_id: u128, last_seq: u64)
        ensures
            thread_opened(*old(self), *final(self), thread_id, if last_seq >= 2000 { (last_seq - 2000) as u64 } else { 0 }),
    {
        let since = last_seq.saturating_sub(2000);
        self.reset_thread_state(thread_id, since);
    }

    /// Leaves the open thread for the picker (the caller then fetches the
    /// thread list).
    #[verifier::spinoff_prover]
    #[verifier::rlimit(80)]
    pub fn return_to_thread_picker(&mut self)
        ensures
            picker_returned(*old(self), *final(self)),
    {
        self.active_thread = None;
        self.header = HeaderInfo {
            mode: None,
            role: None,
            model: None,
            thinking: None,
            provider: None,
            allowed_tools_count: None,
            execpolicy_rules_count: 0,
        };
        self.header_needs_refresh = false;
        self.overlays = Vec::new();
        self.inline_palette = None;
        self.input = String::new();
        self.streaming = None;
        self.active_turn_id = None;
        self.subagent_pending_summary = None;
        self.subagent_pending_summary_needs_refresh = false;
        self.total_tokens_used = 0;
        self.counted_usage_responses = Vec::new();
        self.skip_token_usage_before_seq = None;
        self.pending_action = None;
        self.turn_start_pending = false;
        self.transcript_scroll = 0;
        self.transcript_follow = true;
        self.transcript_max_scroll = 0;
        self.transcript_viewport_height = 0;
        self.model_list = Vec::new();
        self.model_list_loaded = false;
        self.thread_cwd = None;
        self.mode_catalog = Vec::new();
        self.mode_catalog_loaded = false;
        self.skill_catalog = Vec::new();
        self.skill_catalog_loaded = false;
    }

    /// Takes the working directory and token total from the thread's state.
    #[verifier::spinoff_prover]
    pub fn apply_thread_state(&mut self, st: ThreadStateInfo)
        ensures
            state_taken(*old(self), *final(self), st),
    {
        let cwd = match &st.cwd {
            Some(c) => non_blank_string(c.as_str()),
            None => None,
        };
        self.thread_cwd = cwd;
        self.total_tokens_used = st.total_tokens_used;
    }

    /// Takes the state of a thread just opened: as `apply_thread_state`, and
    /// token usage is counted only for events after `last_seq`.
    #[verifier::spinoff_prover]
    pub fn apply_opened_thread_state(&mut self, st: ThreadStateInfo, last_seq: u64)
        ensures
            ({
                let mid = UiCore { skip_token_usage_before_seq: Some(last_seq), ..*old(self) };
                state_taken(mid, *final(self), st)
            }),
    {
        self.skip_token_usage_before_seq = Some(last_seq);
        self.apply_thread_state(st);
    }

    /// Takes the header from the thread's configuration and, when it could
    /// be read, its state.
    #[verifier::spinoff_prover]
    #[verifier::rlimit(40)]
    pub fn apply_header_config(&mut self, config: HeaderConfig, st: Option<ThreadStateInfo>)
        ensures
            header_applied(*old(self), *final(self), config, st),
    {
        let ghost c0 = config;
        let mode = non_blank_string(config.mode.as_str());
        let role = non_blank_string(config.role.as_str());
        let model = non_blank_string(config.model.as_str());
        let thinking = non_blank_string(config.thinking.as_str());
        let provider = extract_openai_provider(config.layers.as_slice());
        self.header = HeaderInfo {
            mode,
            role,
            model,
            thinking,
            provider,
            allowed_tools_count: config.allowed_tools_count,
            execpolicy_rules_count: config.execpolicy_rules_count,
        };
        match st {
            Some(s) => self.apply_thread_state(s),
            None => {},
        }
    }

    /// Reports a header fetch: the header is fresh, or the status shows the
    /// error.
    pub fn finish_header_refresh(&mut self, error: Option<String>)
        requires
            old(self).transcript@.len() <= MAX_TRANSCRIPT_ITEMS,
        ensures
            match error {
                Some(e) => crate::palette_exec::only_status(*old(self), *final(self), "header refresh error: "@ + e@),
                None => *final(self) == (UiCore { header_needs_refresh: false, ..*old(self) }),
            },
    {
        match error {
            Some(e) => {
                proof {
                    reveal_strlit("header refresh");
                    reveal_strlit(" error: ");
                    reveal_strlit("header refresh error: ");
                    assert("header refresh"@ + " error: "@ + e@ =~= "header refresh error: "@ + e@);
                }
                self.report_step_error("header refresh", e.as_str());
            },
            None => {
                self.header_needs_refresh = false;
            },
        }
    }

    /// The last step of opening a thread: reports the header fetch, and the
    /// pending-subagent summary is to be fetched.
    pub fn finish_open_thread(&mut self, header_error: Option<String>)
        requires
            old(self).transcript@.len() <= MAX_TRANSCRIPT_ITEMS,
        ensures
            ({
                let start = UiCore { subagent_pending_summary_needs_refresh: true, ..*old(self) };
                match header_error {
                    Some(e) => crate::palette_exec::only_status(start, *final(self), "header refresh error: "@ + e@),
                    None => *final(self) == (UiCore { header_needs_refresh: false, ..start }),
                }
            }),
    {
        self.subagent_pending_summary_needs_refresh = true;
        self.finish_header_refresh(header_error);
    }

    /// Takes the open thread's pending approvals: the footer's summary is
    /// fresh.
    #[verifier::spinoff_prover]
    pub fn apply_subagent_attention(&mut self, pending: &[PendingApproval])
        ensures
            *final(self) == (UiCore {
                subagent_pending_summary: final(self).subagent_pending_summary,
                subagent_pending_summary_needs_refresh: false,
                ..*old(self)
            }),
            match final(self).subagent_pending_summary {
                Some(s) => subagent_count(pending@) > 0 && summarizes(s, pending@),
                None => subagent_count(pending@) == 0,
            },
    {
        self.subagent_pending_summary = summarize_subagent_pending_summary(pending);
        self.subagent_pending_summary_needs_refresh = false;
    }

    /// What to do on a clock tick at `now_ms`; `threads_refresh_due` says the
    /// picker's list was last fetched long enough ago.  Clears a status
    /// whose time is up.
    pub fn plan_tick(&mut self, now_ms: u64, threads_refresh_due: bool) -> (r: TickPlan)
        ensures
            r.status_expired == (match old(self).status_expires_at {
                Some(t) => t <= now_ms,
                None => false,
            }),
            r.status_expired ==> *final(self) == (UiCore { status: None, status_expires_at: None, ..*old(self) }),
            !r.status_expired ==> *final(self) == *old(self),
            r.refresh_header == (if old(self).header_needs_refresh { old(self).active_thread } else { None }),
            r.refresh_subagent_summary == (if old(self).subagent_pending_summary_needs_refresh {
                old(self).active_thread
            } else {
                None
            }),
            r.refresh_threads == (old(self).active_thread is None && threads_refresh_due),
    {
        let refresh_header = if self.header_needs_refresh { self.active_thread } else { None };
        let refresh_subagent_summary = if self.subagent_pending_summary_needs_refresh {
            self.active_thread
        } else {
            None
        };
        let refresh_threads = self.active_thread.is_none() && threads_refresh_due;
        let status_expired = self.expire_status_if_needed(now_ms);
        TickPlan { status_expired, refresh_header, refresh_subagent_summary, refresh_threads }
    }

    /// Puts a `/` where a command can start: right after the composer's text
    /// when it is empty or ends in white space, else after a space.
    #[verifier::spinoff_prover]
    #[verifier::rlimit(40)]
    pub fn insert_command_trigger(&mut self)
        ensures
            *final(self) == (UiCore { input: final(self).input, transcript_follow: true, ..*old(self) }),
            final(self).input@ == if old(self).input@.len() == 0 || crate::text::is_ws(old(self).input@.last()) {
                old(self).input@ + "/"@
            } else {
                old(self).input@ + " /"@
            },
    {
        let ghost s0 = *self;
        let cs = chars_of(self.input.as_str());
        let n = cs.len();
        proof {
            reveal_strlit("/");
            reveal_strlit(" /");
        }
        let mut input = string_of(cs.as_slice());
        if n == 0 || crate::text::is_whitespace(cs[n - 1]) {
            crate::text::push_char(&mut input, '/');
        } else {
            crate::text::push_char(&mut input, ' ');
            crate::text::push_char(&mut input, '/');
        }
        assert(input@ =~= if s0.input@.len() == 0 || crate::text::is_ws(s0.input@.last()) {
            s0.input@ + "/"@
        } else {
            s0.input@ + " /"@
        });
        self.input = input;
        self.transcript_follow = true;
        assert(*self == (UiCore { input: self.input, transcript_follow: true, ..s0 }));
    }
}

} // verus!
