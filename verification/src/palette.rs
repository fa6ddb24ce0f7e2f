//! The command palette: its items and commands, the query filter, and the
//! keys it handles.
use vstd::prelude::*;
use crate::keys::{KeyCode, KeyInput};
use crate::text::{
    chars_eq_str, chars_of, contains_chars, contains_seq, deep_chars, join, join_chars,
    lower_seq, split_words, string_of, to_lower, trim, trim_chars, words,
};

verus! {

#[derive(Debug, Clone, Copy, PartialEq, Eq)]
pub enum CliApprovalPolicy {
    AutoApprove,
    OnRequest,
    Manual,
    UnlessTrusted,
    AutoDeny,
}

#[derive(Debug, Clone, Copy, PartialEq, Eq)]
pub enum CliSandboxPolicy {
    ReadOnly,
    WorkspaceWrite,
    DangerFullAccess,
}

#[derive(Debug, Clone, Copy, PartialEq, Eq)]
pub enum CliSandboxNetworkAccess {
    Deny,
    Allow,
}

#[derive(Debug)]
pub enum PaletteCommand {
    Quit,
    ClosePalette,
    OpenRoot,
    Help,
    NewThread,
    ThreadPicker,
    RefreshThreads,
    ToggleIncludeArchived,
    ToggleLinkageFilter,
    ToggleAutoApplyErrorFilter,
    ToggleFanInDependencyBlockedFilter,
    ToggleSubagentProxyApprovalFilter,
    ClearThreadFilters,
    OpenApprovals,
    OpenProcesses,
    OpenArtifacts,
    PickMode,
    PickModel,
    PickApprovalPolicy,
    PickSandboxPolicy,
    PickSandboxNetworkAccess,
    PickAllowedTools,
    PickExecpolicyRules,
    SetMode(String),
    SetModel(String),
    SetApprovalPolicy(CliApprovalPolicy),
    SetSandboxPolicy(CliSandboxPolicy),
    SetSandboxNetworkAccess(CliSandboxNetworkAccess),
    SetAllowedTools(String),
    ClearAllowedTools,
    ClearExecpolicyRules,
    ApprovalsCycleFilter,
    ApprovalsNextFailed,
    ApprovalsPrevFailed,
    ApprovalsRefresh,
    ApprovalsSelectPrev,
    ApprovalsSelectNext,
    ApprovalsApprove,
    ApprovalsDeny,
    ApprovalsToggleRemember,
    ApprovalsOpenDetails,
    ProcessesRefresh,
    ProcessesSelectPrev,
    ProcessesSelectNext,
    ProcessesInspect,
    ProcessesKill,
    ProcessesInterrupt,
    ArtifactsRefresh,
    ArtifactsSelectPrev,
    ArtifactsSelectNext,
    ArtifactsRead,
    ArtifactsLoadVersions,
    ArtifactsReloadVersions,
    ArtifactsPrevVersion,
    ArtifactsNextVersion,
    ArtifactsLatestVersion,
    InsertSkill(String),
    Noop,
}

impl Clone for PaletteCommand {
    fn clone(&self) -> (r: Self)
        ensures
            r == *self,
    {
        match self {
            PaletteCommand::Quit => PaletteCommand::Quit,
            PaletteCommand::ClosePalette => PaletteCommand::ClosePalette,
            PaletteCommand::OpenRoot => PaletteCommand::OpenRoot,
            PaletteCommand::Help => PaletteCommand::Help,
            PaletteCommand::NewThread => PaletteCommand::NewThread,
            PaletteCommand::ThreadPicker => PaletteCommand::ThreadPicker,
            PaletteCommand::RefreshThreads => PaletteCommand::RefreshThreads,
            PaletteCommand::ToggleIncludeArchived => PaletteCommand::ToggleIncludeArchived,
            PaletteCommand::ToggleLinkageFilter => PaletteCommand::ToggleLinkageFilter,
            PaletteCommand::ToggleAutoApplyErrorFilter => PaletteCommand::ToggleAutoApplyErrorFilter,
            PaletteCommand::ToggleFanInDependencyBlockedFilter => PaletteCommand::ToggleFanInDependencyBlockedFilter,
            PaletteCommand::ToggleSubagentProxyApprovalFilter => PaletteCommand::ToggleSubagentProxyApprovalFilter,
            PaletteCommand::ClearThreadFilters => PaletteCommand::ClearThreadFilters,
            PaletteCommand::OpenApprovals => PaletteCommand::OpenApprovals,
            PaletteCommand::OpenProcesses => PaletteCommand::OpenProcesses,
            PaletteCommand::OpenArtifacts => PaletteCommand::OpenArtifacts,
            PaletteCommand::PickMode => PaletteCommand::PickMode,
            PaletteCommand::PickModel => PaletteCommand::PickModel,
            PaletteCommand::PickApprovalPolicy => PaletteCommand::PickApprovalPolicy,
            PaletteCommand::PickSandboxPolicy => PaletteCommand::PickSandboxPolicy,
            PaletteCommand::PickSandboxNetworkAccess => PaletteCommand::PickSandboxNetworkAccess,
            PaletteCommand::PickAllowedTools => PaletteCommand::PickAllowedTools,
            PaletteCommand::PickExecpolicyRules => PaletteCommand::PickExecpolicyRules,
            PaletteCommand::SetMode(s) => PaletteCommand::SetMode(s.clone()),
            PaletteCommand::SetModel(s) => PaletteCommand::SetModel(s.clone()),
            PaletteCommand::SetApprovalPolicy(p) => PaletteCommand::SetApprovalPolicy(*p),
            PaletteCommand::SetSandboxPolicy(p) => PaletteCommand::SetSandboxPolicy(*p),
            PaletteCommand::SetSandboxNetworkAccess(p) => PaletteCommand::SetSandboxNetworkAccess(*p),
            PaletteCommand::SetAllowedTools(s) => PaletteCommand::SetAllowedTools(s.clone()),
            PaletteCommand::ClearAllowedTools => PaletteCommand::ClearAllowedTools,
            PaletteCommand::ClearExecpolicyRules => PaletteCommand::ClearExecpolicyRules,
            PaletteCommand::ApprovalsCycleFilter => PaletteCommand::ApprovalsCycleFilter,
            PaletteCommand::ApprovalsNextFailed => PaletteCommand::ApprovalsNextFailed,
            PaletteCommand::ApprovalsPrevFailed => PaletteCommand::ApprovalsPrevFailed,
            PaletteCommand::ApprovalsRefresh => PaletteCommand::ApprovalsRefresh,
            PaletteCommand::ApprovalsSelectPrev => PaletteCommand::ApprovalsSelectPrev,
            PaletteCommand::ApprovalsSelectNext => PaletteCommand::ApprovalsSelectNext,
            PaletteCommand::ApprovalsApprove => PaletteCommand::ApprovalsApprove,
            PaletteCommand::ApprovalsDeny => PaletteCommand::ApprovalsDeny,
            PaletteCommand::ApprovalsToggleRemember => PaletteCommand::ApprovalsToggleRemember,
            PaletteCommand::ApprovalsOpenDetails => PaletteCommand::ApprovalsOpenDetails,
            PaletteCommand::ProcessesRefresh => PaletteCommand::ProcessesRefresh,
            PaletteCommand::ProcessesSelectPrev => PaletteCommand::ProcessesSelectPrev,
            PaletteCommand::ProcessesSelectNext => PaletteCommand::ProcessesSelectNext,
            PaletteCommand::ProcessesInspect => PaletteCommand::ProcessesInspect,
            PaletteCommand::ProcessesKill => PaletteCommand::ProcessesKill,
            PaletteCommand::ProcessesInterrupt => PaletteCommand::ProcessesInterrupt,
            PaletteCommand::ArtifactsRefresh => PaletteCommand::ArtifactsRefresh,
            PaletteCommand::ArtifactsSelectPrev => PaletteCommand::ArtifactsSelectPrev,
            PaletteCommand::ArtifactsSelectNext => PaletteCommand::ArtifactsSelectNext,
            PaletteCommand::ArtifactsRead => PaletteCommand::ArtifactsRead,
            PaletteCommand::ArtifactsLoadVersions => PaletteCommand::ArtifactsLoadVersions,
            PaletteCommand::ArtifactsReloadVersions => PaletteCommand::ArtifactsReloadVersions,
            PaletteCommand::ArtifactsPrevVersion => PaletteCommand::ArtifactsPrevVersion,
            PaletteCommand::ArtifactsNextVersion => PaletteCommand::ArtifactsNextVersion,
            PaletteCommand::ArtifactsLatestVersion => PaletteCommand::ArtifactsLatestVersion,
            PaletteCommand::InsertSkill(s) => PaletteCommand::InsertSkill(s.clone()),
            PaletteCommand::Noop => PaletteCommand::Noop,
        }
    }
}

#[derive(Debug)]
pub struct PaletteItem {
    pub label: String,
    pub detail: Option<String>,
    pub action: PaletteCommand,
}

impl Clone for PaletteItem {
    fn clone(&self) -> (r: Self)
        ensures
            r == *self,
    {
        let detail = match &self.detail {
            Some(d) => Some(d.clone()),
            None => None,
        };
        PaletteItem { label: self.label.clone(), detail, action: self.action.clone() }
    }
}

#[derive(Debug)]
pub struct CommandPaletteOverlay {
    pub title: String,
    pub query: String,
    pub items: Vec<PaletteItem>,
    /// Indices into `items` of the entries that match `query`.
    pub filtered: Vec<usize>,
    /// Index into `filtered`.
    pub selected: usize,
}

impl Clone for CommandPaletteOverlay {
    fn clone(&self) -> (r: Self)
        ensures
            r.title@ == self.title@,
            r.query@ == self.query@,
            r.items@ == self.items@,
            r.filtered@ == self.filtered@,
            r.selected == self.selected,
    {
        let mut items: Vec<PaletteItem> = Vec::new();
        let mut i: usize = 0;
        while i < self.items.len()
            invariant
                i <= self.items.len(),
                items@ == self.items@.take(i as int),
            decreases self.items.len() - i,
        {
            items.push(self.items[i].clone());
            i += 1;
            assert(items@ =~= self.items@.take(i as int));
        }
        assert(self.items@.take(self.items.len() as int) =~= self.items@);
        let mut filtered: Vec<usize> = Vec::new();
        let mut j: usize = 0;
        while j < self.filtered.len()
            invariant
                j <= self.filtered.len(),
                filtered@ == self.filtered@.take(j as int),
            decreases self.filtered.len() - j,
        {
            filtered.push(self.filtered[j]);
            j += 1;
            assert(filtered@ =~= self.filtered@.take(j as int));
        }
        assert(self.filtered@.take(self.filtered.len() as int) =~= self.filtered@);
        CommandPaletteOverlay {
            title: self.title.clone(),
            query: self.query.clone(),
            items,
            filtered,
            selected: self.selected,
        }
    }
}

// ---------------------------------------------------------------------------
// Specification of the filter
// ---------------------------------------------------------------------------

pub open spec fn opt_text(o: Option<String>) -> Option<Seq<char>> {
    match o {
        Some(s) => Some(s@),
        None => None,
    }
}

/// The text that the query is matched against: the label, followed by the
/// detail when it is not blank, in lower case.
pub open spec fn hay_of(item: PaletteItem) -> Seq<char> {
    match item.detail {
        Some(d) => if trim(d@).len() > 0 {
            lower_seq(item.label@ + " "@ + d@)
        } else {
            lower_seq(item.label@)
        },
        None => lower_seq(item.label@),
    }
}

/// Every token occurs in the item's text.
pub open spec fn item_matches(item: PaletteItem, tokens: Seq<Seq<char>>) -> bool {
    forall|j: int| 0 <= j < tokens.len() ==> contains_seq(hay_of(item), #[trigger] tokens[j])
}

/// Indices of the items that match all tokens, in order.
pub open spec fn filter_indices(items: Seq<PaletteItem>, tokens: Seq<Seq<char>>) -> Seq<usize>
    decreases items.len(),
{
    if items.len() == 0 {
        seq![]
    } else {
        let prev = filter_indices(items.drop_last(), tokens);
        if item_matches(items.last(), tokens) {
            prev.push((items.len() - 1) as usize)
        } else {
            prev
        }
    }
}

/// The lower-cased words of the trimmed query.
pub open spec fn query_tokens(query: Seq<char>) -> Seq<Seq<char>> {
    words(lower_seq(trim(query)))
}

pub open spec fn all_indices(n: nat) -> Seq<usize> {
    Seq::new(n, |i: int| i as usize)
}

/// The entries that a query keeps: all of them for a blank query.
pub open spec fn filtered_for(items: Seq<PaletteItem>, query: Seq<char>) -> Seq<usize> {
    if query_tokens(query).len() == 0 {
        all_indices(items.len())
    } else {
        filter_indices(items, query_tokens(query))
    }
}

/// A selection kept inside a list of `n` entries.
pub open spec fn clamp_selected(selected: usize, n: nat) -> usize {
    if n == 0 {
        0
    } else if selected >= n {
        (n - 1) as usize
    } else {
        selected
    }
}

impl CommandPaletteOverlay {
    /// The filter indexes the items, and the selection points into the filter
    /// (or is 0 when nothing matches).
    pub open spec fn wf(&self) -> bool {
        &&& forall|k: int| 0 <= k < self.filtered.len() ==> #[trigger] self.filtered@[k] < self.items.len()
        &&& (self.filtered.len() == 0 ==> self.selected == 0)
        &&& (self.filtered.len() > 0 ==> self.selected < self.filtered.len())
    }
}

pub proof fn lemma_filter_indices_bound(items: Seq<PaletteItem>, tokens: Seq<Seq<char>>)
    ensures
        forall|k: int|
            0 <= k < filter_indices(items, tokens).len() ==> #[trigger] filter_indices(items, tokens)[k]
                < items.len(),
        filter_indices(items, tokens).len() <= items.len(),
    decreases items.len(),
{
    if items.len() > 0 {
        lemma_filter_indices_bound(items.drop_last(), tokens);
    }
}

// ---------------------------------------------------------------------------
// Executable code
// ---------------------------------------------------------------------------

impl PaletteItem {
    /// An item without detail text.
    pub fn new(label: String, action: PaletteCommand) -> (r: Self)
        ensures
            r.label == label,
            r.detail is None,
            r.action == action,
    {
        PaletteItem { label, detail: None, action }
    }

    /// An item with detail text.
    pub fn with_detail(label: String, detail: String, action: PaletteCommand) -> (r: Self)
        ensures
            r.label == label,
            r.detail == Some(detail),
            r.action == action,
    {
        PaletteItem { label, detail: Some(detail), action }
    }
}

fn item_hay(item: &PaletteItem) -> (out: Vec<char>)
    ensures
        out@ == hay_of(*item),
{
    let label = chars_of(item.label.as_str());
    match &item.detail {
        Some(d) => {
            let dc = chars_of(d.as_str());
            let dt = trim_chars(dc.as_slice());
            if dt.len() > 0 {
                let mut all = label;
                all.push(' ');
                crate::text::extend_chars(&mut all, dc.as_slice());
                assert(all@ =~= item.label@ + " "@ + d@) by {
                    assert(" "@ =~= seq![' ']) by {
                        reveal_strlit(" ");
                    }
                }
                to_lower(all.as_slice())
            } else {
                to_lower(label.as_slice())
            }
        },
        None => to_lower(label.as_slice()),
    }
}

fn matches_all(hay: &[char], tokens: &Vec<Vec<char>>) -> (r: bool)
    ensures
        r == forall|j: int| 0 <= j < tokens.len() ==> contains_seq(hay@, #[trigger] deep_chars(tokens@)[j]),
{
    let mut j: usize = 0;
    while j < tokens.len()
        invariant
            j <= tokens.len(),
            forall|k: int| 0 <= k < j ==> contains_seq(hay@, #[trigger] deep_chars(tokens@)[k]),
        decreases tokens.len() - j,
    {
        assert(deep_chars(tokens@)[j as int] == tokens@[j as int]@);
        if !contains_chars(hay, tokens[j].as_slice()) {
            return false;
        }
        j += 1;
    }
    true
}

impl CommandPaletteOverlay {
    /// A palette over `items` with an empty query.
    pub fn new(title: &str, items: Vec<PaletteItem>) -> (r: Self)
        ensures
            r.title@ == title@,
            r.query@ == Seq::<char>::empty(),
            r.items@ == items@,
            r.filtered@ == all_indices(items.len() as nat),
            r.selected == 0,
            r.wf(),
    {
        let mut out = CommandPaletteOverlay {
            title: string_of(chars_of(title).as_slice()),
            query: String::new(),
            items,
            filtered: Vec::new(),
            selected: 0,
        };
        out.rebuild_filter();
        proof {
            assert(query_tokens(Seq::<char>::empty()) =~= Seq::<Seq<char>>::empty()) by {
                assert(trim(Seq::<char>::empty()) =~= Seq::<char>::empty());
                assert(lower_seq(Seq::<char>::empty()) =~= Seq::<char>::empty());
            }
        }
        out
    }

    /// Recomputes which items match the query and keeps the selection inside them.
    pub fn rebuild_filter(&mut self)
        ensures
            final(self).title == old(self).title,
            final(self).query == old(self).query,
            final(self).items == old(self).items,
            final(self).filtered@ == filtered_for(old(self).items@, old(self).query@),
            final(self).selected == clamp_selected(
                old(self).selected,
                filtered_for(old(self).items@, old(self).query@).len(),
            ),
            final(self).wf(),
    {
        let qc = chars_of(self.query.as_str());
        let qt = trim_chars(qc.as_slice());
        let ql = to_lower(qt.as_slice());
        let tokens = split_words(ql.as_slice());
        let ghost toks = query_tokens(self.query@);
        assert(deep_chars(tokens@) == toks);
        let mut filtered: Vec<usize> = Vec::new();
        if tokens.len() == 0 {
            let mut i: usize = 0;
            while i < self.items.len()
                invariant
                    i <= self.items.len(),
                    filtered@ == all_indices(i as nat),
                decreases self.items.len() - i,
            {
                filtered.push(i);
                i += 1;
                assert(filtered@ =~= all_indices(i as nat));
            }
        } else {
            let mut i: usize = 0;
            while i < self.items.len()
                invariant
                    i <= self.items.len(),
                    deep_chars(tokens@) == toks,
                    filtered@ == filter_indices(self.items@.take(i as int), toks),
                decreases self.items.len() - i,
            {
                assert(self.items@.take(i + 1).drop_last() =~= self.items@.take(i as int));
                assert(self.items@.take(i + 1).last() == self.items@[i as int]);
                let hay = item_hay(&self.items[i]);
                if matches_all(hay.as_slice(), &tokens) {
                    filtered.push(i);
                }
                i += 1;
            }
            assert(self.items@.take(self.items.len() as int) =~= self.items@);
        }
        proof {
            lemma_filter_indices_bound(self.items@, toks);
        }
        self.filtered = filtered;
        if self.filtered.len() == 0 {
            self.selected = 0;
        } else if self.selected >= self.filtered.len() {
            self.selected = self.filtered.len() - 1;
        }
    }

    /// The command of the selected entry.
    pub fn selected_action(&self) -> (r: Option<PaletteCommand>)
        ensures
            (self.selected < self.filtered.len() && self.filtered@[self.selected as int]
                < self.items.len()) ==> r == Some(self.items@[self.filtered@[self.selected as int] as int].action),
            !(self.selected < self.filtered.len() && self.filtered@[self.selected as int]
                < self.items.len()) ==> r is None,
    {
        if self.selected >= self.filtered.len() {
            return None;
        }
        let idx = self.filtered[self.selected];
        if idx >= self.items.len() {
            return None;
        }
        Some(self.items[idx].action.clone())
    }

    /// The palette's title for status lines: lower case, `"commands"` when blank.
    pub fn context_label(&self) -> (r: String)
        ensures
            trim(self.title@).len() == 0 ==> r@ == "commands"@,
            trim(self.title@).len() > 0 ==> r@ == lower_seq(trim(self.title@)),
    {
        let tc = chars_of(self.title.as_str());
        let t = trim_chars(tc.as_slice());
        if t.len() == 0 {
            string_of(chars_of("commands").as_slice())
        } else {
            string_of(to_lower(t.as_slice()).as_slice())
        }
    }
}

/// What the Enter key returns for a palette whose selected command is `selected`.
pub open spec fn enter_result(p: CommandPaletteOverlay, selected: Option<PaletteCommand>) -> Option<
    Seq<char>,
> {
    // `Some(q)`: the palette answers `SetModel(q)` instead of the selected command.
    if p.title@ == "model"@ && trim(p.query@).len() > 0 && (selected is None || selected
        == Some(PaletteCommand::Noop)) {
        Some(trim(p.query@))
    } else {
        None
    }
}

/// What a key does to a command palette, and the command it returns.
pub open spec fn palette_key_step(key: KeyInput, a: CommandPaletteOverlay, b: CommandPaletteOverlay, r: Option<PaletteCommand>) -> bool {
    &&& (b.wf())
    &&& (b.title == a.title)
    &&& (b.items == a.items)
    &&& (key.code == KeyCode::Up ==> b.query == a.query && b.filtered
                == a.filtered && b.selected == (if a.selected > 0 {
                (a.selected - 1) as usize
            } else {
                0
            }) && r is None)
    &&& (key.code == KeyCode::Down ==> b.query == a.query && b.filtered
                == a.filtered && b.selected == (if a.filtered.len() > 0
                && a.selected + 1 < a.filtered.len() {
                (a.selected + 1) as usize
            } else {
                a.selected
            }) && r is None)
    &&& (key.code == KeyCode::Enter ==> b == a && ({
                let sel = if a.selected < a.filtered.len() && a.filtered@[a.selected as int] < a.items.len() {
                    Some(a.items@[a.filtered@[a.selected as int] as int].action)
                } else {
                    None
                };
                match enter_result(a, sel) {
                    Some(q) => r matches Some(PaletteCommand::SetModel(m)) && m@ == q,
                    None => r == sel,
                }
            }))
    &&& (key.code == KeyCode::Backspace ==> b.query@ == (if a.query@.len() > 0 {
                a.query@.drop_last()
            } else {
                a.query@
            }) && b.filtered@ == filtered_for(a.items@, b.query@)
                && b.selected == 0 && r is None)
    &&& (key.code == KeyCode::Char('u') && key.ctrl ==> b.query@ == Seq::<char>::empty()
                && b.filtered@ == filtered_for(a.items@, b.query@)
                && b.selected == 0 && r is None)
    &&& ((key.code is Char && !key.ctrl) ==> b.query@ == a.query@.push(key.code->Char_0)
                && b.filtered@ == filtered_for(a.items@, b.query@) && b.selected == 0 && r is None)
    &&& ((key.code is Char && key.ctrl && key.code != KeyCode::Char('u')) ==> b == a && r is None)
    &&& (!(key.code is Up || key.code is Down || key.code is Enter || key.code is Backspace
                || key.code is Char) ==> b == a && r is None)
}

/// The command Enter chooses in a palette (a model palette answers the
/// typed model name when nothing else is selected).
pub fn palette_enter_command(view: &CommandPaletteOverlay) -> (r: Option<PaletteCommand>)
    requires
        view.wf(),
    ensures
        palette_key_step(KeyInput { code: KeyCode::Enter, ctrl: false }, *view, *view, r),
{
    let selected = view.selected_action();
    let tc = chars_of(view.title.as_str());
    let is_model = chars_eq_str(tc.as_slice(), "model");
    let qc = chars_of(view.query.as_str());
    let q = trim_chars(qc.as_slice());
    if let Some(action) = selected {
        let is_noop = match action {
            PaletteCommand::Noop => true,
            _ => false,
        };
        if is_noop && is_model && q.len() > 0 {
            return Some(PaletteCommand::SetModel(string_of(q.as_slice())));
        }
        return Some(action);
    }
    if is_model {
        if q.len() > 0 {
            return Some(PaletteCommand::SetModel(string_of(q.as_slice())));
        }
    }
    None
}

/// Handles a key in a command palette: moves the selection, edits the query,
/// or, on Enter, returns the command to run.
pub fn handle_key_command_palette(key: KeyInput, view: &mut CommandPaletteOverlay) -> (r: Option<
    PaletteCommand,
>)
    requires
        old(view).wf(),
    ensures
        palette_key_step(key, *old(view), *final(view), r),
{
    match key.code {
        KeyCode::Up => {
            view.selected = if view.selected > 0 {
                view.selected - 1
            } else {
                0
            };
            None
        },
        KeyCode::Down => {
            if view.filtered.len() > 0 {
                let next = view.selected + 1;
                let last = view.filtered.len() - 1;
                view.selected = if next < last {
                    next
                } else {
                    last
                };
            }
            None
        },
        KeyCode::Enter => {
            palette_enter_command(view)
        },
        KeyCode::Backspace => {
            crate::text::pop_char(&mut view.query);
            view.selected = 0;
            view.rebuild_filter();
            None
        },
        KeyCode::Char(c) => {
            if c == 'u' && key.ctrl {
                view.query = String::new();
                view.selected = 0;
                view.rebuild_filter();
            } else if !key.ctrl {
                crate::text::push_char(&mut view.query, c);
                view.selected = 0;
                view.rebuild_filter();
            }
            None
        },
        _ => None,
    }
}

/// The key that an overlay palette command stands for, when it has one.
pub open spec fn overlay_command_code(command: PaletteCommand) -> Option<KeyCode> {
    match command {
        PaletteCommand::ApprovalsCycleFilter => Some(KeyCode::Char('t')),
        PaletteCommand::ApprovalsNextFailed => Some(KeyCode::Char('f')),
        PaletteCommand::ApprovalsPrevFailed => Some(KeyCode::Char('F')),
        PaletteCommand::ApprovalsRefresh => Some(KeyCode::Char('r')),
        PaletteCommand::ApprovalsSelectPrev => Some(KeyCode::Up),
        PaletteCommand::ApprovalsSelectNext => Some(KeyCode::Down),
        PaletteCommand::ApprovalsApprove => Some(KeyCode::Char('y')),
        PaletteCommand::ApprovalsDeny => Some(KeyCode::Char('n')),
        PaletteCommand::ApprovalsToggleRemember => Some(KeyCode::Char('m')),
        PaletteCommand::ApprovalsOpenDetails => Some(KeyCode::Enter),
        PaletteCommand::ProcessesRefresh => Some(KeyCode::Char('r')),
        PaletteCommand::ProcessesSelectPrev => Some(KeyCode::Up),
        PaletteCommand::ProcessesSelectNext => Some(KeyCode::Down),
        PaletteCommand::ProcessesInspect => Some(KeyCode::Enter),
        PaletteCommand::ProcessesKill => Some(KeyCode::Char('k')),
        PaletteCommand::ProcessesInterrupt => Some(KeyCode::Char('x')),
        PaletteCommand::ArtifactsRefresh => Some(KeyCode::Char('r')),
        PaletteCommand::ArtifactsSelectPrev => Some(KeyCode::Up),
        PaletteCommand::ArtifactsSelectNext => Some(KeyCode::Down),
        PaletteCommand::ArtifactsRead => Some(KeyCode::Enter),
        PaletteCommand::ArtifactsLoadVersions => Some(KeyCode::Char('v')),
        PaletteCommand::ArtifactsReloadVersions => Some(KeyCode::Char('R')),
        PaletteCommand::ArtifactsPrevVersion => Some(KeyCode::Char('[')),
        PaletteCommand::ArtifactsNextVersion => Some(KeyCode::Char(']')),
        PaletteCommand::ArtifactsLatestVersion => Some(KeyCode::Char('0')),
        _ => None,
    }
}

/// The key press an overlay palette command is forwarded as (no modifiers).
pub fn overlay_palette_command_key(command: &PaletteCommand) -> (r: Option<KeyInput>)
    ensures
        match overlay_command_code(*command) {
            Some(code) => r == Some(KeyInput { code, ctrl: false }),
            None => r is None,
        },
{
    let code = match command {
        PaletteCommand::ApprovalsCycleFilter => KeyCode::Char('t'),
        PaletteCommand::ApprovalsNextFailed => KeyCode::Char('f'),
        PaletteCommand::ApprovalsPrevFailed => KeyCode::Char('F'),
        PaletteCommand::ApprovalsRefresh => KeyCode::Char('r'),
        PaletteCommand::ApprovalsSelectPrev => KeyCode::Up,
        PaletteCommand::ApprovalsSelectNext => KeyCode::Down,
        PaletteCommand::ApprovalsApprove => KeyCode::Char('y'),
        PaletteCommand::ApprovalsDeny => KeyCode::Char('n'),
        PaletteCommand::ApprovalsToggleRemember => KeyCode::Char('m'),
        PaletteCommand::ApprovalsOpenDetails => KeyCode::Enter,
        PaletteCommand::ProcessesRefresh => KeyCode::Char('r'),
        PaletteCommand::ProcessesSelectPrev => KeyCode::Up,
        PaletteCommand::ProcessesSelectNext => KeyCode::Down,
        PaletteCommand::ProcessesInspect => KeyCode::Enter,
        PaletteCommand::ProcessesKill => KeyCode::Char('k'),
        PaletteCommand::ProcessesInterrupt => KeyCode::Char('x'),
        PaletteCommand::ArtifactsRefresh => KeyCode::Char('r'),
        PaletteCommand::ArtifactsSelectPrev => KeyCode::Up,
        PaletteCommand::ArtifactsSelectNext => KeyCode::Down,
        PaletteCommand::ArtifactsRead => KeyCode::Enter,
        PaletteCommand::ArtifactsLoadVersions => KeyCode::Char('v'),
        PaletteCommand::ArtifactsReloadVersions => KeyCode::Char('R'),
        PaletteCommand::ArtifactsPrevVersion => KeyCode::Char('['),
        PaletteCommand::ArtifactsNextVersion => KeyCode::Char(']'),
        PaletteCommand::ArtifactsLatestVersion => KeyCode::Char('0'),
        _ => {
            return None;
        },
    };
    Some(KeyInput::plain(code))
}

/// `normalize_label`: trimmed, lower case, runs of whitespace turned into `-`.
pub open spec fn normalized_label(value: Seq<char>) -> Seq<char> {
    join(words(lower_seq(trim(value))), "-"@)
}

pub fn normalize_label(value: &str) -> (r: String)
    ensures
        r@ == normalized_label(value@),
{
    let vc = chars_of(value);
    let t = trim_chars(vc.as_slice());
    let l = to_lower(t.as_slice());
    let ws = split_words(l.as_slice());
    let dash = chars_of("-");
    let joined = join_chars(&ws, dash.as_slice());
    string_of(joined.as_slice())
}

pub open spec fn approval_policy_text(value: CliApprovalPolicy) -> Seq<char> {
    match value {
        CliApprovalPolicy::AutoApprove => "auto_approve"@,
        CliApprovalPolicy::OnRequest => "on_request"@,
        CliApprovalPolicy::Manual => "manual"@,
        CliApprovalPolicy::UnlessTrusted => "unless_trusted"@,
        CliApprovalPolicy::AutoDeny => "auto_deny"@,
    }
}

pub fn approval_policy_label(value: CliApprovalPolicy) -> (r: &'static str)
    ensures
        r@ == approval_policy_text(value),
{
    match value {
        CliApprovalPolicy::AutoApprove => "auto_approve",
        CliApprovalPolicy::OnRequest => "on_request",
        CliApprovalPolicy::Manual => "manual",
        CliApprovalPolicy::UnlessTrusted => "unless_trusted",
        CliApprovalPolicy::AutoDeny => "auto_deny",
    }
}

pub open spec fn sandbox_policy_text(value: CliSandboxPolicy) -> Seq<char> {
    match value {
        CliSandboxPolicy::ReadOnly => "read_only"@,
        CliSandboxPolicy::WorkspaceWrite => "workspace_write"@,
        CliSandboxPolicy::DangerFullAccess => "danger_full_access"@,
    }
}

pub fn sandbox_policy_label(value: CliSandboxPolicy) -> (r: &'static str)
    ensures
        r@ == sandbox_policy_text(value),
{
    match value {
        CliSandboxPolicy::ReadOnly => "read_only",
        CliSandboxPolicy::WorkspaceWrite => "workspace_write",
        CliSandboxPolicy::DangerFullAccess => "danger_full_access",
    }
}

pub open spec fn sandbox_network_access_text(value: CliSandboxNetworkAccess) -> Seq<char> {
    match value {
        CliSandboxNetworkAccess::Deny => "deny"@,
        CliSandboxNetworkAccess::Allow => "allow"@,
    }
}

pub fn sandbox_network_access_label(value: CliSandboxNetworkAccess) -> (r: &'static str)
    ensures
        r@ == sandbox_network_access_text(value),
{
    match value {
        CliSandboxNetworkAccess::Deny => "deny",
        CliSandboxNetworkAccess::Allow => "allow",
    }
}

} // verus!
