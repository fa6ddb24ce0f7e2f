//! The composer's inline palette: which palette its last line opens, the
//! query typed into it, and what a command chosen there does.  Work that
//! needs the server or the disk (a mode catalog, the skills, the model
//! list, a configuration change) is handed back to the caller.
use vstd::prelude::*;
use crate::inline_context::{
    list_command_of, list_setting_of, parse_inline_list_command, strings_view, InlineListCommandKind,
    InlineListCommandSetting, ListSettingSpec, inline_context_of, last_line_start, last_line_start_index, last_ws, last_line, parse_inline_context,
    token_span_chars, InlinePaletteKind,
};
use crate::palette::{all_indices, filtered_for, clamp_selected, CommandPaletteOverlay, PaletteCommand};
use crate::palette_exec::model_loading_items;
use crate::palettes::{
    approval_policy_items, build_inline_allowed_tools_palette, build_inline_approval_policy_palette,
    build_inline_command_palette, build_inline_execpolicy_rules_palette, build_inline_model_palette,
    build_inline_role_palette, build_inline_sandbox_network_access_palette, build_inline_sandbox_policy_palette,
    build_inline_skill_palette, build_model_loading_palette, build_model_palette, fresh_palette, inline_command_items,
    inline_role_items, inline_skill_items, item_is, known_allowed_tools, model_items, network_items,
    plain_spec, sandbox_policy_items, tool_entry_ok,
};
use crate::sort::texts_sorted;
use crate::text::{byte_len, chars_of, owned, push_chars, push_str, slice_chars, string_of, trim, trim_chars, trim_end, utf8_len};
use crate::tool_format::opt_string;
use crate::palette::{
    approval_policy_label, approval_policy_text, normalize_label, normalized_label, sandbox_network_access_label,
    sandbox_network_access_text, sandbox_policy_label, sandbox_policy_text,
};
use crate::palette_exec::{marks_header_stale, only_status, palette_command_step, shows, ConfigChange, PaletteFollowUp};
use crate::ui_state::{local_key_ok, top_is_palette, under_palette, HeaderInfo, InlinePalette, Overlay, UiCore, MAX_TRANSCRIPT_ITEMS};

verus! {

/// What the caller does after the inline palette was brought up to date.
#[derive(Debug)]
pub enum InlineFollowUp {
    Nothing,
    /// Ask for the open thread's configuration, hand its modes to
    /// `set_mode_catalog`, and update the palette again.
    LoadModeCatalog,
    /// Look for the skills on disk, hand them to `set_skill_catalog`, and
    /// update the palette again.
    LoadSkillCatalog,
    /// Fetch this thread's model list.
    FetchModels(u128),
}

/// The composer's text without its last line.
pub open spec fn without_last_line(s: Seq<char>) -> Seq<char> {
    s.take(last_line_start(s) as int)
}

/// The palette `v1` is `v0` with the query `q` typed in (nothing changes
/// when the query is already `q`).
pub open spec fn queried(v0: CommandPaletteOverlay, v1: CommandPaletteOverlay, q: Seq<char>) -> bool {
    if v0.query@ == q {
        v1 == v0
    } else {
        &&& v1.title == v0.title
        &&& v1.items == v0.items
        &&& v1.query@ == q
        &&& v1.filtered@ == filtered_for(v0.items@, q)
        &&& v1.selected == clamp_selected(v0.selected, filtered_for(v0.items@, q).len())
        &&& v1.wf()
    }
}

/// The allowed-tools palette: `clear`, then one entry per known tool.
pub open spec fn allowed_tools_palette(r: CommandPaletteOverlay) -> bool {
    &&& r.title@ == "allowed-tools"@
    &&& r.query@ == Seq::<char>::empty()
    &&& r.items.len() == 1 + known_allowed_tools().len()
    &&& item_is(r.items@[0], plain_spec("clear"@, PaletteCommand::ClearAllowedTools))
    &&& forall|i: int| 0 <= i < known_allowed_tools().len() ==> tool_entry_ok(#[trigger] r.items@[i + 1], known_allowed_tools()[i])
    &&& r.filtered@ == all_indices(r.items.len() as nat)
    &&& r.selected == 0
    &&& r.wf()
}

/// The palette opened for `kind`, from the catalogs and header of `ui`.
pub open spec fn inline_palette_built(kind: InlinePaletteKind, v: CommandPaletteOverlay, ui: UiCore) -> bool {
    match kind {
        InlinePaletteKind::Command => fresh_palette(v, "commands"@, inline_command_items(ui.active_thread is Some)),
        InlinePaletteKind::Role => exists|sorted: Seq<String>|
            texts_sorted(sorted) && sorted.to_multiset() == ui.mode_catalog@.to_multiset() && fresh_palette(
                v,
                "roles"@,
                inline_role_items(sorted, opt_string(ui.header.mode)),
            ),
        InlinePaletteKind::Skill => exists|sorted: Seq<String>|
            texts_sorted(sorted) && sorted.to_multiset() == ui.skill_catalog@.to_multiset() && fresh_palette(
                v,
                "skills"@,
                inline_skill_items(sorted),
            ),
        InlinePaletteKind::Model => if ui.model_list_loaded {
            exists|sorted: Seq<String>|
                texts_sorted(sorted) && sorted.to_multiset() == ui.model_list@.to_multiset() && fresh_palette(
                    v,
                    "model"@,
                    model_items(sorted, opt_string(ui.header.model)),
                )
        } else {
            fresh_palette(v, "model"@, model_loading_items())
        },
        InlinePaletteKind::ApprovalPolicy => fresh_palette(v, "approval-policy"@, approval_policy_items()),
        InlinePaletteKind::SandboxPolicy => fresh_palette(v, "sandbox-policy"@, sandbox_policy_items()),
        InlinePaletteKind::SandboxNetworkAccess => fresh_palette(v, "sandbox-network"@, network_items()),
        InlinePaletteKind::AllowedTools => allowed_tools_palette(v),
        InlinePaletteKind::ExecpolicyRules => fresh_palette(
            v,
            "execpolicy-rules"@,
            seq![
                plain_spec("clear"@, PaletteCommand::ClearExecpolicyRules),
                plain_spec("type comma-separated paths"@, PaletteCommand::Noop),
            ],
        ),
    }
}

/// The palette of `kind` is already open.
pub open spec fn kind_open(ui: UiCore, kind: InlinePaletteKind) -> bool {
    ui.inline_palette matches Some(p) && p.kind == kind
}

/// A mode catalog must be asked for first (only with an open thread).
pub open spec fn needs_mode_catalog(ui: UiCore, kind: InlinePaletteKind) -> bool {
    kind == InlinePaletteKind::Role && !ui.mode_catalog_loaded && ui.active_thread is Some
}

/// The skills must be looked for first.
pub open spec fn needs_skill_catalog(ui: UiCore, kind: InlinePaletteKind) -> bool {
    kind == InlinePaletteKind::Skill && !ui.skill_catalog_loaded
}

/// A model list is to be fetched for the inline model palette.
pub open spec fn starts_model_fetch(ui: UiCore, kind: InlinePaletteKind) -> bool {
    kind == InlinePaletteKind::Model && !ui.model_list_loaded && !ui.model_fetch_pending && ui.active_thread is Some
}

/// What bringing the inline palette up to date does.
#[verifier::opaque]
pub open spec fn inline_update_step(before: UiCore, after: UiCore, f: InlineFollowUp) -> bool {
    match inline_context_of(before.input@) {
        None => f is Nothing && after == (UiCore { inline_palette: None, ..before }),
        Some((kind, query)) => if needs_mode_catalog(before, kind) {
            f is LoadModeCatalog && after == before
        } else if needs_skill_catalog(before, kind) {
            f is LoadSkillCatalog && after == before
        } else {
            let fetch = starts_model_fetch(before, kind);
            &&& after == (UiCore {
                inline_palette: after.inline_palette,
                model_fetch_pending: before.model_fetch_pending || fetch,
                model_fetch_active: before.model_fetch_active || fetch,
                ..before
            })
            &&& if fetch { f == InlineFollowUp::FetchModels(before.active_thread->0) } else { f is Nothing }
            &&& after.inline_palette matches Some(p) && p.kind == kind && exists|v0: CommandPaletteOverlay|
                #[trigger] queried(v0, p.view, trim(query)) && (if kind_open(before, kind) {
                    v0 == before.inline_palette->0.view
                } else {
                    inline_palette_built(kind, v0, before)
                })
        },
    }
}

/// Types `q` into a palette, refiltering it when the query changes.
fn type_query(view: &mut CommandPaletteOverlay, q: &str)
    ensures
        queried(*old(view), *final(view), q@),
{
    let cur = chars_of(view.query.as_str());
    let qc = chars_of(q);
    if !crate::text::chars_eq(cur.as_slice(), qc.as_slice()) {
        view.query = owned(q);
        view.rebuild_filter();
    }
}

impl UiCore {
    /// Drops the composer's last line.
    pub fn clear_inline_line(&mut self)
        ensures
            final(self).input@ == without_last_line(old(self).input@),
            *final(self) == (UiCore { input: final(self).input, ..*old(self) }),
    {
        let cs = chars_of(self.input.as_str());
        let k = last_line_start_index(cs.as_slice());
        proof {
            crate::inline_context::lemma_last_line_start(cs@);
        }
        let kept = slice_chars(cs.as_slice(), 0, k);
        assert(kept@ =~= without_last_line(cs@));
        self.input = string_of(kept.as_slice());
    }

    /// Builds the palette for `kind` from the catalogs and the header.
    fn build_inline_palette(&self, kind: InlinePaletteKind) -> (v: CommandPaletteOverlay)
        ensures
            inline_palette_built(kind, v, *self),
    {
        match kind {
            InlinePaletteKind::Command => build_inline_command_palette(self.active_thread.is_some()),
            InlinePaletteKind::Role => {
                let current: Option<&str> = match &self.header.mode {
                    Some(m) => Some(m.as_str()),
                    None => None,
                };
                build_inline_role_palette(self.mode_catalog.clone(), current)
            },
            InlinePaletteKind::Skill => build_inline_skill_palette(self.skill_catalog.clone()),
            InlinePaletteKind::Model => if self.model_list_loaded {
                let current: Option<&str> = match &self.header.model {
                    Some(m) => Some(m.as_str()),
                    None => None,
                };
                build_inline_model_palette(self.model_list.clone(), current)
            } else {
                build_model_loading_palette()
            },
            InlinePaletteKind::ApprovalPolicy => build_inline_approval_policy_palette(),
            InlinePaletteKind::SandboxPolicy => build_inline_sandbox_policy_palette(),
            InlinePaletteKind::SandboxNetworkAccess => build_inline_sandbox_network_access_palette(),
            InlinePaletteKind::AllowedTools => build_inline_allowed_tools_palette(),
            InlinePaletteKind::ExecpolicyRules => build_inline_execpolicy_rules_palette(),
        }
    }

    /// Brings the inline palette up to date with the composer's last line:
    /// opens the palette it asks for (keeping one already open of the same
    /// kind) and types the query into it; closes it when the line asks for
    /// none.
    #[verifier::rlimit(80)]
    #[verifier::spinoff_prover]
    pub fn update_inline_palette(&mut self) -> (f: InlineFollowUp)
        ensures
            inline_update_step(*old(self), *final(self), f),
            final(self).transcript == old(self).transcript,
    {
        reveal(inline_update_step);
        let ctx = match parse_inline_context(self.input.as_str()) {
            Some(c) => c,
            None => {
                self.inline_palette = None;
                return InlineFollowUp::Nothing;
            },
        };
        let kind = ctx.kind;
        if kind == InlinePaletteKind::Role && !self.mode_catalog_loaded && self.active_thread.is_some() {
            return InlineFollowUp::LoadModeCatalog;
        }
        if kind == InlinePaletteKind::Skill && !self.skill_catalog_loaded {
            return InlineFollowUp::LoadSkillCatalog;
        }
        let qc = chars_of(ctx.query.as_str());
        let q = string_of(trim_chars(qc.as_slice()).as_slice());
        let ghost before = *self;
        let open = match &self.inline_palette {
            Some(p) => p.kind == kind,
            None => false,
        };
        let mut view = if open {
            match self.inline_palette.take() {
                Some(p) => p.view,
                None => self.build_inline_palette(kind),
            }
        } else {
            self.build_inline_palette(kind)
        };
        let ghost v0 = view;
        type_query(&mut view, q.as_str());
        self.inline_palette = Some(InlinePalette { kind, view });
        let mut f = InlineFollowUp::Nothing;
        if kind == InlinePaletteKind::Model && !self.model_list_loaded && !self.model_fetch_pending {
            match self.active_thread {
                Some(id) => {
                    self.model_fetch_pending = true;
                    self.model_fetch_active = true;
                    f = InlineFollowUp::FetchModels(id);
                },
                None => {},
            }
        }
        assert(queried(v0, self.inline_palette->0.view, trim(qc@)));
        f
    }
}

/// The trimmed, non-empty texts of a list, in order.
pub open spec fn trimmed_nonempty(v: Seq<String>) -> Seq<Seq<char>>
    decreases v.len(),
{
    if v.len() == 0 {
        seq![]
    } else {
        let prev = trimmed_nonempty(v.drop_last());
        let t = trim(v.last()@);
        if t.len() == 0 { prev } else { prev.push(t) }
    }
}

/// The texts of a list of strings.
pub open spec fn texts_of(v: Seq<String>) -> Seq<Seq<char>> {
    v.map_values(|s: String| s@)
}

/// The composer's text with the token that `trigger` starts on its last
/// line replaced by `value` (unchanged when there is no such token).
pub open spec fn token_replaced(input: Seq<char>, trigger: char, value: Seq<char>) -> Seq<char> {
    match token_span_chars(input, trigger) {
        Some((a, b)) => input.take(a as int) + value + input.skip(b as int),
        None => input,
    }
}

/// The last line's last whitespace, if any, is a one-byte character (the
/// token is found by byte position after it).
pub open spec fn token_bytes_ok(input: Seq<char>) -> bool {
    match last_ws(trim_end(last_line(input))) {
        Some(i) => utf8_len(trim_end(last_line(input))[i as int]) == 1,
        None => true,
    }
}

/// `token_span_chars`, computed.
fn token_span_index(cs: &[char], trigger: char) -> (r: Option<(usize, usize)>)
    ensures
        match token_span_chars(cs@, trigger) {
            Some((a, b)) => r == Some((a as usize, b as usize)) && a <= b <= cs@.len(),
            None => r is None,
        },
{
    let k = last_line_start_index(cs);
    proof {
        crate::inline_context::lemma_last_line_start(cs@);
    }
    let raw = slice_chars(cs, k, cs.len());
    assert(raw@ =~= last_line(cs@));
    let line = crate::text::trim_end_chars(raw.as_slice());
    proof {
        crate::text::lemma_trim_end_len_bound(raw@);
        crate::inline_context::lemma_last_ws(line@);
    }
    if line.len() == 0 {
        return None;
    }
    let t = match crate::inline_context::last_ws_index(line.as_slice()) {
        Some(i) => i + 1,
        None => 0,
    };
    if t < line.len() && line[t] == trigger {
        Some((k + t, k + line.len()))
    } else {
        None
    }
}

impl UiCore {
    /// Keeps the open thread's modes (trimmed, blank ones dropped).
    pub fn set_mode_catalog(&mut self, modes: Vec<String>)
        ensures
            texts_of(final(self).mode_catalog@) == trimmed_nonempty(modes@),
            *final(self) == (UiCore { mode_catalog: final(self).mode_catalog, mode_catalog_loaded: true, ..*old(self) }),
    {
        let mut out: Vec<String> = Vec::new();
        let mut i: usize = 0;
        while i < modes.len()
            invariant
                i <= modes.len(),
                texts_of(out@) == trimmed_nonempty(modes@.take(i as int)),
            decreases modes.len() - i,
        {
            let cs = chars_of(modes[i].as_str());
            let t = trim_chars(cs.as_slice());
            proof {
                assert(modes@.take(i + 1).drop_last() =~= modes@.take(i as int));
            }
            if t.len() > 0 {
                let ghost before = out@;
                out.push(string_of(t.as_slice()));
                assert(texts_of(out@) =~= texts_of(before).push(t@));
            }
            i += 1;
        }
        assert(modes@.take(modes.len() as int) =~= modes@);
        self.mode_catalog = out;
        self.mode_catalog_loaded = true;
    }

    /// Keeps the skills found on disk.
    pub fn set_skill_catalog(&mut self, names: Vec<String>)
        ensures
            *final(self) == (UiCore { skill_catalog: names, skill_catalog_loaded: true, ..*old(self) }),
    {
        self.skill_catalog = names;
        self.skill_catalog_loaded = true;
    }

    /// Replaces the token that `trigger` starts on the composer's last line
    /// with `replacement` (and a space after it when asked).
    pub fn replace_inline_token(&mut self, trigger: char, replacement: &str, trailing_space: bool)
        requires
            token_bytes_ok(old(self).input@),
        ensures
            final(self).input@ == token_replaced(
                old(self).input@,
                trigger,
                replacement@ + (if trailing_space { " "@ } else { seq![] }),
            ),
            *final(self) == (UiCore { input: final(self).input, ..*old(self) }),
    {
        let cs = chars_of(self.input.as_str());
        match token_span_index(cs.as_slice(), trigger) {
            Some((a, b)) => {
                let mut out = string_of(slice_chars(cs.as_slice(), 0, a).as_slice());
                push_str(&mut out, replacement);
                if trailing_space {
                    push_str(&mut out, " ");
                }
                push_chars(&mut out, slice_chars(cs.as_slice(), b, cs.len()).as_slice());
                proof {
                    reveal_strlit(" ");
                    assert(out@ =~= cs@.take(a as int) + (replacement@ + (if trailing_space {
                        " "@
                    } else {
                        seq![]
                    })) + cs@.skip(b as int));
                }
                self.input = out;
            },
            None => {},
        }
    }
}

/// What the caller does after a command chosen in the inline palette.
#[derive(Debug)]
pub enum InlineCommandFollowUp {
    Done,
    /// The composer changed: follow up on the inline palette as asked.
    Update(InlineFollowUp),
    /// Change this thread's configuration, then call `finish_inline_configure`.
    Configure(u128, ConfigChange),
    /// A palette command: perform it, then call `finish_inline_palette_command`.
    Palette(PaletteFollowUp),
}

/// The status after an inline configuration change was made.
pub open spec fn inline_done_text(change: ConfigChange) -> Seq<char> {
    match change {
        ConfigChange::Mode(m) => "mode="@ + normalized_label(m@),
        ConfigChange::Model(m) => "model="@ + m@,
        ConfigChange::ApprovalPolicy(v) => "approval-policy="@ + approval_policy_text(v),
        ConfigChange::SandboxPolicy(v) => "sandbox-policy="@ + sandbox_policy_text(v),
        ConfigChange::SandboxNetworkAccess(v) => "sandbox-network="@ + sandbox_network_access_text(v),
        ConfigChange::AllowedTools(t) => "allowed_tools=["@ + t@ + "]"@,
        ConfigChange::ClearAllowedTools => "allowed_tools=<cleared>"@,
        ConfigChange::ClearExecpolicyRules => "execpolicy_rules=<cleared>"@,
    }
}

/// The composer was set to `text` (the inline palette closed), and then
/// the inline palette was brought up to date.
pub open spec fn input_then_update(before: UiCore, after: UiCore, f: InlineCommandFollowUp, text: Seq<char>) -> bool {
    f matches InlineCommandFollowUp::Update(g) && exists|mid: UiCore|
        #[trigger] inline_update_step(mid, after, g) && mid == (UiCore {
            input: mid.input,
            inline_palette: None,
            ..before
        }) && mid.input@ == text
}

/// A configuration command: without an open thread it only says so.
pub open spec fn inline_configure_step(before: UiCore, after: UiCore, f: InlineCommandFollowUp, change: ConfigChange) -> bool {
    match before.active_thread {
        None => f is Done && only_status(before, after, "no active thread"@),
        Some(id) => after == before && f == InlineCommandFollowUp::Configure(id, change),
    }
}

/// What running a command chosen in the inline palette does.
pub open spec fn inline_command_step(before: UiCore, after: UiCore, command: PaletteCommand, f: InlineCommandFollowUp) -> bool {
    match command {
        PaletteCommand::InsertSkill(skill) => f is Done && after == (UiCore {
            input: after.input,
            inline_palette: None,
            ..before
        }) && after.input@ == token_replaced(before.input@, '$', "$"@ + skill@ + " "@),
        PaletteCommand::SetMode(m) => inline_configure_step(before, after, f, ConfigChange::Mode(m)),
        PaletteCommand::SetModel(m) => inline_configure_step(before, after, f, ConfigChange::Model(m)),
        PaletteCommand::SetApprovalPolicy(v) => inline_configure_step(before, after, f, ConfigChange::ApprovalPolicy(v)),
        PaletteCommand::SetSandboxPolicy(v) => inline_configure_step(before, after, f, ConfigChange::SandboxPolicy(v)),
        PaletteCommand::SetSandboxNetworkAccess(v) => inline_configure_step(
            before,
            after,
            f,
            ConfigChange::SandboxNetworkAccess(v),
        ),
        PaletteCommand::SetAllowedTools(t) => inline_configure_step(before, after, f, ConfigChange::AllowedTools(t)),
        PaletteCommand::ClearAllowedTools => inline_configure_step(before, after, f, ConfigChange::ClearAllowedTools),
        PaletteCommand::ClearExecpolicyRules => inline_configure_step(
            before,
            after,
            f,
            ConfigChange::ClearExecpolicyRules,
        ),
        PaletteCommand::PickMode => input_then_update(before, after, f, "/mode "@),
        PaletteCommand::PickModel => input_then_update(before, after, f, "/model "@),
        PaletteCommand::PickApprovalPolicy => input_then_update(before, after, f, "/approval-policy "@),
        PaletteCommand::PickSandboxPolicy => input_then_update(before, after, f, "/sandbox-policy "@),
        PaletteCommand::PickSandboxNetworkAccess => input_then_update(before, after, f, "/sandbox-network "@),
        PaletteCommand::PickAllowedTools => input_then_update(before, after, f, "/allowed-tools "@),
        PaletteCommand::PickExecpolicyRules => input_then_update(before, after, f, "/execpolicy-rules "@),
        PaletteCommand::OpenRoot => input_then_update(before, after, f, "/"@),
        PaletteCommand::Noop => after == before && f is Done,
        _ => f matches InlineCommandFollowUp::Palette(g) && palette_command_step(before, after, command, g),
    }
}

/// The commands the inline palette runs itself (the others run as in the
/// command palette).
pub open spec fn is_inline_own(c: PaletteCommand) -> bool {
    ||| c is InsertSkill
    ||| c is SetMode
    ||| c is SetModel
    ||| c is SetApprovalPolicy
    ||| c is SetSandboxPolicy
    ||| c is SetSandboxNetworkAccess
    ||| c is SetAllowedTools
    ||| c is ClearAllowedTools
    ||| c is ClearExecpolicyRules
    ||| c is PickMode
    ||| c is PickModel
    ||| c is PickApprovalPolicy
    ||| c is PickSandboxPolicy
    ||| c is PickSandboxNetworkAccess
    ||| c is PickAllowedTools
    ||| c is PickExecpolicyRules
    ||| c is OpenRoot
    ||| c is Noop
}

fn is_inline_own_exec(c: &PaletteCommand) -> (r: bool)
    ensures
        r == is_inline_own(*c),
{
    match c {
        PaletteCommand::InsertSkill(_) | PaletteCommand::SetMode(_) | PaletteCommand::SetModel(_)
        | PaletteCommand::SetApprovalPolicy(_) | PaletteCommand::SetSandboxPolicy(_)
        | PaletteCommand::SetSandboxNetworkAccess(_) | PaletteCommand::SetAllowedTools(_)
        | PaletteCommand::ClearAllowedTools | PaletteCommand::ClearExecpolicyRules | PaletteCommand::PickMode
        | PaletteCommand::PickModel | PaletteCommand::PickApprovalPolicy | PaletteCommand::PickSandboxPolicy
        | PaletteCommand::PickSandboxNetworkAccess | PaletteCommand::PickAllowedTools
        | PaletteCommand::PickExecpolicyRules | PaletteCommand::OpenRoot | PaletteCommand::Noop => true,
        _ => false,
    }
}

/// The composer's text, when it is exactly `text`.
fn set_input_and_update(ui: &mut UiCore, text: &str) -> (f: InlineCommandFollowUp)
    ensures
        input_then_update(*old(ui), *final(ui), f, text@),
        final(ui).transcript == old(ui).transcript,
{
    ui.input = owned(text);
    ui.inline_palette = None;
    let ghost mid = *ui;
    let g = ui.update_inline_palette();
    assert(inline_update_step(mid, *ui, g));
    InlineCommandFollowUp::Update(g)
}

fn inline_done_string(change: &ConfigChange) -> (r: String)
    ensures
        r@ == inline_done_text(*change),
{
    match change {
        ConfigChange::Mode(m) => {
            let mut s = owned("mode=");
            push_str(&mut s, normalize_label(m.as_str()).as_str());
            s
        },
        ConfigChange::Model(m) => {
            let mut s = owned("model=");
            push_str(&mut s, m.as_str());
            s
        },
        ConfigChange::ApprovalPolicy(v) => {
            let mut s = owned("approval-policy=");
            push_str(&mut s, approval_policy_label(*v));
            s
        },
        ConfigChange::SandboxPolicy(v) => {
            let mut s = owned("sandbox-policy=");
            push_str(&mut s, sandbox_policy_label(*v));
            s
        },
        ConfigChange::SandboxNetworkAccess(v) => {
            let mut s = owned("sandbox-network=");
            push_str(&mut s, sandbox_network_access_label(*v));
            s
        },
        ConfigChange::AllowedTools(t) => {
            let mut s = owned("allowed_tools=[");
            push_str(&mut s, t.as_str());
            push_str(&mut s, "]");
            s
        },
        ConfigChange::ClearAllowedTools => owned("allowed_tools=<cleared>"),
        ConfigChange::ClearExecpolicyRules => owned("execpolicy_rules=<cleared>"),
    }
}

/// The header after an inline configuration change.
pub open spec fn header_after(header: HeaderInfo, change: ConfigChange) -> HeaderInfo {
    match change {
        ConfigChange::Mode(m) => HeaderInfo { mode: Some(m), ..header },
        ConfigChange::Model(m) => HeaderInfo { model: Some(m), ..header },
        _ => header,
    }
}

impl UiCore {
    /// Takes a configuration change into the header, or marks the header
    /// stale for a change of the allowed tools or rules.
    fn note_config_change(&mut self, change: &ConfigChange)
        ensures
            *final(self) == (UiCore {
                header: header_after(old(self).header, *change),
                header_needs_refresh: old(self).header_needs_refresh || marks_header_stale(*change),
                ..*old(self)
            }),
    {
        match change {
            ConfigChange::Mode(m) => {
                self.header.mode = Some(m.clone());
            },
            ConfigChange::Model(m) => {
                self.header.model = Some(m.clone());
            },
            ConfigChange::AllowedTools(_) | ConfigChange::ClearAllowedTools | ConfigChange::ClearExecpolicyRules => {
                self.header_needs_refresh = true;
            },
            _ => {},
        }
    }

    /// Puts `$skill ` in place of the skill token being typed.
    fn insert_skill(&mut self, skill: String)
        requires
            token_bytes_ok(old(self).input@),
        ensures
            *final(self) == (UiCore { input: final(self).input, inline_palette: None, ..*old(self) }),
            final(self).input@ == token_replaced(old(self).input@, '$', "$"@ + skill@ + " "@),
    {
        let mut value = owned("$");
        push_str(&mut value, skill.as_str());
        self.replace_inline_token('$', value.as_str(), true);
        self.inline_palette = None;
        proof {
            reveal_strlit(" ");
        }
    }
}

impl UiCore {
    /// Runs a command chosen in the inline palette.
    pub fn begin_inline_command(&mut self, command: PaletteCommand) -> (f: InlineCommandFollowUp)
        requires
            old(self).transcript@.len() <= MAX_TRANSCRIPT_ITEMS,
            local_key_ok(under_palette(old(self).overlays@)),
            token_bytes_ok(old(self).input@),
        ensures
            inline_command_step(*old(self), *final(self), command, f),
            final(self).transcript@.len() <= MAX_TRANSCRIPT_ITEMS,
    {
        if is_inline_own_exec(&command) {
            self.begin_inline_own(command)
        } else {
            let g = self.begin_palette_command(command);
            InlineCommandFollowUp::Palette(g)
        }
    }

    /// The commands the inline palette runs itself.
    #[verifier::spinoff_prover]
    fn begin_inline_own(&mut self, command: PaletteCommand) -> (f: InlineCommandFollowUp)
        requires
            old(self).transcript@.len() <= MAX_TRANSCRIPT_ITEMS,
            token_bytes_ok(old(self).input@),
            is_inline_own(command),
        ensures
            inline_command_step(*old(self), *final(self), command, f),
            final(self).transcript@.len() <= MAX_TRANSCRIPT_ITEMS,
    {
        match command {
            PaletteCommand::InsertSkill(skill) => {
                self.insert_skill(skill);
                InlineCommandFollowUp::Done
            },
            PaletteCommand::SetMode(m) => self.begin_inline_configure(ConfigChange::Mode(m)),
            PaletteCommand::SetModel(m) => self.begin_inline_configure(ConfigChange::Model(m)),
            PaletteCommand::SetApprovalPolicy(v) => self.begin_inline_configure(ConfigChange::ApprovalPolicy(v)),
            PaletteCommand::SetSandboxPolicy(v) => self.begin_inline_configure(ConfigChange::SandboxPolicy(v)),
            PaletteCommand::SetSandboxNetworkAccess(v) => self.begin_inline_configure(
                ConfigChange::SandboxNetworkAccess(v),
            ),
            PaletteCommand::SetAllowedTools(t) => self.begin_inline_configure(ConfigChange::AllowedTools(t)),
            PaletteCommand::ClearAllowedTools => self.begin_inline_configure(ConfigChange::ClearAllowedTools),
            PaletteCommand::ClearExecpolicyRules => self.begin_inline_configure(ConfigChange::ClearExecpolicyRules),
            PaletteCommand::PickMode => set_input_and_update(self, "/mode "),
            PaletteCommand::PickModel => set_input_and_update(self, "/model "),
            PaletteCommand::PickApprovalPolicy => set_input_and_update(self, "/approval-policy "),
            PaletteCommand::PickSandboxPolicy => set_input_and_update(self, "/sandbox-policy "),
            PaletteCommand::PickSandboxNetworkAccess => set_input_and_update(self, "/sandbox-network "),
            PaletteCommand::PickAllowedTools => set_input_and_update(self, "/allowed-tools "),
            PaletteCommand::PickExecpolicyRules => set_input_and_update(self, "/execpolicy-rules "),
            PaletteCommand::OpenRoot => set_input_and_update(self, "/"),
            _ => InlineCommandFollowUp::Done,
        }
    }

    fn begin_inline_configure(&mut self, change: ConfigChange) -> (f: InlineCommandFollowUp)
        requires
            old(self).transcript@.len() <= MAX_TRANSCRIPT_ITEMS,
        ensures
            inline_configure_step(*old(self), *final(self), f, change),
            final(self).transcript@.len() <= MAX_TRANSCRIPT_ITEMS,
    {
        match self.active_thread {
            Some(id) => InlineCommandFollowUp::Configure(id, change),
            None => {
                proof {
                    reveal_strlit("no active thread");
                }
                self.set_status(owned("no active thread"));
                InlineCommandFollowUp::Done
            },
        }
    }

    /// Reports an inline configuration change that was made: the header
    /// takes a new mode or model, the status says what changed, and the
    /// composer's last line and the inline palette are cleared.
    pub fn finish_inline_configure(&mut self, change: &ConfigChange)
        requires
            old(self).transcript@.len() <= MAX_TRANSCRIPT_ITEMS,
        ensures
            shows(*old(self), *final(self), inline_done_text(*change)),
            final(self).input@ == without_last_line(old(self).input@),
            final(self).inline_palette is None,
            final(self).header == header_after(old(self).header, *change),
            final(self).header_needs_refresh == (old(self).header_needs_refresh || marks_header_stale(*change)),
            *final(self) == (UiCore {
                status: final(self).status,
                status_expires_at: final(self).status_expires_at,
                transcript: final(self).transcript,
                input: final(self).input,
                inline_palette: None,
                header: final(self).header,
                header_needs_refresh: final(self).header_needs_refresh,
                ..*old(self)
            }),
    {
        let msg = inline_done_string(change);
        self.note_config_change(change);
        self.set_status(msg);
        self.clear_inline_line();
        self.inline_palette = None;
    }

    /// After a palette command chosen in the inline palette was performed:
    /// the composer's last line and the inline palette are cleared.
    pub fn finish_inline_palette_command(&mut self)
        ensures
            final(self).input@ == without_last_line(old(self).input@),
            *final(self) == (UiCore { input: final(self).input, inline_palette: None, ..*old(self) }),
    {
        self.clear_inline_line();
        self.inline_palette = None;
    }
}

/// A lower-case hexadecimal digit.
pub open spec fn hex_lower(d: nat) -> char {
    if d < 10 { ((d + 0x30) as u32) as char } else { ((d - 10 + 0x61) as u32) as char }
}

/// How a character stands inside a JSON string: `"` and `\` behind a
/// backslash; backspace, tab, line feed, form feed and carriage return as
/// `\b \t \n \f \r`; other control characters below U+0020 as `\u00XX`
/// (lower-case hex); every other character as itself.
pub open spec fn json_escape_char(c: char) -> Seq<char> {
    let v = c as u32;
    if c == '"' {
        seq!['\\', '"']
    } else if c == '\\' {
        seq!['\\', '\\']
    } else if v == 0x08 {
        seq!['\\', 'b']
    } else if v == 0x09 {
        seq!['\\', 't']
    } else if v == 0x0A {
        seq!['\\', 'n']
    } else if v == 0x0C {
        seq!['\\', 'f']
    } else if v == 0x0D {
        seq!['\\', 'r']
    } else if v < 0x20 {
        seq!['\\', 'u', '0', '0', hex_lower((v / 16) as nat), hex_lower((v % 16) as nat)]
    } else {
        seq![c]
    }
}

/// The characters of `s`, each as it stands inside a JSON string.
pub open spec fn json_escaped(s: Seq<char>) -> Seq<char>
    decreases s.len(),
{
    if s.len() == 0 {
        seq![]
    } else {
        json_escaped(s.drop_last()) + json_escape_char(s.last())
    }
}

/// A text as a JSON string.
pub open spec fn json_quoted(s: Seq<char>) -> Seq<char> {
    seq!['"'] + json_escaped(s) + seq!['"']
}

/// What `serde_json::to_string` makes of a list of strings: a JSON array of
/// JSON strings, `[` and `]` around them, separated by commas with no space.
/// (Writing into memory does not fail, so the result is always there.)
pub open spec fn json_string_array(values: Seq<Seq<char>>) -> Option<Seq<char>> {
    Some(seq!['['] + crate::text::join(values.map_values(|v: Seq<char>| json_quoted(v)), seq![',']) + seq![']'])
}

/// Writes a list of strings as JSON with `serde_json::to_string` (its
/// compact form, as `json_string_array` states it).
#[verifier::external_body]
fn json_array_text(values: &Vec<String>) -> (r: Option<String>)
    ensures
        json_string_array(strings_view(values@)) == match r {
            Some(t) => Some(t@),
            None => None,
        },
{
    serde_json::to_string(values).ok()
}

/// A change of the allowed tools or rules typed as a list command.
#[derive(Debug)]
pub enum ListChange {
    ClearAllowedTools,
    ClearExecpolicyRules,
    AllowedTools(Vec<String>),
    ExecpolicyRules(Vec<String>),
}

/// What the caller does after the composer's line was read as a list command.
#[derive(Debug)]
pub enum ListFollowUp {
    /// The line is no list command.
    NotList,
    /// The line was answered (with a status).
    Handled,
    /// Change this thread's configuration, then call `finish_inline_list_command`.
    Configure(u128, ListChange),
}

/// How a list command is used.
pub open spec fn list_usage_text(kind: InlineListCommandKind) -> Seq<char> {
    match kind {
        InlineListCommandKind::AllowedTools => "usage: /allowed-tools <a,b> | /allowed-tools clear"@,
        InlineListCommandKind::ExecpolicyRules => "usage: /execpolicy-rules <a,b> | /execpolicy-rules clear"@,
    }
}

/// What reading the composer's line as a list command does.
pub open spec fn list_command_step(before: UiCore, after: UiCore, f: ListFollowUp) -> bool {
    match list_command_of(before.input@) {
        None => f is NotList && after == before,
        Some((kind, raw)) => match before.active_thread {
            None => f is Handled && only_status(before, after, "no active thread"@),
            Some(id) => match list_setting_of(raw) {
                ListSettingSpec::Missing => f is Handled && only_status(before, after, list_usage_text(kind)),
                ListSettingSpec::Clear => after == before && f == ListFollowUp::Configure(
                    id,
                    if kind == InlineListCommandKind::AllowedTools {
                        ListChange::ClearAllowedTools
                    } else {
                        ListChange::ClearExecpolicyRules
                    },
                ),
                ListSettingSpec::Values(vs) => after == before && (f matches ListFollowUp::Configure(i, c) && i
                    == id && match c {
                    ListChange::AllowedTools(v) => kind == InlineListCommandKind::AllowedTools && strings_view(v@)
                        == vs,
                    ListChange::ExecpolicyRules(v) => kind == InlineListCommandKind::ExecpolicyRules
                        && strings_view(v@) == vs,
                    _ => false,
                }),
            },
        },
    }
}

/// The list as the status shows it.
pub open spec fn list_text(v: Seq<String>) -> Seq<char> {
    match json_string_array(strings_view(v)) {
        Some(t) => t,
        None => "[...]"@,
    }
}

/// The status after a list command's change was made.
pub open spec fn list_done_text(change: ListChange) -> Seq<char> {
    match change {
        ListChange::ClearAllowedTools => "allowed_tools=<cleared>"@,
        ListChange::ClearExecpolicyRules => "execpolicy_rules=<cleared>"@,
        ListChange::AllowedTools(v) => "allowed_tools="@ + list_text(v@),
        ListChange::ExecpolicyRules(v) => "execpolicy_rules="@ + list_text(v@),
    }
}

fn list_string(v: &Vec<String>) -> (r: String)
    ensures
        r@ == list_text(v@),
{
    match json_array_text(v) {
        Some(t) => t,
        None => owned("[...]"),
    }
}

impl UiCore {
    /// Reads the composer's line as `/allowed-tools ...` or
    /// `/execpolicy-rules ...`.
    #[verifier::rlimit(60)]
    #[verifier::spinoff_prover]
    pub fn begin_inline_list_command(&mut self) -> (f: ListFollowUp)
        requires
            old(self).transcript@.len() <= MAX_TRANSCRIPT_ITEMS,
        ensures
            list_command_step(*old(self), *final(self), f),
            final(self).transcript@.len() <= MAX_TRANSCRIPT_ITEMS,
    {
        let cmd = match parse_inline_list_command(self.input.as_str()) {
            Some(c) => c,
            None => return ListFollowUp::NotList,
        };
        let id = match self.active_thread {
            Some(id) => id,
            None => {
                proof {
                    reveal_strlit("no active thread");
                }
                self.set_status(owned("no active thread"));
                return ListFollowUp::Handled;
            },
        };
        let allowed = match cmd.kind {
            InlineListCommandKind::AllowedTools => true,
            InlineListCommandKind::ExecpolicyRules => false,
        };
        match cmd.setting {
            InlineListCommandSetting::Missing => {
                let msg = if allowed {
                    owned("usage: /allowed-tools <a,b> | /allowed-tools clear")
                } else {
                    owned("usage: /execpolicy-rules <a,b> | /execpolicy-rules clear")
                };
                self.set_status(msg);
                ListFollowUp::Handled
            },
            InlineListCommandSetting::Clear => ListFollowUp::Configure(
                id,
                if allowed {
                    ListChange::ClearAllowedTools
                } else {
                    ListChange::ClearExecpolicyRules
                },
            ),
            InlineListCommandSetting::Values(v) => ListFollowUp::Configure(
                id,
                if allowed {
                    ListChange::AllowedTools(v)
                } else {
                    ListChange::ExecpolicyRules(v)
                },
            ),
        }
    }

    /// Reports a list command's change that was made; the composer's last
    /// line and the inline palette are cleared and the header is marked stale.
    pub fn finish_inline_list_command(&mut self, change: &ListChange)
        requires
            old(self).transcript@.len() <= MAX_TRANSCRIPT_ITEMS,
        ensures
            shows(*old(self), *final(self), list_done_text(*change)),
            final(self).input@ == without_last_line(old(self).input@),
            *final(self) == (UiCore {
                status: final(self).status,
                status_expires_at: final(self).status_expires_at,
                transcript: final(self).transcript,
                input: final(self).input,
                inline_palette: None,
                header_needs_refresh: true,
                ..*old(self)
            }),
    {
        let msg = match change {
            ListChange::ClearAllowedTools => owned("allowed_tools=<cleared>"),
            ListChange::ClearExecpolicyRules => owned("execpolicy_rules=<cleared>"),
            ListChange::AllowedTools(v) => {
                let mut s = owned("allowed_tools=");
                push_str(&mut s, list_string(v).as_str());
                s
            },
            ListChange::ExecpolicyRules(v) => {
                let mut s = owned("execpolicy_rules=");
                push_str(&mut s, list_string(v).as_str());
                s
            },
        };
        self.set_status(msg);
        self.clear_inline_line();
        self.inline_palette = None;
        self.header_needs_refresh = true;
    }
}

/// How a model-list fetch ended.
#[derive(Debug)]
pub enum ModelFetchOutcome {
    Models(Vec<String>),
    /// The server answered with an error.
    Failed(String),
    /// The fetching task itself failed.
    TaskFailed(String),
}

/// The model palette shown over the stack: one entry per model, sorted.
pub open spec fn model_palette_built(v: CommandPaletteOverlay, models: Seq<String>, current: Option<Seq<char>>) -> bool {
    exists|sorted: Seq<String>|
        texts_sorted(sorted) && sorted.to_multiset() == models.to_multiset() && fresh_palette(
            v,
            "model"@,
            seq![plain_spec("back"@, PaletteCommand::OpenRoot)] + model_items(sorted, current),
        )
}

/// The palette that reports a failed model fetch.
pub open spec fn model_error_palette(v: CommandPaletteOverlay, error: Seq<char>) -> bool {
    fresh_palette(
        v,
        "model"@,
        seq![
            plain_spec("error: "@ + error, PaletteCommand::Noop),
            plain_spec("retry"@, PaletteCommand::PickModel),
            plain_spec("type model and press enter"@, PaletteCommand::Noop),
            plain_spec("back"@, PaletteCommand::OpenRoot),
        ],
    )
}

/// The inline model palette, once the list came.
pub open spec fn inline_models_built(v: CommandPaletteOverlay, models: Seq<String>, current: Option<Seq<char>>) -> bool {
    exists|sorted: Seq<String>|
        texts_sorted(sorted) && sorted.to_multiset() == models.to_multiset() && fresh_palette(
            v,
            "model"@,
            model_items(sorted, current),
        )
}

/// What a fetched model list does, when one was awaited: an empty list is
/// reported as an error; the inline model palette and a palette on top show
/// the list.
pub open spec fn model_list_applied(before: UiCore, after: UiCore, models: Seq<String>) -> bool {
    &&& (after.transcript@.len() <= MAX_TRANSCRIPT_ITEMS)
    &&& (after.model_fetch_active == before.model_fetch_active)
    &&& (!before.model_fetch_pending ==> after == before)
    &&& (before.model_fetch_pending ==> {
                &&& !after.model_fetch_pending
                &&& after.model_list@ == models
                &&& after.model_list_loaded == (models.len() > 0)
                &&& (models.len() == 0 ==> shows(before, after, "thread/models error: empty model list"@))
                &&& (models.len() > 0 ==> after.status == before.status && after.transcript
                    == before.transcript)
                &&& match before.inline_palette {
                    Some(p) => if p.kind == InlinePaletteKind::Model {
                        after.inline_palette matches Some(q) && q.kind == InlinePaletteKind::Model
                            && inline_models_built(q.view, models, opt_string(before.header.model))
                    } else {
                        after.inline_palette == before.inline_palette
                    },
                    None => after.inline_palette is None,
                }
                &&& if top_is_palette(before.overlays@) {
                    after.overlays@.len() == before.overlays@.len() && after.overlays@.drop_last()
                        == before.overlays@.drop_last() && (after.overlays@.last() matches Overlay::CommandPalette(v)
                        && model_palette_built(v, models, opt_string(before.header.model)))
                } else {
                    after.overlays == before.overlays
                }
                &&& after.header == before.header
                &&& after.active_thread == before.active_thread
            })
}

impl UiCore {
    /// Takes a fetched model list, when one was awaited: an empty list is
    /// reported as an error; the inline model palette and a palette on top
    /// show the list.
    pub fn apply_model_list(&mut self, models: Vec<String>)
        requires
            old(self).transcript@.len() <= MAX_TRANSCRIPT_ITEMS,
        ensures
            model_list_applied(*old(self), *final(self), models@),
    {
        if !self.model_fetch_pending {
            return;
        }
        self.model_fetch_pending = false;
        let empty = models.len() == 0;
        self.model_list = models;
        self.model_list_loaded = !empty;
        if empty {
            self.set_status(owned("thread/models error: empty model list"));
        }
        let current: Option<&str> = match &self.header.model {
            Some(m) => Some(m.as_str()),
            None => None,
        };
        let is_model = match &self.inline_palette {
            Some(p) => p.kind == InlinePaletteKind::Model,
            None => false,
        };
        if is_model {
            let view = build_inline_model_palette(self.model_list.clone(), current);
            self.inline_palette = Some(InlinePalette { kind: InlinePaletteKind::Model, view });
        }
        let n = self.overlays.len();
        if n > 0 {
            if let Overlay::CommandPalette(_) = &self.overlays[n - 1] {
                let palette = build_model_palette(self.model_list.clone(), current);
                let ghost before = self.overlays@;
                let ghost p = palette;
                self.replace_top_command_palette(palette);
                assert(self.overlays@.drop_last() =~= before.drop_last());
                assert(self.overlays@.last() == Overlay::CommandPalette(p));
            }
        }
    }

    /// A fetched model list for thread `thread_id` (the fetch has stopped).
    #[verifier::spinoff_prover]
    #[verifier::rlimit(40)]
    fn finish_models(&mut self, thread_id: u128, models: Vec<String>)
        requires
            old(self).transcript@.len() <= MAX_TRANSCRIPT_ITEMS,
            !old(self).model_fetch_active,
        ensures
            final(self).transcript@.len() <= MAX_TRANSCRIPT_ITEMS,
            !final(self).model_fetch_active,
            !final(self).model_fetch_pending,
            if old(self).active_thread == Some(thread_id) {
                model_list_applied(*old(self), *final(self), models@)
            } else {
                *final(self) == (UiCore { model_fetch_pending: false, ..*old(self) })
            },
    {
        if self.active_thread == Some(thread_id) {
            self.apply_model_list(models);
        } else {
            self.model_fetch_pending = false;
        }
    }

    /// Takes the end of a model-list fetch for thread `thread_id`.
    #[verifier::spinoff_prover]
    #[verifier::rlimit(40)]
    pub fn finish_model_fetch(&mut self, thread_id: u128, outcome: ModelFetchOutcome)
        requires
            old(self).transcript@.len() <= MAX_TRANSCRIPT_ITEMS,
        ensures
            final(self).transcript@.len() <= MAX_TRANSCRIPT_ITEMS,
            !final(self).model_fetch_active,
            !final(self).model_fetch_pending,
            match outcome {
                ModelFetchOutcome::Models(m) => if old(self).active_thread == Some(thread_id) {
                    model_list_applied(UiCore { model_fetch_active: false, ..*old(self) }, *final(self), m@)
                } else {
                    *final(self) == (UiCore { model_fetch_active: false, model_fetch_pending: false, ..*old(self) })
                },
                ModelFetchOutcome::Failed(e) => fetch_failed_shown(*old(self), *final(self), "thread/models error: "@ + e@, e@),
                ModelFetchOutcome::TaskFailed(e) => fetch_failed_shown(
                    *old(self),
                    *final(self),
                    "thread/models task error: "@ + e@,
                    e@,
                ),
            },
    {
        self.model_fetch_active = false;
        match outcome {
            ModelFetchOutcome::Models(models) => self.finish_models(thread_id, models),
            ModelFetchOutcome::Failed(e) => {
                self.model_fetch_pending = false;
                let mut msg = owned("thread/models error: ");
                push_str(&mut msg, e.as_str());
                self.show_fetch_failure(msg, e.as_str());
            },
            ModelFetchOutcome::TaskFailed(e) => {
                self.model_fetch_pending = false;
                let mut msg = owned("thread/models task error: ");
                push_str(&mut msg, e.as_str());
                self.show_fetch_failure(msg, e.as_str());
            },
        }
    }

    fn show_fetch_failure(&mut self, msg: String, err: &str)
        requires
            old(self).transcript@.len() <= MAX_TRANSCRIPT_ITEMS,
        ensures
            fetch_failed_shown(*old(self), *final(self), msg@, err@),
            final(self).transcript@.len() <= MAX_TRANSCRIPT_ITEMS,
            final(self).model_fetch_active == old(self).model_fetch_active,
            final(self).model_fetch_pending == old(self).model_fetch_pending,
    {
        self.set_status(msg);
        let n = self.overlays.len();
        if n > 0 {
            let title_is_model = match &self.overlays[n - 1] {
                Overlay::CommandPalette(v) => crate::json::str_eq(v.title.as_str(), "model"),
                _ => false,
            };
            if title_is_model {
                let palette = crate::palettes::build_model_error_palette(err);
                let ghost before = self.overlays@;
                let ghost p = palette;
                self.replace_top_command_palette(palette);
                assert(self.overlays@.drop_last() =~= before.drop_last());
                assert(self.overlays@.last() == Overlay::CommandPalette(p));
            }
        }
        let is_model = match &self.inline_palette {
            Some(p) => p.kind == InlinePaletteKind::Model,
            None => false,
        };
        if is_model {
            let view = crate::palettes::build_model_error_palette(err);
            self.inline_palette = Some(InlinePalette { kind: InlinePaletteKind::Model, view });
        }
    }
}

/// A failed fetch is shown: the status (an error), a `model` palette on top
/// and the inline model palette show the error.
pub open spec fn fetch_failed_shown(before: UiCore, after: UiCore, msg: Seq<char>, err: Seq<char>) -> bool {
    &&& shows(before, after, msg)
    &&& if top_is_palette(before.overlays@) && (before.overlays@.last() matches Overlay::CommandPalette(v) && v.title@
        == "model"@) {
        after.overlays@.len() == before.overlays@.len() && after.overlays@.drop_last() == before.overlays@.drop_last()
            && (after.overlays@.last() matches Overlay::CommandPalette(v) && model_error_palette(v, err))
    } else {
        after.overlays == before.overlays
    }
    &&& match before.inline_palette {
        Some(p) => if p.kind == InlinePaletteKind::Model {
            after.inline_palette matches Some(q) && q.kind == InlinePaletteKind::Model && model_error_palette(q.view, err)
        } else {
            after.inline_palette == before.inline_palette
        },
        None => after.inline_palette is None,
    }
}

} // verus!
