//! Running a command chosen in the command palette.  The state changes are
//! made at once; what needs the server (a thread list, a configuration
//! change, a new thread) is handed back as a follow-up for the caller to
//! perform, and its answer is reported with the `finish_*` methods.
use vstd::prelude::*;
use crate::keys::{KeyCode, KeyInput};
use crate::labels::{help_text, tui_help_text};
use crate::palette::{
    approval_policy_label, approval_policy_text, overlay_command_code, overlay_palette_command_key,
    sandbox_network_access_label, sandbox_network_access_text, sandbox_policy_label, sandbox_policy_text,
    CliApprovalPolicy, CliSandboxNetworkAccess, CliSandboxPolicy, CommandPaletteOverlay, PaletteCommand,
};
use crate::palettes::{
    approval_policy_items, build_approval_policy_palette, build_mode_palette, build_model_loading_palette,
    build_root_palette, build_sandbox_network_access_palette, build_sandbox_policy_palette, fresh_palette,
    mode_items, network_items, on_off, plain_spec, root_items, sandbox_policy_items, ItemSpec,
};
use crate::text::{owned, push_str};
use crate::tool_format::{opt_str, opt_string};
use crate::ui_state::{
    any_filter, error_message, local_key_ok, local_key_step, under_palette, Overlay, TextOverlay, UiCore,
    MAX_TRANSCRIPT_ITEMS,
};

verus! {

/// A change to the open thread's configuration.
#[derive(Debug)]
pub enum ConfigChange {
    Mode(String),
    Model(String),
    ApprovalPolicy(CliApprovalPolicy),
    SandboxPolicy(CliSandboxPolicy),
    SandboxNetworkAccess(CliSandboxNetworkAccess),
    AllowedTools(String),
    ClearAllowedTools,
    ClearExecpolicyRules,
}

/// What the caller does after a palette command.
#[derive(Debug)]
pub enum PaletteFollowUp {
    Nothing,
    Quit,
    /// The overlay under the palette did not take the key itself: hand it
    /// to the overlay's handler that talks to the server.
    ForwardKey(KeyInput),
    StartThread,
    ReturnToThreadPicker,
    /// Fetch the thread list again, then call `finish_thread_refresh`.
    RefreshThreads { success_status: String, rebuild_palette: bool },
    OpenApprovals,
    OpenProcesses,
    OpenArtifacts,
    /// Ask for this thread's configuration and show its modes.
    ExplainConfig(u128),
    /// Fetch the model list of this thread.
    FetchModels(u128),
    /// Put this text in the input line and update the inline palette.
    EditInput(String),
    /// Change this thread's configuration, then call `finish_thread_configure`.
    Configure(u128, ConfigChange),
}

/// The status shows `text`; an error text also reaches the transcript.
pub open spec fn shows(before: UiCore, after: UiCore, text: Seq<char>) -> bool {
    &&& after.status matches Some(s) && s@ == text
    &&& after.status_expires_at is None
    &&& after.transcript@.len() <= MAX_TRANSCRIPT_ITEMS
    &&& !error_message(text) ==> after.transcript == before.transcript
}

/// Only the status (and, for an error, the transcript) changed.
pub open spec fn only_status(before: UiCore, after: UiCore, text: Seq<char>) -> bool {
    &&& after == (UiCore {
        status: after.status,
        status_expires_at: after.status_expires_at,
        transcript: after.transcript,
        ..before
    })
    &&& shows(before, after, text)
}

/// The stack with its top removed (an empty stack stays empty).
pub open spec fn popped(s: Seq<Overlay>) -> Seq<Overlay> {
    if s.len() > 0 { s.drop_last() } else { s }
}

/// A fresh palette with these items replaced the palette on top, or was
/// pushed when the top was no palette.
pub open spec fn palette_replaced(before: Seq<Overlay>, after: Seq<Overlay>, title: Seq<char>, items: Seq<ItemSpec>) -> bool {
    &&& after.len() == under_palette(before).len() + 1
    &&& after.drop_last() == under_palette(before)
    &&& after.last() matches Overlay::CommandPalette(p) && fresh_palette(p, title, items)
}

/// The items of the palette shown while models load.
pub open spec fn model_loading_items() -> Seq<ItemSpec> {
    seq![
        plain_spec("loading models..."@, PaletteCommand::Noop),
        plain_spec("type model and press enter"@, PaletteCommand::Noop),
    ]
}

/// Only the overlays changed.
pub open spec fn only_overlays(before: UiCore, after: UiCore) -> bool {
    after == (UiCore { overlays: after.overlays, ..before })
}

/// The status line a successful thread-list refresh shows after a filter
/// was switched.
pub open spec fn filter_status(name: Seq<char>, on: bool) -> Seq<char> {
    "thread filter: "@ + name + "="@ + on_off(on)
}

/// The follow-up asks for a thread-list refresh that reports `text`.
pub open spec fn refresh_with(f: PaletteFollowUp, text: Seq<char>, rebuild: bool) -> bool {
    f matches PaletteFollowUp::RefreshThreads { success_status, rebuild_palette } && success_status@ == text
        && rebuild_palette == rebuild
}

/// A command that needs the open thread; without one it only says so.
pub open spec fn needs_thread(
    before: UiCore,
    after: UiCore,
    f: PaletteFollowUp,
    then: spec_fn(u128) -> bool,
) -> bool {
    match before.active_thread {
        None => f is Nothing && only_status(before, after, "no active thread"@),
        Some(id) => then(id),
    }
}

/// The effect of running `command` on the state, and the follow-up.
pub open spec fn palette_command_step(before: UiCore, after: UiCore, command: PaletteCommand, f: PaletteFollowUp) -> bool {
    match overlay_command_code(command) {
        Some(code) => {
            ||| local_key_step(before, after, code, true) && f is Nothing
            ||| local_key_step(before, after, code, false) && f == PaletteFollowUp::ForwardKey(
                KeyInput { code, ctrl: false },
            )
        },
        None => match command {
            PaletteCommand::Quit => after == before && f is Quit,
            PaletteCommand::ClosePalette => f is Nothing && only_overlays(before, after) && after.overlays@
                == under_palette(before.overlays@),
            PaletteCommand::OpenRoot => f is Nothing && only_overlays(before, after) && palette_replaced(
                before.overlays@,
                after.overlays@,
                "commands"@,
                root_items(before.root_state_spec()),
            ),
            PaletteCommand::Help => f is Nothing && only_overlays(before, after) && after.overlays@ == popped(
                before.overlays@,
            ).push(after.overlays@.last()) && (after.overlays@.last() matches Overlay::Text(t) && t.title@
                == "Help"@ && t.text@ == help_text() && t.scroll == 0),
            PaletteCommand::NewThread => after == before && f is StartThread,
            PaletteCommand::ThreadPicker => after == before && f is ReturnToThreadPicker,
            PaletteCommand::RefreshThreads => after == before && refresh_with(f, "refreshed"@, false),
            PaletteCommand::ToggleIncludeArchived => after == (UiCore {
                include_archived: !before.include_archived,
                ..before
            }) && refresh_with(f, "thread list: include_archived="@ + on_off(after.include_archived), true),
            PaletteCommand::ToggleLinkageFilter => after == (UiCore {
                only_fan_out_linkage_issue: !before.only_fan_out_linkage_issue,
                ..before
            }) && refresh_with(
                f,
                filter_status("fan_out_linkage_issue"@, after.only_fan_out_linkage_issue),
                true,
            ),
            PaletteCommand::ToggleAutoApplyErrorFilter => after == (UiCore {
                only_fan_out_auto_apply_error: !before.only_fan_out_auto_apply_error,
                ..before
            }) && refresh_with(
                f,
                filter_status("fan_out_auto_apply_error"@, after.only_fan_out_auto_apply_error),
                true,
            ),
            PaletteCommand::ToggleFanInDependencyBlockedFilter => after == (UiCore {
                only_fan_in_dependency_blocked: !before.only_fan_in_dependency_blocked,
                ..before
            }) && refresh_with(
                f,
                filter_status("fan_in_dependency_blocked"@, after.only_fan_in_dependency_blocked),
                true,
            ),
            PaletteCommand::ToggleSubagentProxyApprovalFilter => after == (UiCore {
                only_subagent_proxy_approval: !before.only_subagent_proxy_approval,
                ..before
            }) && refresh_with(
                f,
                filter_status("subagent_proxy_approval"@, after.only_subagent_proxy_approval),
                true,
            ),
            PaletteCommand::ClearThreadFilters => after == (UiCore {
                only_fan_out_linkage_issue: false,
                only_fan_out_auto_apply_error: false,
                only_fan_in_dependency_blocked: false,
                only_subagent_proxy_approval: false,
                ..before
            }) && refresh_with(
                f,
                if any_filter(before) { "thread filters cleared"@ } else { "thread filters already clear"@ },
                true,
            ),
            PaletteCommand::OpenApprovals => f is OpenApprovals && only_overlays(before, after) && after.overlays@
                == popped(before.overlays@),
            PaletteCommand::OpenProcesses => f is OpenProcesses && only_overlays(before, after) && after.overlays@
                == popped(before.overlays@),
            PaletteCommand::OpenArtifacts => f is OpenArtifacts && only_overlays(before, after) && after.overlays@
                == popped(before.overlays@),
            PaletteCommand::PickMode => needs_thread(
                before,
                after,
                f,
                |id: u128| after == before && f == PaletteFollowUp::ExplainConfig(id),
            ),
            PaletteCommand::PickModel => needs_thread(
                before,
                after,
                f,
                |id: u128|
                    if before.model_fetch_active {
                        f is Nothing && only_status(before, after, "model list already loading"@)
                    } else {
                        &&& f == PaletteFollowUp::FetchModels(id)
                        &&& after == (UiCore {
                            overlays: after.overlays,
                            status: after.status,
                            status_expires_at: after.status_expires_at,
                            transcript: after.transcript,
                            model_fetch_active: true,
                            model_fetch_pending: true,
                            ..before
                        })
                        &&& palette_replaced(
                            before.overlays@,
                            after.overlays@,
                            "model"@,
                            model_loading_items(),
                        )
                        &&& shows(before, after, "loading models..."@)
                    },
            ),
            PaletteCommand::PickApprovalPolicy => f is Nothing && only_overlays(before, after) && palette_replaced(
                before.overlays@,
                after.overlays@,
                "approval-policy"@,
                seq![plain_spec("back"@, PaletteCommand::OpenRoot)] + approval_policy_items(),
            ),
            PaletteCommand::PickSandboxPolicy => f is Nothing && only_overlays(before, after) && palette_replaced(
                before.overlays@,
                after.overlays@,
                "sandbox-policy"@,
                seq![plain_spec("back"@, PaletteCommand::OpenRoot)] + sandbox_policy_items(),
            ),
            PaletteCommand::PickSandboxNetworkAccess => f is Nothing && only_overlays(before, after)
                && palette_replaced(
                before.overlays@,
                after.overlays@,
                "sandbox-network"@,
                seq![plain_spec("back"@, PaletteCommand::OpenRoot)] + network_items(),
            ),
            PaletteCommand::PickAllowedTools => only_overlays(before, after) && after.overlays@ == popped(
                before.overlays@,
            ) && (f matches PaletteFollowUp::EditInput(t) && t@ == "/allowed-tools "@),
            PaletteCommand::PickExecpolicyRules => only_overlays(before, after) && after.overlays@ == popped(
                before.overlays@,
            ) && (f matches PaletteFollowUp::EditInput(t) && t@ == "/execpolicy-rules "@),
            PaletteCommand::SetMode(m) => configure_step(before, after, f, ConfigChange::Mode(m)),
            PaletteCommand::SetModel(m) => configure_step(before, after, f, ConfigChange::Model(m)),
            PaletteCommand::SetApprovalPolicy(v) => configure_step(before, after, f, ConfigChange::ApprovalPolicy(v)),
            PaletteCommand::SetSandboxPolicy(v) => configure_step(before, after, f, ConfigChange::SandboxPolicy(v)),
            PaletteCommand::SetSandboxNetworkAccess(v) => configure_step(
                before,
                after,
                f,
                ConfigChange::SandboxNetworkAccess(v),
            ),
            PaletteCommand::SetAllowedTools(t) => configure_step(before, after, f, ConfigChange::AllowedTools(t)),
            PaletteCommand::ClearAllowedTools => configure_step(before, after, f, ConfigChange::ClearAllowedTools),
            PaletteCommand::ClearExecpolicyRules => configure_step(
                before,
                after,
                f,
                ConfigChange::ClearExecpolicyRules,
            ),
            _ => after == before && f is Nothing,
        },
    }
}

/// A configuration command: with the open thread, the palette is closed
/// and the change is handed on.
pub open spec fn configure_step(before: UiCore, after: UiCore, f: PaletteFollowUp, change: ConfigChange) -> bool {
    needs_thread(
        before,
        after,
        f,
        |id: u128|
            only_overlays(before, after) && after.overlays@ == popped(before.overlays@) && f
                == PaletteFollowUp::Configure(id, change),
    )
}

/// The commands that fetch the thread list again.
pub open spec fn is_thread_list_command(c: PaletteCommand) -> bool {
    ||| c is RefreshThreads
    ||| c is ToggleIncludeArchived
    ||| c is ToggleLinkageFilter
    ||| c is ToggleAutoApplyErrorFilter
    ||| c is ToggleFanInDependencyBlockedFilter
    ||| c is ToggleSubagentProxyApprovalFilter
    ||| c is ClearThreadFilters
}

/// The commands that need the open thread.
pub open spec fn is_thread_command(c: PaletteCommand) -> bool {
    ||| c is PickMode
    ||| c is PickModel
    ||| c is SetMode
    ||| c is SetModel
    ||| c is SetApprovalPolicy
    ||| c is SetSandboxPolicy
    ||| c is SetSandboxNetworkAccess
    ||| c is SetAllowedTools
    ||| c is ClearAllowedTools
    ||| c is ClearExecpolicyRules
}

fn is_thread_list_command_exec(c: &PaletteCommand) -> (r: bool)
    ensures
        r == is_thread_list_command(*c),
{
    match c {
        PaletteCommand::RefreshThreads | PaletteCommand::ToggleIncludeArchived
        | PaletteCommand::ToggleLinkageFilter | PaletteCommand::ToggleAutoApplyErrorFilter
        | PaletteCommand::ToggleFanInDependencyBlockedFilter
        | PaletteCommand::ToggleSubagentProxyApprovalFilter | PaletteCommand::ClearThreadFilters => true,
        _ => false,
    }
}

fn is_thread_command_exec(c: &PaletteCommand) -> (r: bool)
    ensures
        r == is_thread_command(*c),
{
    match c {
        PaletteCommand::PickMode | PaletteCommand::PickModel | PaletteCommand::SetMode(_)
        | PaletteCommand::SetModel(_) | PaletteCommand::SetApprovalPolicy(_)
        | PaletteCommand::SetSandboxPolicy(_) | PaletteCommand::SetSandboxNetworkAccess(_)
        | PaletteCommand::SetAllowedTools(_) | PaletteCommand::ClearAllowedTools
        | PaletteCommand::ClearExecpolicyRules => true,
        _ => false,
    }
}

impl UiCore {
    /// Replaces the palette on top (or pushes one) and says so in terms of
    /// `palette_replaced`.
    fn show_palette(&mut self, palette: CommandPaletteOverlay, Ghost(title): Ghost<Seq<char>>, Ghost(items): Ghost<Seq<ItemSpec>>)
        requires
            fresh_palette(palette, title, items),
        ensures
            palette_replaced(old(self).overlays@, final(self).overlays@, title, items),
            only_overlays(*old(self), *final(self)),
    {
        let ghost before = self.overlays@;
        let ghost p = palette;
        self.replace_top_command_palette(palette);
        assert(self.overlays@.drop_last() =~= under_palette(before));
        assert(self.overlays@.last() == Overlay::CommandPalette(p));
    }
}

impl UiCore {
    fn pop_overlay(&mut self)
        ensures
            final(self).overlays@ == popped(old(self).overlays@),
            only_overlays(*old(self), *final(self)),
    {
        self.overlays.pop();
    }

    /// Says that a command needs the open thread.
    fn no_active_thread(&mut self)
        requires
            old(self).transcript@.len() <= MAX_TRANSCRIPT_ITEMS,
        ensures
            only_status(*old(self), *final(self), "no active thread"@),
    {
        proof {
            reveal_strlit("no active thread");
        }
        self.set_status(owned("no active thread"));
    }

    /// Runs a command chosen in a palette: overlay commands go to the
    /// overlay under the palette, the others change the state and say what
    /// the caller does next.
    pub fn begin_palette_command(&mut self, command: PaletteCommand) -> (f: PaletteFollowUp)
        requires
            old(self).transcript@.len() <= MAX_TRANSCRIPT_ITEMS,
            local_key_ok(under_palette(old(self).overlays@)),
        ensures
            palette_command_step(*old(self), *final(self), command, f),
            final(self).transcript@.len() <= MAX_TRANSCRIPT_ITEMS,
    {
        match overlay_palette_command_key(&command) {
            Some(key) => {
                if self.apply_overlay_palette_local_key(key) {
                    return PaletteFollowUp::Nothing;
                }
                return PaletteFollowUp::ForwardKey(key);
            },
            None => {},
        }
        if is_thread_list_command_exec(&command) {
            self.begin_thread_list_command(command)
        } else if is_thread_command_exec(&command) {
            self.begin_thread_command(command)
        } else {
            self.begin_view_command(command)
        }
    }

    /// The commands that fetch the thread list again.
    fn begin_thread_list_command(&mut self, command: PaletteCommand) -> (f: PaletteFollowUp)
        requires
            overlay_command_code(command) is None,
            is_thread_list_command(command),
        ensures
            palette_command_step(*old(self), *final(self), command, f),
            final(self).transcript == old(self).transcript,
    {
        match command {
            PaletteCommand::ToggleIncludeArchived => {
                self.include_archived = !self.include_archived;
                let mut s = owned("thread list: include_archived=");
                push_str(&mut s, if self.include_archived { "on" } else { "off" });
                PaletteFollowUp::RefreshThreads { success_status: s, rebuild_palette: true }
            },
            PaletteCommand::ToggleLinkageFilter => {
                self.only_fan_out_linkage_issue = !self.only_fan_out_linkage_issue;
                let s = filter_status_text("fan_out_linkage_issue", self.only_fan_out_linkage_issue);
                PaletteFollowUp::RefreshThreads { success_status: s, rebuild_palette: true }
            },
            PaletteCommand::ToggleAutoApplyErrorFilter => {
                self.only_fan_out_auto_apply_error = !self.only_fan_out_auto_apply_error;
                let s = filter_status_text("fan_out_auto_apply_error", self.only_fan_out_auto_apply_error);
                PaletteFollowUp::RefreshThreads { success_status: s, rebuild_palette: true }
            },
            PaletteCommand::ToggleFanInDependencyBlockedFilter => {
                self.only_fan_in_dependency_blocked = !self.only_fan_in_dependency_blocked;
                let s = filter_status_text("fan_in_dependency_blocked", self.only_fan_in_dependency_blocked);
                PaletteFollowUp::RefreshThreads { success_status: s, rebuild_palette: true }
            },
            PaletteCommand::ToggleSubagentProxyApprovalFilter => {
                self.only_subagent_proxy_approval = !self.only_subagent_proxy_approval;
                let s = filter_status_text("subagent_proxy_approval", self.only_subagent_proxy_approval);
                PaletteFollowUp::RefreshThreads { success_status: s, rebuild_palette: true }
            },
            PaletteCommand::ClearThreadFilters => {
                let changed = self.clear_thread_picker_filters();
                let s = if changed {
                    owned("thread filters cleared")
                } else {
                    owned("thread filters already clear")
                };
                PaletteFollowUp::RefreshThreads { success_status: s, rebuild_palette: true }
            },
            _ => PaletteFollowUp::RefreshThreads { success_status: owned("refreshed"), rebuild_palette: false },
        }
    }

    /// The commands that need the open thread.
    fn begin_thread_command(&mut self, command: PaletteCommand) -> (f: PaletteFollowUp)
        requires
            old(self).transcript@.len() <= MAX_TRANSCRIPT_ITEMS,
            overlay_command_code(command) is None,
            is_thread_command(command),
        ensures
            palette_command_step(*old(self), *final(self), command, f),
            final(self).transcript@.len() <= MAX_TRANSCRIPT_ITEMS,
    {
        match command {
            PaletteCommand::PickMode => match self.active_thread {
                Some(id) => PaletteFollowUp::ExplainConfig(id),
                None => {
                    self.no_active_thread();
                    PaletteFollowUp::Nothing
                },
            },
            PaletteCommand::PickModel => match self.active_thread {
                Some(id) => {
                    if self.model_fetch_active {
                        proof {
                            reveal_strlit("model list already loading");
                        }
                        self.set_status(owned("model list already loading"));
                        PaletteFollowUp::Nothing
                    } else {
                        self.model_fetch_active = true;
                        self.model_fetch_pending = true;
                        self.show_palette(
                            build_model_loading_palette(),
                            Ghost("model"@),
                            Ghost(model_loading_items()),
                        );
                        proof {
                            reveal_strlit("loading models...");
                        }
                        self.set_status(owned("loading models..."));
                        PaletteFollowUp::FetchModels(id)
                    }
                },
                None => {
                    self.no_active_thread();
                    PaletteFollowUp::Nothing
                },
            },
            PaletteCommand::SetMode(m) => self.begin_configure(ConfigChange::Mode(m)),
            PaletteCommand::SetModel(m) => self.begin_configure(ConfigChange::Model(m)),
            PaletteCommand::SetApprovalPolicy(v) => self.begin_configure(ConfigChange::ApprovalPolicy(v)),
            PaletteCommand::SetSandboxPolicy(v) => self.begin_configure(ConfigChange::SandboxPolicy(v)),
            PaletteCommand::SetSandboxNetworkAccess(v) => self.begin_configure(
                ConfigChange::SandboxNetworkAccess(v),
            ),
            PaletteCommand::SetAllowedTools(t) => self.begin_configure(ConfigChange::AllowedTools(t)),
            PaletteCommand::ClearAllowedTools => self.begin_configure(ConfigChange::ClearAllowedTools),
            _ => self.begin_configure(ConfigChange::ClearExecpolicyRules),
        }
    }

    /// The commands that change what is shown.
    fn begin_view_command(&mut self, command: PaletteCommand) -> (f: PaletteFollowUp)
        requires
            overlay_command_code(command) is None,
            !is_thread_list_command(command),
            !is_thread_command(command),
        ensures
            palette_command_step(*old(self), *final(self), command, f),
            final(self).transcript == old(self).transcript,
    {
        match command {
            PaletteCommand::Quit => PaletteFollowUp::Quit,
            PaletteCommand::ClosePalette => {
                let ghost before = self.overlays@;
                let n = self.overlays.len();
                if n > 0 {
                    if let Overlay::CommandPalette(_) = &self.overlays[n - 1] {
                        self.overlays.pop();
                    }
                }
                assert(self.overlays@ =~= under_palette(before));
                PaletteFollowUp::Nothing
            },
            PaletteCommand::OpenRoot => {
                let state = self.root_palette_state();
                self.show_palette(
                    build_root_palette(&state),
                    Ghost("commands"@),
                    Ghost(root_items(old(self).root_state_spec())),
                );
                PaletteFollowUp::Nothing
            },
            PaletteCommand::Help => {
                self.pop_overlay();
                let text = tui_help_text();
                self.overlays.push(Overlay::Text(TextOverlay { title: owned("Help"), text, scroll: 0 }));
                PaletteFollowUp::Nothing
            },
            PaletteCommand::NewThread => PaletteFollowUp::StartThread,
            PaletteCommand::ThreadPicker => PaletteFollowUp::ReturnToThreadPicker,
            PaletteCommand::OpenApprovals => {
                self.pop_overlay();
                PaletteFollowUp::OpenApprovals
            },
            PaletteCommand::OpenProcesses => {
                self.pop_overlay();
                PaletteFollowUp::OpenProcesses
            },
            PaletteCommand::OpenArtifacts => {
                self.pop_overlay();
                PaletteFollowUp::OpenArtifacts
            },
            PaletteCommand::PickApprovalPolicy => {
                self.show_palette(
                    build_approval_policy_palette(),
                    Ghost("approval-policy"@),
                    Ghost(seq![plain_spec("back"@, PaletteCommand::OpenRoot)] + approval_policy_items()),
                );
                PaletteFollowUp::Nothing
            },
            PaletteCommand::PickSandboxPolicy => {
                self.show_palette(
                    build_sandbox_policy_palette(),
                    Ghost("sandbox-policy"@),
                    Ghost(seq![plain_spec("back"@, PaletteCommand::OpenRoot)] + sandbox_policy_items()),
                );
                PaletteFollowUp::Nothing
            },
            PaletteCommand::PickSandboxNetworkAccess => {
                self.show_palette(
                    build_sandbox_network_access_palette(),
                    Ghost("sandbox-network"@),
                    Ghost(seq![plain_spec("back"@, PaletteCommand::OpenRoot)] + network_items()),
                );
                PaletteFollowUp::Nothing
            },
            PaletteCommand::PickAllowedTools => {
                self.pop_overlay();
                PaletteFollowUp::EditInput(owned("/allowed-tools "))
            },
            PaletteCommand::PickExecpolicyRules => {
                self.pop_overlay();
                PaletteFollowUp::EditInput(owned("/execpolicy-rules "))
            },
            _ => PaletteFollowUp::Nothing,
        }
    }

    fn begin_configure(&mut self, change: ConfigChange) -> (f: PaletteFollowUp)
        requires
            old(self).transcript@.len() <= MAX_TRANSCRIPT_ITEMS,
        ensures
            configure_step(*old(self), *final(self), f, change),
            final(self).transcript@.len() <= MAX_TRANSCRIPT_ITEMS,
    {
        match self.active_thread {
            Some(id) => {
                self.pop_overlay();
                PaletteFollowUp::Configure(id, change)
            },
            None => {
                self.no_active_thread();
                PaletteFollowUp::Nothing
            },
        }
    }
}

/// `thread filter: <name>=on|off`.
fn filter_status_text(name: &str, on: bool) -> (r: String)
    ensures
        r@ == filter_status(name@, on),
{
    let mut s = owned("thread filter: ");
    push_str(&mut s, name);
    push_str(&mut s, "=");
    push_str(&mut s, if on { "on" } else { "off" });
    s
}

/// The status prefix when a configuration change fails.
pub open spec fn config_error_prefix(change: ConfigChange) -> Seq<char> {
    match change {
        ConfigChange::Mode(_) => "set mode error: "@,
        ConfigChange::Model(_) => "set model error: "@,
        ConfigChange::ApprovalPolicy(_) => "set approval_policy error: "@,
        ConfigChange::SandboxPolicy(_) => "set sandbox_policy error: "@,
        ConfigChange::SandboxNetworkAccess(_) => "set sandbox_network_access error: "@,
        ConfigChange::AllowedTools(_) => "set allowed_tools error: "@,
        ConfigChange::ClearAllowedTools => "clear allowed_tools error: "@,
        ConfigChange::ClearExecpolicyRules => "clear execpolicy_rules error: "@,
    }
}

/// The status when a configuration change was made.
pub open spec fn config_done_text(change: ConfigChange) -> Seq<char> {
    match change {
        ConfigChange::Mode(m) => "mode="@ + m@,
        ConfigChange::Model(m) => "model="@ + m@,
        ConfigChange::ApprovalPolicy(v) => "approval_policy="@ + approval_policy_text(v),
        ConfigChange::SandboxPolicy(v) => "sandbox_policy="@ + sandbox_policy_text(v),
        ConfigChange::SandboxNetworkAccess(v) => "sandbox_network_access="@ + sandbox_network_access_text(v),
        ConfigChange::AllowedTools(t) => "allowed_tools=["@ + t@ + "]"@,
        ConfigChange::ClearAllowedTools => "allowed_tools=<cleared>"@,
        ConfigChange::ClearExecpolicyRules => "execpolicy_rules=<cleared>"@,
    }
}

/// A change of the allowed tools or rules makes the header stale.
pub open spec fn marks_header_stale(change: ConfigChange) -> bool {
    change is AllowedTools || change is ClearAllowedTools || change is ClearExecpolicyRules
}

fn config_error_text(change: &ConfigChange, err: &str) -> (r: String)
    ensures
        r@ == config_error_prefix(*change) + err@,
{
    let mut s = owned(match change {
        ConfigChange::Mode(_) => "set mode error: ",
        ConfigChange::Model(_) => "set model error: ",
        ConfigChange::ApprovalPolicy(_) => "set approval_policy error: ",
        ConfigChange::SandboxPolicy(_) => "set sandbox_policy error: ",
        ConfigChange::SandboxNetworkAccess(_) => "set sandbox_network_access error: ",
        ConfigChange::AllowedTools(_) => "set allowed_tools error: ",
        ConfigChange::ClearAllowedTools => "clear allowed_tools error: ",
        ConfigChange::ClearExecpolicyRules => "clear execpolicy_rules error: ",
    });
    push_str(&mut s, err);
    s
}

fn config_done_string(change: &ConfigChange) -> (r: String)
    ensures
        r@ == config_done_text(*change),
{
    match change {
        ConfigChange::Mode(m) => {
            let mut s = owned("mode=");
            push_str(&mut s, m.as_str());
            s
        },
        ConfigChange::Model(m) => {
            let mut s = owned("model=");
            push_str(&mut s, m.as_str());
            s
        },
        ConfigChange::ApprovalPolicy(v) => {
            let mut s = owned("approval_policy=");
            push_str(&mut s, approval_policy_label(*v));
            s
        },
        ConfigChange::SandboxPolicy(v) => {
            let mut s = owned("sandbox_policy=");
            push_str(&mut s, sandbox_policy_label(*v));
            s
        },
        ConfigChange::SandboxNetworkAccess(v) => {
            let mut s = owned("sandbox_network_access=");
            push_str(&mut s, sandbox_network_access_label(*v));
            s
        },
        ConfigChange::AllowedTools(t) => {
            let mut s = owned("allowed_tools=[");
            push_str(&mut s, t.as_str());
            push_str(&mut s, "]");
            s
        },
        ConfigChange::ClearAllowedTools => owned("allowed_tools=<cleared>"),
        ConfigChange::ClearExecpolicyRules => owned("execpolicy_rules=<cleared>"),
    }
}

/// The text of a server answer: the error when there is one.
pub open spec fn answer_text(error: Option<String>, prefix: Seq<char>, success: Seq<char>) -> Seq<char> {
    match error {
        Some(e) => prefix + e@,
        None => success,
    }
}

impl UiCore {
    /// Reports a failed step: `<what> error: <err>`.
    pub fn report_step_error(&mut self, what: &str, err: &str)
        requires
            old(self).transcript@.len() <= MAX_TRANSCRIPT_ITEMS,
        ensures
            only_status(*old(self), *final(self), what@ + " error: "@ + err@),
    {
        let mut s = owned(what);
        push_str(&mut s, " error: ");
        push_str(&mut s, err);
        self.set_status(s);
    }

    /// Reports the thread-list refresh a palette command asked for, and
    /// shows the root palette again when it asked for that.
    #[verifier::rlimit(60)]
    #[verifier::spinoff_prover]
    pub fn finish_thread_refresh(&mut self, success_status: String, rebuild_palette: bool, error: Option<String>)
        requires
            old(self).transcript@.len() <= MAX_TRANSCRIPT_ITEMS,
        ensures
            ({
                let text = answer_text(error, "refresh error: "@, success_status@);
                &&& shows(*old(self), *final(self), text)
                &&& *final(self) == (UiCore {
                    overlays: final(self).overlays,
                    status: final(self).status,
                    status_expires_at: final(self).status_expires_at,
                    transcript: final(self).transcript,
                    ..*old(self)
                })
                &&& if rebuild_palette {
                    palette_replaced(
                        old(self).overlays@,
                        final(self).overlays@,
                        "commands"@,
                        root_items(old(self).root_state_spec()),
                    )
                } else {
                    final(self).overlays == old(self).overlays
                }
            }),
    {
        let ghost s0 = *self;
        match error {
            Some(e) => {
                proof {
                    reveal_strlit("refresh");
                    reveal_strlit(" error: ");
                    reveal_strlit("refresh error: ");
                    assert("refresh"@ + " error: "@ =~= "refresh error: "@);
                    assert("refresh"@ + " error: "@ + e@ =~= "refresh error: "@ + e@);
                }
                self.report_step_error("refresh", e.as_str());
            },
            None => self.set_status(success_status),
        }
        if rebuild_palette {
            let state = self.root_palette_state();
            self.show_palette(build_root_palette(&state), Ghost("commands"@), Ghost(root_items(s0.root_state_spec())));
        }
    }

    /// Reports the configuration change a palette command asked for; says
    /// whether the header is to be fetched again now (a new mode or model).
    pub fn finish_thread_configure(&mut self, change: &ConfigChange, error: Option<String>) -> (refresh_header: bool)
        requires
            old(self).transcript@.len() <= MAX_TRANSCRIPT_ITEMS,
        ensures
            shows(*old(self), *final(self), answer_text(error, config_error_prefix(*change), config_done_text(*change))),
            *final(self) == (UiCore {
                status: final(self).status,
                status_expires_at: final(self).status_expires_at,
                transcript: final(self).transcript,
                header_needs_refresh: final(self).header_needs_refresh,
                ..*old(self)
            }),
            final(self).header_needs_refresh == (old(self).header_needs_refresh || (error is None
                && marks_header_stale(*change))),
            refresh_header == (error is None && (change is Mode || change is Model)),
    {
        match error {
            Some(e) => {
                let s = config_error_text(change, e.as_str());
                self.set_status(s);
                false
            },
            None => {
                let s = config_done_string(change);
                self.set_status(s);
                match change {
                    ConfigChange::Mode(_) | ConfigChange::Model(_) => true,
                    ConfigChange::AllowedTools(_) | ConfigChange::ClearAllowedTools
                    | ConfigChange::ClearExecpolicyRules => {
                        self.header_needs_refresh = true;
                        false
                    },
                    _ => false,
                }
            },
        }
    }

    /// Shows the open thread's modes in the palette (the current one marked).
    pub fn show_mode_palette(&mut self, modes: Vec<String>)
        ensures
            only_overlays(*old(self), *final(self)),
            palette_replaced(
                old(self).overlays@,
                final(self).overlays@,
                "mode"@,
                seq![plain_spec("back"@, PaletteCommand::OpenRoot)] + mode_items(
                    modes@,
                    opt_string(old(self).header.mode),
                ),
            ),
    {
        let current: Option<&str> = match &self.header.mode {
            Some(m) => Some(m.as_str()),
            None => None,
        };
        let ghost cur = opt_str(current);
        let ghost m = modes@;
        let palette = build_mode_palette(modes, current);
        self.show_palette(
            palette,
            Ghost("mode"@),
            Ghost(seq![plain_spec("back"@, PaletteCommand::OpenRoot)] + mode_items(m, cur)),
        );
    }
}

} // verus!
