//! Running an action again once its approval was given: the caller takes
//! the pending action, asks the server for it, and hands the answer back.
//! The answer may ask for another approval, report a denial, or be shown.
use vstd::prelude::*;
use crate::artifacts::{apply_versions_spec, apply_versions_to_artifacts_overlay, ArtifactVersions, ArtifactsModel, ArtifactsOverlay, select_artifact, sync_spec, sync_versions_for_selected_artifact, artifact_index_or_zero};
use crate::ids::{push_uuid, uuid_text};
use crate::overlay_actions::{ActionOutcome, ArtifactList};
use crate::palette_exec::shows;
use crate::pending::PendingAction;
use crate::processes::{same_process, build_process_inspect_text, inspect_text, select_process, ProcessInfo, ProcessInspectResponse, ProcessesOverlay};
use crate::text::{dec, owned, push_dec, push_str};
use crate::ui_state::{Overlay, TextOverlay, UiCore, MAX_TRANSCRIPT_ITEMS};

verus! {

/// What the server answered for a pending action, once it ran.
#[derive(Debug)]
pub enum PendingAnswer {
    Inspected(ProcessInspectResponse),
    /// A kill or an interrupt was accepted.
    Signalled,
    Listed(ArtifactList),
    /// An artifact was read; its text as shown.
    Read { artifact_id: u128, text: String },
    Versions(ArtifactVersions),
}

/// What the caller does next.
#[derive(Debug)]
pub enum PendingFollowUp {
    Nothing,
    /// Load this thread's processes and call `refresh_processes_overlay`.
    RefreshProcesses(u128),
}

/// The name a pending action's request goes by.
pub open spec fn action_name(a: PendingAction) -> Seq<char> {
    match a {
        PendingAction::ArtifactList { .. } => "artifact/list"@,
        PendingAction::ArtifactVersions { .. } => "artifact/versions"@,
        PendingAction::ArtifactRead { .. } => "artifact/read"@,
        PendingAction::ProcessInspect { .. } => "process/inspect"@,
        PendingAction::ProcessKill { .. } => "process/kill"@,
        PendingAction::ProcessInterrupt { .. } => "process/interrupt"@,
    }
}

/// The same action, waiting for another approval.
pub open spec fn repended(a: PendingAction, thread_id: u128, approval_id: u128) -> PendingAction {
    match a {
        PendingAction::ArtifactList { .. } => PendingAction::ArtifactList { thread_id, approval_id },
        PendingAction::ArtifactVersions { artifact_id, .. } => PendingAction::ArtifactVersions {
            thread_id,
            artifact_id,
            approval_id,
        },
        PendingAction::ArtifactRead { artifact_id, max_bytes, version, .. } => PendingAction::ArtifactRead {
            thread_id,
            artifact_id,
            max_bytes,
            version,
            approval_id,
        },
        PendingAction::ProcessInspect { process_id, max_lines, .. } => PendingAction::ProcessInspect {
            thread_id,
            process_id,
            max_lines,
            approval_id,
        },
        PendingAction::ProcessKill { process_id, .. } => PendingAction::ProcessKill { thread_id, process_id, approval_id },
        PendingAction::ProcessInterrupt { process_id, .. } => PendingAction::ProcessInterrupt {
            thread_id,
            process_id,
            approval_id,
        },
    }
}

/// The answer is of the kind the action asks for.
pub open spec fn answer_fits(a: PendingAction, answer: PendingAnswer) -> bool {
    match a {
        PendingAction::ArtifactList { .. } => answer is Listed,
        PendingAction::ArtifactVersions { .. } => answer is Versions,
        PendingAction::ArtifactRead { .. } => answer is Read,
        PendingAction::ProcessInspect { .. } => answer is Inspected,
        PendingAction::ProcessKill { .. } => answer is Signalled,
        PendingAction::ProcessInterrupt { .. } => answer is Signalled,
    }
}

/// Only the overlays, the status (and, for an error, the transcript) and
/// the pending action changed.
pub open spec fn pending_frame(before: UiCore, after: UiCore) -> bool {
    after == (UiCore {
        overlays: after.overlays,
        status: after.status,
        status_expires_at: after.status_expires_at,
        transcript: after.transcript,
        pending_action: after.pending_action,
        ..before
    })
}

/// A text overlay with this title and text was pushed.
pub open spec fn text_pushed(before: UiCore, after: UiCore, title: Seq<char>, text: Seq<char>) -> bool {
    &&& after.overlays@.len() == before.overlays@.len() + 1
    &&& after.overlays@.drop_last() == before.overlays@
    &&& after.overlays@.last() matches Overlay::Text(t) && t.title@ == title && t.text@ == text && t.scroll == 0
}

/// A processes overlay of `thread_id` after a reload: the new list, the
/// selection kept on the process selected before (the first one otherwise).
pub open spec fn processes_reloaded(before: ProcessesOverlay, after: ProcessesOverlay, processes: Seq<ProcessInfo>) -> bool {
    let current: Option<u128> = if before.selected < before.processes.len() {
        Some(before.processes@[before.selected as int].process_id)
    } else {
        None
    };
    &&& after.thread_id == before.thread_id
    &&& after.processes@.len() == processes.len()
    &&& forall|i: int| 0 <= i < processes.len() ==> same_process(#[trigger] after.processes@[i], processes[i])
    &&& match current {
        None => after.selected == 0,
        Some(id) => if exists|i: int| 0 <= i < processes.len() && processes[i].process_id == id {
            after.selected < processes.len() && processes[after.selected as int].process_id == id && forall|j: int|
                0 <= j < after.selected ==> processes[j].process_id != id
        } else {
            after.selected == 0
        },
    }
}

/// Each processes overlay of `thread_id` in the stack was reloaded; the
/// other layers are unchanged.
pub open spec fn processes_refreshed(before: Seq<Overlay>, after: Seq<Overlay>, thread_id: u128, processes: Seq<ProcessInfo>) -> bool {
    &&& after.len() == before.len()
    &&& forall|i: int|
        0 <= i < before.len() ==> match #[trigger] before[i] {
            Overlay::Processes(v) => if v.thread_id == thread_id {
                after[i] matches Overlay::Processes(w) && processes_reloaded(v, w, processes)
            } else {
                after[i] == before[i]
            },
            _ => after[i] == before[i],
        }
}

/// An artifacts overlay after a list refresh: the new list, the selection
/// kept on the artifact selected before, the versions synchronised.
pub open spec fn artifacts_relisted(m: ArtifactsModel, items: Seq<crate::artifacts::ArtifactMetadata>) -> ArtifactsModel {
    let current: Option<u128> = if m.selected < m.artifacts.len() {
        Some(m.artifacts[m.selected as int].artifact_id)
    } else {
        None
    };
    sync_spec(
        ArtifactsModel {
            artifacts: items,
            selected: match current {
                Some(id) => artifact_index_or_zero(items, id),
                None => 0,
            },
            ..m
        },
    )
}

/// The layer is an artifacts overlay of `thread_id`.
pub open spec fn artifacts_of(o: Overlay, thread_id: u128) -> bool {
    o matches Overlay::Artifacts(v) && v.thread_id == thread_id
}

/// Each artifacts overlay of `thread_id` takes the new list; with none in
/// the stack, a fresh one is pushed.
pub open spec fn artifacts_refreshed(
    before: Seq<Overlay>,
    after: Seq<Overlay>,
    thread_id: u128,
    items: Seq<crate::artifacts::ArtifactMetadata>,
) -> bool {
    if exists|i: int| 0 <= i < before.len() && artifacts_of(#[trigger] before[i], thread_id) {
        &&& after.len() == before.len()
        &&& forall|i: int|
            0 <= i < before.len() ==> if artifacts_of(#[trigger] before[i], thread_id) {
                after[i] matches Overlay::Artifacts(w) && w.thread_id == thread_id && w@ == artifacts_relisted(
                    before[i]->Artifacts_0@,
                    items,
                )
            } else {
                after[i] == before[i]
            }
    } else {
        &&& after.len() == before.len() + 1
        &&& after.drop_last() == before
        &&& after.last() matches Overlay::Artifacts(w) && w.thread_id == thread_id && w@ == (ArtifactsModel {
            artifacts: items,
            selected: 0,
            versions_for: None,
            versions: seq![],
            selected_version: 0,
            version_cache: Map::empty(),
            selected_version_cache: Map::empty(),
        })
    }
}

/// Each artifacts overlay of `thread_id` shows the new versions of `artifact_id`.
pub open spec fn versions_refreshed(
    before: Seq<Overlay>,
    after: Seq<Overlay>,
    thread_id: u128,
    artifact_id: u128,
    versions: ArtifactVersions,
) -> bool {
    &&& after.len() == before.len()
    &&& forall|i: int|
        0 <= i < before.len() ==> if artifacts_of(#[trigger] before[i], thread_id) {
            after[i] matches Overlay::Artifacts(w) && w.thread_id == thread_id && w@ == apply_versions_spec(
                before[i]->Artifacts_0@,
                artifact_id,
                versions.versions@,
                versions.latest_version,
            )
        } else {
            after[i] == before[i]
        }
}

/// What the answer for a pending action does.
pub open spec fn pending_answer_step(
    before: UiCore,
    after: UiCore,
    action: PendingAction,
    outcome: ActionOutcome<PendingAnswer>,
    f: PendingFollowUp,
) -> bool {
    &&& pending_frame(before, after)
    &&& match outcome {
        ActionOutcome::NeedsApproval { thread_id, approval_id } => {
            &&& f is Nothing
            &&& after.overlays == before.overlays
            &&& after.pending_action == Some(repended(action, thread_id, approval_id))
            &&& shows(before, after, action_name(action) + " still needs approval"@)
        },
        ActionOutcome::Denied { summary } => {
            &&& f is Nothing
            &&& after.overlays == before.overlays
            &&& after.pending_action == before.pending_action
            &&& shows(before, after, action_name(action) + " denied: "@ + summary@)
        },
        ActionOutcome::Succeeded(answer) => after.pending_action == before.pending_action && match action {
            PendingAction::ProcessInspect { .. } => f is Nothing && after.status == before.status && after.transcript
                == before.transcript && match answer {
                PendingAnswer::Inspected(resp) => text_pushed(
                    before,
                    after,
                    "Process "@ + uuid_text(resp.process.process_id),
                    inspect_text(resp),
                ),
                _ => false,
            },
            PendingAction::ProcessKill { thread_id, process_id, .. } => after.overlays == before.overlays && f
                == PendingFollowUp::RefreshProcesses(thread_id) && shows(
                before,
                after,
                "kill requested: "@ + uuid_text(process_id),
            ),
            PendingAction::ProcessInterrupt { thread_id, process_id, .. } => after.overlays == before.overlays && f
                == PendingFollowUp::RefreshProcesses(thread_id) && shows(
                before,
                after,
                "interrupt requested: "@ + uuid_text(process_id),
            ),
            PendingAction::ArtifactList { thread_id, .. } => f is Nothing && match answer {
                PendingAnswer::Listed(list) => artifacts_refreshed(
                    before.overlays@,
                    after.overlays@,
                    thread_id,
                    list.artifacts@,
                ) && if list.error_count > 0 {
                    shows(before, after, "artifact/list errors: "@ + dec(list.error_count as nat))
                } else {
                    after.status == before.status && after.transcript == before.transcript
                },
                _ => false,
            },
            PendingAction::ArtifactRead { .. } => f is Nothing && after.status == before.status && after.transcript
                == before.transcript && match answer {
                PendingAnswer::Read { artifact_id, text } => text_pushed(
                    before,
                    after,
                    "Artifact "@ + uuid_text(artifact_id),
                    text@,
                ),
                _ => false,
            },
            PendingAction::ArtifactVersions { thread_id, artifact_id, .. } => f is Nothing && after.status
                == before.status && after.transcript == before.transcript && match answer {
                PendingAnswer::Versions(v) => versions_refreshed(
                    before.overlays@,
                    after.overlays@,
                    thread_id,
                    artifact_id,
                    v,
                ),
                _ => false,
            },
        },
    }
}

fn copy_artifacts(v: &Vec<crate::artifacts::ArtifactMetadata>) -> (r: Vec<crate::artifacts::ArtifactMetadata>)
    ensures
        r@ == v@,
{
    let mut out: Vec<crate::artifacts::ArtifactMetadata> = Vec::new();
    let mut i: usize = 0;
    while i < v.len()
        invariant
            i <= v.len(),
            out@ == v@.take(i as int),
        decreases v.len() - i,
    {
        out.push(v[i].clone());
        assert(out@ =~= v@.take(i + 1));
        i += 1;
    }
    assert(v@.take(v.len() as int) =~= v@);
    out
}

/// One layer after a thread's artifact list came.
fn relist_layer(o: Overlay, thread_id: u128, items: &Vec<crate::artifacts::ArtifactMetadata>) -> (r: Overlay)
    ensures
        if artifacts_of(o, thread_id) {
            r matches Overlay::Artifacts(w) && w.thread_id == thread_id && w@ == artifacts_relisted(o->Artifacts_0@, items@)
        } else {
            r == o
        },
{
    match o {
        Overlay::Artifacts(mut v) => {
            if v.thread_id == thread_id {
                let ghost m = v@;
                let current = if v.selected < v.artifacts.len() {
                    Some(v.artifacts[v.selected].artifact_id)
                } else {
                    None
                };
                let list = copy_artifacts(items);
                let selected = select_artifact(list.as_slice(), current);
                v.artifacts = list;
                v.selected = selected;
                assert(v@ =~= ArtifactsModel {
                    artifacts: items@,
                    selected: match current {
                        Some(id) => artifact_index_or_zero(items@, id),
                        None => 0,
                    },
                    ..m
                });
                sync_versions_for_selected_artifact(&mut v);
                Overlay::Artifacts(v)
            } else {
                Overlay::Artifacts(v)
            }
        },
        other => other,
    }
}

/// One layer after an artifact's versions came.
fn versions_layer(o: Overlay, thread_id: u128, artifact_id: u128, versions: &ArtifactVersions) -> (r: Overlay)
    ensures
        if artifacts_of(o, thread_id) {
            r matches Overlay::Artifacts(w) && w.thread_id == thread_id && w@ == apply_versions_spec(
                o->Artifacts_0@,
                artifact_id,
                versions.versions@,
                versions.latest_version,
            )
        } else {
            r == o
        },
{
    match o {
        Overlay::Artifacts(mut v) => {
            if v.thread_id == thread_id {
                apply_versions_to_artifacts_overlay(&mut v, artifact_id, versions);
                Overlay::Artifacts(v)
            } else {
                Overlay::Artifacts(v)
            }
        },
        other => other,
    }
}

/// One layer after a thread's process list came.
fn reload_layer(o: Overlay, thread_id: u128, processes: &Vec<ProcessInfo>) -> (r: Overlay)
    ensures
        match o {
            Overlay::Processes(v) => if v.thread_id == thread_id {
                r matches Overlay::Processes(w) && processes_reloaded(v, w, processes@)
            } else {
                r == o
            },
            _ => r == o,
        },
{
    match o {
        Overlay::Processes(mut v) => {
            if v.thread_id == thread_id {
                let current = if v.selected < v.processes.len() {
                    Some(v.processes[v.selected].process_id)
                } else {
                    None
                };
                let selected = select_process(processes.as_slice(), current);
                let list = crate::processes::copy_processes(processes);
                v.processes = list;
                v.selected = selected;
                Overlay::Processes(v)
            } else {
                Overlay::Processes(v)
            }
        },
        other => other,
    }
}

impl UiCore {
    /// Takes the action that waited for an approval.
    pub fn take_pending_action(&mut self) -> (r: Option<PendingAction>)
        ensures
            r == old(self).pending_action,
            *final(self) == (UiCore { pending_action: None, ..*old(self) }),
    {
        self.pending_action.take()
    }

    /// Reloads each processes overlay of `thread_id` with `processes`.
    pub fn refresh_processes_overlay(&mut self, thread_id: u128, processes: Vec<ProcessInfo>)
        ensures
            processes_refreshed(old(self).overlays@, final(self).overlays@, thread_id, processes@),
            *final(self) == (UiCore { overlays: final(self).overlays, ..*old(self) }),
    {
        let mut rest: Vec<Overlay> = Vec::new();
        std::mem::swap(&mut rest, &mut self.overlays);
        let ghost all = rest@;
        let n = rest.len();
        let mut out: Vec<Overlay> = Vec::new();
        let mut i: usize = 0;
        assert(all.skip(0) =~= all);
        while rest.len() > 0
            invariant
                i <= all.len(),
                all.len() == n,
                rest@ == all.skip(i as int),
                out@.len() == i,
                forall|j: int|
                    0 <= j < i ==> match #[trigger] all[j] {
                        Overlay::Processes(v) => if v.thread_id == thread_id {
                            out@[j] matches Overlay::Processes(w) && processes_reloaded(v, w, processes@)
                        } else {
                            out@[j] == all[j]
                        },
                        _ => out@[j] == all[j],
                    },
            decreases rest.len(),
        {
            let o = rest.remove(0);
            assert(o == all[i as int]);
            out.push(reload_layer(o, thread_id, &processes));
            i += 1;
            assert(rest@ =~= all.skip(i as int));
        }
        self.overlays = out;
    }

    /// Shows a thread's fresh artifact list in its artifacts overlays, or
    /// opens one when none is in the stack.
    pub fn refresh_artifacts_overlay(&mut self, thread_id: u128, artifacts: Vec<crate::artifacts::ArtifactMetadata>)
        ensures
            artifacts_refreshed(old(self).overlays@, final(self).overlays@, thread_id, artifacts@),
            *final(self) == (UiCore { overlays: final(self).overlays, ..*old(self) }),
    {
        let mut rest: Vec<Overlay> = Vec::new();
        std::mem::swap(&mut rest, &mut self.overlays);
        let ghost all = rest@;
        let n = rest.len();
        let mut out: Vec<Overlay> = Vec::new();
        let mut i: usize = 0;
        let mut updated = false;
        assert(all.skip(0) =~= all);
        while rest.len() > 0
            invariant
                i <= all.len(),
                all.len() == n,
                rest@ == all.skip(i as int),
                out@.len() == i,
                updated == exists|j: int| 0 <= j < i && artifacts_of(#[trigger] all[j], thread_id),
                forall|j: int|
                    0 <= j < i ==> if artifacts_of(#[trigger] all[j], thread_id) {
                        out@[j] matches Overlay::Artifacts(w) && w.thread_id == thread_id && w@ == artifacts_relisted(
                            all[j]->Artifacts_0@,
                            artifacts@,
                        )
                    } else {
                        out@[j] == all[j]
                    },
            decreases rest.len(),
        {
            let o = rest.remove(0);
            assert(o == all[i as int]);
            let hit = match &o {
                Overlay::Artifacts(v) => v.thread_id == thread_id,
                _ => false,
            };
            out.push(relist_layer(o, thread_id, &artifacts));
            if hit {
                updated = true;
            }
            i += 1;
            assert(rest@ =~= all.skip(i as int));
        }
        if !updated {
            assert(out@ =~= all);
            out.push(Overlay::Artifacts(ArtifactsOverlay {
                thread_id,
                artifacts,
                selected: 0,
                versions_for: None,
                versions: Vec::new(),
                selected_version: 0,
                version_cache: std::collections::HashMap::new(),
                selected_version_cache: std::collections::HashMap::new(),
            }));
            proof {
                let w = out@.last()->Artifacts_0;
                assert(w@.versions =~= Seq::<u32>::empty());
                assert(w@.version_cache =~= Map::<u128, Seq<u32>>::empty());
                assert(w@.selected_version_cache =~= Map::<u128, usize>::empty());
                assert(out@.drop_last() =~= all);
            }
        }
        self.overlays = out;
    }

    /// Shows an artifact's fresh versions in the thread's artifacts overlays.
    pub fn refresh_artifact_versions_overlay(&mut self, thread_id: u128, artifact_id: u128, versions: &ArtifactVersions)
        ensures
            versions_refreshed(old(self).overlays@, final(self).overlays@, thread_id, artifact_id, *versions),
            *final(self) == (UiCore { overlays: final(self).overlays, ..*old(self) }),
    {
        let mut rest: Vec<Overlay> = Vec::new();
        std::mem::swap(&mut rest, &mut self.overlays);
        let ghost all = rest@;
        let n = rest.len();
        let mut out: Vec<Overlay> = Vec::new();
        let mut i: usize = 0;
        assert(all.skip(0) =~= all);
        while rest.len() > 0
            invariant
                i <= all.len(),
                all.len() == n,
                rest@ == all.skip(i as int),
                out@.len() == i,
                forall|j: int|
                    0 <= j < i ==> if artifacts_of(#[trigger] all[j], thread_id) {
                        out@[j] matches Overlay::Artifacts(w) && w.thread_id == thread_id && w@ == apply_versions_spec(
                            all[j]->Artifacts_0@,
                            artifact_id,
                            versions.versions@,
                            versions.latest_version,
                        )
                    } else {
                        out@[j] == all[j]
                    },
            decreases rest.len(),
        {
            let o = rest.remove(0);
            assert(o == all[i as int]);
            out.push(versions_layer(o, thread_id, artifact_id, versions));
            i += 1;
            assert(rest@ =~= all.skip(i as int));
        }
        self.overlays = out;
    }
}

fn action_name_str(a: &PendingAction) -> (r: &'static str)
    ensures
        r@ == action_name(*a),
{
    match a {
        PendingAction::ArtifactList { .. } => "artifact/list",
        PendingAction::ArtifactVersions { .. } => "artifact/versions",
        PendingAction::ArtifactRead { .. } => "artifact/read",
        PendingAction::ProcessInspect { .. } => "process/inspect",
        PendingAction::ProcessKill { .. } => "process/kill",
        PendingAction::ProcessInterrupt { .. } => "process/interrupt",
    }
}

fn repend(a: PendingAction, thread_id: u128, approval_id: u128) -> (r: PendingAction)
    ensures
        r == repended(a, thread_id, approval_id),
{
    match a {
        PendingAction::ArtifactList { .. } => PendingAction::ArtifactList { thread_id, approval_id },
        PendingAction::ArtifactVersions { artifact_id, .. } => PendingAction::ArtifactVersions {
            thread_id,
            artifact_id,
            approval_id,
        },
        PendingAction::ArtifactRead { artifact_id, max_bytes, version, .. } => PendingAction::ArtifactRead {
            thread_id,
            artifact_id,
            max_bytes,
            version,
            approval_id,
        },
        PendingAction::ProcessInspect { process_id, max_lines, .. } => PendingAction::ProcessInspect {
            thread_id,
            process_id,
            max_lines,
            approval_id,
        },
        PendingAction::ProcessKill { process_id, .. } => PendingAction::ProcessKill { thread_id, process_id, approval_id },
        PendingAction::ProcessInterrupt { process_id, .. } => PendingAction::ProcessInterrupt {
            thread_id,
            process_id,
            approval_id,
        },
    }
}

fn titled(head: &str, id: u128) -> (r: String)
    ensures
        r@ == head@ + uuid_text(id),
{
    let mut out = owned(head);
    push_uuid(&mut out, id);
    out
}

impl UiCore {
    fn push_text_overlay(&mut self, title: String, text: String)
        ensures
            text_pushed(*old(self), *final(self), title@, text@),
            *final(self) == (UiCore { overlays: final(self).overlays, ..*old(self) }),
    {
        let ghost before = self.overlays@;
        self.overlays.push(Overlay::Text(TextOverlay { title, text, scroll: 0 }));
        assert(self.overlays@.drop_last() =~= before);
    }

    /// Takes the server's answer for a pending action that was run again.
    pub fn finish_pending_action(&mut self, action: PendingAction, outcome: ActionOutcome<PendingAnswer>) -> (f: PendingFollowUp)
        requires
            old(self).transcript@.len() <= MAX_TRANSCRIPT_ITEMS,
            outcome matches ActionOutcome::Succeeded(a) ==> answer_fits(action, a),
        ensures
            pending_answer_step(*old(self), *final(self), action, outcome, f),
            final(self).transcript@.len() <= MAX_TRANSCRIPT_ITEMS,
    {
        match outcome {
            ActionOutcome::NeedsApproval { thread_id, approval_id } => {
                let mut msg = owned(action_name_str(&action));
                push_str(&mut msg, " still needs approval");
                self.pending_action = Some(repend(action, thread_id, approval_id));
                self.set_status(msg);
                PendingFollowUp::Nothing
            },
            ActionOutcome::Denied { summary } => {
                let mut msg = owned(action_name_str(&action));
                push_str(&mut msg, " denied: ");
                push_str(&mut msg, summary.as_str());
                self.set_status(msg);
                PendingFollowUp::Nothing
            },
            ActionOutcome::Succeeded(answer) => self.finish_pending_success(action, answer),
        }
    }

    fn finish_pending_success(&mut self, action: PendingAction, answer: PendingAnswer) -> (f: PendingFollowUp)
        requires
            old(self).transcript@.len() <= MAX_TRANSCRIPT_ITEMS,
            answer_fits(action, answer),
        ensures
            pending_answer_step(*old(self), *final(self), action, ActionOutcome::Succeeded(answer), f),
            final(self).transcript@.len() <= MAX_TRANSCRIPT_ITEMS,
    {
        match action {
            PendingAction::ProcessKill { .. } | PendingAction::ProcessInterrupt { .. } | PendingAction::ProcessInspect {
                ..
            } => self.finish_process_success(action, answer),
            _ => self.finish_artifact_success(action, answer),
        }
    }

    #[verifier::spinoff_prover]
    fn finish_process_success(&mut self, action: PendingAction, answer: PendingAnswer) -> (f: PendingFollowUp)
        requires
            old(self).transcript@.len() <= MAX_TRANSCRIPT_ITEMS,
            answer_fits(action, answer),
            action is ProcessKill || action is ProcessInterrupt || action is ProcessInspect,
        ensures
            pending_answer_step(*old(self), *final(self), action, ActionOutcome::Succeeded(answer), f),
            final(self).transcript@.len() <= MAX_TRANSCRIPT_ITEMS,
    {
        match action {
            PendingAction::ProcessKill { thread_id, process_id, .. } => {
                self.set_status(titled("kill requested: ", process_id));
                PendingFollowUp::RefreshProcesses(thread_id)
            },
            PendingAction::ProcessInterrupt { thread_id, process_id, .. } => {
                self.set_status(titled("interrupt requested: ", process_id));
                PendingFollowUp::RefreshProcesses(thread_id)
            },
            PendingAction::ProcessInspect { .. } => {
                match answer {
                    PendingAnswer::Inspected(resp) => {
                        let text = build_process_inspect_text(&resp);
                        self.push_text_overlay(titled("Process ", resp.process.process_id), text);
                    },
                    _ => {},
                }
                PendingFollowUp::Nothing
            },
            _ => PendingFollowUp::Nothing,
        }
    }

    fn list_answered(&mut self, thread_id: u128, list: ArtifactList)
        requires
            old(self).transcript@.len() <= MAX_TRANSCRIPT_ITEMS,
        ensures
            pending_frame(*old(self), *final(self)),
            final(self).pending_action == old(self).pending_action,
            final(self).transcript@.len() <= MAX_TRANSCRIPT_ITEMS,
            artifacts_refreshed(old(self).overlays@, final(self).overlays@, thread_id, list.artifacts@),
            if list.error_count > 0 {
                shows(*old(self), *final(self), "artifact/list errors: "@ + dec(list.error_count as nat))
            } else {
                final(self).status == old(self).status && final(self).transcript == old(self).transcript
            },
    {
        if list.error_count > 0 {
            let mut msg = owned("artifact/list errors: ");
            push_dec(&mut msg, list.error_count as u64);
            self.set_status(msg);
        }
        self.refresh_artifacts_overlay(thread_id, list.artifacts);
    }

    #[verifier::spinoff_prover]
    fn finish_artifact_success(&mut self, action: PendingAction, answer: PendingAnswer) -> (f: PendingFollowUp)
        requires
            old(self).transcript@.len() <= MAX_TRANSCRIPT_ITEMS,
            answer_fits(action, answer),
            action is ArtifactRead || action is ArtifactList || action is ArtifactVersions,
        ensures
            pending_answer_step(*old(self), *final(self), action, ActionOutcome::Succeeded(answer), f),
            final(self).transcript@.len() <= MAX_TRANSCRIPT_ITEMS,
    {
        match action {
            PendingAction::ArtifactRead { .. } => {
                match answer {
                    PendingAnswer::Read { artifact_id, text } => {
                        self.push_text_overlay(titled("Artifact ", artifact_id), text);
                    },
                    _ => {},
                }
                PendingFollowUp::Nothing
            },
            PendingAction::ArtifactList { thread_id, .. } => {
                match answer {
                    PendingAnswer::Listed(list) => {
                        self.list_answered(thread_id, list);
                    },
                    _ => {},
                }
                PendingFollowUp::Nothing
            },
            PendingAction::ArtifactVersions { thread_id, artifact_id, .. } => {
                match answer {
                    PendingAnswer::Versions(v) => {
                        self.refresh_artifact_versions_overlay(thread_id, artifact_id, &v);
                    },
                    _ => {},
                }
                PendingFollowUp::Nothing
            },
            _ => PendingFollowUp::Nothing,
        }
    }
}

} // verus!
