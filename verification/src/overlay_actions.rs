//! The decisions of the processes and artifacts overlays around their
//! server requests: which request a key asks for, and what the overlay does
//! with the answer (show it, ask for an approval, report a denial, reload).
//! The requests themselves are made by the caller.
use vstd::prelude::*;
use std::collections::HashMap;
use crate::artifacts::{
    activate_cached_versions_for_artifact, activate_spec, apply_versions_spec,
    apply_versions_to_artifacts_overlay, artifact_index_or_zero, artifacts_key_spec,
    handle_local_artifacts_key, key_result_matches, select_artifact, selected_artifact_version,
    sync_spec, sync_versions_for_selected_artifact, ArtifactKeyOutcome, ArtifactMetadata,
    ArtifactVersions, ArtifactsLocalKeyResult, ArtifactsModel, ArtifactsOverlay,
};
use crate::ids::{push_uuid, uuid_text};
use crate::keys::KeyCode;
use crate::pending::PendingAction;
use crate::processes::{
    build_process_inspect_text, handle_local_processes_key, inspect_text, select_process,
    ProcessInfo, ProcessInspectResponse, ProcessesLocalKeyResult, ProcessesOverlay,
};
use crate::text::{dec, push_dec, push_str};

verus! {

broadcast use vstd::std_specs::hash::group_hash_axioms;

/// What the server answered to a request that may need an approval.
#[derive(Debug)]
pub enum ActionOutcome<T> {
    NeedsApproval { thread_id: u128, approval_id: u128 },
    Denied { summary: String },
    Succeeded(T),
}

/// What the overlay does next.
#[derive(Debug)]
pub enum OverlayStep {
    /// Stay, showing the status if any.
    Stay(Option<String>),
    /// Open the approvals of `thread_id` on `approval_id`, and run `pending` once it is approved.
    AskApproval { thread_id: u128, approval_id: u128, status: String, pending: PendingAction },
    /// Show a text.
    ShowText { title: String, text: String },
    /// Show the artifact that was read.
    ShowArtifactRead,
    /// Reload the process list, keeping `keep` selected.
    ReloadProcesses { status: String, keep: u128 },
}

/// The action held back by an approval request.
pub open spec fn pending_of(step: OverlayStep) -> Option<PendingAction> {
    match step {
        OverlayStep::AskApproval { pending, .. } => Some(pending),
        _ => None,
    }
}

/// `HEAD` followed by the id.
pub open spec fn with_id(head: Seq<char>, id: u128) -> Seq<char> {
    head + uuid_text(id)
}

fn text_with_id(head: &str, id: u128) -> (r: String)
    ensures
        r@ == with_id(head@, id),
{
    let mut out = String::new();
    push_str(&mut out, head);
    push_uuid(&mut out, id);
    out
}

fn text_with_summary(head: &str, summary: &str) -> (r: String)
    ensures
        r@ == head@ + summary@,
{
    let mut out = String::new();
    push_str(&mut out, head);
    push_str(&mut out, summary);
    out
}

/// The step for an answer other than success: ask for the approval (with
/// `pending` holding the approval id) or report the denial.
pub open spec fn refused_step_ok(
    step: OverlayStep,
    outcome_approval: Option<(u128, u128)>,
    denied_summary: Option<Seq<char>>,
    action: Seq<char>,
) -> bool {
    match outcome_approval {
        Some((thread_id, approval_id)) => step matches OverlayStep::AskApproval {
            thread_id: t,
            approval_id: a,
            status,
            ..
        } && t == thread_id && a == approval_id && status@ == with_id(
            action + " needs approval: "@,
            approval_id,
        ),
        None => match denied_summary {
            Some(s) => step matches OverlayStep::Stay(Some(st)) && st@ == action + " denied: "@ + s,
            None => true,
        },
    }
}

// ---------------------------------------------------------------------------
// The processes overlay
// ---------------------------------------------------------------------------

/// The request a key of the processes overlay asks for.
#[derive(Debug, Clone, Copy, PartialEq, Eq)]
pub enum ProcessesRequest {
    /// Nothing to ask the server.
    Nothing,
    /// Reload the list, keeping the process `current` selected.
    Reload { current: Option<u128> },
    Inspect { process_id: u128, max_lines: usize },
    Kill { process_id: u128 },
    Interrupt { process_id: u128 },
}

/// The id of the selected process, if the selection points at one.
pub open spec fn selected_process(view: ProcessesOverlay) -> Option<u128> {
    if view.selected < view.processes.len() {
        Some(view.processes@[view.selected as int].process_id)
    } else {
        None
    }
}

/// What a key of the processes overlay does to it, and the request it asks for.
pub open spec fn processes_request_step(a: ProcessesOverlay, b: ProcessesOverlay, code: KeyCode, r: ProcessesRequest) -> bool {
    &&& (b.processes == a.processes)
    &&& ((code == KeyCode::Up || code == KeyCode::Down) ==> r == ProcessesRequest::Nothing)
    &&& (!(code == KeyCode::Up || code == KeyCode::Down) ==> b.selected == a.selected
                && r == (match code {
                KeyCode::Char('r') => ProcessesRequest::Reload { current: selected_process(a) },
                KeyCode::Enter | KeyCode::Char('i') => match selected_process(a) {
                    Some(id) => ProcessesRequest::Inspect { process_id: id, max_lines: 200 },
                    None => ProcessesRequest::Nothing,
                },
                KeyCode::Char('k') => match selected_process(a) {
                    Some(id) => ProcessesRequest::Kill { process_id: id },
                    None => ProcessesRequest::Nothing,
                },
                KeyCode::Char('x') => match selected_process(a) {
                    Some(id) => ProcessesRequest::Interrupt { process_id: id },
                    None => ProcessesRequest::Nothing,
                },
                _ => ProcessesRequest::Nothing,
            }))
}

/// `handle_key_processes_overlay`, up to its server request: Up and Down
/// move the selection; `r` reloads; Enter or `i` inspects (200 lines), `k`
/// kills and `x` interrupts the selected process.
pub fn processes_key_request(view: &mut ProcessesOverlay, code: KeyCode) -> (r: ProcessesRequest)
    ensures
        processes_request_step(*old(view), *final(view), code, r),
{
    if let ProcessesLocalKeyResult::Handled = handle_local_processes_key(view, code) {
        return ProcessesRequest::Nothing;
    }
    let selected = if view.selected < view.processes.len() {
        Some(view.processes[view.selected].process_id)
    } else {
        None
    };
    match code {
        KeyCode::Char('r') => ProcessesRequest::Reload { current: selected },
        KeyCode::Enter | KeyCode::Char('i') => match selected {
            Some(id) => ProcessesRequest::Inspect { process_id: id, max_lines: 200 },
            None => ProcessesRequest::Nothing,
        },
        KeyCode::Char('k') => match selected {
            Some(id) => ProcessesRequest::Kill { process_id: id },
            None => ProcessesRequest::Nothing,
        },
        KeyCode::Char('x') => match selected {
            Some(id) => ProcessesRequest::Interrupt { process_id: id },
            None => ProcessesRequest::Nothing,
        },
        _ => ProcessesRequest::Nothing,
    }
}

/// Shows a reloaded process list, keeping the process `current` selected
/// (the first process when it is gone).
pub fn apply_process_list(view: &mut ProcessesOverlay, processes: Vec<ProcessInfo>, current: Option<u128>)
    ensures
        final(view).thread_id == old(view).thread_id,
        final(view).processes@ == processes@,
        current is None ==> final(view).selected == 0,
        current matches Some(id) ==> (exists|i: int|
            0 <= i < processes.len() && processes@[i].process_id == id) ==> final(view).selected
            < processes.len() && processes@[final(view).selected as int].process_id == id && forall|j: int|
            0 <= j < final(view).selected ==> processes@[j].process_id != id,
        current matches Some(id) ==> !(exists|i: int|
            0 <= i < processes.len() && processes@[i].process_id == id) ==> final(view).selected == 0,
{
    let selected = select_process(processes.as_slice(), current);
    view.processes = processes;
    view.selected = selected;
}

/// What the inspection's answer leads to: the inspection text, an approval
/// request (to inspect again once approved) or the denial.
pub fn process_inspect_step(
    process_id: u128,
    max_lines: usize,
    outcome: ActionOutcome<ProcessInspectResponse>,
) -> (r: OverlayStep)
    ensures
        match outcome {
            ActionOutcome::NeedsApproval { thread_id, approval_id } => refused_step_ok(
                r,
                Some((thread_id, approval_id)),
                None,
                "process/inspect"@,
            ) && pending_of(r) == Some(
                PendingAction::ProcessInspect { thread_id, process_id, max_lines, approval_id },
            ),
            ActionOutcome::Denied { summary } => refused_step_ok(
                r,
                None,
                Some(summary@),
                "process/inspect"@,
            ),
            ActionOutcome::Succeeded(resp) => r matches OverlayStep::ShowText { title, text } && title@
                == with_id("Process "@, resp.process.process_id) && text@ == inspect_text(resp),
        },
{
    match outcome {
        ActionOutcome::NeedsApproval { thread_id, approval_id } => {
            proof {
                reveal_strlit("process/inspect needs approval: ");
                reveal_strlit("process/inspect");
                reveal_strlit(" needs approval: ");
                assert("process/inspect"@ + " needs approval: "@ =~= "process/inspect needs approval: "@);
            }
            OverlayStep::AskApproval {
            thread_id,
            approval_id,
            status: text_with_id("process/inspect needs approval: ", approval_id),
            pending: PendingAction::ProcessInspect { thread_id, process_id, max_lines, approval_id },
        }},
        ActionOutcome::Denied { summary } => {
            proof {
                reveal_strlit("process/inspect denied: ");
                reveal_strlit("process/inspect");
                reveal_strlit(" denied: ");
                assert("process/inspect"@ + " denied: "@ + summary@ =~= "process/inspect denied: "@
                    + summary@);
            }
            OverlayStep::Stay(Some(text_with_summary("process/inspect denied: ", summary.as_str())))
        },
        ActionOutcome::Succeeded(resp) => {
            let text = build_process_inspect_text(&resp);
            OverlayStep::ShowText { title: text_with_id("Process ", resp.process.process_id), text }
        },
    }
}

/// What a kill (`kill` true) or interrupt answer leads to: a reload that
/// keeps the process selected, an approval request, or the denial.
pub fn process_signal_step(kill: bool, process_id: u128, outcome: ActionOutcome<()>) -> (r: OverlayStep)
    ensures
        match outcome {
            ActionOutcome::NeedsApproval { thread_id, approval_id } => refused_step_ok(
                r,
                Some((thread_id, approval_id)),
                None,
                if kill { "process/kill"@ } else { "process/interrupt"@ },
            ) && pending_of(r) == Some(
                if kill {
                    PendingAction::ProcessKill { thread_id, process_id, approval_id }
                } else {
                    PendingAction::ProcessInterrupt { thread_id, process_id, approval_id }
                },
            ),
            ActionOutcome::Denied { summary } => refused_step_ok(
                r,
                None,
                Some(summary@),
                if kill { "process/kill"@ } else { "process/interrupt"@ },
            ),
            ActionOutcome::Succeeded(_) => r matches OverlayStep::ReloadProcesses { status, keep } && keep
                == process_id && status@ == with_id(
                if kill { "kill requested: "@ } else { "interrupt requested: "@ },
                process_id,
            ),
        },
{
    match outcome {
        ActionOutcome::NeedsApproval { thread_id, approval_id } => {
            proof {
                reveal_strlit("process/kill needs approval: ");
                reveal_strlit("process/interrupt needs approval: ");
                reveal_strlit("process/kill");
                reveal_strlit("process/interrupt");
                reveal_strlit(" needs approval: ");
                assert("process/kill"@ + " needs approval: "@ =~= "process/kill needs approval: "@);
                assert("process/interrupt"@ + " needs approval: "@ =~= "process/interrupt needs approval: "@);
            }
            if kill {
                OverlayStep::AskApproval {
                    thread_id,
                    approval_id,
                    status: text_with_id("process/kill needs approval: ", approval_id),
                    pending: PendingAction::ProcessKill { thread_id, process_id, approval_id },
                }
            } else {
                OverlayStep::AskApproval {
                    thread_id,
                    approval_id,
                    status: text_with_id("process/interrupt needs approval: ", approval_id),
                    pending: PendingAction::ProcessInterrupt { thread_id, process_id, approval_id },
                }
            }
        },
        ActionOutcome::Denied { summary } => {
            let head = if kill { "process/kill denied: " } else { "process/interrupt denied: " };
            proof {
                reveal_strlit("process/kill denied: ");
                reveal_strlit("process/interrupt denied: ");
                reveal_strlit("process/kill");
                reveal_strlit("process/interrupt");
                reveal_strlit(" denied: ");
                assert("process/kill"@ + " denied: "@ + summary@ =~= "process/kill denied: "@ + summary@);
                assert("process/interrupt"@ + " denied: "@ + summary@ =~= "process/interrupt denied: "@
                    + summary@);
            }
            OverlayStep::Stay(Some(text_with_summary(head, summary.as_str())))
        },
        ActionOutcome::Succeeded(_) => {
            let status = if kill {
                text_with_id("kill requested: ", process_id)
            } else {
                text_with_id("interrupt requested: ", process_id)
            };
            OverlayStep::ReloadProcesses { status, keep: process_id }
        },
    }
}

// ---------------------------------------------------------------------------
// The artifacts overlay
// ---------------------------------------------------------------------------

/// The request a key of the artifacts overlay asks for.
#[derive(Debug)]
pub enum ArtifactsRequest {
    /// Handled here, with this status.
    Done(Option<String>),
    /// Reload the list, keeping the artifact `current` selected.
    List { current: Option<u128> },
    /// Load (or reload) the versions of an artifact whose latest version is `latest_version`.
    Versions { artifact_id: u128, latest_version: u32, force_reload: bool },
    /// Read a version (the latest when `None`) of an artifact.
    Read { artifact_id: u128, version: Option<u32>, max_bytes: u64 },
}

/// The version the overlay has selected for `meta`, or its latest.
pub open spec fn shown_selected(m: ArtifactsModel, meta: ArtifactMetadata) -> u32 {
    if m.versions_for == Some(meta.artifact_id) && m.selected_version < m.versions.len() {
        m.versions[m.selected_version as int]
    } else {
        meta.version
    }
}

/// `HEAD: N (latest=L, selected=S)`.
pub open spec fn versions_status(head: Seq<char>, n: nat, latest: u32, selected: u32) -> Seq<char> {
    head + dec(n) + " (latest="@ + dec(latest as nat) + ", selected="@ + dec(selected as nat) + ")"@
}

fn versions_status_text(head: &str, n: usize, latest: u32, selected: u32) -> (r: String)
    ensures
        r@ == versions_status(head@, n as nat, latest, selected),
{
    let mut out = String::new();
    push_str(&mut out, head);
    push_dec(&mut out, n as u64);
    push_str(&mut out, " (latest=");
    push_dec(&mut out, latest as u64);
    push_str(&mut out, ", selected=");
    push_dec(&mut out, selected as u64);
    push_str(&mut out, ")");
    assert(out@ =~= versions_status(head@, n as nat, latest, selected));
    out
}

/// What a key of the artifacts overlay does to it, and the request it asks for.
pub open spec fn artifacts_request_step(a: ArtifactsOverlay, b: ArtifactsOverlay, code: KeyCode, r: ArtifactsRequest) -> bool {
    &&& b.thread_id == a.thread_id
    &&& (artifacts_key_spec(a@, code).1 != ArtifactKeyOutcome::Unhandled ==> b@
                == artifacts_key_spec(a@, code).0 && (r matches ArtifactsRequest::Done(s)
                && key_result_matches(ArtifactsLocalKeyResult::Handled(s), artifacts_key_spec(a@, code).1)))
    &&& (artifacts_key_spec(a@, code).1 == ArtifactKeyOutcome::Unhandled ==> {
                let m = a@;
                match code {
                    KeyCode::Char('r') => b@ == m && r == ArtifactsRequest::List {
                        current: crate::artifacts::selected_id(m),
                    },
                    KeyCode::Char('v') | KeyCode::Char('R') => if m.selected < m.artifacts.len() {
                        let meta = m.artifacts[m.selected as int];
                        let force = code == KeyCode::Char('R');
                        if !force && activate_spec(m, meta.artifact_id, meta.version).1 {
                            let m1 = activate_spec(m, meta.artifact_id, meta.version).0;
                            b@ == m1 && (r matches ArtifactsRequest::Done(Some(s)) && s@
                                == versions_status(
                                "artifact versions cached: "@,
                                m1.versions.len(),
                                meta.version,
                                shown_selected(m1, meta),
                            ))
                        } else {
                            b@ == (if force {
                                m
                            } else {
                                activate_spec(m, meta.artifact_id, meta.version).0
                            }) && r == ArtifactsRequest::Versions {
                                artifact_id: meta.artifact_id,
                                latest_version: meta.version,
                                force_reload: force,
                            }
                        }
                    } else {
                        b@ == m && r == ArtifactsRequest::Done(None)
                    },
                    KeyCode::Enter | KeyCode::Char('i') => b@ == m && if m.selected
                        < m.artifacts.len() {
                        let meta = m.artifacts[m.selected as int];
                        r == ArtifactsRequest::Read {
                            artifact_id: meta.artifact_id,
                            version: if m.versions_for == Some(meta.artifact_id) && m.selected_version
                                < m.versions.len() {
                                Some(m.versions[m.selected_version as int])
                            } else {
                                None
                            },
                            max_bytes: 262144,
                        }
                    } else {
                        r == ArtifactsRequest::Done(None)
                    },
                    _ => b@ == m && r == ArtifactsRequest::Done(None),
                }
            })
}

/// `handle_key_artifacts_overlay`, up to its server request: the overlay's
/// own keys; `r` reloads the list; `v` shows the cached versions of the
/// selected artifact or else asks for them, `R` always asks; Enter or `i`
/// reads the selected version (at most 256 KiB).
pub fn artifacts_key_request(view: &mut ArtifactsOverlay, code: KeyCode) -> (r: ArtifactsRequest)
    requires
        old(view).selected < usize::MAX,
        old(view).selected_version < usize::MAX,
    ensures
        artifacts_request_step(*old(view), *final(view), code, r),
{
    match handle_local_artifacts_key(view, code) {
        ArtifactsLocalKeyResult::Handled(status) => return ArtifactsRequest::Done(status),
        ArtifactsLocalKeyResult::Unhandled => {},
    }
    let selected = view.selected;
    match code {
        KeyCode::Char('r') => {
            let current = if selected < view.artifacts.len() {
                Some(view.artifacts[selected].artifact_id)
            } else {
                None
            };
            ArtifactsRequest::List { current }
        },
        KeyCode::Char('v') | KeyCode::Char('R') => {
            if selected >= view.artifacts.len() {
                return ArtifactsRequest::Done(None);
            }
            let force_reload = code == KeyCode::Char('R');
            let meta = view.artifacts[selected].clone();
            if !force_reload && activate_cached_versions_for_artifact(view, meta.artifact_id, meta.version) {
                let shown = match selected_artifact_version(view, &meta) {
                    Some(v) => v,
                    None => meta.version,
                };
                let status = versions_status_text(
                    "artifact versions cached: ",
                    view.versions.len(),
                    meta.version,
                    shown,
                );
                return ArtifactsRequest::Done(Some(status));
            }
            ArtifactsRequest::Versions {
                artifact_id: meta.artifact_id,
                latest_version: meta.version,
                force_reload,
            }
        },
        KeyCode::Enter | KeyCode::Char('i') => {
            if selected >= view.artifacts.len() {
                return ArtifactsRequest::Done(None);
            }
            let version = selected_artifact_version(view, &view.artifacts[selected]);
            ArtifactsRequest::Read {
                artifact_id: view.artifacts[selected].artifact_id,
                version,
                max_bytes: 262144,
            }
        },
        _ => ArtifactsRequest::Done(None),
    }
}

/// The artifacts a list request returned, and how many errors it reported.
#[derive(Debug)]
pub struct ArtifactList {
    pub artifacts: Vec<ArtifactMetadata>,
    pub error_count: usize,
}

/// The ids of a list of artifacts.
pub open spec fn ids_of(items: Seq<ArtifactMetadata>) -> Set<u128> {
    Set::new(|k: u128| exists|i: int| 0 <= i < items.len() && (#[trigger] items[i]).artifact_id == k)
}

/// The overlay after a list reload: the new list, the selection kept on
/// `current`, the caches kept for the artifacts still listed, then the
/// versions synchronised with the selection.
pub open spec fn list_reload_spec(m: ArtifactsModel, items: Seq<ArtifactMetadata>, current: Option<u128>) -> ArtifactsModel {
    sync_spec(
        ArtifactsModel {
            artifacts: items,
            selected: match current {
                Some(id) => artifact_index_or_zero(items, id),
                None => 0,
            },
            version_cache: m.version_cache.restrict(ids_of(items)),
            selected_version_cache: m.selected_version_cache.restrict(ids_of(items)),
            ..m
        },
    )
}

proof fn lemma_ids_push(items: Seq<ArtifactMetadata>, i: int)
    requires
        0 <= i < items.len(),
    ensures
        ids_of(items.take(i + 1)) == ids_of(items.take(i)).insert(items[i].artifact_id),
{
    assert forall|k: u128| ids_of(items.take(i + 1)).contains(k) implies ids_of(items.take(i)).insert(
        items[i].artifact_id,
    ).contains(k) by {
        let j = choose|j: int| 0 <= j < i + 1 && (#[trigger] items.take(i + 1)[j]).artifact_id == k;
        if j < i {
            assert(items.take(i)[j] == items.take(i + 1)[j]);
        }
    }
    assert forall|k: u128| ids_of(items.take(i)).insert(items[i].artifact_id).contains(k) implies ids_of(
        items.take(i + 1),
    ).contains(k) by {
        if k == items[i].artifact_id {
            assert(items.take(i + 1)[i] == items[i]);
        } else {
            let j = choose|j: int| 0 <= j < i && (#[trigger] items.take(i)[j]).artifact_id == k;
            assert(items.take(i + 1)[j] == items.take(i)[j]);
        }
    }
    assert(ids_of(items.take(i + 1)) =~= ids_of(items.take(i)).insert(items[i].artifact_id));
}

/// The cached version lists of the artifacts in `items`.
fn retain_version_cache(cache: &HashMap<u128, Vec<u32>>, items: &[ArtifactMetadata]) -> (r: HashMap<u128, Vec<u32>>)
    ensures
        r@.map_values(|v: Vec<u32>| v@) == cache@.map_values(|v: Vec<u32>| v@).restrict(ids_of(items@)),
{
    let ghost full = cache@.map_values(|v: Vec<u32>| v@);
    let mut out: HashMap<u128, Vec<u32>> = HashMap::new();
    let mut i: usize = 0;
    assert(ids_of(items@.take(0)) =~= Set::<u128>::empty());
    assert(out@.map_values(|v: Vec<u32>| v@) =~= full.restrict(ids_of(items@.take(0))));
    while i < items.len()
        invariant
            i <= items.len(),
            full == cache@.map_values(|v: Vec<u32>| v@),
            out@.map_values(|v: Vec<u32>| v@) == full.restrict(ids_of(items@.take(i as int))),
        decreases items.len() - i,
    {
        let id = items[i].artifact_id;
        proof {
            lemma_ids_push(items@, i as int);
        }
        let ghost prev = out@.map_values(|v: Vec<u32>| v@);
        match cache.get(&id) {
            Some(v) => {
                let copy = crate::artifacts::copy_versions(v);
                assert(full.dom().contains(id) && copy@ == full[id]);
                out.insert(id, copy);
                assert(out@.map_values(|v: Vec<u32>| v@) =~= prev.insert(id, full[id]));
            },
            None => {
                assert(!full.dom().contains(id));
            },
        }
        assert(out@.map_values(|v: Vec<u32>| v@) =~= full.restrict(ids_of(items@.take(i + 1))));
        i += 1;
    }
    assert(items@.take(items.len() as int) =~= items@);
    out
}

/// The cached version selections of the artifacts in `items`.
fn retain_selection_cache(cache: &HashMap<u128, usize>, items: &[ArtifactMetadata]) -> (r: HashMap<u128, usize>)
    ensures
        r@ == cache@.restrict(ids_of(items@)),
{
    let mut out: HashMap<u128, usize> = HashMap::new();
    let mut i: usize = 0;
    assert(ids_of(items@.take(0)) =~= Set::<u128>::empty());
    assert(out@ =~= cache@.restrict(ids_of(items@.take(0))));
    while i < items.len()
        invariant
            i <= items.len(),
            out@ == cache@.restrict(ids_of(items@.take(i as int))),
        decreases items.len() - i,
    {
        let id = items[i].artifact_id;
        proof {
            lemma_ids_push(items@, i as int);
        }
        match cache.get(&id) {
            Some(s) => {
                out.insert(id, *s);
            },
            None => {},
        }
        assert(out@ =~= cache@.restrict(ids_of(items@.take(i + 1))));
        i += 1;
    }
    assert(items@.take(items.len() as int) =~= items@);
    out
}

/// What the list request's answer leads to: the reloaded list (with the
/// number of errors, if any, as status), an approval request, or the denial.
pub fn artifact_list_step(
    view: &mut ArtifactsOverlay,
    current: Option<u128>,
    outcome: ActionOutcome<ArtifactList>,
) -> (r: OverlayStep)
    ensures
        match outcome {
            ActionOutcome::NeedsApproval { thread_id, approval_id } => *final(view) == *old(view)
                && refused_step_ok(r, Some((thread_id, approval_id)), None, "artifact/list"@)
                && pending_of(r) == Some(PendingAction::ArtifactList { thread_id, approval_id }),
            ActionOutcome::Denied { summary } => *final(view) == *old(view) && refused_step_ok(
                r,
                None,
                Some(summary@),
                "artifact/list"@,
            ),
            ActionOutcome::Succeeded(list) => final(view)@ == list_reload_spec(
                old(view)@,
                list.artifacts@,
                current,
            ) && final(view).thread_id == old(view).thread_id && (if list.error_count > 0 {
                r matches OverlayStep::Stay(Some(s)) && s@ == "artifact/list errors: "@ + dec(
                    list.error_count as nat,
                )
            } else {
                r matches OverlayStep::Stay(None)
            }),
        },
{
    match outcome {
        ActionOutcome::NeedsApproval { thread_id, approval_id } => {
            proof {
                reveal_strlit("artifact/list needs approval: ");
                reveal_strlit("artifact/list");
                reveal_strlit(" needs approval: ");
                assert("artifact/list"@ + " needs approval: "@ =~= "artifact/list needs approval: "@);
            }
            OverlayStep::AskApproval {
                thread_id,
                approval_id,
                status: text_with_id("artifact/list needs approval: ", approval_id),
                pending: PendingAction::ArtifactList { thread_id, approval_id },
            }
        },
        ActionOutcome::Denied { summary } => {
            proof {
                reveal_strlit("artifact/list denied: ");
                reveal_strlit("artifact/list");
                reveal_strlit(" denied: ");
                assert("artifact/list"@ + " denied: "@ + summary@ =~= "artifact/list denied: "@
                    + summary@);
            }
            OverlayStep::Stay(Some(text_with_summary("artifact/list denied: ", summary.as_str())))
        },
        ActionOutcome::Succeeded(list) => {
            let status = if list.error_count > 0 {
                let mut s = String::new();
                push_str(&mut s, "artifact/list errors: ");
                push_dec(&mut s, list.error_count as u64);
                Some(s)
            } else {
                None
            };
            let ghost m = view@;
            let ghost items = list.artifacts@;
            let selected = select_artifact(list.artifacts.as_slice(), current);
            let version_cache = retain_version_cache(&view.version_cache, list.artifacts.as_slice());
            let selected_version_cache = retain_selection_cache(
                &view.selected_version_cache,
                list.artifacts.as_slice(),
            );
            view.artifacts = list.artifacts;
            view.selected = selected;
            view.version_cache = version_cache;
            view.selected_version_cache = selected_version_cache;
            assert(view@ =~= ArtifactsModel {
                artifacts: items,
                selected: match current {
                    Some(id) => artifact_index_or_zero(items, id),
                    None => 0,
                },
                version_cache: m.version_cache.restrict(ids_of(items)),
                selected_version_cache: m.selected_version_cache.restrict(ids_of(items)),
                ..m
            });
            sync_versions_for_selected_artifact(view);
            OverlayStep::Stay(status)
        },
    }
}

/// What the versions request's answer leads to: the versions shown (with a
/// status naming how many, the latest and the selected one), an approval
/// request, or the denial.
pub fn artifact_versions_step(
    view: &mut ArtifactsOverlay,
    meta: &ArtifactMetadata,
    force_reload: bool,
    outcome: ActionOutcome<ArtifactVersions>,
) -> (r: OverlayStep)
    ensures
        match outcome {
            ActionOutcome::NeedsApproval { thread_id, approval_id } => *final(view) == *old(view)
                && refused_step_ok(r, Some((thread_id, approval_id)), None, "artifact/versions"@)
                && pending_of(r) == Some(
                PendingAction::ArtifactVersions { thread_id, artifact_id: meta.artifact_id, approval_id },
            ),
            ActionOutcome::Denied { summary } => *final(view) == *old(view) && refused_step_ok(
                r,
                None,
                Some(summary@),
                "artifact/versions"@,
            ),
            ActionOutcome::Succeeded(parsed) => final(view)@ == apply_versions_spec(
                old(view)@,
                meta.artifact_id,
                parsed.versions@,
                parsed.latest_version,
            ) && (r matches OverlayStep::Stay(Some(s)) && s@ == versions_status(
                if force_reload { "artifact versions reloaded: "@ } else { "artifact versions loaded: "@ },
                parsed.versions.len() as nat,
                parsed.latest_version,
                shown_selected(final(view)@, *meta),
            )),
        },
{
    match outcome {
        ActionOutcome::NeedsApproval { thread_id, approval_id } => {
            proof {
                reveal_strlit("artifact/versions needs approval: ");
                reveal_strlit("artifact/versions");
                reveal_strlit(" needs approval: ");
                assert("artifact/versions"@ + " needs approval: "@ =~= "artifact/versions needs approval: "@);
            }
            OverlayStep::AskApproval {
                thread_id,
                approval_id,
                status: text_with_id("artifact/versions needs approval: ", approval_id),
                pending: PendingAction::ArtifactVersions {
                    thread_id,
                    artifact_id: meta.artifact_id,
                    approval_id,
                },
            }
        },
        ActionOutcome::Denied { summary } => {
            proof {
                reveal_strlit("artifact/versions denied: ");
                reveal_strlit("artifact/versions");
                reveal_strlit(" denied: ");
                assert("artifact/versions"@ + " denied: "@ + summary@ =~= "artifact/versions denied: "@
                    + summary@);
            }
            OverlayStep::Stay(Some(text_with_summary("artifact/versions denied: ", summary.as_str())))
        },
        ActionOutcome::Succeeded(parsed) => {
            apply_versions_to_artifacts_overlay(view, meta.artifact_id, &parsed);
            let shown = match selected_artifact_version(view, meta) {
                Some(v) => v,
                None => meta.version,
            };
            let head = if force_reload { "artifact versions reloaded: " } else { "artifact versions loaded: " };
            let status = versions_status_text(head, parsed.versions.len(), parsed.latest_version, shown);
            OverlayStep::Stay(Some(status))
        },
    }
}

/// What the read request's answer leads to: showing the artifact, an
/// approval request (to read the same version once approved), or the denial.
pub fn artifact_read_step(
    artifact_id: u128,
    version: Option<u32>,
    max_bytes: u64,
    outcome: ActionOutcome<()>,
) -> (r: OverlayStep)
    ensures
        match outcome {
            ActionOutcome::NeedsApproval { thread_id, approval_id } => refused_step_ok(
                r,
                Some((thread_id, approval_id)),
                None,
                "artifact/read"@,
            ) && pending_of(r) == Some(
                PendingAction::ArtifactRead { thread_id, artifact_id, max_bytes, version, approval_id },
            ),
            ActionOutcome::Denied { summary } => refused_step_ok(
                r,
                None,
                Some(summary@),
                "artifact/read"@,
            ),
            ActionOutcome::Succeeded(_) => r is ShowArtifactRead,
        },
{
    match outcome {
        ActionOutcome::NeedsApproval { thread_id, approval_id } => {
            proof {
                reveal_strlit("artifact/read needs approval: ");
                reveal_strlit("artifact/read");
                reveal_strlit(" needs approval: ");
                assert("artifact/read"@ + " needs approval: "@ =~= "artifact/read needs approval: "@);
            }
            OverlayStep::AskApproval {
                thread_id,
                approval_id,
                status: text_with_id("artifact/read needs approval: ", approval_id),
                pending: PendingAction::ArtifactRead { thread_id, artifact_id, max_bytes, version, approval_id },
            }
        },
        ActionOutcome::Denied { summary } => {
            proof {
                reveal_strlit("artifact/read denied: ");
                reveal_strlit("artifact/read");
                reveal_strlit(" denied: ");
                assert("artifact/read"@ + " denied: "@ + summary@ =~= "artifact/read denied: "@ + summary@);
            }
            OverlayStep::Stay(Some(text_with_summary("artifact/read denied: ", summary.as_str())))
        },
        ActionOutcome::Succeeded(_) => OverlayStep::ShowArtifactRead,
    }
}

// ---------------------------------------------------------------------------
// The approvals overlay
// ---------------------------------------------------------------------------

/// The request a key of the approvals overlay asks for.
#[derive(Debug)]
pub enum ApprovalsRequest {
    /// Handled here, with this status.
    Done(Option<String>),
    /// Reload the approvals, keeping `current` selected.
    Reload { current: Option<u128> },
    /// Record a decision on an approval.
    Decide { approval_id: u128, decision: crate::labels::ApprovalDecision, remember: bool },
    /// Show the details of the approval at this position.
    Details { index: usize },
}

/// The id of the selected approval, if the selection points at one.
pub open spec fn selected_approval(view: crate::approvals::ApprovalsOverlay) -> Option<u128> {
    if view.selected < view.approvals.len() {
        Some(view.approvals@[view.selected as int].approval_id)
    } else {
        None
    }
}

/// The overlay's own keys (selection, failed-approval jumps, filter, remember).
pub open spec fn approvals_local_key(code: KeyCode) -> bool {
    code == KeyCode::Up || code == KeyCode::Down || code == KeyCode::Char('f') || code == KeyCode::Char(
        'F',
    ) || code == KeyCode::Char('t') || code == KeyCode::Char('m')
}

/// What a key of the approvals overlay does to it, and the request it asks for.
pub open spec fn approvals_request_step(a: crate::approvals::ApprovalsOverlay, b: crate::approvals::ApprovalsOverlay, code: KeyCode, r: ApprovalsRequest) -> bool {
    &&& (b.all_approvals == a.all_approvals)
    &&& (b.thread_id == a.thread_id)
    &&& (approvals_local_key(code) ==> r is Done)
    &&& (!approvals_local_key(code) ==> b.selected == a.selected
                && b.approvals == a.approvals && b.remember == a.remember && b.filter == a.filter && match code {
                KeyCode::Char('r') => r == ApprovalsRequest::Reload { current: selected_approval(a) },
                KeyCode::Char('y') | KeyCode::Char('n') => if a.selected < a.approvals.len()
                    && !a.approvals@[a.selected as int].decided {
                    r == ApprovalsRequest::Decide {
                        approval_id: a.approvals@[a.selected as int].approval_id,
                        decision: if code == KeyCode::Char('y') {
                            crate::labels::ApprovalDecision::Approved
                        } else {
                            crate::labels::ApprovalDecision::Denied
                        },
                        remember: a.remember,
                    }
                } else {
                    r == ApprovalsRequest::Done(None)
                },
                KeyCode::Enter => if a.selected < a.approvals.len() {
                    r == ApprovalsRequest::Details { index: a.selected }
                } else {
                    r == ApprovalsRequest::Done(None)
                },
                _ => r == ApprovalsRequest::Done(None),
            })
}

/// `handle_key_approvals_overlay`, up to its server request: the overlay's
/// own keys; `r` reloads; `y` approves and `n` denies the selected approval
/// when it is still undecided (with the overlay's "remember" choice); Enter
/// shows its details.
pub fn approvals_key_request(view: &mut crate::approvals::ApprovalsOverlay, code: KeyCode) -> (r: ApprovalsRequest)
    requires
        old(view).selected + old(view).approvals.len() < usize::MAX,
    ensures
        approvals_request_step(*old(view), *final(view), code, r),
{
    match crate::approvals::handle_local_approvals_key(view, code) {
        crate::approvals::ApprovalsLocalKeyResult::Handled(status) => return ApprovalsRequest::Done(status),
        crate::approvals::ApprovalsLocalKeyResult::Unhandled => {},
    }
    let selected = view.selected;
    match code {
        KeyCode::Char('r') => {
            let current = if selected < view.approvals.len() {
                Some(view.approvals[selected].approval_id)
            } else {
                None
            };
            ApprovalsRequest::Reload { current }
        },
        KeyCode::Char('y') | KeyCode::Char('n') => {
            if selected >= view.approvals.len() || view.approvals[selected].decided {
                return ApprovalsRequest::Done(None);
            }
            let decision = if code == KeyCode::Char('y') {
                crate::labels::ApprovalDecision::Approved
            } else {
                crate::labels::ApprovalDecision::Denied
            };
            ApprovalsRequest::Decide {
                approval_id: view.approvals[selected].approval_id,
                decision,
                remember: view.remember,
            }
        },
        KeyCode::Enter => {
            if selected >= view.approvals.len() {
                return ApprovalsRequest::Done(None);
            }
            ApprovalsRequest::Details { index: selected }
        },
        _ => ApprovalsRequest::Done(None),
    }
}

/// Shows reloaded approvals, keeping `current` selected within the filter.
pub fn apply_approvals_reload(
    view: &mut crate::approvals::ApprovalsOverlay,
    approvals: Vec<crate::approvals::ApprovalItem>,
    current: Option<u128>,
)
    ensures
        final(view).all_approvals@ == approvals@,
        final(view).approvals@ == crate::approvals::filter_items(approvals@, old(view).filter),
        final(view).selected == crate::approvals::select_spec(final(view).approvals@, current),
        final(view).filter == old(view).filter,
        final(view).remember == old(view).remember,
        final(view).thread_id == old(view).thread_id,
{
    view.all_approvals = approvals;
    crate::approvals::rebuild_filtered_approvals(view, current);
}

/// `approval decided: ID approved|denied`.
pub open spec fn decided_status(approval_id: u128, decision: crate::labels::ApprovalDecision) -> Seq<char> {
    "approval decided: "@ + uuid_text(approval_id) + " "@ + match decision {
        crate::labels::ApprovalDecision::Approved => "approved"@,
        crate::labels::ApprovalDecision::Denied => "denied"@,
    }
}

/// The status shown once a decision is recorded.
pub fn approval_decided_status(approval_id: u128, decision: crate::labels::ApprovalDecision) -> (r: String)
    ensures
        r@ == decided_status(approval_id, decision),
{
    let mut out = String::new();
    push_str(&mut out, "approval decided: ");
    push_uuid(&mut out, approval_id);
    push_str(&mut out, " ");
    push_str(&mut out, crate::labels::approval_decision_str(decision));
    assert(out@ =~= decided_status(approval_id, decision));
    out
}

} // verus!
