//! The palettes the TUI opens: the root palette, the overlay palettes, the
//! pickers for mode, model and policies, and the inline palettes of the
//! composer.
use vstd::prelude::*;
use crate::palette::{
    all_indices, approval_policy_label, normalize_label, normalized_label, opt_text,
    sandbox_network_access_label, sandbox_policy_label, CliApprovalPolicy, CliSandboxNetworkAccess,
    CliSandboxPolicy, CommandPaletteOverlay, PaletteCommand, PaletteItem,
};
use crate::artifacts::ArtifactsOverlay;
use crate::sort::{sort_strings, texts_sorted};
use crate::text::{chars_eq, chars_of, dec, push_dec, push_str, string_of};

verus! {

/// The expected contents of one palette entry.
pub struct ItemSpec {
    pub label: Seq<char>,
    pub detail: Option<Seq<char>>,
    pub action: PaletteCommand,
}

pub open spec fn with_detail_spec(label: Seq<char>, detail: Seq<char>, action: PaletteCommand) -> ItemSpec {
    ItemSpec { label, detail: Some(detail), action }
}

pub open spec fn plain_spec(label: Seq<char>, action: PaletteCommand) -> ItemSpec {
    ItemSpec { label, detail: None, action }
}

pub open spec fn item_is(item: PaletteItem, spec: ItemSpec) -> bool {
    item.label@ == spec.label && opt_text(item.detail) == spec.detail && item.action == spec.action
}

pub open spec fn items_are(items: Seq<PaletteItem>, specs: Seq<ItemSpec>) -> bool {
    items.len() == specs.len() && forall|i: int| 0 <= i < items.len() ==> item_is(#[trigger] items[i], specs[i])
}

/// A freshly built palette: the given title and entries, an empty query, all
/// entries shown and the first selected.
pub open spec fn fresh_palette(p: CommandPaletteOverlay, title: Seq<char>, specs: Seq<ItemSpec>) -> bool {
    &&& p.title@ == title
    &&& p.query@ == Seq::<char>::empty()
    &&& items_are(p.items@, specs)
    &&& p.filtered@ == all_indices(specs.len())
    &&& p.selected == 0
    &&& p.wf()
}

fn item_d(label: &str, detail: &str, action: PaletteCommand) -> (r: PaletteItem)
    ensures
        item_is(r, with_detail_spec(label@, detail@, action)),
{
    PaletteItem::with_detail(string_of(chars_of(label).as_slice()), string_of(chars_of(detail).as_slice()), action)
}

fn item_p(label: &str, action: PaletteCommand) -> (r: PaletteItem)
    ensures
        item_is(r, plain_spec(label@, action)),
{
    PaletteItem::new(string_of(chars_of(label).as_slice()), action)
}

/// Builds the palette and checks it against `specs`.
fn finish(title: &str, items: Vec<PaletteItem>, Ghost(specs): Ghost<Seq<ItemSpec>>) -> (r: CommandPaletteOverlay)
    requires
        items_are(items@, specs),
    ensures
        fresh_palette(r, title@, specs),
{
    CommandPaletteOverlay::new(title, items)
}

// ---------------------------------------------------------------------------
// Overlay palettes
// ---------------------------------------------------------------------------

pub open spec fn artifacts_palette_items(n: nat) -> Seq<ItemSpec> {
    seq![
        plain_spec("back"@, PaletteCommand::ClosePalette),
        with_detail_spec("refresh ("@ + dec(n) + ")"@, "reload artifact list (r)"@, PaletteCommand::ArtifactsRefresh),
        with_detail_spec("select-prev"@, "select previous artifact (↑)"@, PaletteCommand::ArtifactsSelectPrev),
        with_detail_spec("select-next"@, "select next artifact (↓)"@, PaletteCommand::ArtifactsSelectNext),
        with_detail_spec("read"@, "read selected artifact (Enter/i)"@, PaletteCommand::ArtifactsRead),
        with_detail_spec("versions"@, "load versions for selected artifact (v)"@, PaletteCommand::ArtifactsLoadVersions),
        with_detail_spec("versions-reload"@, "force reload versions (R)"@, PaletteCommand::ArtifactsReloadVersions),
        with_detail_spec("version-prev"@, "older version ([)"@, PaletteCommand::ArtifactsPrevVersion),
        with_detail_spec("version-next"@, "newer version (])"@, PaletteCommand::ArtifactsNextVersion),
        with_detail_spec("version-latest"@, "jump to latest version (0)"@, PaletteCommand::ArtifactsLatestVersion),
    ]
}

/// The command palette of the artifacts overlay.
pub fn build_artifacts_overlay_palette(view: &ArtifactsOverlay) -> (r: CommandPaletteOverlay)
    ensures
        fresh_palette(r, "artifacts"@, artifacts_palette_items(view.artifacts.len() as nat)),
{
    let mut items: Vec<PaletteItem> = Vec::new();
    items.push(item_p("back", PaletteCommand::ClosePalette));
    let mut refresh = String::new();
    push_str(&mut refresh, "refresh (");
    push_dec(&mut refresh, view.artifacts.len() as u64);
    push_str(&mut refresh, ")");
    items.push(PaletteItem::with_detail(refresh, string_of(chars_of("reload artifact list (r)").as_slice()), PaletteCommand::ArtifactsRefresh));
    items.push(item_d("select-prev", "select previous artifact (↑)", PaletteCommand::ArtifactsSelectPrev));
    items.push(item_d("select-next", "select next artifact (↓)", PaletteCommand::ArtifactsSelectNext));
    items.push(item_d("read", "read selected artifact (Enter/i)", PaletteCommand::ArtifactsRead));
    items.push(item_d("versions", "load versions for selected artifact (v)", PaletteCommand::ArtifactsLoadVersions));
    items.push(item_d("versions-reload", "force reload versions (R)", PaletteCommand::ArtifactsReloadVersions));
    items.push(item_d("version-prev", "older version ([)", PaletteCommand::ArtifactsPrevVersion));
    items.push(item_d("version-next", "newer version (])", PaletteCommand::ArtifactsNextVersion));
    items.push(item_d("version-latest", "jump to latest version (0)", PaletteCommand::ArtifactsLatestVersion));
    let ghost specs = artifacts_palette_items(view.artifacts.len() as nat);
    assert(items@[1].label@ == specs[1].label);
    finish("artifacts", items, Ghost(specs))
}

pub open spec fn processes_palette_items(n: nat) -> Seq<ItemSpec> {
    seq![
        plain_spec("back"@, PaletteCommand::ClosePalette),
        with_detail_spec("refresh ("@ + dec(n) + ")"@, "reload process list (r)"@, PaletteCommand::ProcessesRefresh),
        with_detail_spec("select-prev"@, "select previous process (↑)"@, PaletteCommand::ProcessesSelectPrev),
        with_detail_spec("select-next"@, "select next process (↓)"@, PaletteCommand::ProcessesSelectNext),
        with_detail_spec("inspect"@, "inspect selected process (Enter/i)"@, PaletteCommand::ProcessesInspect),
        with_detail_spec("kill"@, "kill selected process (k)"@, PaletteCommand::ProcessesKill),
        with_detail_spec("interrupt"@, "interrupt selected process (x)"@, PaletteCommand::ProcessesInterrupt),
    ]
}

/// The command palette of the processes overlay.
pub fn build_processes_overlay_palette(view: &crate::processes::ProcessesOverlay) -> (r: CommandPaletteOverlay)
    ensures
        fresh_palette(r, "processes"@, processes_palette_items(view.processes.len() as nat)),
{
    let mut items: Vec<PaletteItem> = Vec::new();
    items.push(item_p("back", PaletteCommand::ClosePalette));
    let mut refresh = String::new();
    push_str(&mut refresh, "refresh (");
    push_dec(&mut refresh, view.processes.len() as u64);
    push_str(&mut refresh, ")");
    items.push(PaletteItem::with_detail(refresh, string_of(chars_of("reload process list (r)").as_slice()), PaletteCommand::ProcessesRefresh));
    items.push(item_d("select-prev", "select previous process (↑)", PaletteCommand::ProcessesSelectPrev));
    items.push(item_d("select-next", "select next process (↓)", PaletteCommand::ProcessesSelectNext));
    items.push(item_d("inspect", "inspect selected process (Enter/i)", PaletteCommand::ProcessesInspect));
    items.push(item_d("kill", "kill selected process (k)", PaletteCommand::ProcessesKill));
    items.push(item_d("interrupt", "interrupt selected process (x)", PaletteCommand::ProcessesInterrupt));
    let ghost specs = processes_palette_items(view.processes.len() as nat);
    assert(items@[1].label@ == specs[1].label);
    finish("processes", items, Ghost(specs))
}

/// `FILTER (SHOWN/ALL)` for the filter entry.
pub open spec fn approvals_filter_label_text(view: crate::approvals::ApprovalsOverlay) -> Seq<char> {
    "filter="@ + crate::approvals::filter_label_text(view.filter) + " ("@ + dec(view.approvals.len() as nat)
        + "/"@ + dec(view.all_approvals.len() as nat) + ")"@
}

pub open spec fn approvals_palette_items(view: crate::approvals::ApprovalsOverlay) -> Seq<ItemSpec> {
    seq![
        plain_spec("back"@, PaletteCommand::ClosePalette),
        with_detail_spec("refresh"@, "reload approvals (r)"@, PaletteCommand::ApprovalsRefresh),
        with_detail_spec("select-prev"@, "select previous approval (↑)"@, PaletteCommand::ApprovalsSelectPrev),
        with_detail_spec("select-next"@, "select next approval (↓)"@, PaletteCommand::ApprovalsSelectNext),
        with_detail_spec(approvals_filter_label_text(view), "cycle approvals filter (t)"@, PaletteCommand::ApprovalsCycleFilter),
        with_detail_spec("next-failed"@, "jump to next failed/error subagent approval (f)"@, PaletteCommand::ApprovalsNextFailed),
        with_detail_spec("prev-failed"@, "jump to previous failed/error subagent approval (F)"@, PaletteCommand::ApprovalsPrevFailed),
        with_detail_spec("approve"@, "approve selected item (y)"@, PaletteCommand::ApprovalsApprove),
        with_detail_spec("deny"@, "deny selected item (n)"@, PaletteCommand::ApprovalsDeny),
        with_detail_spec("remember="@ + on_off(view.remember), "toggle remember (m)"@, PaletteCommand::ApprovalsToggleRemember),
        with_detail_spec("details"@, "open selected approval details (Enter)"@, PaletteCommand::ApprovalsOpenDetails),
    ]
}

/// The command palette of the approvals overlay.
pub fn build_approvals_overlay_palette(view: &crate::approvals::ApprovalsOverlay) -> (r: CommandPaletteOverlay)
    ensures
        fresh_palette(r, "approvals"@, approvals_palette_items(*view)),
{
    let mut items: Vec<PaletteItem> = Vec::new();
    items.push(item_p("back", PaletteCommand::ClosePalette));
    items.push(item_d("refresh", "reload approvals (r)", PaletteCommand::ApprovalsRefresh));
    items.push(item_d("select-prev", "select previous approval (↑)", PaletteCommand::ApprovalsSelectPrev));
    items.push(item_d("select-next", "select next approval (↓)", PaletteCommand::ApprovalsSelectNext));
    let mut filter = String::new();
    push_str(&mut filter, "filter=");
    push_str(&mut filter, crate::approvals::approval_filter_label(view.filter));
    push_str(&mut filter, " (");
    push_dec(&mut filter, view.approvals.len() as u64);
    push_str(&mut filter, "/");
    push_dec(&mut filter, view.all_approvals.len() as u64);
    push_str(&mut filter, ")");
    items.push(PaletteItem::with_detail(filter, string_of(chars_of("cycle approvals filter (t)").as_slice()), PaletteCommand::ApprovalsCycleFilter));
    items.push(item_d("next-failed", "jump to next failed/error subagent approval (f)", PaletteCommand::ApprovalsNextFailed));
    items.push(item_d("prev-failed", "jump to previous failed/error subagent approval (F)", PaletteCommand::ApprovalsPrevFailed));
    items.push(item_d("approve", "approve selected item (y)", PaletteCommand::ApprovalsApprove));
    items.push(item_d("deny", "deny selected item (n)", PaletteCommand::ApprovalsDeny));
    let mut remember = String::new();
    push_str(&mut remember, "remember=");
    if view.remember {
        push_str(&mut remember, "on");
    } else {
        push_str(&mut remember, "off");
    }
    items.push(PaletteItem::with_detail(remember, string_of(chars_of("toggle remember (m)").as_slice()), PaletteCommand::ApprovalsToggleRemember));
    items.push(item_d("details", "open selected approval details (Enter)", PaletteCommand::ApprovalsOpenDetails));
    let ghost specs = approvals_palette_items(*view);
    assert(items@[4].label@ == specs[4].label);
    assert(items@[9].label@ == specs[9].label);
    finish("approvals", items, Ghost(specs))
}

// ---------------------------------------------------------------------------
// Mode and model pickers
// ---------------------------------------------------------------------------

pub open spec fn opt_str(o: Option<&str>) -> Option<Seq<char>> {
    match o {
        Some(s) => Some(s@),
        None => None,
    }
}

/// `label`, marked with `*` when `value` is the current one.
pub open spec fn mark_current(label: Seq<char>, value: Seq<char>, current: Option<Seq<char>>) -> Seq<char> {
    if current == Some(value) {
        label + "*"@
    } else {
        label
    }
}

/// One entry per mode, labelled by its normalized name.
pub open spec fn mode_items(modes: Seq<String>, current: Option<Seq<char>>) -> Seq<ItemSpec> {
    Seq::new(
        modes.len(),
        |i: int| plain_spec(mark_current(normalized_label(modes[i]@), modes[i]@, current), PaletteCommand::SetMode(modes[i])),
    )
}

/// One entry per model, labelled by its name.
pub open spec fn model_items(models: Seq<String>, current: Option<Seq<char>>) -> Seq<ItemSpec> {
    Seq::new(
        models.len(),
        |i: int| plain_spec(mark_current(models[i]@, models[i]@, current), PaletteCommand::SetModel(models[i])),
    )
}

fn is_current(current: Option<&str>, value: &String) -> (r: bool)
    ensures
        r == (opt_str(current) == Some(value@)),
{
    match current {
        Some(c) => {
            let cc = chars_of(c);
            let vc = chars_of(value.as_str());
            chars_eq(cc.as_slice(), vc.as_slice())
        },
        None => false,
    }
}

fn with_star(label: String, marked: bool) -> (r: String)
    ensures
        r@ == (if marked { label@ + "*"@ } else { label@ }),
{
    if marked {
        let mut l = label;
        push_str(&mut l, "*");
        l
    } else {
        label
    }
}

/// Appends one mode entry per mode to `items`.
fn push_mode_items(items: &mut Vec<PaletteItem>, modes: Vec<String>, current: Option<&str>, inline: bool)
    ensures
        inline ==> items_are(final(items)@.skip(old(items).len() as int), inline_role_items(modes@, opt_str(current))),
        !inline ==> items_are(final(items)@.skip(old(items).len() as int), mode_items(modes@, opt_str(current))),
        final(items)@.take(old(items).len() as int) == old(items)@,
        final(items).len() >= old(items).len(),
{
    let ghost start = items.len();
    let ghost specs = if inline { inline_role_items(modes@, opt_str(current)) } else { mode_items(modes@, opt_str(current)) };
    let mut i: usize = 0;
    while i < modes.len()
        invariant
            i <= modes.len(),
            start == old(items).len(),
            specs == (if inline { inline_role_items(modes@, opt_str(current)) } else { mode_items(modes@, opt_str(current)) }),
            items.len() == start + i,
            items@.take(start as int) == old(items)@,
            forall|k: int| 0 <= k < i ==> item_is(#[trigger] items@[start + k], specs[k]),
        decreases modes.len() - i,
    {
        let mode = modes[i].clone();
        let marked = is_current(current, &mode);
        let norm = normalize_label(mode.as_str());
        let label = with_star(norm, marked);
        let item = if inline {
            let mut l = String::new();
            push_str(&mut l, "@");
            push_str(&mut l, label.as_str());
            PaletteItem::with_detail(l, string_of(chars_of("role").as_slice()), PaletteCommand::SetMode(mode))
        } else {
            PaletteItem::new(label, PaletteCommand::SetMode(mode))
        };
        let ghost before = items@;
        items.push(item);
        assert(items@.take(start as int) =~= before.take(start as int));
        i += 1;
    }
    assert(items@.skip(start as int).len() == specs.len());
    assert forall|k: int| 0 <= k < specs.len() implies item_is(#[trigger] items@.skip(start as int)[k], specs[k]) by {
        assert(items@.skip(start as int)[k] == items@[start + k]);
    }
}

/// One entry per model (already sorted), labelled by its name.
fn push_model_items(items: &mut Vec<PaletteItem>, models: Vec<String>, current: Option<&str>)
    ensures
        items_are(final(items)@.skip(old(items).len() as int), model_items(models@, opt_str(current))),
        final(items)@.take(old(items).len() as int) == old(items)@,
        final(items).len() >= old(items).len(),
{
    let ghost start = items.len();
    let ghost specs = model_items(models@, opt_str(current));
    let mut i: usize = 0;
    while i < models.len()
        invariant
            i <= models.len(),
            start == old(items).len(),
            specs == model_items(models@, opt_str(current)),
            items.len() == start + i,
            items@.take(start as int) == old(items)@,
            forall|k: int| 0 <= k < i ==> item_is(#[trigger] items@[start + k], specs[k]),
        decreases models.len() - i,
    {
        let model = models[i].clone();
        let marked = is_current(current, &model);
        let label = with_star(model.clone(), marked);
        let ghost before = items@;
        items.push(PaletteItem::new(label, PaletteCommand::SetModel(model)));
        assert(items@.take(start as int) =~= before.take(start as int));
        i += 1;
    }
    assert forall|k: int| 0 <= k < specs.len() implies item_is(#[trigger] items@.skip(start as int)[k], specs[k]) by {
        assert(items@.skip(start as int)[k] == items@[start + k]);
    }
}

proof fn lemma_items_concat(items: Seq<PaletteItem>, n: int, head: Seq<ItemSpec>, tail: Seq<ItemSpec>)
    requires
        0 <= n <= items.len(),
        items_are(items.take(n), head),
        items_are(items.skip(n), tail),
    ensures
        items_are(items, head + tail),
{
    assert forall|i: int| 0 <= i < items.len() implies item_is(#[trigger] items[i], (head + tail)[i]) by {
        if i < n {
            assert(items.take(n)[i] == items[i]);
        } else {
            assert(items.skip(n)[i - n] == items[i]);
        }
    }
}

/// The mode picker: "back", then one entry per mode in the given order.
pub fn build_mode_palette(modes: Vec<String>, current: Option<&str>) -> (r: CommandPaletteOverlay)
    ensures
        fresh_palette(r, "mode"@, seq![plain_spec("back"@, PaletteCommand::OpenRoot)] + mode_items(modes@, opt_str(current))),
{
    let mut items: Vec<PaletteItem> = Vec::new();
    items.push(item_p("back", PaletteCommand::OpenRoot));
    let ghost head = seq![plain_spec("back"@, PaletteCommand::OpenRoot)];
    assert(items_are(items@.take(1), head));
    let ghost ms = modes@;
    push_mode_items(&mut items, modes, current, false);
    proof {
        lemma_items_concat(items@, 1, head, mode_items(ms, opt_str(current)));
    }
    finish("mode", items, Ghost(head + mode_items(ms, opt_str(current))))
}

/// The model picker: "back", then one entry per model in sorted order.
pub fn build_model_palette(models: Vec<String>, current: Option<&str>) -> (r: CommandPaletteOverlay)
    ensures
        exists|sorted: Seq<String>|
            texts_sorted(sorted) && sorted.to_multiset() == models@.to_multiset() && fresh_palette(
                r,
                "model"@,
                seq![plain_spec("back"@, PaletteCommand::OpenRoot)] + model_items(sorted, opt_str(current)),
            ),
{
    let models = sort_strings(models);
    let ghost sorted = models@;
    let mut items: Vec<PaletteItem> = Vec::new();
    items.push(item_p("back", PaletteCommand::OpenRoot));
    let ghost head = seq![plain_spec("back"@, PaletteCommand::OpenRoot)];
    assert(items_are(items@.take(1), head));
    push_model_items(&mut items, models, current);
    proof {
        lemma_items_concat(items@, 1, head, model_items(sorted, opt_str(current)));
    }
    finish("model", items, Ghost(head + model_items(sorted, opt_str(current))))
}

/// The model picker while models load.
pub fn build_model_loading_palette() -> (r: CommandPaletteOverlay)
    ensures
        fresh_palette(r, "model"@, seq![
            plain_spec("loading models..."@, PaletteCommand::Noop),
            plain_spec("type model and press enter"@, PaletteCommand::Noop),
        ]),
{
    let mut items: Vec<PaletteItem> = Vec::new();
    items.push(item_p("loading models...", PaletteCommand::Noop));
    items.push(item_p("type model and press enter", PaletteCommand::Noop));
    let ghost specs = seq![
        plain_spec("loading models..."@, PaletteCommand::Noop),
        plain_spec("type model and press enter"@, PaletteCommand::Noop),
    ];
    finish("model", items, Ghost(specs))
}

/// The model picker after loading models failed with `error`.
pub fn build_model_error_palette(error: &str) -> (r: CommandPaletteOverlay)
    ensures
        fresh_palette(r, "model"@, seq![
            plain_spec("error: "@ + error@, PaletteCommand::Noop),
            plain_spec("retry"@, PaletteCommand::PickModel),
            plain_spec("type model and press enter"@, PaletteCommand::Noop),
            plain_spec("back"@, PaletteCommand::OpenRoot),
        ]),
{
    let mut items: Vec<PaletteItem> = Vec::new();
    let mut l = String::new();
    push_str(&mut l, "error: ");
    push_str(&mut l, error);
    items.push(PaletteItem::new(l, PaletteCommand::Noop));
    items.push(item_p("retry", PaletteCommand::PickModel));
    items.push(item_p("type model and press enter", PaletteCommand::Noop));
    items.push(item_p("back", PaletteCommand::OpenRoot));
    let ghost specs = seq![
        plain_spec("error: "@ + error@, PaletteCommand::Noop),
        plain_spec("retry"@, PaletteCommand::PickModel),
        plain_spec("type model and press enter"@, PaletteCommand::Noop),
        plain_spec("back"@, PaletteCommand::OpenRoot),
    ];
    finish("model", items, Ghost(specs))
}

// ---------------------------------------------------------------------------
// Policy pickers
// ---------------------------------------------------------------------------

pub open spec fn approval_policy_text(p: CliApprovalPolicy) -> Seq<char> {
    match p {
        CliApprovalPolicy::AutoApprove => "auto_approve"@,
        CliApprovalPolicy::OnRequest => "on_request"@,
        CliApprovalPolicy::Manual => "manual"@,
        CliApprovalPolicy::UnlessTrusted => "unless_trusted"@,
        CliApprovalPolicy::AutoDeny => "auto_deny"@,
    }
}

pub open spec fn sandbox_policy_text(p: CliSandboxPolicy) -> Seq<char> {
    match p {
        CliSandboxPolicy::ReadOnly => "read_only"@,
        CliSandboxPolicy::WorkspaceWrite => "workspace_write"@,
        CliSandboxPolicy::DangerFullAccess => "danger_full_access"@,
    }
}

pub open spec fn network_text(p: CliSandboxNetworkAccess) -> Seq<char> {
    match p {
        CliSandboxNetworkAccess::Deny => "deny"@,
        CliSandboxNetworkAccess::Allow => "allow"@,
    }
}

pub open spec fn approval_policy_item(p: CliApprovalPolicy) -> ItemSpec {
    plain_spec("approval-policy="@ + approval_policy_text(p), PaletteCommand::SetApprovalPolicy(p))
}

pub open spec fn sandbox_policy_item(p: CliSandboxPolicy) -> ItemSpec {
    plain_spec("sandbox-policy="@ + sandbox_policy_text(p), PaletteCommand::SetSandboxPolicy(p))
}

pub open spec fn network_item(p: CliSandboxNetworkAccess) -> ItemSpec {
    plain_spec("sandbox-network="@ + network_text(p), PaletteCommand::SetSandboxNetworkAccess(p))
}

/// The approval policies in the order the pickers list them.
pub open spec fn approval_policy_items() -> Seq<ItemSpec> {
    seq![
        approval_policy_item(CliApprovalPolicy::AutoApprove),
        approval_policy_item(CliApprovalPolicy::OnRequest),
        approval_policy_item(CliApprovalPolicy::Manual),
        approval_policy_item(CliApprovalPolicy::UnlessTrusted),
        approval_policy_item(CliApprovalPolicy::AutoDeny),
    ]
}

pub open spec fn sandbox_policy_items() -> Seq<ItemSpec> {
    seq![
        sandbox_policy_item(CliSandboxPolicy::ReadOnly),
        sandbox_policy_item(CliSandboxPolicy::WorkspaceWrite),
        sandbox_policy_item(CliSandboxPolicy::DangerFullAccess),
    ]
}

pub open spec fn network_items() -> Seq<ItemSpec> {
    seq![network_item(CliSandboxNetworkAccess::Deny), network_item(CliSandboxNetworkAccess::Allow)]
}

fn approval_policy_entry(p: CliApprovalPolicy) -> (r: PaletteItem)
    ensures
        item_is(r, approval_policy_item(p)),
{
    let mut l = String::new();
    push_str(&mut l, "approval-policy=");
    push_str(&mut l, approval_policy_label(p));
    PaletteItem::new(l, PaletteCommand::SetApprovalPolicy(p))
}

fn sandbox_policy_entry(p: CliSandboxPolicy) -> (r: PaletteItem)
    ensures
        item_is(r, sandbox_policy_item(p)),
{
    let mut l = String::new();
    push_str(&mut l, "sandbox-policy=");
    push_str(&mut l, sandbox_policy_label(p));
    PaletteItem::new(l, PaletteCommand::SetSandboxPolicy(p))
}

fn network_entry(p: CliSandboxNetworkAccess) -> (r: PaletteItem)
    ensures
        item_is(r, network_item(p)),
{
    let mut l = String::new();
    push_str(&mut l, "sandbox-network=");
    push_str(&mut l, sandbox_network_access_label(p));
    PaletteItem::new(l, PaletteCommand::SetSandboxNetworkAccess(p))
}

fn push_approval_policies(items: &mut Vec<PaletteItem>)
    ensures
        final(items)@.take(old(items).len() as int) == old(items)@,
        final(items).len() >= old(items).len(),
        items_are(final(items)@.skip(old(items).len() as int), approval_policy_items()),
{
    let ghost start = items.len();
    items.push(approval_policy_entry(CliApprovalPolicy::AutoApprove));
    items.push(approval_policy_entry(CliApprovalPolicy::OnRequest));
    items.push(approval_policy_entry(CliApprovalPolicy::Manual));
    items.push(approval_policy_entry(CliApprovalPolicy::UnlessTrusted));
    items.push(approval_policy_entry(CliApprovalPolicy::AutoDeny));
    assert(items@.take(start as int) =~= old(items)@);
    assert forall|k: int| 0 <= k < 5 implies item_is(#[trigger] items@.skip(start as int)[k], approval_policy_items()[k]) by {
        assert(items@.skip(start as int)[k] == items@[start + k]);
    }
}

fn push_sandbox_policies(items: &mut Vec<PaletteItem>)
    ensures
        final(items)@.take(old(items).len() as int) == old(items)@,
        final(items).len() >= old(items).len(),
        items_are(final(items)@.skip(old(items).len() as int), sandbox_policy_items()),
{
    let ghost start = items.len();
    items.push(sandbox_policy_entry(CliSandboxPolicy::ReadOnly));
    items.push(sandbox_policy_entry(CliSandboxPolicy::WorkspaceWrite));
    items.push(sandbox_policy_entry(CliSandboxPolicy::DangerFullAccess));
    assert(items@.take(start as int) =~= old(items)@);
    assert forall|k: int| 0 <= k < 3 implies item_is(#[trigger] items@.skip(start as int)[k], sandbox_policy_items()[k]) by {
        assert(items@.skip(start as int)[k] == items@[start + k]);
    }
}

fn push_network_values(items: &mut Vec<PaletteItem>)
    ensures
        final(items)@.take(old(items).len() as int) == old(items)@,
        final(items).len() >= old(items).len(),
        items_are(final(items)@.skip(old(items).len() as int), network_items()),
{
    let ghost start = items.len();
    items.push(network_entry(CliSandboxNetworkAccess::Deny));
    items.push(network_entry(CliSandboxNetworkAccess::Allow));
    assert(items@.take(start as int) =~= old(items)@);
    assert forall|k: int| 0 <= k < 2 implies item_is(#[trigger] items@.skip(start as int)[k], network_items()[k]) by {
        assert(items@.skip(start as int)[k] == items@[start + k]);
    }
}

/// The approval policy picker: "back", then the policies.
pub fn build_approval_policy_palette() -> (r: CommandPaletteOverlay)
    ensures
        fresh_palette(r, "approval-policy"@, seq![plain_spec("back"@, PaletteCommand::OpenRoot)] + approval_policy_items()),
{
    let mut items: Vec<PaletteItem> = Vec::new();
    items.push(item_p("back", PaletteCommand::OpenRoot));
    let ghost head = seq![plain_spec("back"@, PaletteCommand::OpenRoot)];
    assert(items_are(items@.take(1), head));
    push_approval_policies(&mut items);
    proof {
        lemma_items_concat(items@, 1, head, approval_policy_items());
    }
    finish("approval-policy", items, Ghost(head + approval_policy_items()))
}

/// The sandbox policy picker: "back", then the policies.
pub fn build_sandbox_policy_palette() -> (r: CommandPaletteOverlay)
    ensures
        fresh_palette(r, "sandbox-policy"@, seq![plain_spec("back"@, PaletteCommand::OpenRoot)] + sandbox_policy_items()),
{
    let mut items: Vec<PaletteItem> = Vec::new();
    items.push(item_p("back", PaletteCommand::OpenRoot));
    let ghost head = seq![plain_spec("back"@, PaletteCommand::OpenRoot)];
    assert(items_are(items@.take(1), head));
    push_sandbox_policies(&mut items);
    proof {
        lemma_items_concat(items@, 1, head, sandbox_policy_items());
    }
    finish("sandbox-policy", items, Ghost(head + sandbox_policy_items()))
}

/// The network access picker: "back", then deny and allow.
pub fn build_sandbox_network_access_palette() -> (r: CommandPaletteOverlay)
    ensures
        fresh_palette(r, "sandbox-network"@, seq![plain_spec("back"@, PaletteCommand::OpenRoot)] + network_items()),
{
    let mut items: Vec<PaletteItem> = Vec::new();
    items.push(item_p("back", PaletteCommand::OpenRoot));
    let ghost head = seq![plain_spec("back"@, PaletteCommand::OpenRoot)];
    assert(items_are(items@.take(1), head));
    push_network_values(&mut items);
    proof {
        lemma_items_concat(items@, 1, head, network_items());
    }
    finish("sandbox-network", items, Ghost(head + network_items()))
}

/// The inline approval policy palette.
pub fn build_inline_approval_policy_palette() -> (r: CommandPaletteOverlay)
    ensures
        fresh_palette(r, "approval-policy"@, approval_policy_items()),
{
    let mut items: Vec<PaletteItem> = Vec::new();
    push_approval_policies(&mut items);
    assert(items@.skip(0) =~= items@);
    finish("approval-policy", items, Ghost(approval_policy_items()))
}

/// The inline sandbox policy palette.
pub fn build_inline_sandbox_policy_palette() -> (r: CommandPaletteOverlay)
    ensures
        fresh_palette(r, "sandbox-policy"@, sandbox_policy_items()),
{
    let mut items: Vec<PaletteItem> = Vec::new();
    push_sandbox_policies(&mut items);
    assert(items@.skip(0) =~= items@);
    finish("sandbox-policy", items, Ghost(sandbox_policy_items()))
}

/// The inline network access palette.
pub fn build_inline_sandbox_network_access_palette() -> (r: CommandPaletteOverlay)
    ensures
        fresh_palette(r, "sandbox-network"@, network_items()),
{
    let mut items: Vec<PaletteItem> = Vec::new();
    push_network_values(&mut items);
    assert(items@.skip(0) =~= items@);
    finish("sandbox-network", items, Ghost(network_items()))
}

// ---------------------------------------------------------------------------
// Inline palettes
// ---------------------------------------------------------------------------

/// One `@role` entry per mode.
pub open spec fn inline_role_items(modes: Seq<String>, current: Option<Seq<char>>) -> Seq<ItemSpec> {
    Seq::new(
        modes.len(),
        |i: int| with_detail_spec("@"@ + mark_current(normalized_label(modes[i]@), modes[i]@, current), "role"@, PaletteCommand::SetMode(modes[i])),
    )
}

/// One `$skill` entry per skill.
pub open spec fn inline_skill_items(skills: Seq<String>) -> Seq<ItemSpec> {
    Seq::new(
        skills.len(),
        |i: int| with_detail_spec("$"@ + normalized_label(skills[i]@), "skill"@, PaletteCommand::InsertSkill(skills[i])),
    )
}

/// The inline role palette: one `@role` entry per mode, sorted.
pub fn build_inline_role_palette(modes: Vec<String>, current: Option<&str>) -> (r: CommandPaletteOverlay)
    ensures
        exists|sorted: Seq<String>|
            texts_sorted(sorted) && sorted.to_multiset() == modes@.to_multiset() && fresh_palette(
                r,
                "roles"@,
                inline_role_items(sorted, opt_str(current)),
            ),
{
    let modes = sort_strings(modes);
    let ghost sorted = modes@;
    let mut items: Vec<PaletteItem> = Vec::new();
    push_mode_items(&mut items, modes, current, true);
    assert(items@.skip(0) =~= items@);
    finish("roles", items, Ghost(inline_role_items(sorted, opt_str(current))))
}

/// The inline skill palette: one `$skill` entry per skill, sorted.
pub fn build_inline_skill_palette(skills: Vec<String>) -> (r: CommandPaletteOverlay)
    ensures
        exists|sorted: Seq<String>|
            texts_sorted(sorted) && sorted.to_multiset() == skills@.to_multiset() && fresh_palette(
                r,
                "skills"@,
                inline_skill_items(sorted),
            ),
{
    let skills = sort_strings(skills);
    let ghost sorted = skills@;
    let ghost specs = inline_skill_items(sorted);
    let mut items: Vec<PaletteItem> = Vec::new();
    let mut i: usize = 0;
    while i < skills.len()
        invariant
            i <= skills.len(),
            skills@ == sorted,
            specs == inline_skill_items(sorted),
            items.len() == i,
            forall|k: int| 0 <= k < i ==> item_is(#[trigger] items@[k], specs[k]),
        decreases skills.len() - i,
    {
        let skill = skills[i].clone();
        let norm = normalize_label(skill.as_str());
        let mut l = String::new();
        push_str(&mut l, "$");
        push_str(&mut l, norm.as_str());
        items.push(PaletteItem::with_detail(l, string_of(chars_of("skill").as_slice()), PaletteCommand::InsertSkill(skill)));
        i += 1;
    }
    finish("skills", items, Ghost(specs))
}

/// The inline model palette: one entry per model, sorted.
pub fn build_inline_model_palette(models: Vec<String>, current: Option<&str>) -> (r: CommandPaletteOverlay)
    ensures
        exists|sorted: Seq<String>|
            texts_sorted(sorted) && sorted.to_multiset() == models@.to_multiset() && fresh_palette(
                r,
                "model"@,
                model_items(sorted, opt_str(current)),
            ),
{
    let models = sort_strings(models);
    let ghost sorted = models@;
    let mut items: Vec<PaletteItem> = Vec::new();
    push_model_items(&mut items, models, current);
    assert(items@.skip(0) =~= items@);
    finish("model", items, Ghost(model_items(sorted, opt_str(current))))
}

/// The inline execpolicy rules palette.
pub fn build_inline_execpolicy_rules_palette() -> (r: CommandPaletteOverlay)
    ensures
        fresh_palette(r, "execpolicy-rules"@, seq![
            plain_spec("clear"@, PaletteCommand::ClearExecpolicyRules),
            plain_spec("type comma-separated paths"@, PaletteCommand::Noop),
        ]),
{
    let mut items: Vec<PaletteItem> = Vec::new();
    items.push(item_p("clear", PaletteCommand::ClearExecpolicyRules));
    items.push(item_p("type comma-separated paths", PaletteCommand::Noop));
    let ghost specs = seq![
        plain_spec("clear"@, PaletteCommand::ClearExecpolicyRules),
        plain_spec("type comma-separated paths"@, PaletteCommand::Noop),
    ];
    finish("execpolicy-rules", items, Ghost(specs))
}

// ---------------------------------------------------------------------------
// Command palettes
// ---------------------------------------------------------------------------

/// The inline command palette's entries; thread commands only with an active thread.
pub open spec fn inline_command_items(active_thread: bool) -> Seq<ItemSpec> {
    let head = seq![
        with_detail_spec("/new"@, "new thread"@, PaletteCommand::NewThread),
        with_detail_spec("/threads"@, "thread picker"@, PaletteCommand::ThreadPicker),
        with_detail_spec("/refresh"@, "refresh threads"@, PaletteCommand::RefreshThreads),
    ];
    let thread = seq![
        with_detail_spec("/approvals"@, "approval list"@, PaletteCommand::OpenApprovals),
        with_detail_spec("/processes"@, "process list"@, PaletteCommand::OpenProcesses),
        with_detail_spec("/artifacts"@, "artifact list"@, PaletteCommand::OpenArtifacts),
        with_detail_spec("/mode"@, "select role"@, PaletteCommand::PickMode),
        with_detail_spec("/model"@, "select model"@, PaletteCommand::PickModel),
        with_detail_spec("/approval-policy"@, "approval policy"@, PaletteCommand::PickApprovalPolicy),
        with_detail_spec("/sandbox-policy"@, "sandbox policy"@, PaletteCommand::PickSandboxPolicy),
        with_detail_spec("/sandbox-network"@, "network access"@, PaletteCommand::PickSandboxNetworkAccess),
        with_detail_spec("/allowed-tools"@, "thread tool allowlist"@, PaletteCommand::PickAllowedTools),
        with_detail_spec("/execpolicy-rules"@, "thread execpolicy rules"@, PaletteCommand::PickExecpolicyRules),
    ];
    let tail = seq![
        with_detail_spec("/help"@, "show help"@, PaletteCommand::Help),
        with_detail_spec("/quit"@, "quit"@, PaletteCommand::Quit),
    ];
    if active_thread {
        head + thread + tail
    } else {
        head + tail
    }
}

/// The inline `/` command palette.
pub fn build_inline_command_palette(active_thread: bool) -> (r: CommandPaletteOverlay)
    ensures
        fresh_palette(r, "commands"@, inline_command_items(active_thread)),
{
    let mut items: Vec<PaletteItem> = Vec::new();
    items.push(item_d("/new", "new thread", PaletteCommand::NewThread));
    items.push(item_d("/threads", "thread picker", PaletteCommand::ThreadPicker));
    items.push(item_d("/refresh", "refresh threads", PaletteCommand::RefreshThreads));
    if active_thread {
        items.push(item_d("/approvals", "approval list", PaletteCommand::OpenApprovals));
        items.push(item_d("/processes", "process list", PaletteCommand::OpenProcesses));
        items.push(item_d("/artifacts", "artifact list", PaletteCommand::OpenArtifacts));
        items.push(item_d("/mode", "select role", PaletteCommand::PickMode));
        items.push(item_d("/model", "select model", PaletteCommand::PickModel));
        items.push(item_d("/approval-policy", "approval policy", PaletteCommand::PickApprovalPolicy));
        items.push(item_d("/sandbox-policy", "sandbox policy", PaletteCommand::PickSandboxPolicy));
        items.push(item_d("/sandbox-network", "network access", PaletteCommand::PickSandboxNetworkAccess));
        items.push(item_d("/allowed-tools", "thread tool allowlist", PaletteCommand::PickAllowedTools));
        items.push(item_d("/execpolicy-rules", "thread execpolicy rules", PaletteCommand::PickExecpolicyRules));
    }
    items.push(item_d("/help", "show help", PaletteCommand::Help));
    items.push(item_d("/quit", "quit", PaletteCommand::Quit));
    let ghost specs = inline_command_items(active_thread);
    assert(items_are(items@, specs));
    finish("commands", items, Ghost(specs))
}

/// The tools the allowed-tools palette offers.
pub open spec fn known_allowed_tools() -> Seq<Seq<char>> {
    seq![
        "file/read"@, "file/glob"@, "file/grep"@, "file/write"@, "file/patch"@, "file/edit"@,
        "file/delete"@, "fs/mkdir"@, "repo/search"@, "repo/index"@, "repo/symbols"@,
        "mcp/list_servers"@, "mcp/list_tools"@, "mcp/list_resources"@, "mcp/call"@,
        "artifact/write"@, "artifact/list"@, "artifact/read"@, "artifact/versions"@,
        "artifact/delete"@, "process/start"@, "process/list"@, "process/inspect"@,
        "process/kill"@, "process/interrupt"@, "process/tail"@, "process/follow"@,
    ]
}

/// An entry that sets the tool allowlist to `tool`.
pub open spec fn tool_entry_ok(item: PaletteItem, tool: Seq<char>) -> bool {
    &&& item.label@ == tool
    &&& item.detail is None
    &&& item.action matches PaletteCommand::SetAllowedTools(t) && t@ == tool
}

fn tool_entry(tool: &str) -> (r: PaletteItem)
    ensures
        tool_entry_ok(r, tool@),
{
    PaletteItem::new(string_of(chars_of(tool).as_slice()), PaletteCommand::SetAllowedTools(string_of(chars_of(tool).as_slice())))
}

/// The inline allowed-tools palette: "clear", then one entry per known tool.
pub fn build_inline_allowed_tools_palette() -> (r: CommandPaletteOverlay)
    ensures
        r.title@ == "allowed-tools"@,
        r.query@ == Seq::<char>::empty(),
        r.items.len() == 1 + known_allowed_tools().len(),
        item_is(r.items@[0], plain_spec("clear"@, PaletteCommand::ClearAllowedTools)),
        forall|i: int| 0 <= i < known_allowed_tools().len() ==> tool_entry_ok(#[trigger] r.items@[i + 1], known_allowed_tools()[i]),
        r.filtered@ == all_indices(r.items.len() as nat),
        r.selected == 0,
        r.wf(),
{
    let mut items: Vec<PaletteItem> = Vec::new();
    items.push(item_p("clear", PaletteCommand::ClearAllowedTools));
    items.push(tool_entry("file/read"));
    items.push(tool_entry("file/glob"));
    items.push(tool_entry("file/grep"));
    items.push(tool_entry("file/write"));
    items.push(tool_entry("file/patch"));
    items.push(tool_entry("file/edit"));
    items.push(tool_entry("file/delete"));
    items.push(tool_entry("fs/mkdir"));
    items.push(tool_entry("repo/search"));
    items.push(tool_entry("repo/index"));
    items.push(tool_entry("repo/symbols"));
    items.push(tool_entry("mcp/list_servers"));
    items.push(tool_entry("mcp/list_tools"));
    items.push(tool_entry("mcp/list_resources"));
    items.push(tool_entry("mcp/call"));
    items.push(tool_entry("artifact/write"));
    items.push(tool_entry("artifact/list"));
    items.push(tool_entry("artifact/read"));
    items.push(tool_entry("artifact/versions"));
    items.push(tool_entry("artifact/delete"));
    items.push(tool_entry("process/start"));
    items.push(tool_entry("process/list"));
    items.push(tool_entry("process/inspect"));
    items.push(tool_entry("process/kill"));
    items.push(tool_entry("process/interrupt"));
    items.push(tool_entry("process/tail"));
    items.push(tool_entry("process/follow"));
    let ghost snapshot = items@;
    let r = CommandPaletteOverlay::new("allowed-tools", items);
    assert(r.items@ == snapshot);
    r
}

/// What the root palette shows of the UI state.
pub struct RootPaletteState {
    pub include_archived: bool,
    pub only_fan_out_linkage_issue: bool,
    pub only_fan_out_auto_apply_error: bool,
    pub only_fan_in_dependency_blocked: bool,
    pub only_subagent_proxy_approval: bool,
    /// Whether a thread is open.
    pub active_thread: bool,
    pub mode: Option<String>,
    pub model: Option<String>,
    pub allowed_tools_count: Option<usize>,
    pub execpolicy_rules_count: usize,
}

pub open spec fn on_off(b: bool) -> Seq<char> {
    if b {
        "on"@
    } else {
        "off"@
    }
}

pub open spec fn or_dash(o: Option<String>) -> Seq<char> {
    match o {
        Some(s) => s@,
        None => "-"@,
    }
}

/// The root palette's thread picker entries.
pub open spec fn root_head(s: RootPaletteState) -> Seq<ItemSpec> {
    seq![
        with_detail_spec("new"@, "new thread"@, PaletteCommand::NewThread),
        with_detail_spec("threads"@, "thread picker"@, PaletteCommand::ThreadPicker),
        with_detail_spec("refresh"@, "refresh threads"@, PaletteCommand::RefreshThreads),
        with_detail_spec("archived="@ + on_off(s.include_archived), "include archived threads"@, PaletteCommand::ToggleIncludeArchived),
        with_detail_spec("linkage-filter="@ + on_off(s.only_fan_out_linkage_issue), "thread picker filter"@, PaletteCommand::ToggleLinkageFilter),
        with_detail_spec("auto-apply-filter="@ + on_off(s.only_fan_out_auto_apply_error), "thread picker filter"@, PaletteCommand::ToggleAutoApplyErrorFilter),
        with_detail_spec("fan-in-filter="@ + on_off(s.only_fan_in_dependency_blocked), "thread picker filter"@, PaletteCommand::ToggleFanInDependencyBlockedFilter),
        with_detail_spec("subagent-filter="@ + on_off(s.only_subagent_proxy_approval), "thread picker filter"@, PaletteCommand::ToggleSubagentProxyApprovalFilter),
        with_detail_spec("clear-filters"@, "reset thread picker filters"@, PaletteCommand::ClearThreadFilters),
    ]
}

/// The root palette's entries for the open thread.
pub open spec fn root_thread(s: RootPaletteState) -> Seq<ItemSpec> {
    let allowed = match s.allowed_tools_count {
        Some(n) => dec(n as nat),
        None => "*"@,
    };
    seq![
        with_detail_spec("approvals"@, "approval list"@, PaletteCommand::OpenApprovals),
        with_detail_spec("processes"@, "process list"@, PaletteCommand::OpenProcesses),
        with_detail_spec("artifacts"@, "artifact list"@, PaletteCommand::OpenArtifacts),
        with_detail_spec("mode="@ + normalized_label(or_dash(s.mode)), "select role"@, PaletteCommand::PickMode),
        with_detail_spec("model="@ + or_dash(s.model), "select model"@, PaletteCommand::PickModel),
        with_detail_spec("approval-policy"@, "approval policy"@, PaletteCommand::PickApprovalPolicy),
        with_detail_spec("sandbox-policy"@, "sandbox policy"@, PaletteCommand::PickSandboxPolicy),
        with_detail_spec("sandbox-network"@, "network access"@, PaletteCommand::PickSandboxNetworkAccess),
        with_detail_spec("allowed-tools="@ + allowed, "thread tool allowlist"@, PaletteCommand::PickAllowedTools),
        with_detail_spec("execpolicy-rules="@ + dec(s.execpolicy_rules_count as nat), "thread execpolicy rules"@, PaletteCommand::PickExecpolicyRules),
    ]
}

pub open spec fn root_tail() -> Seq<ItemSpec> {
    seq![
        with_detail_spec("help"@, "show help"@, PaletteCommand::Help),
        with_detail_spec("quit"@, "quit"@, PaletteCommand::Quit),
    ]
}

/// The root palette's entries.
pub open spec fn root_items(s: RootPaletteState) -> Seq<ItemSpec> {
    if s.active_thread {
        root_head(s) + root_thread(s) + root_tail()
    } else {
        root_head(s) + root_tail()
    }
}

fn on_off_str(b: bool) -> (r: &'static str)
    ensures
        r@ == on_off(b),
{
    if b {
        "on"
    } else {
        "off"
    }
}

fn labeled(prefix: &str, value: &str) -> (r: String)
    ensures
        r@ == prefix@ + value@,
{
    let mut l = String::new();
    push_str(&mut l, prefix);
    push_str(&mut l, value);
    l
}

fn labeled_dec(prefix: &str, n: u64) -> (r: String)
    ensures
        r@ == prefix@ + dec(n as nat),
{
    let mut l = String::new();
    push_str(&mut l, prefix);
    push_dec(&mut l, n);
    l
}

fn text_of(s: &str) -> (r: String)
    ensures
        r@ == s@,
{
    string_of(chars_of(s).as_slice())
}

fn push_root_thread_items(items: &mut Vec<PaletteItem>, state: &RootPaletteState)
    ensures
        final(items)@.take(old(items).len() as int) == old(items)@,
        final(items).len() == old(items).len() + 10,
        items_are(final(items)@.skip(old(items).len() as int), root_thread(*state)),
{
    let ghost start = items.len();
    let mode = match &state.mode {
        Some(m) => m.as_str(),
        None => "-",
    };
    let model = match &state.model {
        Some(m) => m.as_str(),
        None => "-",
    };
    items.push(item_d("approvals", "approval list", PaletteCommand::OpenApprovals));
    items.push(item_d("processes", "process list", PaletteCommand::OpenProcesses));
    items.push(item_d("artifacts", "artifact list", PaletteCommand::OpenArtifacts));
    let nm = normalize_label(mode);
    items.push(PaletteItem::with_detail(labeled("mode=", nm.as_str()), text_of("select role"), PaletteCommand::PickMode));
    items.push(PaletteItem::with_detail(labeled("model=", model), text_of("select model"), PaletteCommand::PickModel));
    items.push(item_d("approval-policy", "approval policy", PaletteCommand::PickApprovalPolicy));
    items.push(item_d("sandbox-policy", "sandbox policy", PaletteCommand::PickSandboxPolicy));
    items.push(item_d("sandbox-network", "network access", PaletteCommand::PickSandboxNetworkAccess));
    let allowed = match state.allowed_tools_count {
        Some(n) => labeled_dec("allowed-tools=", n as u64),
        None => labeled("allowed-tools=", "*"),
    };
    items.push(PaletteItem::with_detail(allowed, text_of("thread tool allowlist"), PaletteCommand::PickAllowedTools));
    items.push(PaletteItem::with_detail(labeled_dec("execpolicy-rules=", state.execpolicy_rules_count as u64), text_of("thread execpolicy rules"), PaletteCommand::PickExecpolicyRules));
    assert(items@.take(start as int) =~= old(items)@);
    assert forall|k: int| 0 <= k < 10 implies item_is(#[trigger] items@.skip(start as int)[k], root_thread(*state)[k]) by {
        assert(items@.skip(start as int)[k] == items@[start + k]);
    }
}

/// The root command palette: thread picker commands and filters, the
/// thread's settings when a thread is open, then help and quit.
pub fn build_root_palette(state: &RootPaletteState) -> (r: CommandPaletteOverlay)
    ensures
        fresh_palette(r, "commands"@, root_items(*state)),
{
    let mut items: Vec<PaletteItem> = Vec::new();
    items.push(item_d("new", "new thread", PaletteCommand::NewThread));
    items.push(item_d("threads", "thread picker", PaletteCommand::ThreadPicker));
    items.push(item_d("refresh", "refresh threads", PaletteCommand::RefreshThreads));
    items.push(PaletteItem::with_detail(labeled("archived=", on_off_str(state.include_archived)), text_of("include archived threads"), PaletteCommand::ToggleIncludeArchived));
    items.push(PaletteItem::with_detail(labeled("linkage-filter=", on_off_str(state.only_fan_out_linkage_issue)), text_of("thread picker filter"), PaletteCommand::ToggleLinkageFilter));
    items.push(PaletteItem::with_detail(labeled("auto-apply-filter=", on_off_str(state.only_fan_out_auto_apply_error)), text_of("thread picker filter"), PaletteCommand::ToggleAutoApplyErrorFilter));
    items.push(PaletteItem::with_detail(labeled("fan-in-filter=", on_off_str(state.only_fan_in_dependency_blocked)), text_of("thread picker filter"), PaletteCommand::ToggleFanInDependencyBlockedFilter));
    items.push(PaletteItem::with_detail(labeled("subagent-filter=", on_off_str(state.only_subagent_proxy_approval)), text_of("thread picker filter"), PaletteCommand::ToggleSubagentProxyApprovalFilter));
    items.push(item_d("clear-filters", "reset thread picker filters", PaletteCommand::ClearThreadFilters));
    assert(items_are(items@, root_head(*state)));
    let ghost after_head = items@;
    if state.active_thread {
        push_root_thread_items(&mut items, state);
        proof {
            lemma_items_concat(items@, 9, root_head(*state), root_thread(*state));
        }
    }
    let ghost before_tail = items@;
    let ghost body = if state.active_thread { root_head(*state) + root_thread(*state) } else { root_head(*state) };
    assert(items_are(before_tail, body));
    items.push(item_d("help", "show help", PaletteCommand::Help));
    items.push(item_d("quit", "quit", PaletteCommand::Quit));
    let ghost specs = root_items(*state);
    proof {
        assert(items@.take(before_tail.len() as int) =~= before_tail);
        assert forall|k: int| 0 <= k < 2 implies item_is(#[trigger] items@.skip(before_tail.len() as int)[k], root_tail()[k]) by {
            assert(items@.skip(before_tail.len() as int)[k] == items@[before_tail.len() + k]);
        }
        lemma_items_concat(items@, before_tail.len() as int, body, root_tail());
    }
    finish("commands", items, Ghost(specs))
}

} // verus!
