//! The text the overlays show: the approvals overlay's title, and one row
//! per process or artifact in their lists.
use vstd::prelude::*;
use crate::approvals::{count_failed, filter_label_text, ApprovalsOverlay, approval_filter_label,
    failed_subagent_approval_count};
use crate::artifacts::ArtifactMetadata;
use crate::ids::{push_uuid, uuid_text};
use crate::labels::{process_status_str, process_status_text};
use crate::processes::ProcessInfo;
use crate::render::{format_subagent_pending_overlay_hint, pending_hint_spec};
use crate::text::{chars_of, dec, push_chars, push_dec, push_str, trim, trim_chars};

verus! {

/// `true` or `false`, as `Display` writes a `bool`.
pub open spec fn bool_text(b: bool) -> Seq<char> {
    if b { "true"@ } else { "false"@ }
}

/// The approvals overlay's title: the key help, whether decisions are
/// remembered, the filter, the number of failed subagent approvals (when
/// there are any) and the pending-subagent summary (when there is one).
pub open spec fn approvals_title_spec(view: ApprovalsOverlay) -> Seq<char> {
    let failed = count_failed(view.all_approvals@);
    "Approvals (↑↓ select t=filter f/F=next/prev-failed y=approve n=deny m=remember r=refresh Esc=close) remember="@
        + bool_text(view.remember) + " filter="@ + filter_label_text(view.filter) + (if failed == 0 {
        seq![]
    } else {
        " failed="@ + dec(failed as nat)
    }) + match view.subagent_pending_summary {
        Some(s) => pending_hint_spec(s.total, s.states@),
        None => seq![],
    }
}

pub fn approvals_overlay_title(view: &ApprovalsOverlay) -> (r: String)
    requires
        view.subagent_pending_summary matches Some(s) ==> crate::pending_summary::summary_wf(s),
    ensures
        r@ == approvals_title_spec(*view),
{
    let mut out = String::new();
    push_str(
        &mut out,
        "Approvals (↑↓ select t=filter f/F=next/prev-failed y=approve n=deny m=remember r=refresh Esc=close) remember=",
    );
    push_str(&mut out, if view.remember { "true" } else { "false" });
    push_str(&mut out, " filter=");
    push_str(&mut out, approval_filter_label(view.filter));
    let failed = failed_subagent_approval_count(view.all_approvals.as_slice());
    if failed != 0 {
        push_str(&mut out, " failed=");
        push_dec(&mut out, failed as u64);
    }
    match &view.subagent_pending_summary {
        Some(s) => {
            let hint = format_subagent_pending_overlay_hint(s);
            push_str(&mut out, hint.as_str());
        },
        None => {},
    }
    out
}

/// A process's row: its status in brackets, its id and its program.
pub open spec fn process_row_spec(p: ProcessInfo) -> Seq<char> {
    "["@ + process_status_text(p.status) + "] "@ + uuid_text(p.process_id) + " "@ + (if p.argv@.len()
        > 0 {
        p.argv@[0]@
    } else {
        seq![]
    })
}

pub fn process_row_text(p: &ProcessInfo) -> (r: String)
    ensures
        r@ == process_row_spec(*p),
{
    let mut out = String::new();
    push_str(&mut out, "[");
    push_str(&mut out, process_status_str(p.status));
    push_str(&mut out, "] ");
    push_uuid(&mut out, p.process_id);
    push_str(&mut out, " ");
    if p.argv.len() > 0 {
        push_str(&mut out, p.argv[0].as_str());
    }
    out
}

/// An artifact's row: its type in brackets, its id and its summary (type
/// and summary trimmed).
pub open spec fn artifact_row_spec(meta: ArtifactMetadata) -> Seq<char> {
    "["@ + trim(meta.artifact_type@) + "] "@ + uuid_text(meta.artifact_id) + " "@ + trim(
        meta.summary@,
    )
}

pub fn artifact_row_text(meta: &ArtifactMetadata) -> (r: String)
    ensures
        r@ == artifact_row_spec(*meta),
{
    let mut out = String::new();
    push_str(&mut out, "[");
    let t = chars_of(meta.artifact_type.as_str());
    push_chars(&mut out, trim_chars(t.as_slice()).as_slice());
    push_str(&mut out, "] ");
    push_uuid(&mut out, meta.artifact_id);
    push_str(&mut out, " ");
    let s = chars_of(meta.summary.as_str());
    push_chars(&mut out, trim_chars(s.as_slice()).as_slice());
    out
}

} // verus!
