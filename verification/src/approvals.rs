//! The approvals overlay: subagent attention states of pending approvals,
//! the failed/running filters, jumping between failed subagent approvals,
//! the ordering of the list, and the pending-approval summary.
use vstd::prelude::*;
use crate::keys::KeyCode;
use crate::style::Color;
use crate::ids::{push_uuid, uuid_text};
use crate::sort::{text_le, text_le_exec, lemma_text_le_total};
use crate::text::{
    chars_eq, chars_eq_str, chars_of, dec, lower_seq, push_dec, push_str, string_of, to_lower,
    trim, trim_chars,
};

verus! {

broadcast use vstd::seq_lib::group_to_multiset_ensures;

/// What the overlay reads of a pending approval request.
#[derive(Debug)]
pub struct ApprovalItem {
    pub approval_id: u128,
    /// When the approval was requested, as the server wrote it (RFC 3339).
    pub requested_at: String,
    pub action: String,
    /// Whether the request's action id is the subagent proxy approval.
    pub subagent_proxy_action_id: bool,
    /// The child thread's attention state from the request summary.
    pub child_attention_state: Option<String>,
    /// Whether a decision was already recorded.
    pub decided: bool,
}

impl Clone for ApprovalItem {
    fn clone(&self) -> (r: Self)
        ensures
            r == *self,
    {
        ApprovalItem {
            approval_id: self.approval_id,
            requested_at: self.requested_at.clone(),
            action: self.action.clone(),
            subagent_proxy_action_id: self.subagent_proxy_action_id,
            child_attention_state: match &self.child_attention_state {
                Some(s) => Some(s.clone()),
                None => None,
            },
            decided: self.decided,
        }
    }
}

#[derive(Debug, Clone, Copy, PartialEq, Eq)]
pub enum ApprovalsFilter {
    All,
    FailedSubagent,
    RunningSubagent,
}

/// Counts of pending subagent approvals by the child's attention state.
#[derive(Debug)]
pub struct SubagentPendingSummary {
    pub total: usize,
    /// `(state, count)`, ordered by state, each state once.
    pub states: Vec<(String, usize)>,
}

pub struct ApprovalsOverlay {
    pub thread_id: u128,
    /// The approvals that pass `filter`.
    pub approvals: Vec<ApprovalItem>,
    pub all_approvals: Vec<ApprovalItem>,
    pub selected: usize,
    pub remember: bool,
    pub filter: ApprovalsFilter,
    pub subagent_pending_summary: Option<SubagentPendingSummary>,
}

pub enum ApprovalsLocalKeyResult {
    Unhandled,
    Handled(Option<String>),
}

// ---------------------------------------------------------------------------
// Specification
// ---------------------------------------------------------------------------

/// The request comes from a subagent proxy.
pub open spec fn is_proxy(item: ApprovalItem) -> bool {
    item.subagent_proxy_action_id || lower_seq(item.action@) == lower_seq("subagent/proxy_approval"@)
}

/// The child's attention state of a subagent proxy request: trimmed,
/// lower case, absent when blank.
pub open spec fn state_hint(item: ApprovalItem) -> Option<Seq<char>> {
    if !is_proxy(item) {
        None
    } else {
        match item.child_attention_state {
            Some(s) => if trim(s@).len() > 0 {
                Some(lower_seq(trim(s@)))
            } else {
                None
            },
            None => None,
        }
    }
}

/// A subagent proxy request whose child failed.
pub open spec fn is_failed(item: ApprovalItem) -> bool {
    state_hint(item) == Some("failed"@) || state_hint(item) == Some("error"@)
}

pub open spec fn matches_filter(item: ApprovalItem, filter: ApprovalsFilter) -> bool {
    match filter {
        ApprovalsFilter::All => true,
        ApprovalsFilter::FailedSubagent => is_failed(item),
        ApprovalsFilter::RunningSubagent => state_hint(item) == Some("running"@),
    }
}

pub open spec fn next_filter(f: ApprovalsFilter) -> ApprovalsFilter {
    match f {
        ApprovalsFilter::All => ApprovalsFilter::FailedSubagent,
        ApprovalsFilter::FailedSubagent => ApprovalsFilter::RunningSubagent,
        ApprovalsFilter::RunningSubagent => ApprovalsFilter::All,
    }
}

/// Position reached stepping `o` places forward from `current` among `n`.
pub open spec fn fwd_idx(current: int, o: int, n: int) -> int {
    (current + o) % n
}

/// Position reached stepping `o` places backward from `current` among `n`.
pub open spec fn bwd_idx(current: int, o: int, n: int) -> int {
    (current + n - (o % n)) % n
}

/// The first failed item met when stepping forward from `current` by
/// `offset`, `offset + 1`, ... `n` positions, wrapping around.
pub open spec fn failed_forward(items: Seq<ApprovalItem>, current: int, offset: int) -> Option<int>
    decreases items.len() + 1 - offset,
{
    if items.len() == 0 || offset > items.len() || offset < 1 {
        None
    } else {
        let idx = (current + offset) % (items.len() as int);
        if is_failed(items[idx]) {
            Some(idx)
        } else {
            failed_forward(items, current, offset + 1)
        }
    }
}

/// The same stepping backward.
pub open spec fn failed_backward(items: Seq<ApprovalItem>, current: int, offset: int) -> Option<int>
    decreases items.len() + 1 - offset,
{
    if items.len() == 0 || offset > items.len() || offset < 1 {
        None
    } else {
        let n = items.len() as int;
        let idx = (current + n - (offset % n)) % n;
        if is_failed(items[idx]) {
            Some(idx)
        } else {
            failed_backward(items, current, offset + 1)
        }
    }
}

/// The items that pass a filter, in order.
pub open spec fn filter_items(items: Seq<ApprovalItem>, filter: ApprovalsFilter) -> Seq<ApprovalItem> {
    items.filter(|it: ApprovalItem| matches_filter(it, filter))
}

/// Index of the first item with id `id`, or 0.
pub open spec fn approval_index_or_zero(items: Seq<ApprovalItem>, id: u128) -> nat
    decreases items.len(),
{
    if items.len() == 0 {
        0
    } else if items[0].approval_id == id {
        0
    } else if exists|k: int| 1 <= k < items.len() && items[k].approval_id == id {
        1 + approval_index_or_zero(items.drop_first(), id)
    } else {
        0
    }
}

pub open spec fn select_spec(items: Seq<ApprovalItem>, current: Option<u128>) -> nat {
    match current {
        None => 0,
        Some(id) => approval_index_or_zero(items, id),
    }
}

/// Failed subagent approvals first, then running ones, then other subagent
/// approvals, then the rest.
pub open spec fn sort_priority(item: ApprovalItem) -> u8 {
    match state_hint(item) {
        Some(s) => if s == "failed"@ || s == "error"@ {
            0
        } else if s == "running"@ {
            1
        } else {
            2
        },
        None => 3,
    }
}

/// The order of the overlay list: priority, then the request time's text,
/// then the id.
pub open spec fn approval_le(a: ApprovalItem, b: ApprovalItem) -> bool {
    sort_priority(a) < sort_priority(b) || (sort_priority(a) == sort_priority(b) && ((text_le(
        a.requested_at@,
        b.requested_at@,
    ) && a.requested_at@ != b.requested_at@) || (a.requested_at@ == b.requested_at@
        && a.approval_id <= b.approval_id)))
}

/// The overlay's order is total.
pub proof fn lemma_approval_le_total(a: ApprovalItem, b: ApprovalItem)
    ensures
        approval_le(a, b) || approval_le(b, a),
{
    lemma_text_le_total(a.requested_at@, b.requested_at@);
}

/// The overlay's order is transitive.
pub proof fn lemma_approval_le_trans(a: ApprovalItem, b: ApprovalItem, c: ApprovalItem)
    requires
        approval_le(a, b),
        approval_le(b, c),
    ensures
        approval_le(a, c),
{
    let (x, y, z) = (a.requested_at@, b.requested_at@, c.requested_at@);
    if sort_priority(a) == sort_priority(b) && sort_priority(b) == sort_priority(c) {
        if text_le(x, y) && text_le(y, z) {
            crate::sort::lemma_text_le_trans(x, y, z);
            if x == z {
                crate::sort::lemma_text_le_antisym(x, y);
            }
        }
    }
}

pub open spec fn approvals_sorted(s: Seq<ApprovalItem>) -> bool {
    forall|i: int, j: int| 0 <= i < j < s.len() ==> approval_le(#[trigger] s[i], #[trigger] s[j])
}

// ---------------------------------------------------------------------------
// Lemmas
// ---------------------------------------------------------------------------

pub proof fn lemma_failed_forward(items: Seq<ApprovalItem>, current: int, offset: int)
    requires
        current >= 0,
    ensures
        failed_forward(items, current, offset) matches Some(i) ==> 0 <= i < items.len() && is_failed(
            items[i],
        ),
    decreases items.len() + 1 - offset,
{
    if !(items.len() == 0 || offset > items.len() || offset < 1) {
        let idx = (current + offset) % (items.len() as int);
        if !is_failed(items[idx]) {
            lemma_failed_forward(items, current, offset + 1);
        }
    }
}

pub proof fn lemma_failed_backward(items: Seq<ApprovalItem>, current: int, offset: int)
    requires
        current >= 0,
    ensures
        failed_backward(items, current, offset) matches Some(i) ==> 0 <= i < items.len()
            && is_failed(items[i]),
    decreases items.len() + 1 - offset,
{
    if !(items.len() == 0 || offset > items.len() || offset < 1) {
        let n = items.len() as int;
        let idx = (current + n - (offset % n)) % n;
        if !is_failed(items[idx]) {
            lemma_failed_backward(items, current, offset + 1);
        }
    }
}

/// When no item failed, neither search finds one.
pub proof fn lemma_failed_search_none(items: Seq<ApprovalItem>, current: int, offset: int)
    requires
        current >= 0,
        forall|k: int| 0 <= k < items.len() ==> !is_failed(#[trigger] items[k]),
    ensures
        failed_forward(items, current, offset) is None,
        failed_backward(items, current, offset) is None,
    decreases items.len() + 1 - offset,
{
    if !(items.len() == 0 || offset > items.len() || offset < 1) {
        let n = items.len() as int;
        let idx = (current + offset) % n;
        let idx2 = (current + n - (offset % n)) % n;
        assert(0 <= idx2 < n);
        assert(!is_failed(items[idx]));
        assert(!is_failed(items[idx2]));
        lemma_failed_search_none(items, current, offset + 1);
    }
}

/// Stepping forward over `1..=n` positions visits every position.
pub proof fn lemma_failed_forward_finds(items: Seq<ApprovalItem>, current: int, offset: int, target: int)
    requires
        current >= 0,
        1 <= offset <= items.len(),
        0 <= target < items.len(),
        is_failed(items[target]),
        exists|o: int| offset <= o <= items.len() && #[trigger] fwd_idx(current, o, items.len() as int) == target,
    ensures
        failed_forward(items, current, offset) is Some,
    decreases items.len() + 1 - offset,
{
    let n = items.len() as int;
    let idx = (current + offset) % n;
    if !is_failed(items[idx]) {
        let o = choose|o: int| offset <= o <= items.len() && #[trigger] fwd_idx(current, o, n) == target;
        assert(o != offset);
        lemma_failed_forward_finds(items, current, offset + 1, target);
    }
}

pub proof fn lemma_failed_backward_finds(items: Seq<ApprovalItem>, current: int, offset: int, target: int)
    requires
        current >= 0,
        1 <= offset <= items.len(),
        0 <= target < items.len(),
        is_failed(items[target]),
        exists|o: int| offset <= o <= items.len() && #[trigger] bwd_idx(current, o, items.len() as int) == target,
    ensures
        failed_backward(items, current, offset) is Some,
    decreases items.len() + 1 - offset,
{
    let n = items.len() as int;
    let idx = (current + n - (offset % n)) % n;
    if !is_failed(items[idx]) {
        let o = choose|o: int| offset <= o <= items.len() && #[trigger] bwd_idx(current, o, n) == target;
        assert(o != offset);
        lemma_failed_backward_finds(items, current, offset + 1, target);
    }
}

proof fn lemma_forward_offset(current: int, n: int, target: int)
    requires
        current >= 0,
        n > 0,
        0 <= target < n,
    ensures
        exists|o: int| 1 <= o <= n && #[trigger] fwd_idx(current, o, n) == target,
{
    let q = current / n;
    let c = current % n;
    vstd::arithmetic::div_mod::lemma_fundamental_div_mod(current, n);
    assert(current == n * q + c);
    assert(0 <= c < n);
    assert(n * q == q * n) by (nonlinear_arith);
    if target > c {
        let o = target - c;
        vstd::arithmetic::div_mod::lemma_fundamental_div_mod_converse(current + o, n, q, target);
        assert(fwd_idx(current, o, n) == target);
    } else {
        let o = target - c + n;
        assert((q + 1) * n == q * n + n) by (nonlinear_arith);
        vstd::arithmetic::div_mod::lemma_fundamental_div_mod_converse(current + o, n, q + 1, target);
        assert(fwd_idx(current, o, n) == target);
    }
}

proof fn lemma_backward_offset(current: int, n: int, target: int)
    requires
        current >= 0,
        n > 0,
        0 <= target < n,
    ensures
        exists|o: int| 1 <= o <= n && #[trigger] bwd_idx(current, o, n) == target,
{
    let q = current / n;
    let c = current % n;
    vstd::arithmetic::div_mod::lemma_fundamental_div_mod(current, n);
    assert(current == n * q + c);
    assert(0 <= c < n);
    assert(n * q == q * n) by (nonlinear_arith);
    assert((q + 1) * n == q * n + n) by (nonlinear_arith);
    if c == target {
        let o = n;
        vstd::arithmetic::div_mod::lemma_fundamental_div_mod_converse(o, n, 1, 0);
        vstd::arithmetic::div_mod::lemma_fundamental_div_mod_converse(current + n - 0, n, q + 1, target);
        assert(bwd_idx(current, o, n) == target);
    } else if c > target {
        let o = c - target;
        vstd::arithmetic::div_mod::lemma_small_mod(o as nat, n as nat);
        vstd::arithmetic::div_mod::lemma_fundamental_div_mod_converse(current + n - o, n, q + 1, target);
        assert(bwd_idx(current, o, n) == target);
    } else {
        let o = c - target + n;
        vstd::arithmetic::div_mod::lemma_small_mod(o as nat, n as nat);
        vstd::arithmetic::div_mod::lemma_fundamental_div_mod_converse(current + n - o, n, q, target);
        assert(bwd_idx(current, o, n) == target);
    }
}

/// The searches find a failed item exactly when there is one.
pub proof fn lemma_failed_search_complete(items: Seq<ApprovalItem>, current: int)
    requires
        current >= 0,
    ensures
        (exists|k: int| 0 <= k < items.len() && is_failed(#[trigger] items[k])) <==> failed_forward(
            items,
            current,
            1,
        ) is Some,
        (exists|k: int| 0 <= k < items.len() && is_failed(#[trigger] items[k])) <==> failed_backward(
            items,
            current,
            1,
        ) is Some,
{
    lemma_failed_forward(items, current, 1);
    lemma_failed_backward(items, current, 1);
    if exists|k: int| 0 <= k < items.len() && is_failed(#[trigger] items[k]) {
        let k = choose|k: int| 0 <= k < items.len() && is_failed(#[trigger] items[k]);
        lemma_forward_offset(current, items.len() as int, k);
        lemma_failed_forward_finds(items, current, 1, k);
        lemma_backward_offset(current, items.len() as int, k);
        lemma_failed_backward_finds(items, current, 1, k);
    } else {
        lemma_failed_search_none(items, current, 1);
    }
}

// ---------------------------------------------------------------------------
// Executable code
// ---------------------------------------------------------------------------

/// Whether a request comes from a subagent proxy.
pub fn is_subagent_proxy_approval_request(item: &ApprovalItem) -> (r: bool)
    ensures
        r == is_proxy(*item),
{
    if item.subagent_proxy_action_id {
        return true;
    }
    let a = chars_of(item.action.as_str());
    let al = to_lower(a.as_slice());
    let b = chars_of("subagent/proxy_approval");
    let bl = to_lower(b.as_slice());
    chars_eq(al.as_slice(), bl.as_slice())
}

/// The child's attention state of a subagent proxy request.
pub fn approval_subagent_state_hint(item: &ApprovalItem) -> (r: Option<String>)
    ensures
        opt_view(r) == state_hint(*item),
{
    if !is_subagent_proxy_approval_request(item) {
        return None;
    }
    match &item.child_attention_state {
        Some(s) => {
            let c = chars_of(s.as_str());
            let t = trim_chars(c.as_slice());
            if t.len() > 0 {
                Some(string_of(to_lower(t.as_slice()).as_slice()))
            } else {
                None
            }
        },
        None => None,
    }
}

/// The color that marks a subagent proxy request by its child's state:
/// light red for a failed (or erroring) child, yellow for a running one.
pub open spec fn state_color_spec(item: ApprovalItem) -> Option<Color> {
    match state_hint(item) {
        Some(s) => if s == "failed"@ || s == "error"@ {
            Some(Color::LightRed)
        } else if s == "running"@ {
            Some(Color::Yellow)
        } else {
            None
        },
        None => None,
    }
}

pub fn approval_subagent_state_color(item: &ApprovalItem) -> (r: Option<Color>)
    ensures
        r == state_color_spec(*item),
{
    match approval_subagent_state_hint(item) {
        Some(s) => {
            let c = chars_of(s.as_str());
            if chars_eq_str(c.as_slice(), "failed") || chars_eq_str(c.as_slice(), "error") {
                Some(Color::LightRed)
            } else if chars_eq_str(c.as_slice(), "running") {
                Some(Color::Yellow)
            } else {
                None
            }
        },
        None => None,
    }
}

pub open spec fn opt_view(o: Option<String>) -> Option<Seq<char>> {
    match o {
        Some(s) => Some(s@),
        None => None,
    }
}

/// Whether a request is a subagent proxy approval whose child failed.
pub fn is_failed_subagent_proxy_approval_request(item: &ApprovalItem) -> (r: bool)
    ensures
        r == is_failed(*item),
{
    match approval_subagent_state_hint(item) {
        Some(s) => {
            let c = chars_of(s.as_str());
            chars_eq_str(c.as_slice(), "failed") || chars_eq_str(c.as_slice(), "error")
        },
        None => false,
    }
}

/// The next failed subagent approval after `current`, wrapping around.
pub fn next_failed_subagent_approval_index(items: &[ApprovalItem], current: usize) -> (r: Option<usize>)
    requires
        current + items.len() <= usize::MAX,
    ensures
        failed_forward(items@, current as int, 1) == match r {
            Some(i) => Some(i as int),
            None => None,
        },
        r matches Some(i) ==> i < items.len() && is_failed(items@[i as int]),
        r is None <==> forall|k: int| 0 <= k < items.len() ==> !is_failed(#[trigger] items@[k]),
{
    proof {
        lemma_failed_forward(items@, current as int, 1);
        lemma_failed_search_complete(items@, current as int);
    }
    if items.len() == 0 {
        return None;
    }
    let n = items.len();
    let mut offset: usize = 1;
    loop
        invariant
            1 <= offset <= n,
            n == items.len(),
            current + n <= usize::MAX,
            failed_forward(items@, current as int, 1) == failed_forward(items@, current as int, offset as int),
        decreases n + 1 - offset,
    {
        let idx = (current + offset) % n;
        if is_failed_subagent_proxy_approval_request(&items[idx]) {
            return Some(idx);
        }
        assert(failed_forward(items@, current as int, offset as int) == failed_forward(items@, current as int, offset + 1));
        if offset == n {
            assert(failed_forward(items@, current as int, offset + 1) is None);
            proof {
                lemma_failed_search_complete(items@, current as int);
            }
            return None;
        }
        offset += 1;
    }
}

/// The previous failed subagent approval before `current`, wrapping around.
pub fn prev_failed_subagent_approval_index(items: &[ApprovalItem], current: usize) -> (r: Option<usize>)
    requires
        current + items.len() <= usize::MAX,
    ensures
        failed_backward(items@, current as int, 1) == match r {
            Some(i) => Some(i as int),
            None => None,
        },
        r matches Some(i) ==> i < items.len() && is_failed(items@[i as int]),
        r is None <==> forall|k: int| 0 <= k < items.len() ==> !is_failed(#[trigger] items@[k]),
{
    proof {
        lemma_failed_backward(items@, current as int, 1);
        lemma_failed_search_complete(items@, current as int);
    }
    if items.len() == 0 {
        return None;
    }
    let n = items.len();
    let mut offset: usize = 1;
    loop
        invariant
            1 <= offset <= n,
            n == items.len(),
            current + n <= usize::MAX,
            failed_backward(items@, current as int, 1) == failed_backward(items@, current as int, offset as int),
        decreases n + 1 - offset,
    {
        let idx = (current + n - (offset % n)) % n;
        if is_failed_subagent_proxy_approval_request(&items[idx]) {
            return Some(idx);
        }
        assert(failed_backward(items@, current as int, offset as int) == failed_backward(items@, current as int, offset + 1));
        if offset == n {
            assert(failed_backward(items@, current as int, offset + 1) is None);
            proof {
                lemma_failed_search_complete(items@, current as int);
            }
            return None;
        }
        offset += 1;
    }
}

pub open spec fn count_failed(items: Seq<ApprovalItem>) -> nat
    decreases items.len(),
{
    if items.len() == 0 {
        0
    } else {
        count_failed(items.drop_last()) + if is_failed(items.last()) {
            1nat
        } else {
            0nat
        }
    }
}

proof fn lemma_count_failed_bound(items: Seq<ApprovalItem>)
    ensures
        count_failed(items) <= items.len(),
    decreases items.len(),
{
    if items.len() > 0 {
        lemma_count_failed_bound(items.drop_last());
    }
}

/// Number of failed subagent approvals.
pub fn failed_subagent_approval_count(items: &[ApprovalItem]) -> (r: usize)
    ensures
        r == count_failed(items@),
{
    let mut count: usize = 0;
    let mut i: usize = 0;
    while i < items.len()
        invariant
            i <= items.len(),
            count == count_failed(items@.take(i as int)),
        decreases items.len() - i,
    {
        assert(items@.take(i + 1).drop_last() =~= items@.take(i as int));
        proof {
            lemma_count_failed_bound(items@.take(i + 1));
        }
        if is_failed_subagent_proxy_approval_request(&items[i]) {
            count += 1;
        }
        i += 1;
    }
    assert(items@.take(items.len() as int) =~= items@);
    count
}

pub fn approval_matches_filter(item: &ApprovalItem, filter: ApprovalsFilter) -> (r: bool)
    ensures
        r == matches_filter(*item, filter),
{
    match filter {
        ApprovalsFilter::All => true,
        ApprovalsFilter::FailedSubagent => is_failed_subagent_proxy_approval_request(item),
        ApprovalsFilter::RunningSubagent => match approval_subagent_state_hint(item) {
            Some(s) => chars_eq_str(chars_of(s.as_str()).as_slice(), "running"),
            None => false,
        },
    }
}

/// The filter's name.
pub open spec fn filter_label_text(filter: ApprovalsFilter) -> Seq<char> {
    match filter {
        ApprovalsFilter::All => "all"@,
        ApprovalsFilter::FailedSubagent => "failed"@,
        ApprovalsFilter::RunningSubagent => "running"@,
    }
}

pub fn approval_filter_label(filter: ApprovalsFilter) -> (r: &'static str)
    ensures
        r@ == filter_label_text(filter),
{
    match filter {
        ApprovalsFilter::All => "all",
        ApprovalsFilter::FailedSubagent => "failed",
        ApprovalsFilter::RunningSubagent => "running",
    }
}

/// The filter after `filter` in the cycle all → failed → running → all.
pub fn next_approvals_filter(filter: ApprovalsFilter) -> (r: ApprovalsFilter)
    ensures
        r == next_filter(filter),
{
    match filter {
        ApprovalsFilter::All => ApprovalsFilter::FailedSubagent,
        ApprovalsFilter::FailedSubagent => ApprovalsFilter::RunningSubagent,
        ApprovalsFilter::RunningSubagent => ApprovalsFilter::All,
    }
}

/// Cycling the filter three times returns to the start, passing every filter.
pub proof fn lemma_filter_cycle(f: ApprovalsFilter)
    ensures
        next_filter(next_filter(next_filter(f))) == f,
        next_filter(f) != f,
        next_filter(next_filter(f)) != f,
        next_filter(next_filter(f)) != next_filter(f),
{
}

/// Index of the approval with id `current`, or 0.
pub fn select_approval(items: &[ApprovalItem], current: Option<u128>) -> (r: usize)
    ensures
        r == select_spec(items@, current),
{
    let id = match current {
        None => {
            return 0;
        },
        Some(id) => id,
    };
    let mut i: usize = 0;
    while i < items.len()
        invariant
            i <= items.len(),
            current == Some(id),
            forall|k: int| 0 <= k < i ==> items@[k].approval_id != id,
        decreases items.len() - i,
    {
        if items[i].approval_id == id {
            proof {
                lemma_approval_index_found(items@, id, i as int);
            }
            return i;
        }
        i += 1;
    }
    0
}

proof fn lemma_approval_index_found(s: Seq<ApprovalItem>, id: u128, i: int)
    requires
        0 <= i < s.len(),
        s[i].approval_id == id,
        forall|k: int| 0 <= k < i ==> s[k].approval_id != id,
    ensures
        approval_index_or_zero(s, id) == i,
    decreases s.len(),
{
    if i > 0 {
        assert(s.drop_first()[i - 1].approval_id == id);
        assert(exists|k: int| 1 <= k < s.len() && s[k].approval_id == id);
        assert forall|k: int| 0 <= k < i - 1 implies s.drop_first()[k].approval_id != id by {
            assert(s.drop_first()[k] == s[k + 1]);
        }
        lemma_approval_index_found(s.drop_first(), id, i - 1);
    }
}

/// Re-applies the filter to all approvals and selects `preferred_approval`
/// (or the first entry).
pub fn rebuild_filtered_approvals(view: &mut ApprovalsOverlay, preferred_approval: Option<u128>)
    ensures
        final(view).approvals@ == filter_items(old(view).all_approvals@, old(view).filter),
        final(view).selected == select_spec(final(view).approvals@, preferred_approval),
        final(view).all_approvals == old(view).all_approvals,
        final(view).filter == old(view).filter,
        final(view).remember == old(view).remember,
        final(view).thread_id == old(view).thread_id,
        final(view).subagent_pending_summary == old(view).subagent_pending_summary,
{
    let mut out: Vec<ApprovalItem> = Vec::new();
    let mut i: usize = 0;
    while i < view.all_approvals.len()
        invariant
            i <= view.all_approvals.len(),
            out@ == filter_items(view.all_approvals@.take(i as int), view.filter),
        decreases view.all_approvals.len() - i,
    {
        let ghost pred = |it: ApprovalItem| matches_filter(it, view.filter);
        proof {
            assert(view.all_approvals@.take(i + 1).drop_last() =~= view.all_approvals@.take(i as int));
            view.all_approvals@.take(i + 1).lemma_filter_len(pred);
            reveal_with_fuel(Seq::filter, 1);
        }
        if approval_matches_filter(&view.all_approvals[i], view.filter) {
            out.push(view.all_approvals[i].clone());
        }
        i += 1;
    }
    assert(view.all_approvals@.take(view.all_approvals.len() as int) =~= view.all_approvals@);
    view.approvals = out;
    view.selected = select_approval(view.approvals.as_slice(), preferred_approval);
}

/// An approvals overlay over `approvals`, showing all of them and keeping the
/// entry at `selected` selected.
pub fn new_approvals_overlay(
    thread_id: u128,
    approvals: Vec<ApprovalItem>,
    selected: usize,
    subagent_pending_summary: Option<SubagentPendingSummary>,
) -> (r: ApprovalsOverlay)
    ensures
        r.thread_id == thread_id,
        r.all_approvals@ == approvals@,
        r.approvals@ == filter_items(approvals@, ApprovalsFilter::All),
        r.filter == ApprovalsFilter::All,
        !r.remember,
        r.selected == select_spec(
            r.approvals@,
            if selected < approvals.len() {
                Some(approvals@[selected as int].approval_id)
            } else {
                None
            },
        ),
        r.subagent_pending_summary == subagent_pending_summary,
{
    let selected_approval = if selected < approvals.len() {
        Some(approvals[selected].approval_id)
    } else {
        None
    };
    let mut overlay = ApprovalsOverlay {
        thread_id,
        approvals: Vec::new(),
        all_approvals: approvals,
        selected: 0,
        remember: false,
        filter: ApprovalsFilter::All,
        subagent_pending_summary,
    };
    rebuild_filtered_approvals(&mut overlay, selected_approval);
    overlay
}

/// Sort rank of a request: failed, running, other subagent, others.
pub fn approval_sort_priority(item: &ApprovalItem) -> (r: u8)
    ensures
        r == sort_priority(*item),
{
    match approval_subagent_state_hint(item) {
        Some(s) => {
            let c = chars_of(s.as_str());
            if chars_eq_str(c.as_slice(), "failed") || chars_eq_str(c.as_slice(), "error") {
                0
            } else if chars_eq_str(c.as_slice(), "running") {
                1
            } else {
                2
            }
        },
        None => 3,
    }
}

fn approval_le_exec(a: &ApprovalItem, pa: u8, b: &ApprovalItem, pb: u8) -> (r: bool)
    requires
        pa == sort_priority(*a),
        pb == sort_priority(*b),
    ensures
        r == approval_le(*a, *b),
{
    if pa != pb {
        return pa < pb;
    }
    let ta = chars_of(a.requested_at.as_str());
    let tb = chars_of(b.requested_at.as_str());
    let same = chars_eq(ta.as_slice(), tb.as_slice());
    if same {
        a.approval_id <= b.approval_id
    } else {
        text_le_exec(ta.as_slice(), tb.as_slice())
    }
}

/// Orders the approvals for the overlay: failed subagent approvals first,
/// then running ones, then other subagent approvals, then the rest; within a
/// rank by request time, then by id.
pub fn sort_approvals_for_overlay(items: &mut Vec<ApprovalItem>)
    ensures
        approvals_sorted(final(items)@),
        final(items)@.to_multiset() == old(items)@.to_multiset(),
{
    let mut out: Vec<ApprovalItem> = Vec::new();
    let mut ranks: Vec<u8> = Vec::new();
    let mut i: usize = 0;
    while i < items.len()
        invariant
            i <= items.len(),
            items@ == old(items)@,
            ranks.len() == out.len(),
            forall|k: int| 0 <= k < out.len() ==> #[trigger] ranks@[k] == sort_priority(out@[k]),
            approvals_sorted(out@),
            out@.to_multiset() == items@.take(i as int).to_multiset(),
        decreases items.len() - i,
    {
        let x = items[i].clone();
        let px = approval_sort_priority(&x);
        let mut p: usize = 0;
        while p < out.len() && approval_le_exec(&out[p], ranks[p], &x, px)
            invariant
                p <= out.len(),
                px == sort_priority(x),
                ranks.len() == out.len(),
                forall|k: int| 0 <= k < out.len() ==> #[trigger] ranks@[k] == sort_priority(out@[k]),
                forall|k: int| 0 <= k < p ==> approval_le(#[trigger] out@[k], x),
            decreases out.len() - p,
        {
            p += 1;
        }
        proof {
            assert forall|k: int| p <= k < out.len() implies approval_le(x, #[trigger] out@[k]) by {
                assert(!approval_le(out@[p as int], x));
                lemma_approval_le_total(out@[p as int], x);
                if k > p {
                    assert(approval_le(out@[p as int], out@[k]));
                    lemma_approval_le_trans(x, out@[p as int], out@[k]);
                }
            }
            vstd::seq_lib::to_multiset_insert(out@, p as int, x);
            assert(items@.take(i + 1) =~= items@.take(i as int).push(items@[i as int]));
        }
        let ghost prev = out@;
        out.insert(p, x);
        ranks.insert(p, px);
        proof {
            assert forall|a: int, b: int| 0 <= a < b < out.len() implies approval_le(
                #[trigger] out@[a],
                #[trigger] out@[b],
            ) by {
                if a < p as int && b < p as int {
                    assert(out@[a] == prev[a] && out@[b] == prev[b]);
                } else if a < p as int && b == p as int {
                } else if a < p as int {
                    assert(out@[a] == prev[a] && out@[b] == prev[b - 1]);
                    assert(approval_le(prev[a], x));
                    assert(approval_le(x, prev[b - 1]));
                    lemma_approval_le_trans(prev[a], x, prev[b - 1]);
                } else if a == p as int {
                    assert(out@[b] == prev[b - 1]);
                } else {
                    assert(out@[a] == prev[a - 1] && out@[b] == prev[b - 1]);
                }
            }
            assert forall|k: int| 0 <= k < out.len() implies #[trigger] ranks@[k] == sort_priority(out@[k]) by {
                if k < p as int {
                } else if k == p as int {
                } else {
                    assert(out@[k] == prev[k - 1]);
                }
            }
        }
        i += 1;
    }
    assert(items@.take(items.len() as int) =~= items@);
    *items = out;
}

// ---------------------------------------------------------------------------
// Keys
// ---------------------------------------------------------------------------

pub open spec fn handled_with(r: ApprovalsLocalKeyResult, text: Seq<char>) -> bool {
    r matches ApprovalsLocalKeyResult::Handled(Some(s)) && s@ == text
}

pub open spec fn jumped_text(prefix: Seq<char>, items: Seq<ApprovalItem>, idx: int) -> Seq<char> {
    prefix + uuid_text(items[idx].approval_id)
}

/// What a key does to the approvals overlay, and what it answers.
pub open spec fn approvals_key_step(
    before: ApprovalsOverlay,
    after: ApprovalsOverlay,
    code: KeyCode,
    r: ApprovalsLocalKeyResult,
) -> bool {
    &&& after.all_approvals == before.all_approvals
    &&& after.thread_id == before.thread_id
    &&& after.subagent_pending_summary == before.subagent_pending_summary
    &&& after.remember == before.remember || code == KeyCode::Char('m')
    &&& after.filter == before.filter || code == KeyCode::Char('t')
    &&& code == KeyCode::Up ==> {
        &&& after.selected == (if before.selected > 0 { (before.selected - 1) as usize } else { 0 })
        &&& after.approvals == before.approvals
        &&& r matches ApprovalsLocalKeyResult::Handled(None)
    }
    &&& code == KeyCode::Down ==> {
        &&& after.selected == (if before.approvals.len() > 0 {
            if before.selected + 1 < before.approvals.len() {
                (before.selected + 1) as usize
            } else {
                (before.approvals.len() - 1) as usize
            }
        } else {
            before.selected
        })
        &&& after.approvals == before.approvals
        &&& r matches ApprovalsLocalKeyResult::Handled(None)
    }
    &&& code == KeyCode::Char('f') ==> after.approvals == before.approvals && match failed_forward(
        before.approvals@,
        before.selected as int,
        1,
    ) {
        Some(i) => after.selected == i && handled_with(
            r,
            jumped_text("approvals: jumped to failed subagent approval "@, before.approvals@, i),
        ),
        None => after.selected == before.selected && handled_with(r, "approvals: no failed subagent approvals"@),
    }
    &&& code == KeyCode::Char('F') ==> after.approvals == before.approvals && match failed_backward(
        before.approvals@,
        before.selected as int,
        1,
    ) {
        Some(i) => after.selected == i && handled_with(
            r,
            jumped_text("approvals: jumped to previous failed subagent approval "@, before.approvals@, i),
        ),
        None => after.selected == before.selected && handled_with(r, "approvals: no failed subagent approvals"@),
    }
    &&& code == KeyCode::Char('t') ==> {
        &&& after.filter == next_filter(before.filter)
        &&& after.approvals@ == filter_items(before.all_approvals@, after.filter)
        &&& after.selected == select_spec(
            after.approvals@,
            if before.selected < before.approvals.len() {
                Some(before.approvals@[before.selected as int].approval_id)
            } else {
                None
            },
        )
        &&& handled_with(r, "approvals filter="@ + filter_label_text(after.filter))
    }
    &&& code == KeyCode::Char('m') ==> {
        &&& after.remember == !before.remember
        &&& after.selected == before.selected
        &&& after.approvals == before.approvals
        &&& handled_with(r, "remember="@ + (if before.remember { "false"@ } else { "true"@ }))
    }
    &&& !(code == KeyCode::Up || code == KeyCode::Down || code == KeyCode::Char('f') || code
        == KeyCode::Char('F') || code == KeyCode::Char('t') || code == KeyCode::Char('m')) ==> {
        &&& r is Unhandled
        &&& after.selected == before.selected
        &&& after.approvals == before.approvals
    }
}

/// Handles the keys the approvals overlay answers by itself: moving the
/// selection, jumping between failed subagent approvals, cycling the filter
/// and toggling "remember".
pub fn handle_local_approvals_key(view: &mut ApprovalsOverlay, code: KeyCode) -> (r: ApprovalsLocalKeyResult)
    requires
        old(view).selected + old(view).approvals.len() < usize::MAX,
    ensures
        approvals_key_step(*old(view), *final(view), code, r),

{
    match code {
        KeyCode::Up => {
            view.selected = if view.selected > 0 {
                view.selected - 1
            } else {
                0
            };
            ApprovalsLocalKeyResult::Handled(None)
        },
        KeyCode::Down => {
            if view.approvals.len() > 0 {
                let next = view.selected + 1;
                let last = view.approvals.len() - 1;
                view.selected = if next < last {
                    next
                } else {
                    last
                };
            }
            ApprovalsLocalKeyResult::Handled(None)
        },
        KeyCode::Char('f') => {
            match next_failed_subagent_approval_index(view.approvals.as_slice(), view.selected) {
                Some(next) => {
                    view.selected = next;
                    let mut s = String::new();
                    push_str(&mut s, "approvals: jumped to failed subagent approval ");
                    push_uuid(&mut s, view.approvals[next].approval_id);
                    ApprovalsLocalKeyResult::Handled(Some(s))
                },
                None => {
                    let mut s = String::new();
                    push_str(&mut s, "approvals: no failed subagent approvals");
                    ApprovalsLocalKeyResult::Handled(Some(s))
                },
            }
        },
        KeyCode::Char('F') => {
            match prev_failed_subagent_approval_index(view.approvals.as_slice(), view.selected) {
                Some(prev) => {
                    view.selected = prev;
                    let mut s = String::new();
                    push_str(&mut s, "approvals: jumped to previous failed subagent approval ");
                    push_uuid(&mut s, view.approvals[prev].approval_id);
                    ApprovalsLocalKeyResult::Handled(Some(s))
                },
                None => {
                    let mut s = String::new();
                    push_str(&mut s, "approvals: no failed subagent approvals");
                    ApprovalsLocalKeyResult::Handled(Some(s))
                },
            }
        },
        KeyCode::Char('t') => {
            let current = if view.selected < view.approvals.len() {
                Some(view.approvals[view.selected].approval_id)
            } else {
                None
            };
            view.filter = next_approvals_filter(view.filter);
            rebuild_filtered_approvals(view, current);
            let mut s = String::new();
            push_str(&mut s, "approvals filter=");
            push_str(&mut s, approval_filter_label(view.filter));
            ApprovalsLocalKeyResult::Handled(Some(s))
        },
        KeyCode::Char('m') => {
            view.remember = !view.remember;
            let mut s = String::new();
            push_str(&mut s, "remember=");
            push_str(&mut s, if view.remember { "true" } else { "false" });
            ApprovalsLocalKeyResult::Handled(Some(s))
        },
        _ => ApprovalsLocalKeyResult::Unhandled,
    }
}

} // verus!
