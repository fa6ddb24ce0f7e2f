//! The pending subagent approvals of a thread, counted by the child
//! thread's attention state.
use vstd::prelude::*;
use crate::approvals::{ApprovalsOverlay, SubagentPendingSummary};
use crate::text::{chars_eq_str, chars_of, lower_seq, string_of, to_lower, trim, trim_chars};

verus! {

/// A pending approval as the thread's attention reports it.
#[derive(Debug)]
pub struct PendingApproval {
    pub approval_id: u128,
    /// Whether the approval's action id is the subagent proxy approval.
    pub subagent_proxy_action_id: bool,
    pub action: Option<String>,
    /// The child thread's attention state from the approval summary.
    pub child_attention_state: Option<String>,
}

/// An approval a subagent asks for on behalf of its child thread.
pub open spec fn is_subagent_pending(p: PendingApproval) -> bool {
    p.subagent_proxy_action_id || (p.action matches Some(a) && a@ == "subagent/proxy_approval"@)
}

/// The state an approval is counted under: the trimmed, lower-cased child
/// state, or `unknown`.
pub open spec fn state_key(p: PendingApproval) -> Seq<char> {
    match p.child_attention_state {
        Some(s) => if trim(s@).len() > 0 { lower_seq(trim(s@)) } else { "unknown"@ },
        None => "unknown"@,
    }
}

/// The subagent approvals among `ps`.
pub open spec fn subagent_count(ps: Seq<PendingApproval>) -> nat
    decreases ps.len(),
{
    if ps.len() == 0 {
        0
    } else {
        subagent_count(ps.drop_last()) + if is_subagent_pending(ps.last()) { 1nat } else { 0nat }
    }
}

/// The subagent approvals among `ps` counted under `key`.
pub open spec fn key_count(ps: Seq<PendingApproval>, key: Seq<char>) -> nat
    decreases ps.len(),
{
    if ps.len() == 0 {
        0
    } else {
        key_count(ps.drop_last(), key) + if is_subagent_pending(ps.last()) && state_key(ps.last()) == key {
            1nat
        } else {
            0nat
        }
    }
}

/// `a` comes before `b` in the order of their characters' code points (the
/// order of `String`, whose bytes are UTF-8).
pub open spec fn text_lt(a: Seq<char>, b: Seq<char>) -> bool
    decreases a.len(),
{
    if b.len() == 0 {
        false
    } else if a.len() == 0 {
        true
    } else if a[0] != b[0] {
        a[0] < b[0]
    } else {
        text_lt(a.drop_first(), b.drop_first())
    }
}

pub proof fn lemma_text_lt_irreflexive(a: Seq<char>)
    ensures
        !text_lt(a, a),
    decreases a.len(),
{
    if a.len() > 0 {
        lemma_text_lt_irreflexive(a.drop_first());
    }
}

pub proof fn lemma_text_lt_transitive(a: Seq<char>, b: Seq<char>, c: Seq<char>)
    requires
        text_lt(a, b),
        text_lt(b, c),
    ensures
        text_lt(a, c),
    decreases a.len(),
{
    if a.len() > 0 && a[0] == b[0] && b[0] == c[0] {
        lemma_text_lt_transitive(a.drop_first(), b.drop_first(), c.drop_first());
    }
}

pub proof fn lemma_text_lt_total(a: Seq<char>, b: Seq<char>)
    ensures
        a == b || text_lt(a, b) || text_lt(b, a),
    decreases a.len(),
{
    if a.len() > 0 && b.len() > 0 && a[0] == b[0] {
        lemma_text_lt_total(a.drop_first(), b.drop_first());
        if a.drop_first() == b.drop_first() {
            assert(a =~= seq![a[0]] + a.drop_first());
            assert(b =~= seq![b[0]] + b.drop_first());
        }
    } else if a.len() == 0 && b.len() == 0 {
        assert(a =~= b);
    }
}

/// The states' texts are in strictly increasing order.
pub open spec fn strictly_sorted(states: Seq<(String, usize)>) -> bool {
    forall|i: int, j: int| 0 <= i < j < states.len() ==> text_lt(#[trigger] states[i].0@, #[trigger] states[j].0@)
}

/// A well-formed summary: each state once, in order (the order of a map
/// keyed by the state's text).
pub open spec fn summary_wf(s: SubagentPendingSummary) -> bool {
    strictly_sorted(s.states@)
}

/// The summary of `ps`: the subagent approvals in all, and each state they
/// are counted under, once, in order, with its count.
pub open spec fn summarizes(s: SubagentPendingSummary, ps: Seq<PendingApproval>) -> bool {
    &&& s.total == subagent_count(ps)
    &&& strictly_sorted(s.states@)
    &&& forall|i: int| 0 <= i < s.states@.len() ==> #[trigger] s.states@[i].1 == key_count(ps, s.states@[i].0@)
    &&& forall|k: int| 0 <= k < ps.len() && is_subagent_pending(#[trigger] ps[k]) ==> exists|i: int|
        0 <= i < s.states@.len() && #[trigger] s.states@[i].0@ == state_key(ps[k])
}

/// The counts of a list of states, added up.
pub open spec fn sum_counts(states: Seq<(String, usize)>) -> nat
    decreases states.len(),
{
    if states.len() == 0 {
        0
    } else {
        sum_counts(states.drop_last()) + states.last().1 as nat
    }
}

/// How many of `keys` equal `x`.
spec fn occurrences(keys: Seq<Seq<char>>, x: Seq<char>) -> nat
    decreases keys.len(),
{
    if keys.len() == 0 {
        0
    } else {
        occurrences(keys.drop_last(), x) + if keys.last() == x { 1nat } else { 0nat }
    }
}

/// The counts under each of `keys`, added up.
spec fn sum_key_counts(ps: Seq<PendingApproval>, keys: Seq<Seq<char>>) -> nat
    decreases keys.len(),
{
    if keys.len() == 0 {
        0
    } else {
        sum_key_counts(ps, keys.drop_last()) + key_count(ps, keys.last())
    }
}

/// The subagent approvals of `ps` counted under one of `keys`.
spec fn covered(ps: Seq<PendingApproval>, keys: Seq<Seq<char>>) -> nat
    decreases ps.len(),
{
    if ps.len() == 0 {
        0
    } else {
        covered(ps.drop_last(), keys) + if is_subagent_pending(ps.last()) && keys.contains(state_key(ps.last())) {
            1nat
        } else {
            0nat
        }
    }
}

proof fn lemma_occurrences_distinct(keys: Seq<Seq<char>>, x: Seq<char>)
    requires
        keys.no_duplicates(),
    ensures
        occurrences(keys, x) == if keys.contains(x) { 1nat } else { 0nat },
    decreases keys.len(),
{
    if keys.len() > 0 {
        let q = keys.drop_last();
        assert(q.no_duplicates());
        lemma_occurrences_distinct(q, x);
        if keys.last() == x {
            assert(!q.contains(x)) by {
                if q.contains(x) {
                    let i = choose|i: int| 0 <= i < q.len() && q[i] == x;
                    assert(keys[i] == keys[keys.len() - 1]);
                }
            }
        }
        assert(keys.contains(x) <==> (q.contains(x) || keys.last() == x)) by {
            if keys.contains(x) {
                let i = choose|i: int| 0 <= i < keys.len() && keys[i] == x;
                if i < keys.len() - 1 {
                    assert(q[i] == x);
                }
            }
            if q.contains(x) {
                let i = choose|i: int| 0 <= i < q.len() && q[i] == x;
                assert(keys[i] == x);
            }
        }
    }
}

proof fn lemma_sum_key_counts_step(ps: Seq<PendingApproval>, keys: Seq<Seq<char>>)
    requires
        ps.len() > 0,
    ensures
        sum_key_counts(ps, keys) == sum_key_counts(ps.drop_last(), keys) + if is_subagent_pending(ps.last()) {
            occurrences(keys, state_key(ps.last()))
        } else {
            0nat
        },
    decreases keys.len(),
{
    if keys.len() > 0 {
        lemma_sum_key_counts_step(ps, keys.drop_last());
    }
}

proof fn lemma_sum_key_counts_covered(ps: Seq<PendingApproval>, keys: Seq<Seq<char>>)
    requires
        keys.no_duplicates(),
    ensures
        sum_key_counts(ps, keys) == covered(ps, keys),
    decreases ps.len(),
{
    if ps.len() == 0 {
        lemma_sum_key_counts_empty(ps, keys);
    } else {
        lemma_sum_key_counts_covered(ps.drop_last(), keys);
        lemma_sum_key_counts_step(ps, keys);
        lemma_occurrences_distinct(keys, state_key(ps.last()));
    }
}

proof fn lemma_sum_key_counts_empty(ps: Seq<PendingApproval>, keys: Seq<Seq<char>>)
    requires
        ps.len() == 0,
    ensures
        sum_key_counts(ps, keys) == 0,
    decreases keys.len(),
{
    if keys.len() > 0 {
        lemma_sum_key_counts_empty(ps, keys.drop_last());
    }
}

proof fn lemma_covered_all(ps: Seq<PendingApproval>, keys: Seq<Seq<char>>)
    requires
        forall|k: int| 0 <= k < ps.len() && is_subagent_pending(#[trigger] ps[k]) ==> keys.contains(state_key(ps[k])),
    ensures
        covered(ps, keys) == subagent_count(ps),
    decreases ps.len(),
{
    if ps.len() > 0 {
        let q = ps.drop_last();
        assert forall|k: int| 0 <= k < q.len() && is_subagent_pending(#[trigger] q[k]) implies keys.contains(state_key(q[k])) by {
            assert(q[k] == ps[k]);
        }
        lemma_covered_all(q, keys);
        assert(ps[ps.len() - 1] == ps.last());
    }
}

proof fn lemma_sum_counts_keys(states: Seq<(String, usize)>, ps: Seq<PendingApproval>)
    requires
        forall|i: int| 0 <= i < states.len() ==> #[trigger] states[i].1 == key_count(ps, states[i].0@),
    ensures
        sum_counts(states) == sum_key_counts(ps, states.map_values(|e: (String, usize)| e.0@)),
    decreases states.len(),
{
    if states.len() > 0 {
        let q = states.drop_last();
        assert forall|i: int| 0 <= i < q.len() implies #[trigger] q[i].1 == key_count(ps, q[i].0@) by {
            assert(q[i] == states[i]);
        }
        lemma_sum_counts_keys(q, ps);
        let ks = states.map_values(|e: (String, usize)| e.0@);
        assert(ks.drop_last() =~= q.map_values(|e: (String, usize)| e.0@));
        assert(states[states.len() - 1] == states.last());
    }
}

/// A summary's state counts add up to its total: every subagent approval is
/// counted under exactly one state.
pub proof fn lemma_summary_counts_add_up(s: SubagentPendingSummary, ps: Seq<PendingApproval>)
    requires
        summarizes(s, ps),
    ensures
        sum_counts(s.states@) == s.total,
{
    let st = s.states@;
    let ks = st.map_values(|e: (String, usize)| e.0@);
    lemma_sum_counts_keys(st, ps);
    assert(ks.no_duplicates()) by {
        assert forall|i: int, j: int| 0 <= i < ks.len() && 0 <= j < ks.len() && i != j implies ks[i] != ks[j] by {
            if i < j {
                assert(text_lt(st[i].0@, st[j].0@));
                lemma_text_lt_irreflexive(st[i].0@);
            } else {
                assert(text_lt(st[j].0@, st[i].0@));
                lemma_text_lt_irreflexive(st[j].0@);
            }
        }
    }
    lemma_sum_key_counts_covered(ps, ks);
    assert forall|k: int| 0 <= k < ps.len() && is_subagent_pending(#[trigger] ps[k]) implies ks.contains(state_key(ps[k])) by {
        let i = choose|i: int| 0 <= i < st.len() && #[trigger] st[i].0@ == state_key(ps[k]);
        assert(ks[i] == state_key(ps[k]));
    }
    lemma_covered_all(ps, ks);
}

pub fn is_subagent_proxy_pending_approval(p: &PendingApproval) -> (r: bool)
    ensures
        r == is_subagent_pending(*p),
{
    p.subagent_proxy_action_id || match &p.action {
        Some(a) => {
            let cs = chars_of(a.as_str());
            chars_eq_str(cs.as_slice(), "subagent/proxy_approval")
        },
        None => false,
    }
}

fn state_key_string(p: &PendingApproval) -> (r: String)
    ensures
        r@ == state_key(*p),
{
    match &p.child_attention_state {
        Some(s) => {
            let cs = chars_of(s.as_str());
            let t = trim_chars(cs.as_slice());
            if t.len() > 0 {
                let l = to_lower(t.as_slice());
                string_of(l.as_slice())
            } else {
                crate::text::owned("unknown")
            }
        },
        None => crate::text::owned("unknown"),
    }
}

/// Whether `a` comes before `b`.
fn chars_lt(a: &[char], b: &[char]) -> (r: bool)
    ensures
        r == text_lt(a@, b@),
{
    let mut i: usize = 0;
    assert(a@.skip(0) =~= a@ && b@.skip(0) =~= b@);
    while i < a.len() && i < b.len() && a[i] == b[i]
        invariant
            i <= a.len(),
            i <= b.len(),
            a@.subrange(0, i as int) == b@.subrange(0, i as int),
            text_lt(a@, b@) == text_lt(a@.skip(i as int), b@.skip(i as int)),
        decreases a.len() - i,
    {
        proof {
            assert(a@.skip(i as int).drop_first() =~= a@.skip(i + 1));
            assert(b@.skip(i as int).drop_first() =~= b@.skip(i + 1));
        }
        i += 1;
    }
    if i == b.len() {
        false
    } else if i == a.len() {
        true
    } else {
        a[i] < b[i]
    }
}

/// Counts one approval under `key`: adds the key in its place, or adds one
/// to its count.
fn count_state(states: &mut Vec<(String, usize)>, key: String, Ghost(ps): Ghost<Seq<PendingApproval>>, Ghost(p): Ghost<PendingApproval>)
    requires
        strictly_sorted(old(states)@),
        forall|i: int| 0 <= i < old(states)@.len() ==> #[trigger] old(states)@[i].1 == key_count(ps, old(states)@[i].0@),
        forall|k: int| 0 <= k < ps.len() && is_subagent_pending(#[trigger] ps[k]) ==> exists|i: int|
            0 <= i < old(states)@.len() && #[trigger] old(states)@[i].0@ == state_key(ps[k]),
        is_subagent_pending(p),
        key@ == state_key(p),
        ps.len() < usize::MAX,
    ensures
        strictly_sorted(final(states)@),
        forall|i: int| 0 <= i < final(states)@.len() ==> #[trigger] final(states)@[i].1 == key_count(ps.push(p), final(states)@[i].0@),
        exists|i: int| 0 <= i < final(states)@.len() && #[trigger] final(states)@[i].0@ == key@,
        forall|i: int| 0 <= i < old(states)@.len() ==> exists|j: int| 0 <= j < final(states)@.len() && #[trigger] final(states)@[j].0@ == #[trigger] old(states)@[i].0@,
{
    let ghost ps1 = ps.push(p);
    assert(ps1.drop_last() =~= ps);
    assert forall|k: Seq<char>| key_count(ps1, k) == key_count(ps, k) + (if state_key(p) == k { 1nat } else { 0nat }) by {}
    let kc = chars_of(key.as_str());
    let n = states.len();
    let mut j: usize = 0;
    while j < n
        invariant
            n == states@.len(),
            j <= n,
            states@ == old(states)@,
            kc@ == key@,
            forall|i: int| 0 <= i < j ==> text_lt(#[trigger] states@[i].0@, key@),
        ensures
            j <= n,
            states@ == old(states)@,
            forall|i: int| 0 <= i < j ==> text_lt(#[trigger] states@[i].0@, key@),
            j < n ==> !text_lt(states@[j as int].0@, key@),
        decreases n - j,
    {
        let sc = chars_of(states[j].0.as_str());
        if !chars_lt(sc.as_slice(), kc.as_slice()) {
            break;
        }
        j += 1;
    }
    let ghost old_states = states@;
    proof {
        assert forall|i: int| 0 <= i < j implies text_lt(#[trigger] old_states[i].0@, key@) by {}
    }
    let found = if j < n {
        let sc = chars_of(states[j].0.as_str());
        crate::text::chars_eq(sc.as_slice(), kc.as_slice())
    } else {
        false
    };
    if found {
        proof {
            lemma_count_bound(ps, key@);
        }
        let c = states[j].1;
        states.set(j, (key, c + 1));
        assert(states@[j as int].0@ == key@);
        assert forall|i: int| 0 <= i < states@.len() implies #[trigger] states@[i].1 == key_count(ps1, states@[i].0@) by {
            if i != j {
                assert(states@[i] == old_states[i]);
                lemma_text_lt_irreflexive(key@);
                if i < j {
                    assert(text_lt(old_states[i].0@, key@));
                } else {
                    assert(text_lt(old_states[j as int].0@, old_states[i].0@));
                }
            }
        }
        assert forall|i: int| 0 <= i < old_states.len() implies exists|jj: int| 0 <= jj < states@.len() && #[trigger] states@[jj].0@ == #[trigger] old_states[i].0@ by {
            assert(states@[i].0@ == old_states[i].0@);
        }
    } else {
        proof {
            if j < n {
                lemma_text_lt_total(old_states[j as int].0@, key@);
            }
            lemma_count_absent(ps, old_states, key@, j as int);
        }
        states.insert(j, (key, 1));
        assert(states@[j as int].0@ == key@);
        assert forall|a: int, b: int| 0 <= a < b < states@.len() implies text_lt(#[trigger] states@[a].0@, #[trigger] states@[b].0@) by {
            if b == j {
                assert(states@[a] == old_states[a]);
            } else if a == j {
                assert(states@[b] == old_states[b - 1]);
                if b - 1 > j {
                    lemma_text_lt_transitive(key@, old_states[j as int].0@, old_states[b - 1].0@);
                }
            } else if a < j {
                assert(states@[a] == old_states[a]);
                if b < j {
                    assert(states@[b] == old_states[b]);
                } else {
                    assert(states@[b] == old_states[b - 1]);
                }
            } else {
                assert(states@[a] == old_states[a - 1]);
                assert(states@[b] == old_states[b - 1]);
            }
        }
        assert forall|i: int| 0 <= i < states@.len() implies #[trigger] states@[i].1 == key_count(ps1, states@[i].0@) by {
            if i < j {
                assert(states@[i] == old_states[i]);
                lemma_text_lt_irreflexive(key@);
            } else if i > j {
                assert(states@[i] == old_states[i - 1]);
                lemma_text_lt_irreflexive(key@);
                if i - 1 > j {
                    lemma_text_lt_transitive(key@, old_states[j as int].0@, old_states[i - 1].0@);
                }
            }
        }
        assert forall|i: int| 0 <= i < old_states.len() implies exists|jj: int| 0 <= jj < states@.len() && #[trigger] states@[jj].0@ == #[trigger] old_states[i].0@ by {
            if i < j {
                assert(states@[i].0@ == old_states[i].0@);
            } else {
                assert(states@[i + 1].0@ == old_states[i].0@);
            }
        }
    }
}

proof fn lemma_count_bound(ps: Seq<PendingApproval>, key: Seq<char>)
    ensures
        key_count(ps, key) <= ps.len(),
    decreases ps.len(),
{
    if ps.len() > 0 {
        lemma_count_bound(ps.drop_last(), key);
    }
}

/// A key that no approval of `ps` is counted under has no count yet.
proof fn lemma_count_absent(ps: Seq<PendingApproval>, states: Seq<(String, usize)>, key: Seq<char>, j: int)
    requires
        0 <= j <= states.len(),
        strictly_sorted(states),
        forall|i: int| 0 <= i < j ==> text_lt(#[trigger] states[i].0@, key),
        j < states.len() ==> text_lt(key, states[j].0@),
        forall|k: int| 0 <= k < ps.len() && is_subagent_pending(#[trigger] ps[k]) ==> exists|i: int|
            0 <= i < states.len() && #[trigger] states[i].0@ == state_key(ps[k]),
    ensures
        key_count(ps, key) == 0,
    decreases ps.len(),
{
    if ps.len() > 0 {
        let q = ps.drop_last();
        assert forall|k: int| 0 <= k < q.len() && is_subagent_pending(#[trigger] q[k]) implies exists|i: int|
            0 <= i < states.len() && #[trigger] states[i].0@ == state_key(q[k]) by {
            assert(q[k] == ps[k]);
        }
        lemma_count_absent(q, states, key, j);
        let last = ps.last();
        if is_subagent_pending(last) && state_key(last) == key {
            assert(ps[ps.len() - 1] == last);
            let i = choose|i: int| 0 <= i < states.len() && #[trigger] states[i].0@ == state_key(ps[ps.len() - 1]);
            lemma_text_lt_irreflexive(key);
            if i > j {
                lemma_text_lt_transitive(key, states[j].0@, states[i].0@);
            }
        }
    }
}

/// Counts the pending subagent approvals by the child's attention state;
/// `None` when there are none.
pub fn summarize_subagent_pending_approvals(approvals: &[PendingApproval]) -> (r: Option<SubagentPendingSummary>)
    ensures
        r is None <==> subagent_count(approvals@) == 0,
        r matches Some(s) ==> summarizes(s, approvals@),
{
    let mut total: usize = 0;
    let mut states: Vec<(String, usize)> = Vec::new();
    let mut i: usize = 0;
    while i < approvals.len()
        invariant
            i <= approvals.len(),
            total == subagent_count(approvals@.take(i as int)),
            total <= i,
            summarizes((SubagentPendingSummary { total, states }), approvals@.take(i as int)),
        decreases approvals.len() - i,
    {
        let ghost prev = approvals@.take(i as int);
        let ghost next = approvals@.take(i + 1);
        proof {
            assert(next.drop_last() =~= prev);
            assert(next =~= prev.push(approvals@[i as int]));
        }
        let p = &approvals[i];
        if is_subagent_proxy_pending_approval(p) {
            let key = state_key_string(p);
            let ghost before = states@;
            count_state(&mut states, key, Ghost(prev), Ghost(*p));
            total += 1;
            proof {
                assert forall|k: int| 0 <= k < next.len() && is_subagent_pending(#[trigger] next[k]) implies exists|m: int|
                    0 <= m < states@.len() && #[trigger] states@[m].0@ == state_key(next[k]) by {
                    if k < prev.len() {
                        assert(next[k] == prev[k]);
                        let m0 = choose|m0: int| 0 <= m0 < before.len() && #[trigger] before[m0].0@ == state_key(prev[k]);
                        assert(exists|jj: int| 0 <= jj < states@.len() && #[trigger] states@[jj].0@ == before[m0].0@);
                    }
                }
            }
        } else {
            proof {
                assert forall|k: Seq<char>| key_count(next, k) == key_count(prev, k) by {}
                assert forall|m: int| 0 <= m < states@.len() implies #[trigger] states@[m].1 == key_count(next, states@[m].0@) by {
                    assert(key_count(next, states@[m].0@) == key_count(prev, states@[m].0@));
                }
                assert forall|k: int| 0 <= k < next.len() && is_subagent_pending(#[trigger] next[k]) implies exists|m: int|
                    0 <= m < states@.len() && #[trigger] states@[m].0@ == state_key(next[k]) by {
                    assert(next[k] == prev[k]);
                }
            }
        }
        i += 1;
    }
    proof {
        assert(approvals@.take(approvals.len() as int) =~= approvals@);
    }
    if total == 0 {
        None
    } else {
        Some(SubagentPendingSummary { total, states })
    }
}

/// The summary the approvals overlay shows (counted as
/// `summarize_subagent_pending_approvals` counts).
pub fn summarize_subagent_pending_approvals_for_overlay(approvals: &[PendingApproval]) -> (r: Option<SubagentPendingSummary>)
    ensures
        r is None <==> subagent_count(approvals@) == 0,
        r matches Some(s) ==> summarizes(s, approvals@),
{
    summarize_subagent_pending_approvals(approvals)
}

/// The summary the thread view's footer shows (counted as
/// `summarize_subagent_pending_approvals` counts).
pub fn summarize_subagent_pending_summary(approvals: &[PendingApproval]) -> (r: Option<SubagentPendingSummary>)
    ensures
        r is None <==> subagent_count(approvals@) == 0,
        r matches Some(s) ==> summarizes(s, approvals@),
{
    summarize_subagent_pending_approvals(approvals)
}

/// Replaces the overlay's subagent summary with that of the thread's
/// pending approvals; `None` (the attention could not be read) clears it.
pub fn refresh_approvals_overlay_subagent_summary(view: &mut ApprovalsOverlay, attention: Option<&[PendingApproval]>)
    ensures
        *final(view) == (ApprovalsOverlay { subagent_pending_summary: final(view).subagent_pending_summary, ..*old(view) }),
        match attention {
            Some(ps) => match final(view).subagent_pending_summary {
                Some(s) => subagent_count(ps@) > 0 && summarizes(s, ps@),
                None => subagent_count(ps@) == 0,
            },
            None => final(view).subagent_pending_summary is None,
        },
{
    view.subagent_pending_summary = match attention {
        Some(ps) => summarize_subagent_pending_approvals_for_overlay(ps),
        None => None,
    };
}

} // verus!
