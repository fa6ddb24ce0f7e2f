//! Ordering of texts (`Ord` for `String`: code point by code point, a proper
//! prefix first) and a stable sort of string lists.
use vstd::prelude::*;
use crate::text::chars_of;

verus! {

broadcast use vstd::seq_lib::group_to_multiset_ensures;

/// `a <= b` in the order of `String`.
pub open spec fn text_le(a: Seq<char>, b: Seq<char>) -> bool
    decreases a.len(),
{
    if a.len() == 0 {
        true
    } else if b.len() == 0 {
        false
    } else if (a[0] as u32) != (b[0] as u32) {
        (a[0] as u32) < (b[0] as u32)
    } else {
        text_le(a.drop_first(), b.drop_first())
    }
}

pub proof fn lemma_text_le_total(a: Seq<char>, b: Seq<char>)
    ensures
        text_le(a, b) || text_le(b, a),
    decreases a.len(),
{
    if a.len() > 0 && b.len() > 0 && (a[0] as u32) == (b[0] as u32) {
        lemma_text_le_total(a.drop_first(), b.drop_first());
    }
}

/// Characters with the same code are the same character.
proof fn lemma_char_code_injective(x: char, y: char)
    requires
        (x as u32) == (y as u32),
    ensures
        x == y,
{
}

/// Two texts each ordered before the other are equal.
pub proof fn lemma_text_le_antisym(a: Seq<char>, b: Seq<char>)
    requires
        text_le(a, b),
        text_le(b, a),
    ensures
        a == b,
    decreases a.len(),
{
    if a.len() > 0 && b.len() > 0 {
        assert((a[0] as u32) == (b[0] as u32));
        lemma_char_code_injective(a[0], b[0]);
        lemma_text_le_antisym(a.drop_first(), b.drop_first());
        assert(a =~= seq![a[0]] + a.drop_first());
        assert(b =~= seq![b[0]] + b.drop_first());
    } else {
        assert(a.len() == 0 && b.len() == 0);
        assert(a =~= b);
    }
}

pub proof fn lemma_text_le_trans(a: Seq<char>, b: Seq<char>, c: Seq<char>)
    requires
        text_le(a, b),
        text_le(b, c),
    ensures
        text_le(a, c),
    decreases a.len(),
{
    if a.len() > 0 && b.len() > 0 && c.len() > 0 && (a[0] as u32) == (b[0] as u32) && (b[0] as u32) == (c[0] as u32) {
        lemma_text_le_trans(a.drop_first(), b.drop_first(), c.drop_first());
    }
}

/// The texts of `s` are in non-decreasing order.
pub open spec fn texts_sorted(s: Seq<String>) -> bool {
    forall|i: int, j: int| 0 <= i < j < s.len() ==> text_le(#[trigger] s[i]@, #[trigger] s[j]@)
}

pub fn text_le_exec(a: &[char], b: &[char]) -> (r: bool)
    ensures
        r == text_le(a@, b@),
{
    let mut i: usize = 0;
    assert(a@.skip(0) =~= a@);
    assert(b@.skip(0) =~= b@);
    while i < a.len()
        invariant
            i <= a.len(),
            i <= b.len() || i == 0,
            text_le(a@, b@) == text_le(a@.skip(i as int), b@.skip(i as int)),
        decreases a.len() - i,
    {
        if i >= b.len() {
            return false;
        }
        if (a[i] as u32) != (b[i] as u32) {
            return (a[i] as u32) < (b[i] as u32);
        }
        assert(a@.skip(i as int).drop_first() =~= a@.skip(i + 1));
        assert(b@.skip(i as int).drop_first() =~= b@.skip(i + 1));
        i += 1;
    }
    true
}

/// The strings of `v` in the order of `String`, equal ones in their original order.
pub fn sort_strings(v: Vec<String>) -> (out: Vec<String>)
    ensures
        texts_sorted(out@),
        out@.to_multiset() == v@.to_multiset(),
{
    let mut out: Vec<String> = Vec::new();
    let mut keys: Vec<Vec<char>> = Vec::new();
    let mut i: usize = 0;
    while i < v.len()
        invariant
            i <= v.len(),
            keys.len() == out.len(),
            forall|k: int| 0 <= k < out.len() ==> #[trigger] keys@[k]@ == out@[k]@,
            texts_sorted(out@),
            out@.to_multiset() == v@.take(i as int).to_multiset(),
        decreases v.len() - i,
    {
        let x = v[i].clone();
        let xk = chars_of(x.as_str());
        let mut p: usize = 0;
        while p < out.len() && text_le_exec(keys[p].as_slice(), xk.as_slice())
            invariant
                p <= out.len(),
                xk@ == x@,
                keys.len() == out.len(),
                forall|k: int| 0 <= k < out.len() ==> #[trigger] keys@[k]@ == out@[k]@,
                forall|k: int| 0 <= k < p ==> text_le(#[trigger] out@[k]@, x@),
            decreases out.len() - p,
        {
            p += 1;
        }
        proof {
            if p < out.len() {
                assert(!text_le(out@[p as int]@, x@));
                lemma_text_le_total(out@[p as int]@, x@);
            }
            assert forall|k: int| p <= k < out.len() implies text_le(x@, #[trigger] out@[k]@) by {
                if k > p {
                    lemma_text_le_trans(x@, out@[p as int]@, out@[k]@);
                }
            }
            vstd::seq_lib::to_multiset_insert(out@, p as int, x);
            assert(v@.take(i + 1) =~= v@.take(i as int).push(v@[i as int]));
        }
        let ghost prev = out@;
        out.insert(p, x);
        keys.insert(p, xk);
        proof {
            assert forall|a: int, b: int| 0 <= a < b < out.len() implies text_le(
                #[trigger] out@[a]@,
                #[trigger] out@[b]@,
            ) by {
                if a < p as int && b < p as int {
                    assert(out@[a] == prev[a] && out@[b] == prev[b]);
                } else if a < p as int && b == p as int {
                } else if a < p as int {
                    assert(out@[a] == prev[a] && out@[b] == prev[b - 1]);
                    lemma_text_le_trans(prev[a]@, x@, prev[b - 1]@);
                } else if a == p as int {
                    assert(out@[b] == prev[b - 1]);
                } else {
                    assert(out@[a] == prev[a - 1] && out@[b] == prev[b - 1]);
                }
            }
        }
        i += 1;
    }
    assert(v@.take(v.len() as int) =~= v@);
    out
}

} // verus!
