//! Layout of text for the terminal: wrapping and truncating to a column
//! width, padding and eliding, and the styled lines of the transcript, the
//! command palette and the input box.
use vstd::prelude::*;
use crate::text::{
    chars_of, deep_chars, is_ws, join, join_chars, pop_char, push_char, push_chars, push_str,
    split_words, string_of, trim, trim_chars, words,
};
use crate::style::{lines_view, span, Color, SpanStyle, StyledLine, StyledSpan};
use crate::width::{
    char_cols, col, cols, push_spaces, spaces, spaces_string, str_width, unicode_str_width,
};

verus! {

// ---------------------------------------------------------------------------
// Wrapping
// ---------------------------------------------------------------------------

/// Greedy wrapping of `s` into segments of at most `maxw` columns, scanned
/// left to right: the finished segments, the open segment and its columns.
/// A character that does not fit starts a new segment, unless the open
/// segment is empty.
pub open spec fn wrap_scan(s: Seq<char>, maxw: nat) -> (Seq<Seq<char>>, Seq<char>, nat)
    decreases s.len(),
{
    if s.len() == 0 {
        (seq![], seq![], 0)
    } else {
        let prev = wrap_scan(s.drop_last(), maxw);
        let c = s.last();
        if prev.2 + col(c) > maxw && prev.1.len() > 0 {
            (prev.0.push(prev.1), seq![c], col(c))
        } else {
            (prev.0, prev.1.push(c), prev.2 + col(c))
        }
    }
}

/// The segments `wrap_plain_text` gives for `s` at width `max_width` (taken as at least 1).
pub open spec fn wrap_spec(s: Seq<char>, max_width: nat) -> Seq<Seq<char>> {
    let w = wrap_width(max_width);
    wrap_scan(s, w).0.push(wrap_scan(s, w).1)
}

/// All the characters of a list of segments, in order.
pub open spec fn flatten(parts: Seq<Seq<char>>) -> Seq<char>
    decreases parts.len(),
{
    if parts.len() == 0 {
        seq![]
    } else {
        flatten(parts.drop_last()) + parts.last()
    }
}

proof fn lemma_flatten_push(parts: Seq<Seq<char>>, p: Seq<char>)
    ensures
        flatten(parts.push(p)) == flatten(parts) + p,
{
    assert(parts.push(p).drop_last() =~= parts);
}

/// No segment is followed by one whose first character would have fitted
/// after it.
pub open spec fn greedy_segments(segs: Seq<Seq<char>>, maxw: nat) -> bool {
    forall|i: int| 0 <= i < segs.len() - 1 ==> cols(#[trigger] segs[i]) + col(segs[i + 1][0]) > maxw
}

proof fn lemma_wrap_scan(s: Seq<char>, maxw: nat)
    requires
        maxw >= 1,
    ensures
        flatten(wrap_scan(s, maxw).0) + wrap_scan(s, maxw).1 == s,
        wrap_scan(s, maxw).2 == cols(wrap_scan(s, maxw).1),
        wrap_scan(s, maxw).1.len() == 0 ==> s.len() == 0,
        cols(wrap_scan(s, maxw).1) <= maxw || wrap_scan(s, maxw).1.len() == 1,
        forall|i: int|
            0 <= i < wrap_scan(s, maxw).0.len() ==> {
                let seg = #[trigger] wrap_scan(s, maxw).0[i];
                &&& seg.len() > 0
                &&& (cols(seg) <= maxw || seg.len() == 1)
            },
        greedy_segments(wrap_scan(s, maxw).0, maxw),
        wrap_scan(s, maxw).0.len() > 0 && wrap_scan(s, maxw).1.len() > 0 ==> cols(wrap_scan(s, maxw).0.last())
            + col(wrap_scan(s, maxw).1[0]) > maxw,
        wrap_scan(s, maxw).1.len() == 0 ==> wrap_scan(s, maxw).0.len() == 0,
    decreases s.len(),
{
    if s.len() > 0 {
        let prev = wrap_scan(s.drop_last(), maxw);
        lemma_wrap_scan(s.drop_last(), maxw);
        let c = s.last();
        lemma_flatten_push(prev.0, prev.1);
        if prev.2 + col(c) > maxw && prev.1.len() > 0 {
            assert(seq![c].drop_last() =~= Seq::<char>::empty());
            assert(cols(Seq::<char>::empty()) == 0);
            assert(seq![c].last() == c);
            assert(cols(seq![c]) == col(c));
            assert(flatten(prev.0.push(prev.1)) + seq![c] =~= s);
            let d = prev.0.push(prev.1);
            assert forall|i: int| 0 <= i < d.len() - 1 implies cols(#[trigger] d[i]) + col(d[i + 1][0]) > maxw by {
                if i < prev.0.len() - 1 {
                    assert(d[i] == prev.0[i] && d[i + 1] == prev.0[i + 1]);
                } else {
                    assert(d[i] == prev.0.last() && d[i + 1] == prev.1);
                }
            }
        } else {
            assert(prev.1.push(c).drop_last() =~= prev.1);
            assert(s =~= s.drop_last().push(c));
            assert(flatten(prev.0) + prev.1.push(c) =~= (flatten(prev.0) + prev.1).push(c));
            if prev.1.len() == 0 {
                assert(prev.1.push(c).len() == 1);
            } else {
                assert(prev.1.push(c)[0] == prev.1[0]);
            }
        }
    }
}

/// The width `wrap_plain_text` works to: the one asked for, and at least 1.
pub open spec fn wrap_width(max_width: nat) -> nat {
    if max_width == 0 { 1 } else { max_width }
}

/// Wrapping loses and adds nothing: the segments of `text`, put back
/// together, are `text`; there is always at least one segment; every segment
/// fits the width or is a single character that does not; only a text that
/// is empty gives an empty segment (then the only one); and no segment is
/// followed by one whose first character would have fitted after it.
pub proof fn lemma_wrap_plain_text(text: Seq<char>, max_width: nat)
    ensures
        flatten(wrap_spec(text, max_width)) == text,
        wrap_spec(text, max_width).len() >= 1,
        forall|i: int|
            0 <= i < wrap_spec(text, max_width).len() ==> {
                let seg = #[trigger] wrap_spec(text, max_width)[i];
                &&& (cols(seg) <= wrap_width(max_width) || seg.len() == 1)
                &&& (seg.len() == 0 ==> text.len() == 0)
            },
        greedy_segments(wrap_spec(text, max_width), wrap_width(max_width)),
        text.len() == 0 ==> wrap_spec(text, max_width) == seq![Seq::<char>::empty()],
{
    let w = wrap_width(max_width);
    lemma_wrap_scan(text, w);
    lemma_flatten_push(wrap_scan(text, w).0, wrap_scan(text, w).1);
    let d = wrap_scan(text, w).0;
    let o = wrap_scan(text, w).1;
    let all = d.push(o);
    assert forall|i: int| 0 <= i < all.len() - 1 implies cols(#[trigger] all[i]) + col(all[i + 1][0]) > w by {
        if i < d.len() - 1 {
            assert(all[i] == d[i] && all[i + 1] == d[i + 1]);
        } else {
            assert(all[i] == d.last() && all[i + 1] == o);
        }
    }
    if text.len() == 0 {
        assert(all =~= seq![Seq::<char>::empty()]);
    }
}

/// Splits `text` into segments of at most `max_width` columns (at least 1);
/// a character wider than the width gets a segment of its own.
pub fn wrap_plain_text(text: &str, max_width: usize) -> (out: Vec<String>)
    ensures
        crate::inline_context::strings_view(out@) == wrap_spec(text@, max_width as nat),
{
    let max_width = if max_width == 0 { 1 } else { max_width };
    let cs = chars_of(text);
    let mut done: Vec<String> = Vec::new();
    let mut current = String::new();
    let mut current_width: usize = 0;
    let mut current_len: usize = 0;
    let mut i: usize = 0;
    while i < cs.len()
        invariant
            i <= cs.len(),
            cs@ == text@,
            max_width >= 1,
            (crate::inline_context::strings_view(done@), current@, current_width as nat)
                == wrap_scan(cs@.take(i as int), max_width as nat),
            current_len == current@.len(),
            current_len <= i,
            current_width <= max_width || current@.len() == 1,
            current@.len() == 0 ==> current_width == 0,
            current@.len() == 1 ==> current_width <= 3,
        decreases cs.len() - i,
    {
        proof {
            lemma_wrap_scan(cs@.take(i as int), max_width as nat);
        }
        assert(cs@.take(i + 1).drop_last() =~= cs@.take(i as int));
        assert(cs@.take(i + 1).last() == cs[i as int]);
        let ch = cs[i];
        let ch_width = char_cols(ch);
        if current_width as u128 + ch_width as u128 > max_width as u128 && current_len > 0 {
            let full = current;
            done.push(full);
            current = String::new();
            current_width = 0;
            current_len = 0;
            assert(crate::inline_context::strings_view(done@) =~= wrap_scan(
                cs@.take(i + 1),
                max_width as nat,
            ).0);
        }
        push_char(&mut current, ch);
        current_width += ch_width;
        current_len += 1;
        assert(crate::inline_context::strings_view(done@) =~= wrap_scan(
            cs@.take(i + 1),
            max_width as nat,
        ).0);
        i += 1;
    }
    assert(cs@.take(cs.len() as int) =~= cs@);
    done.push(current);
    assert(crate::inline_context::strings_view(done@) =~= wrap_spec(text@, max_width as nat));
    done
}

// ---------------------------------------------------------------------------
// Truncating, padding, eliding
// ---------------------------------------------------------------------------

/// How many leading characters of `s` fit in `maxw` columns laid out one
/// after another: the scan stops at the first character that would overflow.
pub open spec fn fit_len(s: Seq<char>, maxw: nat) -> nat
    decreases s.len(),
{
    if s.len() == 0 {
        0
    } else {
        let k = fit_len(s.drop_last(), maxw);
        if k < s.len() - 1 {
            k
        } else if cols(s) <= maxw {
            s.len()
        } else {
            k
        }
    }
}

/// `s` without its last character, if it has one.
pub open spec fn drop_last_char(s: Seq<char>) -> Seq<char> {
    if s.len() > 0 { s.drop_last() } else { s }
}

/// `truncate_to_width`: the characters that fit in `maxw` columns; when some
/// were cut and the width allows it, an ellipsis replaces the tail (dropping
/// one more character when the kept text already fills the width).
pub open spec fn truncate_spec(s: Seq<char>, maxw: nat) -> Seq<char> {
    if maxw == 0 {
        seq![]
    } else {
        let k = fit_len(s, maxw);
        let kept = s.take(k as int);
        if k < s.len() && maxw > 1 {
            let cut = if unicode_str_width(kept) >= maxw { drop_last_char(kept) } else { kept };
            cut.push('…')
        } else {
            kept
        }
    }
}

proof fn lemma_fit_len_bound(s: Seq<char>, maxw: nat)
    ensures
        fit_len(s, maxw) <= s.len(),
    decreases s.len(),
{
    if s.len() > 0 {
        lemma_fit_len_bound(s.drop_last(), maxw);
    }
}

/// Once the scan has stopped, later characters do not change where.
proof fn lemma_fit_len_stopped(s: Seq<char>, j: int, m: int, maxw: nat)
    requires
        0 <= j <= m <= s.len(),
        fit_len(s.take(j), maxw) < j,
    ensures
        fit_len(s.take(m), maxw) == fit_len(s.take(j), maxw),
    decreases m - j,
{
    if m > j {
        lemma_fit_len_stopped(s, j, m - 1, maxw);
        assert(s.take(m).drop_last() =~= s.take(m - 1));
    }
}

/// Cuts `text` to at most `max_width` columns, ending it with `…` when
/// something was cut and the width is more than one column.
pub fn truncate_to_width(text: &str, max_width: usize) -> (out: String)
    ensures
        out@ == truncate_spec(text@, max_width as nat),
{
    if max_width == 0 {
        return String::new();
    }
    let cs = chars_of(text);
    let mut out = String::new();
    let mut width: usize = 0;
    let mut truncated = false;
    let mut i: usize = 0;
    while i < cs.len()
        invariant_except_break
            i <= cs.len(),
            cs@ == text@,
            out@ == cs@.take(i as int),
            width as nat == cols(cs@.take(i as int)),
            width <= max_width,
            fit_len(cs@.take(i as int), max_width as nat) == i,
            !truncated,
        ensures
            i <= cs.len(),
            cs@ == text@,
            out@ == cs@.take(i as int),
            truncated ==> i < cs.len() && fit_len(cs@.take(i + 1), max_width as nat) == i,
            !truncated ==> i == cs.len() && fit_len(cs@.take(i as int), max_width as nat) == i,
        decreases cs.len() - i,
    {
        let ch = cs[i];
        let ch_width = char_cols(ch);
        assert(cs@.take(i + 1).drop_last() =~= cs@.take(i as int));
        assert(cs@.take(i + 1).last() == ch);
        if ch_width > max_width - width {
            truncated = true;
            break;
        }
        push_char(&mut out, ch);
        width += ch_width;
        i += 1;
        assert(out@ =~= cs@.take(i as int));
    }
    proof {
        assert(cs@.take(cs.len() as int) =~= cs@);
        if truncated {
            lemma_fit_len_stopped(cs@, i + 1, cs.len() as int, max_width as nat);
        }
    }
    if truncated && max_width > 1 {
        if str_width(out.as_str()) >= max_width {
            pop_char(&mut out);
        }
        push_char(&mut out, '…');
    }
    out
}

/// `value` followed by the spaces that bring it to `width` columns.
pub open spec fn pad_spec(value: Seq<char>, width: nat) -> Seq<char> {
    let w = unicode_str_width(value);
    value + spaces(if width > w { (width - w) as nat } else { 0 })
}

/// Pads `value` with spaces up to `width` columns.
pub fn pad_to_width(value: &str, width: usize) -> (out: String)
    ensures
        out@ == pad_spec(value@, width as nat),
{
    let mut out = crate::text::owned(value);
    let w = str_width(value);
    let pad = width.saturating_sub(w);
    if pad > 0 {
        push_spaces(&mut out, pad);
    } else {
        assert(out@ =~= value@ + spaces(0));
    }
    out
}

/// `normalize_single_line`: the words of `text` joined by single spaces, or
/// `-` for a blank text.
pub open spec fn single_line_spec(text: Seq<char>) -> Seq<char> {
    if trim(text).len() == 0 {
        seq!['-']
    } else {
        join(words(trim(text)), seq![' '])
    }
}

/// Collapses the whitespace of `text` to single spaces (`-` when blank).
pub fn normalize_single_line(text: &str) -> (out: String)
    ensures
        out@ == single_line_spec(text@),
{
    let cs = chars_of(text);
    let trimmed = trim_chars(cs.as_slice());
    if trimmed.len() == 0 {
        let out = string_of(&['-']);
        assert(out@ =~= seq!['-']);
        return out;
    }
    let parts = split_words(trimmed.as_slice());
    let joined = join_chars(&parts, &[' ']);
    assert(seq![' '] =~= [' ']@);
    string_of(joined.as_slice())
}

/// The tail `right_elide` keeps: characters taken from `rev` (the text read
/// backwards) while the tail so far is narrower than `k` columns.
pub open spec fn elide_tail(rev: Seq<char>, k: nat, acc: Seq<char>) -> Seq<char>
    decreases rev.len(),
{
    if rev.len() == 0 || unicode_str_width(acc) >= k {
        acc
    } else {
        elide_tail(rev.drop_first(), k, acc.push(rev[0]))
    }
}

/// `right_elide`: `value` when it fits in `max_width` columns; otherwise `…`
/// followed by the end of `value`.
pub open spec fn right_elide_spec(value: Seq<char>, max_width: nat) -> Seq<char> {
    if max_width == 0 {
        seq![]
    } else if unicode_str_width(value) <= max_width {
        value
    } else if max_width <= 1 {
        seq!['…']
    } else {
        seq!['…'] + elide_tail(value.reverse(), (max_width - 1) as nat, seq![]).reverse()
    }
}

/// Keeps the end of `value` within `max_width` columns, marking the cut with `…`.
pub fn right_elide(value: &str, max_width: usize) -> (out: String)
    ensures
        out@ == right_elide_spec(value@, max_width as nat),
{
    if max_width == 0 {
        return String::new();
    }
    if str_width(value) <= max_width {
        return crate::text::owned(value);
    }
    if max_width <= 1 {
        let out = string_of(&['…']);
        assert(out@ =~= seq!['…']);
        return out;
    }
    let tail_len = max_width - 1;
    let cs = chars_of(value);
    let ghost rev = cs@.reverse();
    let mut tail = String::new();
    let mut j: usize = 0;
    assert(rev.skip(0) =~= rev);
    while j < cs.len()
        invariant_except_break
            j <= cs.len(),
            cs@ == value@,
            rev == cs@.reverse(),
            elide_tail(rev.skip(j as int), tail_len as nat, tail@) == elide_tail(
                rev,
                tail_len as nat,
                seq![],
            ),
        ensures
            elide_tail(rev, tail_len as nat, seq![]) == tail@,
        decreases cs.len() - j,
    {
        if str_width(tail.as_str()) >= tail_len {
            break;
        }
        let ch = cs[cs.len() - 1 - j];
        assert(rev.skip(j as int).drop_first() =~= rev.skip(j + 1));
        assert(rev.skip(j as int)[0] == ch);
        push_char(&mut tail, ch);
        j += 1;
    }
    proof {
        if j == cs.len() {
            assert(rev.skip(j as int).len() == 0);
        }
    }
    let tail_chars = chars_of(tail.as_str());
    let mut out = string_of(&['…']);
    let mut k: usize = tail_chars.len();
    while k > 0
        invariant
            k <= tail_chars.len(),
            tail_chars@ == tail@,
            out@ == seq!['…'] + tail_chars@.reverse().take((tail_chars.len() - k) as int),
        decreases k,
    {
        k -= 1;
        push_char(&mut out, tail_chars[k]);
        assert(tail_chars@.reverse().take((tail_chars.len() - k) as int) =~= tail_chars@.reverse().take(
            (tail_chars.len() - k - 1) as int,
        ).push(tail_chars[k as int]));
    }
    assert(tail_chars@.reverse().take(tail_chars.len() as int) =~= tail_chars@.reverse());
    out
}

/// `format_subagent_pending_overlay_hint`: ` sub=TOTAL(s1:n1,s2:n2,s3:n3)`,
/// with `,...` after the third state when there are more.
pub open spec fn state_count_text(entry: (String, usize)) -> Seq<char> {
    entry.0@ + seq![':'] + crate::text::dec(entry.1 as nat)
}

pub open spec fn pending_hint_spec(total: usize, states: Seq<(String, usize)>) -> Seq<char> {
    let shown = states.take(if states.len() > 3 { 3 } else { states.len() as int });
    " sub="@ + crate::text::dec(total as nat) + seq!['('] + join(
        shown.map_values(|e: (String, usize)| state_count_text(e)),
        seq![','],
    ) + (if states.len() > 3 { ",..."@ } else { seq![] }) + seq![')']
}

/// The pending-subagent summary as the approvals overlay's title shows it.
pub fn format_subagent_pending_overlay_hint(summary: &crate::approvals::SubagentPendingSummary) -> (out: String)
    requires
        crate::pending_summary::summary_wf(*summary),
    ensures
        out@ == pending_hint_spec(summary.total, summary.states@),
{
    let n = summary.states.len();
    let shown: usize = if n > 3 { 3 } else { n };
    let ghost parts = summary.states@.take(shown as int).map_values(
        |e: (String, usize)| state_count_text(e),
    );
    let mut states = String::new();
    let mut i: usize = 0;
    while i < shown
        invariant
            i <= shown <= summary.states.len(),
            shown == (if summary.states.len() > 3 { 3 } else { summary.states.len() }),
            parts == summary.states@.take(shown as int).map_values(
                |e: (String, usize)| state_count_text(e),
            ),
            states@ == join(parts.take(i as int), seq![',']),
        decreases shown - i,
    {
        let ghost prev = states@;
        if i > 0 {
            push_char(&mut states, ',');
        }
        push_str(&mut states, summary.states[i].0.as_str());
        push_char(&mut states, ':');
        crate::text::push_dec(&mut states, summary.states[i].1 as u64);
        proof {
            assert(parts.take(i + 1).drop_last() =~= parts.take(i as int));
            assert(parts[i as int] == state_count_text(summary.states@[i as int]));
            if i == 0 {
                assert(states@ =~= join(parts.take(1), seq![',']));
            } else {
                assert(states@ =~= join(parts.take(i as int), seq![',']) + seq![','] + parts[i as int]);
            }
        }
        i += 1;
    }
    assert(parts.take(shown as int) =~= parts);
    if n > 3 {
        push_str(&mut states, ",...");
    }
    let mut out = String::new();
    push_str(&mut out, " sub=");
    crate::text::push_dec(&mut out, summary.total as u64);
    push_char(&mut out, '(');
    push_str(&mut out, states.as_str());
    push_char(&mut out, ')');
    proof {
        reveal_strlit(" sub=");
        reveal_strlit(",...");
    }
    assert(out@ =~= pending_hint_spec(summary.total, summary.states@));
    out
}

// ---------------------------------------------------------------------------
// Prefixed, wrapped lines (the transcript)
// ---------------------------------------------------------------------------

/// The view of a line: its spans' texts and styles.
pub type LineView = Seq<(Seq<char>, SpanStyle)>;

/// The segments of the lines `raws`, the first wrapped at `first_w` columns
/// and the others at `other_w`.
pub open spec fn wrapped_segments(raws: Seq<Seq<char>>, first_w: nat, other_w: nat) -> Seq<Seq<char>>
    decreases raws.len(),
{
    if raws.len() == 0 {
        seq![]
    } else {
        wrapped_segments(raws.drop_last(), first_w, other_w) + wrap_spec(
            raws.last(),
            if raws.len() == 1 { first_w } else { other_w },
        )
    }
}

/// The style of a body given as optional (none: plain).
pub open spec fn body_style(s: Option<SpanStyle>) -> SpanStyle {
    match s {
        Some(st) => st,
        None => SpanStyle::plain_spec(),
    }
}

/// One output line per segment: the prefix leads the first, an empty span
/// leads the others.
pub open spec fn prefixed_rows(
    segs: Seq<Seq<char>>,
    prefix: Seq<char>,
    ps: SpanStyle,
    bs: SpanStyle,
) -> Seq<LineView> {
    Seq::new(
        segs.len(),
        |j: int| seq![(if j == 0 { prefix } else { seq![] }, ps), (segs[j], bs)],
    )
}

/// `wrap_prefixed_lines`: `text` split at newlines, each line wrapped to
/// `width` columns (the first line to what the prefix leaves, at least one
/// column), the prefix in front of the very first segment.
pub open spec fn prefixed_lines_spec(
    prefix: Seq<char>,
    ps: SpanStyle,
    cs: Option<SpanStyle>,
    text: Seq<char>,
    width: nat,
) -> Seq<LineView> {
    let w = wrap_width(width);
    let pw = unicode_str_width(prefix) as nat;
    let first_w: nat = if w > pw { (w - pw) as nat } else { 1 };
    prefixed_rows(
        wrapped_segments(crate::text::split_on(text, '\n'), first_w, w),
        prefix,
        ps,
        body_style(cs),
    )
}

proof fn lemma_rows_push(
    segs: Seq<Seq<char>>,
    seg: Seq<char>,
    prefix: Seq<char>,
    ps: SpanStyle,
    bs: SpanStyle,
)
    ensures
        prefixed_rows(segs.push(seg), prefix, ps, bs) == prefixed_rows(segs, prefix, ps, bs).push(
            seq![(if segs.len() == 0 { prefix } else { seq![] }, ps), (seg, bs)],
        ),
{
    assert(prefixed_rows(segs.push(seg), prefix, ps, bs) =~= prefixed_rows(
        segs,
        prefix,
        ps,
        bs,
    ).push(seq![(if segs.len() == 0 { prefix } else { seq![] }, ps), (seg, bs)]));
}

proof fn lemma_wrapped_segments_nonempty(raws: Seq<Seq<char>>, first_w: nat, other_w: nat)
    ensures
        raws.len() > 0 ==> wrapped_segments(raws, first_w, other_w).len() > 0,
    decreases raws.len(),
{
    if raws.len() > 0 {
        lemma_wrap_plain_text(raws.last(), if raws.len() == 1 { first_w } else { other_w });
    }
}

proof fn lemma_wrapped_segments_flatten(raws: Seq<Seq<char>>, first_w: nat, other_w: nat)
    ensures
        flatten(wrapped_segments(raws, first_w, other_w)) == flatten(raws),
    decreases raws.len(),
{
    if raws.len() > 0 {
        let q = raws.drop_last();
        lemma_wrapped_segments_flatten(q, first_w, other_w);
        let w = if raws.len() == 1 { first_w } else { other_w };
        lemma_wrap_plain_text(raws.last(), w);
        lemma_flatten_concat(wrapped_segments(q, first_w, other_w), wrap_spec(raws.last(), w));
    }
}

proof fn lemma_flatten_concat(a: Seq<Seq<char>>, b: Seq<Seq<char>>)
    ensures
        flatten(a + b) == flatten(a) + flatten(b),
    decreases b.len(),
{
    if b.len() == 0 {
        assert(a + b =~= a);
        assert(flatten(a) + flatten(b) =~= flatten(a));
    } else {
        lemma_flatten_concat(a, b.drop_last());
        assert((a + b).drop_last() =~= a + b.drop_last());
        assert((a + b).last() == b.last());
        assert(flatten(a) + flatten(b) =~= flatten(a) + flatten(b.drop_last()) + b.last());
    }
}

/// Wrapping under a prefix gives one line per segment of the text's lines
/// (so at least one); the prefix leads the first line and an empty span
/// every later one; the second span of each line is its segment; and the
/// segments, put back together, are the text's lines put back together.
pub proof fn lemma_prefixed_lines(prefix: Seq<char>, ps: SpanStyle, cs: Option<SpanStyle>, text: Seq<char>, width: nat)
    ensures
        ({
            let w = wrap_width(width);
            let pw = unicode_str_width(prefix) as nat;
            let first_w: nat = if w > pw { (w - pw) as nat } else { 1 };
            let raws = crate::text::split_on(text, '\n');
            let segs = wrapped_segments(raws, first_w, w);
            let lines = prefixed_lines_spec(prefix, ps, cs, text, width);
            &&& lines.len() == segs.len()
            &&& lines.len() >= 1
            &&& lines[0][0].0 == prefix
            &&& forall|j: int| 1 <= j < lines.len() ==> (#[trigger] lines[j])[0].0 == Seq::<char>::empty()
            &&& forall|j: int| 0 <= j < lines.len() ==> (#[trigger] lines[j])[1].0 == segs[j]
            &&& flatten(segs) == flatten(raws)
        }),
{
    let w = wrap_width(width);
    let pw = unicode_str_width(prefix) as nat;
    let first_w: nat = if w > pw { (w - pw) as nat } else { 1 };
    let raws = crate::text::split_on(text, '\n');
    lemma_wrapped_segments_nonempty(raws, first_w, w);
    lemma_wrapped_segments_flatten(raws, first_w, w);
}

/// A line of two spans.
fn two_span_line(a: String, sa: SpanStyle, b: String, sb: SpanStyle) -> (r: StyledLine)
    ensures
        r@ == seq![(a@, sa), (b@, sb)],
{
    let mut spans: Vec<StyledSpan> = Vec::new();
    spans.push(span(a, sa));
    spans.push(span(b, sb));
    let r = StyledLine { spans };
    assert(r@ =~= seq![(a@, sa), (b@, sb)]);
    r
}

/// Wraps `text` under a prefix: the prefix, in its own style, leads the first
/// segment; the text is in `content_style` (plain when none).
pub fn wrap_prefixed_lines(
    prefix: &str,
    prefix_style: SpanStyle,
    content_style: Option<SpanStyle>,
    text: &str,
    width: usize,
) -> (out: Vec<StyledLine>)
    ensures
        lines_view(out@) == prefixed_lines_spec(prefix@, prefix_style, content_style, text@, width as nat),
{
    let width = if width == 0 { 1 } else { width };
    let prefix_width = str_width(prefix);
    let sub = width.saturating_sub(prefix_width);
    let available_first = if sub == 0 { 1 } else { sub };
    let available_other = width;
    let body = match content_style {
        Some(s) => s,
        None => SpanStyle::plain(),
    };
    let ghost first_w: nat = available_first as nat;
    let ghost bs = body_style(content_style);
    let cs = chars_of(text);
    let raws = crate::text::split_char(cs.as_slice(), '\n');
    let ghost raws_v = deep_chars(raws@);
    let mut out: Vec<StyledLine> = Vec::new();
    let mut first = true;
    let ghost mut segs: Seq<Seq<char>> = seq![];
    let mut i: usize = 0;
    while i < raws.len()
        invariant
            i <= raws.len(),
            raws_v == deep_chars(raws@),
            raws_v == crate::text::split_on(text@, '\n'),
            available_first >= 1,
            available_other >= 1,
            available_other as nat == wrap_width(width as nat),
            segs == wrapped_segments(raws_v.take(i as int), available_first as nat, available_other as nat),
            lines_view(out@) == prefixed_rows(segs, prefix@, prefix_style, bs),
            body == bs,
            first == (segs.len() == 0),
            i > 0 ==> segs.len() > 0,
        decreases raws.len() - i,
    {
        let max_width = if first { available_first } else { available_other };
        let raw = string_of(raws[i].as_slice());
        let segments = wrap_plain_text(raw.as_str(), max_width);
        proof {
            lemma_wrap_plain_text(raw@, max_width as nat);
            assert(raws_v.take(i + 1).drop_last() =~= raws_v.take(i as int));
            assert(raws_v.take(i + 1).last() == raw@);
        }
        let ghost start = segs;
        let mut k: usize = 0;
        while k < segments.len()
            invariant
                k <= segments.len(),
                segments.len() >= 1,
                segs == start + crate::inline_context::strings_view(segments@).take(k as int),
                lines_view(out@) == prefixed_rows(segs, prefix@, prefix_style, bs),
                body == bs,
                first == (segs.len() == 0),
            decreases segments.len() - k,
        {
            let lead = if first { crate::text::owned(prefix) } else { String::new() };
            let seg = crate::text::owned(segments[k].as_str());
            proof {
                lemma_rows_push(segs, seg@, prefix@, prefix_style, bs);
                assert(start + crate::inline_context::strings_view(segments@).take(k + 1) =~= (start
                    + crate::inline_context::strings_view(segments@).take(k as int)).push(seg@));
                segs = segs.push(seg@);
            }
            out.push(two_span_line(lead, prefix_style, seg, body));
            assert(lines_view(out@) =~= prefixed_rows(segs, prefix@, prefix_style, bs));
            first = false;
            k += 1;
        }
        proof {
            assert(crate::inline_context::strings_view(segments@).take(segments.len() as int)
                =~= crate::inline_context::strings_view(segments@));
            if i == 0 {
                assert(raws_v.take(0) =~= Seq::<Seq<char>>::empty());
                assert(max_width == available_first);
            } else {
                assert(max_width == available_other);
            }
        }
        i += 1;
    }
    proof {
        assert(raws_v.take(raws.len() as int) =~= raws_v);
        let pw = unicode_str_width(prefix@) as nat;
        let w = wrap_width(width as nat);
        assert(available_first as nat == (if w > pw { (w - pw) as nat } else { 1 }));
    }
    out
}

/// Who wrote a transcript entry.
#[derive(Debug, Clone, Copy, PartialEq, Eq, Structural)]
pub enum TranscriptRole {
    User,
    Assistant,
    System,
    Error,
    Tool,
    /// The model's streamed reasoning, kept once its message arrives.
    Thinking,
}

/// One entry of a thread's transcript.
#[derive(Debug)]
pub struct TranscriptEntry {
    pub role: TranscriptRole,
    pub text: String,
}

/// The prefix, prefix style and body style of each role.
pub open spec fn role_prefix(role: TranscriptRole) -> Seq<char> {
    match role {
        TranscriptRole::User => "user: "@,
        TranscriptRole::Assistant => "assistant: "@,
        TranscriptRole::System => "system: "@,
        TranscriptRole::Error => "error: "@,
        TranscriptRole::Tool => "tool: "@,
        TranscriptRole::Thinking => "thinking: "@,
    }
}

pub open spec fn role_color(role: TranscriptRole) -> Color {
    match role {
        TranscriptRole::User => Color::Yellow,
        TranscriptRole::Assistant => Color::Green,
        TranscriptRole::System => Color::Cyan,
        TranscriptRole::Error => Color::Red,
        TranscriptRole::Tool => Color::Blue,
        TranscriptRole::Thinking => Color::DarkGray,
    }
}

pub open spec fn role_body(role: TranscriptRole) -> Option<SpanStyle> {
    match role {
        TranscriptRole::Tool => Some(SpanStyle::fg_spec(Color::Blue)),
        _ => None,
    }
}

/// The lines of `text` under the prefix of `role`.
pub fn format_role_lines(role: TranscriptRole, text: &str, width: usize) -> (out: Vec<StyledLine>)
    ensures
        lines_view(out@) == prefixed_lines_spec(
            role_prefix(role),
            SpanStyle::fg_spec(role_color(role)),
            role_body(role),
            text@,
            width as nat,
        ),
{
    let (prefix, color, body) = match role {
        TranscriptRole::User => ("user: ", Color::Yellow, None),
        TranscriptRole::Assistant => ("assistant: ", Color::Green, None),
        TranscriptRole::System => ("system: ", Color::Cyan, None),
        TranscriptRole::Error => ("error: ", Color::Red, None),
        TranscriptRole::Tool => ("tool: ", Color::Blue, Some(SpanStyle::with_fg(Color::Blue))),
        TranscriptRole::Thinking => ("thinking: ", Color::DarkGray, None),
    };
    proof {
        reveal_strlit("user: ");
        reveal_strlit("assistant: ");
        reveal_strlit("system: ");
        reveal_strlit("error: ");
        reveal_strlit("tool: ");
        reveal_strlit("thinking: ");
    }
    wrap_prefixed_lines(prefix, SpanStyle::with_fg(color), body, text, width)
}

/// The lines of a transcript entry.
pub fn format_transcript_entry_lines(entry: &TranscriptEntry, width: usize) -> (out: Vec<StyledLine>)
    ensures
        lines_view(out@) == prefixed_lines_spec(
            role_prefix(entry.role),
            SpanStyle::fg_spec(role_color(entry.role)),
            role_body(entry.role),
            entry.text@,
            width as nat,
        ),
{
    format_role_lines(entry.role, entry.text.as_str(), width)
}

// ---------------------------------------------------------------------------
// The command palette
// ---------------------------------------------------------------------------

/// `usize::saturating_add` and `usize::saturating_sub` on naturals.
pub open spec fn sat_add(a: nat, b: nat) -> nat {
    if a + b > usize::MAX { usize::MAX as nat } else { a + b }
}

pub open spec fn sat_sub(a: nat, b: nat) -> nat {
    if a > b { (a - b) as nat } else { 0 }
}

/// A detail worth showing: present and not blank.
pub open spec fn shown_detail(detail: Option<Seq<char>>) -> bool {
    detail is Some && trim(detail->0).len() > 0
}

/// The spacer and detail spans after the label, and the columns used after
/// them, given the columns `used` so far.
pub open spec fn detail_spans(
    detail: Option<Seq<char>>,
    used: nat,
    w: nat,
    base: SpanStyle,
    dstyle: SpanStyle,
) -> (LineView, nat) {
    let rem = sat_sub(w, used);
    if shown_detail(detail) && rem > 0 {
        let spacer: Seq<char> = if rem >= 2 { "  "@ } else { " "@ };
        let sw = unicode_str_width(spacer) as nat;
        if rem >= sw {
            let used_s = sat_add(used, sw);
            let rem2 = sat_sub(w, used_s);
            if rem2 > 0 {
                let dt = truncate_spec(detail->0, rem2);
                (seq![(spacer, base), (dt, dstyle)], sat_add(used_s, unicode_str_width(dt) as nat))
            } else {
                (seq![(spacer, base)], used_s)
            }
        } else {
            (seq![], used)
        }
    } else {
        (seq![], used)
    }
}

/// `build_palette_item_line`: a marker (`>` when selected), the label cut
/// to fit, the detail (when not blank and there is room) after two spaces,
/// in dark gray, and padding to the full width; reverse video when selected.
pub open spec fn item_line_spec(
    label: Seq<char>,
    detail: Option<Seq<char>>,
    selected: bool,
    width: nat,
) -> LineView {
    let w = wrap_width(width);
    let marker: Seq<char> = if selected { "> "@ } else { "  "@ };
    let base = SpanStyle { fg: None, bg: None, reversed: selected };
    let dstyle = SpanStyle { fg: Some(Color::DarkGray), bg: None, reversed: selected };
    let used0 = unicode_str_width(marker) as nat;
    let label_t = truncate_spec(label, sat_sub(w, used0));
    let used1 = sat_add(used0, unicode_str_width(label_t) as nat);
    let d = detail_spans(detail, used1, w, base, dstyle);
    let pad = sat_sub(w, d.1);
    seq![(marker, base), (label_t, base)] + d.0 + (if pad > 0 {
        seq![(spaces(pad), base)]
    } else {
        seq![]
    })
}

fn push_span(spans: &mut Vec<StyledSpan>, content: String, style: SpanStyle)
    ensures
        final(spans)@.map_values(|s: StyledSpan| s@) == old(spans)@.map_values(|s: StyledSpan| s@).push(
            (content@, style),
        ),
{
    spans.push(span(content, style));
    assert(final(spans)@.map_values(|s: StyledSpan| s@) =~= old(spans)@.map_values(
        |s: StyledSpan| s@,
    ).push((content@, style)));
}

/// The spacer and detail spans of a palette item, after `used` columns of `w`.
fn detail_part(
    detail: &Option<String>,
    used_in: usize,
    w: usize,
    base: SpanStyle,
    dstyle: SpanStyle,
) -> (r: (Vec<StyledSpan>, usize))
    ensures
        (r.0@.map_values(|s: StyledSpan| s@), r.1 as nat) == detail_spans(
            crate::palette::opt_text(*detail),
            used_in as nat,
            w as nat,
            base,
            dstyle,
        ),
{
    let mut spans: Vec<StyledSpan> = Vec::new();
    let mut used = used_in;
    let mut remaining = w.saturating_sub(used);
    proof {
        reveal_strlit("  ");
        reveal_strlit(" ");
    }
    match detail {
        Some(detail) => {
            let dcs = chars_of(detail.as_str());
            let dtrim = trim_chars(dcs.as_slice());
            if dtrim.len() > 0 && remaining > 0 {
                let spacer = if remaining >= 2 { "  " } else { " " };
                let spacer_width = str_width(spacer);
                if remaining >= spacer_width {
                    push_span(&mut spans, crate::text::owned(spacer), base);
                    used = used.saturating_add(spacer_width);
                    remaining = w.saturating_sub(used);
                    if remaining > 0 {
                        let dt = truncate_to_width(detail.as_str(), remaining);
                        let dw = str_width(dt.as_str());
                        push_span(&mut spans, dt, dstyle);
                        used = used.saturating_add(dw);
                    }
                }
            }
        },
        None => {},
    }
    assert(spans@.map_values(|s: StyledSpan| s@) =~= detail_spans(
        crate::palette::opt_text(*detail),
        used_in as nat,
        w as nat,
        base,
        dstyle,
    ).0);
    (spans, used)
}

/// The line of one palette item.
pub fn build_palette_item_line(item: &crate::palette::PaletteItem, selected: bool, width: usize) -> (r: StyledLine)
    ensures
        r@ == item_line_spec(
            item.label@,
            crate::palette::opt_text(item.detail),
            selected,
            width as nat,
        ),
{
    let width = if width == 0 { 1 } else { width };
    let marker = if selected { "> " } else { "  " };
    let base = SpanStyle { fg: None, bg: None, reversed: selected };
    let dstyle = SpanStyle { fg: Some(Color::DarkGray), bg: None, reversed: selected };
    let mut spans: Vec<StyledSpan> = Vec::new();
    let used0 = str_width(marker);
    push_span(&mut spans, crate::text::owned(marker), base);
    let label = truncate_to_width(item.label.as_str(), width.saturating_sub(used0));
    let label_width = str_width(label.as_str());
    push_span(&mut spans, label, base);
    let used1 = used0.saturating_add(label_width);
    proof {
        reveal_strlit("> ");
        reveal_strlit("  ");
    }
    let (mut rest, used) = detail_part(&item.detail, used1, width, base, dstyle);
    let ghost head = spans@.map_values(|s: StyledSpan| s@);
    let ghost mid = rest@.map_values(|s: StyledSpan| s@);
    spans.append(&mut rest);
    assert(spans@.map_values(|s: StyledSpan| s@) =~= head + mid);
    let pad = width.saturating_sub(used);
    if pad > 0 {
        push_span(&mut spans, spaces_string(pad), base);
    }
    let r = StyledLine { spans };
    assert(r@ =~= item_line_spec(
        item.label@,
        crate::palette::opt_text(item.detail),
        selected,
        width as nat,
    ));
    r
}

/// A line of `text` in `style`, padded with spaces to `width` columns.
pub open spec fn padded_line(text: Seq<char>, width: nat, style: SpanStyle) -> LineView {
    let pad = sat_sub(width, unicode_str_width(text) as nat);
    seq![(text, style)] + (if pad > 0 { seq![(spaces(pad), style)] } else { seq![] })
}

fn padded_line_exec(text: String, width: usize, style: SpanStyle) -> (r: StyledLine)
    ensures
        r@ == padded_line(text@, width as nat, style),
{
    let pad = width.saturating_sub(str_width(text.as_str()));
    let mut spans: Vec<StyledSpan> = Vec::new();
    let ghost tv = text@;
    push_span(&mut spans, text, style);
    if pad > 0 {
        push_span(&mut spans, spaces_string(pad), style);
    }
    let r = StyledLine { spans };
    assert(r@ =~= padded_line(tv, width as nat, style));
    r
}

/// The palette's header: its title in lower case (`commands` when blank),
/// a colon, and the query (or a hint when the query is blank).
pub open spec fn header_text(title: Seq<char>, query: Seq<char>) -> Seq<char> {
    let t = trim(title);
    let label = crate::text::lower_seq(if t.len() == 0 { "commands"@ } else { t }) + ": "@;
    label + (if trim(query).len() == 0 { "(type to search)"@ } else { query })
}

/// The lines of the items at positions `start .. start + count` of the
/// filter; a position that names no item gives no line.
pub open spec fn item_rows(
    items: Seq<crate::palette::PaletteItem>,
    filtered: Seq<usize>,
    selected: nat,
    start: nat,
    count: nat,
    width: nat,
) -> Seq<LineView>
    decreases count,
{
    if count == 0 {
        seq![]
    } else {
        let prev = item_rows(items, filtered, selected, start, (count - 1) as nat, width);
        let pos = start + count - 1;
        let idx = filtered[pos];
        if idx < items.len() {
            prev.push(
                item_line_spec(
                    items[idx as int].label@,
                    crate::palette::opt_text(items[idx as int].detail),
                    pos == selected,
                    width,
                ),
            )
        } else {
            prev
        }
    }
}

/// How many items fit under the header.
pub open spec fn palette_visible(filtered_len: nat, max_lines: nat) -> nat {
    let avail = (max_lines - 1) as nat;
    if avail < filtered_len { avail } else { filtered_len }
}

/// The first item shown: the window scrolls so that the selection is its last line.
pub open spec fn palette_start(selected: nat, visible: nat) -> nat {
    if selected >= visible { (selected + 1 - visible) as nat } else { 0 }
}

/// The selection stays close enough to the filter for the window to fall
/// inside it (otherwise the window's range would be reversed).
pub open spec fn palette_window_ok(view: crate::palette::CommandPaletteOverlay, max_lines: nat) -> bool {
    max_lines >= 2 && view.filtered.len() > 0 ==> view.selected < view.filtered.len()
        + palette_visible(view.filtered.len() as nat, max_lines)
}

/// `build_command_palette_lines`: the header, then either `(no matches)` or
/// the window of items around the selection, within `max_lines` lines.
pub open spec fn palette_lines_spec(
    view: crate::palette::CommandPaletteOverlay,
    width: nat,
    max_lines: nat,
) -> Seq<LineView> {
    if max_lines == 0 {
        seq![]
    } else {
        let header = padded_line(
            truncate_spec(header_text(view.title@, view.query@), width),
            width,
            SpanStyle::fg_spec(Color::Gray),
        );
        let avail = (max_lines - 1) as nat;
        let n = view.filtered.len() as nat;
        if n == 0 {
            if avail > 0 {
                seq![header, padded_line("  (no matches)"@, width, SpanStyle::fg_spec(Color::DarkGray))]
            } else {
                seq![header]
            }
        } else if avail == 0 {
            seq![header]
        } else {
            let visible = palette_visible(n, max_lines);
            let start = palette_start(view.selected as nat, visible);
            let end = if start < n && visible < n - start { start + visible } else { n };
            seq![header] + item_rows(
                view.items@,
                view.filtered@,
                view.selected as nat,
                start,
                (end - start) as nat,
                width,
            )
        }
    }
}

proof fn lemma_item_rows(
    items: Seq<crate::palette::PaletteItem>,
    filtered: Seq<usize>,
    selected: nat,
    start: nat,
    count: nat,
    width: nat,
)
    requires
        start + count <= filtered.len(),
        forall|p: int| start <= p < start + count ==> #[trigger] filtered[p] < items.len(),
    ensures
        item_rows(items, filtered, selected, start, count, width).len() == count,
        forall|k: int|
            0 <= k < count ==> #[trigger] item_rows(items, filtered, selected, start, count, width)[k]
                == item_line_spec(
                items[filtered[start + k] as int].label@,
                crate::palette::opt_text(items[filtered[start + k] as int].detail),
                start + k == selected,
                width,
            ),
    decreases count,
{
    if count > 0 {
        lemma_item_rows(items, filtered, selected, start, (count - 1) as nat, width);
        assert(filtered[start + count - 1] < items.len());
    }
}

/// With a selection inside a non-empty filter whose positions all name an
/// item, and room for a line under the header, the palette shows the header
/// and one line per visible item, in the filter's order, and exactly one of
/// them (the selected item's) carries the `>` marker.
pub proof fn lemma_palette_lines_one_marker(view: crate::palette::CommandPaletteOverlay, width: nat, max_lines: nat)
    requires
        max_lines > 1,
        view.filtered.len() > 0,
        view.selected < view.filtered.len(),
        forall|i: int| 0 <= i < view.filtered.len() ==> #[trigger] view.filtered@[i] < view.items.len(),
    ensures
        ({
            let lines = palette_lines_spec(view, width, max_lines);
            let visible = palette_visible(view.filtered.len() as nat, max_lines);
            let start = palette_start(view.selected as nat, visible);
            &&& lines.len() == 1 + visible
            &&& start <= view.selected < start + visible
            &&& forall|k: int|
                1 <= k < lines.len() ==> #[trigger] lines[k] == item_line_spec(
                    view.items@[view.filtered@[start + k - 1] as int].label@,
                    crate::palette::opt_text(view.items@[view.filtered@[start + k - 1] as int].detail),
                    start + k - 1 == view.selected,
                    width,
                )
            &&& forall|k: int| 1 <= k < lines.len() ==> ((#[trigger] lines[k])[0].0 == "> "@ <==> start + k - 1 == view.selected)
        }),
{
    let n = view.filtered.len() as nat;
    let visible = palette_visible(n, max_lines);
    let start = palette_start(view.selected as nat, visible);
    assert(start + visible <= n);
    lemma_item_rows(view.items@, view.filtered@, view.selected as nat, start, visible, width);
    let rows = item_rows(view.items@, view.filtered@, view.selected as nat, start, visible, width);
    let lines = palette_lines_spec(view, width, max_lines);
    reveal_strlit("> ");
    reveal_strlit("  ");
    assert forall|k: int| 1 <= k < lines.len() implies #[trigger] lines[k] == item_line_spec(
        view.items@[view.filtered@[start + k - 1] as int].label@,
        crate::palette::opt_text(view.items@[view.filtered@[start + k - 1] as int].detail),
        start + k - 1 == view.selected,
        width,
    ) by {
        assert(lines[k] == rows[k - 1]);
    }
    assert forall|k: int| 1 <= k < lines.len() implies ((#[trigger] lines[k])[0].0 == "> "@ <==> start + k - 1
        == view.selected) by {
        assert(lines[k] == rows[k - 1]);
        assert("> "@ != "  "@) by {
            assert("> "@[0] != "  "@[0]);
        }
    }
}

/// The lines of the command palette.
pub struct PaletteRender {
    pub lines: Vec<StyledLine>,
}

/// Lays out the command palette in `max_lines` lines of `width` columns.
pub fn build_command_palette_lines(
    view: &crate::palette::CommandPaletteOverlay,
    width: usize,
    max_lines: usize,
) -> (r: PaletteRender)
    requires
        palette_window_ok(*view, max_lines as nat),
    ensures
        lines_view(r.lines@) == palette_lines_spec(*view, width as nat, max_lines as nat),
{
    let mut lines: Vec<StyledLine> = Vec::new();
    if max_lines == 0 {
        assert(lines_view(lines@) =~= palette_lines_spec(*view, width as nat, max_lines as nat));
        return PaletteRender { lines };
    }
    let title_cs = chars_of(view.title.as_str());
    let title = trim_chars(title_cs.as_slice());
    let mut text = String::new();
    if title.len() == 0 {
        push_str(&mut text, "commands");
    } else {
        let lowered = crate::text::to_lower(title.as_slice());
        push_chars(&mut text, lowered.as_slice());
    }
    push_str(&mut text, ": ");
    let query_cs = chars_of(view.query.as_str());
    if trim_chars(query_cs.as_slice()).len() == 0 {
        push_str(&mut text, "(type to search)");
    } else {
        push_str(&mut text, view.query.as_str());
    }
    proof {
        reveal_strlit("commands");
        reveal_strlit(": ");
        reveal_strlit("(type to search)");
        reveal_strlit("  (no matches)");
        assert(crate::text::lower_seq("commands"@) =~= "commands"@);
    }
    assert(text@ =~= header_text(view.title@, view.query@));
    let header_t = truncate_to_width(text.as_str(), width);
    lines.push(padded_line_exec(header_t, width, SpanStyle::with_fg(Color::Gray)));
    let available_items = max_lines - 1;
    let n = view.filtered.len();
    if n == 0 {
        if available_items > 0 {
            lines.push(
                padded_line_exec(
                    crate::text::owned("  (no matches)"),
                    width,
                    SpanStyle::with_fg(Color::DarkGray),
                ),
            );
        }
        assert(lines_view(lines@) =~= palette_lines_spec(*view, width as nat, max_lines as nat));
        return PaletteRender { lines };
    }
    if available_items == 0 {
        assert(lines_view(lines@) =~= palette_lines_spec(*view, width as nat, max_lines as nat));
        return PaletteRender { lines };
    }
    let visible = if available_items < n { available_items } else { n };
    let mut start: usize = 0;
    if view.selected >= visible {
        start = view.selected - visible + 1;
    }
    let end = if start < n && visible < n - start { start + visible } else { n };
    let ghost header = lines_view(lines@);
    let mut pos = start;
    while pos < end
        invariant
            start <= pos <= end <= n,
            n == view.filtered.len(),
            header.len() == 1,
            lines_view(lines@) == header + item_rows(
                view.items@,
                view.filtered@,
                view.selected as nat,
                start as nat,
                (pos - start) as nat,
                width as nat,
            ),
        decreases end - pos,
    {
        let idx = view.filtered[pos];
        let ghost prev = lines_view(lines@);
        let ghost rows = item_rows(
            view.items@,
            view.filtered@,
            view.selected as nat,
            start as nat,
            (pos - start) as nat,
            width as nat,
        );
        if idx < view.items.len() {
            let line = build_palette_item_line(&view.items[idx], pos == view.selected, width);
            let ghost lv = line@;
            lines.push(line);
            assert(lines_view(lines@) =~= prev.push(lv));
            assert(header + rows.push(lv) =~= (header + rows).push(lv));
        }
        pos += 1;
        assert(lines_view(lines@) =~= header + item_rows(
            view.items@,
            view.filtered@,
            view.selected as nat,
            start as nat,
            (pos - start) as nat,
            width as nat,
        ));
    }
    assert(lines_view(lines@) =~= palette_lines_spec(*view, width as nat, max_lines as nat));
    PaletteRender { lines }
}

// ---------------------------------------------------------------------------
// The input box
// ---------------------------------------------------------------------------

/// Where the cursor falls, scanning the characters of the input left to
/// right: the bytes passed, the wrapped line and column reached, and whether
/// the scan stopped at the cursor's byte offset.
pub open spec fn cursor_scan(s: Seq<char>, cursor: nat, avail: nat) -> (nat, nat, nat, bool)
    decreases s.len(),
{
    if s.len() == 0 {
        (0, 0, 0, false)
    } else {
        let p = cursor_scan(s.drop_last(), cursor, avail);
        let ch = s.last();
        if p.3 {
            p
        } else if p.0 + crate::text::utf8_len(ch) > cursor {
            (p.0, p.1, p.2, true)
        } else if ch == '\n' {
            (p.0 + crate::text::utf8_len(ch), p.1 + 1, 0, false)
        } else if p.2 + col(ch) > avail && p.2 > 0 {
            (p.0 + crate::text::utf8_len(ch), p.1 + 1, col(ch), false)
        } else {
            (p.0 + crate::text::utf8_len(ch), p.1, p.2 + col(ch), false)
        }
    }
}

proof fn lemma_cursor_scan_stopped(s: Seq<char>, j: int, m: int, cursor: nat, avail: nat)
    requires
        0 <= j <= m <= s.len(),
        cursor_scan(s.take(j), cursor, avail).3,
    ensures
        cursor_scan(s.take(m), cursor, avail) == cursor_scan(s.take(j), cursor, avail),
    decreases m - j,
{
    if m > j {
        lemma_cursor_scan_stopped(s, j, m - 1, cursor, avail);
        assert(s.take(m).drop_last() =~= s.take(m - 1));
    }
}

/// The prompt in front of the first input line.
pub open spec fn prompt_text() -> Seq<char> {
    "› "@
}

pub open spec fn input_bg() -> Color {
    Color::Rgb(60, 60, 60)
}

pub open spec fn input_style() -> SpanStyle {
    SpanStyle { fg: None, bg: Some(input_bg()), reversed: false }
}

pub open spec fn prompt_style() -> SpanStyle {
    SpanStyle { fg: Some(Color::Gray), bg: Some(input_bg()), reversed: false }
}

/// One row of the input box: the lead (prompt or indent), the text, padding.
pub open spec fn input_row(lead: Seq<char>, seg: Seq<char>, w: nat) -> LineView {
    let used = sat_add(unicode_str_width(lead) as nat, unicode_str_width(seg) as nat);
    let pad = sat_sub(w, used);
    seq![(lead, prompt_style()), (seg, input_style())] + (if pad > 0 {
        seq![(spaces(pad), input_style())]
    } else {
        seq![]
    })
}

/// The rows of the wrapped input: the prompt leads the first, an indent as
/// wide as the prompt leads the others.
pub open spec fn input_rows(segs: Seq<Seq<char>>, pw: nat, w: nat) -> Seq<LineView> {
    Seq::new(
        segs.len(),
        |j: int| input_row(if j == 0 { prompt_text() } else { spaces(pw) }, segs[j], w),
    )
}

/// `build_input_lines`: a blank row, the input wrapped to what the prompt
/// leaves of `width` (at least one column), a blank row; and the cursor's row
/// and column for the byte offset `cursor` (clamped to the input).
pub open spec fn input_layout(input: Seq<char>, cursor: nat, width: nat) -> (Seq<LineView>, nat, nat) {
    let w = wrap_width(width);
    let pw = unicode_str_width(prompt_text()) as nat;
    let avail: nat = if w > pw { (w - pw) as nat } else { 1 };
    let segs = wrapped_segments(crate::text::split_on(input, '\n'), avail, avail);
    let blen = crate::text::byte_len(input);
    let c = if cursor < blen { cursor } else { blen };
    let sc = cursor_scan(input, c, avail);
    let seg_line = if sc.1 < segs.len() - 1 { sc.1 } else { (segs.len() - 1) as nat };
    let col0 = sat_add(pw, sc.2);
    let cursor_col = if col0 < w - 1 { col0 } else { (w - 1) as nat };
    let pad_row = seq![(spaces(w), input_style())];
    (seq![pad_row] + input_rows(segs, pw, w) + seq![pad_row], seg_line + 1, cursor_col)
}

/// The lines of the input box and where its cursor is.
pub struct InputRender {
    pub lines: Vec<StyledLine>,
    pub cursor_line: usize,
    pub cursor_col: usize,
}

fn single_span_line(text: String, style: SpanStyle) -> (r: StyledLine)
    ensures
        r@ == seq![(text@, style)],
{
    let mut spans: Vec<StyledSpan> = Vec::new();
    let ghost tv = text@;
    push_span(&mut spans, text, style);
    let r = StyledLine { spans };
    assert(r@ =~= seq![(tv, style)]);
    r
}

fn input_row_exec(lead: String, seg: String, w: usize, ps: SpanStyle, is: SpanStyle) -> (r: StyledLine)
    requires
        ps == prompt_style(),
        is == input_style(),
    ensures
        r@ == input_row(lead@, seg@, w as nat),
{
    let used = str_width(lead.as_str()).saturating_add(str_width(seg.as_str()));
    let pad = w.saturating_sub(used);
    let ghost lv = lead@;
    let ghost sv = seg@;
    let mut spans: Vec<StyledSpan> = Vec::new();
    push_span(&mut spans, lead, ps);
    push_span(&mut spans, seg, is);
    if pad > 0 {
        push_span(&mut spans, spaces_string(pad), is);
    }
    let r = StyledLine { spans };
    assert(r@ =~= input_row(lv, sv, w as nat));
    r
}

/// Where the cursor at byte offset `cursor` falls: its wrapped line and column.
fn cursor_position(cs: &[char], cursor: usize, available: usize) -> (r: (usize, usize))
    requires
        available >= 1,
    ensures
        r.0 as nat == cursor_scan(cs@, cursor as nat, available as nat).1,
        r.1 as nat == cursor_scan(cs@, cursor as nat, available as nat).2,
{
    let mut bytes_seen: usize = 0;
    let mut line: usize = 0;
    let mut col: usize = 0;
    let mut i: usize = 0;
    let mut stopped = false;
    while i < cs.len()
        invariant_except_break
            i <= cs.len(),
            (bytes_seen as nat, line as nat, col as nat, false) == cursor_scan(
                cs@.take(i as int),
                cursor as nat,
                available as nat,
            ),
            bytes_seen <= cursor,
            line <= i,
            col <= available || col <= 3,
            !stopped,
        ensures
            i <= cs.len(),
            stopped ==> i < cs.len() && cursor_scan(cs@.take(i + 1), cursor as nat, available as nat)
                == (bytes_seen as nat, line as nat, col as nat, true),
            !stopped ==> i == cs.len() && cursor_scan(cs@.take(i as int), cursor as nat, available as nat)
                == (bytes_seen as nat, line as nat, col as nat, false),
        decreases cs.len() - i,
    {
        let ch = cs[i];
        let ch_len = crate::text::char_len_utf8(ch);
        assert(cs@.take(i + 1).drop_last() =~= cs@.take(i as int));
        assert(cs@.take(i + 1).last() == ch);
        if ch_len > cursor - bytes_seen {
            stopped = true;
            break;
        }
        bytes_seen = bytes_seen + ch_len;
        if ch == '\n' {
            line = line + 1;
            col = 0;
        } else {
            let ch_width = char_cols(ch);
            let over = if col > available { true } else { ch_width > available - col };
            if over && col > 0 {
                line = line + 1;
                col = 0;
            }
            col = col + ch_width;
        }
        i += 1;
    }
    proof {
        assert(cs@.take(cs.len() as int) =~= cs@);
        if stopped {
            lemma_cursor_scan_stopped(cs@, i + 1, cs.len() as int, cursor as nat, available as nat);
        }
    }
    (line, col)
}

/// Lays out the input box for `input` in `width` columns, with the cursor at
/// byte offset `cursor`.
pub fn build_input_lines(input: &str, cursor: usize, width: usize) -> (r: InputRender)
    requires
        crate::text::byte_len(input@) <= usize::MAX,
    ensures
        lines_view(r.lines@) == input_layout(input@, cursor as nat, width as nat).0,
        r.cursor_line as nat == input_layout(input@, cursor as nat, width as nat).1,
        r.cursor_col as nat == input_layout(input@, cursor as nat, width as nat).2,
{
    let width = if width == 0 { 1 } else { width };
    let prompt = "› ";
    proof {
        reveal_strlit("› ");
    }
    let prompt_width = str_width(prompt);
    let sub = width.saturating_sub(prompt_width);
    let available = if sub == 0 { 1 } else { sub };
    let input_bg = Color::Rgb(60, 60, 60);
    let p_style = SpanStyle { fg: Some(Color::Gray), bg: Some(input_bg), reversed: false };
    let i_style = SpanStyle { fg: None, bg: Some(input_bg), reversed: false };
    let cs = chars_of(input);
    // The wrapped segments of every input line.
    let raws = crate::text::split_char(cs.as_slice(), '\n');
    let ghost raws_v = deep_chars(raws@);
    let mut segments: Vec<String> = Vec::new();
    let mut i: usize = 0;
    while i < raws.len()
        invariant
            i <= raws.len(),
            raws_v == deep_chars(raws@),
            raws_v == crate::text::split_on(input@, '\n'),
            available >= 1,
            crate::inline_context::strings_view(segments@) == wrapped_segments(
                raws_v.take(i as int),
                available as nat,
                available as nat,
            ),
        decreases raws.len() - i,
    {
        let raw = string_of(raws[i].as_slice());
        let mut wrapped = wrap_plain_text(raw.as_str(), available);
        proof {
            assert(raws_v.take(i + 1).drop_last() =~= raws_v.take(i as int));
            assert(raws_v.take(i + 1).last() == raw@);
        }
        let ghost before = crate::inline_context::strings_view(segments@);
        let ghost add = crate::inline_context::strings_view(wrapped@);
        segments.append(&mut wrapped);
        assert(crate::inline_context::strings_view(segments@) =~= before + add);
        i += 1;
    }
    assert(raws_v.take(raws.len() as int) =~= raws_v);
    proof {
        lemma_wrapped_segments_nonempty(raws_v, available as nat, available as nat);
        assert(raws_v.len() > 0);
    }
    // The cursor.
    let blen = byte_offset_all(cs.as_slice());
    let cursor = if cursor < blen { cursor } else { blen };
    let (seg_line, seg_col) = cursor_position(cs.as_slice(), cursor, available);
    let last = segments.len() - 1;
    let cursor_segment_line = if seg_line < last { seg_line } else { last };
    let cursor_line = cursor_segment_line + 1;
    let col0 = prompt_width.saturating_add(seg_col);
    let cursor_col = if col0 < width - 1 { col0 } else { width - 1 };
    // The rows.
    let mut lines: Vec<StyledLine> = Vec::new();
    lines.push(single_span_line(spaces_string(width), i_style));
    let ghost pad_row = seq![(spaces(width as nat), i_style)];
    let ghost segs = crate::inline_context::strings_view(segments@);
    let indent = spaces_string(prompt_width);
    let mut k: usize = 0;
    while k < segments.len()
        invariant
            k <= segments.len(),
            segs == crate::inline_context::strings_view(segments@),
            indent@ == spaces(prompt_width as nat),
            prompt@ == prompt_text(),
            p_style == prompt_style(),
            i_style == input_style(),
            lines_view(lines@) == seq![pad_row] + input_rows(segs, prompt_width as nat, width as nat).take(
                k as int,
            ),
        decreases segments.len() - k,
    {
        let lead = if k == 0 { crate::text::owned(prompt) } else { crate::text::owned(indent.as_str()) };
        let seg = crate::text::owned(segments[k].as_str());
        let row = input_row_exec(lead, seg, width, p_style, i_style);
        let ghost prev = lines_view(lines@);
        let ghost rv = row@;
        lines.push(row);
        assert(lines_view(lines@) =~= prev.push(rv));
        assert(input_rows(segs, prompt_width as nat, width as nat).take(k + 1) =~= input_rows(
            segs,
            prompt_width as nat,
            width as nat,
        ).take(k as int).push(rv));
        k += 1;
    }
    lines.push(single_span_line(spaces_string(width), i_style));
    proof {
        assert(input_rows(segs, prompt_width as nat, width as nat).take(segments.len() as int)
            =~= input_rows(segs, prompt_width as nat, width as nat));
    }
    assert(lines_view(lines@) =~= input_layout(input@, cursor as nat, width as nat).0);
    InputRender { lines, cursor_line, cursor_col }
}

/// Number of UTF-8 bytes of all of `s`.
fn byte_offset_all(s: &[char]) -> (n: usize)
    requires
        crate::text::byte_len(s@) <= usize::MAX,
    ensures
        n == crate::text::byte_len(s@),
{
    assert(s@.take(s.len() as int) =~= s@);
    crate::text::byte_offset(s, s.len())
}

} // verus!
