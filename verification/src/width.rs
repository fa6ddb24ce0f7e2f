//! Display widths of characters and strings in terminal columns, as the
//! `unicode-width` crate measures them.
use vstd::prelude::*;
use unicode_width::{UnicodeWidthChar, UnicodeWidthStr};

verus! {

/// The column width `unicode-width` gives a character (`None` for control characters).
pub uninterp spec fn unicode_char_width(c: char) -> Option<usize>;

/// The column width `unicode-width` gives a whole string.
pub uninterp spec fn unicode_str_width(s: Seq<char>) -> usize;

/// `UnicodeWidthChar::width`: the named width of `c`.  The crate's source
/// (0.2.0) answers `Some(1)` for printable ASCII, `None` for the C0 and C1
/// control ranges, and never more than 3 columns.
#[verifier::external_body]
pub(crate) fn char_width(c: char) -> (r: Option<usize>)
    ensures
        r == unicode_char_width(c),
        0x20 <= (c as u32) < 0x7f ==> r == Some(1usize),
        (c as u32) < 0x20 || (0x7f <= (c as u32) && (c as u32) < 0xa0) ==> r is None,
        r matches Some(w) ==> w <= 3,
{
    UnicodeWidthChar::width(c)
}

/// `UnicodeWidthStr::width`: the named width of `s`.  The crate's source sums
/// per-character widths from the right, so the empty string has width 0, and
/// each printable ASCII character adds one column.
#[verifier::external_body]
pub(crate) fn str_width(s: &str) -> (r: usize)
    ensures
        r == unicode_str_width(s@),
        s@.len() == 0 ==> r == 0,
        (forall|i: int| 0 <= i < s@.len() ==> 0x20 <= (#[trigger] s@[i] as u32) < 0x7f) ==> r == s@.len(),
{
    UnicodeWidthStr::width(s)
}

/// The columns a character takes when it is laid out on its own (0 for control characters).
pub open spec fn col(c: char) -> nat {
    match unicode_char_width(c) {
        Some(w) => w as nat,
        None => 0,
    }
}

/// The sum of the per-character columns of `s`.
pub open spec fn cols(s: Seq<char>) -> nat
    decreases s.len(),
{
    if s.len() == 0 {
        0
    } else {
        cols(s.drop_last()) + col(s.last())
    }
}

/// The columns of one character, as a `usize`.
pub(crate) fn char_cols(c: char) -> (r: usize)
    ensures
        r == col(c),
        r <= 3,
{
    match char_width(c) {
        Some(w) => w,
        None => 0,
    }
}

/// `n` spaces.
pub open spec fn spaces(n: nat) -> Seq<char> {
    Seq::new(n, |_i: int| ' ')
}

/// Appends `n` spaces to `out` (`" ".repeat(n)`).
pub fn push_spaces(out: &mut String, n: usize)
    ensures
        final(out)@ == old(out)@ + spaces(n as nat),
{
    let mut i: usize = 0;
    while i < n
        invariant
            i <= n,
            out@ == old(out)@ + spaces(i as nat),
        decreases n - i,
    {
        crate::text::push_char(out, ' ');
        assert(spaces((i + 1) as nat) =~= spaces(i as nat).push(' '));
        i += 1;
    }
}

/// `n` spaces, as a new string.
pub fn spaces_string(n: usize) -> (out: String)
    ensures
        out@ == spaces(n as nat),
{
    let mut out = String::new();
    push_spaces(&mut out, n);
    assert(out@ =~= spaces(n as nat));
    out
}

} // verus!
