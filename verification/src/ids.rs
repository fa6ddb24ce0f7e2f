//! Identifiers (threads, turns, approvals, artifacts, processes) are UUIDs,
//! held as their 128-bit value and shown in the hyphenated lower-case form.
use vstd::prelude::*;
use crate::text::{digit, push_chars, slice_chars};

verus! {

pub open spec fn hex_digit(d: nat) -> char {
    if d < 10 {
        digit(d)
    } else if d == 10 {
        'a'
    } else if d == 11 {
        'b'
    } else if d == 12 {
        'c'
    } else if d == 13 {
        'd'
    } else if d == 14 {
        'e'
    } else {
        'f'
    }
}

/// The last `n` hexadecimal digits of `v`, most significant first.
pub open spec fn hex_fixed(v: nat, n: nat) -> Seq<char>
    decreases n,
{
    if n == 0 {
        seq![]
    } else {
        hex_fixed(v / 16, (n - 1) as nat).push(hex_digit(v % 16))
    }
}

/// The hyphenated form `xxxxxxxx-xxxx-xxxx-xxxx-xxxxxxxxxxxx` of a UUID.
pub open spec fn uuid_text(v: u128) -> Seq<char> {
    let h = hex_fixed(v as nat, 32);
    h.subrange(0, 8) + seq!['-'] + h.subrange(8, 12) + seq!['-'] + h.subrange(12, 16) + seq!['-']
        + h.subrange(16, 20) + seq!['-'] + h.subrange(20, 32)
}

pub proof fn lemma_hex_fixed_len(v: nat, n: nat)
    ensures
        hex_fixed(v, n).len() == n,
    decreases n,
{
    if n > 0 {
        lemma_hex_fixed_len(v / 16, (n - 1) as nat);
    }
}

fn hex_char(d: u128) -> (c: char)
    requires
        d < 16,
    ensures
        c == hex_digit(d as nat),
{
    if d == 0 {
        '0'
    } else if d == 1 {
        '1'
    } else if d == 2 {
        '2'
    } else if d == 3 {
        '3'
    } else if d == 4 {
        '4'
    } else if d == 5 {
        '5'
    } else if d == 6 {
        '6'
    } else if d == 7 {
        '7'
    } else if d == 8 {
        '8'
    } else if d == 9 {
        '9'
    } else if d == 10 {
        'a'
    } else if d == 11 {
        'b'
    } else if d == 12 {
        'c'
    } else if d == 13 {
        'd'
    } else if d == 14 {
        'e'
    } else {
        'f'
    }
}

fn push_hex_fixed(out: &mut Vec<char>, v: u128, n: u32)
    ensures
        final(out)@ == old(out)@ + hex_fixed(v as nat, n as nat),
    decreases n,
{
    if n > 0 {
        push_hex_fixed(out, v / 16, n - 1);
        out.push(hex_char(v % 16));
        assert(final(out)@ =~= old(out)@ + hex_fixed(v as nat, n as nat));
    } else {
        assert(final(out)@ =~= old(out)@ + hex_fixed(v as nat, n as nat));
    }
}

/// Appends the hyphenated form of the UUID `v`.
pub fn push_uuid(out: &mut String, v: u128)
    ensures
        final(out)@ == old(out)@ + uuid_text(v),
{
    let mut h: Vec<char> = Vec::new();
    push_hex_fixed(&mut h, v, 32);
    proof {
        lemma_hex_fixed_len(v as nat, 32);
        assert(h@ =~= hex_fixed(v as nat, 32));
    }
    let a = slice_chars(h.as_slice(), 0, 8);
    let b = slice_chars(h.as_slice(), 8, 12);
    let c = slice_chars(h.as_slice(), 12, 16);
    let d = slice_chars(h.as_slice(), 16, 20);
    let e = slice_chars(h.as_slice(), 20, 32);
    push_chars(out, a.as_slice());
    crate::text::push_char(out, '-');
    push_chars(out, b.as_slice());
    crate::text::push_char(out, '-');
    push_chars(out, c.as_slice());
    crate::text::push_char(out, '-');
    push_chars(out, d.as_slice());
    crate::text::push_char(out, '-');
    push_chars(out, e.as_slice());
    assert(final(out)@ =~= old(out)@ + uuid_text(v));
}

/// The hyphenated form of the UUID `v` (its `Display`).
pub fn uuid_string(v: u128) -> (s: String)
    ensures
        s@ == uuid_text(v),
{
    let mut s = String::new();
    push_uuid(&mut s, v);
    assert(s@ =~= uuid_text(v));
    s
}

} // verus!
