//! Field-width alignment: padding a rendering on the left with a fill
//! character until it reaches a runtime-supplied width.

use vstd::prelude::*;

verus! {

/// `k` copies of `fill`, one after another.
pub open spec fn repeated(fill: Seq<char>, k: nat) -> Seq<char>
    decreases k,
{
    if k == 0 {
        Seq::empty()
    } else {
        repeated(fill, (k - 1) as nat) + fill
    }
}

/// `s` right-aligned in a field of `width` characters, the space on the
/// left taken up by copies of `fill`. Text already at least `width`
/// characters long is returned unchanged.
pub open spec fn padded_start(s: Seq<char>, width: nat, fill: Seq<char>) -> Seq<char> {
    if s.len() >= width {
        s
    } else {
        repeated(fill, (width - s.len()) as nat) + s
    }
}

/// Pads `s` on the left with the fill character until it is `width`
/// characters wide; longer text comes back unchanged.
pub fn pad_start(s: &str, width: usize, fill: &str) -> (r: String)
    requires
        fill@.len() == 1,
    ensures
        r@ == padded_start(s@, width as nat, fill@),
{
    let len = s.unicode_len();
    if len >= width {
        return s.to_owned();
    }
    let gap = width - len;
    let mut acc = String::new();
    let mut i: usize = 0;
    while i < gap
        invariant
            i <= gap,
            acc@ == repeated(fill@, i as nat),
        decreases gap - i,
    {
        acc.append(fill);
        i = i + 1;
    }
    acc.concat(s)
}

} // verus!
