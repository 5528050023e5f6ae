//! A bracketed, comma-separated rendering for a sequence of integers.

use vstd::prelude::*;

use crate::digits::signed_digits;
use crate::digits::render_i64;

verus! {

/// The elements of `s` in decimal, joined by `, `, with no separator
/// before the first element or after the last.
pub open spec fn joined_digits(s: Seq<i32>) -> Seq<char>
    decreases s.len(),
{
    if s.len() == 0 {
        Seq::empty()
    } else if s.len() == 1 {
        signed_digits(s[0] as int)
    } else {
        joined_digits(s.drop_last()) + ", "@ + signed_digits(s.last() as int)
    }
}

/// The full rendering of a sequence: `[` + joined elements + `]`.
/// An empty sequence renders as `[]`.
pub open spec fn list_chars(s: Seq<i32>) -> Seq<char> {
    "["@ + joined_digits(s) + "]"@
}

/// An ordered, finite sequence of integers that can render itself as
/// `[e0, e1, ..., en]`.
pub struct List(pub Vec<i32>);

impl List {
    /// Human-oriented rendering: brackets outside, `, ` between
    /// neighbouring elements, nothing else.
    pub fn display_string(&self) -> (r: String)
        ensures
            r@ == list_chars(self.0@),
    {
        let mut acc = "[".to_owned();
        let n = self.0.len();
        proof {
            assert(self.0@.take(0) =~= Seq::<i32>::empty());
            assert(acc@ =~= "["@ + joined_digits(self.0@.take(0)));
        }
        for i in 0..n
            invariant
                n == self.0.len(),
                acc@ == "["@ + joined_digits(self.0@.take(i as int)),
        {
            if i != 0 {
                acc.append(", ");
            }
            let rendered = render_i64(self.0[i] as i64);
            acc.append(rendered.as_str());
            proof {
                let taken = self.0@.take(i + 1);
                assert(taken.drop_last() =~= self.0@.take(i as int));
                assert(taken.last() == self.0@[i as int]);
                assert(acc@ =~= "["@ + joined_digits(taken));
            }
        }
        proof {
            assert(self.0@.take(n as int) =~= self.0@);
        }
        acc.concat("]")
    }
}

/// An empty sequence renders as the bare brackets `[]`.
pub proof fn lemma_empty_list_renders_brackets()
    ensures
        list_chars(Seq::<i32>::empty()) == "[]"@,
{
    reveal_strlit("[");
    reveal_strlit("]");
    reveal_strlit("[]");
    assert(list_chars(Seq::<i32>::empty()) =~= "[]"@);
}

/// A single-element sequence renders as that element between the
/// brackets, with no separator anywhere.
pub proof fn lemma_singleton_list_no_separator(e: i32)
    ensures
        list_chars(seq![e]) == "["@ + signed_digits(e as int) + "]"@,
{
    assert(joined_digits(seq![e]) == signed_digits(e as int));
}

/// A separator stands exactly between neighbouring elements: extending
/// a non-empty sequence by one element appends `, ` and then the new
/// element, and nothing else.
pub proof fn lemma_separator_between_elements(s: Seq<i32>, e: i32)
    requires
        s.len() >= 1,
    ensures
        joined_digits(s.push(e)) == joined_digits(s) + ", "@ + signed_digits(e as int),
{
    assert(s.push(e).drop_last() =~= s);
    assert(s.push(e).last() == e);
}

} // verus!
