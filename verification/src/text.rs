//! Small building blocks of the generated text.

use vstd::prelude::*;
use vstd::string::*;

verus! {

/// `amount` spaces; nothing for an amount below one.
pub open spec fn indentation(amount: int) -> Seq<char> {
    Seq::new(if amount > 0 { amount as nat } else { 0 }, |i: int| ' ')
}

/// The text of each string of `v`, in order.
pub open spec fn lines_of(v: Seq<String>) -> Seq<Seq<char>> {
    Seq::new(v.len(), |i: int| v[i]@)
}

pub proof fn lemma_lines_of_push(v: Seq<String>, s: String)
    ensures
        lines_of(v.push(s)) == lines_of(v).push(s@),
{
    assert(lines_of(v.push(s)) =~= lines_of(v).push(s@));
}

/// Builds the indentation of `amount` spaces.
pub fn build_indentation(amount: i8) -> (out: String)
    ensures
        out@ == indentation(amount as int),
{
    let mut out = String::new();
    let mut i: i8 = 0;
    proof {
        assert(out@ =~= indentation(0));
    }
    while i < amount
        invariant
            0 <= i,
            i <= amount || i == 0,
            out@ == indentation(i as int),
        decreases amount - i,
    {
        out.append(" ");
        i = i + 1;
        proof {
            reveal_strlit(" ");
            assert(out@ =~= indentation(i as int));
        }
    }
    proof {
        assert(out@ =~= indentation(amount as int));
    }
    out
}

/// Whether two strings hold the same text.
pub fn same_text(a: &String, b: &str) -> (r: bool)
    ensures
        r == (a@ == b@),
{
    let other = String::from_str(b);
    *a == other
}

} // verus!
