//! Rendering of documentation lines as comment blocks.

use vstd::prelude::*;
use vstd::string::*;
use crate::text::{indentation, lines_of, build_indentation};

verus! {

/// One line inside a multi-line block: indentation, ` * `, the text, a newline.
pub open spec fn comment_line(line: Seq<char>, indent: int) -> Seq<char> {
    indentation(indent) + " * "@ + line + "\n"@
}

/// The inner lines of a multi-line block, in order.
pub open spec fn comment_lines(lines: Seq<Seq<char>>, indent: int) -> Seq<char>
    decreases lines.len(),
{
    if lines.len() == 0 {
        Seq::empty()
    } else {
        comment_lines(lines.drop_last(), indent) + comment_line(lines.last(), indent)
    }
}

/// The comment block of `lines`: nothing for no line, `/** text */` for one
/// line, and an opening line, one line each and a closing line for more.
pub open spec fn comment_block(lines: Seq<Seq<char>>, indent: int) -> Seq<char> {
    if lines.len() == 0 {
        Seq::empty()
    } else if lines.len() == 1 {
        indentation(indent) + "/** "@ + lines[0] + " */\n"@
    } else {
        indentation(indent) + "/**\n"@ + comment_lines(lines, indent) + indentation(indent)
            + " */\n"@
    }
}

/// Renders the comment block of `comments` at the given indentation.
pub fn render_comments(comments: &Vec<String>, indentation_amount: i8) -> (out: String)
    ensures
        out@ == comment_block(lines_of(comments@), indentation_amount as int),
{
    let space = build_indentation(indentation_amount);
    let mut out = String::new();
    let n = comments.len();
    if n == 0 {
        return out;
    }
    out.append(space.as_str());
    if n == 1 {
        out.append("/** ");
        out.append(comments[0].as_str());
        out.append(" */\n");
        proof {
            assert(out@ =~= comment_block(lines_of(comments@), indentation_amount as int));
        }
        return out;
    }
    out.append("/**\n");
    let ghost head = out@;
    let ghost all = lines_of(comments@);
    let mut i: usize = 0;
    proof {
        assert(out@ =~= head + comment_lines(all.take(0), indentation_amount as int));
    }
    while i < n
        invariant
            i <= n,
            n == comments.len(),
            all == lines_of(comments@),
            space@ == indentation(indentation_amount as int),
            out@ == head + comment_lines(all.take(i as int), indentation_amount as int),
        decreases n - i,
    {
        let mut line = String::new();
        line.append(space.as_str());
        line.append(" * ");
        line.append(comments[i].as_str());
        line.append("\n");
        out.append(line.as_str());
        proof {
            assert(all.take(i + 1).drop_last() =~= all.take(i as int));
            assert(line@ =~= comment_line(all[i as int], indentation_amount as int));
            assert(out@ =~= head + comment_lines(all.take(i + 1), indentation_amount as int));
        }
        i = i + 1;
    }
    proof {
        assert(all.take(n as int) =~= all);
    }
    out.append(space.as_str());
    out.append(" */\n");
    proof {
        assert(head =~= indentation(indentation_amount as int) + "/**\n"@);
    }
    out
}

/// No line gives no block; two lines give one block of an opening line, the
/// two lines and a closing line.
pub proof fn lemma_comment_block_shapes(first: Seq<char>, second: Seq<char>, indent: int)
    ensures
        comment_block(Seq::empty(), indent) == Seq::<char>::empty(),
        comment_block(seq![first, second], indent) == indentation(indent) + "/**\n"@
            + comment_line(first, indent) + comment_line(second, indent) + indentation(indent)
            + " */\n"@,
{
    let lines = seq![first, second];
    assert(lines.drop_last() =~= seq![first]);
    assert(lines.drop_last().drop_last() =~= Seq::<Seq<char>>::empty());
    reveal_with_fuel(comment_lines, 3);
    assert(comment_lines(lines, indent) =~= comment_line(first, indent) + comment_line(
        second,
        indent,
    ));
    assert(comment_block(lines, indent) =~= indentation(indent) + "/**\n"@ + comment_line(
        first,
        indent,
    ) + comment_line(second, indent) + indentation(indent) + " */\n"@);
}

} // verus!
