//! What holds of extraction on answers that are one line without fences:
//! a statement comes back trimmed, any other text comes back as it is, and a
//! comment counts as nothing to run.

use vstd::prelude::*;
use crate::extract::{
    extracted_sql, find_from, gather, is_degenerate, line_end, only_comments_from,
    opens_statement, plain_block, statement_line_from, tagged_block, trimmed, trimmed_lines,
};
use crate::text::{has_prefix, occurs_at};

verus! {

/// The text holds no line feed.
pub open spec fn is_one_line(s: Seq<char>) -> bool {
    forall|i: int| 0 <= i < s.len() ==> #[trigger] s[i] != '\n'
}

/// The text `p` occurs nowhere in `s`.
pub open spec fn occurs_nowhere(s: Seq<char>, p: Seq<char>) -> bool {
    forall|i: int| !occurs_at(s, p, i)
}

/// What occurs nowhere is not found searching forward.
pub proof fn lemma_not_found(s: Seq<char>, p: Seq<char>, i: int)
    requires
        occurs_nowhere(s, p),
    ensures
        find_from(s, p, i) is None,
    decreases s.len() + 1 - i,
{
    if !(i < 0 || i + p.len() > s.len()) {
        assert(!occurs_at(s, p, i));
        lemma_not_found(s, p, i + 1);
    }
}

/// A line ends where the text ends.
pub proof fn lemma_line_end_of_one_line(s: Seq<char>, i: int)
    requires
        is_one_line(s),
        0 <= i <= s.len(),
    ensures
        line_end(s, i) == s.len(),
    decreases s.len() - i,
{
    if i < s.len() {
        lemma_line_end_of_one_line(s, i + 1);
    }
}

/// A text of one line has one line, and none if it is empty.
pub proof fn lemma_lines_of_one_line(s: Seq<char>)
    requires
        is_one_line(s),
    ensures
        trimmed_lines(s) == (if s.len() == 0 {
            Seq::<Seq<char>>::empty()
        } else {
            seq![trimmed(s)]
        }),
{
    if s.len() > 0 {
        lemma_line_end_of_one_line(s, 0);
        assert(s.subrange(0, s.len() as int) =~= s);
    }
}

/// A text without fences holds no block.
pub proof fn lemma_no_fence_no_block(s: Seq<char>)
    requires
        occurs_nowhere(s, "```"@),
    ensures
        tagged_block(s) is None,
        plain_block(s) is None,
{
    lemma_not_found(s, "```"@, 0);
    assert(occurs_nowhere(s, "```sql"@)) by {
        reveal_strlit("```");
        reveal_strlit("```sql");
        assert forall|i: int| !occurs_at(s, "```sql"@, i) by {
            if occurs_at(s, "```sql"@, i) {
                assert(s.subrange(i, i + 3) =~= s.subrange(i, i + 6).subrange(0, 3));
                assert("```sql"@.subrange(0, 3) =~= "```"@);
                assert(occurs_at(s, "```"@, i));
            }
        }
    }
    lemma_not_found(s, "```sql"@, 0);
}

/// A statement on one line, without fences, is extracted trimmed and
/// otherwise as it is.
pub proof fn lemma_plain_statement_extracted(s: Seq<char>)
    requires
        is_one_line(s),
        occurs_nowhere(s, "```"@),
        opens_statement(trimmed(s)),
    ensures
        extracted_sql(s) == trimmed(s),
{
    lemma_no_fence_no_block(s);
    lemma_lines_of_one_line(s);
    if s.len() == 0 {
        assert(trimmed(s).len() == 0);
        reveal_strlit("SELECT");
        reveal_strlit("WITH");
        reveal_strlit("INSERT");
        reveal_strlit("UPDATE");
        reveal_strlit("DELETE");
        reveal_strlit("CREATE");
        reveal_strlit("ALTER");
        reveal_strlit("DROP");
    } else {
        let lines = trimmed_lines(s);
        assert(lines[0] == trimmed(s));
        assert(statement_line_from(lines, 0) == 0);
        assert(gather(lines, 1, lines[0]) == lines[0]);
    }
}

/// A text on one line that holds no fence and opens no statement is
/// extracted as it is.
pub proof fn lemma_other_text_extracted_verbatim(s: Seq<char>)
    requires
        is_one_line(s),
        occurs_nowhere(s, "```"@),
        !opens_statement(trimmed(s)),
    ensures
        extracted_sql(s) == s,
{
    lemma_no_fence_no_block(s);
    lemma_lines_of_one_line(s);
    if s.len() > 0 {
        let lines = trimmed_lines(s);
        assert(lines[0] == trimmed(s));
        assert(statement_line_from(lines, 1) == 1);
        assert(statement_line_from(lines, 0) == 1);
    }
}

/// An answer that is nothing but a comment, or nothing at all, counts as a
/// failed extraction: a text on one line without fences that is blank, or
/// starts with `--` once trimmed, is extracted as it is and holds nothing to
/// run.
pub proof fn lemma_comment_is_no_statement(s: Seq<char>)
    requires
        is_one_line(s),
        occurs_nowhere(s, "```"@),
        trimmed(s).len() == 0 || has_prefix(trimmed(s), "--"@),
    ensures
        extracted_sql(s) == s,
        is_degenerate(extracted_sql(s)),
{
    reveal_strlit("--");
    reveal_strlit("SELECT");
    reveal_strlit("WITH");
    reveal_strlit("INSERT");
    reveal_strlit("UPDATE");
    reveal_strlit("DELETE");
    reveal_strlit("CREATE");
    reveal_strlit("ALTER");
    reveal_strlit("DROP");
    let t = trimmed(s);
    assert(!opens_statement(t)) by {
        if t.len() > 0 {
            assert(t.subrange(0, 2)[0] == t[0]);
            assert(t[0] == '-');
        }
    }
    lemma_other_text_extracted_verbatim(s);
    lemma_lines_of_one_line(s);
    if s.len() > 0 {
        let lines = trimmed_lines(s);
        assert(only_comments_from(lines, 1));
    }
}

/// The first place at which a text occurs is the place that is found.
pub proof fn lemma_found_first(s: Seq<char>, p: Seq<char>, i: int, a: int)
    requires
        0 <= i <= a,
        occurs_at(s, p, a),
        forall|j: int| i <= j < a ==> !occurs_at(s, p, j),
    ensures
        find_from(s, p, i) == Some(a),
    decreases a - i,
{
    if i < a {
        lemma_found_first(s, p, i + 1, a);
    }
}

/// A block tagged `sql` is what is extracted, and it ends at its own
/// fence: from an answer made of any text, the opening fence with its tag,
/// the block, the closing fence and anything after it, where neither the text
/// before nor the block holds a backtick, the block comes back trimmed.
pub proof fn lemma_tagged_block_extracted(before: Seq<char>, block: Seq<char>, rest: Seq<char>)
    requires
        forall|i: int| 0 <= i < before.len() ==> #[trigger] before[i] != '`',
        forall|i: int| 0 <= i < block.len() ==> #[trigger] block[i] != '`',
    ensures
        extracted_sql(before + "```sql"@ + block + "```"@ + rest) == trimmed(block),
{
    reveal_strlit("```sql");
    reveal_strlit("```");
    let tag = "```sql"@;
    let fence = "```"@;
    let s = before + tag + block + fence + rest;
    let a = before.len() as int;
    let b = a + 6 + block.len();
    assert(s.subrange(a, a + 6) =~= tag);
    assert(s.subrange(b, b + 3) =~= fence);
    assert forall|j: int| 0 <= j < a implies !occurs_at(s, tag, j) by {
        if occurs_at(s, tag, j) {
            assert(s.subrange(j, j + 6)[0] == s[j]);
            assert(s[j] == before[j]);
        }
    }
    lemma_found_first(s, tag, 0, a);
    assert forall|j: int| a + 6 <= j < b implies !occurs_at(s, fence, j) by {
        if occurs_at(s, fence, j) {
            assert(s.subrange(j, j + 3)[0] == s[j]);
            assert(s[j] == block[j - a - 6]);
        }
    }
    lemma_found_first(s, fence, a + 6, b);
    assert(s.subrange(a + 6, b) =~= block);
}

} // verus!
