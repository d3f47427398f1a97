//! Finding the SQL statement in what a language model answered.
//!
//! The answer is searched in a fixed order: a fenced block tagged `sql`, any
//! fenced block, a statement that starts on a line of its own, and at last
//! the answer as it is.

use vstd::prelude::*;
use crate::text::{
    chars_of, ci_eq, copy_range, copy_str, has_prefix, is_space, occurs_at, same_text,
    same_text_ignoring_case, string_of, test_space,
};

verus! {

/// The first index at or after `i` at which `p` occurs in `s`.
pub open spec fn find_from(s: Seq<char>, p: Seq<char>, i: int) -> Option<int>
    decreases s.len() + 1 - i,
{
    if i < 0 || i + p.len() > s.len() {
        None
    } else if occurs_at(s, p, i) {
        Some(i)
    } else {
        find_from(s, p, i + 1)
    }
}

/// The first index at or after `i` that holds no white space; the length of
/// `s` when only white space follows.
pub open spec fn skip_spaces(s: Seq<char>, i: int) -> int
    decreases s.len() - i,
{
    if i < 0 || i >= s.len() {
        s.len() as int
    } else if is_space(s[i]) {
        skip_spaces(s, i + 1)
    } else {
        i
    }
}

/// The least end, not below `lo`, of the text before `j` once the white
/// space at its end is dropped.
pub open spec fn drop_spaces(s: Seq<char>, lo: int, j: int) -> int
    decreases j,
{
    if 0 <= lo < j <= s.len() && is_space(s[j - 1]) {
        drop_spaces(s, lo, j - 1)
    } else {
        j
    }
}

/// `s` without the white space at its start and at its end.
pub open spec fn trimmed(s: Seq<char>) -> Seq<char> {
    s.subrange(skip_spaces(s, 0), drop_spaces(s, skip_spaces(s, 0), s.len() as int))
}

/// The index of the first line feed at or after `i`; the length of `s` when
/// none follows.
pub open spec fn line_end(s: Seq<char>, i: int) -> int
    decreases s.len() - i,
{
    if i < 0 || i >= s.len() {
        s.len() as int
    } else if s[i] == '\n' {
        i
    } else {
        line_end(s, i + 1)
    }
}

/// The lines of `s` from index `i` on, each one trimmed. Lines end at line
/// feeds; the end of the text ends the last line, and nothing follows a
/// final line feed.
pub open spec fn trimmed_lines_from(s: Seq<char>, i: int) -> Seq<Seq<char>>
    decreases s.len() - i,
{
    if i < 0 || i >= s.len() {
        Seq::empty()
    } else {
        let e = line_end(s, i);
        if i <= e < s.len() {
            seq![trimmed(s.subrange(i, e))] + trimmed_lines_from(s, e + 1)
        } else {
            seq![trimmed(s.subrange(i, s.len() as int))]
        }
    }
}

/// The lines of `s`, each one trimmed.
pub open spec fn trimmed_lines(s: Seq<char>) -> Seq<Seq<char>> {
    trimmed_lines_from(s, 0)
}

/// The line starts with `word`, in any letter case.
pub open spec fn starts_with_word(line: Seq<char>, word: Seq<char>) -> bool {
    word.len() <= line.len() && ci_eq(line.subrange(0, word.len() as int), word)
}

/// The line starts with a word that opens a SQL statement.
pub open spec fn opens_statement(line: Seq<char>) -> bool {
    ||| starts_with_word(line, "SELECT"@)
    ||| starts_with_word(line, "WITH"@)
    ||| starts_with_word(line, "INSERT"@)
    ||| starts_with_word(line, "UPDATE"@)
    ||| starts_with_word(line, "DELETE"@)
    ||| starts_with_word(line, "CREATE"@)
    ||| starts_with_word(line, "ALTER"@)
    ||| starts_with_word(line, "DROP"@)
}

/// The index of the first line at or after `i` that opens a statement; the
/// number of lines when there is none.
pub open spec fn statement_line_from(lines: Seq<Seq<char>>, i: int) -> int
    decreases lines.len() - i,
{
    if i < 0 || i >= lines.len() {
        lines.len() as int
    } else if opens_statement(lines[i]) {
        i
    } else {
        statement_line_from(lines, i + 1)
    }
}

/// The line ends in a semicolon.
pub open spec fn ends_statement(line: Seq<char>) -> bool {
    line.len() > 0 && line.last() == ';'
}

/// `acc` with the lines from `j` on joined to it by single blanks, up to
/// and including the first line that ends in a semicolon, and without the
/// first line that starts with a fence and all that follows it.
pub open spec fn gather(lines: Seq<Seq<char>>, j: int, acc: Seq<char>) -> Seq<char>
    decreases lines.len() - j,
{
    if j < 0 || j >= lines.len() {
        acc
    } else if has_prefix(lines[j], "```"@) {
        acc
    } else if ends_statement(lines[j]) {
        acc + seq![' '] + lines[j]
    } else {
        gather(lines, j + 1, acc + seq![' '] + lines[j])
    }
}

/// The statement that starts on line `i`: that line, and where it does not
/// end in a semicolon the lines after it as [`gather`] joins them.
pub open spec fn statement_at(lines: Seq<Seq<char>>, i: int) -> Seq<char> {
    if ends_statement(lines[i]) {
        lines[i]
    } else {
        gather(lines, i + 1, lines[i])
    }
}

/// The trimmed inside of the block that the first fence tagged `sql` opens
/// and the next fence after it closes.
pub open spec fn tagged_block(s: Seq<char>) -> Option<Seq<char>> {
    match find_from(s, "```sql"@, 0) {
        Some(a) => match find_from(s, "```"@, a + 6) {
            Some(b) => Some(trimmed(s.subrange(a + 6, b))),
            None => None,
        },
        None => None,
    }
}

/// The trimmed inside of the block between the first fence and the next.
pub open spec fn plain_block(s: Seq<char>) -> Option<Seq<char>> {
    match find_from(s, "```"@, 0) {
        Some(a) => match find_from(s, "```"@, a + 3) {
            Some(b) => Some(trimmed(s.subrange(a + 3, b))),
            None => None,
        },
        None => None,
    }
}

/// The statement that starts on the first line that opens one.
pub open spec fn scanned_statement(s: Seq<char>) -> Option<Seq<char>> {
    let lines = trimmed_lines(s);
    let i = statement_line_from(lines, 0);
    if i < lines.len() {
        Some(statement_at(lines, i))
    } else {
        None
    }
}

/// The SQL found in the answer `s`: the tagged block if there is one, else
/// the plain block, else the scanned statement, else `s` itself.
pub open spec fn extracted_sql(s: Seq<char>) -> Seq<char> {
    match tagged_block(s) {
        Some(x) => x,
        None => match plain_block(s) {
            Some(x) => x,
            None => match scanned_statement(s) {
                Some(x) => x,
                None => s,
            },
        },
    }
}

/// Every line at or after `i` is empty or a `--` comment.
pub open spec fn only_comments_from(lines: Seq<Seq<char>>, i: int) -> bool
    decreases lines.len() - i,
{
    if i < 0 || i >= lines.len() {
        true
    } else {
        (lines[i].len() == 0 || has_prefix(lines[i], "--"@)) && only_comments_from(lines, i + 1)
    }
}

/// The text holds nothing to run: it is empty, or white space, or every
/// line of it that is not blank is a `--` comment.
pub open spec fn is_degenerate(sql: Seq<char>) -> bool {
    only_comments_from(trimmed_lines(sql), 0)
}

/// Whether `p` occurs in `s` at index `i`.
pub fn matches_at(s: &[char], p: &[char], i: usize) -> (r: bool)
    ensures
        r == occurs_at(s@, p@, i as int),
{
    if p.len() > s.len() || i > s.len() - p.len() {
        return false;
    }
    let mut k: usize = 0;
    while k < p.len()
        invariant
            k <= p.len(),
            i + p.len() <= s.len(),
            forall|j: int| 0 <= j < k ==> s@[i + j] == p@[j],
        decreases p.len() - k,
    {
        if s[i + k] != p[k] {
            assert(s@.subrange(i as int, i + p.len())[k as int] == s@[i + k]);
            return false;
        }
        k += 1;
    }
    assert(s@.subrange(i as int, i + p.len()) =~= p@);
    true
}

/// Computes [`find_from`].
pub fn search(s: &[char], p: &[char], from: usize) -> (r: Option<usize>)
    ensures
        r is Some == find_from(s@, p@, from as int) is Some,
        r matches Some(k) ==> find_from(s@, p@, from as int) == Some(k as int) && from <= k && k
            + p.len() <= s.len(),
{
    if p.len() > s.len() {
        return None;
    }
    let last: usize = s.len() - p.len();
    let mut i: usize = from;
    while i <= last
        invariant
            from <= i,
            last == s.len() - p.len(),
            find_from(s@, p@, from as int) == find_from(s@, p@, i as int),
        decreases last + 1 - i,
    {
        if matches_at(s, p, i) {
            return Some(i);
        }
        if i == last {
            assert(find_from(s@, p@, i + 1) is None);
            return None;
        }
        i += 1;
    }
    None
}

/// Computes [`trimmed`] of the part of `s` between `from` and `to`.
pub fn trim_range(s: &[char], from: usize, to: usize) -> (r: Vec<char>)
    requires
        from <= to <= s.len(),
    ensures
        r@ == trimmed(s@.subrange(from as int, to as int)),
{
    let ghost part = s@.subrange(from as int, to as int);
    let mut a: usize = from;
    while a < to && test_space(s[a])
        invariant
            from <= a <= to,
            to <= s.len(),
            part == s@.subrange(from as int, to as int),
            skip_spaces(part, 0) == skip_spaces(part, a - from),
        decreases to - a,
    {
        assert(part[a - from] == s@[a as int]);
        a += 1;
    }
    proof {
        if a < to {
            assert(part[a - from] == s@[a as int]);
        }
    }
    let mut b: usize = to;
    while b > a && test_space(s[b - 1])
        invariant
            from <= a <= b <= to,
            to <= s.len(),
            part == s@.subrange(from as int, to as int),
            drop_spaces(part, a - from, part.len() as int) == drop_spaces(
                part,
                a - from,
                b - from,
            ),
        decreases b,
    {
        assert(part[b - 1 - from] == s@[b - 1]);
        b -= 1;
    }
    proof {
        if b > a {
            assert(part[b - 1 - from] == s@[b - 1]);
        }
    }
    let r = copy_range(s, a, b);
    assert(r@ =~= part.subrange(a - from, b - from));
    r
}

/// Computes [`trimmed_lines`].
pub fn split_trimmed_lines(s: &[char]) -> (r: Vec<Vec<char>>)
    ensures
        r@.len() == trimmed_lines(s@).len(),
        forall|k: int| 0 <= k < r@.len() ==> r@[k]@ == trimmed_lines(s@)[k],
{
    let mut r: Vec<Vec<char>> = Vec::new();
    let ghost mut done: Seq<Seq<char>> = Seq::empty();
    let mut i: usize = 0;
    while i < s.len()
        invariant
            i <= s.len(),
            r@.len() == done.len(),
            forall|k: int| 0 <= k < r@.len() ==> r@[k]@ == done[k],
            done + trimmed_lines_from(s@, i as int) == trimmed_lines(s@),
        decreases s.len() - i,
    {
        let mut e: usize = i;
        while e < s.len() && s[e] != '\n'
            invariant
                i <= e <= s.len(),
                line_end(s@, i as int) == line_end(s@, e as int),
            decreases s.len() - e,
        {
            e += 1;
        }
        let line = trim_range(s, i, e);
        proof {
            let rest = if e < s.len() {
                trimmed_lines_from(s@, e + 1)
            } else {
                Seq::<Seq<char>>::empty()
            };
            assert(trimmed_lines_from(s@, i as int) =~= seq![line@] + rest);
            assert(done + (seq![line@] + rest) =~= done.push(line@) + rest);
            done = done.push(line@);
        }
        r.push(line);
        if e < s.len() {
            i = e + 1;
        } else {
            i = e;
        }
    }
    proof {
        assert(done + Seq::<Seq<char>>::empty() =~= done);
    }
    r
}

/// Whether the line starts with `word`, in any letter case.
pub fn test_starts_with_word(line: &[char], word: &str) -> (r: bool)
    ensures
        r == starts_with_word(line@, word@),
{
    let w = chars_of(word);
    if w.len() > line.len() {
        return false;
    }
    let head = copy_range(line, 0, w.len());
    same_text_ignoring_case(head.as_slice(), w.as_slice())
}

/// Computes [`opens_statement`].
pub fn test_opens_statement(line: &[char]) -> (r: bool)
    ensures
        r == opens_statement(line@),
{
    test_starts_with_word(line, "SELECT") || test_starts_with_word(line, "WITH")
        || test_starts_with_word(line, "INSERT") || test_starts_with_word(line, "UPDATE")
        || test_starts_with_word(line, "DELETE") || test_starts_with_word(line, "CREATE")
        || test_starts_with_word(line, "ALTER") || test_starts_with_word(line, "DROP")
}

/// Whether `line` starts with the text `p`.
pub fn test_prefix(line: &[char], p: &str) -> (r: bool)
    ensures
        r == has_prefix(line@, p@),
{
    let w = chars_of(p);
    if w.len() > line.len() {
        return false;
    }
    let head = copy_range(line, 0, w.len());
    same_text(head.as_slice(), w.as_slice())
}

/// The texts of the lines in `lines`.
pub open spec fn lines_view(lines: &Vec<Vec<char>>) -> Seq<Seq<char>> {
    Seq::new(lines@.len(), |i: int| lines@[i]@)
}

/// Computes [`scanned_statement`] from the trimmed lines of a text.
pub fn scan_statement(lines: &Vec<Vec<char>>) -> (r: Option<Vec<char>>)
    ensures
        r is Some == (statement_line_from(lines_view(lines), 0) < lines@.len()),
        r matches Some(x) ==> x@ == statement_at(
            lines_view(lines),
            statement_line_from(lines_view(lines), 0),
        ),
{
    let ghost all = lines_view(lines);
    let mut i: usize = 0;
    while i < lines.len()
        invariant
            i <= lines.len(),
            all == lines_view(lines),
            statement_line_from(all, 0) == statement_line_from(all, i as int),
        decreases lines.len() - i,
    {
        if test_opens_statement(lines[i].as_slice()) {
            let mut acc: Vec<char> = copy_range(lines[i].as_slice(), 0, lines[i].len());
            assert(acc@ =~= all[i as int]);
            let n: usize = lines[i].len();
            assert(statement_line_from(all, 0) == i);
            if n > 0 && lines[i][n - 1] == ';' {
                return Some(acc);
            }
            let mut j: usize = i + 1;
            while j < lines.len()
                invariant
                    i < j <= lines.len(),
                    all == lines_view(lines),
                    statement_line_from(all, 0) == i,
                    statement_at(all, i as int) == gather(all, j as int, acc@),
                decreases lines.len() - j,
            {
                let line = lines[j].as_slice();
                assert(all[j as int] == line@);
                if test_prefix(line, "```") {
                    return Some(acc);
                }
                let ghost before = acc@;
                acc.push(' ');
                crate::text::append_chars(&mut acc, line);
                assert(acc@ =~= before + seq![' '] + all[j as int]) by {
                    assert(all[j as int] == line@);
                }
                if line.len() > 0 && line[line.len() - 1] == ';' {
                    return Some(acc);
                }
                j += 1;
            }
            return Some(acc);
        }
        i += 1;
    }
    None
}

/// Computes [`tagged_block`].
pub fn find_tagged_block(s: &[char]) -> (r: Option<Vec<char>>)
    ensures
        r is Some == tagged_block(s@) is Some,
        r matches Some(x) ==> x@ == tagged_block(s@)->Some_0,
{
    let tag = chars_of("```sql");
    let fence = chars_of("```");
    proof {
        reveal_strlit("```sql");
        reveal_strlit("```");
    }
    match search(s, tag.as_slice(), 0) {
        Some(a) => match search(s, fence.as_slice(), a + 6) {
            Some(b) => Some(trim_range(s, a + 6, b)),
            None => None,
        },
        None => None,
    }
}

/// Computes [`plain_block`].
pub fn find_plain_block(s: &[char]) -> (r: Option<Vec<char>>)
    ensures
        r is Some == plain_block(s@) is Some,
        r matches Some(x) ==> x@ == plain_block(s@)->Some_0,
{
    let fence = chars_of("```");
    proof {
        reveal_strlit("```");
    }
    match search(s, fence.as_slice(), 0) {
        Some(a) => match search(s, fence.as_slice(), a + 3) {
            Some(b) => Some(trim_range(s, a + 3, b)),
            None => None,
        },
        None => None,
    }
}

/// Computes [`extracted_sql`] on characters.
pub fn extract_chars(s: &[char]) -> (r: Vec<char>)
    ensures
        r@ == extracted_sql(s@),
{
    match find_tagged_block(s) {
        Some(x) => {
            return x;
        },
        None => {},
    }
    match find_plain_block(s) {
        Some(x) => {
            return x;
        },
        None => {},
    }
    let lines = split_trimmed_lines(s);
    assert(lines_view(&lines) =~= trimmed_lines(s@));
    match scan_statement(&lines) {
        Some(x) => x,
        None => copy_range(s, 0, s.len()),
    }
}

/// Finds the SQL statement in the answer of a language model.
///
/// In this order: the trimmed inside of the first fenced block tagged
/// `sql`, up to the next fence; the trimmed inside of the first fenced block; the statement that starts on
/// the first line beginning with `SELECT`, `WITH`, `INSERT`, `UPDATE`,
/// `DELETE`, `CREATE`, `ALTER` or `DROP`, with the lines after it up to a
/// semicolon or a fence; the answer as it is.
pub fn extract_sql(content: &str) -> (r: String)
    ensures
        r@ == extracted_sql(content@),
{
    let s = chars_of(content);
    let x = extract_chars(s.as_slice());
    string_of(x.as_slice())
}

/// Whether an extracted text holds nothing to run: see [`is_degenerate`].
pub fn test_degenerate(sql: &str) -> (r: bool)
    ensures
        r == is_degenerate(sql@),
{
    let s = chars_of(sql);
    let lines = split_trimmed_lines(s.as_slice());
    let ghost all = trimmed_lines(sql@);
    let mut i: usize = 0;
    while i < lines.len()
        invariant
            i <= lines.len(),
            all == trimmed_lines(sql@),
            lines@.len() == all.len(),
            forall|k: int| 0 <= k < lines@.len() ==> lines@[k]@ == all[k],
            only_comments_from(all, 0) == only_comments_from(all, i as int),
        decreases lines.len() - i,
    {
        assert(lines@[i as int]@ == all[i as int]);
        if lines[i].len() != 0 && !test_prefix(lines[i].as_slice(), "--") {
            return false;
        }
        i += 1;
    }
    true
}

/// What a language model was asked, what it answered and the SQL found in
/// the answer.
#[derive(Debug)]
pub struct GeneratedSqlCandidate {
    pub question: String,
    pub raw_model_text: String,
    pub extracted_sql: String,
}

impl GeneratedSqlCandidate {
    /// The candidate for an answer: the SQL is extracted from it.
    pub fn new(question: &str, raw_model_text: &str) -> (r: Self)
        ensures
            r.question@ == question@,
            r.raw_model_text@ == raw_model_text@,
            r.extracted_sql@ == extracted_sql(raw_model_text@),
    {
        GeneratedSqlCandidate {
            question: copy_str(question),
            raw_model_text: copy_str(raw_model_text),
            extracted_sql: extract_sql(raw_model_text),
        }
    }

    /// Whether the extraction failed: the SQL found holds nothing to run.
    pub fn is_failure(&self) -> (r: bool)
        ensures
            r == is_degenerate(self.extracted_sql@),
    {
        test_degenerate(self.extracted_sql.as_str())
    }
}

} // verus!
