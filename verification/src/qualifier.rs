//! Rewriting a statement for one subject: bare table references become
//! subject-qualified, identifiers are resolved against the subject's columns,
//! and the statement ends in exactly one semicolon.
//!
//! The text is read token by token, front to back. What a token becomes
//! depends on the token, on the clause word before it and on the character
//! after it, never on anything further away.

use vstd::prelude::*;
use crate::catalog::{SchemaSnapshot, SnapshotView};
use crate::lexer::{scan_token, token_len};
use crate::resolve::{find_match, first_match, resolve, resolve_column, Names, Scope};
use crate::text::{
    append_chars, chars_of, ci_eq, copy_range, copy_str, is_digit, is_space, is_word,
    is_word_char, string_of, test_digit, test_space, test_word_char,
};

verus! {

/// What the words read so far say about the next word.
#[derive(Clone, Copy, Debug)]
pub enum Context {
    /// Nothing: the next word is an ordinary identifier.
    Plain,
    /// `INSERT` was read: `INTO` opens a table position.
    Insert,
    /// `FROM`, `JOIN`, `UPDATE` or `INSERT INTO` was read: the next word
    /// names a table.
    Clause,
}

/// `w` is `FROM`, `JOIN` or `UPDATE`, in any letter case.
pub open spec fn is_clause_word(w: Seq<char>) -> bool {
    ci_eq(w, "FROM"@) || ci_eq(w, "JOIN"@) || ci_eq(w, "UPDATE"@)
}

/// The context that holds after the word `w` was written in context `c`.
pub open spec fn after_word(c: Context, w: Seq<char>) -> Context {
    if is_clause_word(w) {
        Context::Clause
    } else if ci_eq(w, "INTO"@) && c is Insert {
        Context::Clause
    } else if ci_eq(w, "INSERT"@) {
        Context::Insert
    } else {
        Context::Plain
    }
}

/// A word read now names a table: a clause word came before it, and no dot
/// follows it (a word before a dot qualifies what comes after the dot).
pub open spec fn in_table_position(c: Context, rest: Seq<char>) -> bool {
    c is Clause && !(rest.len() > 0 && rest[0] == '.')
}

/// The token is a word that may be an identifier: it starts with a letter or
/// an underscore.
pub open spec fn starts_identifier(tok: Seq<char>) -> bool {
    tok.len() > 0 && is_word_char(tok[0]) && !is_digit(tok[0])
}

/// The subject-qualified, double-quoted form of a table name.
pub open spec fn qualified_name(subject: Seq<char>, table: Seq<char>) -> Seq<char> {
    seq!['"'] + subject + seq!['"', '.', '"'] + table + seq!['"']
}

/// The token names one of the subject's tables in a table position.
pub open spec fn qualifies(tok: Seq<char>, c: Context, rest: Seq<char>, scope: Scope) -> bool {
    starts_identifier(tok) && in_table_position(c, rest) && first_match(scope.tables, tok)
        < scope.tables.len()
}

/// What is written for the token `tok`, read in context `c` and followed by
/// `rest`.
///
/// In a table position a word that names a table of the subject, in any
/// letter case, becomes the qualified form of that table, and any other word
/// stays. Elsewhere a word that starts like an identifier is resolved by
/// [`resolve_column`]. Every other token stays.
pub open spec fn emit(tok: Seq<char>, c: Context, rest: Seq<char>, scope: Scope) -> Seq<char> {
    if !starts_identifier(tok) {
        tok
    } else if in_table_position(c, rest) {
        if first_match(scope.tables, tok) < scope.tables.len() {
            qualified_name(scope.subject, scope.tables[first_match(scope.tables, tok)])
        } else {
            tok
        }
    } else {
        resolve_column(tok, scope)
    }
}

/// The context that holds after the token `tok`. White space keeps the
/// context; a word sets it by what was written for it; a qualified table
/// name and every other token reset it.
pub open spec fn after(tok: Seq<char>, c: Context, rest: Seq<char>, scope: Scope) -> Context {
    if tok.len() > 0 && is_word_char(tok[0]) {
        if qualifies(tok, c, rest, scope) {
            Context::Plain
        } else {
            after_word(c, emit(tok, c, rest, scope))
        }
    } else if tok.len() > 0 && is_space(tok[0]) {
        c
    } else {
        Context::Plain
    }
}

/// The text `t` rewritten token by token, starting in context `c`.
pub open spec fn rewrite(t: Seq<char>, c: Context, scope: Scope) -> Seq<char>
    decreases t.len(),
{
    let n = token_len(t);
    if 0 < n <= t.len() {
        let tok = t.take(n as int);
        let rest = t.skip(n as int);
        emit(tok, c, rest, scope) + rewrite(rest, after(tok, c, rest, scope), scope)
    } else {
        Seq::empty()
    }
}

/// White space or a semicolon: what may trail a statement.
pub open spec fn is_trailer(c: char) -> bool {
    is_space(c) || c == ';'
}

/// `s` without the white space and semicolons at its end.
pub open spec fn strip_trailers(s: Seq<char>) -> Seq<char>
    decreases s.len(),
{
    if s.len() > 0 && is_trailer(s.last()) {
        strip_trailers(s.drop_last())
    } else {
        s
    }
}

/// `s` ended by one semicolon in place of whatever white space and
/// semicolons trailed it.
pub open spec fn terminate(s: Seq<char>) -> Seq<char> {
    strip_trailers(s).push(';')
}

/// `s` ends in one semicolon that neither white space nor another semicolon
/// precedes.
pub open spec fn is_terminated(s: Seq<char>) -> bool {
    &&& s.len() > 0
    &&& s.last() == ';'
    &&& (s.len() == 1 || !is_trailer(s[s.len() - 2]))
}

/// The statement `sql` rewritten for the names in `scope`: rewritten token
/// by token, then terminated.
pub open spec fn qualify_text(sql: Seq<char>, scope: Scope) -> Seq<char> {
    terminate(rewrite(sql, Context::Plain, scope))
}

/// Computes [`after_word`].
pub fn context_after_word(c: Context, w: &[char]) -> (r: Context)
    ensures
        r == after_word(c, w@),
{
    if is_word(w, "FROM") || is_word(w, "JOIN") || is_word(w, "UPDATE") {
        Context::Clause
    } else if is_word(w, "INTO") && matches!(c, Context::Insert) {
        Context::Clause
    } else if is_word(w, "INSERT") {
        Context::Insert
    } else {
        Context::Plain
    }
}

/// Computes [`qualified_name`].
pub fn build_qualified_name(subject: &[char], table: &[char]) -> (r: Vec<char>)
    ensures
        r@ == qualified_name(subject@, table@),
{
    let mut r: Vec<char> = Vec::new();
    r.push('"');
    append_chars(&mut r, subject);
    r.push('"');
    r.push('.');
    r.push('"');
    append_chars(&mut r, table);
    r.push('"');
    assert(r@ =~= qualified_name(subject@, table@));
    r
}

/// Computes [`rewrite`] from the plain context.
pub fn rewrite_chars(t: &[char], names: &Names) -> (out: Vec<char>)
    ensures
        out@ == rewrite(t@, Context::Plain, names@),
{
    let mut out: Vec<char> = Vec::new();
    let mut c: Context = Context::Plain;
    let mut i: usize = 0;
    assert(t@.skip(0) =~= t@);
    while i < t.len()
        invariant
            i <= t.len(),
            out@ + rewrite(t@.skip(i as int), c, names@) == rewrite(t@, Context::Plain, names@),
        decreases t.len() - i,
    {
        let j: usize = scan_token(t, i);
        let tok: Vec<char> = copy_range(t, i, j);
        let first: char = t[i];
        let ghost suffix = t@.skip(i as int);
        let ghost rest = suffix.skip(j - i);
        proof {
            assert(suffix.take(j - i) =~= tok@);
            assert(rest =~= t@.skip(j as int));
            assert(tok@[0] == first);
        }
        let piece: Vec<char>;
        let next: Context;
        if test_word_char(first) {
            if !test_digit(first) {
                let dotted: bool = j < t.len() && t[j] == '.';
                if matches!(c, Context::Clause) && !dotted {
                    let k: usize = find_match(&names.tables, tok.as_slice());
                    if k < names.tables.len() {
                        piece =
                        build_qualified_name(names.subject.as_slice(), names.tables[k].as_slice());
                        next = Context::Plain;
                    } else {
                        next = context_after_word(c, tok.as_slice());
                        piece = tok;
                    }
                } else {
                    piece = resolve(tok.as_slice(), names);
                    next = context_after_word(c, piece.as_slice());
                }
            } else {
                next = context_after_word(c, tok.as_slice());
                piece = tok;
            }
        } else if test_space(first) {
            next = c;
            piece = tok;
        } else {
            next = Context::Plain;
            piece = tok;
        }
        proof {
            assert(piece@ == emit(suffix.take(j - i), c, rest, names@));
            assert(next == after(suffix.take(j - i), c, rest, names@));
            assert((out@ + piece@) + rewrite(rest, next, names@) =~= out@ + (piece@ + rewrite(
                rest,
                next,
                names@,
            )));
        }
        append_chars(&mut out, piece.as_slice());
        i = j;
        c = next;
    }
    assert(t@.skip(t.len() as int).len() == 0);
    assert(out@ + Seq::<char>::empty() =~= out@);
    out
}

/// Computes [`terminate`].
pub fn terminate_chars(s: &[char]) -> (r: Vec<char>)
    ensures
        r@ == terminate(s@),
{
    let mut e: usize = s.len();
    assert(s@.take(e as int) =~= s@);
    while e > 0 && (test_space(s[e - 1]) || s[e - 1] == ';')
        invariant
            e <= s.len(),
            strip_trailers(s@) == strip_trailers(s@.take(e as int)),
        decreases e,
    {
        assert(s@.take(e as int).drop_last() =~= s@.take(e - 1));
        e -= 1;
    }
    let mut r: Vec<char> = copy_range(s, 0, e);
    assert(s@.subrange(0, e as int) =~= s@.take(e as int));
    r.push(';');
    r
}

/// Computes [`qualify_text`].
pub fn qualify_chars(sql: &[char], names: &Names) -> (r: Vec<char>)
    ensures
        r@ == qualify_text(sql@, names@),
{
    let t = rewrite_chars(sql, names);
    terminate_chars(t.as_slice())
}

/// The statement `sql` as it is run for `subject`: rewritten for the names
/// that the snapshot holds for the subject, and left as it is where the
/// snapshot does not hold the subject.
pub open spec fn qualify_spec(sql: Seq<char>, subject: Seq<char>, snapshot: SnapshotView) -> Seq<
    char,
> {
    if snapshot.has_subject(subject) {
        qualify_text(sql, snapshot.subjects[snapshot.subject_index(subject)].scope())
    } else {
        sql
    }
}

/// Rewrites `sql` for `subject`.
///
/// Bare references to the subject's tables after `FROM`, `JOIN`, `UPDATE`,
/// `INSERT INTO` and `DELETE FROM` become `"subject"."table"`; identifiers
/// elsewhere take the letter case of the column they name, or become the
/// column they misspell; the statement ends in one semicolon. Quoted spans
/// and reserved words are never touched. For a subject that the snapshot
/// does not hold the statement comes back unchanged.
pub fn qualify(sql: &str, subject: &str, snapshot: &SchemaSnapshot) -> (r: String)
    ensures
        r@ == qualify_spec(sql@, subject@, snapshot@),
        !snapshot@.has_subject(subject@) ==> r@ == sql@,
{
    match snapshot.subject(subject) {
        None => copy_str(sql),
        Some(s) => {
            let names = s.names();
            let text = chars_of(sql);
            let out = qualify_chars(text.as_slice(), &names);
            string_of(out.as_slice())
        },
    }
}

/// A statement together with what it was rewritten to, and for whom.
#[derive(Debug)]
pub struct QualifiedStatement {
    pub original_sql: String,
    pub rewritten_sql: String,
    pub target_subject: String,
}

/// Rewrites `sql` for `subject` and keeps the original beside the result.
pub fn qualify_statement(sql: &str, subject: &str, snapshot: &SchemaSnapshot) -> (r:
    QualifiedStatement)
    ensures
        r.original_sql@ == sql@,
        r.target_subject@ == subject@,
        r.rewritten_sql@ == qualify_spec(sql@, subject@, snapshot@),
{
    QualifiedStatement {
        original_sql: copy_str(sql),
        rewritten_sql: qualify(sql, subject, snapshot),
        target_subject: copy_str(subject),
    }
}

} // verus!
