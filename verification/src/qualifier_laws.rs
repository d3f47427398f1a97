//! What holds of qualifying: it is idempotent, it leaves statements for
//! unknown subjects alone, it qualifies bare table references, and it
//! corrects letter case and near misses exactly.

use vstd::prelude::*;
use crate::catalog::{lemma_subject_index_from, SnapshotView};
use crate::distance::{edit_distance, lemma_distance_zero, typo_threshold};
use crate::lexer::{all_word_chars, free_of};
use crate::qualifier::{
    after, in_table_position, is_terminated, qualified_name, qualify_spec, qualify_text, rewrite,
    terminate, Context,
};
use crate::resolve::{
    closest, first_match, is_candidate, is_keyword, is_known_name, lemma_closest_upto,
    lemma_match_from, resolve_column, Scope,
};
use crate::rewrite_lemmas::{
    lemma_rewrite_settles, lemma_rewrite_word, lemma_terminate_commutes,
    lemma_terminate_settles, lemma_terminate_terminates,
};
use crate::text::{ci_eq, is_digit, is_word_char};

verus! {

/// Qualifying is idempotent: for every statement, subject and valid
/// snapshot, qualifying the qualified statement again gives the same text.
pub proof fn lemma_qualify_idempotent(sql: Seq<char>, subject: Seq<char>, snapshot: SnapshotView)
    requires
        snapshot.wf(),
    ensures
        qualify_spec(qualify_spec(sql, subject, snapshot), subject, snapshot) == qualify_spec(
            sql,
            subject,
            snapshot,
        ),
{
    if snapshot.has_subject(subject) {
        lemma_subject_index_from(snapshot.subjects, subject, 0);
        let s = snapshot.subjects[snapshot.subject_index(subject)];
        assert(free_of(s.name, '"'));
        lemma_qualify_text_idempotent(sql, s.scope());
    }
}

/// For a subject that the snapshot does not hold, qualifying changes
/// nothing.
pub proof fn lemma_qualify_unknown_subject(
    sql: Seq<char>,
    subject: Seq<char>,
    snapshot: SnapshotView,
)
    requires
        !snapshot.has_subject(subject),
    ensures
        qualify_spec(sql, subject, snapshot) == sql,
{
}

/// Rewriting is idempotent: a rewritten statement is left as it is when it
/// is rewritten again for the same names. The subject's name must hold no
/// double quote, as every valid subject name does.
pub proof fn lemma_qualify_text_idempotent(sql: Seq<char>, scope: Scope)
    requires
        free_of(scope.subject, '"'),
    ensures
        qualify_text(qualify_text(sql, scope), scope) == qualify_text(sql, scope),
{
    let once = rewrite(sql, Context::Plain, scope);
    lemma_terminate_commutes(once, Context::Plain, scope);
    lemma_rewrite_settles(sql, Context::Plain, scope);
    lemma_terminate_terminates(once);
    lemma_terminate_settles(terminate(once));
}

/// Every rewritten statement ends in exactly one semicolon.
pub proof fn lemma_qualify_text_terminated(sql: Seq<char>, scope: Scope)
    ensures
        is_terminated(qualify_text(sql, scope)),
{
    lemma_terminate_terminates(rewrite(sql, Context::Plain, scope));
}

/// The terminator can be settled first: the statement rewritten for a
/// scope is also the terminated statement, rewritten.
pub proof fn lemma_qualify_text_terminated_first(sql: Seq<char>, scope: Scope)
    ensures
        qualify_text(sql, scope) == rewrite(terminate(sql), Context::Plain, scope),
{
    lemma_terminate_commutes(sql, Context::Plain, scope);
}

/// A bare table reference is qualified: a word that stands in a table
/// position and names a table of the subject, in any letter case, is
/// rewritten to the qualified name of the first such table, and what follows
/// is rewritten from the plain context.
pub proof fn lemma_table_reference_qualified(w: Seq<char>, x: Seq<char>, scope: Scope, k: int)
    requires
        w.len() > 0,
        all_word_chars(w),
        !is_digit(w[0]),
        x.len() > 0 ==> !is_word_char(x[0]) && x[0] != '.',
        0 <= k < scope.tables.len(),
        ci_eq(scope.tables[k], w),
        forall|j: int| 0 <= j < k ==> !ci_eq(#[trigger] scope.tables[j], w),
    ensures
        rewrite(w + x, Context::Clause, scope) == qualified_name(scope.subject, scope.tables[k])
            + rewrite(x, Context::Plain, scope),
{
    lemma_rewrite_word(w, x, Context::Clause, scope);
    lemma_match_from(scope.tables, w, 0);
    let m = first_match(scope.tables, w);
    if m > k {
        assert(!ci_eq(scope.tables[k], w));
    }
}

/// Outside table positions nothing is qualified: a word that a dot follows,
/// or that no clause word precedes, is resolved as a column reference.
pub proof fn lemma_other_words_resolved(w: Seq<char>, x: Seq<char>, c: Context, scope: Scope)
    requires
        w.len() > 0,
        all_word_chars(w),
        !is_digit(w[0]),
        x.len() > 0 ==> !is_word_char(x[0]),
        !in_table_position(c, x),
    ensures
        rewrite(w + x, c, scope) == resolve_column(w, scope) + rewrite(
            x,
            after(w, c, x, scope),
            scope,
        ),
{
    lemma_rewrite_word(w, x, c, scope);
}

/// Letter case is corrected exactly: an identifier that is no reserved word
/// and no column as written, and that equals a column up to letter case,
/// resolves to the first such column, in the catalog's spelling.
pub proof fn lemma_case_corrected(w: Seq<char>, scope: Scope, k: int)
    requires
        !is_keyword(w),
        !scope.columns.contains(w),
        0 <= k < scope.columns.len(),
        ci_eq(scope.columns[k], w),
        forall|j: int| 0 <= j < k ==> !ci_eq(#[trigger] scope.columns[j], w),
    ensures
        resolve_column(w, scope) == scope.columns[k],
{
    lemma_match_from(scope.columns, w, 0);
    let m = first_match(scope.columns, w);
    if m > k {
        assert(!ci_eq(scope.columns[k], w));
    }
}

/// A misspelling within the threshold is corrected: an identifier that is
/// no reserved word, equals no column, table or subject name up to letter
/// case, and lies within the threshold of the candidate column `k`, which no
/// candidate beats and no earlier candidate equals in distance, resolves to
/// that column.
pub proof fn lemma_typo_corrected(w: Seq<char>, scope: Scope, k: int)
    requires
        !is_keyword(w),
        first_match(scope.columns, w) == scope.columns.len(),
        !is_known_name(w, scope),
        0 <= k < scope.columns.len(),
        is_candidate(scope.columns[k]),
        forall|j: int|
            0 <= j < scope.columns.len() && is_candidate(#[trigger] scope.columns[j])
                ==> edit_distance(w, scope.columns[k]) <= edit_distance(w, scope.columns[j]),
        forall|j: int|
            0 <= j < k && is_candidate(#[trigger] scope.columns[j]) ==> edit_distance(
                w,
                scope.columns[k],
            ) < edit_distance(w, scope.columns[j]),
        edit_distance(w, scope.columns[k]) <= typo_threshold(w),
    ensures
        resolve_column(w, scope) == scope.columns[k],
{
    lemma_match_from(scope.columns, w, 0);
    lemma_closest_upto(scope.columns, w, scope.columns.len() as int);
    let m = closest(scope.columns, w);
    assert(m == k);
    if scope.columns.contains(w) {
        let i = choose|i: int| 0 <= i < scope.columns.len() && scope.columns[i] == w;
        assert(ci_eq(scope.columns[i], w));
    }
    if edit_distance(w, scope.columns[k]) == 0 {
        lemma_distance_zero(w, scope.columns[k]);
        assert(ci_eq(scope.columns[k], w));
    }
}

/// A token beyond the threshold is left alone: an identifier that equals no
/// column up to letter case, and from which every candidate column is
/// farther than the threshold, resolves to itself.
pub proof fn lemma_far_token_untouched(w: Seq<char>, scope: Scope)
    requires
        first_match(scope.columns, w) == scope.columns.len(),
        forall|j: int|
            0 <= j < scope.columns.len() && is_candidate(#[trigger] scope.columns[j])
                ==> edit_distance(w, scope.columns[j]) > typo_threshold(w),
    ensures
        resolve_column(w, scope) == w,
{
    lemma_closest_upto(scope.columns, w, scope.columns.len() as int);
}

} // verus!
