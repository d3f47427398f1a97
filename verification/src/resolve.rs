//! Resolving one identifier against the names a subject is known to hold:
//! letter case is corrected, and a near miss is taken for the closest column.

use vstd::prelude::*;
use crate::distance::{compute_edit_distance, compute_typo_threshold, edit_distance, typo_threshold};
use crate::lexer::all_word_chars;
use crate::text::{
    chars_of, ci_eq, copy_chars, is_digit, same_text, same_text_ignoring_case, test_digit,
    test_word_char,
};

verus! {

/// The names in whose light a statement is rewritten: the subject, its
/// tables and the columns of all its tables, in catalog order.
pub struct Scope {
    pub subject: Seq<char>,
    pub tables: Seq<Seq<char>>,
    pub columns: Seq<Seq<char>>,
}

/// The executable counterpart of [`Scope`].
pub struct Names {
    pub subject: Vec<char>,
    pub tables: Vec<Vec<char>>,
    pub columns: Vec<Vec<char>>,
}

/// The texts held by a vector of character vectors.
pub open spec fn names_view(names: &Vec<Vec<char>>) -> Seq<Seq<char>> {
    Seq::new(names@.len(), |i: int| names@[i]@)
}

impl View for Names {
    type V = Scope;

    open spec fn view(&self) -> Scope {
        Scope {
            subject: self.subject@,
            tables: names_view(&self.tables),
            columns: names_view(&self.columns),
        }
    }
}

/// The number of reserved words.
pub const KEYWORD_COUNT: usize = 56;

/// The reserved word at position `k`; the empty text outside the list.
pub open spec fn keyword_text(k: int) -> Seq<char> {
    if k == 0 { "SELECT"@ }
    else if k == 1 { "FROM"@ }
    else if k == 2 { "WHERE"@ }
    else if k == 3 { "JOIN"@ }
    else if k == 4 { "INNER"@ }
    else if k == 5 { "LEFT"@ }
    else if k == 6 { "RIGHT"@ }
    else if k == 7 { "FULL"@ }
    else if k == 8 { "OUTER"@ }
    else if k == 9 { "CROSS"@ }
    else if k == 10 { "ON"@ }
    else if k == 11 { "AS"@ }
    else if k == 12 { "AND"@ }
    else if k == 13 { "OR"@ }
    else if k == 14 { "NOT"@ }
    else if k == 15 { "IN"@ }
    else if k == 16 { "IS"@ }
    else if k == 17 { "NULL"@ }
    else if k == 18 { "LIKE"@ }
    else if k == 19 { "BETWEEN"@ }
    else if k == 20 { "GROUP"@ }
    else if k == 21 { "BY"@ }
    else if k == 22 { "ORDER"@ }
    else if k == 23 { "HAVING"@ }
    else if k == 24 { "LIMIT"@ }
    else if k == 25 { "OFFSET"@ }
    else if k == 26 { "UNION"@ }
    else if k == 27 { "ALL"@ }
    else if k == 28 { "DISTINCT"@ }
    else if k == 29 { "INSERT"@ }
    else if k == 30 { "INTO"@ }
    else if k == 31 { "VALUES"@ }
    else if k == 32 { "UPDATE"@ }
    else if k == 33 { "SET"@ }
    else if k == 34 { "DELETE"@ }
    else if k == 35 { "CREATE"@ }
    else if k == 36 { "ALTER"@ }
    else if k == 37 { "DROP"@ }
    else if k == 38 { "TABLE"@ }
    else if k == 39 { "WITH"@ }
    else if k == 40 { "CASE"@ }
    else if k == 41 { "WHEN"@ }
    else if k == 42 { "ELSE"@ }
    else if k == 43 { "END"@ }
    else if k == 44 { "ASC"@ }
    else if k == 45 { "DESC"@ }
    else if k == 46 { "COUNT"@ }
    else if k == 47 { "SUM"@ }
    else if k == 48 { "AVG"@ }
    else if k == 49 { "MIN"@ }
    else if k == 50 { "MAX"@ }
    else if k == 51 { "CAST"@ }
    else if k == 52 { "TRUE"@ }
    else if k == 53 { "FALSE"@ }
    else if k == 54 { "EXISTS"@ }
    else if k == 55 { "USING"@ }
    else { Seq::empty() }
}

/// The reserved words, which are never rewritten and never offered as a
/// correction.
pub open spec fn keyword_list() -> Seq<Seq<char>> {
    Seq::new(KEYWORD_COUNT as nat, |k: int| keyword_text(k))
}

/// The reserved word at position `k`; the empty text outside the list.
pub fn keyword(k: usize) -> (r: &'static str)
    ensures
        r@ == keyword_text(k as int),
{
    proof {
        reveal_strlit("");
    }
    if k == 0 { "SELECT" }
    else if k == 1 { "FROM" }
    else if k == 2 { "WHERE" }
    else if k == 3 { "JOIN" }
    else if k == 4 { "INNER" }
    else if k == 5 { "LEFT" }
    else if k == 6 { "RIGHT" }
    else if k == 7 { "FULL" }
    else if k == 8 { "OUTER" }
    else if k == 9 { "CROSS" }
    else if k == 10 { "ON" }
    else if k == 11 { "AS" }
    else if k == 12 { "AND" }
    else if k == 13 { "OR" }
    else if k == 14 { "NOT" }
    else if k == 15 { "IN" }
    else if k == 16 { "IS" }
    else if k == 17 { "NULL" }
    else if k == 18 { "LIKE" }
    else if k == 19 { "BETWEEN" }
    else if k == 20 { "GROUP" }
    else if k == 21 { "BY" }
    else if k == 22 { "ORDER" }
    else if k == 23 { "HAVING" }
    else if k == 24 { "LIMIT" }
    else if k == 25 { "OFFSET" }
    else if k == 26 { "UNION" }
    else if k == 27 { "ALL" }
    else if k == 28 { "DISTINCT" }
    else if k == 29 { "INSERT" }
    else if k == 30 { "INTO" }
    else if k == 31 { "VALUES" }
    else if k == 32 { "UPDATE" }
    else if k == 33 { "SET" }
    else if k == 34 { "DELETE" }
    else if k == 35 { "CREATE" }
    else if k == 36 { "ALTER" }
    else if k == 37 { "DROP" }
    else if k == 38 { "TABLE" }
    else if k == 39 { "WITH" }
    else if k == 40 { "CASE" }
    else if k == 41 { "WHEN" }
    else if k == 42 { "ELSE" }
    else if k == 43 { "END" }
    else if k == 44 { "ASC" }
    else if k == 45 { "DESC" }
    else if k == 46 { "COUNT" }
    else if k == 47 { "SUM" }
    else if k == 48 { "AVG" }
    else if k == 49 { "MIN" }
    else if k == 50 { "MAX" }
    else if k == 51 { "CAST" }
    else if k == 52 { "TRUE" }
    else if k == 53 { "FALSE" }
    else if k == 54 { "EXISTS" }
    else if k == 55 { "USING" }
    else { "" }
}

/// The index of the first name at or after `i` that equals `w` up to letter
/// case; the length of `names` when there is none.
pub open spec fn match_from(names: Seq<Seq<char>>, w: Seq<char>, i: int) -> int
    decreases names.len() - i,
{
    if i < 0 || i >= names.len() {
        names.len() as int
    } else if ci_eq(names[i], w) {
        i
    } else {
        match_from(names, w, i + 1)
    }
}

/// The index of the first name that equals `w` up to letter case; the length
/// of `names` when there is none.
pub open spec fn first_match(names: Seq<Seq<char>>, w: Seq<char>) -> int {
    match_from(names, w, 0)
}

/// `w` is a reserved word, in any letter case.
pub open spec fn is_keyword(w: Seq<char>) -> bool {
    first_match(keyword_list(), w) < keyword_list().len()
}

/// `w` has the shape of an unquoted identifier.
pub open spec fn is_identifier(w: Seq<char>) -> bool {
    w.len() > 0 && !is_digit(w[0]) && all_word_chars(w)
}

/// `name` may be offered as the correction of a misspelt token: it has the
/// shape of an identifier and is no reserved word.
pub open spec fn is_candidate(name: Seq<char>) -> bool {
    is_identifier(name) && !is_keyword(name)
}

/// The index of the candidate among the first `i` names that is closest to
/// `w`, the earliest one among equally close ones; the length of `names` when
/// the first `i` names hold no candidate.
pub open spec fn closest_upto(names: Seq<Seq<char>>, w: Seq<char>, i: int) -> int
    decreases i,
{
    if i <= 0 || i > names.len() {
        names.len() as int
    } else {
        let b = closest_upto(names, w, i - 1);
        if is_candidate(names[i - 1]) && (b == names.len() || edit_distance(w, names[i - 1])
            < edit_distance(w, names[b])) {
            i - 1
        } else {
            b
        }
    }
}

/// The index of the candidate closest to `w`; see [`closest_upto`].
pub open spec fn closest(names: Seq<Seq<char>>, w: Seq<char>) -> int {
    closest_upto(names, w, names.len() as int)
}

/// `w` names the subject or one of its tables, in any letter case.
pub open spec fn is_known_name(w: Seq<char>, scope: Scope) -> bool {
    ci_eq(scope.subject, w) || first_match(scope.tables, w) < scope.tables.len()
}

/// The text that stands for the identifier `w` once resolved.
///
/// A token that is a column as written, or a reserved word, stays. One that
/// differs from a column in letter case only becomes that column, the first
/// such in catalog order. One that names the subject or a table stays. Any
/// other becomes the closest candidate column when its distance to it is
/// above 0 and within [`typo_threshold`], and stays otherwise.
pub open spec fn resolve_column(w: Seq<char>, scope: Scope) -> Seq<char> {
    if scope.columns.contains(w) || is_keyword(w) {
        w
    } else if first_match(scope.columns, w) < scope.columns.len() {
        scope.columns[first_match(scope.columns, w)]
    } else if is_known_name(w, scope) {
        w
    } else {
        let k = closest(scope.columns, w);
        if k < scope.columns.len() && 0 < edit_distance(w, scope.columns[k]) <= typo_threshold(w) {
            scope.columns[k]
        } else {
            w
        }
    }
}

/// What [`match_from`] returns: the first match at or after `i`.
pub proof fn lemma_match_from(names: Seq<Seq<char>>, w: Seq<char>, i: int)
    requires
        0 <= i <= names.len(),
    ensures
        i <= match_from(names, w, i) <= names.len(),
        match_from(names, w, i) < names.len() ==> ci_eq(names[match_from(names, w, i)], w),
        forall|j: int| i <= j < match_from(names, w, i) ==> !ci_eq(#[trigger] names[j], w),
    decreases names.len() - i,
{
    if i < names.len() && !ci_eq(names[i], w) {
        lemma_match_from(names, w, i + 1);
    }
}

/// What [`closest_upto`] returns: a candidate among the first `i` names that
/// no candidate among them beats and no earlier one equals.
pub proof fn lemma_closest_upto(names: Seq<Seq<char>>, w: Seq<char>, i: int)
    requires
        0 <= i <= names.len(),
    ensures
        ({
            let k = closest_upto(names, w, i);
            &&& (k == names.len() || 0 <= k < i)
            &&& k == names.len() ==> forall|j: int| 0 <= j < i ==> !is_candidate(#[trigger] names[j])
            &&& k < names.len() ==> {
                &&& is_candidate(names[k])
                &&& forall|j: int|
                    0 <= j < i && is_candidate(#[trigger] names[j]) ==> edit_distance(w, names[k])
                        <= edit_distance(w, names[j])
                &&& forall|j: int|
                    0 <= j < k && is_candidate(#[trigger] names[j]) ==> edit_distance(w, names[k])
                        < edit_distance(w, names[j])
            }
        }),
    decreases i,
{
    if i > 0 {
        lemma_closest_upto(names, w, i - 1);
    }
}

/// Computes [`first_match`].
pub fn find_match(names: &Vec<Vec<char>>, w: &[char]) -> (k: usize)
    ensures
        k == first_match(names_view(names), w@),
        k <= names@.len(),
{
    let mut i: usize = 0;
    while i < names.len()
        invariant
            i <= names@.len(),
            first_match(names_view(names), w@) == match_from(names_view(names), w@, i as int),
        decreases names.len() - i,
    {
        if same_text_ignoring_case(names[i].as_slice(), w) {
            return i;
        }
        i += 1;
    }
    i
}

/// Whether one of `names` is `w` as written.
pub fn holds_name(names: &Vec<Vec<char>>, w: &[char]) -> (r: bool)
    ensures
        r == names_view(names).contains(w@),
{
    let mut i: usize = 0;
    while i < names.len()
        invariant
            i <= names@.len(),
            forall|j: int| 0 <= j < i ==> names_view(names)[j] != w@,
        decreases names.len() - i,
    {
        if same_text(names[i].as_slice(), w) {
            assert(names_view(names)[i as int] == w@);
            return true;
        }
        i += 1;
    }
    false
}

/// Computes [`is_keyword`].
pub fn test_keyword(w: &[char]) -> (r: bool)
    ensures
        r == is_keyword(w@),
{
    let mut i: usize = 0;
    while i < KEYWORD_COUNT
        invariant
            i <= KEYWORD_COUNT,
            first_match(keyword_list(), w@) == match_from(keyword_list(), w@, i as int),
        decreases KEYWORD_COUNT - i,
    {
        let k = chars_of(keyword(i));
        if same_text_ignoring_case(k.as_slice(), w) {
            return true;
        }
        i += 1;
    }
    false
}

/// Computes [`is_identifier`].
pub fn test_identifier(w: &[char]) -> (r: bool)
    ensures
        r == is_identifier(w@),
{
    if w.len() == 0 || test_digit(w[0]) {
        return false;
    }
    let mut i: usize = 0;
    while i < w.len()
        invariant
            i <= w.len(),
            forall|j: int| 0 <= j < i ==> crate::text::is_word_char(#[trigger] w@[j]),
        decreases w.len() - i,
    {
        if !test_word_char(w[i]) {
            return false;
        }
        i += 1;
    }
    true
}

/// Computes [`closest`].
pub fn find_closest(names: &Vec<Vec<char>>, w: &[char]) -> (k: usize)
    ensures
        k == closest(names_view(names), w@),
        k <= names@.len(),
{
    let n: usize = names.len();
    let mut best: usize = n;
    let mut best_distance: usize = 0;
    let mut i: usize = 0;
    while i < n
        invariant
            i <= n,
            n == names@.len(),
            best == closest_upto(names_view(names), w@, i as int),
            best <= n,
            best < n ==> best_distance == edit_distance(w@, names_view(names)[best as int]),
        decreases n - i,
    {
        let name = names[i].as_slice();
        if test_identifier(name) && !test_keyword(name) {
            let d: usize = compute_edit_distance(w, name);
            if best == n || d < best_distance {
                best = i;
                best_distance = d;
            }
        }
        i += 1;
    }
    best
}

/// Computes [`resolve_column`].
pub fn resolve(w: &[char], names: &Names) -> (r: Vec<char>)
    ensures
        r@ == resolve_column(w@, names@),
{
    if holds_name(&names.columns, w) || test_keyword(w) {
        return copy_chars(w);
    }
    let m: usize = find_match(&names.columns, w);
    if m < names.columns.len() {
        return copy_chars(names.columns[m].as_slice());
    }
    if same_text_ignoring_case(names.subject.as_slice(), w) || find_match(&names.tables, w)
        < names.tables.len() {
        return copy_chars(w);
    }
    let k: usize = find_closest(&names.columns, w);
    if k < names.columns.len() {
        let d: usize = compute_edit_distance(w, names.columns[k].as_slice());
        if 0 < d && d <= compute_typo_threshold(w) {
            return copy_chars(names.columns[k].as_slice());
        }
    }
    copy_chars(w)
}

} // verus!
