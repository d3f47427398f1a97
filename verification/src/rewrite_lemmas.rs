//! How the rewriting of statements behaves token by token: what each kind
//! of token becomes, that a second rewriting finds the same tokens, and that
//! the terminator can be settled before or after.

use vstd::prelude::*;
use crate::lexer::{
    all_word_chars, free_of, is_quote, lemma_quoted_len, lemma_quoted_len_of_span,
    lemma_token_len, lemma_word_len, lemma_word_len_of_run, quoted_len, token_len,
};
use crate::qualifier::{
    after, emit, in_table_position, is_terminated, is_trailer, qualified_name, qualifies, rewrite,
    starts_identifier, strip_trailers, terminate, Context,
};
use crate::resolve::{
    closest, first_match, is_candidate, lemma_closest_upto, lemma_match_from, resolve_column,
    Scope,
};
use crate::text::{ci_eq, is_digit, is_space, is_word_char, lower};

verus! {

/// Two characters that agree up to letter case are both word characters or
/// neither, and both digits or neither.
pub proof fn lemma_lower_keeps_class(a: char, b: char)
    requires
        lower(a) == lower(b),
    ensures
        is_word_char(a) == is_word_char(b),
        is_digit(a) == is_digit(b),
{
}

/// A text that equals a word up to letter case is a word too.
pub proof fn lemma_ci_keeps_shape(a: Seq<char>, b: Seq<char>)
    requires
        ci_eq(a, b),
        all_word_chars(b),
    ensures
        all_word_chars(a),
{
    assert forall|i: int| 0 <= i < a.len() implies is_word_char(#[trigger] a[i]) by {
        lemma_lower_keeps_class(a[i], b[i]);
    }
}

/// A resolved word is a word again, and resolving it once more changes
/// nothing.
pub proof fn lemma_resolve_settles(w: Seq<char>, scope: Scope)
    requires
        w.len() > 0,
        all_word_chars(w),
    ensures
        resolve_column(w, scope).len() > 0,
        all_word_chars(resolve_column(w, scope)),
        resolve_column(resolve_column(w, scope), scope) == resolve_column(w, scope),
{
    let r = resolve_column(w, scope);
    lemma_match_from(scope.columns, w, 0);
    lemma_closest_upto(scope.columns, w, scope.columns.len() as int);
    if r != w {
        if first_match(scope.columns, w) < scope.columns.len() {
            let k = first_match(scope.columns, w);
            assert(r == scope.columns[k]);
            lemma_ci_keeps_shape(r, w);
        } else {
            let k = closest(scope.columns, w);
            assert(r == scope.columns[k]);
            assert(is_candidate(r));
        }
        assert(scope.columns.contains(r));
    }
}

/// The rewriting of a text that is not empty, unfolded once.
pub proof fn lemma_rewrite_unfold(t: Seq<char>, c: Context, scope: Scope)
    requires
        t.len() > 0,
    ensures
        0 < token_len(t) <= t.len(),
        rewrite(t, c, scope) == emit(
            t.take(token_len(t) as int),
            c,
            t.skip(token_len(t) as int),
            scope,
        ) + rewrite(
            t.skip(token_len(t) as int),
            after(t.take(token_len(t) as int), c, t.skip(token_len(t) as int), scope),
            scope,
        ),
{
    lemma_token_len(t);
}

/// What is written for a token is not empty; it is the token itself unless
/// the token is a word; and where the token does not end in white space or a
/// semicolon, neither does what is written for it.
pub proof fn lemma_emit_shape(tok: Seq<char>, c: Context, rest: Seq<char>, scope: Scope)
    requires
        tok.len() > 0,
        is_word_char(tok[0]) ==> all_word_chars(tok),
    ensures
        emit(tok, c, rest, scope).len() > 0,
        !is_word_char(tok[0]) ==> emit(tok, c, rest, scope) == tok,
        !is_trailer(tok.last()) ==> !is_trailer(emit(tok, c, rest, scope).last()),
{
    if starts_identifier(tok) {
        lemma_resolve_settles(tok, scope);
        let r = resolve_column(tok, scope);
        assert(is_word_char(r[r.len() - 1]));
        assert(is_word_char(tok[tok.len() - 1]));
        if qualifies(tok, c, rest, scope) {
            let name = scope.tables[first_match(scope.tables, tok)];
            let q = qualified_name(scope.subject, name);
            assert(q.len() == scope.subject.len() + name.len() + 5);
            assert(q.last() == '"');
        }
    }
}

/// What is written for a token does not depend on what follows the token
/// beyond whether that starts with a dot.
pub proof fn lemma_emit_looks_one_ahead(
    tok: Seq<char>,
    c: Context,
    y: Seq<char>,
    z: Seq<char>,
    scope: Scope,
)
    requires
        (y.len() > 0 && y[0] == '.') == (z.len() > 0 && z[0] == '.'),
    ensures
        emit(tok, c, y, scope) == emit(tok, c, z, scope),
        after(tok, c, y, scope) == after(tok, c, z, scope),
{
}

/// The rewriting of a text is empty only if the text is, and it starts with
/// the same character where that is no word character.
pub proof fn lemma_rewrite_head(t: Seq<char>, c: Context, scope: Scope)
    requires
        t.len() > 0,
    ensures
        rewrite(t, c, scope).len() > 0,
        !is_word_char(t[0]) ==> rewrite(t, c, scope)[0] == t[0],
{
    lemma_rewrite_unfold(t, c, scope);
    lemma_word_len(t);
    let n = token_len(t) as int;
    lemma_emit_shape(t.take(n), c, t.skip(n), scope);
}

/// A word followed by nothing, or by another kind of character, is read as
/// one token.
pub proof fn lemma_rewrite_word(w: Seq<char>, x: Seq<char>, c: Context, scope: Scope)
    requires
        w.len() > 0,
        all_word_chars(w),
        x.len() > 0 ==> !is_word_char(x[0]),
    ensures
        rewrite(w + x, c, scope) == emit(w, c, x, scope) + rewrite(
            x,
            after(w, c, x, scope),
            scope,
        ),
{
    let t = w + x;
    assert(t[0] == w[0]);
    lemma_word_len_of_run(w, x);
    assert(token_len(t) == w.len());
    assert(t.take(w.len() as int) =~= w);
    assert(t.skip(w.len() as int) =~= x);
    lemma_rewrite_unfold(t, c, scope);
}

/// A character that is neither a word character nor a quote is read as one
/// token and stays.
pub proof fn lemma_rewrite_other(ch: char, x: Seq<char>, c: Context, scope: Scope)
    requires
        !is_word_char(ch),
        !is_quote(ch),
    ensures
        rewrite(seq![ch] + x, c, scope) == seq![ch] + rewrite(
            x,
            if is_space(ch) { c } else { Context::Plain },
            scope,
        ),
{
    let t = seq![ch] + x;
    assert(t[0] == ch);
    assert(token_len(t) == 1);
    assert(t.take(1) =~= seq![ch]);
    assert(t.skip(1) =~= x);
    lemma_rewrite_unfold(t, c, scope);
}

/// A closed quoted span is read as one token and stays.
pub proof fn lemma_rewrite_span(q: char, u: Seq<char>, x: Seq<char>, c: Context, scope: Scope)
    requires
        is_quote(q),
        free_of(u, q),
    ensures
        rewrite(seq![q] + u + seq![q] + x, c, scope) == seq![q] + u + seq![q] + rewrite(
            x,
            Context::Plain,
            scope,
        ),
{
    let tok = seq![q] + u + seq![q];
    let t = tok + x;
    assert(t[0] == q);
    assert(t.skip(1) =~= u + seq![q] + x);
    lemma_quoted_len_of_span(u, q, x);
    assert(token_len(t) == u.len() + 2);
    assert(t.take((u.len() + 2) as int) =~= tok);
    assert(t.skip((u.len() + 2) as int) =~= x);
    assert(tok[0] == q);
    lemma_rewrite_unfold(t, c, scope);
}

/// A qualified table name is read as three tokens, which stay, and leaves
/// the plain context behind.
pub proof fn lemma_rewrite_qualified(
    subject: Seq<char>,
    table: Seq<char>,
    x: Seq<char>,
    c: Context,
    scope: Scope,
)
    requires
        free_of(subject, '"'),
        free_of(table, '"'),
    ensures
        rewrite(qualified_name(subject, table) + x, c, scope) == qualified_name(subject, table)
            + rewrite(x, Context::Plain, scope),
{
    let q = seq!['"'];
    let tail = rewrite(x, Context::Plain, scope);
    let x2 = q + table + q + x;
    let x1 = seq!['.'] + x2;
    lemma_rewrite_span('"', table, x, Context::Plain, scope);
    lemma_rewrite_other('.', x2, Context::Plain, scope);
    lemma_rewrite_span('"', subject, x1, c, scope);
    assert(qualified_name(subject, table) + x =~= q + subject + q + x1);
    assert(qualified_name(subject, table) + tail =~= q + subject + q + (seq!['.'] + (q + table + q
        + tail)));
}

/// `tok` is a whole token that does not depend on what follows it: a run
/// of word characters, a span with its closing quote, or one other
/// character.
pub open spec fn is_closed_token(tok: Seq<char>) -> bool {
    tok.len() > 0 && (if is_word_char(tok[0]) {
        all_word_chars(tok)
    } else if is_quote(tok[0]) {
        tok.len() >= 2 && tok.last() == tok[0] && free_of(
            tok.subrange(1, tok.len() - 1),
            tok[0],
        )
    } else {
        tok.len() == 1
    })
}

/// The first token of a text is a closed token, or a span that only the end
/// of the text closes; a word is followed by no word character.
pub proof fn lemma_first_token(s: Seq<char>)
    requires
        s.len() > 0,
    ensures
        0 < token_len(s) <= s.len(),
        s == s.take(token_len(s) as int) + s.skip(token_len(s) as int),
        is_closed_token(s.take(token_len(s) as int)) || (is_quote(s[0]) && token_len(s) == s.len()
            && free_of(s.skip(1), s[0])),
        is_word_char(s[0]) && token_len(s) < s.len() ==> !is_word_char(s[token_len(s) as int]),
{
    lemma_token_len(s);
    lemma_word_len(s);
    let n = token_len(s) as int;
    let tok = s.take(n);
    assert(s =~= tok + s.skip(n));
    assert(tok[0] == s[0]);
    if is_word_char(s[0]) {
    } else if is_quote(s[0]) {
        let q = s[0];
        let body = s.skip(1);
        lemma_quoted_len(body, q);
        let m = quoted_len(body, q) as int;
        if m > 0 && body[m - 1] == q {
            assert(tok.last() == body[m - 1]);
            assert(tok.subrange(1, tok.len() - 1) =~= body.take(m - 1));
        } else {
            assert(m == body.len());
            assert forall|i: int| 0 <= i < body.len() implies #[trigger] body[i] != q by {
                if i < m - 1 {
                    assert(body.take(m - 1)[i] == body[i]);
                }
            }
        }
    } else {
        assert(tok =~= seq![s[0]]);
    }
}

/// A closed token followed by any text is read as the first token of the
/// whole, provided that no word character follows a word.
pub proof fn lemma_rewrite_token(tok: Seq<char>, y: Seq<char>, c: Context, scope: Scope)
    requires
        is_closed_token(tok),
        is_word_char(tok[0]) && y.len() > 0 ==> !is_word_char(y[0]),
    ensures
        rewrite(tok + y, c, scope) == emit(tok, c, y, scope) + rewrite(
            y,
            after(tok, c, y, scope),
            scope,
        ),
{
    if is_word_char(tok[0]) {
        lemma_rewrite_word(tok, y, c, scope);
    } else if is_quote(tok[0]) {
        let u = tok.subrange(1, tok.len() - 1);
        assert(tok =~= seq![tok[0]] + u + seq![tok[0]]);
        lemma_rewrite_span(tok[0], u, y, c, scope);
    } else {
        assert(tok =~= seq![tok[0]]);
        lemma_rewrite_other(tok[0], y, c, scope);
    }
}

/// Rewriting from any context settles at once: what was rewritten is left
/// as it is by a second rewriting from the same context.
pub proof fn lemma_rewrite_settles(t: Seq<char>, c: Context, scope: Scope)
    requires
        free_of(scope.subject, '"'),
    ensures
        rewrite(rewrite(t, c, scope), c, scope) == rewrite(t, c, scope),
    decreases t.len(),
{
    if t.len() == 0 {
        assert(rewrite(t, c, scope).len() == 0);
    } else {
        lemma_rewrite_unfold(t, c, scope);
        let n = token_len(t) as int;
        let tok = t.take(n);
        let rest = t.skip(n);
        let out = emit(tok, c, rest, scope);
        let c1 = after(tok, c, rest, scope);
        let x = rewrite(rest, c1, scope);
        lemma_rewrite_settles(rest, c1, scope);
        if rest.len() > 0 {
            lemma_rewrite_head(rest, c1, scope);
        }
        assert(tok[0] == t[0]);
        if is_word_char(t[0]) {
            lemma_word_len(t);
            if n < t.len() {
                assert(rest[0] == t[n]);
            }
            assert(in_table_position(c, x) == in_table_position(c, rest));
            if qualifies(tok, c, rest, scope) {
                let name = scope.tables[first_match(scope.tables, tok)];
                lemma_match_from(scope.tables, tok, 0);
                lemma_ci_keeps_shape(name, tok);
                assert(free_of(name, '"'));
                lemma_rewrite_qualified(scope.subject, name, x, c, scope);
            } else {
                lemma_resolve_settles(tok, scope);
                lemma_rewrite_word(out, x, c, scope);
                assert(emit(out, c, x, scope) == out);
                assert(after(out, c, x, scope) == c1);
            }
        } else if is_quote(t[0]) {
            let q = t[0];
            let body = t.skip(1);
            lemma_quoted_len(body, q);
            let m = quoted_len(body, q) as int;
            if n == t.len() {
                assert(tok =~= t);
                assert(x.len() == 0);
                assert(out + x =~= t);
            } else {
                let u = body.take(m - 1);
                assert(tok =~= seq![q] + u + seq![q]);
                lemma_rewrite_span(q, u, x, c, scope);
            }
        } else {
            assert(tok =~= seq![t[0]]);
            lemma_rewrite_other(t[0], x, c, scope);
        }
    }
}

/// What is left once trailing white space and semicolons are stripped does
/// not end in either.
pub proof fn lemma_strip_trailers(s: Seq<char>)
    ensures
        strip_trailers(s).len() == 0 || !is_trailer(strip_trailers(s).last()),
    decreases s.len(),
{
    if s.len() > 0 && is_trailer(s.last()) {
        lemma_strip_trailers(s.drop_last());
    }
}

/// Stripping the end of a text leaves a prefix of the text.
pub proof fn lemma_strip_shorter(s: Seq<char>)
    ensures
        strip_trailers(s).len() <= s.len(),
        strip_trailers(s) == s.take(strip_trailers(s).len() as int),
    decreases s.len(),
{
    if s.len() > 0 && is_trailer(s.last()) {
        lemma_strip_shorter(s.drop_last());
        let k = strip_trailers(s).len() as int;
        assert(s.drop_last().take(k) =~= s.take(k));
    } else {
        assert(s.take(s.len() as int) =~= s);
    }
}

/// Terminating a statement makes it end in its one semicolon.
pub proof fn lemma_terminate_terminates(s: Seq<char>)
    ensures
        is_terminated(terminate(s)),
{
    lemma_strip_trailers(s);
}

/// Terminating a statement that ends in its one semicolon changes nothing.
pub proof fn lemma_terminate_settles(s: Seq<char>)
    requires
        is_terminated(s),
    ensures
        terminate(s) == s,
{
    let d = s.drop_last();
    assert(strip_trailers(s) == strip_trailers(d));
    assert(strip_trailers(d) == d);
    assert(d.push(';') =~= s);
}

/// Every character of `s` is white space or a semicolon.
pub open spec fn all_trailers(s: Seq<char>) -> bool {
    forall|i: int| 0 <= i < s.len() ==> is_trailer(#[trigger] s[i])
}

/// Nothing is left of a text of white space and semicolons once these are
/// stripped from its end.
pub proof fn lemma_strip_all_trailers(s: Seq<char>)
    requires
        all_trailers(s),
    ensures
        strip_trailers(s).len() == 0,
    decreases s.len(),
{
    if s.len() > 0 {
        assert(is_trailer(s[s.len() - 1]));
        assert forall|i: int| 0 <= i < s.drop_last().len() implies is_trailer(
            #[trigger] s.drop_last()[i],
        ) by {
            assert(s.drop_last()[i] == s[i]);
        }
        lemma_strip_all_trailers(s.drop_last());
    }
}

/// Stripping the end of a text leaves alone what stands before its last
/// character that is neither white space nor a semicolon.
pub proof fn lemma_strip_keeps_front(a: Seq<char>, b: Seq<char>)
    requires
        !all_trailers(b),
    ensures
        strip_trailers(a + b) == a + strip_trailers(b),
        strip_trailers(b).len() > 0,
        strip_trailers(b)[0] == b[0],
    decreases b.len(),
{
    let k = choose|k: int| 0 <= k < b.len() && !is_trailer(b[k]);
    assert((a + b).last() == b.last());
    if is_trailer(b.last()) {
        let d = b.drop_last();
        assert(d[k] == b[k]);
        assert((a + b).drop_last() =~= a + d);
        lemma_strip_keeps_front(a, d);
        assert(d[0] == b[0]);
    }
}

/// White space and semicolons after a text that ends in neither are
/// stripped whole.
pub proof fn lemma_strip_drops_tail(a: Seq<char>, b: Seq<char>)
    requires
        a.len() > 0,
        !is_trailer(a.last()),
        all_trailers(b),
    ensures
        strip_trailers(a + b) == a,
    decreases b.len(),
{
    if b.len() == 0 {
        assert(a + b =~= a);
    } else {
        assert((a + b).last() == b[b.len() - 1]);
        assert((a + b).drop_last() =~= a + b.drop_last());
        assert forall|i: int| 0 <= i < b.drop_last().len() implies is_trailer(
            #[trigger] b.drop_last()[i],
        ) by {
            assert(b.drop_last()[i] == b[i]);
        }
        lemma_strip_drops_tail(a, b.drop_last());
    }
}

/// White space and semicolons are left as they are.
pub proof fn lemma_rewrite_trailers(s: Seq<char>, c: Context, scope: Scope)
    requires
        all_trailers(s),
    ensures
        rewrite(s, c, scope) == s,
    decreases s.len(),
{
    if s.len() > 0 {
        let x = s.skip(1);
        assert(is_trailer(s[0]));
        assert(s =~= seq![s[0]] + x);
        assert forall|i: int| 0 <= i < x.len() implies is_trailer(#[trigger] x[i]) by {
            assert(x[i] == s[i + 1]);
        }
        lemma_rewrite_other(s[0], x, c, scope);
        lemma_rewrite_trailers(x, if is_space(s[0]) { c } else { Context::Plain }, scope);
    }
}

/// A text that holds more than white space and semicolons still does once
/// rewritten.
pub proof fn lemma_rewrite_keeps_solid(s: Seq<char>, c: Context, scope: Scope)
    requires
        !all_trailers(s),
    ensures
        !all_trailers(rewrite(s, c, scope)),
    decreases s.len(),
{
    lemma_rewrite_unfold(s, c, scope);
    lemma_word_len(s);
    let n = token_len(s) as int;
    let tok = s.take(n);
    let rest = s.skip(n);
    let out = emit(tok, c, rest, scope);
    let c1 = after(tok, c, rest, scope);
    let x = rewrite(rest, c1, scope);
    let r = out + x;
    lemma_emit_shape(tok, c, rest, scope);
    assert(tok[0] == s[0]);
    if is_word_char(s[0]) {
        assert(is_word_char(tok[tok.len() - 1]));
        assert(r[out.len() - 1] == out.last());
    } else if all_trailers(tok) {
        let k = choose|k: int| 0 <= k < s.len() && !is_trailer(s[k]);
        if k < n {
            assert(tok[k] == s[k]);
        }
        assert(rest[k - n] == s[k]);
        lemma_rewrite_keeps_solid(rest, c1, scope);
        let j = choose|j: int| 0 <= j < x.len() && !is_trailer(x[j]);
        assert(r[out.len() + j] == x[j]);
    } else {
        let k = choose|k: int| 0 <= k < tok.len() && !is_trailer(tok[k]);
        assert(r[k] == tok[k]);
    }
}

/// A span that holds no quote reaches to the end of the text.
pub proof fn lemma_quoted_len_open(b: Seq<char>, q: char)
    requires
        free_of(b, q),
    ensures
        quoted_len(b, q) == b.len(),
    decreases b.len(),
{
    if b.len() > 0 {
        assert(b[0] != q);
        assert forall|i: int| 0 <= i < b.skip(1).len() implies #[trigger] b.skip(1)[i] != q by {
            assert(b.skip(1)[i] == b[i + 1]);
        }
        lemma_quoted_len_open(b.skip(1), q);
    }
}

/// The two orders agree on a text that is one span closed by the end of
/// the text.
proof fn lemma_commutes_open_span(s: Seq<char>, c: Context, scope: Scope)
    requires
        s.len() > 0,
        is_quote(s[0]),
        token_len(s) == s.len(),
        free_of(s.skip(1), s[0]),
    ensures
        rewrite(terminate(s), c, scope) == terminate(rewrite(s, c, scope)),
{
    let q = s[0];
    let none = Seq::<char>::empty();
    assert(rewrite(none, Context::Plain, scope) =~= none);
    lemma_rewrite_unfold(s, c, scope);
    assert(s.take(s.len() as int) =~= s);
    assert(s.skip(s.len() as int) =~= none);
    assert(rewrite(s, c, scope) =~= s);
    assert(!all_trailers(s)) by {
        assert(!is_trailer(s[0]));
    }
    lemma_strip_keeps_front(none, s);
    lemma_strip_shorter(s);
    let front = strip_trailers(s);
    let t = terminate(s);
    assert(t[0] == q);
    let body2 = t.skip(1);
    assert forall|i: int| 0 <= i < body2.len() implies #[trigger] body2[i] != q by {
        if i < front.len() - 1 {
            assert(body2[i] == front[i + 1]);
            assert(front[i + 1] == s[i + 1]);
            assert(s.skip(1)[i] == s[i + 1]);
        }
    }
    lemma_quoted_len_open(body2, q);
    lemma_rewrite_unfold(t, c, scope);
    assert(t.take(t.len() as int) =~= t);
    assert(t.skip(t.len() as int) =~= none);
    assert(rewrite(t, c, scope) =~= t);
}

/// The two orders agree on a token followed by a text on which they agree
/// and which holds more than white space and semicolons.
proof fn lemma_commutes_front(tok: Seq<char>, rest: Seq<char>, c: Context, scope: Scope)
    requires
        is_closed_token(tok),
        is_word_char(tok[0]) && rest.len() > 0 ==> !is_word_char(rest[0]),
        !all_trailers(rest),
        rewrite(terminate(rest), after(tok, c, rest, scope), scope) == terminate(
            rewrite(rest, after(tok, c, rest, scope), scope),
        ),
    ensures
        rewrite(terminate(tok + rest), c, scope) == terminate(rewrite(tok + rest, c, scope)),
{
    let c1 = after(tok, c, rest, scope);
    let out = emit(tok, c, rest, scope);
    let x = rewrite(rest, c1, scope);
    let tr = terminate(rest);
    lemma_strip_keeps_front(tok, rest);
    assert(terminate(tok + rest) =~= tok + tr);
    assert(tr[0] == rest[0]);
    lemma_emit_looks_one_ahead(tok, c, rest, tr, scope);
    lemma_rewrite_token(tok, tr, c, scope);
    lemma_rewrite_token(tok, rest, c, scope);
    lemma_rewrite_keeps_solid(rest, c1, scope);
    lemma_strip_keeps_front(out, x);
    assert(terminate(out + x) =~= out + terminate(x));
}

/// The two orders agree on a token that ends in a character that is kept
/// and that only white space and semicolons follow.
proof fn lemma_commutes_last(tok: Seq<char>, rest: Seq<char>, c: Context, scope: Scope)
    requires
        is_closed_token(tok),
        !is_trailer(tok.last()),
        all_trailers(rest),
    ensures
        rewrite(terminate(tok + rest), c, scope) == terminate(rewrite(tok + rest, c, scope)),
{
    let semi = seq![';'];
    let none = Seq::<char>::empty();
    let c1 = after(tok, c, rest, scope);
    let out = emit(tok, c, rest, scope);
    lemma_strip_drops_tail(tok, rest);
    assert(terminate(tok + rest) =~= tok + semi);
    if rest.len() > 0 {
        assert(is_trailer(rest[0]));
    }
    lemma_emit_looks_one_ahead(tok, c, rest, semi, scope);
    lemma_rewrite_token(tok, semi, c, scope);
    lemma_rewrite_token(tok, rest, c, scope);
    assert(semi =~= semi + none);
    lemma_rewrite_other(';', none, c1, scope);
    assert(rewrite(none, Context::Plain, scope) =~= none);
    assert(rewrite(none, c1, scope) =~= none);
    assert(rewrite(semi, c1, scope) =~= semi);
    lemma_rewrite_trailers(rest, c1, scope);
    lemma_emit_shape(tok, c, rest, scope);
    lemma_strip_drops_tail(out, rest);
    assert(terminate(out + rest) =~= out + semi);
}

/// Terminating and rewriting can be done in either order: the statement
/// that is rewritten and then terminated is the statement that is terminated
/// and then rewritten.
pub proof fn lemma_terminate_commutes(s: Seq<char>, c: Context, scope: Scope)
    ensures
        rewrite(terminate(s), c, scope) == terminate(rewrite(s, c, scope)),
    decreases s.len(),
{
    let none = Seq::<char>::empty();
    if all_trailers(s) {
        lemma_strip_all_trailers(s);
        lemma_rewrite_trailers(s, c, scope);
        assert(terminate(s) =~= seq![';'] + none);
        lemma_rewrite_other(';', none, c, scope);
        assert(rewrite(none, Context::Plain, scope) =~= none);
    } else {
        lemma_first_token(s);
        let n = token_len(s) as int;
        let tok = s.take(n);
        let rest = s.skip(n);
        if !is_closed_token(tok) {
            lemma_commutes_open_span(s, c, scope);
        } else {
            if n < s.len() {
                assert(rest[0] == s[n]);
            }
            if !all_trailers(rest) {
                lemma_terminate_commutes(rest, after(tok, c, rest, scope), scope);
                lemma_commutes_front(tok, rest, c, scope);
            } else {
                assert(!is_trailer(tok.last())) by {
                    if is_trailer(tok.last()) {
                        assert(tok.len() == 1);
                        assert forall|i: int| 0 <= i < s.len() implies is_trailer(
                            #[trigger] s[i],
                        ) by {
                            if i >= n {
                                assert(rest[i - n] == s[i]);
                            } else {
                                assert(tok[i] == s[i]);
                            }
                        }
                    }
                }
                lemma_commutes_last(tok, rest, c, scope);
            }
        }
    }
}

} // verus!
