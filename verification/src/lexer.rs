//! Splitting SQL text into tokens.
//!
//! A token is a word (a longest run of letters, digits and underscores), a
//! quoted span (from a quote to the next quote of the same kind, or to the end
//! of the text when none follows) or one single other character. Where a token
//! ends depends only on the text from its first character on.

use vstd::prelude::*;
use crate::text::{is_word_char, test_word_char};

verus! {

/// A double or a single quote.
pub open spec fn is_quote(c: char) -> bool {
    c == '"' || c == '\''
}

/// The number of word characters at the head of `t`.
pub open spec fn word_len(t: Seq<char>) -> nat
    decreases t.len(),
{
    if t.len() > 0 && is_word_char(t[0]) {
        1 + word_len(t.skip(1))
    } else {
        0
    }
}

/// The number of characters of `t` up to and including the first `q`; the
/// whole length of `t` when it holds no `q`.
pub open spec fn quoted_len(t: Seq<char>, q: char) -> nat
    decreases t.len(),
{
    if t.len() == 0 {
        0
    } else if t[0] == q {
        1
    } else {
        1 + quoted_len(t.skip(1), q)
    }
}

/// The length of the token at the head of `t`; 0 for the empty text.
pub open spec fn token_len(t: Seq<char>) -> nat {
    if t.len() == 0 {
        0
    } else if is_word_char(t[0]) {
        word_len(t)
    } else if is_quote(t[0]) {
        1 + quoted_len(t.skip(1), t[0])
    } else {
        1
    }
}

/// Every character of `w` is a word character.
pub open spec fn all_word_chars(w: Seq<char>) -> bool {
    forall|i: int| 0 <= i < w.len() ==> is_word_char(#[trigger] w[i])
}

/// No character of `u` is `q`.
pub open spec fn free_of(u: Seq<char>, q: char) -> bool {
    forall|i: int| 0 <= i < u.len() ==> #[trigger] u[i] != q
}

/// What [`word_len`] returns: the run it measures holds word characters only
/// and cannot be made longer.
pub proof fn lemma_word_len(t: Seq<char>)
    ensures
        word_len(t) <= t.len(),
        all_word_chars(t.take(word_len(t) as int)),
        word_len(t) < t.len() ==> !is_word_char(t[word_len(t) as int]),
        t.len() > 0 && is_word_char(t[0]) ==> word_len(t) > 0,
    decreases t.len(),
{
    if t.len() > 0 && is_word_char(t[0]) {
        let u = t.skip(1);
        lemma_word_len(u);
        let n = word_len(u) as int;
        assert forall|i: int| 0 <= i < n + 1 implies is_word_char(#[trigger] t.take(n + 1)[i]) by {
            if i > 0 {
                assert(t.take(n + 1)[i] == u.take(n)[i - 1]);
            }
        }
        if n + 1 < t.len() {
            assert(t[n + 1] == u[n]);
        }
    }
}

/// A run of word characters followed by nothing, or by another kind of
/// character, is measured whole.
pub proof fn lemma_word_len_of_run(w: Seq<char>, x: Seq<char>)
    requires
        all_word_chars(w),
        x.len() > 0 ==> !is_word_char(x[0]),
    ensures
        word_len(w + x) == w.len(),
    decreases w.len(),
{
    let t = w + x;
    if w.len() == 0 {
        assert(t =~= x);
    } else {
        assert(t[0] == w[0]);
        assert(t.skip(1) =~= w.skip(1) + x);
        assert forall|i: int| 0 <= i < w.skip(1).len() implies is_word_char(
            #[trigger] w.skip(1)[i],
        ) by {
            assert(w.skip(1)[i] == w[i + 1]);
        }
        lemma_word_len_of_run(w.skip(1), x);
    }
}

/// What [`quoted_len`] returns: nothing before its last character is the
/// quote, and where it stops short of the end it stops on the quote.
pub proof fn lemma_quoted_len(t: Seq<char>, q: char)
    ensures
        quoted_len(t, q) <= t.len(),
        t.len() > 0 ==> quoted_len(t, q) > 0,
        quoted_len(t, q) > 0 ==> free_of(t.take(quoted_len(t, q) - 1), q),
        quoted_len(t, q) < t.len() ==> t[quoted_len(t, q) - 1] == q,
    decreases t.len(),
{
    if t.len() > 0 && t[0] != q {
        let u = t.skip(1);
        lemma_quoted_len(u, q);
        let n = quoted_len(u, q) as int;
        if n > 0 {
            assert forall|i: int| 0 <= i < n implies #[trigger] t.take(n)[i] != q by {
                if i > 0 {
                    assert(t.take(n)[i] == u.take(n - 1)[i - 1]);
                }
            }
        } else {
            assert(t.take(0).len() == 0);
        }
        if n + 1 < t.len() {
            assert(t[n] == u[n - 1]);
        }
    } else if t.len() > 0 {
        assert(t.take(0).len() == 0);
    }
}

/// A span that ends on its first quote is measured whole, whatever follows.
pub proof fn lemma_quoted_len_of_span(u: Seq<char>, q: char, x: Seq<char>)
    requires
        free_of(u, q),
    ensures
        quoted_len(u + seq![q] + x, q) == u.len() + 1,
    decreases u.len(),
{
    let t = u + seq![q] + x;
    if u.len() == 0 {
        assert(t[0] == q);
    } else {
        assert(t[0] == u[0]);
        assert(t.skip(1) =~= u.skip(1) + seq![q] + x);
        assert forall|i: int| 0 <= i < u.skip(1).len() implies #[trigger] u.skip(1)[i] != q by {
            assert(u.skip(1)[i] == u[i + 1]);
        }
        lemma_quoted_len_of_span(u.skip(1), q, x);
    }
}

/// A token of a text that is not empty holds at least one character and
/// does not reach past the end.
pub proof fn lemma_token_len(t: Seq<char>)
    requires
        t.len() > 0,
    ensures
        0 < token_len(t) <= t.len(),
{
    lemma_word_len(t);
    lemma_quoted_len(t.skip(1), t[0]);
}

/// Measures the word that starts at `from`.
pub fn scan_word(s: &[char], from: usize) -> (end: usize)
    requires
        from <= s.len(),
    ensures
        from <= end <= s.len(),
        end - from == word_len(s@.skip(from as int)),
{
    let mut i: usize = from;
    while i < s.len() && test_word_char(s[i])
        invariant
            from <= i <= s.len(),
            word_len(s@.skip(from as int)) == (i - from) + word_len(s@.skip(i as int)),
        decreases s.len() - i,
    {
        assert(s@.skip(i as int).skip(1) =~= s@.skip(i + 1));
        i += 1;
    }
    i
}

/// Measures the quoted span whose first character after the opening quote is
/// at `from`.
pub fn scan_quoted(s: &[char], from: usize, q: char) -> (end: usize)
    requires
        from <= s.len(),
    ensures
        from <= end <= s.len(),
        end - from == quoted_len(s@.skip(from as int), q),
{
    let mut i: usize = from;
    while i < s.len()
        invariant
            from <= i <= s.len(),
            quoted_len(s@.skip(from as int), q) == (i - from) + quoted_len(s@.skip(i as int), q),
        decreases s.len() - i,
    {
        assert(s@.skip(i as int).skip(1) =~= s@.skip(i + 1));
        if s[i] == q {
            return i + 1;
        }
        i += 1;
    }
    i
}

/// Measures the token that starts at `from`.
pub fn scan_token(s: &[char], from: usize) -> (end: usize)
    requires
        from < s.len(),
    ensures
        from < end <= s.len(),
        end - from == token_len(s@.skip(from as int)),
{
    let c: char = s[from];
    proof {
        lemma_token_len(s@.skip(from as int));
    }
    if test_word_char(c) {
        scan_word(s, from)
    } else if c == '"' || c == '\'' {
        assert(s@.skip(from as int).skip(1) =~= s@.skip(from + 1));
        scan_quoted(s, from + 1, c)
    } else {
        from + 1
    }
}

} // verus!
