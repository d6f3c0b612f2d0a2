//! Counting the lines inside rendered text.
//!
//! The rendering laws say how many lines each command emits; these notions
//! and lemmas let them be stated and proved over plain character sequences.

use vstd::prelude::*;
use crate::numfmt::{bool_text, dec_text, digit_char, int_text};

verus! {

/// How many newline characters a text holds.
pub open spec fn newline_count(s: Seq<char>) -> nat
    decreases s.len(),
{
    if s.len() == 0 {
        0
    } else {
        newline_count(s.drop_last()) + (if s.last() == '\n' {
            1nat
        } else {
            0nat
        })
    }
}

/// A text with no newline at all: it stays on one line.
pub open spec fn line_free(s: Seq<char>) -> bool {
    forall|i: int| 0 <= i < s.len() ==> s[i] != '\n'
}

/// Newlines add up over concatenation.
pub proof fn lemma_newline_count_concat(a: Seq<char>, b: Seq<char>)
    ensures
        newline_count(a + b) == newline_count(a) + newline_count(b),
    decreases b.len(),
{
    if b.len() == 0 {
        assert(a + b =~= a);
    } else {
        assert((a + b).drop_last() =~= a + b.drop_last());
        assert((a + b).last() == b.last());
        lemma_newline_count_concat(a, b.drop_last());
    }
}

/// A newline-free text holds no newline to count.
pub proof fn lemma_line_free_count(s: Seq<char>)
    requires
        line_free(s),
    ensures
        newline_count(s) == 0,
    decreases s.len(),
{
    if s.len() > 0 {
        assert(line_free(s.drop_last()));
        lemma_line_free_count(s.drop_last());
    }
}

/// Two newline-free texts concatenate to a newline-free text.
pub proof fn lemma_line_free_concat(a: Seq<char>, b: Seq<char>)
    requires
        line_free(a),
        line_free(b),
    ensures
        line_free(a + b),
{
    assert forall|i: int| 0 <= i < (a + b).len() implies (a + b)[i] != '\n' by {
        if i < a.len() {
            assert((a + b)[i] == a[i]);
        } else {
            assert((a + b)[i] == b[i - a.len()]);
        }
    };
}

/// A newline-free text followed by one newline is exactly one line.
pub proof fn lemma_one_line(body: Seq<char>, s: Seq<char>)
    requires
        line_free(body),
        s == body + "\n"@,
    ensures
        newline_count(s) == 1,
        s.len() > 0,
        s.last() == '\n',
{
    reveal_strlit("\n");
    lemma_line_free_count(body);
    assert(newline_count("\n"@) == 1) by {
        reveal_strlit("\n");
        assert("\n"@.len() == 1);
        assert("\n"@.last() == '\n');
        let e = "\n"@.drop_last();
        assert(e =~= Seq::<char>::empty());
        assert(newline_count(e) == 0);
        assert(newline_count("\n"@) == newline_count(e) + 1);
    }
    lemma_newline_count_concat(body, "\n"@);
    assert(s.last() == "\n"@[0]);
}

/// Decimal text is digits only: it never starts a new line.
pub proof fn lemma_dec_text_line_free(n: nat)
    ensures
        line_free(dec_text(n)),
    decreases n,
{
    assert(digit_char(n % 10) != '\n');
    if n < 10 {
        assert(digit_char(n) != '\n');
    } else {
        lemma_dec_text_line_free(n / 10);
    }
}

/// Integer text is a sign and digits: it never starts a new line.
pub proof fn lemma_int_text_line_free(i: int)
    ensures
        line_free(int_text(i)),
{
    if i < 0 {
        reveal_strlit("-");
        lemma_dec_text_line_free((-i) as nat);
    } else {
        lemma_dec_text_line_free(i as nat);
    }
}

/// Boolean text never starts a new line.
pub proof fn lemma_bool_text_line_free(b: bool)
    ensures
        line_free(bool_text(b)),
{
    reveal_strlit("true");
    reveal_strlit("false");
}

} // verus!
