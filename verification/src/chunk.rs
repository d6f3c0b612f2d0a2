//! Styled output, kept as plain values.
//!
//! A renderer produces a sequence of chunks; whoever owns the terminal walks
//! them and applies the styling. `flat` is the text of a chunk sequence with
//! the styling stripped, and every rendering contract speaks of it.

use vstd::prelude::*;

verus! {

/// One run of output text: a `Label` is shown emphasised (bold white in a
/// colour terminal), a `Text` is shown plain.
#[derive(Debug)]
pub enum Chunk {
    Label(String),
    Text(String),
}

impl Chunk {
    /// The characters of this chunk, styling aside.
    pub open spec fn text(self) -> Seq<char> {
        match self {
            Chunk::Label(s) => s@,
            Chunk::Text(s) => s@,
        }
    }
}

/// The text of a whole chunk sequence, in order, styling aside.
pub open spec fn flat(cs: Seq<Chunk>) -> Seq<char>
    decreases cs.len(),
{
    if cs.len() == 0 {
        Seq::<char>::empty()
    } else {
        cs[0].text() + flat(cs.drop_first())
    }
}

/// The texts of the emphasised runs of a chunk sequence, in order: which
/// parts a terminal shows bold.
pub open spec fn label_texts(cs: Seq<Chunk>) -> Seq<Seq<char>>
    decreases cs.len(),
{
    if cs.len() == 0 {
        Seq::<Seq<char>>::empty()
    } else {
        (match cs[0] {
            Chunk::Label(s) => seq![s@],
            Chunk::Text(_) => Seq::<Seq<char>>::empty(),
        }) + label_texts(cs.drop_first())
    }
}

/// Appending a label appends its text to the labels; appending plain text
/// leaves them as they are.
pub proof fn lemma_label_texts_push(cs: Seq<Chunk>, c: Chunk)
    ensures
        label_texts(cs.push(c)) == (match c {
            Chunk::Label(s) => label_texts(cs).push(s@),
            Chunk::Text(_) => label_texts(cs),
        }),
    decreases cs.len(),
{
    if cs.len() == 0 {
        assert(cs.push(c).drop_first() =~= Seq::<Chunk>::empty());
        assert(cs.push(c)[0] == c);
        assert(label_texts(Seq::<Chunk>::empty()) == Seq::<Seq<char>>::empty());
        match c {
            Chunk::Label(s) => {
                assert(label_texts(cs.push(c)) =~= label_texts(cs).push(s@));
            },
            Chunk::Text(_) => {
                assert(label_texts(cs.push(c)) =~= label_texts(cs));
            },
        }
    } else {
        assert(cs.push(c).drop_first() =~= cs.drop_first().push(c));
        lemma_label_texts_push(cs.drop_first(), c);
        match c {
            Chunk::Label(s) => {
                assert(label_texts(cs.push(c)) =~= label_texts(cs).push(s@));
            },
            Chunk::Text(_) => {
                assert(label_texts(cs.push(c)) =~= label_texts(cs));
            },
        }
    }
}

/// Appending one chunk appends its text.
pub proof fn lemma_flat_push(cs: Seq<Chunk>, c: Chunk)
    ensures
        flat(cs.push(c)) == flat(cs) + c.text(),
    decreases cs.len(),
{
    if cs.len() == 0 {
        assert(cs.push(c).drop_first() =~= Seq::<Chunk>::empty());
        assert(cs.push(c)[0] == c);
        assert(flat(Seq::<Chunk>::empty()) == Seq::<char>::empty());
        assert(flat(cs.push(c)) =~= flat(cs) + c.text());
    } else {
        assert(cs.push(c).drop_first() =~= cs.drop_first().push(c));
        lemma_flat_push(cs.drop_first(), c);
        assert(flat(cs.push(c)) =~= flat(cs) + c.text());
    }
}

/// Appends an emphasised run.
pub fn push_label(out: &mut Vec<Chunk>, s: &str)
    ensures
        flat(final(out)@) == flat(old(out)@) + s@,
        label_texts(final(out)@) == label_texts(old(out)@).push(s@),
{
    let c = Chunk::Label(s.to_owned());
    proof {
        lemma_flat_push(out@, c);
        lemma_label_texts_push(out@, c);
    }
    out.push(c);
}

/// Appends a plain run.
pub fn push_text(out: &mut Vec<Chunk>, s: &str)
    ensures
        flat(final(out)@) == flat(old(out)@) + s@,
        label_texts(final(out)@) == label_texts(old(out)@),
{
    let c = Chunk::Text(s.to_owned());
    proof {
        lemma_flat_push(out@, c);
        lemma_label_texts_push(out@, c);
    }
    out.push(c);
}

/// Appends a plain run, taking the string over.
pub fn push_text_owned(out: &mut Vec<Chunk>, s: String)
    ensures
        flat(final(out)@) == flat(old(out)@) + s@,
        label_texts(final(out)@) == label_texts(old(out)@),
{
    let c = Chunk::Text(s);
    proof {
        lemma_flat_push(out@, c);
        lemma_label_texts_push(out@, c);
    }
    out.push(c);
}

/// The text of a chunk sequence as one string, styling stripped.
pub fn chunks_to_string(cs: &Vec<Chunk>) -> (r: String)
    ensures
        r@ == flat(cs@),
{
    let mut r = String::new();
    let mut i: usize = 0;
    while i < cs.len()
        invariant
            i <= cs.len(),
            r@ == flat(cs@.take(i as int)),
        decreases cs.len() - i,
    {
        proof {
            assert(cs@.take(i as int + 1) =~= cs@.take(i as int).push(cs@[i as int]));
            lemma_flat_push(cs@.take(i as int), cs@[i as int]);
        }
        match &cs[i] {
            Chunk::Label(s) => r.append(s.as_str()),
            Chunk::Text(s) => r.append(s.as_str()),
        }
        i = i + 1;
    }
    proof {
        assert(cs@.take(cs.len() as int) =~= cs@);
    }
    r
}

} // verus!
