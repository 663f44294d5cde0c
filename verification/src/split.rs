//! Splitting text at a separator character (`str::split` with a `char`
//! pattern) and joining pieces back together.
use vstd::prelude::*;

use crate::text::{push_char, push_chars};

verus! {

/// The pieces of `s` between occurrences of `sep`, including empty
/// pieces; the empty text has one empty piece (`str::split(sep)`).
pub open spec fn split_on(s: Seq<char>, sep: char) -> Seq<Seq<char>>
    decreases s.len(),
{
    if s.len() == 0 {
        seq![Seq::<char>::empty()]
    } else {
        let rest = split_on(s.drop_last(), sep);
        if s.last() == sep {
            rest.push(Seq::<char>::empty())
        } else {
            rest.update(rest.len() - 1, rest.last().push(s.last()))
        }
    }
}

/// `split_on` always yields at least one piece.
pub proof fn lemma_split_nonempty(s: Seq<char>, sep: char)
    ensures
        split_on(s, sep).len() >= 1,
    decreases s.len(),
{
    if s.len() > 0 {
        lemma_split_nonempty(s.drop_last(), sep);
    }
}

/// Text without the separator is a single piece.
pub proof fn lemma_split_no_sep(s: Seq<char>, sep: char)
    requires
        !s.contains(sep),
    ensures
        split_on(s, sep) == seq![s],
    decreases s.len(),
{
    if s.len() > 0 {
        assert(!s.drop_last().contains(sep)) by {
            if s.drop_last().contains(sep) {
                let k = choose|k: int| 0 <= k < s.drop_last().len() && s.drop_last()[k] == sep;
                assert(s[k] == sep);
            }
        }
        lemma_split_no_sep(s.drop_last(), sep);
        assert(s.last() != sep) by {
            assert(s[s.len() - 1] == s.last());
        }
        assert(s.drop_last().push(s.last()) == s);
        let rest = split_on(s.drop_last(), sep);
        assert(rest.update(rest.len() - 1, rest.last().push(s.last())) =~= seq![s]);
    } else {
        assert(s =~= Seq::<char>::empty());
    }
}

/// Appending separator-free text extends the last piece.
pub proof fn lemma_split_append_plain(p: Seq<char>, q: Seq<char>, sep: char)
    requires
        !q.contains(sep),
    ensures
        split_on(p + q, sep) == split_on(p, sep).update(
            split_on(p, sep).len() - 1,
            split_on(p, sep).last() + q,
        ),
    decreases q.len(),
{
    lemma_split_nonempty(p, sep);
    if q.len() == 0 {
        assert(p + q == p);
        assert(split_on(p, sep).last() + q == split_on(p, sep).last());
        assert(split_on(p, sep).update(split_on(p, sep).len() - 1, split_on(p, sep).last())
            =~= split_on(p, sep));
    } else {
        let q0 = q.drop_last();
        assert(!q0.contains(sep)) by {
            if q0.contains(sep) {
                let k = choose|k: int| 0 <= k < q0.len() && q0[k] == sep;
                assert(q[k] == sep);
            }
        }
        lemma_split_append_plain(p, q0, sep);
        assert((p + q).drop_last() == p + q0);
        assert((p + q).last() == q.last());
        assert(q.last() != sep) by {
            assert(q[q.len() - 1] == q.last());
        }
        assert(q0.push(q.last()) == q);
        let sp = split_on(p, sep);
        let r0 = sp.update(sp.len() - 1, sp.last() + q0);
        assert(split_on(p + q, sep) == r0.update(r0.len() - 1, r0.last().push(q.last())));
        assert(r0.last() == sp.last() + q0);
        assert((sp.last() + q0).push(q.last()) == sp.last() + q);
        assert(r0.update(r0.len() - 1, r0.last().push(q.last())) =~= sp.update(
            sp.len() - 1,
            sp.last() + q,
        ));
    }
}

/// Appending a separator and then separator-free text adds one piece.
pub proof fn lemma_split_append_piece(p: Seq<char>, q: Seq<char>, sep: char)
    requires
        !q.contains(sep),
    ensures
        split_on(p.push(sep) + q, sep) == split_on(p, sep).push(q),
{
    lemma_split_nonempty(p, sep);
    let pp = p.push(sep);
    assert(pp.drop_last() == p);
    assert(split_on(pp, sep) == split_on(p, sep).push(Seq::<char>::empty()));
    lemma_split_append_plain(pp, q, sep);
    let s1 = split_on(pp, sep);
    assert(s1.last() == Seq::<char>::empty());
    assert(Seq::<char>::empty() + q == q);
    assert(s1.update(s1.len() - 1, s1.last() + q) =~= split_on(p, sep).push(q));
}

/// The pieces of a character vector between occurrences of `sep`.
pub fn split_chars(v: &Vec<char>, sep: char) -> (r: Vec<Vec<char>>)
    ensures
        r@.len() == split_on(v@, sep).len(),
        forall|i: int| 0 <= i < r@.len() ==> #[trigger] r@[i]@ == split_on(v@, sep)[i],
{
    let mut pieces: Vec<Vec<char>> = Vec::new();
    let mut cur: Vec<char> = Vec::new();
    let mut i: usize = 0;
    while i < v.len()
        invariant
            i <= v.len(),
            pieces@.len() + 1 == split_on(v@.subrange(0, i as int), sep).len(),
            forall|k: int|
                0 <= k < pieces@.len() ==> #[trigger] pieces@[k]@ == split_on(
                    v@.subrange(0, i as int),
                    sep,
                )[k],
            cur@ == split_on(v@.subrange(0, i as int), sep).last(),
        decreases v.len() - i,
    {
        let ghost before = v@.subrange(0, i as int);
        assert(v@.subrange(0, i + 1).drop_last() == before);
        assert(v@.subrange(0, i + 1).last() == v@[i as int]);
        proof {
            lemma_split_nonempty(before, sep);
        }
        let c = v[i];
        if c == sep {
            let done = cur;
            pieces.push(done);
            cur = Vec::new();
        } else {
            cur.push(c);
        }
        i = i + 1;
    }
    assert(v@.subrange(0, v.len() as int) == v@);
    proof {
        lemma_split_nonempty(v@, sep);
    }
    pieces.push(cur);
    pieces
}

/// Pieces joined with a separator text between consecutive pieces
/// (`[T]::join`).
pub open spec fn join_with(pieces: Seq<Seq<char>>, sep: Seq<char>) -> Seq<char>
    decreases pieces.len(),
{
    if pieces.len() == 0 {
        Seq::<char>::empty()
    } else if pieces.len() == 1 {
        pieces[0]
    } else {
        join_with(pieces.drop_last(), sep) + sep + pieces.last()
    }
}

/// The views of a vector of strings.
pub open spec fn views(v: Seq<String>) -> Seq<Seq<char>> {
    v.map_values(|s: String| s@)
}

/// Strings joined with a separator between consecutive strings.
pub fn join_strings(pieces: &Vec<String>, sep: &str) -> (r: String)
    ensures
        r@ == join_with(views(pieces@), sep@),
{
    let mut r = String::new();
    let mut i: usize = 0;
    while i < pieces.len()
        invariant
            i <= pieces.len(),
            r@ == join_with(views(pieces@.subrange(0, i as int)), sep@),
        decreases pieces.len() - i,
    {
        let ghost prev = views(pieces@.subrange(0, i as int));
        assert(views(pieces@.subrange(0, i + 1)).drop_last() =~= prev);
        assert(views(pieces@.subrange(0, i + 1)).last() == pieces@[i as int]@);
        if i > 0 {
            crate::text::push_str(&mut r, sep);
        }
        crate::text::push_str(&mut r, pieces[i].as_str());
        i = i + 1;
        if i == 1 {
            assert(views(pieces@.subrange(0, 1)) =~= seq![pieces@[0]@]);
            assert(Seq::<char>::empty() + pieces@[0]@ == pieces@[0]@);
        }
    }
    assert(pieces@.subrange(0, pieces.len() as int) == pieces@);
    r
}

} // verus!
