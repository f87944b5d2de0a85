//! Splitting a character sequence on a separator, with the facts the
//! address parser needs about it.

use vstd::prelude::*;

verus! {

/// Pieces of `s` between occurrences of `sep`, in order.  Splitting the
/// empty sequence yields one empty piece, as `str::split` does.
pub open spec fn split_chars(s: Seq<char>, sep: char) -> Seq<Seq<char>>
    decreases s.len(),
{
    if s.len() == 0 {
        seq![Seq::<char>::empty()]
    } else if s[0] == sep {
        seq![Seq::<char>::empty()] + split_chars(s.skip(1), sep)
    } else {
        let rest = split_chars(s.skip(1), sep);
        seq![seq![s[0]] + rest[0]] + rest.skip(1)
    }
}

pub proof fn lemma_split_chars_len(s: Seq<char>, sep: char)
    ensures
        split_chars(s, sep).len() >= 1,
    decreases s.len(),
{
    if s.len() > 0 {
        lemma_split_chars_len(s.skip(1), sep);
    }
}

/// Splitting a sequence without the separator yields that sequence alone.
pub proof fn lemma_split_chars_no_sep(s: Seq<char>, sep: char)
    requires
        forall|i: int| 0 <= i < s.len() ==> s[i] != sep,
    ensures
        split_chars(s, sep) =~~= seq![s],
    decreases s.len(),
{
    if s.len() > 0 {
        lemma_split_chars_no_sep(s.skip(1), sep);
        let rest = split_chars(s.skip(1), sep);
        assert(rest[0] == s.skip(1));
        assert(seq![s[0]] + s.skip(1) =~= s);
        assert(rest.skip(1) =~= Seq::<Seq<char>>::empty());
    }
}

/// Splitting `x ++ sep ++ y` when `x` holds no separator puts `x` first
/// and splits `y` behind it.
pub proof fn lemma_split_chars_concat(x: Seq<char>, y: Seq<char>, sep: char)
    requires
        forall|i: int| 0 <= i < x.len() ==> x[i] != sep,
    ensures
        split_chars(x + seq![sep] + y, sep) =~~= seq![x] + split_chars(y, sep),
    decreases x.len(),
{
    let s = x + seq![sep] + y;
    if x.len() == 0 {
        assert(s[0] == sep);
        assert(s.skip(1) =~= y);
    } else {
        assert(s[0] == x[0]);
        assert(s.skip(1) =~= x.skip(1) + seq![sep] + y);
        lemma_split_chars_concat(x.skip(1), y, sep);
        let rest = split_chars(s.skip(1), sep);
        lemma_split_chars_len(y, sep);
        assert(rest =~~= seq![x.skip(1)] + split_chars(y, sep));
        assert(rest[0] == x.skip(1));
        assert(seq![s[0]] + rest[0] =~= x);
        assert(rest.skip(1) =~= split_chars(y, sep));
    }
}

/// `str::split` on one separator character, with each piece copied out.
pub fn split_on_char(s: &str, sep: char) -> (r: Vec<String>)
    ensures
        r.deep_view() == split_chars(s@, sep),
{
    let n = s.unicode_len();
    let mut pieces: Vec<String> = Vec::new();
    let mut piece_start: usize = 0;
    let mut i: usize = 0;
    proof {
        assert(s@.skip(0) =~= s@);
        lemma_split_chars_len(s@, sep);
    }
    while i < n
        invariant
            0 <= piece_start <= i <= n,
            n == s@.len(),
            forall|k: int| piece_start <= k < i ==> s@[k] != sep,
            split_chars(s@, sep) =~~= pieces.deep_view() + seq![
                s@.subrange(piece_start as int, i as int) + split_chars(s@.skip(i as int), sep)[0],
            ] + split_chars(s@.skip(i as int), sep).skip(1),
            split_chars(s@.skip(i as int), sep).len() >= 1,
        decreases n - i,
    {
        let ghost tail = s@.skip(i as int);
        let ghost tail1 = s@.skip(i + 1);
        proof {
            assert(tail.len() > 0);
            assert(tail[0] == s@[i as int]);
            assert(tail.skip(1) =~= tail1);
            lemma_split_chars_len(tail1, sep);
        }
        let c = s.get_char(i);
        if c == sep {
            let piece = s.substring_char(piece_start, i).to_owned();
            proof {
                assert(split_chars(tail, sep) =~= seq![Seq::<char>::empty()] + split_chars(
                    tail1,
                    sep,
                ));
                assert(s@.subrange(piece_start as int, i as int) + Seq::<char>::empty()
                    =~= s@.subrange(piece_start as int, i as int));
            }
            let ghost prev = pieces.deep_view();
            pieces.push(piece);
            proof {
                assert(pieces.deep_view() =~= prev.push(
                    s@.subrange(piece_start as int, i as int),
                ));
            }
            piece_start = i + 1;
            proof {
                assert(s@.subrange(piece_start as int, (i + 1) as int) =~= Seq::<char>::empty());
            }
        } else {
            proof {
                let rest = split_chars(tail1, sep);
                assert(split_chars(tail, sep) =~= seq![seq![tail[0]] + rest[0]] + rest.skip(1));
                assert(s@.subrange(piece_start as int, (i + 1) as int) =~= s@.subrange(
                    piece_start as int,
                    i as int,
                ) + seq![s@[i as int]]);
            }
        }
        i = i + 1;
    }
    let piece = s.substring_char(piece_start, n).to_owned();
    let ghost prev = pieces.deep_view();
    pieces.push(piece);
    proof {
        assert(pieces.deep_view() =~= prev.push(s@.subrange(piece_start as int, n as int)));
        assert(s@.skip(n as int) =~= Seq::<char>::empty());
        assert(split_chars(Seq::<char>::empty(), sep) =~= seq![Seq::<char>::empty()]);
        assert(s@.subrange(piece_start as int, n as int) + Seq::<char>::empty() =~= s@.subrange(
            piece_start as int,
            n as int,
        ));
        assert(pieces.deep_view() =~~= split_chars(s@, sep));
    }
    pieces
}

} // verus!
