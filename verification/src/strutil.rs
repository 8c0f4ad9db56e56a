//! String helpers used throughout the crate: character-exact equality,
//! splitting and joining on a separator.

use vstd::prelude::*;
use vstd::string::StrSliceExecFns;
use vstd::string::StringExecFns;

verus! {

/// `s` split at every occurrence of `sep`; splitting the empty string gives
/// one empty piece, and a separator at either end gives an empty piece there.
pub open spec fn split_chars(s: Seq<char>, sep: char) -> Seq<Seq<char>>
    decreases s.len(),
{
    if s.len() == 0 {
        seq![Seq::<char>::empty()]
    } else if s.last() == sep {
        split_chars(s.drop_last(), sep).push(Seq::<char>::empty())
    } else {
        let r = split_chars(s.drop_last(), sep);
        r.update(r.len() - 1, r.last().push(s.last()))
    }
}

/// The pieces joined with `sep` between them.
pub open spec fn join_chars(pieces: Seq<Seq<char>>, sep: Seq<char>) -> Seq<char>
    decreases pieces.len(),
{
    if pieces.len() == 0 {
        Seq::<char>::empty()
    } else if pieces.len() == 1 {
        pieces[0]
    } else {
        join_chars(pieces.drop_last(), sep) + sep + pieces.last()
    }
}

pub proof fn lemma_split_chars_nonempty(s: Seq<char>, sep: char)
    ensures
        split_chars(s, sep).len() >= 1,
    decreases s.len(),
{
    if s.len() > 0 {
        lemma_split_chars_nonempty(s.drop_last(), sep);
    }
}

/// `a` and `b` hold the same characters.
pub fn str_eq(a: &str, b: &str) -> (r: bool)
    ensures
        r == (a@ == b@),
{
    let n = a.unicode_len();
    if n != b.unicode_len() {
        return false;
    }
    let mut i: usize = 0;
    while i < n
        invariant
            i <= n,
            n == a@.len(),
            n == b@.len(),
            forall|j: int| 0 <= j < i ==> a@[j] == b@[j],
        decreases n - i,
    {
        if a.get_char(i) != b.get_char(i) {
            return false;
        }
        i = i + 1;
    }
    proof {
        assert(a@ =~= b@);
    }
    true
}

pub fn string_eq(a: &String, b: &str) -> (r: bool)
    ensures
        r == (a@ == b@),
{
    str_eq(a.as_str(), b)
}

/// Split `s` at every occurrence of the character `sep`.
pub fn split_on(s: &str, sep: char) -> (r: Vec<String>)
    ensures
        r.deep_view() == split_chars(s@, sep),
{
    let n = s.unicode_len();
    let mut r: Vec<String> = Vec::new();
    let mut st: usize = 0;
    let mut i: usize = 0;
    while i < n
        invariant
            st <= i <= n,
            n == s@.len(),
            r.deep_view().push(s@.subrange(st as int, i as int)) =~~= split_chars(
                s@.take(i as int),
                sep,
            ),
        decreases n - i,
    {
        let c = s.get_char(i);
        proof {
            assert(s@.take(i + 1 as int).drop_last() =~= s@.take(i as int));
            assert(s@.take(i + 1 as int).last() == s@[i as int]);
        }
        if c == sep {
            let piece = s.substring_char(st, i).to_owned();
            r.push(piece);
            st = i + 1;
            proof {
                assert(r.deep_view().push(s@.subrange(st as int, i + 1 as int)) =~~= split_chars(
                    s@.take(i + 1 as int),
                    sep,
                ));
            }
        } else {
            let ghost old_split = split_chars(s@.take(i as int), sep);
            proof {
                assert(old_split.len() >= 1) by {
                    lemma_split_chars_nonempty(s@.take(i as int), sep);
                }
                assert(old_split.last() == s@.subrange(st as int, i as int));
                assert(s@.subrange(st as int, i + 1 as int) =~= s@.subrange(st as int, i as int)
                    .push(s@[i as int]));
                assert(r.deep_view().push(s@.subrange(st as int, i + 1 as int)) =~~= old_split
                    .update(old_split.len() - 1, old_split.last().push(s@[i as int])));
            }
        }
        i = i + 1;
    }
    proof {
        assert(s@.take(n as int) =~= s@);
        assert(s@.subrange(st as int, n as int) =~= s@.subrange(st as int, i as int));
    }
    let piece = s.substring_char(st, n).to_owned();
    r.push(piece);
    r
}

/// Join the pieces with the separator `sep` between them.
pub fn join_with(pieces: &Vec<String>, sep: &str) -> (r: String)
    ensures
        r@ == join_chars(pieces.deep_view(), sep@),
{
    let mut r = String::new();
    let mut i: usize = 0;
    while i < pieces.len()
        invariant
            i <= pieces.len(),
            r@ == join_chars(pieces.deep_view().take(i as int), sep@),
        decreases pieces.len() - i,
    {
        if i > 0 {
            r.append(sep);
        }
        r.append(pieces[i].as_str());
        proof {
            let pv = pieces.deep_view();
            assert(pv.take(i + 1 as int).drop_last() =~= pv.take(i as int));
            assert(pv.take(i + 1 as int).last() == pv[i as int]);
            if i == 0 {
                assert(join_chars(pv.take(1), sep@) == pv[0]);
            }
        }
        i = i + 1;
    }
    proof {
        assert(pieces.deep_view().take(pieces.len() as int) =~= pieces.deep_view());
    }
    r
}

} // verus!
