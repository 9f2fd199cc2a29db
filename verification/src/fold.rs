//! ASCII case folding: the sense in which color names ignore case.
//!
//! Only the capitals `A` to `Z` are folded. That is enough for the names of
//! the colors: in Unicode's full lower-casing each letter they are written
//! in comes from nothing but itself and its capital among `A` to `Z`. So a
//! word is a color's name after this folding exactly when it is one after
//! the full one.

use vstd::prelude::*;
use vstd::std_specs::iter::IteratorSpec;

verus! {

/// The lower-case form of `c`: the capitals `A` to `Z` become `a` to `z`,
/// every other character stays as it is.
pub open spec fn lower(c: char) -> char {
    if 'A' <= c <= 'Z' {
        ((c as u8) + 32) as char
    } else {
        c
    }
}

/// `s` with each character replaced by its lower-case form.
pub open spec fn lowered(s: Seq<char>) -> Seq<char> {
    s.map_values(|c: char| lower(c))
}

/// Whether `c` and `d` are one character, or the capital and the small form
/// of one letter.
pub open spec fn same_letter(c: char, d: char) -> bool {
    ||| c == d
    ||| 'A' <= c <= 'Z' && d as int == c as int + 32
    ||| 'A' <= d <= 'Z' && c as int == d as int + 32
}

/// Whether `a` and `b` differ at most in the case of their letters.
pub open spec fn alike(a: Seq<char>, b: Seq<char>) -> bool {
    &&& a.len() == b.len()
    &&& forall|i: int| 0 <= i < a.len() ==> same_letter(#[trigger] a[i], b[i])
}

/// Folds one character to lower case.
pub fn lower_char(c: char) -> (r: char)
    ensures
        r == lower(c),
{
    if 'A' <= c && c <= 'Z' {
        ((c as u8) + 32) as char
    } else {
        c
    }
}

/// Tells whether `a` and `b` read the same once both are folded to lower case.
///
/// Walks both strings once, in step, and stops at the first difference.
pub fn eq_ignoring_case(a: &str, b: &str) -> (r: bool)
    ensures
        r == (lowered(a@) == lowered(b@)),
{
    broadcast use vstd::string::group_string_axioms;

    let mut xs = a.chars();
    let mut ys = b.chars();
    let ghost mut i: int = 0;
    loop
        invariant
            0 <= i <= a@.len(),
            i <= b@.len(),
            IteratorSpec::remaining(&xs) == a@.skip(i),
            IteratorSpec::remaining(&ys) == b@.skip(i),
            IteratorSpec::decrease(&xs) is Some,
            forall|j: int| 0 <= j < i ==> lower(a@[j]) == lower(b@[j]),
        decreases IteratorSpec::decrease(&xs)->0,
    {
        let x = xs.next();
        let y = ys.next();
        match (x, y) {
            (Some(c), Some(d)) => {
                if lower_char(c) != lower_char(d) {
                    assert(lowered(a@)[i] != lowered(b@)[i]);
                    return false;
                }
                proof {
                    i = i + 1;
                }
            },
            (None, None) => {
                assert(lowered(a@) =~= lowered(b@));
                return true;
            },
            _ => {
                assert(lowered(a@).len() != lowered(b@).len());
                return false;
            },
        }
    }
}

/// Two strings fold to the same string exactly when they differ at most in
/// the case of their letters.
pub proof fn lemma_lowered_eq_iff_alike(a: Seq<char>, b: Seq<char>)
    ensures
        lowered(a) == lowered(b) <==> alike(a, b),
{
    if lowered(a) == lowered(b) {
        assert(a.len() == lowered(a).len() == b.len());
        assert forall|i: int| 0 <= i < a.len() implies same_letter(#[trigger] a[i], b[i]) by {
            assert(lower(a[i]) == lowered(a)[i] == lower(b[i]));
        }
    }
    if alike(a, b) {
        assert forall|i: int| 0 <= i < a.len() implies lowered(a)[i] == lowered(b)[i] by {
            assert(same_letter(a[i], b[i]));
        }
        assert(lowered(a) =~= lowered(b));
    }
}

/// Folding a second time changes nothing, and a string is always alike to its
/// folded form.
pub proof fn lemma_lowered_is_idempotent(s: Seq<char>)
    ensures
        lowered(lowered(s)) == lowered(s),
        alike(s, lowered(s)),
{
    lemma_lowered_eq_iff_alike(s, lowered(s));
}

} // verus!
