//! The mathematical model: edit distance on sequences of code points.

use vstd::prelude::*;

verus! {

/// The smallest of three numbers.
pub open spec fn min3(x: nat, y: nat, z: nat) -> nat {
    if x <= y && x <= z {
        x
    } else if y <= z {
        y
    } else {
        z
    }
}

/// What it costs to turn code point `x` into code point `y`: nothing when
/// they are the same, one substitution otherwise.
pub open spec fn substitution_cost(x: char, y: char) -> nat {
    if x == y {
        0
    } else {
        1
    }
}

/// The Levenshtein distance between `a` and `b`, with unit cost for each
/// insertion, deletion and substitution of a single code point.
///
/// Turning the empty text into `b` takes one insertion per code point of `b`,
/// and turning `a` into the empty text one deletion per code point of `a`.
/// Otherwise the last code point of `a` is deleted, the last code point of
/// `b` is inserted, or the one is substituted by the other, whichever is
/// cheapest.
pub open spec fn edit_distance(a: Seq<char>, b: Seq<char>) -> nat
    decreases a.len() + b.len(),
{
    if a.len() == 0 {
        b.len()
    } else if b.len() == 0 {
        a.len()
    } else {
        min3(
            edit_distance(a.drop_last(), b) + 1,
            edit_distance(a, b.drop_last()) + 1,
            edit_distance(a.drop_last(), b.drop_last()) + substitution_cost(a.last(), b.last()),
        )
    }
}

} // verus!
