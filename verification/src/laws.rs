//! What holds of the edit distance for all texts: it is a metric on sequences
//! of code points, bounded by their lengths.

use vstd::prelude::*;
use crate::metric::edit_distance;

verus! {

/// The distance lies between the difference of the two lengths and the
/// greater of them.
pub proof fn lemma_distance_bounds(a: Seq<char>, b: Seq<char>)
    ensures
        a.len() - b.len() <= edit_distance(a, b),
        b.len() - a.len() <= edit_distance(a, b),
        edit_distance(a, b) <= a.len() || edit_distance(a, b) <= b.len(),
    decreases a.len() + b.len(),
{
    if a.len() > 0 && b.len() > 0 {
        lemma_distance_bounds(a.drop_last(), b);
        lemma_distance_bounds(a, b.drop_last());
        lemma_distance_bounds(a.drop_last(), b.drop_last());
    }
}

/// When one of the two texts is empty, the distance is the length of the
/// other, which is the greater of the two lengths.
pub proof fn lemma_distance_with_empty(a: Seq<char>, b: Seq<char>)
    requires
        a.len() == 0 || b.len() == 0,
    ensures
        edit_distance(a, b) == if a.len() >= b.len() { a.len() } else { b.len() },
{
}

/// The distance is zero exactly when the two texts are the same sequence of
/// code points.
pub proof fn lemma_distance_zero_iff_equal(a: Seq<char>, b: Seq<char>)
    ensures
        edit_distance(a, b) == 0 <==> a == b,
    decreases a.len() + b.len(),
{
    if a.len() == 0 || b.len() == 0 {
        if a.len() == 0 && b.len() == 0 {
            assert(a =~= b);
        }
    } else {
        lemma_distance_zero_iff_equal(a.drop_last(), b.drop_last());
        assert(a =~= a.drop_last().push(a.last()));
        assert(b =~= b.drop_last().push(b.last()));
    }
}

/// The distance from a text to itself is zero.
pub proof fn lemma_distance_to_self(a: Seq<char>)
    ensures
        edit_distance(a, a) == 0,
{
    lemma_distance_zero_iff_equal(a, a);
}

/// The distance does not depend on the order of the two texts.
pub proof fn lemma_distance_symmetric(a: Seq<char>, b: Seq<char>)
    ensures
        edit_distance(a, b) == edit_distance(b, a),
    decreases a.len() + b.len(),
{
    if a.len() > 0 && b.len() > 0 {
        lemma_distance_symmetric(a.drop_last(), b);
        lemma_distance_symmetric(a, b.drop_last());
        lemma_distance_symmetric(a.drop_last(), b.drop_last());
    }
}

/// The triangle inequality: going from `a` to `b` directly never costs more
/// than going by way of a third text `c`.
pub proof fn lemma_distance_triangle(a: Seq<char>, b: Seq<char>, c: Seq<char>)
    ensures
        edit_distance(a, b) <= edit_distance(a, c) + edit_distance(c, b),
    decreases a.len() + b.len() + c.len(),
{
    if a.len() == 0 || b.len() == 0 || c.len() == 0 {
        lemma_distance_bounds(a, b);
        lemma_distance_bounds(a, c);
        lemma_distance_bounds(c, b);
    } else {
        // Whichever edits end the cheapest ways from `a` to `c` and from `c`
        // to `b`, one of these shorter triangles carries the bound over.
        lemma_distance_triangle(a.drop_last(), b, c);
        lemma_distance_triangle(a, b.drop_last(), c);
        lemma_distance_triangle(a, b, c.drop_last());
        lemma_distance_triangle(a, b.drop_last(), c.drop_last());
        lemma_distance_triangle(a.drop_last(), b, c.drop_last());
        lemma_distance_triangle(a.drop_last(), b.drop_last(), c.drop_last());
    }
}

} // verus!
