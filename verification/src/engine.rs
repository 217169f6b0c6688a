//! The distance engine: the Wagner-Fischer table, kept as two rolling rows.

use vstd::prelude::*;
use vstd::std_specs::iter::IteratorSpec;
use vstd::string::StringSliceAdditionalSpecFns;
use vstd::utf8::encode_utf8_decode_utf8;
use crate::laws::{lemma_distance_bounds, lemma_distance_to_self};
use crate::metric::{edit_distance, min3, substitution_cost};

verus! {

/// `row` holds, in each of its first `filled` columns `j`, the distance from
/// `a` to the first `j` code points of `b`.
spec fn row_holds(row: Seq<usize>, a: Seq<char>, b: Seq<char>, filled: int) -> bool {
    forall|j: int| 0 <= j < filled ==> #[trigger] row[j] == edit_distance(a, b.take(j))
}

/// One cell of the table, from its three neighbours.
proof fn lemma_cell(a: Seq<char>, b: Seq<char>, i: int, j: int)
    requires
        0 <= i < a.len(),
        0 <= j < b.len(),
    ensures
        edit_distance(a.take(i + 1), b.take(j + 1)) == min3(
            edit_distance(a.take(i), b.take(j + 1)) + 1,
            edit_distance(a.take(i + 1), b.take(j)) + 1,
            edit_distance(a.take(i), b.take(j)) + substitution_cost(a[i], b[j]),
        ),
{
    assert(a.take(i + 1).drop_last() =~= a.take(i));
    assert(b.take(j + 1).drop_last() =~= b.take(j));
}

/// The row of the table for the empty text: `0, 1, ..., last`.
fn initial_row(last: usize) -> (row: Vec<usize>)
    ensures
        row@.len() == last + 1,
        forall|j: int| 0 <= j <= last ==> row[j] == j,
{
    let mut row: Vec<usize> = Vec::new();
    let mut j: usize = 0;
    while j < last
        invariant
            j <= last,
            row@.len() == j,
            forall|k: int| 0 <= k < j ==> row[k] == k,
        decreases last - j,
    {
        row.push(j);
        j = j + 1;
    }
    row.push(last);
    row
}

/// Whether two texts are the same sequence of code points, decided on their
/// bytes.
fn same_text(s1: &str, s2: &str) -> (same: bool)
    ensures
        same == (s1@ == s2@),
{
    let b1 = s1.as_bytes();
    let b2 = s2.as_bytes();
    if b1.len() != b2.len() {
        return false;
    }
    let mut k: usize = 0;
    while k < b1.len()
        invariant
            k <= b1@.len(),
            b1@.len() == b2@.len(),
            b1@ == s1.spec_bytes(),
            b2@ == s2.spec_bytes(),
            forall|t: int| 0 <= t < k ==> b1[t] == b2[t],
        decreases b1@.len() - k,
    {
        if b1[k] != b2[k] {
            return false;
        }
        k = k + 1;
    }
    proof {
        // Equal encodings decode to equal texts.
        assert(b1@ =~= b2@);
        encode_utf8_decode_utf8(s1@);
        encode_utf8_decode_utf8(s2@);
    }
    true
}

/// Computes the Levenshtein edit distance between two UTF-8 strings, counted
/// in code points.
pub fn distance(s1: &str, s2: &str) -> (d: usize)
    ensures
        d == edit_distance(s1@, s2@),
{
    let s1_len = s1.unicode_len();
    let s2_len = s2.unicode_len();

    if s1_len == 0 || s2_len == 0 {
        return if s1_len >= s2_len { s1_len } else { s2_len };
    }

    if same_text(s1, s2) {
        proof {
            lemma_distance_to_self(s1@);
        }
        return 0;
    }

    let mut distances = initial_row(s2_len);
    // The row has `s2_len + 1` cells and its length is a `usize`, so that sum
    // is one too.
    let width = distances.len();
    let mut workspace: Vec<usize> = vec![0; width];

    let mut i: usize = 0;
    for c1 in it1: s1.chars()
        invariant
            i == it1.index(),
            it1.seq() == s1@,
            s1_len == s1@.len(),
            s2_len == s2@.len(),
            s2_len + 1 == width,
            distances@.len() == width,
            workspace@.len() == width,
            row_holds(distances@, s1@.take(i as int), s2@, width as int),
    {
        workspace[0] = i + 1;

        let mut j: usize = 0;
        for c2 in it2: s2.chars()
            invariant
                j == it2.index(),
                it2.seq() == s2@,
                s1_len == s1@.len(),
                s2_len == s2@.len(),
                s2_len + 1 == width,
                i < s1@.len(),
                c1 == s1@[i as int],
                distances@.len() == width,
                workspace@.len() == width,
                row_holds(distances@, s1@.take(i as int), s2@, width as int),
                row_holds(workspace@, s1@.take(i + 1), s2@, j + 1),
        {
            proof {
                lemma_cell(s1@, s2@, i as int, j as int);
                lemma_distance_bounds(s1@.take(i as int), s2@.take(j as int));
                lemma_distance_bounds(s1@.take(i + 1), s2@.take(j + 1));
            }
            let substitution_cost: usize = distances[j] + if c1 == c2 { 0 } else { 1 };
            // Deleting from `s1` or inserting from `s2`, before the edit
            // itself is counted.
            let neighbour: usize = if distances[j + 1] <= workspace[j] {
                distances[j + 1]
            } else {
                workspace[j]
            };
            workspace[j + 1] = if neighbour < substitution_cost {
                neighbour + 1
            } else {
                substitution_cost
            };
            j = j + 1;
        }

        std::mem::swap(&mut distances, &mut workspace);
        i = i + 1;
    }

    proof {
        assert(s1@.take(s1@.len() as int) =~= s1@);
        assert(s2@.take(s2@.len() as int) =~= s2@);
    }
    distances[s2_len]
}

} // verus!
