//! Edit scripts: the distance is the length of a shortest way from one text
//! to the other by single insertions, deletions and substitutions.

use vstd::prelude::*;
use crate::laws::{lemma_distance_bounds, lemma_distance_to_self, lemma_distance_triangle};
use crate::metric::edit_distance;

verus! {

/// `t` is `s` with one code point inserted.
pub open spec fn is_insertion(s: Seq<char>, t: Seq<char>) -> bool {
    exists|i: int, c: char| 0 <= i <= s.len() && t == #[trigger] s.insert(i, c)
}

/// `t` is `s` with one code point taken out.
pub open spec fn is_deletion(s: Seq<char>, t: Seq<char>) -> bool {
    exists|i: int| 0 <= i < s.len() && t == #[trigger] s.remove(i)
}

/// `t` is `s` with one code point replaced by another.
pub open spec fn is_substitution(s: Seq<char>, t: Seq<char>) -> bool {
    exists|i: int, c: char| 0 <= i < s.len() && t == #[trigger] s.update(i, c)
}

/// `t` comes from `s` by a single edit.
pub open spec fn one_edit(s: Seq<char>, t: Seq<char>) -> bool {
    is_insertion(s, t) || is_deletion(s, t) || is_substitution(s, t)
}

/// `steps` is a way from `a` to `b`: it starts with `a`, ends with `b`, and
/// each text in it comes from the one before by a single edit. It makes
/// `steps.len() - 1` edits.
pub open spec fn is_edit_script(steps: Seq<Seq<char>>, a: Seq<char>, b: Seq<char>) -> bool {
    &&& steps.len() > 0
    &&& steps.first() == a
    &&& steps.last() == b
    &&& forall|k: int| 0 <= k < steps.len() - 1 ==> one_edit(#[trigger] steps[k], steps[k + 1])
}

/// A common ending does not add to the distance.
proof fn lemma_common_suffix(x: Seq<char>, y: Seq<char>, u: Seq<char>)
    ensures
        edit_distance(x + u, y + u) <= edit_distance(x, y),
    decreases u.len(),
{
    if u.len() == 0 {
        assert(x + u =~= x);
        assert(y + u =~= y);
    } else {
        lemma_common_suffix(x, y, u.drop_last());
        assert((x + u).drop_last() =~= x + u.drop_last());
        assert((y + u).drop_last() =~= y + u.drop_last());
    }
}

/// A common beginning does not add to the distance.
proof fn lemma_common_prefix(u: Seq<char>, x: Seq<char>, y: Seq<char>)
    ensures
        edit_distance(u + x, u + y) <= edit_distance(x, y),
    decreases x.len() + y.len(),
{
    if x.len() == 0 && y.len() == 0 {
        assert(u + x =~= u + y);
        lemma_distance_to_self(u + x);
    } else if x.len() == 0 {
        assert(u + x =~= u);
        if u.len() > 0 {
            lemma_common_prefix(u, x, y.drop_last());
            assert((u + y).drop_last() =~= u + y.drop_last());
        }
    } else if y.len() == 0 {
        assert(u + y =~= u);
        if u.len() > 0 {
            lemma_common_prefix(u, x.drop_last(), y);
            assert((u + x).drop_last() =~= u + x.drop_last());
        }
    } else {
        lemma_common_prefix(u, x.drop_last(), y);
        lemma_common_prefix(u, x, y.drop_last());
        lemma_common_prefix(u, x.drop_last(), y.drop_last());
        assert((u + x).drop_last() =~= u + x.drop_last());
        assert((u + y).drop_last() =~= u + y.drop_last());
    }
}

/// Texts that differ only between a common beginning and a common ending
/// are as far apart as what stands in between, at most.
proof fn lemma_common_context(p: Seq<char>, x: Seq<char>, y: Seq<char>, q: Seq<char>)
    ensures
        edit_distance(p + x + q, p + y + q) <= edit_distance(x, y),
{
    lemma_common_suffix(x, y, q);
    lemma_common_prefix(p, x + q, y + q);
    assert(p + x + q =~= p + (x + q));
    assert(p + y + q =~= p + (y + q));
}

/// A single edit moves a text by a distance of one at most.
pub proof fn lemma_one_edit_is_near(s: Seq<char>, t: Seq<char>)
    requires
        one_edit(s, t),
    ensures
        edit_distance(s, t) <= 1,
{
    let none = Seq::<char>::empty();
    if is_insertion(s, t) {
        let (i, c) = choose|i: int, c: char| 0 <= i <= s.len() && t == #[trigger] s.insert(i, c);
        let p = s.take(i);
        let q = s.skip(i);
        assert(s =~= p + none + q);
        assert(t =~= p + seq![c] + q);
        lemma_common_context(p, none, seq![c], q);
    } else if is_deletion(s, t) {
        let i = choose|i: int| 0 <= i < s.len() && t == #[trigger] s.remove(i);
        let p = s.take(i);
        let q = s.skip(i + 1);
        assert(s =~= p + seq![s[i]] + q);
        assert(t =~= p + none + q);
        lemma_common_context(p, seq![s[i]], none, q);
    } else {
        let (i, c) = choose|i: int, c: char| 0 <= i < s.len() && t == #[trigger] s.update(i, c);
        let p = s.take(i);
        let q = s.skip(i + 1);
        assert(s =~= p + seq![s[i]] + q);
        assert(t =~= p + seq![c] + q);
        lemma_common_context(p, seq![s[i]], seq![c], q);
        lemma_distance_bounds(seq![s[i]], seq![c]);
    }
}

/// No way from `a` to `b` makes fewer edits than their distance.
pub proof fn lemma_no_script_is_shorter(steps: Seq<Seq<char>>, a: Seq<char>, b: Seq<char>)
    requires
        is_edit_script(steps, a, b),
    ensures
        edit_distance(a, b) <= steps.len() - 1,
    decreases steps.len(),
{
    if steps.len() == 1 {
        lemma_distance_to_self(a);
    } else {
        let before = steps.drop_last();
        let c = before.last();
        assert forall|k: int| 0 <= k < before.len() - 1 implies one_edit(
            #[trigger] before[k],
            before[k + 1],
        ) by {
            assert(one_edit(steps[k], steps[k + 1]));
        }
        lemma_no_script_is_shorter(before, a, c);
        assert(one_edit(steps[steps.len() - 2], steps[steps.len() - 2 + 1]));
        lemma_one_edit_is_near(c, b);
        lemma_distance_triangle(a, b, c);
    }
}

/// An edit stays an edit when the same code point is put behind both texts.
proof fn lemma_one_edit_before_a_common_end(s: Seq<char>, t: Seq<char>, c: char)
    requires
        one_edit(s, t),
    ensures
        one_edit(s.push(c), t.push(c)),
{
    if is_insertion(s, t) {
        let (i, x) = choose|i: int, x: char| 0 <= i <= s.len() && t == #[trigger] s.insert(i, x);
        assert(t.push(c) =~= s.push(c).insert(i, x));
        assert(is_insertion(s.push(c), t.push(c)));
    } else if is_deletion(s, t) {
        let i = choose|i: int| 0 <= i < s.len() && t == #[trigger] s.remove(i);
        assert(t.push(c) =~= s.push(c).remove(i));
        assert(is_deletion(s.push(c), t.push(c)));
    } else {
        let (i, x) = choose|i: int, x: char| 0 <= i < s.len() && t == #[trigger] s.update(i, x);
        assert(t.push(c) =~= s.push(c).update(i, x));
        assert(is_substitution(s.push(c), t.push(c)));
    }
}

/// A way from `a` to `b` that makes exactly as many edits as their distance.
pub proof fn shortest_script(a: Seq<char>, b: Seq<char>) -> (steps: Seq<Seq<char>>)
    ensures
        is_edit_script(steps, a, b),
        steps.len() - 1 == edit_distance(a, b),
    decreases a.len() + b.len(),
{
    if a.len() == 0 {
        // Insert the code points of `b` one after the other.
        let steps = Seq::new(b.len() + 1, |k: int| b.take(k));
        assert(steps.first() =~= a);
        assert(steps.last() =~= b);
        assert forall|k: int| 0 <= k < steps.len() - 1 implies one_edit(
            #[trigger] steps[k],
            steps[k + 1],
        ) by {
            assert(b.take(k + 1) =~= b.take(k).insert(k, b[k]));
            assert(is_insertion(steps[k], steps[k + 1]));
        }
        steps
    } else if b.len() == 0 {
        // Delete the code points of `a` from the last to the first.
        let steps = Seq::new(a.len() + 1, |k: int| a.take(a.len() - k));
        assert(steps.first() =~= a);
        assert(steps.last() =~= b);
        assert forall|k: int| 0 <= k < steps.len() - 1 implies one_edit(
            #[trigger] steps[k],
            steps[k + 1],
        ) by {
            assert(a.take(a.len() - k - 1) =~= a.take(a.len() - k).remove(a.len() - k - 1));
            assert(is_deletion(steps[k], steps[k + 1]));
        }
        steps
    } else if edit_distance(a, b) == edit_distance(a.drop_last(), b) + 1 {
        // Delete the last code point of `a`, then go on from there.
        let rest = shortest_script(a.drop_last(), b);
        let steps = seq![a] + rest;
        assert(a.drop_last() =~= a.remove(a.len() - 1));
        assert(is_deletion(a, a.drop_last()));
        assert forall|k: int| 0 <= k < steps.len() - 1 implies one_edit(
            #[trigger] steps[k],
            steps[k + 1],
        ) by {
            if k > 0 {
                assert(one_edit(rest[k - 1], rest[k - 1 + 1]));
            }
        }
        steps
    } else if edit_distance(a, b) == edit_distance(a, b.drop_last()) + 1 {
        // Go to `b` without its last code point, then insert that.
        let rest = shortest_script(a, b.drop_last());
        let steps = rest.push(b);
        assert(b =~= b.drop_last().insert(b.len() - 1, b.last()));
        assert(is_insertion(b.drop_last(), b));
        assert forall|k: int| 0 <= k < steps.len() - 1 implies one_edit(
            #[trigger] steps[k],
            steps[k + 1],
        ) by {
            if k < rest.len() - 1 {
                assert(one_edit(rest[k], rest[k + 1]));
            }
        }
        steps
    } else {
        // Go from the one text to the other without their last code points,
        // carrying the last code point of `a` along, then substitute it
        // where the two differ.
        let rest = shortest_script(a.drop_last(), b.drop_last());
        let carried = Seq::new(rest.len(), |k: int| rest[k].push(a.last()));
        assert(carried.first() =~= a);
        assert forall|k: int| 0 <= k < carried.len() - 1 implies one_edit(
            #[trigger] carried[k],
            carried[k + 1],
        ) by {
            assert(one_edit(rest[k], rest[k + 1]));
            lemma_one_edit_before_a_common_end(rest[k], rest[k + 1], a.last());
        }
        if a.last() == b.last() {
            assert(carried.last() =~= b);
            carried
        } else {
            let steps = carried.push(b);
            let end = carried.last();
            assert(end =~= b.drop_last().push(a.last()));
            assert(b =~= end.update(b.len() - 1, b.last()));
            assert(is_substitution(end, b));
            assert forall|k: int| 0 <= k < steps.len() - 1 implies one_edit(
                #[trigger] steps[k],
                steps[k + 1],
            ) by {
                if k < carried.len() - 1 {
                    assert(one_edit(carried[k], carried[k + 1]));
                }
            }
            steps
        }
    }
}

} // verus!
