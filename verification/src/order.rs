//! Putting the entries of a listing in order.
//!
//! An order is a sequence of positions in the list of entries, so that
//! nothing has to be moved or copied to sort.

use vstd::prelude::*;
use vstd::multiset::Multiset;
use vstd::seq_lib::{lemma_multiset_commutative, to_multiset_build};
use crate::entry::{key_ge, key_gt, DirectoryEntry, SortBy};

verus! {

/// Every position in `positions` is one of `files`.
pub open spec fn in_range(files: Seq<DirectoryEntry>, positions: Seq<usize>) -> bool {
    forall|k: int| 0 <= k < positions.len() ==> #[trigger] positions[k] < files.len()
}

/// The key of the entry at position `p`.
pub open spec fn key_at(files: Seq<DirectoryEntry>, by: SortBy, p: usize) -> int {
    files[p as int].sort_key(by)
}

/// The entries at `positions`, in that order, have keys that never grow.
pub open spec fn is_descending(
    files: Seq<DirectoryEntry>,
    by: SortBy,
    positions: Seq<usize>,
) -> bool {
    forall|a: int, b: int|
        0 <= a < b < positions.len() ==> key_ge(
            key_at(files, by, #[trigger] positions[a]),
            key_at(files, by, #[trigger] positions[b]),
        )
}

/// The entries at `positions`, in that order, have keys that shrink at
/// every step.
pub open spec fn is_strictly_descending(
    files: Seq<DirectoryEntry>,
    by: SortBy,
    positions: Seq<usize>,
) -> bool {
    forall|a: int, b: int|
        0 <= a < b < positions.len() ==> key_gt(
            key_at(files, by, #[trigger] positions[a]),
            key_at(files, by, #[trigger] positions[b]),
        )
}

/// No two entries of `files` have the same key.
pub open spec fn has_distinct_keys(files: Seq<DirectoryEntry>, by: SortBy) -> bool {
    forall|i: int, j: int|
        0 <= i < j < files.len() ==> (#[trigger] files[i]).sort_key(by) != (
        #[trigger] files[j]).sort_key(by)
}

/// Nothing taken from an order is an empty collection of positions.
proof fn lemma_nothing_taken(positions: Seq<usize>)
    ensures
        positions.take(0).to_multiset() =~= Multiset::<usize>::empty(),
        Seq::<usize>::empty().to_multiset() =~= Multiset::<usize>::empty(),
{
    broadcast use vstd::multiset::group_multiset_axioms;

    let none = Seq::<usize>::empty();
    assert(positions.take(0) =~= none);
    none.to_multiset_ensures();
    vstd::multiset::lemma_multiset_empty_len(none.to_multiset());
}

/// Merges two descending orders into one.
fn merge(files: &Vec<DirectoryEntry>, by: SortBy, left: &Vec<usize>, right: &Vec<usize>) -> (merged:
    Vec<usize>)
    requires
        in_range(files@, left@),
        in_range(files@, right@),
        is_descending(files@, by, left@),
        is_descending(files@, by, right@),
    ensures
        merged@.to_multiset() == left@.to_multiset().add(right@.to_multiset()),
        in_range(files@, merged@),
        is_descending(files@, by, merged@),
{
    let mut out: Vec<usize> = Vec::new();
    let mut i: usize = 0;
    let mut j: usize = 0;
    proof {
        lemma_nothing_taken(left@);
        lemma_nothing_taken(right@);
        assert(out@ =~= Seq::<usize>::empty());
        assert(out@.to_multiset() =~= left@.take(0).to_multiset().add(
            right@.take(0).to_multiset(),
        ));
    }
    while i < left.len() || j < right.len()
        invariant
            i <= left.len(),
            j <= right.len(),
            in_range(files@, left@),
            in_range(files@, right@),
            is_descending(files@, by, left@),
            is_descending(files@, by, right@),
            out@.to_multiset() == left@.take(i as int).to_multiset().add(
                right@.take(j as int).to_multiset(),
            ),
            in_range(files@, out@),
            is_descending(files@, by, out@),
            forall|k: int, m: int|
                0 <= k < out@.len() && i <= m < left@.len() ==> key_ge(
                    key_at(files@, by, #[trigger] out@[k]),
                    key_at(files@, by, #[trigger] left@[m]),
                ),
            forall|k: int, m: int|
                0 <= k < out@.len() && j <= m < right@.len() ==> key_ge(
                    key_at(files@, by, #[trigger] out@[k]),
                    key_at(files@, by, #[trigger] right@[m]),
                ),
        decreases (left.len() - i) + (right.len() - j),
    {
        let from_left = if i == left.len() {
            false
        } else if j == right.len() {
            true
        } else {
            files[left[i]].comes_first(&files[right[j]], by)
        };
        let ghost before = out@;
        if from_left {
            let p = left[i];
            proof {
                to_multiset_build(before, p);
                to_multiset_build(left@.take(i as int), p);
                assert(left@.take(i as int + 1) =~= left@.take(i as int).push(p));
                assert(before.push(p).to_multiset() =~= left@.take(i as int + 1).to_multiset().add(
                    right@.take(j as int).to_multiset(),
                ));
            }
            out.push(p);
            i = i + 1;
        } else {
            let p = right[j];
            proof {
                to_multiset_build(before, p);
                to_multiset_build(right@.take(j as int), p);
                assert(right@.take(j as int + 1) =~= right@.take(j as int).push(p));
                assert(before.push(p).to_multiset() =~= left@.take(i as int).to_multiset().add(
                    right@.take(j as int + 1).to_multiset(),
                ));
            }
            out.push(p);
            j = j + 1;
        }
    }
    assert(left@.take(i as int) =~= left@);
    assert(right@.take(j as int) =~= right@);
    out
}

/// Puts `positions` in the order of a listing: the same positions, as often
/// as they came, and the entries they point at have keys that never grow.
pub fn sort_positions(files: &Vec<DirectoryEntry>, by: SortBy, positions: Vec<usize>) -> (sorted:
    Vec<usize>)
    requires
        in_range(files@, positions@),
    ensures
        sorted@.to_multiset() == positions@.to_multiset(),
        in_range(files@, sorted@),
        is_descending(files@, by, sorted@),
    decreases positions.len(),
{
    if positions.len() <= 1 {
        return positions;
    }
    let ghost all = positions@;
    let mid = positions.len() / 2;
    let mut left = positions;
    let right = left.split_off(mid);
    proof {
        assert(all =~= left@ + right@);
        lemma_multiset_commutative(left@, right@);
    }
    let left = sort_positions(files, by, left);
    let right = sort_positions(files, by, right);
    merge(files, by, &left, &right)
}

/// Two orders made of the same positions hold the same positions, and one
/// repeats a position only if the other does.
pub proof fn lemma_same_positions(a: Seq<usize>, b: Seq<usize>)
    requires
        a.to_multiset() == b.to_multiset(),
    ensures
        a.len() == b.len(),
        forall|p: usize| a.contains(p) <==> b.contains(p),
        a.no_duplicates() <==> b.no_duplicates(),
{
    a.to_multiset_ensures();
    b.to_multiset_ensures();
    assert forall|p: usize| a.contains(p) <==> b.contains(p) by {
        assert(a.contains(p) <==> a.to_multiset().count(p) > 0);
        assert(b.contains(p) <==> b.to_multiset().count(p) > 0);
    }
    if a.no_duplicates() {
        a.lemma_multiset_has_no_duplicates();
        b.lemma_multiset_has_no_duplicates_conv();
    }
    if b.no_duplicates() {
        b.lemma_multiset_has_no_duplicates();
        a.lemma_multiset_has_no_duplicates_conv();
    }
}

/// Where no two entries have the same key, an order that never grows and
/// repeats no position shrinks at every step: sorted by date, files with
/// distinct modification times come strictly newest first.
pub proof fn lemma_distinct_keys_strictly_descending(
    files: Seq<DirectoryEntry>,
    by: SortBy,
    positions: Seq<usize>,
)
    requires
        in_range(files, positions),
        positions.no_duplicates(),
        is_descending(files, by, positions),
        has_distinct_keys(files, by),
    ensures
        is_strictly_descending(files, by, positions),
{
    assert forall|a: int, b: int| 0 <= a < b < positions.len() implies key_gt(
        key_at(files, by, #[trigger] positions[a]),
        key_at(files, by, #[trigger] positions[b]),
    ) by {
        let p = positions[a] as int;
        let q = positions[b] as int;
        assert(p != q);
        if p < q {
            assert(files[p].sort_key(by) != files[q].sort_key(by));
        } else {
            assert(files[q].sort_key(by) != files[p].sort_key(by));
        }
    }
}

/// Two orders that shrink at every step and hold the same positions are
/// the same order.
pub proof fn lemma_strict_order_is_unique(
    files: Seq<DirectoryEntry>,
    by: SortBy,
    a: Seq<usize>,
    b: Seq<usize>,
)
    requires
        is_strictly_descending(files, by, a),
        is_strictly_descending(files, by, b),
        forall|p: usize| a.contains(p) <==> b.contains(p),
    ensures
        a == b,
    decreases a.len(),
{
    if a.len() == 0 {
        if b.len() > 0 {
            assert(b.contains(b[0]));
        }
        assert(a =~= b);
    } else {
        assert(a.contains(a[0]));
        let j = choose|j: int| 0 <= j < b.len() && b[j] == a[0];
        assert(b.contains(b[0]));
        let i = choose|i: int| 0 <= i < a.len() && a[i] == b[0];
        // Neither head can stand behind the other: the heads are the same.
        if j > 0 {
            assert(key_gt(key_at(files, by, b[0]), key_at(files, by, b[j])));
            if i > 0 {
                assert(key_gt(key_at(files, by, a[0]), key_at(files, by, a[i])));
            }
        }
        assert(a[0] == b[0]);
        let rest_a = a.drop_first();
        let rest_b = b.drop_first();
        assert forall|p: usize| rest_a.contains(p) <==> rest_b.contains(p) by {
            if rest_a.contains(p) {
                let k = choose|k: int| 0 <= k < rest_a.len() && rest_a[k] == p;
                assert(a[k + 1] == p);
                assert(key_gt(key_at(files, by, a[0]), key_at(files, by, a[k + 1])));
                assert(a.contains(p));
                let m = choose|m: int| 0 <= m < b.len() && b[m] == p;
                assert(m > 0);
                assert(rest_b[m - 1] == p);
            }
            if rest_b.contains(p) {
                let k = choose|k: int| 0 <= k < rest_b.len() && rest_b[k] == p;
                assert(b[k + 1] == p);
                assert(key_gt(key_at(files, by, b[0]), key_at(files, by, b[k + 1])));
                assert(b.contains(p));
                let m = choose|m: int| 0 <= m < a.len() && a[m] == p;
                assert(m > 0);
                assert(rest_a[m - 1] == p);
            }
        }
        assert forall|x: int, y: int| 0 <= x < y < rest_a.len() implies key_gt(
            key_at(files, by, #[trigger] rest_a[x]),
            key_at(files, by, #[trigger] rest_a[y]),
        ) by {
            assert(rest_a[x] == a[x + 1] && rest_a[y] == a[y + 1]);
        }
        assert forall|x: int, y: int| 0 <= x < y < rest_b.len() implies key_gt(
            key_at(files, by, #[trigger] rest_b[x]),
            key_at(files, by, #[trigger] rest_b[y]),
        ) by {
            assert(rest_b[x] == b[x + 1] && rest_b[y] == b[y + 1]);
        }
        lemma_strict_order_is_unique(files, by, rest_a, rest_b);
        assert(a =~= seq![a[0]] + rest_a);
        assert(b =~= seq![b[0]] + rest_b);
    }
}

} // verus!
