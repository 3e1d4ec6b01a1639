//! The files under a directory, and the order in which they are looked at.

use vstd::prelude::*;
use vstd::relations::{sorted_by, total_ordering};
use vstd::seq_lib::{lemma_sorted_unique, to_multiset_remove};
use crate::path::{has_extension, path_extension};
use crate::text::views;

verus! {

/// A file or directory that a walk through a directory came by.
#[derive(Debug, PartialEq, Eq)]
pub struct Entry {
    /// Where it lies.
    pub path: String,
    /// Its size in bytes.
    pub size: u64,
}

/// The mathematical value of an [`Entry`].
pub struct EntryView {
    pub path: Seq<char>,
    pub size: u64,
}

impl View for Entry {
    type V = EntryView;

    open spec fn view(&self) -> EntryView {
        EntryView { path: self.path@, size: self.size }
    }
}

/// The paths of `entries`, in the order of the walk.
pub open spec fn as_walked(entries: Seq<EntryView>) -> Seq<Seq<char>> {
    Seq::new(entries.len(), |i: int| entries[i].path)
}

/// The size of each of `entries`, with its place in the walk.
pub open spec fn ranks(entries: Seq<EntryView>) -> Seq<(u64, usize)> {
    Seq::new(entries.len(), |i: int| (entries[i].size, i as usize))
}

/// Whether an entry of rank `a` comes no later than one of rank `b`: the
/// smaller comes first, and of two of the same size the one that the walk
/// came by first.
pub open spec fn rank_leq(a: (u64, usize), b: (u64, usize)) -> bool {
    a.0 < b.0 || (a.0 == b.0 && a.1 <= b.1)
}

/// The order of the ranks, as a relation.
pub open spec fn rank_order() -> spec_fn((u64, usize), (u64, usize)) -> bool {
    |a: (u64, usize), b: (u64, usize)| rank_leq(a, b)
}

/// The paths of `entries` from the smallest to the largest, those of equal
/// size in the order of the walk.
///
/// A scan in this order comes to the smallest unit of a kind first. Where
/// a package holds several program units, it is the smallest that is
/// taken.
pub open spec fn by_size(entries: Seq<EntryView>) -> Seq<Seq<char>> {
    let order = ranks(entries).sort_by(rank_order());
    Seq::new(entries.len(), |p: int| entries[order[p].1 as int].path)
}

/// The place of the first of `paths`, from place `from` on, that carries
/// the extension `wanted`.
pub open spec fn first_with_extension(paths: Seq<Seq<char>>, wanted: Seq<char>, from: int) -> Option<
    int,
>
    decreases paths.len() - from,
{
    if from < 0 || from >= paths.len() {
        None
    } else if path_extension(paths[from]) == Some(wanted) {
        Some(from)
    } else {
        first_with_extension(paths, wanted, from + 1)
    }
}

/// The ranks are totally ordered.
pub proof fn lemma_rank_order_total()
    ensures
        total_ordering(rank_order()),
{
    let r = rank_order();
    assert forall|x: (u64, usize), y: (u64, usize)| #[trigger] r(x, y) && #[trigger] r(y, x) implies x
        == y by {
        assert(x.0 == y.0 && x.1 == y.1);
    }
}

/// Whether `order` lists the places of all `entries` from the smallest
/// entry to the largest, entries of equal size in the order of the walk.
pub open spec fn is_size_order(entries: Seq<EntryView>, order: Seq<int>) -> bool {
    &&& order.len() == entries.len()
    &&& forall|p: int| 0 <= p < order.len() ==> 0 <= #[trigger] order[p] < entries.len()
    &&& forall|p: int, q: int|
        0 <= p < q < order.len() ==> {
            ||| entries[#[trigger] order[p]].size < entries[#[trigger] order[q]].size
            ||| entries[order[p]].size == entries[order[q]].size && order[p] < order[q]
        }
    &&& forall|i: int| 0 <= i < entries.len() ==> #[trigger] order.contains(i)
}

/// The scan order is the order by size: it holds every entry once, a
/// smaller one before a larger one, and entries of equal size as the walk
/// came by them.
pub proof fn lemma_by_size_is_size_order(entries: Seq<EntryView>)
    requires
        entries.len() <= usize::MAX,
    ensures
        exists|order: Seq<int>|
            #![trigger is_size_order(entries, order)]
            is_size_order(entries, order) && by_size(entries) == Seq::new(
                entries.len(),
                |p: int| entries[order[p]].path,
            ),
{
    broadcast use vstd::seq_lib::group_to_multiset_ensures;

    let all = ranks(entries);
    let sorted = all.sort_by(rank_order());
    lemma_rank_order_total();
    all.lemma_sort_by_ensures(rank_order());
    assert(sorted.len() == all.len()) by {
        assert(sorted.to_multiset().len() == all.to_multiset().len());
    }
    assert(all.no_duplicates());
    all.lemma_multiset_has_no_duplicates();
    sorted.lemma_multiset_has_no_duplicates_conv();
    let order = Seq::new(entries.len(), |p: int| sorted[p].1 as int);
    assert forall|p: int| 0 <= p < sorted.len() implies exists|i: int|
        0 <= i < all.len() && all[i] == #[trigger] sorted[p] by {
        assert(sorted.contains(sorted[p]));
        assert(sorted.to_multiset().count(sorted[p]) > 0);
        assert(all.contains(sorted[p]));
    }
    assert forall|p: int| 0 <= p < order.len() implies 0 <= #[trigger] order[p] < entries.len()
        && sorted[p].0 == entries[order[p]].size by {
        let i = choose|i: int| 0 <= i < all.len() && all[i] == sorted[p];
        assert(sorted[p].1 == i as usize);
    }
    assert forall|p: int, q: int| 0 <= p < q < order.len() implies {
        ||| entries[#[trigger] order[p]].size < entries[#[trigger] order[q]].size
        ||| entries[order[p]].size == entries[order[q]].size && order[p] < order[q]
    } by {
        let r = rank_order();
        assert(r(sorted[p], sorted[q]));
        assert(sorted[p] != sorted[q]);
        assert(sorted[p].0 == entries[order[p]].size);
        assert(sorted[q].0 == entries[order[q]].size);
    }
    assert forall|i: int| 0 <= i < entries.len() implies #[trigger] order.contains(i) by {
        assert(all.contains(all[i]));
        assert(all.to_multiset().count(all[i]) > 0);
        assert(sorted.contains(all[i]));
        let p = choose|p: int| 0 <= p < sorted.len() && sorted[p] == all[i];
        assert(order[p] == i);
    }
    assert(is_size_order(entries, order));
    assert(by_size(entries) =~= Seq::new(entries.len(), |p: int| entries[order[p]].path));
}

/// What the first match is: a place at or after `from` whose path carries
/// the extension, with no such path between `from` and it. Without a
/// match, no path from `from` on carries the extension.
pub proof fn lemma_first_with_extension(paths: Seq<Seq<char>>, wanted: Seq<char>, from: int)
    requires
        0 <= from,
    ensures
        match first_with_extension(paths, wanted, from) {
            Some(at) => {
                &&& from <= at < paths.len()
                &&& path_extension(paths[at]) == Some(wanted)
                &&& forall|i: int| from <= i < at ==> path_extension(#[trigger] paths[i]) != Some(wanted)
            },
            None => forall|i: int|
                from <= i < paths.len() ==> path_extension(#[trigger] paths[i]) != Some(wanted),
        },
    decreases paths.len() - from,
{
    if from < paths.len() && path_extension(paths[from]) != Some(wanted) {
        lemma_first_with_extension(paths, wanted, from + 1);
    }
}

/// Finds the first of `paths`, from place `from` on, that carries the
/// extension `wanted`.
pub fn find_with_extension(paths: &Vec<String>, wanted: &str, from: usize) -> (found: Option<usize>)
    ensures
        match found {
            Some(at) => at < paths@.len() && first_with_extension(views(paths@), wanted@, from as int)
                == Some(at as int),
            None => first_with_extension(views(paths@), wanted@, from as int) is None,
        },
{
    let mut at: usize = from;
    while at < paths.len()
        invariant
            from <= at,
            first_with_extension(views(paths@), wanted@, from as int) == first_with_extension(
                views(paths@),
                wanted@,
                at as int,
            ),
        decreases paths.len() - at,
    {
        assert(views(paths@)[at as int] == paths@[at as int]@);
        if has_extension(paths[at].as_str(), wanted) {
            return Some(at);
        }
        at = at + 1;
    }
    None
}

/// The paths of `entries`, in the order of the walk.
pub fn walked(entries: &Vec<Entry>) -> (paths: Vec<String>)
    ensures
        views(paths@) == as_walked(views(entries@)),
{
    let mut paths: Vec<String> = Vec::new();
    let mut i: usize = 0;
    while i < entries.len()
        invariant
            i <= entries.len(),
            paths@.len() == i,
            forall|j: int| 0 <= j < i ==> (#[trigger] paths@[j])@ == entries@[j]@.path,
        decreases entries.len() - i,
    {
        paths.push(entries[i].path.clone());
        i = i + 1;
    }
    assert(views(paths@) =~= as_walked(views(entries@)));
    paths
}

/// Puts a rank into a sorted sequence at a place where all before it come
/// no later and all from it on come later.
proof fn lemma_insert_keeps_sorted(sorted: Seq<(u64, usize)>, at: int, rank: (u64, usize))
    requires
        sorted_by(sorted, rank_order()),
        0 <= at <= sorted.len(),
        forall|k: int| 0 <= k < at ==> rank_leq(#[trigger] sorted[k], rank),
        forall|k: int| at <= k < sorted.len() ==> rank_leq(rank, #[trigger] sorted[k]),
    ensures
        sorted_by(sorted.insert(at, rank), rank_order()),
        sorted.insert(at, rank).to_multiset() == sorted.to_multiset().insert(rank),
{
    let r = rank_order();
    let after = sorted.insert(at, rank);
    assert forall|i: int, j: int| 0 <= i < j < after.len() implies #[trigger] r(after[i], after[j]) by {
        if j < at {
            assert(r(sorted[i], sorted[j]));
        } else if j == at {
            assert(rank_leq(sorted[i], rank));
        } else if i < at {
            assert(r(sorted[i], sorted[j - 1]));
        } else if i == at {
            assert(rank_leq(rank, sorted[j - 1]));
        } else {
            assert(r(sorted[i - 1], sorted[j - 1]));
        }
    }
    assert(after.remove(at) =~= sorted);
    to_multiset_remove(after, at);
    assert(after[at] == rank);
    broadcast use vstd::seq_lib::group_to_multiset_ensures;
    assert(after.to_multiset().count(rank) > 0) by {
        assert(after.contains(rank));
    }
    assert(after.to_multiset() =~= sorted.to_multiset().insert(rank));
}

/// The ranks of `entries`, sorted.
fn sorted_ranks(entries: &Vec<Entry>) -> (sorted: Vec<(u64, usize)>)
    ensures
        sorted@ == ranks(views(entries@)).sort_by(rank_order()),
        sorted@.len() == entries@.len(),
        forall|p: int| 0 <= p < sorted@.len() ==> (#[trigger] sorted@[p]).1 < entries@.len(),
{
    let ghost all = ranks(views(entries@));
    let mut sorted: Vec<(u64, usize)> = Vec::new();
    let mut i: usize = 0;
    proof {
        assert(all.take(0) =~= Seq::<(u64, usize)>::empty());
    }
    while i < entries.len()
        invariant
            i <= entries.len(),
            all == ranks(views(entries@)),
            sorted@.len() == i,
            sorted_by(sorted@, rank_order()),
            sorted@.to_multiset() == all.take(i as int).to_multiset(),
            forall|p: int| 0 <= p < sorted@.len() ==> (#[trigger] sorted@[p]).1 < i,
        decreases entries.len() - i,
    {
        let rank = (entries[i].size, i);
        let mut at: usize = sorted.len();
        while at > 0 && sorted[at - 1].0 > rank.0
            invariant
                at <= sorted@.len(),
                forall|k: int| at <= k < sorted@.len() ==> (#[trigger] sorted@[k]).0 > rank.0,
            decreases at,
        {
            at = at - 1;
        }
        proof {
            let r = rank_order();
            assert forall|k: int| 0 <= k < at implies rank_leq(#[trigger] sorted@[k], rank) by {
                if k < at - 1 {
                    assert(r(sorted@[k], sorted@[at - 1]));
                }
                assert(sorted@[k].1 < i);
            }
            lemma_insert_keeps_sorted(sorted@, at as int, rank);
            assert(all.take(i + 1) =~= all.take(i as int).push(rank));
            vstd::seq_lib::to_multiset_build(all.take(i as int), rank);
        }
        sorted.insert(at, rank);
        proof {
            assert forall|p: int| 0 <= p < sorted@.len() implies (#[trigger] sorted@[p]).1 < i + 1 by {
                if p < at {
                } else if p == at {
                } else {
                }
            }
        }
        i = i + 1;
    }
    proof {
        assert(all.take(entries@.len() as int) =~= all);
        lemma_rank_order_total();
        all.lemma_sort_by_ensures(rank_order());
        lemma_sorted_unique(sorted@, all.sort_by(rank_order()), rank_order());
    }
    sorted
}

/// The paths of `entries` from the smallest to the largest, those of equal
/// size in the order of the walk.
pub fn sized(entries: &Vec<Entry>) -> (paths: Vec<String>)
    ensures
        views(paths@) == by_size(views(entries@)),
{
    let order = sorted_ranks(entries);
    let mut paths: Vec<String> = Vec::new();
    let mut p: usize = 0;
    while p < order.len()
        invariant
            p <= order.len(),
            paths@.len() == p,
            order@.len() == entries@.len(),
            forall|q: int| 0 <= q < order@.len() ==> (#[trigger] order@[q]).1 < entries@.len(),
            forall|q: int|
                0 <= q < p ==> (#[trigger] paths@[q])@ == entries@[order@[q].1 as int]@.path,
        decreases order.len() - p,
    {
        let at = order[p].1;
        paths.push(entries[at].path.clone());
        p = p + 1;
    }
    assert(views(paths@) =~= by_size(views(entries@)));
    paths
}

} // verus!
