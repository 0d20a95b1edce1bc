//! What holds of every sibling order and of every tree the builder returns.

use crate::sibling_order::{lemma_bytes_before_asymmetric, lemma_bytes_before_splits, name_key};
use crate::names::is_hidden_name;
use crate::tree::{
    child_path, insert_sibling, lemma_insert_at, node_before, present, shown_entries, shown_tree,
    sort_siblings, DiskEntry, NodeModel,
};
use vstd::prelude::*;
use vstd::seq_lib::{to_multiset_contains, to_multiset_insert};

verus! {

/// No entry is shown before one that is shown before it.
pub proof fn lemma_node_before_asymmetric(a: NodeModel, b: NodeModel)
    requires
        node_before(a, b),
    ensures
        !node_before(b, a),
{
    if a.is_dir == b.is_dir {
        lemma_bytes_before_asymmetric(name_key(a.name), name_key(b.name), 0);
    }
}

/// Of two entries in order, any third is shown after the first or before the
/// second.
pub proof fn lemma_node_before_splits(a: NodeModel, b: NodeModel, c: NodeModel)
    requires
        node_before(a, c),
    ensures
        node_before(a, b) || node_before(b, c),
{
    if a.is_dir == c.is_dir {
        lemma_bytes_before_splits(name_key(a.name), name_key(b.name), name_key(c.name), 0);
    }
}

/// No entry of the sequence is shown strictly before an earlier one.
pub open spec fn in_display_order(siblings: Seq<NodeModel>) -> bool {
    forall|i: int, j: int|
        0 <= i < j < siblings.len() ==> !node_before(#[trigger] siblings[j], #[trigger] siblings[i])
}

/// The position at which [`insert_sibling`] puts `x`: the first whose entry is
/// not shown strictly before `x`.
pub open spec fn insertion_index(x: NodeModel, siblings: Seq<NodeModel>) -> int
    decreases siblings.len(),
{
    if siblings.len() == 0 || !node_before(siblings[0], x) {
        0
    } else {
        1 + insertion_index(x, siblings.drop_first())
    }
}

/// [`insert_sibling`] inserts at [`insertion_index`], behind exactly the
/// leading entries that are shown strictly before the new one.
pub proof fn lemma_insertion_index(x: NodeModel, siblings: Seq<NodeModel>)
    ensures
        0 <= insertion_index(x, siblings) <= siblings.len(),
        forall|i: int|
            0 <= i < insertion_index(x, siblings) ==> node_before(#[trigger] siblings[i], x),
        insertion_index(x, siblings) < siblings.len() ==> !node_before(
            siblings[insertion_index(x, siblings)],
            x,
        ),
        insert_sibling(x, siblings) == siblings.insert(insertion_index(x, siblings), x),
    decreases siblings.len(),
{
    if siblings.len() == 0 || !node_before(siblings[0], x) {
        lemma_insert_at(x, siblings, 0);
    } else {
        let rest = siblings.drop_first();
        lemma_insertion_index(x, rest);
        let pos = insertion_index(x, siblings);
        assert forall|i: int| 0 <= i < pos implies node_before(#[trigger] siblings[i], x) by {
            if i > 0 {
                assert(siblings[i] == rest[i - 1]);
            }
        }
        if pos < siblings.len() {
            assert(siblings[pos] == rest[pos - 1]);
        }
        lemma_insert_at(x, siblings, pos);
    }
}

/// Inserting an entry into siblings in display order leaves them in display
/// order.
pub proof fn lemma_insert_keeps_order(x: NodeModel, siblings: Seq<NodeModel>)
    requires
        in_display_order(siblings),
    ensures
        in_display_order(insert_sibling(x, siblings)),
{
    lemma_insertion_index(x, siblings);
    let pos = insertion_index(x, siblings);
    let out = siblings.insert(pos, x);
    assert forall|i: int, j: int| 0 <= i < j < out.len() implies !node_before(
        #[trigger] out[j],
        #[trigger] out[i],
    ) by {
        if j == pos {
            // an entry in front of the new one is shown before it
            assert(out[i] == siblings[i]);
            lemma_node_before_asymmetric(siblings[i], x);
        } else if i == pos {
            // an entry behind the new one is not shown before the one at `pos`
            let behind = siblings[j - 1];
            assert(out[j] == behind);
            if node_before(behind, x) {
                lemma_node_before_splits(behind, siblings[pos], x);
                assert(j - 1 > pos);
            }
        } else {
            let at_i = if i < pos { i } else { i - 1 };
            let at_j = if j < pos { j } else { j - 1 };
            assert(out[i] == siblings[at_i]);
            assert(out[j] == siblings[at_j]);
        }
    }
}

/// Sorted siblings are in display order: directories first, then by
/// lower-cased name.
pub proof fn lemma_sorted_in_display_order(siblings: Seq<NodeModel>)
    ensures
        in_display_order(sort_siblings(siblings)),
    decreases siblings.len(),
{
    if siblings.len() > 0 {
        lemma_sorted_in_display_order(siblings.drop_first());
        lemma_insert_keeps_order(siblings[0], sort_siblings(siblings.drop_first()));
    }
}

/// Sorting neither adds nor drops an entry.
pub proof fn lemma_sort_permutes(siblings: Seq<NodeModel>)
    ensures
        sort_siblings(siblings).to_multiset() == siblings.to_multiset(),
        sort_siblings(siblings).len() == siblings.len(),
    decreases siblings.len(),
{
    if siblings.len() > 0 {
        let rest = siblings.drop_first();
        let sorted_rest = sort_siblings(rest);
        lemma_sort_permutes(rest);
        lemma_insertion_index(siblings[0], sorted_rest);
        to_multiset_insert(sorted_rest, insertion_index(siblings[0], sorted_rest), siblings[0]);
        to_multiset_insert(rest, 0, siblings[0]);
        assert(rest.insert(0, siblings[0]) =~= siblings);
    }
}

/// In sorted siblings no file stands in front of a directory.
pub proof fn lemma_directories_first(siblings: Seq<NodeModel>)
    ensures
        forall|i: int, j: int|
            #![trigger sort_siblings(siblings)[i], sort_siblings(siblings)[j]]
            0 <= i < j < sort_siblings(siblings).len() && sort_siblings(siblings)[j].is_dir
                ==> sort_siblings(siblings)[i].is_dir,
{
    lemma_sorted_in_display_order(siblings);
}

/// Neither entry is shown strictly before the other.
pub open spec fn same_rank(a: NodeModel, b: NodeModel) -> bool {
    !node_before(a, b) && !node_before(b, a)
}

/// A filter that no entry passes keeps nothing.
proof fn lemma_filter_none(items: Seq<NodeModel>, keep: spec_fn(NodeModel) -> bool)
    requires
        forall|i: int| 0 <= i < items.len() ==> !keep(#[trigger] items[i]),
    ensures
        items.filter(keep) == Seq::<NodeModel>::empty(),
    decreases items.len(),
{
    reveal(Seq::filter);
    if items.len() > 0 {
        lemma_filter_none(items.drop_last(), keep);
    }
}

/// Filtering a sequence with one more entry put in: the entry shows up at its
/// place if and only if it passes.
proof fn lemma_filter_insert(
    items: Seq<NodeModel>,
    pos: int,
    x: NodeModel,
    keep: spec_fn(NodeModel) -> bool,
)
    requires
        0 <= pos <= items.len(),
    ensures
        items.insert(pos, x).filter(keep) == items.subrange(0, pos).filter(keep) + (if keep(x) {
            seq![x]
        } else {
            Seq::empty()
        }) + items.subrange(pos, items.len() as int).filter(keep),
        items.filter(keep) == items.subrange(0, pos).filter(keep) + items.subrange(
            pos,
            items.len() as int,
        ).filter(keep),
{
    let front = items.subrange(0, pos);
    let back = items.subrange(pos, items.len() as int);
    assert(items =~= front + back);
    assert(items.insert(pos, x) =~= (front + seq![x]) + back);
    Seq::filter_distributes_over_add(front, back, keep);
    Seq::filter_distributes_over_add(front + seq![x], back, keep);
    Seq::filter_distributes_over_add(front, seq![x], keep);
    assert(seq![x].filter(keep) == (if keep(x) {
        seq![x]
    } else {
        Seq::<NodeModel>::empty()
    })) by {
        reveal_with_fuel(Seq::filter, 2);
        assert(seq![x].drop_last() =~= Seq::<NodeModel>::empty());
        assert(Seq::<NodeModel>::empty().push(x) =~= seq![x]);
    }
}

/// Sorting is stable: the entries that rank with `x` come out in the order
/// in which they went in.
pub proof fn lemma_sort_is_stable(siblings: Seq<NodeModel>, x: NodeModel)
    ensures
        sort_siblings(siblings).filter(|y: NodeModel| same_rank(x, y)) == siblings.filter(
            |y: NodeModel| same_rank(x, y),
        ),
    decreases siblings.len(),
{
    let keep = |y: NodeModel| same_rank(x, y);
    if siblings.len() == 0 {
    } else {
        let first = siblings[0];
        let rest = siblings.drop_first();
        let sorted_rest = sort_siblings(rest);
        lemma_sort_is_stable(rest, x);
        assert(sorted_rest.filter(keep) == rest.filter(keep));
        lemma_insertion_index(first, sorted_rest);
        let pos = insertion_index(first, sorted_rest);
        lemma_filter_insert(sorted_rest, pos, first, keep);
        lemma_filter_insert(rest, 0, first, keep);
        assert(rest.insert(0, first) =~= siblings);
        assert(rest.subrange(0, 0) =~= Seq::<NodeModel>::empty());
        assert(rest.subrange(0, rest.len() as int) =~= rest);
        lemma_filter_none(Seq::<NodeModel>::empty(), keep);
        let front = sorted_rest.subrange(0, pos);
        if keep(first) {
            assert forall|i: int| 0 <= i < front.len() implies !keep(#[trigger] front[i]) by {
                assert(front[i] == sorted_rest[i]);
                assert(node_before(front[i], first));
                lemma_node_before_splits(front[i], x, first);
            }
            lemma_filter_none(front, keep);
        }
        assert(sort_siblings(siblings).filter(keep) =~= siblings.filter(keep));
    }
}

/// Sorting keeps exactly the entries it was given.
pub proof fn lemma_sort_keeps_members(siblings: Seq<NodeModel>, node: NodeModel)
    ensures
        sort_siblings(siblings).contains(node) <==> siblings.contains(node),
{
    lemma_sort_permutes(siblings);
    to_multiset_contains(siblings, node);
    to_multiset_contains(sort_siblings(siblings), node);
}

/// The present values are exactly the values of the `Some` items.
pub proof fn lemma_present_members<T>(items: Seq<Option<T>>, value: T)
    ensures
        present(items).contains(value) <==> items.contains(Some(value)),
    decreases items.len(),
{
    if items.len() > 0 {
        let front = items.drop_last();
        lemma_present_members(front, value);
        if present(items).contains(value) {
            let j = choose|j: int| 0 <= j < present(items).len() && present(items)[j] == value;
            if items.last() == Some(value) {
                assert(items[items.len() - 1] == Some(value));
            } else {
                if items.last() is Some {
                    assert(present(front)[j] == value);
                }
                assert(present(front).contains(value));
                let k = choose|k: int| 0 <= k < front.len() && front[k] == Some(value);
                assert(items[k] == Some(value));
            }
        }
        if items.contains(Some(value)) {
            let k = choose|k: int| 0 <= k < items.len() && items[k] == Some(value);
            if k == items.len() - 1 {
                let kept = present(items);
                assert(kept[kept.len() - 1] == value);
            } else {
                assert(front[k] == Some(value));
                let j = choose|j: int| 0 <= j < present(front).len() && present(front)[j] == value;
                assert(present(items)[j] == value);
            }
        }
    }
}

/// A tree is well formed when files have no children and, in every
/// directory, the children are in display order, none of them is hidden,
/// each lies at the directory's path extended by its own name, and each is
/// well formed in turn.
pub open spec fn well_formed(tree: NodeModel) -> bool
    decreases tree,
{
    match tree.children {
        None => !tree.is_dir,
        Some(children) => {
            &&& tree.is_dir
            &&& in_display_order(children)
            &&& forall|i: int|
                0 <= i < children.len() ==> {
                    &&& !is_hidden_name((#[trigger] children[i]).name)
                    &&& children[i].path == child_path(tree.path, children[i].name)
                    &&& well_formed(children[i])
                }
        },
    }
}

/// A shown tree carries the name of what was found and the path it was
/// given.
pub proof fn lemma_shown_tree_names(entry: DiskEntry, path: Seq<char>)
    ensures
        shown_tree(entry, path) is Some <==> !(entry is Unreadable),
        shown_tree(entry, path) matches Some(tree) ==> tree.name == entry.name() && tree.path
            == path && tree.is_dir == (entry is Directory),
{
}

/// Every child of a shown directory is the tree of one of the directory's
/// entries, and of one that is not hidden.
pub proof fn lemma_shown_child_origin(
    name: String,
    entries: Vec<DiskEntry>,
    path: Seq<char>,
    child: NodeModel,
) -> (k: int)
    requires
        shown_tree(DiskEntry::Directory { name, entries }, path)->0.children->0.contains(child),
    ensures
        0 <= k < entries@.len(),
        !is_hidden_name(entries@[k].name()),
        shown_tree(entries@[k], child_path(path, entries@[k].name())) == Some(child),
{
    let contributions = shown_entries(entries@, path);
    lemma_sort_keeps_members(present(contributions), child);
    lemma_present_members(contributions, child);
    let k = choose|k: int| 0 <= k < contributions.len() && contributions[k] == Some(child);
    k
}

/// Every entry of a directory that is neither hidden nor unlistable is
/// among the children shown for the directory.
pub proof fn lemma_visible_entry_shown(
    name: String,
    entries: Vec<DiskEntry>,
    path: Seq<char>,
    k: int,
)
    requires
        0 <= k < entries@.len(),
        !is_hidden_name(entries@[k].name()),
        !(entries@[k] is Unreadable),
    ensures
        shown_tree(entries@[k], child_path(path, entries@[k].name())) is Some,
        shown_tree(DiskEntry::Directory { name, entries }, path)->0.children->0.contains(
            shown_tree(entries@[k], child_path(path, entries@[k].name()))->0,
        ),
{
    let contributions = shown_entries(entries@, path);
    let child_path = child_path(path, entries@[k].name());
    lemma_shown_tree_names(entries@[k], child_path);
    let child = shown_tree(entries@[k], child_path)->0;
    assert(contributions[k] == Some(child));
    lemma_present_members(contributions, child);
    lemma_sort_keeps_members(present(contributions), child);
}

/// Every tree that is shown is well formed: whatever was found on disk, no
/// hidden entry appears below the root and all siblings are in display
/// order.
pub proof fn lemma_shown_tree_well_formed(entry: DiskEntry, path: Seq<char>)
    ensures
        shown_tree(entry, path) matches Some(tree) ==> well_formed(tree),
    decreases entry,
{
    match entry {
        DiskEntry::Directory { name, entries } => {
            let tree = shown_tree(entry, path)->0;
            let children = tree.children->0;
            lemma_sorted_in_display_order(present(shown_entries(entries@, path)));
            assert forall|i: int| 0 <= i < children.len() implies {
                &&& !is_hidden_name((#[trigger] children[i]).name)
                &&& children[i].path == child_path(tree.path, children[i].name)
                &&& well_formed(children[i])
            } by {
                let child = children[i];
                assert(children.contains(child));
                let k = lemma_shown_child_origin(name, entries, path, child);
                let found = entries@[k];
                lemma_shown_tree_names(found, child_path(path, found.name()));
                lemma_shown_tree_well_formed(found, child_path(path, found.name()));
            }
        },
        _ => {},
    }
}

} // verus!
