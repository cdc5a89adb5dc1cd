use vstd::prelude::*;
use crate::splice::spliced;
use crate::file_tree::{has_child, names_unique, position, position_bounds, position_of_entry};
use crate::file_tree::{same_tree, same_tree_reflexive, DirEntry, FileTree};
use crate::merge::{fresh_entries, is_merge, mergeable, position_in_kept, MergePolicy};

verus! {

/// The content of the file at `place`, where a file stands there.
pub open spec fn file_text_at(tree: FileTree, place: Seq<Seq<char>>) -> Option<Seq<char>> {
    match tree.lookup(place) {
        Some(FileTree::File(text)) => Some(text@),
        _ => None,
    }
}

/// Where the application tree holds a file that is not spliced, and the
/// rendered tree holds a file of other content at the same place, the trees
/// cannot be merged: the merge fails and the existing file is not replaced.
pub proof fn conflicting_file_prevents_merge(
    app: FileTree,
    rendered: FileTree,
    base: Seq<Seq<char>>,
    place: Seq<Seq<char>>,
    policy: MergePolicy,
)
    requires
        file_text_at(app, place) is Some,
        file_text_at(rendered, place) is Some,
        file_text_at(app, place) != file_text_at(rendered, place),
        !policy.splices(base + place),
    ensures
        !mergeable(app, rendered, base, policy),
    decreases place.len(),
{
    if place.len() == 0 {
        assert(base + place =~= base);
    } else {
        match (app, rendered) {
            (FileTree::Directory(held), FileTree::Directory(added)) => {
                let in_held = position(held@, place[0], 0);
                let in_added = position(added@, place[0], 0);
                position_bounds(held@, place[0], 0);
                position_bounds(added@, place[0], 0);
                assert(base.push(place[0]) + place.drop_first() =~= base + place);
                conflicting_file_prevents_merge(
                    held@[in_held].node,
                    added@[in_added].node,
                    base.push(place[0]),
                    place.drop_first(),
                    policy,
                );
                assert(has_child(added@, held@[in_held].name@));
            },
            _ => {},
        }
    }
}

/// Where the application directory holds every rendered name, no rendered
/// entry is fresh.
pub proof fn no_fresh_entries(rendered: Seq<DirEntry>, app: Seq<DirEntry>, upto: int)
    requires
        0 <= upto <= rendered.len(),
        forall|j: int| 0 <= j < upto ==> has_child(app, (#[trigger] rendered[j]).name@),
    ensures
        fresh_entries(rendered, app, upto) == Seq::<DirEntry>::empty(),
    decreases upto,
{
    if upto > 0 {
        no_fresh_entries(rendered, app, upto - 1);
    }
}

/// The rendered entry that a fresh entry is.
pub proof fn fresh_origin(rendered: Seq<DirEntry>, app: Seq<DirEntry>, upto: int, at: int) -> (from:
    int)
    requires
        0 <= upto <= rendered.len(),
        0 <= at < fresh_entries(rendered, app, upto).len(),
    ensures
        0 <= from < upto,
        fresh_entries(rendered, app, upto)[at] == rendered[from],
        !has_child(app, rendered[from].name@),
    decreases upto,
{
    let before = fresh_entries(rendered, app, upto - 1);
    if !has_child(app, rendered[upto - 1].name@) && at == before.len() {
        upto - 1
    } else {
        fresh_origin(rendered, app, upto - 1, at)
    }
}

/// The fresh entry that a rendered entry with a new name is.
pub proof fn fresh_place(rendered: Seq<DirEntry>, app: Seq<DirEntry>, upto: int, from: int) -> (at:
    int)
    requires
        0 <= from < upto <= rendered.len(),
        !has_child(app, rendered[from].name@),
    ensures
        0 <= at < fresh_entries(rendered, app, upto).len(),
        fresh_entries(rendered, app, upto)[at] == rendered[from],
    decreases upto,
{
    let before = fresh_entries(rendered, app, upto - 1);
    if from == upto - 1 {
        before.len() as int
    } else {
        fresh_place(rendered, app, upto - 1, from)
    }
}

/// A directory that holds an entry of some name has a child of that name.
pub proof fn named_entry_is_child(entries: Seq<DirEntry>, at: int)
    requires
        0 <= at < entries.len(),
    ensures
        has_child(entries, entries[at].name@),
{
    position_bounds(entries, entries[at].name@, 0);
}

/// Where no file is spliced, a well-formed tree can be merged into itself,
/// and the merge is the tree.
pub proof fn merge_with_itself(tree: FileTree, path: Seq<Seq<char>>, policy: MergePolicy)
    requires
        tree.wf(),
        policy.splice_targets@.len() == 0,
    ensures
        mergeable(tree, tree, path, policy),
        is_merge(tree, tree, tree, path, policy),
    decreases tree,
{
    match tree {
        FileTree::File(_) => {},
        FileTree::Directory(entries) => {
            let held = entries@;
            assert forall|i: int| 0 <= i < held.len() implies has_child(
                held,
                (#[trigger] held[i]).name@,
            ) && position(held, held[i].name@, 0) == i && mergeable(
                held[i].node,
                held[i].node,
                path.push(held[i].name@),
                policy,
            ) && is_merge(
                held[i].node,
                held[i].node,
                held[i].node,
                path.push(held[i].name@),
                policy,
            ) by {
                position_of_entry(held, i);
                merge_with_itself(held[i].node, path.push(held[i].name@), policy);
            }
            no_fresh_entries(held, held, held.len() as int);
            assert(held.subrange(held.len() as int, held.len() as int) =~= Seq::<DirEntry>::empty());
        },
    }
}

/// Merging a rendered tree a second time changes nothing, where no file is
/// spliced: the tree that a first merge gave can be merged with the same
/// rendered tree again, without conflict, and the merge is that tree.
pub proof fn merge_is_idempotent(
    app: FileTree,
    rendered: FileTree,
    merged: FileTree,
    path: Seq<Seq<char>>,
    policy: MergePolicy,
)
    requires
        app.wf(),
        rendered.wf(),
        policy.splice_targets@.len() == 0,
        mergeable(app, rendered, path, policy),
        is_merge(app, rendered, merged, path, policy),
    ensures
        mergeable(merged, rendered, path, policy),
        is_merge(merged, rendered, merged, path, policy),
    decreases app,
{
    match (app, rendered, merged) {
        (FileTree::Directory(held_entries), FileTree::Directory(added_entries), FileTree::Directory(kept_entries)) => {
            let held = held_entries@;
            let added = added_entries@;
            let kept = kept_entries@;
            let fresh = fresh_entries(added, held, added.len() as int);
            assert forall|i: int| 0 <= i < kept.len() && has_child(
                added,
                (#[trigger] kept[i]).name@,
            ) implies mergeable(
                kept[i].node,
                added[position(added, kept[i].name@, 0)].node,
                path.push(kept[i].name@),
                policy,
            ) && is_merge(
                kept[i].node,
                added[position(added, kept[i].name@, 0)].node,
                kept[i].node,
                path.push(kept[i].name@),
                policy,
            ) by {
                let name = kept[i].name@;
                let from = position(added, name, 0);
                position_bounds(added, name, 0);
                if i < held.len() {
                    assert(held[i].name@ == name);
                    merge_is_idempotent(
                        held[i].node,
                        added[from].node,
                        kept[i].node,
                        path.push(name),
                        policy,
                    );
                } else {
                    assert(kept[i] == kept.subrange(held.len() as int, kept.len() as int)[i
                        - held.len()]);
                    let origin = fresh_origin(added, held, added.len() as int, i - held.len());
                    position_of_entry(added, origin);
                    merge_with_itself(kept[i].node, path.push(name), policy);
                }
            }
            assert forall|j: int| 0 <= j < added.len() implies has_child(
                kept,
                (#[trigger] added[j]).name@,
            ) by {
                let name = added[j].name@;
                if has_child(held, name) {
                    let at = position(held, name, 0);
                    position_bounds(held, name, 0);
                    assert(kept[at].name@ == name);
                    named_entry_is_child(kept, at);
                } else {
                    let at = fresh_place(added, held, added.len() as int, j);
                    assert(kept[held.len() + at] == kept.subrange(
                        held.len() as int,
                        kept.len() as int,
                    )[at]);
                    named_entry_is_child(kept, held.len() + at);
                }
            }
            no_fresh_entries(added, kept, added.len() as int);
            assert(kept.subrange(kept.len() as int, kept.len() as int) =~= Seq::<DirEntry>::empty());
        },
        _ => {},
    }
}

/// A merge leaves alone what the rendered tree does not speak of: at a place
/// where the application tree holds a node and the rendered tree holds none,
/// the merged tree holds the node of the application tree.
pub proof fn merge_keeps_unrendered_places(
    app: FileTree,
    rendered: FileTree,
    merged: FileTree,
    base: Seq<Seq<char>>,
    place: Seq<Seq<char>>,
    policy: MergePolicy,
)
    requires
        is_merge(app, rendered, merged, base, policy),
        app.lookup(place) is Some,
        rendered.lookup(place) is None,
    ensures
        merged.lookup(place) == app.lookup(place),
    decreases place.len(),
{
    match (app, rendered, merged) {
        (FileTree::Directory(held_entries), FileTree::Directory(added_entries), FileTree::Directory(kept_entries)) => {
            let held = held_entries@;
            let added = added_entries@;
            let kept = kept_entries@;
            let name = place[0];
            let at = position(held, name, 0);
            position_bounds(held, name, 0);
            assert forall|m: int| held.len() <= m < kept.len() implies (#[trigger] kept[m]).name@
                != name by {
                assert(kept[m] == kept.subrange(held.len() as int, kept.len() as int)[m
                    - held.len()]);
                fresh_origin(added, held, added.len() as int, m - held.len());
            }
            position_in_kept(kept, held, name);
            assert(kept[at].name@ == held[at].name@);
            if has_child(added, name) {
                let from = position(added, name, 0);
                position_bounds(added, name, 0);
                merge_keeps_unrendered_places(
                    held[at].node,
                    added[from].node,
                    kept[at].node,
                    base.push(name),
                    place.drop_first(),
                    policy,
                );
            }
        },
        _ => {},
    }
}

/// A merge inserts what only the rendered tree holds as it is: at a place
/// where the rendered tree holds a node and the application tree holds none,
/// the merged tree holds the node of the rendered tree.
pub proof fn merge_inserts_new_places(
    app: FileTree,
    rendered: FileTree,
    merged: FileTree,
    base: Seq<Seq<char>>,
    place: Seq<Seq<char>>,
    policy: MergePolicy,
)
    requires
        rendered.wf(),
        is_merge(app, rendered, merged, base, policy),
        app.lookup(place) is None,
        rendered.lookup(place) is Some,
    ensures
        merged.lookup(place) == rendered.lookup(place),
    decreases place.len(),
{
    match (app, rendered, merged) {
        (FileTree::Directory(held_entries), FileTree::Directory(added_entries), FileTree::Directory(kept_entries)) => {
            let held = held_entries@;
            let added = added_entries@;
            let kept = kept_entries@;
            let name = place[0];
            let from = position(added, name, 0);
            position_bounds(added, name, 0);
            position_bounds(held, name, 0);
            position_bounds(kept, name, 0);
            if has_child(held, name) {
                let at = position(held, name, 0);
                assert forall|m: int| held.len() <= m < kept.len() implies (#[trigger] kept[m]).name@
                    != name by {
                    assert(kept[m] == kept.subrange(held.len() as int, kept.len() as int)[m
                        - held.len()]);
                    fresh_origin(added, held, added.len() as int, m - held.len());
                }
                position_in_kept(kept, held, name);
                assert(kept[at].name@ == held[at].name@);
                merge_inserts_new_places(
                    held[at].node,
                    added[from].node,
                    kept[at].node,
                    base.push(name),
                    place.drop_first(),
                    policy,
                );
            } else {
                let fresh_at = fresh_place(added, held, added.len() as int, from);
                assert(kept[held.len() + fresh_at] == kept.subrange(
                    held.len() as int,
                    kept.len() as int,
                )[fresh_at]);
                named_entry_is_child(kept, held.len() + fresh_at);
                let at = position(kept, name, 0);
                if at < held.len() {
                    assert(kept[at].name@ == held[at].name@);
                } else {
                    assert(kept[at] == kept.subrange(held.len() as int, kept.len() as int)[at
                        - held.len()]);
                    let origin = fresh_origin(added, held, added.len() as int, at - held.len());
                    assert(origin == from);
                }
            }
        },
        _ => {},
    }
}

/// A merge is determined: two merges of the same rendered tree into the same
/// application tree hold the same.
pub proof fn merge_is_determined(
    app: FileTree,
    rendered: FileTree,
    first: FileTree,
    second: FileTree,
    path: Seq<Seq<char>>,
    policy: MergePolicy,
)
    requires
        is_merge(app, rendered, first, path, policy),
        is_merge(app, rendered, second, path, policy),
    ensures
        same_tree(first, second),
    decreases app,
{
    match (app, rendered) {
        (FileTree::File(_), FileTree::File(_)) => {
            same_tree_reflexive(first);
        },
        (FileTree::Directory(held_entries), FileTree::Directory(added_entries)) => {
            let held = held_entries@;
            let added = added_entries@;
            let ones = first->Directory_0@;
            let others = second->Directory_0@;
            let fresh = fresh_entries(added, held, added.len() as int);
            assert(ones.subrange(held.len() as int, ones.len() as int).len() == fresh.len());
            assert(others.subrange(held.len() as int, others.len() as int).len() == fresh.len());
            assert forall|i: int| 0 <= i < ones.len() implies (#[trigger] ones[i]).name@
                == others[i].name@ && same_tree(ones[i].node, others[i].node) by {
                if i < held.len() {
                    assert(ones[i].name@ == held[i].name@);
                    assert(others[i].name@ == held[i].name@);
                    if has_child(added, held[i].name@) {
                        merge_is_determined(
                            held[i].node,
                            added[position(added, held[i].name@, 0)].node,
                            ones[i].node,
                            others[i].node,
                            path.push(held[i].name@),
                            policy,
                        );
                    } else {
                        same_tree_reflexive(ones[i].node);
                    }
                } else {
                    assert(ones[i] == ones.subrange(held.len() as int, ones.len() as int)[i
                        - held.len()]);
                    assert(others[i] == others.subrange(held.len() as int, others.len() as int)[i
                        - held.len()]);
                    same_tree_reflexive(ones[i].node);
                }
            }
        },
        _ => {},
    }
}

/// A file at a path that the policy lists is spliced, at any depth: where
/// both trees hold a file at such a place, the merged tree holds there the
/// existing text with the rendered text spliced in.
pub proof fn merge_splices_listed_file(
    app: FileTree,
    rendered: FileTree,
    merged: FileTree,
    base: Seq<Seq<char>>,
    place: Seq<Seq<char>>,
    policy: MergePolicy,
)
    requires
        is_merge(app, rendered, merged, base, policy),
        policy.splices(base + place),
        file_text_at(app, place) is Some,
        file_text_at(rendered, place) is Some,
    ensures
        file_text_at(merged, place) is Some,
        file_text_at(merged, place) == spliced(
            file_text_at(app, place).unwrap(),
            file_text_at(rendered, place).unwrap(),
        ),
    decreases place.len(),
{
    if place.len() == 0 {
        assert(base + place =~= base);
    } else {
        match (app, rendered, merged) {
            (FileTree::Directory(held_entries), FileTree::Directory(added_entries), FileTree::Directory(kept_entries)) => {
                let held = held_entries@;
                let added = added_entries@;
                let kept = kept_entries@;
                let name = place[0];
                let at = position(held, name, 0);
                let from = position(added, name, 0);
                position_bounds(held, name, 0);
                position_bounds(added, name, 0);
                assert forall|m: int| held.len() <= m < kept.len() implies (#[trigger] kept[m]).name@
                    != name by {
                    assert(kept[m] == kept.subrange(held.len() as int, kept.len() as int)[m
                        - held.len()]);
                    fresh_origin(added, held, added.len() as int, m - held.len());
                }
                position_in_kept(kept, held, name);
                assert(kept[at].name@ == held[at].name@);
                assert(base.push(name) + place.drop_first() =~= base + place);
                merge_splices_listed_file(
                    held[at].node,
                    added[from].node,
                    kept[at].node,
                    base.push(name),
                    place.drop_first(),
                    policy,
                );
            },
            _ => {},
        }
    }
}

} // verus!
