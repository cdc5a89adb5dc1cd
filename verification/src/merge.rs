use vstd::prelude::*;
use vstd::string::*;
use crate::definitions::texts;
use crate::error::ScaffoldError;
use crate::file_tree::{child_is_smaller, child_path, clone_path, find_child, has_child};
use crate::file_tree::names_unique;
use crate::file_tree::{position, position_bounds, position_of_entry};
use crate::file_tree::{DirEntry, FileTree};
use crate::splice::{splice_between_markers, spliced};

verus! {

/// Which files are merged by splicing: those at the listed paths, whatever
/// they hold. Every other file that exists already is a conflict unless the
/// rendered content is the content it has.
#[derive(Clone, Debug, PartialEq, Eq)]
pub struct MergePolicy {
    pub splice_targets: Vec<Vec<String>>,
}

impl MergePolicy {
    /// The file at `path` is merged by splicing.
    pub open spec fn splices(&self, path: Seq<Seq<char>>) -> bool {
        exists|k: int|
            0 <= k < self.splice_targets@.len() && texts((#[trigger] self.splice_targets@[k])@)
                == path
    }

    pub fn is_splice_target(&self, path: &Vec<String>) -> (listed: bool)
        ensures
            listed == self.splices(texts(path@)),
    {
        let mut k: usize = 0;
        while k < self.splice_targets.len()
            invariant
                0 <= k <= self.splice_targets@.len(),
                forall|m: int|
                    0 <= m < k ==> texts((#[trigger] self.splice_targets@[m])@) != texts(path@),
            decreases self.splice_targets@.len() - k,
        {
            if same_path(&self.splice_targets[k], path) {
                return true;
            }
            k = k + 1;
        }
        false
    }
}

/// Tells whether two paths have the same segments.
pub fn same_path(left: &Vec<String>, right: &Vec<String>) -> (same: bool)
    ensures
        same == (texts(left@) == texts(right@)),
{
    if left.len() != right.len() {
        assert(texts(left@).len() != texts(right@).len());
        return false;
    }
    let mut i: usize = 0;
    while i < left.len()
        invariant
            0 <= i <= left@.len(),
            left@.len() == right@.len(),
            forall|j: int| 0 <= j < i ==> (#[trigger] left@[j])@ == right@[j]@,
        decreases left@.len() - i,
    {
        if left[i] != right[i] {
            assert(texts(left@)[i as int] != texts(right@)[i as int]);
            return false;
        }
        i = i + 1;
    }
    assert(texts(left@) =~= texts(right@));
    true
}

/// The first `upto` rendered entries whose names the application directory
/// does not hold, in their order.
pub open spec fn fresh_entries(rendered: Seq<DirEntry>, app: Seq<DirEntry>, upto: int) -> Seq<
    DirEntry,
>
    decreases upto,
{
    if upto <= 0 {
        Seq::empty()
    } else {
        let before = fresh_entries(rendered, app, upto - 1);
        if has_child(app, rendered[upto - 1].name@) {
            before
        } else {
            before.push(rendered[upto - 1])
        }
    }
}

/// The rendered tree can be merged into the application tree that stands at
/// `path`: wherever both hold a node, both are directories, or both are
/// files. At a path that the policy lists the existing file holds the marker
/// pair; at any other path the two files have the same content.
pub open spec fn mergeable(
    app: FileTree,
    rendered: FileTree,
    path: Seq<Seq<char>>,
    policy: MergePolicy,
) -> bool
    decreases app,
{
    match (app, rendered) {
        (FileTree::File(existing), FileTree::File(content)) => if policy.splices(path) {
            spliced(existing@, content@) is Some
        } else {
            existing@ == content@
        },
        (FileTree::Directory(held), FileTree::Directory(added)) => forall|i: int|
            0 <= i < held@.len() && has_child(added@, (#[trigger] held@[i]).name@) ==> mergeable(
                held@[i].node,
                added@[position(added@, held@[i].name@, 0)].node,
                path.push(held@[i].name@),
                policy,
            ),
        _ => false,
    }
}

/// `merged` is the application tree at `path` with the rendered tree merged
/// into it. A file at a path that the policy lists has the rendered content
/// spliced in; any other file stays as it is.
/// A directory keeps its children in their places, each merged with the
/// rendered child of its name where there is one, and the rendered children
/// with new names follow them.
pub open spec fn is_merge(
    app: FileTree,
    rendered: FileTree,
    merged: FileTree,
    path: Seq<Seq<char>>,
    policy: MergePolicy,
) -> bool
    decreases app,
{
    match (app, rendered) {
        (FileTree::File(existing), FileTree::File(content)) => if policy.splices(path) {
            merged matches FileTree::File(text) && Some(text@) == spliced(existing@, content@)
        } else {
            merged == app
        },
        (FileTree::Directory(held), FileTree::Directory(added)) => {
            &&& merged matches FileTree::Directory(kept)
            &&& kept@.len() >= held@.len()
            &&& kept@.subrange(held@.len() as int, kept@.len() as int) == fresh_entries(
                added@,
                held@,
                added@.len() as int,
            )
            &&& forall|i: int|
                0 <= i < held@.len() ==> (#[trigger] kept@[i]).name@ == held@[i].name@ && if has_child(
                    added@,
                    held@[i].name@,
                ) {
                    is_merge(
                        held@[i].node,
                        added@[position(added@, held@[i].name@, 0)].node,
                        kept@[i].node,
                        path.push(held@[i].name@),
                        policy,
                    )
                } else {
                    kept@[i].node == held@[i].node
                }
        },
        _ => false,
    }
}

/// `error` is a merge conflict at `path`.
pub open spec fn conflict_at(error: ScaffoldError, path: Seq<Seq<char>>) -> bool {
    match error {
        ScaffoldError::MergeConflict(place) => texts(place@) == path,
        _ => false,
    }
}

/// `error` says that the file at `path` lacks the marker pair.
pub open spec fn markers_missing_at(error: ScaffoldError, path: Seq<Seq<char>>) -> bool {
    match error {
        ScaffoldError::SpliceMarkersMissing(place) => texts(place@) == path,
        _ => false,
    }
}

/// `error` reports a place at which the rendered tree cannot be merged into
/// the application tree that stands at `path`: a file that is spliced and
/// lacks the marker pair, a file with other content that is not spliced, or
/// a file where the other tree holds a directory.
pub open spec fn reports_conflict(
    app: FileTree,
    rendered: FileTree,
    path: Seq<Seq<char>>,
    policy: MergePolicy,
    error: ScaffoldError,
) -> bool
    decreases app,
{
    match (app, rendered) {
        (FileTree::File(existing), FileTree::File(content)) => if policy.splices(path) {
            spliced(existing@, content@) is None && markers_missing_at(error, path)
        } else {
            existing@ != content@ && conflict_at(error, path)
        },
        (FileTree::Directory(held), FileTree::Directory(added)) => exists|i: int|
            0 <= i < held@.len() && has_child(added@, (#[trigger] held@[i]).name@)
                && reports_conflict(
                held@[i].node,
                added@[position(added@, held@[i].name@, 0)].node,
                path.push(held@[i].name@),
                policy,
                error,
            ),
        _ => conflict_at(error, path),
    }
}

/// The first rendered entry at or after `from` that cannot be merged with
/// the child of its name, or the number of rendered entries where every one
/// can.
pub open spec fn first_unmergeable(
    held: Seq<DirEntry>,
    added: Seq<DirEntry>,
    path: Seq<Seq<char>>,
    policy: MergePolicy,
    from: int,
) -> int
    decreases added.len() - from,
{
    if from >= added.len() {
        added.len() as int
    } else if has_child(held, added[from].name@) && !mergeable(
        held[position(held, added[from].name@, 0)].node,
        added[from].node,
        path.push(added[from].name@),
        policy,
    ) {
        from
    } else {
        first_unmergeable(held, added, path, policy, from + 1)
    }
}

/// A place at which two trees cannot be merged, and whether the markers of a
/// spliced file are what is missing there.
pub ghost struct Conflict {
    pub place: Seq<Seq<char>>,
    pub markers_missing: bool,
}

/// The conflict that a merge reports where the trees cannot be merged: in a
/// directory, that of the first rendered entry that cannot be merged.
pub open spec fn first_conflict(
    app: FileTree,
    rendered: FileTree,
    path: Seq<Seq<char>>,
    policy: MergePolicy,
) -> Conflict
    decreases app,
{
    match (app, rendered) {
        (FileTree::File(_), FileTree::File(_)) => Conflict {
            place: path,
            markers_missing: policy.splices(path),
        },
        (FileTree::Directory(held), FileTree::Directory(added)) => {
            let from = first_unmergeable(held@, added@, path, policy, 0);
            if 0 <= from < added@.len() && 0 <= position(held@, added@[from].name@, 0)
                < held@.len() {
                first_conflict(
                    held@[position(held@, added@[from].name@, 0)].node,
                    added@[from].node,
                    path.push(added@[from].name@),
                    policy,
                )
            } else {
                Conflict { place: path, markers_missing: false }
            }
        },
        _ => Conflict { place: path, markers_missing: false },
    }
}

/// `error` is the error that stands for `conflict`.
pub open spec fn is_conflict(error: ScaffoldError, conflict: Conflict) -> bool {
    if conflict.markers_missing {
        markers_missing_at(error, conflict.place)
    } else {
        conflict_at(error, conflict.place)
    }
}

/// Where every rendered entry from `from` up to `at` can be merged and the
/// one at `at` cannot, that one is the first that cannot.
pub proof fn first_unmergeable_found(
    held: Seq<DirEntry>,
    added: Seq<DirEntry>,
    path: Seq<Seq<char>>,
    policy: MergePolicy,
    from: int,
    at: int,
)
    requires
        0 <= from <= at < added.len(),
        has_child(held, added[at].name@),
        !mergeable(
            held[position(held, added[at].name@, 0)].node,
            added[at].node,
            path.push(added[at].name@),
            policy,
        ),
        forall|j: int|
            from <= j < at && has_child(held, (#[trigger] added[j]).name@) ==> mergeable(
                held[position(held, added[j].name@, 0)].node,
                added[j].node,
                path.push(added[j].name@),
                policy,
            ),
    ensures
        first_unmergeable(held, added, path, policy, from) == at,
    decreases at - from,
{
    if from < at {
        first_unmergeable_found(held, added, path, policy, from + 1, at);
    }
}

/// Where a conflict is reported the trees cannot be merged.
pub proof fn conflict_excludes_merge(
    app: FileTree,
    rendered: FileTree,
    path: Seq<Seq<char>>,
    policy: MergePolicy,
    error: ScaffoldError,
)
    requires
        reports_conflict(app, rendered, path, policy, error),
    ensures
        !mergeable(app, rendered, path, policy),
    decreases app,
{
    match (app, rendered) {
        (FileTree::Directory(held), FileTree::Directory(added)) => {
            let i = choose|i: int|
                0 <= i < held@.len() && has_child(added@, (#[trigger] held@[i]).name@)
                    && reports_conflict(
                    held@[i].node,
                    added@[position(added@, held@[i].name@, 0)].node,
                    path.push(held@[i].name@),
                    policy,
                    error,
                );
            conflict_excludes_merge(
                held@[i].node,
                added@[position(added@, held@[i].name@, 0)].node,
                path.push(held@[i].name@),
                policy,
                error,
            );
        },
        _ => {},
    }
}

/// A rendered entry that is still to come differs in name from every fresh
/// entry taken so far.
pub proof fn fresh_names_differ(rendered: Seq<DirEntry>, app: Seq<DirEntry>, upto: int, later: int)
    requires
        names_unique(rendered),
        0 <= upto <= later < rendered.len(),
    ensures
        fresh_entries(rendered, app, upto).len() <= upto,
        forall|m: int|
            0 <= m < fresh_entries(rendered, app, upto).len() ==> (#[trigger] fresh_entries(
                rendered,
                app,
                upto,
            )[m]).name@ != rendered[later].name@,
    decreases upto,
{
    if upto > 0 {
        fresh_names_differ(rendered, app, upto - 1, later);
        assert(rendered[upto - 1].name@ != rendered[later].name@);
    }
}

/// In a directory that begins with the names of `held` and goes on with
/// entries of other names than `name`, the name stands where it stands in
/// `held`.
pub proof fn position_in_kept(kept: Seq<DirEntry>, held: Seq<DirEntry>, name: Seq<char>)
    requires
        kept.len() >= held.len(),
        forall|i: int| 0 <= i < held.len() ==> (#[trigger] kept[i]).name@ == held[i].name@,
        forall|m: int| held.len() <= m < kept.len() ==> (#[trigger] kept[m]).name@ != name,
    ensures
        has_child(kept, name) == has_child(held, name),
        has_child(held, name) ==> position(kept, name, 0) == position(held, name, 0),
{
    position_bounds(kept, name, 0);
    position_bounds(held, name, 0);
    let in_kept = position(kept, name, 0);
    let in_held = position(held, name, 0);
    if in_kept < kept.len() {
        assert(kept[in_kept].name@ == name);
        assert(in_kept < held.len());
        assert(held[in_kept].name@ == name);
    }
    if in_held < held.len() {
        assert(kept[in_held].name@ == name);
    }
}

/// Merges a rendered tree into the application tree that stands at `path`.
///
/// Nodes that only one tree holds are kept. Directories are merged child by
/// child. A file that both hold is spliced where the policy lists its path,
/// and the marker pair must be there. Elsewhere it stays as it is where the
/// rendered content is the content it has, and is a conflict where it is
/// not. A file against a directory is a conflict. On a conflict nothing is
/// merged and the error names the place.
#[verifier::rlimit(100)]
pub fn merge_at(app: FileTree, rendered: FileTree, path: &Vec<String>, policy: &MergePolicy) -> (outcome:
    Result<FileTree, ScaffoldError>)
    requires
        app.wf(),
        rendered.wf(),
    ensures
        match outcome {
            Ok(merged) => mergeable(app, rendered, texts(path@), *policy) && is_merge(
                app,
                rendered,
                merged,
                texts(path@),
                *policy,
            ) && merged.wf(),
            Err(error) => !mergeable(app, rendered, texts(path@), *policy) && reports_conflict(
                app,
                rendered,
                texts(path@),
                *policy,
                error,
            ) && is_conflict(error, first_conflict(app, rendered, texts(path@), *policy)),
        },
    decreases app,
{
    match (app, rendered) {
        (FileTree::File(existing), FileTree::File(content)) => {
            if policy.is_splice_target(path) {
                match splice_between_markers(existing.as_str(), content.as_str()) {
                    Some(text) => Ok(FileTree::File(text)),
                    None => Err(ScaffoldError::SpliceMarkersMissing(clone_path(path))),
                }
            } else if existing == content {
                Ok(FileTree::File(existing))
            } else {
                Err(ScaffoldError::MergeConflict(clone_path(path)))
            }
        },
        (FileTree::Directory(held), FileTree::Directory(added)) => {
            let ghost held_entries = held;
            let ghost added_entries = added;
            let ghost held0 = held@;
            let ghost added0 = added@;
            let ghost here = texts(path@);
            proof {
                assert forall|i: int| 0 <= i < held0.len() implies 0 <= position(
                    added0,
                    (#[trigger] held0[i]).name@,
                    0,
                ) by {
                    position_bounds(added0, held0[i].name@, 0);
                }
            }
            let mut kept = held;
            let mut rest = added;
            let mut done: usize = 0;
            let total: usize = rest.len();
            assert(kept@.subrange(held0.len() as int, kept@.len() as int) =~= fresh_entries(
                added0,
                held0,
                0,
            ));
            assert(rest@ =~= added0.subrange(0, added0.len() as int));
            while done < total
                invariant
                    0 <= done <= total == added0.len(),
                    here == texts(path@),
                    app == FileTree::Directory(held_entries),
                    rendered == FileTree::Directory(added_entries),
                    held0 == held_entries@,
                    added0 == added_entries@,
                    rest@ == added0.subrange(done as int, added0.len() as int),
                    names_unique(held0),
                    names_unique(added0),
                    forall|i: int| 0 <= i < held0.len() ==> (#[trigger] held0[i]).node.wf(),
                    forall|j: int| 0 <= j < added0.len() ==> (#[trigger] added0[j]).node.wf(),
                    kept@.len() >= held0.len(),
                    kept@.subrange(held0.len() as int, kept@.len() as int) == fresh_entries(
                        added0,
                        held0,
                        done as int,
                    ),
                    names_unique(kept@),
                    forall|i: int| 0 <= i < kept@.len() ==> (#[trigger] kept@[i]).node.wf(),
                    forall|i: int|
                        0 <= i < held0.len() ==> (#[trigger] kept@[i]).name@ == held0[i].name@
                            && if position(added0, held0[i].name@, 0) < done {
                            &&& mergeable(
                                held0[i].node,
                                added0[position(added0, held0[i].name@, 0)].node,
                                here.push(held0[i].name@),
                                *policy,
                            )
                            &&& is_merge(
                                held0[i].node,
                                added0[position(added0, held0[i].name@, 0)].node,
                                kept@[i].node,
                                here.push(held0[i].name@),
                                *policy,
                            )
                        } else {
                            kept@[i].node == held0[i].node
                        },
                decreases total - done,
            {
                let ghost kept_before = kept@;
                let ghost fresh_before = fresh_entries(added0, held0, done as int);
                let entry = rest.remove(0);
                assert(entry == added0[done as int]);
                assert(rest@ =~= added0.subrange(done + 1, added0.len() as int));
                let ghost name = entry.name@;
                proof {
                    fresh_names_differ(added0, held0, done as int, done as int);
                    assert forall|m: int| held0.len() <= m < kept_before.len() implies (
                    #[trigger] kept_before[m]).name@ != name by {
                        assert(kept_before[m] == kept_before.subrange(
                            held0.len() as int,
                            kept_before.len() as int,
                        )[m - held0.len()]);
                    }
                    position_in_kept(kept_before, held0, name);
                    position_bounds(held0, name, 0);
                    position_bounds(added0, name, 0);
                    assert forall|i: int| 0 <= i < held0.len() implies (position(
                        added0,
                        (#[trigger] held0[i]).name@,
                        0,
                    ) == done) == (held0[i].name@ == name) by {
                        position_bounds(added0, held0[i].name@, 0);
                    }
                }
                match find_child(&kept, entry.name.as_str()) {
                    None => {
                        kept.push(entry);
                        proof {
                            assert(kept@.subrange(held0.len() as int, kept@.len() as int)
                                =~= fresh_before.push(entry));
                            assert forall|a: int, b: int| 0 <= a < b < kept@.len() implies (
                            #[trigger] kept@[a]).name@ != (#[trigger] kept@[b]).name@ by {
                                if b == kept@.len() - 1 {
                                    position_bounds(kept_before, name, 0);
                                    assert(kept_before[a].name@ != name);
                                } else {
                                    assert(kept@[a] == kept_before[a]);
                                    assert(kept@[b] == kept_before[b]);
                                }
                            }
                        }
                    },
                    Some(at) => {
                        let old_entry = kept.remove(at);
                        let longer = child_path(path, &old_entry.name);
                        assert(old_entry == kept_before[at as int]);
                        assert(old_entry.node == held0[at as int].node);
                        proof {
                            child_is_smaller(app, held_entries, at as int);
                        }
                        match merge_at(old_entry.node, entry.node, &longer, policy) {
                            Err(error) => {
                                proof {
                                    assert(has_child(added0, held0[at as int].name@));
                                    assert(reports_conflict(
                                        app,
                                        rendered,
                                        here,
                                        *policy,
                                        error,
                                    ));
                                    conflict_excludes_merge(app, rendered, here, *policy, error);
                                    assert forall|j: int|
                                        0 <= j < done && has_child(
                                            held0,
                                            (#[trigger] added0[j]).name@,
                                        ) implies mergeable(
                                        held0[position(held0, added0[j].name@, 0)].node,
                                        added0[j].node,
                                        here.push(added0[j].name@),
                                        *policy,
                                    ) by {
                                        let i = position(held0, added0[j].name@, 0);
                                        position_bounds(held0, added0[j].name@, 0);
                                        position_of_entry(added0, j);
                                        assert(kept_before[i].name@ == held0[i].name@);
                                    }
                                    conflict_excludes_merge(
                                        held0[at as int].node,
                                        added0[done as int].node,
                                        here.push(name),
                                        *policy,
                                        error,
                                    );
                                    first_unmergeable_found(
                                        held0,
                                        added0,
                                        here,
                                        *policy,
                                        0,
                                        done as int,
                                    );
                                }
                                return Err(error);
                            },
                            Ok(merged_node) => {
                                kept.insert(
                                    at,
                                    DirEntry { name: old_entry.name, node: merged_node },
                                );
                                proof {
                                    assert(kept@.len() == kept_before.len());
                                    assert forall|i: int| 0 <= i < kept@.len() && i != at implies kept@[i]
                                        == kept_before[i] by {}
                                    assert(kept@[at as int].name == kept_before[at as int].name);
                                    assert(kept@.subrange(held0.len() as int, kept@.len() as int)
                                        =~= fresh_before);
                                }
                            },
                        }
                    },
                }
                done = done + 1;
            }
            let merged = FileTree::Directory(kept);
            proof {
                assert forall|i: int|
                    0 <= i < held0.len() && has_child(added0, (#[trigger] held0[i]).name@) implies mergeable(
                    held0[i].node,
                    added0[position(added0, held0[i].name@, 0)].node,
                    here.push(held0[i].name@),
                    *policy,
                ) by {
                    assert(kept@[i].name@ == held0[i].name@);
                }
                assert(mergeable(app, rendered, here, *policy));
                assert(is_merge(app, rendered, merged, here, *policy));
                assert(merged.wf());
            }
            Ok(merged)
        },
        (FileTree::File(_), FileTree::Directory(_)) => Err(
            ScaffoldError::MergeConflict(clone_path(path)),
        ),
        (FileTree::Directory(_), FileTree::File(_)) => Err(
            ScaffoldError::MergeConflict(clone_path(path)),
        ),
    }
}

/// Merges a rendered tree into an application tree, both taken from their
/// roots.
pub fn merge_file_trees(app: FileTree, rendered: FileTree, policy: &MergePolicy) -> (outcome: Result<
    FileTree,
    ScaffoldError,
>)
    requires
        app.wf(),
        rendered.wf(),
    ensures
        match outcome {
            Ok(merged) => mergeable(app, rendered, Seq::empty(), *policy) && is_merge(
                app,
                rendered,
                merged,
                Seq::empty(),
                *policy,
            ) && merged.wf(),
            Err(error) => !mergeable(app, rendered, Seq::empty(), *policy) && reports_conflict(
                app,
                rendered,
                Seq::empty(),
                *policy,
                error,
            ) && is_conflict(error, first_conflict(app, rendered, Seq::empty(), *policy)),
        },
{
    let root: Vec<String> = Vec::new();
    assert(texts(root@) =~= Seq::<Seq<char>>::empty());
    merge_at(app, rendered, &root, policy)
}

} // verus!
