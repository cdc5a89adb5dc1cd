use vstd::prelude::*;
use crate::error::ScaffoldError;
use crate::file_tree::{same_tree, same_trees_hold_the_same_places, FileTree};
use crate::merge::MergePolicy;
use crate::merge_laws::{file_text_at, merge_is_determined, merge_is_idempotent};
use crate::merge_laws::merge_splices_listed_file;
use crate::render::is_rendering;
use crate::splice::{kept_head, kept_tail, splice_keeps_outside};
use crate::templates::{merge_outcome, scaffold_outcome};

verus! {

/// Scaffolding twice is scaffolding once, where no file is spliced: after a
/// first run has merged a rendering into the application tree, a second run
/// with the same rendering succeeds, without conflict, and its tree holds
/// the same as the tree of the first run: the same places, with the same
/// content, and no place more.
pub proof fn second_merge_gives_the_same_tree(
    app: FileTree,
    rendered: FileTree,
    policy: MergePolicy,
    once: FileTree,
    again: Result<FileTree, ScaffoldError>,
)
    requires
        app.wf(),
        policy.splice_targets@.len() == 0,
        merge_outcome(app, rendered, policy, Ok(once)),
        merge_outcome(once, rendered, policy, again),
    ensures
        again is Ok,
        same_tree(again->Ok_0, once),
        forall|place: Seq<Seq<char>>| #[trigger]
            again->Ok_0.lookup(place) is Some <==> once.lookup(place) is Some,
{
    merge_is_idempotent(app, rendered, once, Seq::empty(), policy);
    merge_is_determined(once, rendered, again->Ok_0, once, Seq::empty(), policy);
    assert forall|place: Seq<Seq<char>>| #[trigger]
        again->Ok_0.lookup(place) is Some <==> once.lookup(place) is Some by {
        same_trees_hold_the_same_places(again->Ok_0, once, place);
    }
}

/// The tree that a run of the scaffolding has given is an outcome of the
/// next run on that tree, where no file is spliced: nothing is inserted and
/// nothing conflicts.
pub proof fn scaffolding_again_changes_nothing<F: Fn(String) -> Result<String, String>>(
    app: FileTree,
    render: F,
    template_file_tree: FileTree,
    place: Seq<Seq<char>>,
    policy: MergePolicy,
    once: FileTree,
)
    requires
        app.wf(),
        policy.splice_targets@.len() == 0,
        scaffold_outcome(app, render, template_file_tree, place, policy, Ok(once)),
    ensures
        scaffold_outcome(once, render, template_file_tree, place, policy, Ok(once)),
{
    match template_file_tree.lookup(place) {
        None => {},
        Some(template) => {
            let rendered = choose|rendered: FileTree| #[trigger]
                is_rendering(render, template, rendered) && merge_outcome(
                    app,
                    rendered,
                    policy,
                    Ok(once),
                );
            merge_is_idempotent(app, rendered, once, Seq::empty(), policy);
            assert(is_rendering(render, template, rendered) && merge_outcome(
                once,
                rendered,
                policy,
                Ok(once),
            ));
        },
    }
}

/// The scaffolding splices a listed file and leaves the rest of it alone:
/// where a run has given a tree, it has merged a rendering of the templates,
/// and a file that the application tree and that rendering both hold at a
/// listed place reads, in the tree of the run, as the existing text up to the
/// end of the line of the start marker, then the rendered text, then the
/// existing text from the line of the end marker on.
pub proof fn scaffolding_splices_listed_files<F: Fn(String) -> Result<String, String>>(
    app: FileTree,
    render: F,
    template_file_tree: FileTree,
    place: Seq<Seq<char>>,
    policy: MergePolicy,
    scaffolded: FileTree,
    listed: Seq<Seq<char>>,
)
    requires
        template_file_tree.lookup(place) is Some,
        scaffold_outcome(app, render, template_file_tree, place, policy, Ok(scaffolded)),
        policy.splices(listed),
        file_text_at(app, listed) is Some,
    ensures
        exists|rendered: FileTree| #[trigger]
            is_rendering(render, template_file_tree.lookup(place).unwrap(), rendered)
                && merge_outcome(app, rendered, policy, Ok(scaffolded)) && (file_text_at(
                rendered,
                listed,
            ) matches Some(block) ==> {
                let existing = file_text_at(app, listed).unwrap();
                &&& 0 <= kept_head(existing) <= kept_tail(existing) <= existing.len()
                &&& file_text_at(scaffolded, listed) == Some(
                    existing.subrange(0, kept_head(existing)) + block + existing.subrange(
                        kept_tail(existing),
                        existing.len() as int,
                    ),
                )
            }),
{
    let template = template_file_tree.lookup(place).unwrap();
    let rendered = choose|rendered: FileTree| #[trigger]
        is_rendering(render, template, rendered) && merge_outcome(
            app,
            rendered,
            policy,
            Ok(scaffolded),
        );
    if file_text_at(rendered, listed) is Some {
        let existing = file_text_at(app, listed).unwrap();
        let block = file_text_at(rendered, listed).unwrap();
        assert(Seq::<Seq<char>>::empty() + listed =~= listed);
        merge_splices_listed_file(app, rendered, scaffolded, Seq::empty(), listed, policy);
        splice_keeps_outside(existing, block);
    }
}

} // verus!
