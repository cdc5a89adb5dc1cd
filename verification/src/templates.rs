use vstd::prelude::*;
use vstd::string::*;
use crate::definitions::texts;
use crate::error::ScaffoldError;
use crate::file_tree::{file_content, take_path, DirEntry, FileTree};
use crate::file_tree::is_well_formed;
use crate::merge::{first_conflict, is_conflict, is_merge, merge_file_trees, mergeable};
use crate::merge::{reports_conflict, MergePolicy};
use crate::render::{is_rendering, render_tree, rendering_fails};

verus! {

/// What scaffolding gives back: the application tree with the rendered
/// templates merged in, and what the user should do next, if the templates
/// say so.
#[derive(Debug, PartialEq, Eq)]
pub struct ScaffoldedTemplate {
    pub file_tree: FileTree,
    pub next_instructions: Option<String>,
}

/// Where a template set keeps the templates of an entry type.
pub open spec fn entry_type_path() -> Seq<Seq<char>> {
    seq!["entry-type"@]
}

/// Where a template set keeps the instructions that follow the scaffolding
/// of an entry type.
pub open spec fn entry_type_instructions_path() -> Seq<Seq<char>> {
    seq!["entry-type.instructions.hbs"@]
}

/// Where a template set keeps the templates of a link type.
pub open spec fn link_type_path() -> Seq<Seq<char>> {
    seq!["link-type"@]
}

/// Where a repository keeps its template sets.
pub open spec fn templates_path() -> Seq<char> {
    ".templates"@
}

/// The templates of an entry type, where the template set has any.
pub fn entry_type_templates(template_file_tree: &FileTree) -> (templates: Option<&FileTree>)
    ensures
        match templates {
            Some(node) => template_file_tree.lookup(entry_type_path()) == Some(*node),
            None => template_file_tree.lookup(entry_type_path()) is None,
        },
{
    let mut segments: Vec<String> = Vec::new();
    segments.push(String::from_str("entry-type"));
    assert(texts(segments@) =~= entry_type_path());
    template_file_tree.path(&segments)
}

/// The template of the instructions that follow the scaffolding of an entry
/// type, where the template set holds that file.
pub open spec fn instructions_template(template_file_tree: FileTree) -> Option<String> {
    match template_file_tree.lookup(entry_type_instructions_path()) {
        Some(FileTree::File(text)) => Some(text),
        _ => None,
    }
}

pub fn entry_type_instructions(template_file_tree: &FileTree) -> (template: Option<&String>)
    ensures
        match template {
            Some(text) => instructions_template(*template_file_tree) == Some(*text),
            None => instructions_template(*template_file_tree) is None,
        },
{
    let mut segments: Vec<String> = Vec::new();
    segments.push(String::from_str("entry-type.instructions.hbs"));
    assert(texts(segments@) =~= entry_type_instructions_path());
    match template_file_tree.path(&segments) {
        Some(node) => node.file_content(),
        None => None,
    }
}

/// The templates of a link type, where the template set has any.
pub fn link_type_templates(template_file_tree: &FileTree) -> (templates: Option<&FileTree>)
    ensures
        match templates {
            Some(node) => template_file_tree.lookup(link_type_path()) == Some(*node),
            None => template_file_tree.lookup(link_type_path()) is None,
        },
{
    let mut segments: Vec<String> = Vec::new();
    segments.push(String::from_str("link-type"));
    assert(texts(segments@) =~= link_type_path());
    template_file_tree.path(&segments)
}

/// The message for templates that render to one name in one directory.
pub open spec fn colliding_names_message() -> Seq<char> {
    "Two templates render to the same name"@
}

/// `outcome` is what merging `rendered` into the application tree gives: the
/// refusal of a rendered tree with two children of one name in a directory,
/// else the merged tree or the conflict.
pub open spec fn merge_outcome(
    app: FileTree,
    rendered: FileTree,
    policy: MergePolicy,
    outcome: Result<FileTree, ScaffoldError>,
) -> bool {
    if !rendered.wf() {
        match outcome {
            Err(ScaffoldError::MalformedTemplate(message)) => message@ == colliding_names_message(),
            _ => false,
        }
    } else {
        match outcome {
            Ok(merged) => mergeable(app, rendered, Seq::empty(), policy) && is_merge(
                app,
                rendered,
                merged,
                Seq::empty(),
                policy,
            ) && merged.wf(),
            Err(error) => !mergeable(app, rendered, Seq::empty(), policy) && reports_conflict(
                app,
                rendered,
                Seq::empty(),
                policy,
                error,
            ) && is_conflict(error, first_conflict(app, rendered, Seq::empty(), policy)),
        }
    }
}

/// Merges a rendered tree into the application tree, after making sure that
/// the rendering left the names in every directory unique.
pub fn merge_rendered(app_file_tree: FileTree, rendered: FileTree, policy: &MergePolicy) -> (outcome:
    Result<FileTree, ScaffoldError>)
    requires
        app_file_tree.wf(),
    ensures
        merge_outcome(app_file_tree, rendered, *policy, outcome),
{
    if !is_well_formed(&rendered) {
        Err(
            ScaffoldError::MalformedTemplate(
                String::from_str("Two templates render to the same name"),
            ),
        )
    } else {
        merge_file_trees(app_file_tree, rendered, policy)
    }
}

/// `outcome` is what rendering `template` and merging the result into the
/// application tree gives: a refusal of the engine, or the outcome of the
/// merge of some rendering of the template.
pub open spec fn render_and_merge_outcome<F: Fn(String) -> Result<String, String>>(
    app: FileTree,
    render: F,
    template: FileTree,
    policy: MergePolicy,
    outcome: Result<FileTree, ScaffoldError>,
) -> bool {
    ||| match outcome {
        Err(ScaffoldError::TemplateError(place, message)) => rendering_fails(
            render,
            template,
            Seq::empty(),
            texts(place@),
            message,
        ),
        _ => false,
    }
    ||| exists|rendered: FileTree| #[trigger]
        is_rendering(render, template, rendered) && merge_outcome(app, rendered, policy, outcome)
}

/// Renders a template tree and merges the result into the application tree.
pub fn render_and_merge<F: Fn(String) -> Result<String, String>>(
    app_file_tree: FileTree,
    render: &F,
    template: &FileTree,
    policy: &MergePolicy,
) -> (outcome: Result<FileTree, ScaffoldError>)
    requires
        app_file_tree.wf(),
        forall|text: String| call_requires(*render, (text,)),
    ensures
        render_and_merge_outcome(app_file_tree, *render, *template, *policy, outcome),
{
    let root: Vec<String> = Vec::new();
    assert(texts(root@) =~= Seq::<Seq<char>>::empty());
    match render_tree(render, template, &root) {
        Err(error) => Err(error),
        Ok(rendered) => merge_rendered(app_file_tree, rendered, policy),
    }
}

/// `outcome` is what scaffolding the templates at `place` of a template set
/// gives: the application tree as it is where the set has no such
/// templates, else the outcome of rendering and merging them.
pub open spec fn scaffold_outcome<F: Fn(String) -> Result<String, String>>(
    app: FileTree,
    render: F,
    template_file_tree: FileTree,
    place: Seq<Seq<char>>,
    policy: MergePolicy,
    outcome: Result<FileTree, ScaffoldError>,
) -> bool {
    match template_file_tree.lookup(place) {
        None => outcome == Ok::<FileTree, ScaffoldError>(app),
        Some(template) => render_and_merge_outcome(app, render, template, policy, outcome),
    }
}

/// Renders the templates of a link type and merges them into the
/// application tree. Without such templates the tree stays as it is.
pub fn scaffold_link_type_templates<F: Fn(String) -> Result<String, String>>(
    app_file_tree: FileTree,
    template_file_tree: &FileTree,
    render: &F,
    policy: &MergePolicy,
) -> (outcome: Result<FileTree, ScaffoldError>)
    requires
        app_file_tree.wf(),
        forall|text: String| call_requires(*render, (text,)),
    ensures
        scaffold_outcome(
            app_file_tree,
            *render,
            *template_file_tree,
            link_type_path(),
            *policy,
            outcome,
        ),
{
    match link_type_templates(template_file_tree) {
        None => Ok(app_file_tree),
        Some(template) => render_and_merge(app_file_tree, render, template, policy),
    }
}

/// `next` is what rendering the instructions of a template set gives:
/// nothing where the set holds none, else what the engine made of them.
pub open spec fn instructions_outcome<F: Fn(String) -> Result<String, String>>(
    render: F,
    template_file_tree: FileTree,
    next: Result<Option<String>, String>,
) -> bool {
    match instructions_template(template_file_tree) {
        None => next == Ok::<Option<String>, String>(None),
        Some(template) => match next {
            Ok(Some(text)) => call_ensures(render, (template,), Ok::<String, String>(text)),
            Ok(None) => false,
            Err(message) => call_ensures(render, (template,), Err::<String, String>(message)),
        },
    }
}

/// `error` is the refusal of the instructions of a template set by the
/// engine.
pub open spec fn instructions_refused<F: Fn(String) -> Result<String, String>>(
    render: F,
    template_file_tree: FileTree,
    error: ScaffoldError,
) -> bool {
    match error {
        ScaffoldError::TemplateError(place, message) => texts(place@)
            == entry_type_instructions_path() && instructions_outcome(
            render,
            template_file_tree,
            Err(message),
        ),
        _ => false,
    }
}

/// Renders the templates of an entry type and merges them into the
/// application tree, then renders the instructions that follow, where the
/// template set has any. Without templates the tree stays as it is; without
/// instructions none are returned. The instructions are rendered only once
/// the merge has succeeded, so a conflict is reported as the conflict it is.
pub fn scaffold_entry_type_templates<F: Fn(String) -> Result<String, String>>(
    app_file_tree: FileTree,
    template_file_tree: &FileTree,
    render: &F,
    policy: &MergePolicy,
) -> (outcome: Result<ScaffoldedTemplate, ScaffoldError>)
    requires
        app_file_tree.wf(),
        forall|text: String| call_requires(*render, (text,)),
    ensures
        match outcome {
            Ok(scaffolded) => scaffold_outcome(
                app_file_tree,
                *render,
                *template_file_tree,
                entry_type_path(),
                *policy,
                Ok(scaffolded.file_tree),
            ) && instructions_outcome(
                *render,
                *template_file_tree,
                Ok(scaffolded.next_instructions),
            ),
            Err(error) => scaffold_outcome(
                app_file_tree,
                *render,
                *template_file_tree,
                entry_type_path(),
                *policy,
                Err(error),
            ) || (instructions_refused(*render, *template_file_tree, error) && exists|
                tree: FileTree,
            |
                #[trigger] scaffold_outcome(
                    app_file_tree,
                    *render,
                    *template_file_tree,
                    entry_type_path(),
                    *policy,
                    Ok(tree),
                )),
        },
{
    let merged = match entry_type_templates(template_file_tree) {
        None => Ok(app_file_tree),
        Some(template) => render_and_merge(app_file_tree, render, template, policy),
    };
    match merged {
        Err(error) => Err(error),
        Ok(file_tree) => match entry_type_instructions(template_file_tree) {
            None => Ok(ScaffoldedTemplate { file_tree, next_instructions: None }),
            Some(template) => match render(template.clone()) {
                Ok(text) => Ok(ScaffoldedTemplate { file_tree, next_instructions: Some(text) }),
                Err(message) => {
                    assert(scaffold_outcome(
                        app_file_tree,
                        *render,
                        *template_file_tree,
                        entry_type_path(),
                        *policy,
                        Ok(file_tree),
                    ));
                    let mut place: Vec<String> = Vec::new();
                    place.push(String::from_str("entry-type.instructions.hbs"));
                    assert(texts(place@) =~= entry_type_instructions_path());
                    Err(ScaffoldError::TemplateError(place, message))
                },
            },
        },
    }
}

/// Picks the template set `template_name` out of a repository that was
/// loaded into memory: the directory of that name among the repository's
/// template sets. Anything else at that place, or nothing, is refused with
/// the path.
pub fn get_template(repository: FileTree, template_name: String) -> (outcome: Result<
    (String, FileTree),
    ScaffoldError,
>)
    ensures
        match outcome {
            Ok((name, templates)) => name == template_name && templates is Directory
                && repository.lookup(seq![templates_path(), template_name@]) == Some(templates),
            Err(ScaffoldError::PathNotFound(place)) => texts(place@) == seq![
                templates_path(),
                template_name@,
            ] && !(repository.lookup(seq![templates_path(), template_name@]) matches Some(
                FileTree::Directory(_),
            )),
            Err(_) => false,
        },
{
    let mut segments: Vec<String> = Vec::new();
    segments.push(String::from_str(".templates"));
    segments.push(template_name.clone());
    assert(texts(segments@) =~= seq![templates_path(), template_name@]);
    match take_path(repository, &segments) {
        Some(FileTree::Directory(entries)) => Ok((template_name, FileTree::Directory(entries))),
        _ => Err(ScaffoldError::PathNotFound(segments)),
    }
}

/// The names of the first `upto` entries that are directories, in order.
pub open spec fn directory_names(entries: Seq<DirEntry>, upto: int) -> Seq<Seq<char>>
    decreases upto,
{
    if upto <= 0 {
        Seq::empty()
    } else if entries[upto - 1].node is Directory {
        directory_names(entries, upto - 1).push(entries[upto - 1].name@)
    } else {
        directory_names(entries, upto - 1)
    }
}

/// The names of the template sets of a tree: of the directories among the
/// children of its directory of template sets.
pub open spec fn template_set_names(file_tree: FileTree) -> Seq<Seq<char>> {
    match file_tree.lookup(seq![templates_path()]) {
        Some(FileTree::Directory(entries)) => directory_names(entries@, entries@.len() as int),
        _ => Seq::empty(),
    }
}

/// Lists the template sets of a tree by name.
pub fn list_template_sets(file_tree: &FileTree) -> (names: Vec<String>)
    ensures
        texts(names@) == template_set_names(*file_tree),
{
    let mut segments: Vec<String> = Vec::new();
    segments.push(String::from_str(".templates"));
    assert(texts(segments@) =~= seq![templates_path()]);
    let mut names: Vec<String> = Vec::new();
    match file_tree.path(&segments) {
        Some(FileTree::Directory(entries)) => {
            let mut i: usize = 0;
            assert(texts(names@) =~= directory_names(entries@, 0));
            while i < entries.len()
                invariant
                    0 <= i <= entries@.len(),
                    texts(names@) == directory_names(entries@, i as int),
                decreases entries@.len() - i,
            {
                let ghost before = names@;
                match &entries[i].node {
                    FileTree::Directory(_) => {
                        names.push(entries[i].name.clone());
                        assert(texts(names@) =~= texts(before).push(entries@[i as int].name@));
                    },
                    FileTree::File(_) => {},
                }
                i = i + 1;
            }
            names
        },
        _ => {
            assert(texts(names@) =~= Seq::<Seq<char>>::empty());
            names
        },
    }
}

/// Which template set to use: this one, or the one that the user picks.
#[derive(Clone, Debug, PartialEq, Eq)]
pub enum TemplateChoice {
    Template(String),
    Ask,
}

/// One of the names is `name`.
pub open spec fn holds_name(names: Seq<String>, name: Seq<char>) -> bool {
    exists|i: int| 0 <= i < names.len() && (#[trigger] names[i])@ == name
}

/// What choosing among the template sets `names` comes to, with the wish
/// `template`: `Ok(None)` stands for asking the user, `Err(None)` for no
/// template sets at all, `Err(Some(..))` for a wish that names none of them.
pub open spec fn template_choice(names: Seq<String>, template: Option<String>) -> Result<
    Option<Seq<char>>,
    Option<Seq<char>>,
> {
    if names.len() == 0 {
        Err(None)
    } else {
        match template {
            Some(wanted) => if holds_name(names, wanted@) {
                Ok(Some(wanted@))
            } else {
                Err(Some(wanted@))
            },
            None => if names.len() == 1 {
                Ok(Some(names[0]@))
            } else {
                Ok(None)
            },
        }
    }
}

/// Decides which template set to use. Without template sets there is
/// nothing to choose. A wish is followed where a set has that name and
/// refused where none has. Without a wish the only set is taken, and among
/// several the user is asked.
pub fn choose_or_get_template(names: &Vec<String>, template: &Option<String>) -> (choice: Result<
    TemplateChoice,
    ScaffoldError,
>)
    ensures
        match choice {
            Ok(TemplateChoice::Template(name)) => template_choice(names@, *template) == Ok::<
                Option<Seq<char>>,
                Option<Seq<char>>,
            >(Some(name@)),
            Ok(TemplateChoice::Ask) => template_choice(names@, *template) == Ok::<
                Option<Seq<char>>,
                Option<Seq<char>>,
            >(None),
            Err(ScaffoldError::NoTemplatesFound) => template_choice(names@, *template) == Err::<
                Option<Seq<char>>,
                Option<Seq<char>>,
            >(None),
            Err(ScaffoldError::TemplateNotFound(name)) => template_choice(names@, *template)
                == Err::<Option<Seq<char>>, Option<Seq<char>>>(Some(name@)),
            Err(_) => false,
        },
{
    if names.len() == 0 {
        return Err(ScaffoldError::NoTemplatesFound);
    }
    match template {
        Some(wanted) => {
            let mut i: usize = 0;
            while i < names.len()
                invariant
                    0 <= i <= names@.len(),
                    names@.len() > 0,
                    *template == Some(*wanted),
                    forall|j: int| 0 <= j < i ==> (#[trigger] names@[j])@ != wanted@,
                decreases names@.len() - i,
            {
                if names[i] == *wanted {
                    assert(names@[i as int]@ == wanted@);
                    return Ok(TemplateChoice::Template(wanted.clone()));
                }
                i = i + 1;
            }
            Err(ScaffoldError::TemplateNotFound(wanted.clone()))
        },
        None => {
            if names.len() == 1 {
                Ok(TemplateChoice::Template(names[0].clone()))
            } else {
                Ok(TemplateChoice::Ask)
            }
        },
    }
}

/// The error of choosing a template set, as it reads where the sets come
/// from a repository that was fetched.
pub fn in_fetched_repository(error: ScaffoldError) -> (reported: ScaffoldError)
    ensures
        reported == (match error {
            ScaffoldError::NoTemplatesFound => ScaffoldError::NoTemplatesFoundInGitRepo,
            _ => error,
        }),
{
    match error {
        ScaffoldError::NoTemplatesFound => ScaffoldError::NoTemplatesFoundInGitRepo,
        other => other,
    }
}

} // verus!
