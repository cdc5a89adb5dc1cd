use vstd::prelude::*;
use vstd::string::*;
use crate::error::ScaffoldError;
use crate::definitions::texts;
use crate::file_tree::{child_is_smaller, child_path, clone_path, DirEntry, FileTree};
use crate::splice::{contains, contains_text};

verus! {

/// A text holds markup for the template engine.
pub open spec fn has_markup(text: Seq<char>) -> bool {
    contains_text(text, "{{"@)
}

/// `out` is what rendering makes of `source`: what the engine gave for it
/// where it holds markup, else the text itself.
pub open spec fn text_rendered<F: Fn(String) -> Result<String, String>>(
    render: F,
    source: String,
    out: Result<String, String>,
) -> bool {
    if has_markup(source@) {
        call_ensures(render, (source,), out)
    } else {
        out == Ok::<String, String>(source)
    }
}

/// Renders one text: hands it to the engine where it holds markup, and
/// passes it through untouched where it holds none.
pub fn render_text<F: Fn(String) -> Result<String, String>>(render: &F, source: &String) -> (out:
    Result<String, String>)
    requires
        forall|text: String| call_requires(*render, (text,)),
    ensures
        text_rendered(*render, *source, out),
{
    if contains(source.as_str(), "{{") {
        render(source.clone())
    } else {
        Ok(source.clone())
    }
}

/// `rendered` is a rendering of `template`: the same tree, in which every
/// name and every content is rendered.
pub open spec fn is_rendering<F: Fn(String) -> Result<String, String>>(
    render: F,
    template: FileTree,
    rendered: FileTree,
) -> bool
    decreases template,
{
    match template {
        FileTree::File(content) => rendered matches FileTree::File(text) && text_rendered(
            render,
            content,
            Ok(text),
        ),
        FileTree::Directory(entries) => rendered matches FileTree::Directory(outs) && outs@.len()
            == entries@.len() && forall|i: int|
            0 <= i < entries@.len() ==> text_rendered(
                render,
                (#[trigger] entries@[i]).name,
                Ok(outs@[i].name),
            ) && is_rendering(render, entries@[i].node, outs@[i].node),
    }
}

/// The engine refused the name or the content of the template at `place`
/// with `message`, where `template` stands at `path`.
pub open spec fn rendering_fails<F: Fn(String) -> Result<String, String>>(
    render: F,
    template: FileTree,
    path: Seq<Seq<char>>,
    place: Seq<Seq<char>>,
    message: String,
) -> bool
    decreases template,
{
    match template {
        FileTree::File(content) => text_rendered(render, content, Err(message)) && place == path,
        FileTree::Directory(entries) => exists|i: int|
            0 <= i < entries@.len() && ((text_rendered(
                render,
                (#[trigger] entries@[i]).name,
                Err(message),
            ) && place == path.push(entries@[i].name@)) || rendering_fails(
                render,
                entries@[i].node,
                path.push(entries@[i].name@),
                place,
                message,
            )),
    }
}

/// Renders the template tree that stands at `path`: every name and every
/// content that holds markup goes through the engine, and everything else is
/// passed through as it is. The first refusal of the engine ends the
/// rendering, and is reported with the path of the template.
pub fn render_tree<F: Fn(String) -> Result<String, String>>(
    render: &F,
    template: &FileTree,
    path: &Vec<String>,
) -> (outcome: Result<FileTree, ScaffoldError>)
    requires
        forall|text: String| call_requires(*render, (text,)),
    ensures
        match outcome {
            Ok(rendered) => is_rendering(*render, *template, rendered),
            Err(ScaffoldError::TemplateError(place, message)) => rendering_fails(
                *render,
                *template,
                texts(path@),
                texts(place@),
                message,
            ),
            Err(_) => false,
        },
    decreases template,
{
    match template {
        FileTree::File(content) => match render_text(render, content) {
            Ok(text) => Ok(FileTree::File(text)),
            Err(message) => Err(ScaffoldError::TemplateError(clone_path(path), message)),
        },
        FileTree::Directory(entries) => {
            let mut outs: Vec<DirEntry> = Vec::new();
            let mut i: usize = 0;
            while i < entries.len()
                invariant
                    0 <= i <= entries@.len(),
                    outs@.len() == i,
                    *template == FileTree::Directory(*entries),
                    forall|text: String| call_requires(*render, (text,)),
                    forall|k: int|
                        0 <= k < i ==> text_rendered(
                            *render,
                            (#[trigger] entries@[k]).name,
                            Ok(outs@[k].name),
                        ) && is_rendering(*render, entries@[k].node, outs@[k].node),
                decreases entries@.len() - i,
            {
                proof {
                    child_is_smaller(*template, *entries, i as int);
                }
                let below = child_path(path, &entries[i].name);
                let name = match render_text(render, &entries[i].name) {
                    Ok(text) => text,
                    Err(message) => {
                        return Err(ScaffoldError::TemplateError(below, message));
                    },
                };
                let node = match render_tree(render, &entries[i].node, &below) {
                    Ok(node) => node,
                    Err(error) => {
                        return Err(error);
                    },
                };
                outs.push(DirEntry { name, node });
                i = i + 1;
            }
            Ok(FileTree::Directory(outs))
        },
    }
}

} // verus!
