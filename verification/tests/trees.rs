use scaffold_core::definitions::{Cardinality, FieldType};
use scaffold_core::entries::{EntryDefinition, FieldDefinition};
use scaffold_core::error::ScaffoldError;
use scaffold_core::file_tree::{
    dir_exists, file_content, file_exists, is_well_formed, take_path, DirEntry, FileTree,
};
use scaffold_core::merge::{merge_at, merge_file_trees, MergePolicy};
use scaffold_core::splice::{contains, splice_between_markers};
use scaffold_core::render::{render_text, render_tree};
use scaffold_core::templates::{
    choose_or_get_template, entry_type_instructions, entry_type_templates, get_template,
    in_fetched_repository, link_type_templates, list_template_sets, merge_rendered,
    render_and_merge, scaffold_entry_type_templates, scaffold_link_type_templates,
    ScaffoldedTemplate, TemplateChoice,
};
use scaffold_core::ui::{TemplateRegistry, UiFramework};

fn file(text: &str) -> FileTree {
    FileTree::File(text.to_string())
}

fn dir(children: Vec<(&str, FileTree)>) -> FileTree {
    FileTree::Directory(
        children.into_iter().map(|(name, node)| DirEntry { name: name.to_string(), node }).collect(),
    )
}

fn path(segments: &[&str]) -> Vec<String> {
    segments.iter().map(|s| s.to_string()).collect()
}

fn no_splices() -> MergePolicy {
    MergePolicy { splice_targets: vec![] }
}

#[test]
fn lookup_by_path() {
    let tree = dir(vec![("ui", dir(vec![("package.json", file("{}")), ("src", dir(vec![]))]))]);
    assert_eq!(tree.path(&path(&["ui", "package.json"])), Some(&file("{}")));
    assert_eq!(tree.path(&path(&[])), Some(&tree));
    assert_eq!(tree.path(&path(&["ui", "missing"])), None);
    assert_eq!(tree.path(&path(&["ui", "package.json", "deeper"])), None);
    assert!(file_exists(&tree, &path(&["ui", "package.json"])));
    assert!(!file_exists(&tree, &path(&["ui", "src"])));
    assert!(dir_exists(&tree, &path(&["ui", "src"])));
    assert!(!dir_exists(&tree, &path(&["ui", "package.json"])));
    assert_eq!(file_content(&tree, &path(&["ui", "package.json"])), Ok("{}".to_string()));
    assert_eq!(
        file_content(&tree, &path(&["ui", "src"])),
        Err(ScaffoldError::PathNotFound(path(&["ui", "src"])))
    );
    assert_eq!(tree.file_content(), None);
    assert_eq!(file("x").file_content(), Some(&"x".to_string()));
    assert_eq!(take_path(tree, &path(&["ui", "src"])), Some(dir(vec![])));
    assert_eq!(take_path(dir(vec![("ui", file("x"))]), &path(&["nothing"])), None);
}

#[test]
fn well_formed_trees_have_unique_names() {
    assert!(is_well_formed(&dir(vec![("a", file("1")), ("b", file("2"))])));
    assert!(!is_well_formed(&dir(vec![("a", file("1")), ("a", file("2"))])));
    assert!(!is_well_formed(&dir(vec![("x", dir(vec![("a", file("1")), ("a", dir(vec![]))]))])));
    assert!(is_well_formed(&file("text")));
}

#[test]
fn merge_inserts_new_paths_and_keeps_the_rest() {
    let app = dir(vec![("README.md", file("mine")), ("dnas", dir(vec![("forum", dir(vec![]))]))]);
    let rendered = dir(vec![
        ("dnas", dir(vec![("forum", dir(vec![("post.rs", file("struct Post;"))]))])),
        ("ui", dir(vec![("index.html", file("<html>"))])),
    ]);
    let merged = merge_file_trees(app, rendered, &no_splices()).unwrap();
    assert_eq!(
        merged,
        dir(vec![
            ("README.md", file("mine")),
            ("dnas", dir(vec![("forum", dir(vec![("post.rs", file("struct Post;"))]))])),
            ("ui", dir(vec![("index.html", file("<html>"))])),
        ])
    );
}

#[test]
fn merging_twice_changes_nothing_more() {
    let app = || dir(vec![("README.md", file("mine"))]);
    let rendered = || {
        dir(vec![
            ("src", dir(vec![("lib.rs", file("pub mod post;")), ("post.rs", file("struct Post;"))])),
            ("Cargo.toml", file("[package]")),
        ])
    };
    let once = merge_file_trees(app(), rendered(), &no_splices()).unwrap();
    let again = merge_file_trees(app(), rendered(), &no_splices()).unwrap();
    let twice = merge_file_trees(again, rendered(), &no_splices()).unwrap();
    assert_eq!(once, twice);
    assert_eq!(
        twice,
        dir(vec![
            ("README.md", file("mine")),
            ("src", dir(vec![("lib.rs", file("pub mod post;")), ("post.rs", file("struct Post;"))])),
            ("Cargo.toml", file("[package]")),
        ])
    );
}

#[test]
fn merge_refuses_to_overwrite_a_file() {
    let app = dir(vec![("src", dir(vec![("post.rs", file("my own edits"))]))]);
    let rendered = dir(vec![("src", dir(vec![("post.rs", file("struct Post;"))]))]);
    assert_eq!(
        merge_file_trees(app, rendered, &no_splices()),
        Err(ScaffoldError::MergeConflict(path(&["src", "post.rs"])))
    );
}

#[test]
fn merge_refuses_file_against_directory() {
    let app = dir(vec![("src", file("a file"))]);
    let rendered = dir(vec![("src", dir(vec![("post.rs", file("struct Post;"))]))]);
    assert_eq!(
        merge_file_trees(app, rendered, &no_splices()),
        Err(ScaffoldError::MergeConflict(path(&["src"])))
    );
    let app = dir(vec![("src", dir(vec![]))]);
    let rendered = dir(vec![("src", file("a file"))]);
    assert_eq!(
        merge_file_trees(app, rendered, &no_splices()),
        Err(ScaffoldError::MergeConflict(path(&["src"])))
    );
    assert_eq!(
        merge_at(file("x"), dir(vec![]), &path(&["a", "b"]), &no_splices()),
        Err(ScaffoldError::MergeConflict(path(&["a", "b"])))
    );
}

#[test]
fn splice_replaces_only_the_marked_span() {
    let existing = "mod a;\n// scaffold:insertion-start\nmod old;\n// scaffold:insertion-end\nmod z;\n";
    assert_eq!(
        splice_between_markers(existing, "X"),
        Some("mod a;\n// scaffold:insertion-start\nX// scaffold:insertion-end\nmod z;\n".to_string())
    );
    assert_eq!(
        splice_between_markers(existing, "mod post;\n"),
        Some(
            "mod a;\n// scaffold:insertion-start\nmod post;\n// scaffold:insertion-end\nmod z;\n"
                .to_string()
        )
    );
}

#[test]
fn splice_needs_both_markers_in_order() {
    assert_eq!(splice_between_markers("no markers here", "X"), None);
    assert_eq!(splice_between_markers("scaffold:insertion-start only", "X"), None);
    assert_eq!(
        splice_between_markers("scaffold:insertion-end scaffold:insertion-start", "X"),
        None
    );
    assert_eq!(splice_between_markers("scaffold:insertion-startscaffold:insertion-end", "X"), None);
    assert_eq!(
        splice_between_markers("é scaffold:insertion-start\nold\nscaffold:insertion-end", "é\n"),
        Some("é scaffold:insertion-start\né\nscaffold:insertion-end".to_string())
    );
}

#[test]
fn merge_splices_listed_files() {
    let policy = MergePolicy { splice_targets: vec![path(&["src", "lib.rs"])] };
    let existing = "// mine\n// scaffold:insertion-start\n// scaffold:insertion-end\n// also mine\n";
    let app = dir(vec![("src", dir(vec![("lib.rs", file(existing))]))]);
    let rendered = dir(vec![("src", dir(vec![("lib.rs", file("pub mod post;\n"))]))]);
    assert_eq!(
        merge_file_trees(app, rendered, &policy),
        Ok(dir(vec![(
            "src",
            dir(vec![(
                "lib.rs",
                file("// mine\n// scaffold:insertion-start\npub mod post;\n// scaffold:insertion-end\n// also mine\n")
            )])
        )]))
    );
}

#[test]
fn merge_reports_missing_markers() {
    let policy = MergePolicy { splice_targets: vec![path(&["src", "lib.rs"])] };
    let app = dir(vec![("src", dir(vec![("lib.rs", file("hand written"))]))]);
    let rendered = dir(vec![("src", dir(vec![("lib.rs", file("pub mod post;"))]))]);
    assert_eq!(
        merge_file_trees(app, rendered, &policy),
        Err(ScaffoldError::SpliceMarkersMissing(path(&["src", "lib.rs"])))
    );
    assert!(policy.is_splice_target(&path(&["src", "lib.rs"])));
    assert!(!policy.is_splice_target(&path(&["src"])));
    assert!(!policy.is_splice_target(&path(&["src", "lib.rs", "x"])));
}

#[test]
fn contains_finds_a_pattern_anywhere() {
    assert!(contains("{\"dependencies\": {\"lit\": \"^2\"}}", "lit"));
    assert!(!contains("{\"dependencies\": {}}", "vue"));
    assert!(contains("abc", ""));
    assert!(!contains("ab", "abc"));
    assert!(contains("xxvue", "vue"));
}

#[test]
fn framework_is_read_from_the_package_description() {
    let with = |package: &str, sources: bool| {
        let mut ui = vec![("package.json", file(package))];
        if sources {
            ui.push(("src", dir(vec![])));
        }
        dir(vec![("ui", dir(ui))])
    };
    assert_eq!(UiFramework::try_from(&with("\"lit\": \"2\"", true)), Some(UiFramework::Lit));
    assert_eq!(UiFramework::try_from(&with("\"svelte\": \"3\"", true)), Some(UiFramework::Svelte));
    assert_eq!(UiFramework::try_from(&with("\"vue\": \"3\"", false)), Some(UiFramework::Vue));
    assert_eq!(UiFramework::try_from(&with("{}", false)), Some(UiFramework::Vanilla));
    assert_eq!(UiFramework::try_from(&with("{}", true)), None);
    assert_eq!(UiFramework::try_from(&dir(vec![])), None);
    assert_eq!(UiFramework::try_from(&with("svelte and vue", true)), Some(UiFramework::Svelte));
}

#[test]
fn framework_names_and_templates() {
    assert_eq!(UiFramework::from_str("vanilla"), UiFramework::Vanilla);
    assert_eq!(UiFramework::from_str("svelte"), UiFramework::Svelte);
    assert_eq!(UiFramework::from_str("vue"), UiFramework::Vue);
    assert_eq!(UiFramework::from_str("lit"), UiFramework::Lit);
    assert_eq!(UiFramework::from_str("react"), UiFramework::Other("react".to_string()));
    assert_eq!(UiFramework::Lit.to_string(), "lit");
    assert_eq!(UiFramework::Other("react".to_string()).to_string(), "react");
    assert_eq!(UiFramework::from_selection(0), UiFramework::Lit);
    assert_eq!(UiFramework::from_selection(3), UiFramework::Vanilla);
    assert_eq!(UiFramework::from_selection(4), UiFramework::Other("headless (no ui)".to_string()));
    assert_eq!(UiFramework::from_selection_non_vanilla(2), UiFramework::Vue);
    let registry = TemplateRegistry {
        lit: file("lit"),
        svelte: file("svelte"),
        vue: file("vue"),
        vanilla: file("vanilla"),
        headless: file("headless"),
    };
    assert_eq!(UiFramework::Vue.template_filetree(&registry), Ok(&file("vue")));
    assert_eq!(UiFramework::Vanilla.template_filetree(&registry), Ok(&file("vanilla")));
    assert_eq!(
        UiFramework::Other("headless (no ui)".to_string()).template_filetree(&registry),
        Ok(&file("headless"))
    );
    assert_eq!(
        UiFramework::Other("react".to_string()).template_filetree(&registry),
        Err(ScaffoldError::MalformedTemplate("Inbuilt template react not found.".to_string()))
    );
}

#[test]
fn template_sets_are_found_by_name() {
    let set = || {
        dir(vec![
            ("entry-type", dir(vec![("{{name}}.rs.hbs", file("struct"))])),
            ("entry-type.instructions.hbs", file("Now add a link type.")),
        ])
    };
    let templates = set();
    assert_eq!(
        entry_type_templates(&templates),
        Some(&dir(vec![("{{name}}.rs.hbs", file("struct"))]))
    );
    assert_eq!(entry_type_instructions(&templates), Some(&"Now add a link type.".to_string()));
    assert_eq!(link_type_templates(&templates), None);
    assert_eq!(entry_type_instructions(&dir(vec![])), None);
    let repository = || dir(vec![(".templates", dir(vec![("forum", set())]))]);
    assert_eq!(get_template(repository(), "forum".to_string()), Ok(("forum".to_string(), set())));
    assert_eq!(
        get_template(repository(), "blog".to_string()),
        Err(ScaffoldError::PathNotFound(path(&[".templates", "blog"])))
    );
}

fn fill(name: &'static str, value: String) -> impl Fn(String) -> Result<String, String> {
    move |text: String| {
        if text.contains("{{broken") {
            Err(format!("cannot render {}", text))
        } else {
            Ok(text.replace(name, &value))
        }
    }
}

#[test]
fn rendering_passes_plain_text_through() {
    let shout = |text: String| -> Result<String, String> { Ok(text.to_uppercase()) };
    assert_eq!(render_text(&shout, &"plain".to_string()), Ok("plain".to_string()));
    assert_eq!(render_text(&shout, &"{{x}}".to_string()), Ok("{{X}}".to_string()));
    let template = dir(vec![
        ("logo.png", file("\u{0}\u{1}binary")),
        ("{{name}}", dir(vec![("readme", file("about {{name}}"))])),
    ]);
    assert_eq!(
        render_tree(&shout, &template, &path(&[])),
        Ok(dir(vec![
            ("logo.png", file("\u{0}\u{1}binary")),
            ("{{NAME}}", dir(vec![("readme", file("ABOUT {{NAME}}"))])),
        ]))
    );
}

#[test]
fn rendering_stops_at_the_first_refusal() {
    let render = fill("{{name}}", "post".to_string());
    let template = dir(vec![("a", file("{{name}}")), ("b", file("{{broken}}"))]);
    assert_eq!(
        render_tree(&render, &template, &path(&["sets"])),
        Err(ScaffoldError::TemplateError(
            path(&["sets", "b"]),
            "cannot render {{broken}}".to_string()
        ))
    );
    assert_eq!(
        render_and_merge(dir(vec![]), &render, &template, &no_splices()),
        Err(ScaffoldError::TemplateError(path(&["b"]), "cannot render {{broken}}".to_string()))
    );
    let named = dir(vec![("src", dir(vec![("{{broken}}.rs", file("plain"))]))]);
    assert_eq!(
        render_tree(&render, &named, &path(&[])),
        Err(ScaffoldError::TemplateError(
            path(&["src", "{{broken}}.rs"]),
            "cannot render {{broken}}.rs".to_string()
        ))
    );
}

#[test]
fn templates_that_render_to_one_name_are_refused() {
    let render = fill("{{name}}", "post".to_string());
    let template = dir(vec![("{{name}}.rs", file("a")), ("post.rs", file("b"))]);
    assert_eq!(
        render_and_merge(dir(vec![]), &render, &template, &no_splices()),
        Err(ScaffoldError::MalformedTemplate("Two templates render to the same name".to_string()))
    );
    assert_eq!(
        merge_rendered(dir(vec![]), dir(vec![("x", file("1")), ("x", file("2"))]), &no_splices()),
        Err(ScaffoldError::MalformedTemplate("Two templates render to the same name".to_string()))
    );
    assert_eq!(
        merge_rendered(dir(vec![]), dir(vec![("x", file("1"))]), &no_splices()),
        Ok(dir(vec![("x", file("1"))]))
    );
}

#[test]
fn scaffold_entry_type_from_templates() {
    let title =
        FieldDefinition::new("title".to_string(), FieldType::String, None, Cardinality::Single, None)
            .unwrap();
    let likes =
        FieldDefinition::new("likes".to_string(), FieldType::U32, None, Cardinality::Single, None)
            .unwrap();
    let entry = EntryDefinition {
        name: "post".to_string(),
        fields: vec![title, likes],
        reference_entry_hash: false,
    };
    let mut fields = String::new();
    for field in entry.fields.iter() {
        fields.push_str(&format!("    pub {}: {},\n", field.field_name, field.rust_type().render()));
    }
    let pascal = entry.pascal_case_name();
    let snake = entry.snake_case_name();
    let render = move |text: String| -> Result<String, String> {
        Ok(text
            .replace("{{pascal_case entry_type.name}}", &pascal)
            .replace("{{snake_case entry_type.name}}", &snake)
            .replace("{{fields}}", &fields))
    };
    let templates = dir(vec![(
        "entry-type",
        dir(vec![(
            "{{snake_case entry_type.name}}.rs",
            file("pub struct {{pascal_case entry_type.name}} {\n{{fields}}}\n"),
        )]),
    )]);
    let scaffolded =
        scaffold_entry_type_templates(dir(vec![]), &templates, &render, &no_splices()).unwrap();
    assert_eq!(
        scaffolded,
        ScaffoldedTemplate {
            file_tree: dir(vec![(
                "post.rs",
                file("pub struct Post {\n    pub title: String,\n    pub likes: u32,\n}\n")
            )]),
            next_instructions: None,
        }
    );
}

#[test]
fn scaffold_renders_the_instructions() {
    let render = fill("{{name}}", "post".to_string());
    let templates = dir(vec![
        ("entry-type", dir(vec![("{{name}}.rs", file("struct"))])),
        ("entry-type.instructions.hbs", file("Now link {{name}}.")),
        ("link-type", dir(vec![("links.rs", file("link to {{name}}"))])),
    ]);
    assert_eq!(
        scaffold_entry_type_templates(dir(vec![]), &templates, &render, &no_splices()),
        Ok(ScaffoldedTemplate {
            file_tree: dir(vec![("post.rs", file("struct"))]),
            next_instructions: Some("Now link post.".to_string()),
        })
    );
    assert_eq!(
        scaffold_link_type_templates(
            dir(vec![("README.md", file("mine"))]),
            &templates,
            &render,
            &no_splices()
        ),
        Ok(dir(vec![("README.md", file("mine")), ("links.rs", file("link to post"))]))
    );
    let broken = dir(vec![("entry-type.instructions.hbs", file("{{broken}}"))]);
    assert_eq!(
        scaffold_entry_type_templates(dir(vec![]), &broken, &render, &no_splices()),
        Err(ScaffoldError::TemplateError(
            path(&["entry-type.instructions.hbs"]),
            "cannot render {{broken}}".to_string()
        ))
    );
}

#[test]
fn scaffold_without_templates_keeps_the_tree() {
    let render = fill("{{name}}", "post".to_string());
    let app = || dir(vec![("README.md", file("mine"))]);
    assert_eq!(
        scaffold_entry_type_templates(app(), &dir(vec![]), &render, &no_splices()),
        Ok(ScaffoldedTemplate { file_tree: app(), next_instructions: None })
    );
    assert_eq!(scaffold_link_type_templates(app(), &dir(vec![]), &render, &no_splices()), Ok(app()));
}

#[test]
fn scaffold_reports_a_conflict_with_an_edited_file() {
    let render = fill("{{name}}", "post".to_string());
    let templates = dir(vec![("entry-type", dir(vec![("{{name}}.rs", file("struct"))]))]);
    let app = dir(vec![("post.rs", file("edited by hand"))]);
    assert_eq!(
        scaffold_entry_type_templates(app, &templates, &render, &no_splices()),
        Err(ScaffoldError::MergeConflict(path(&["post.rs"])))
    );
}

#[test]
fn merge_reports_the_first_rendered_conflict() {
    let app = || dir(vec![("a", file("1")), ("b", file("2")), ("c", dir(vec![]))]);
    let rendered = dir(vec![("c", dir(vec![("new", file("n"))])), ("b", file("x")), ("a", file("y"))]);
    assert_eq!(
        merge_file_trees(app(), rendered, &no_splices()),
        Err(ScaffoldError::MergeConflict(path(&["b"])))
    );
    let rendered = dir(vec![("a", file("y")), ("b", file("x"))]);
    assert_eq!(
        merge_file_trees(app(), rendered, &no_splices()),
        Err(ScaffoldError::MergeConflict(path(&["a"])))
    );
}

#[test]
fn listed_file_without_markers_is_refused_even_with_equal_content() {
    let policy = MergePolicy { splice_targets: vec![path(&["index.ts"])] };
    let app = dir(vec![("index.ts", file("hello"))]);
    let rendered = dir(vec![("index.ts", file("hello"))]);
    assert_eq!(
        merge_file_trees(app, rendered, &policy),
        Err(ScaffoldError::SpliceMarkersMissing(path(&["index.ts"])))
    );
    let render = fill("{{name}}", "post".to_string());
    let templates = dir(vec![("link-type", dir(vec![("index.ts", file("hello"))]))]);
    assert_eq!(
        scaffold_link_type_templates(
            dir(vec![("index.ts", file("hello"))]),
            &templates,
            &render,
            &policy
        ),
        Err(ScaffoldError::SpliceMarkersMissing(path(&["index.ts"])))
    );
}

#[test]
fn listed_file_is_spliced_even_with_equal_content() {
    let policy = MergePolicy { splice_targets: vec![path(&["index.ts"])] };
    let existing = "a\n// scaffold:insertion-start\nold\n// scaffold:insertion-end\nz\n";
    let app = dir(vec![("index.ts", file(existing))]);
    let rendered = dir(vec![("index.ts", file(existing))]);
    let expected = format!(
        "a\n// scaffold:insertion-start\n{}// scaffold:insertion-end\nz\n",
        existing
    );
    assert_eq!(
        merge_file_trees(app, rendered, &policy),
        Ok(dir(vec![("index.ts", file(&expected))]))
    );
}

#[test]
fn conflict_comes_before_the_instructions() {
    let render = fill("{{name}}", "post".to_string());
    let templates = dir(vec![
        ("entry-type", dir(vec![("{{name}}.rs", file("struct"))])),
        ("entry-type.instructions.hbs", file("{{broken}}")),
    ]);
    let app = dir(vec![("post.rs", file("edited by hand"))]);
    assert_eq!(
        scaffold_entry_type_templates(app, &templates, &render, &no_splices()),
        Err(ScaffoldError::MergeConflict(path(&["post.rs"])))
    );
}

#[test]
fn scaffolding_twice_gives_the_same_tree() {
    let render = fill("{{name}}", "post".to_string());
    let templates = dir(vec![(
        "link-type",
        dir(vec![("src", dir(vec![("{{name}}.rs", file("link to {{name}}"))]))]),
    )]);
    let app = dir(vec![("README.md", file("mine"))]);
    let once = scaffold_link_type_templates(app, &templates, &render, &no_splices()).unwrap();
    let expected = || {
        dir(vec![
            ("README.md", file("mine")),
            ("src", dir(vec![("post.rs", file("link to post"))])),
        ])
    };
    assert_eq!(once, expected());
    let twice = scaffold_link_type_templates(once, &templates, &render, &no_splices());
    assert_eq!(twice, Ok(expected()));
}

#[test]
fn template_sets_are_listed_and_chosen() {
    let repository = dir(vec![(
        ".templates",
        dir(vec![("forum", dir(vec![])), ("notes.txt", file("x")), ("blog", dir(vec![]))]),
    )]);
    let names = list_template_sets(&repository);
    assert_eq!(names, path(&["forum", "blog"]));
    assert_eq!(list_template_sets(&dir(vec![])), path(&[]));
    assert_eq!(
        choose_or_get_template(&names, &Some("blog".to_string())),
        Ok(TemplateChoice::Template("blog".to_string()))
    );
    assert_eq!(
        choose_or_get_template(&names, &Some("wiki".to_string())),
        Err(ScaffoldError::TemplateNotFound("wiki".to_string()))
    );
    assert_eq!(choose_or_get_template(&names, &None), Ok(TemplateChoice::Ask));
    assert_eq!(
        choose_or_get_template(&path(&["forum"]), &None),
        Ok(TemplateChoice::Template("forum".to_string()))
    );
    assert_eq!(choose_or_get_template(&path(&[]), &None), Err(ScaffoldError::NoTemplatesFound));
    assert_eq!(
        choose_or_get_template(&path(&[]), &Some("blog".to_string())),
        Err(ScaffoldError::NoTemplatesFound)
    );
    assert_eq!(
        in_fetched_repository(ScaffoldError::NoTemplatesFound),
        ScaffoldError::NoTemplatesFoundInGitRepo
    );
    assert_eq!(
        in_fetched_repository(ScaffoldError::TemplateNotFound("wiki".to_string())),
        ScaffoldError::TemplateNotFound("wiki".to_string())
    );
}
