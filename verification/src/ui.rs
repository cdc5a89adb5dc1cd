use vstd::prelude::*;
use vstd::string::*;
use crate::definitions::texts;
use crate::error::ScaffoldError;
use crate::file_tree::{dir_exists, file_content, FileTree};
use crate::splice::{contains, contains_text};

verus! {

/// The user-interface frameworks for which templates exist, and any other
/// by its name.
#[derive(Clone, Debug, PartialEq, Eq)]
pub enum UiFramework {
    Vanilla,
    Lit,
    Svelte,
    Vue,
    Other(String),
}

/// The built-in template sets, made once and handed to whoever needs one.
#[derive(Debug, PartialEq, Eq)]
pub struct TemplateRegistry {
    pub lit: FileTree,
    pub svelte: FileTree,
    pub vue: FileTree,
    pub vanilla: FileTree,
    pub headless: FileTree,
}

/// The name under which a framework is written and read.
pub open spec fn framework_name(framework: UiFramework) -> Seq<char> {
    match framework {
        UiFramework::Vanilla => "vanilla"@,
        UiFramework::Lit => "lit"@,
        UiFramework::Svelte => "svelte"@,
        UiFramework::Vue => "vue"@,
        UiFramework::Other(name) => name@,
    }
}

/// The name that stands for an application without user interface.
pub open spec fn headless_name() -> Seq<char> {
    "headless (no ui)"@
}

pub open spec fn missing_template_message(name: Seq<char>) -> Seq<char> {
    "Inbuilt template "@ + name + " not found."@
}

/// The framework that the package description of a user interface names:
/// the first of lit, svelte and vue that its text holds; vanilla where it
/// holds none and there is no source directory; else none.
pub open spec fn framework_in(package: Seq<char>, has_sources: bool) -> Option<UiFramework> {
    if contains_text(package, "lit"@) {
        Some(UiFramework::Lit)
    } else if contains_text(package, "svelte"@) {
        Some(UiFramework::Svelte)
    } else if contains_text(package, "vue"@) {
        Some(UiFramework::Vue)
    } else if !has_sources {
        Some(UiFramework::Vanilla)
    } else {
        None
    }
}

/// The path of the package description of the user interface.
pub open spec fn package_path() -> Seq<Seq<char>> {
    seq!["ui"@, "package.json"@]
}

/// The path of the sources of the user interface.
pub open spec fn sources_path() -> Seq<Seq<char>> {
    seq!["ui"@, "src"@]
}

impl UiFramework {
    /// The built-in template set of the framework. Of the frameworks known
    /// only by name, the headless one alone has a template set.
    pub fn template_filetree<'a>(&self, registry: &'a TemplateRegistry) -> (templates: Result<
        &'a FileTree,
        ScaffoldError,
    >)
        ensures
            match *self {
                UiFramework::Lit => templates == Ok::<&FileTree, ScaffoldError>(&registry.lit),
                UiFramework::Vanilla => templates == Ok::<&FileTree, ScaffoldError>(
                    &registry.vanilla,
                ),
                UiFramework::Svelte => templates == Ok::<&FileTree, ScaffoldError>(&registry.svelte),
                UiFramework::Vue => templates == Ok::<&FileTree, ScaffoldError>(&registry.vue),
                UiFramework::Other(name) => if name@ == headless_name() {
                    templates == Ok::<&FileTree, ScaffoldError>(&registry.headless)
                } else {
                    match templates {
                        Err(ScaffoldError::MalformedTemplate(message)) => message@
                            == missing_template_message(name@),
                        _ => false,
                    }
                },
            },
    {
        match self {
            UiFramework::Lit => Ok(&registry.lit),
            UiFramework::Vanilla => Ok(&registry.vanilla),
            UiFramework::Svelte => Ok(&registry.svelte),
            UiFramework::Vue => Ok(&registry.vue),
            UiFramework::Other(name) => {
                if *name == String::from_str("headless (no ui)") {
                    Ok(&registry.headless)
                } else {
                    Err(
                        ScaffoldError::MalformedTemplate(
                            String::from_str("Inbuilt template ").concat(name.as_str()).concat(
                                " not found.",
                            ),
                        ),
                    )
                }
            },
        }
    }

    /// The framework at `selection` in the menu of all frameworks: lit,
    /// svelte, vue, vanilla, headless.
    pub fn from_selection(selection: usize) -> (framework: UiFramework)
        requires
            selection < 5,
        ensures
            match framework {
                UiFramework::Lit => selection == 0,
                UiFramework::Svelte => selection == 1,
                UiFramework::Vue => selection == 2,
                UiFramework::Vanilla => selection == 3,
                UiFramework::Other(name) => selection == 4 && name@ == headless_name(),
            },
    {
        if selection == 0 {
            UiFramework::Lit
        } else if selection == 1 {
            UiFramework::Svelte
        } else if selection == 2 {
            UiFramework::Vue
        } else if selection == 3 {
            UiFramework::Vanilla
        } else {
            UiFramework::Other(String::from_str("headless (no ui)"))
        }
    }

    /// The framework at `selection` in the menu without vanilla and
    /// headless: lit, svelte, vue.
    pub fn from_selection_non_vanilla(selection: usize) -> (framework: UiFramework)
        requires
            selection < 3,
        ensures
            match framework {
                UiFramework::Lit => selection == 0,
                UiFramework::Svelte => selection == 1,
                UiFramework::Vue => selection == 2,
                _ => false,
            },
    {
        if selection == 0 {
            UiFramework::Lit
        } else if selection == 1 {
            UiFramework::Svelte
        } else {
            UiFramework::Vue
        }
    }

    /// The framework that an application uses, as far as its tree tells: what
    /// the package description of its user interface names. Without such a
    /// file, and where the file names none and sources exist, the tree does
    /// not tell, and the user has to be asked.
    pub fn try_from(app_file_tree: &FileTree) -> (found: Option<UiFramework>)
        ensures
            found == match app_file_tree.lookup(package_path()) {
                Some(FileTree::File(package)) => framework_in(
                    package@,
                    app_file_tree.lookup(sources_path()) matches Some(FileTree::Directory(_)),
                ),
                _ => None,
            },
    {
        let mut package_json: Vec<String> = Vec::new();
        package_json.push(String::from_str("ui"));
        package_json.push(String::from_str("package.json"));
        assert(texts(package_json@) =~= package_path());
        let mut sources: Vec<String> = Vec::new();
        sources.push(String::from_str("ui"));
        sources.push(String::from_str("src"));
        assert(texts(sources@) =~= sources_path());
        match file_content(app_file_tree, &package_json) {
            Err(_) => None,
            Ok(package) => {
                if contains(package.as_str(), "lit") {
                    Some(UiFramework::Lit)
                } else if contains(package.as_str(), "svelte") {
                    Some(UiFramework::Svelte)
                } else if contains(package.as_str(), "vue") {
                    Some(UiFramework::Vue)
                } else if !dir_exists(app_file_tree, &sources) {
                    Some(UiFramework::Vanilla)
                } else {
                    None
                }
            },
        }
    }

    /// The name of the framework.
    pub fn to_string(&self) -> (name: String)
        ensures
            name@ == framework_name(*self),
    {
        match self {
            UiFramework::Vanilla => String::from_str("vanilla"),
            UiFramework::Lit => String::from_str("lit"),
            UiFramework::Svelte => String::from_str("svelte"),
            UiFramework::Vue => String::from_str("vue"),
            UiFramework::Other(name) => name.clone(),
        }
    }

    /// Reads a framework from its name; a name that belongs to no framework
    /// with templates is kept as it is.
    pub fn from_str(s: &str) -> (framework: UiFramework)
        ensures
            framework_name(framework) == s@,
            framework is Other <==> s@ != "vanilla"@ && s@ != "svelte"@ && s@ != "vue"@ && s@
                != "lit"@,
    {
        proof {
            reveal_strlit("vanilla");
            reveal_strlit("svelte");
            reveal_strlit("vue");
            reveal_strlit("lit");
            assert("vanilla"@.len() == 7 && "svelte"@.len() == 6 && "vue"@.len() == 3 && "lit"@.len() == 3);
            assert("vue"@[0] != "lit"@[0]);
        }
        let given = String::from_str(s);
        if given == String::from_str("vanilla") {
            UiFramework::Vanilla
        } else if given == String::from_str("svelte") {
            UiFramework::Svelte
        } else if given == String::from_str("vue") {
            UiFramework::Vue
        } else if given == String::from_str("lit") {
            UiFramework::Lit
        } else {
            UiFramework::Other(given)
        }
    }
}

} // verus!
