use vstd::prelude::*;

verus! {

/// Typed failures of the scaffolding model and of the merge engine.
///
/// Paths are given segment by segment, outermost directory first.
#[derive(Clone, Debug, PartialEq, Eq)]
pub enum ScaffoldError {
    /// An argument holds a value outside the accepted set.
    InvalidArguments(String),
    /// A string is not written in the case convention that is asked for.
    InvalidStringFormat(String),
    /// A name collides with a reserved identifier.
    InvalidReservedWord(String),
    /// The name of an example that does not exist, with the accepted names.
    InvalidExampleType(String, String),
    /// The template engine refused the name or the content of the template at
    /// this path, with these words.
    TemplateError(Vec<String>, String),
    /// A template set is missing or not laid out as expected.
    MalformedTemplate(String),
    /// A template tree holds no template sets.
    NoTemplatesFound,
    /// A repository that was fetched holds no template sets.
    NoTemplatesFoundInGitRepo,
    /// No template set has this name.
    TemplateNotFound(String),
    /// No node stands at this path.
    PathNotFound(Vec<String>),
    /// The rendered tree and the application tree disagree at this path.
    MergeConflict(Vec<String>),
    /// The file at this path is merged by splicing and lacks the marker pair.
    SpliceMarkersMissing(Vec<String>),
}

} // verus!
