//! Typed domain model and file-tree merge engine for scaffolding application
//! source trees: field types, references between entry types, the naming
//! rules that derive identifiers from them, and the conflict policy under
//! which a rendered template tree is merged into an existing project tree.

pub mod error;
pub mod naming;
pub mod text;
pub mod definitions;
pub mod gitignore;
pub mod example;
pub mod reserved_words;
pub mod references;
pub mod file_tree;
pub mod splice;
pub mod merge;
pub mod entries;
pub mod ui;
pub mod templates;
pub mod merge_laws;
pub mod render;
pub mod scaffold_laws;
