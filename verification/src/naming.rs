use vstd::prelude::*;
use vstd::string::*;
use vstd::utf8::is_ascii_chars;
use convert_case::Casing;

verus! {

/// The case conventions that generated names are written in.
#[derive(Clone, Copy, Debug, PartialEq, Eq, Structural)]
pub enum CaseStyle {
    Snake,
    Pascal,
    Camel,
}

/// What `convert_case` makes of `text` in the convention `style`.
pub uninterp spec fn case_converted(style: CaseStyle, text: Seq<char>) -> Seq<char>;

/// What `pluralizer` makes of `word` for `count` items, with its built-in rules.
pub uninterp spec fn pluralized(word: Seq<char>, count: int) -> Seq<char>;

/// Whether `syn` accepts `text` as one Rust expression.
pub uninterp spec fn parses_as_expression(text: Seq<char>) -> bool;

/// The longest text that is handed to the expression parser. The parser
/// descends once for each level of nesting and has no limit of its own; a
/// text this short cannot nest deeper than a stack holds.
pub const MAX_EXPRESSION_LENGTH: usize = 64;

/// `text` can be the name of a variant in generated code: it is short enough
/// for the parser and is accepted as an expression.
pub open spec fn is_variant_name(text: Seq<char>) -> bool {
    text.len() <= MAX_EXPRESSION_LENGTH && parses_as_expression(text)
}

/// `text` is written in the convention `style`: converting it changes nothing.
pub open spec fn is_in_case(style: CaseStyle, text: Seq<char>) -> bool {
    case_converted(style, text) == text
}

/// Calls `convert_case::Casing::to_case` with the `Case` that stands for
/// `style`. The conversion is a function of the text and the case alone; the
/// contract gives its result the name `case_converted` and claims no more.
#[verifier::external_body]
pub(crate) fn to_case(text: &str, style: CaseStyle) -> (converted: String)
    ensures
        converted@ == case_converted(style, text@),
{
    match style {
        CaseStyle::Snake => text.to_case(convert_case::Case::Snake),
        CaseStyle::Pascal => text.to_case(convert_case::Case::Pascal),
        CaseStyle::Camel => text.to_case(convert_case::Case::Camel),
    }
}

/// Calls `convert_case::Casing::is_case`, which converts the text and compares
/// the outcome with the text itself.
#[verifier::external_body]
pub(crate) fn is_case(text: &str, style: CaseStyle) -> (same: bool)
    ensures
        same == is_in_case(style, text@),
{
    match style {
        CaseStyle::Snake => text.is_case(convert_case::Case::Snake),
        CaseStyle::Pascal => text.is_case(convert_case::Case::Pascal),
        CaseStyle::Camel => text.is_case(convert_case::Case::Camel),
    }
}

/// Calls `pluralizer::pluralize` without the count prefix. The outcome is a
/// function of the word and the count as long as nobody adds rules to the
/// crate's tables, which this library never does; the contract names it
/// `pluralized`. The crate slices matched text at byte offsets, so the word
/// is kept to ASCII.
#[verifier::external_body]
pub(crate) fn pluralize(word: &str, count: isize) -> (inflected: String)
    requires
        is_ascii_chars(word@),
    ensures
        inflected@ == pluralized(word@, count as int),
{
    pluralizer::pluralize(word, count, false)
}

/// Calls `syn::parse_str` for an `Expr` and tells whether it succeeded. The
/// text is kept short, since nesting without bound can exhaust the parser's
/// stack.
#[verifier::external_body]
pub(crate) fn is_expression(text: &str) -> (accepted: bool)
    requires
        text@.len() <= MAX_EXPRESSION_LENGTH,
    ensures
        accepted == parses_as_expression(text@),
{
    syn::parse_str::<syn::Expr>(text).is_ok()
}

} // verus!
