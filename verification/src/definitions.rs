use vstd::prelude::*;
use vstd::string::*;
use vstd::utf8::is_ascii_chars;
use crate::error::ScaffoldError;
use crate::naming::{case_converted, is_variant_name, pluralized, CaseStyle};
use crate::naming::MAX_EXPRESSION_LENGTH;
use crate::naming::{is_expression, pluralize, to_case};

verus! {

/// The closed set of types that a field of an entry can have.
#[derive(Clone, Debug, PartialEq, Eq)]
pub enum FieldType {
    Bool,
    String,
    U32,
    I32,
    F32,
    Timestamp,
    AgentPubKey,
    ActionHash,
    EntryHash,
    DnaHash,
    Enum { label: String, variants: Vec<String> },
}

/// A field type as a mathematical value.
pub ghost enum FieldKind {
    Bool,
    String,
    U32,
    I32,
    F32,
    Timestamp,
    AgentPubKey,
    ActionHash,
    EntryHash,
    DnaHash,
    Enum { label: Seq<char>, variants: Seq<Seq<char>> },
}

/// The texts that a list of strings holds.
pub open spec fn texts(strings: Seq<String>) -> Seq<Seq<char>> {
    Seq::new(strings.len(), |i: int| strings[i]@)
}

impl View for FieldType {
    type V = FieldKind;

    open spec fn view(&self) -> FieldKind {
        match self {
            FieldType::Bool => FieldKind::Bool,
            FieldType::String => FieldKind::String,
            FieldType::U32 => FieldKind::U32,
            FieldType::I32 => FieldKind::I32,
            FieldType::F32 => FieldKind::F32,
            FieldType::Timestamp => FieldKind::Timestamp,
            FieldType::AgentPubKey => FieldKind::AgentPubKey,
            FieldType::ActionHash => FieldKind::ActionHash,
            FieldType::EntryHash => FieldKind::EntryHash,
            FieldType::DnaHash => FieldKind::DnaHash,
            FieldType::Enum { label, variants } => FieldKind::Enum {
                label: label@,
                variants: texts(variants@),
            },
        }
    }
}

/// The enumeration without label and variants: the entry of the list of
/// selectable types that stands for every enumeration.
pub open spec fn enum_selector() -> FieldKind {
    FieldKind::Enum { label: Seq::empty(), variants: Seq::empty() }
}

/// The type that is offered at `position` among the selectable types.
pub open spec fn selectable_kind(position: int) -> FieldKind {
    if position == 0 {
        FieldKind::String
    } else if position == 1 {
        FieldKind::Bool
    } else if position == 2 {
        FieldKind::U32
    } else if position == 3 {
        FieldKind::I32
    } else if position == 4 {
        FieldKind::F32
    } else if position == 5 {
        FieldKind::Timestamp
    } else if position == 6 {
        FieldKind::ActionHash
    } else if position == 7 {
        FieldKind::EntryHash
    } else if position == 8 {
        FieldKind::DnaHash
    } else if position == 9 {
        FieldKind::AgentPubKey
    } else {
        enum_selector()
    }
}

/// The types that a user can select, in the order in which they are offered.
pub open spec fn selectable_kinds() -> Seq<FieldKind> {
    Seq::new(11, |position: int| selectable_kind(position))
}

/// The name under which a field type is displayed and selected. Every
/// enumeration is displayed alike.
pub open spec fn display_name(kind: FieldKind) -> Seq<char> {
    match kind {
        FieldKind::Bool => "bool"@,
        FieldKind::String => "String"@,
        FieldKind::U32 => "u32"@,
        FieldKind::I32 => "i32"@,
        FieldKind::F32 => "f32"@,
        FieldKind::Timestamp => "Timestamp"@,
        FieldKind::AgentPubKey => "AgentPubKey"@,
        FieldKind::ActionHash => "ActionHash"@,
        FieldKind::EntryHash => "EntryHash"@,
        FieldKind::DnaHash => "DnaHash"@,
        FieldKind::Enum { .. } => "Enum"@,
    }
}

/// The type that displays as `name`, where there is one: for "Enum" the
/// selector, never a labelled enumeration.
pub open spec fn kind_named(name: Seq<char>) -> Option<FieldKind> {
    if exists|i: int| 0 <= i < selectable_kinds().len() && display_name(#[trigger] selectable_kinds()[i]) == name {
        let i = choose|i: int| 0 <= i < selectable_kinds().len() && display_name(#[trigger] selectable_kinds()[i]) == name;
        Some(selectable_kinds()[i])
    } else {
        None
    }
}

/// The name of the type in generated code: the display name, and for an
/// enumeration its label.
pub open spec fn written_name(kind: FieldKind) -> Seq<char> {
    match kind {
        FieldKind::Enum { label, .. } => label,
        _ => display_name(kind),
    }
}

/// The message with which an unknown type name is refused: it lists the
/// accepted names.
pub open spec fn invalid_field_type_message() -> Seq<char> {
    "Invalid field type: only \"Stringboolu32i32f32TimestampActionHashEntryHashDnaHashAgentPubKeyEnum\" are allowed"@
}

/// Whether a field holds one value, a list of values, or at most one.
#[derive(Clone, Copy, Debug, PartialEq, Eq, Structural)]
pub enum Cardinality {
    Single,
    Vector,
    Option,
}

/// A type of the generated code: a named type, bare or wrapped as the
/// cardinality says.
#[derive(Clone, Debug, PartialEq, Eq)]
pub struct RustType {
    pub name: String,
    pub cardinality: Cardinality,
}

/// The source text of a type with the given name and wrapping.
pub open spec fn rendered_type(name: Seq<char>, cardinality: Cardinality) -> Seq<char> {
    match cardinality {
        Cardinality::Single => name,
        Cardinality::Vector => "Vec<"@ + name + ">"@,
        Cardinality::Option => "Option<"@ + name + ">"@,
    }
}

impl RustType {
    /// Writes the type as source text.
    pub fn render(&self) -> (source: String)
        ensures
            source@ == rendered_type(self.name@, self.cardinality),
    {
        match self.cardinality {
            Cardinality::Single => self.name.clone(),
            Cardinality::Vector => String::from_str("Vec<").concat(self.name.as_str()).concat(">"),
            Cardinality::Option => String::from_str("Option<").concat(self.name.as_str()).concat(
                ">",
            ),
        }
    }
}

/// The definition of a tagged union: its name and the names of its variants,
/// in order.
#[derive(Clone, Debug, PartialEq, Eq)]
pub struct EnumDefinition {
    pub name: String,
    pub variants: Vec<String>,
}

/// Every variant name, written in Pascal case, can be the name of a variant
/// in generated code.
pub open spec fn variants_are_expressions(variants: Seq<Seq<char>>) -> bool {
    forall|i: int|
        0 <= i < variants.len() ==> is_variant_name(
            case_converted(CaseStyle::Pascal, #[trigger] variants[i]),
        )
}

/// The variant names written in Pascal case.
pub open spec fn pascal_variants(variants: Seq<Seq<char>>) -> Seq<Seq<char>> {
    Seq::new(variants.len(), |i: int| case_converted(CaseStyle::Pascal, variants[i]))
}

impl FieldType {
    /// The selectable types. The enumeration stands in the list without label
    /// and variants, as a selector.
    pub fn list() -> (types: Vec<FieldType>)
        ensures
            types@.len() == selectable_kinds().len(),
            forall|i: int| 0 <= i < types@.len() ==> (#[trigger] types@[i])@ == selectable_kinds()[i],
    {
        let mut types: Vec<FieldType> = Vec::new();
        types.push(FieldType::String);
        types.push(FieldType::Bool);
        types.push(FieldType::U32);
        types.push(FieldType::I32);
        types.push(FieldType::F32);
        types.push(FieldType::Timestamp);
        types.push(FieldType::ActionHash);
        types.push(FieldType::EntryHash);
        types.push(FieldType::DnaHash);
        types.push(FieldType::AgentPubKey);
        let selector = FieldType::Enum { label: String::new(), variants: Vec::new() };
        assert(selector@ == enum_selector()) by {
            assert(texts(Seq::<String>::empty()) =~= Seq::<Seq<char>>::empty());
        }
        types.push(selector);
        types
    }

    /// The display name of the type.
    pub fn to_string(&self) -> (name: String)
        ensures
            name@ == display_name(self@),
    {
        match self {
            FieldType::Bool => String::from_str("bool"),
            FieldType::String => String::from_str("String"),
            FieldType::U32 => String::from_str("u32"),
            FieldType::I32 => String::from_str("i32"),
            FieldType::F32 => String::from_str("f32"),
            FieldType::Timestamp => String::from_str("Timestamp"),
            FieldType::AgentPubKey => String::from_str("AgentPubKey"),
            FieldType::ActionHash => String::from_str("ActionHash"),
            FieldType::EntryHash => String::from_str("EntryHash"),
            FieldType::DnaHash => String::from_str("DnaHash"),
            FieldType::Enum { .. } => String::from_str("Enum"),
        }
    }

    /// Reads a type from its display name. A name that no selectable type
    /// displays as is refused with a message that lists the accepted names.
    pub fn try_from(value: String) -> (parsed: Result<FieldType, ScaffoldError>)
        ensures
            match parsed {
                Ok(field_type) => kind_named(value@) == Some(field_type@),
                Err(ScaffoldError::InvalidArguments(message)) => kind_named(value@) is None
                    && message@ == invalid_field_type_message(),
                Err(_) => false,
            },
    {
        let mut types = FieldType::list();
        proof {
            display_names_differ();
        }
        let mut i: usize = 0;
        while i < types.len()
            invariant
                0 <= i <= types@.len(),
                types@.len() == selectable_kinds().len(),
                forall|j: int| 0 <= j < types@.len() ==> (#[trigger] types@[j])@ == selectable_kinds()[j],
                forall|j: int| 0 <= j < i ==> display_name(#[trigger] selectable_kinds()[j]) != value@,
                forall|j: int, k: int|
                    0 <= j < k < selectable_kinds().len() ==> display_name(
                        #[trigger] selectable_kinds()[j],
                    ) != display_name(#[trigger] selectable_kinds()[k]),
            decreases types@.len() - i,
        {
            let name = types[i].to_string();
            if value == name {
                let found = types.swap_remove(i);
                return Ok(found);
            }
            i = i + 1;
        }
        Err(
            ScaffoldError::InvalidArguments(
                String::from_str(
                    "Invalid field type: only \"Stringboolu32i32f32TimestampActionHashEntryHashDnaHashAgentPubKeyEnum\" are allowed",
                ),
            ),
        )
    }

    /// The type as it is written in generated code: a bare named type.
    pub fn rust_type(&self) -> (written: RustType)
        ensures
            written.name@ == written_name(self@),
            written.cardinality == Cardinality::Single,
    {
        let name = match self {
            FieldType::Enum { label, .. } => label.clone(),
            _ => self.to_string(),
        };
        RustType { name, cardinality: Cardinality::Single }
    }

    /// The definition that the type needs beside its name: none but for an
    /// enumeration, whose variants are written in Pascal case.
    pub fn rust_type_definition(&self) -> (definition: Option<EnumDefinition>)
        requires
            match self@ {
                FieldKind::Enum { variants, .. } => variants_are_expressions(variants),
                _ => true,
            },
        ensures
            match self@ {
                FieldKind::Enum { label, variants } => definition matches Some(d) && d.name@ == label
                    && texts(d.variants@) == pascal_variants(variants),
                _ => definition is None,
            },
    {
        match self {
            FieldType::Enum { label, variants } => {
                let mut converted: Vec<String> = Vec::new();
                let mut i: usize = 0;
                while i < variants.len()
                    invariant
                        0 <= i <= variants@.len(),
                        converted@.len() == i,
                        forall|j: int|
                            0 <= j < i ==> (#[trigger] converted@[j])@ == case_converted(
                                CaseStyle::Pascal,
                                variants@[j]@,
                            ),
                    decreases variants@.len() - i,
                {
                    converted.push(to_case(variants[i].as_str(), CaseStyle::Pascal));
                    i = i + 1;
                }
                assert(texts(converted@) =~= pascal_variants(texts(variants@)));
                Some(EnumDefinition { name: label.clone(), variants: converted })
            },
            _ => None,
        }
    }

    /// Tells whether every variant of an enumeration gives a variant of the
    /// generated definition. Of any other type it says yes.
    pub fn has_type_definition_variants(&self) -> (accepted: bool)
        ensures
            accepted == match self@ {
                FieldKind::Enum { variants, .. } => variants_are_expressions(variants),
                _ => true,
            },
    {
        match self {
            FieldType::Enum { variants, .. } => {
                let mut i: usize = 0;
                while i < variants.len()
                    invariant
                        0 <= i <= variants@.len(),
                        self@ matches FieldKind::Enum { variants: names, .. } && names == texts(
                            variants@,
                        ),
                        forall|j: int|
                            0 <= j < i ==> is_variant_name(
                                case_converted(CaseStyle::Pascal, (#[trigger] variants@[j])@),
                            ),
                    decreases variants@.len() - i,
                {
                    let converted = to_case(variants[i].as_str(), CaseStyle::Pascal);
                    if converted.as_str().unicode_len() > MAX_EXPRESSION_LENGTH || !is_expression(
                        converted.as_str(),
                    ) {
                        proof {
                            let names = texts(variants@);
                            assert(names[i as int] == variants@[i as int]@);
                            assert(!is_variant_name(
                                case_converted(CaseStyle::Pascal, names[i as int]),
                            ));
                            assert(!variants_are_expressions(names));
                        }
                        return false;
                    }
                    i = i + 1;
                }
                assert forall|j: int| 0 <= j < texts(variants@).len() implies is_variant_name(
                    case_converted(CaseStyle::Pascal, #[trigger] texts(variants@)[j]),
                ) by {
                    assert(texts(variants@)[j] == variants@[j]@);
                }
                true
            },
            _ => true,
        }
    }

    /// The definition that the type needs beside its name, or the refusal of
    /// an enumeration with a variant that gives no variant of the definition.
    pub fn try_rust_type_definition(&self) -> (outcome: Result<Option<EnumDefinition>, ScaffoldError>)
        ensures
            match self@ {
                FieldKind::Enum { label, variants } => if variants_are_expressions(variants) {
                    outcome matches Ok(Some(d)) && d.name@ == label && texts(d.variants@)
                        == pascal_variants(variants)
                } else {
                    outcome matches Err(ScaffoldError::InvalidArguments(message)) && message@
                        == "Unable to parse"@
                },
                _ => outcome matches Ok(None),
            },
    {
        if self.has_type_definition_variants() {
            Ok(self.rust_type_definition())
        } else {
            Err(ScaffoldError::InvalidArguments(String::from_str("Unable to parse")))
        }
    }
}

/// No two selectable types are displayed alike.
pub proof fn display_names_differ()
    ensures
        forall|j: int, k: int|
            0 <= j < k < selectable_kinds().len() ==> display_name(#[trigger] selectable_kinds()[j])
                != display_name(#[trigger] selectable_kinds()[k]),
{
    reveal_strlit("bool");
    reveal_strlit("String");
    reveal_strlit("u32");
    reveal_strlit("i32");
    reveal_strlit("f32");
    reveal_strlit("Timestamp");
    reveal_strlit("AgentPubKey");
    reveal_strlit("ActionHash");
    reveal_strlit("EntryHash");
    reveal_strlit("DnaHash");
    reveal_strlit("Enum");
    assert("bool"@.len() == 4);
    assert("String"@.len() == 6);
    assert("u32"@.len() == 3);
    assert("Timestamp"@.len() == 9);
    assert("AgentPubKey"@.len() == 11);
    assert("ActionHash"@.len() == 10);
    assert("EntryHash"@.len() == 9);
    assert("DnaHash"@.len() == 7);
    assert("Enum"@.len() == 4);
    assert("u32"@[0] != "i32"@[0]);
    assert("u32"@[0] != "f32"@[0]);
    assert("i32"@[0] != "f32"@[0]);
    assert("bool"@[0] != "Enum"@[0]);
    assert("Timestamp"@[0] != "EntryHash"@[0]);
    assert("ActionHash"@[0] != "EntryHash"@[0]);
    assert forall|j: int, k: int| 0 <= j < k < selectable_kinds().len() implies display_name(
        #[trigger] selectable_kinds()[j],
    ) != display_name(#[trigger] selectable_kinds()[k]) by {
        assert(selectable_kinds()[j] == selectable_kind(j));
        assert(selectable_kinds()[k] == selectable_kind(k));
    }
}

/// Displaying a type and reading the name back gives the type again, for
/// every type but a labelled enumeration; an enumeration comes back as the
/// bare selector.
pub proof fn display_parse_round_trip(kind: FieldKind)
    ensures
        !(kind is Enum) ==> kind_named(display_name(kind)) == Some(kind),
        kind is Enum ==> kind_named(display_name(kind)) == Some(enum_selector()),
{
    display_names_differ();
    let kinds = selectable_kinds();
    let position: int = match kind {
        FieldKind::String => 0,
        FieldKind::Bool => 1,
        FieldKind::U32 => 2,
        FieldKind::I32 => 3,
        FieldKind::F32 => 4,
        FieldKind::Timestamp => 5,
        FieldKind::ActionHash => 6,
        FieldKind::EntryHash => 7,
        FieldKind::DnaHash => 8,
        FieldKind::AgentPubKey => 9,
        FieldKind::Enum { .. } => 10,
    };
    assert(display_name(kinds[position]) == display_name(kind));
    let found = choose|i: int| 0 <= i < kinds.len() && display_name(#[trigger] kinds[i]) == display_name(kind);
    assert(found == position);
}

} // verus!
